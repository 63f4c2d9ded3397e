//! The `name#0042` form under which accounts appear in logs and audit records.
use crate::model::{CurrentUser, User};
use crate::text::{decimal, pad4, padded_decimal};
use vstd::prelude::*;
use vstd::string::*;

verus! {

/// `name`, a hash sign, and the discriminator padded to four digits.
pub open spec fn tuple_text(name: Seq<char>, discriminator: u16) -> Seq<char> {
    name + "#"@ + pad4(decimal(discriminator as nat))
}

/// A borrowed name and discriminator, ready to be written out.
pub struct UserTuple<'r>(pub &'r str, pub &'r u16);

impl<'r> UserTuple<'r> {
    /// The text `name#dddd`.
    pub fn to_text(&self) -> (text: String)
        ensures
            text@ == tuple_text(self.0@, *self.1),
    {
        let mut text = String::from_str(self.0);
        text.append("#");
        let digits = padded_decimal(*self.1);
        text.append(digits.as_str());
        text
    }
}

/// Accounts that can be shown as a [`UserTuple`].
pub trait UserExt {
    /// The name that the tuple borrows.
    spec fn tuple_name(&self) -> Seq<char>;

    /// The discriminator that the tuple borrows.
    spec fn tuple_discriminator(&self) -> u16;

    /// The account's name and discriminator, borrowed.
    fn as_tuple(&self) -> (tuple: UserTuple<'_>)
        ensures
            tuple.0@ == self.tuple_name(),
            *tuple.1 == self.tuple_discriminator(),
    ;
}

impl UserExt for User {
    open spec fn tuple_name(&self) -> Seq<char> {
        self.name@
    }

    open spec fn tuple_discriminator(&self) -> u16 {
        self.discriminator
    }

    fn as_tuple(&self) -> (tuple: UserTuple<'_>) {
        UserTuple(self.name.as_str(), &self.discriminator)
    }
}

impl UserExt for CurrentUser {
    open spec fn tuple_name(&self) -> Seq<char> {
        self.name@
    }

    open spec fn tuple_discriminator(&self) -> u16 {
        self.discriminator
    }

    fn as_tuple(&self) -> (tuple: UserTuple<'_>) {
        UserTuple(self.name.as_str(), &self.discriminator)
    }
}

} // verus!
