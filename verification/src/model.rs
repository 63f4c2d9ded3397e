//! Plain values that stand for what the platform delivers and accepts.
use vstd::prelude::*;

verus! {

/// An account as the platform reports it. The avatar is the text form of the
/// account's image hash.
#[derive(Clone, Debug, PartialEq, Eq)]
pub struct User {
    pub id: u64,
    pub name: String,
    pub discriminator: u16,
    pub bot: bool,
    pub avatar: Option<String>,
}

impl User {
    /// Platform ids are never zero.
    pub open spec fn wf(&self) -> bool {
        self.id != 0
    }
}

/// The account that the process itself is signed in as.
#[derive(Clone, Debug, PartialEq, Eq)]
pub struct CurrentUser {
    pub id: u64,
    pub name: String,
    pub discriminator: u16,
}

/// What the gateway delivered, reduced to what the handlers read.
#[derive(Clone, Debug, PartialEq, Eq)]
#[allow(inconsistent_fields)]
pub enum Event {
    Ready { user: CurrentUser },
    MemberAdd { guild_id: u64, user: User },
    MemberRemove { guild_id: u64, user: User },
    MessageCreate { guild_id: Option<u64>, author: User, content: String },
    Other,
}

impl Event {
    /// Every account that the event carries is well formed.
    pub open spec fn wf(&self) -> bool {
        match *self {
            Event::MemberAdd { user, .. } => user.wf(),
            Event::MemberRemove { user, .. } => user.wf(),
            Event::MessageCreate { author, .. } => author.wf(),
            _ => true,
        }
    }
}

/// One name and value pair shown in an embed.
#[derive(Clone, Debug, PartialEq, Eq)]
pub struct EmbedField {
    pub name: String,
    pub value: String,
    pub inline: bool,
}

/// An embed field as plain text.
pub struct EmbedFieldView {
    pub name: Seq<char>,
    pub value: Seq<char>,
    pub inline: bool,
}

impl View for EmbedField {
    type V = EmbedFieldView;

    open spec fn view(&self) -> EmbedFieldView {
        EmbedFieldView { name: self.name@, value: self.value@, inline: self.inline }
    }
}

/// A rich message: the audit record of an arrival or a departure.
#[derive(Clone, Debug, PartialEq, Eq)]
pub struct Embed {
    pub title: Option<String>,
    pub description: String,
    pub color: Option<u32>,
    pub fields: Vec<EmbedField>,
    pub timestamp: i64,
    pub thumbnail: Option<String>,
}

/// An embed as plain text, field by field.
pub struct EmbedView {
    pub title: Option<Seq<char>>,
    pub description: Seq<char>,
    pub color: Option<u32>,
    pub fields: Seq<EmbedFieldView>,
    pub timestamp: i64,
    pub thumbnail: Option<Seq<char>>,
}

/// The characters of an optional text.
pub open spec fn text_of(s: Option<String>) -> Option<Seq<char>> {
    match s {
        Some(t) => Some(t@),
        None => None,
    }
}

impl View for Embed {
    type V = EmbedView;

    open spec fn view(&self) -> EmbedView {
        EmbedView {
            title: text_of(self.title),
            description: self.description@,
            color: self.color,
            fields: self.fields@.map_values(|f: EmbedField| f@),
            timestamp: self.timestamp,
            thumbnail: text_of(self.thumbnail),
        }
    }
}

/// Why a handler or a delayed greeting gave up.
#[derive(Clone, Copy, Debug, PartialEq, Eq, Structural)]
pub enum GreetError {
    /// The current time does not fit the platform's timestamp.
    Timestamp,
    /// The avatar address was refused as an image source.
    Thumbnail,
    /// The template could not be rendered.
    Render,
    /// A platform call failed.
    Platform,
    /// A reply arrived that the greeting was not waiting for.
    Unexpected,
}

} // verus!
