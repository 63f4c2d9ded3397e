//! Text building blocks: decimal rendering and the platform's mention formats.
use chrono::TimeZone;
use twilight_mention::Mention;
use twilight_util::snowflake::Snowflake;
use vstd::prelude::*;

verus! {

/// The character that writes one decimal digit.
pub open spec fn digit(d: nat) -> char {
    if d == 0 {
        '0'
    } else if d == 1 {
        '1'
    } else if d == 2 {
        '2'
    } else if d == 3 {
        '3'
    } else if d == 4 {
        '4'
    } else if d == 5 {
        '5'
    } else if d == 6 {
        '6'
    } else if d == 7 {
        '7'
    } else if d == 8 {
        '8'
    } else {
        '9'
    }
}

/// Decimal notation of a natural number, without sign or leading zeros.
pub open spec fn decimal(n: nat) -> Seq<char>
    decreases n,
{
    if n < 10 {
        seq![digit(n)]
    } else {
        decimal(n / 10).push(digit(n % 10))
    }
}

/// Every number is written with at least one digit, and every number from
/// ten on with at least two.
pub proof fn lemma_decimal_len(n: nat)
    ensures
        decimal(n).len() >= 1,
        n < 10 ==> decimal(n).len() == 1,
        n >= 10 ==> decimal(n).len() >= 2,
    decreases n,
{
    if n >= 10 {
        lemma_decimal_len(n / 10);
    }
}

/// Different numbers are written differently.
pub proof fn lemma_decimal_injective(a: nat, b: nat)
    requires
        decimal(a) == decimal(b),
    ensures
        a == b,
    decreases a,
{
    lemma_decimal_len(a);
    lemma_decimal_len(b);
    if a < 10 && b < 10 {
        assert(decimal(a)[0] == digit(a));
        assert(decimal(b)[0] == digit(b));
    } else if a >= 10 && b >= 10 {
        assert(decimal(a).last() == digit(a % 10));
        assert(decimal(b).last() == digit(b % 10));
        assert(decimal(a).drop_last() =~= decimal(a / 10));
        assert(decimal(b).drop_last() =~= decimal(b / 10));
        lemma_decimal_injective(a / 10, b / 10);
    }
}

/// A run of `n` zero characters.
pub open spec fn zeros(n: nat) -> Seq<char> {
    Seq::new(n, |i: int| '0')
}

/// `s` padded on the left with zeros to at least four characters.
pub open spec fn pad4(s: Seq<char>) -> Seq<char> {
    if s.len() < 4 {
        zeros((4 - s.len()) as nat) + s
    } else {
        s
    }
}

/// The platform's clickable reference to a user: `<@` id `>`.
pub open spec fn mention_text(id: u64) -> Seq<char> {
    "<@"@ + decimal(id as nat) + ">"@
}

/// The platform's relative-time tag for a moment: `<t:` seconds `:R>`.
pub open spec fn relative_time_text(secs: u64) -> Seq<char> {
    "<t:"@ + decimal(secs as nat) + ":R>"@
}

/// First millisecond of the platform's own epoch, in Unix time.
pub const PLATFORM_EPOCH_MILLIS: u64 = 1_420_070_400_000;

/// Unix milliseconds of the moment encoded in the high bits of an id.
pub open spec fn creation_millis(id: u64) -> int {
    (id >> 22) as int + PLATFORM_EPOCH_MILLIS as int
}

/// Unix seconds of the moment encoded in an id.
pub open spec fn creation_secs(id: u64) -> int {
    creation_millis(id) / 1000
}

/// Largest millisecond count that an id can encode.
pub const MAX_CREATION_MILLIS: i64 = 5_818_116_911_103;

/// Whether `s` begins with `prefix`.
pub open spec fn has_prefix(s: Seq<char>, prefix: Seq<char>) -> bool {
    prefix.len() <= s.len() && s.subrange(0, prefix.len() as int) == prefix
}

/// Whether the embed builder takes a text as the address of an image.
pub open spec fn image_url_accepted(url: Seq<char>) -> bool {
    has_prefix(url, "https:"@) || has_prefix(url, "http:"@)
}

/// Whether the platform's timestamp type can hold a count of Unix seconds.
pub uninterp spec fn timestamp_accepted(secs: i64) -> bool;

/// `u64`'s `Display` from std: the decimal notation of the number.
#[verifier::external_body]
pub(crate) fn decimal_string(n: u64) -> (text: String)
    ensures
        text@ == decimal(n as nat),
{
    n.to_string()
}

/// std's `{:04}` format of a `u16`: its decimal notation, zero-padded on the
/// left to a width of four.
#[verifier::external_body]
pub(crate) fn padded_decimal(n: u16) -> (text: String)
    ensures
        text@ == pad4(decimal(n as nat)),
{
    format!("{:04}", n)
}

/// `Mention::mention` of twilight-mention on a user id, rendered through
/// `Display`: the id in decimal between `<@` and `>`. The id type refuses
/// zero, which `requires` leaves out.
#[verifier::external_body]
pub(crate) fn user_mention(id: u64) -> (text: String)
    requires
        id != 0,
    ensures
        text@ == mention_text(id),
{
    twilight_model::id::Id::<twilight_model::id::marker::UserMarker>::new(id).mention().to_string()
}

/// `Timestamp::new` of twilight-mention with the relative-time style, rendered
/// through `Display`: the seconds in decimal between `<t:` and `:R>`.
#[verifier::external_body]
pub(crate) fn relative_time_mention(secs: u64) -> (text: String)
    ensures
        text@ == relative_time_text(secs),
{
    twilight_mention::timestamp::Timestamp::new(
        secs,
        Some(twilight_mention::timestamp::TimestampStyle::RelativeTime),
    ).mention().to_string()
}

/// `Snowflake::timestamp` of twilight-util on a user id: the id shifted right
/// by 22 bits, plus the platform's epoch, in milliseconds.
#[verifier::external_body]
pub(crate) fn snowflake_millis(id: u64) -> (millis: i64)
    requires
        id != 0,
    ensures
        millis == creation_millis(id),
{
    twilight_model::id::Id::<twilight_model::id::marker::UserMarker>::new(id).timestamp()
}

/// chrono's `Utc.timestamp_millis(..).timestamp()`: whole seconds of a
/// millisecond count. chrono panics far outside the range that `requires`
/// admits, which is the range an id can encode.
#[verifier::external_body]
#[allow(deprecated)]
pub(crate) fn millis_to_secs(millis: i64) -> (secs: i64)
    requires
        0 <= millis <= MAX_CREATION_MILLIS,
    ensures
        secs == millis / 1000,
{
    chrono::Utc.timestamp_millis(millis).timestamp()
}

/// `ImageSource::url` of twilight-util: it takes a text that starts with
/// `https:` or `http:` and refuses any other.
#[verifier::external_body]
pub(crate) fn image_url_ok(url: &str) -> (ok: bool)
    ensures
        ok == image_url_accepted(url@),
{
    twilight_util::builder::embed::ImageSource::url(url).is_ok()
}

/// `Timestamp::from_secs` of twilight-model: whether it takes the count of
/// seconds. The bounds belong to the calendar underneath and are not restated.
#[verifier::external_body]
pub(crate) fn timestamp_ok(secs: i64) -> (ok: bool)
    ensures
        ok == timestamp_accepted(secs),
{
    twilight_model::util::datetime::Timestamp::from_secs(secs).is_ok()
}

/// chrono's `Utc::now().timestamp()`: the clock's reading in Unix seconds.
/// Nothing is promised of it.
#[verifier::external_body]
pub(crate) fn unix_now() -> (secs: i64) {
    chrono::Utc::now().timestamp()
}

} // verus!
