//! A resolved, playable track and how its length is shown.
use vstd::prelude::*;

verus! {

/// Milliseconds in a day; a track length is shown modulo this.
pub const DAY_MS: u64 = 86_400_000;

/// A resolved track: what the audio node plays and what is shown of it.
#[derive(Debug)]
pub struct Track {
    pub title: String,
    pub uri: String,
    pub source: String,
    pub length_ms: u64,
    pub author: String,
}

/// Two decimal digits of a number below one hundred.
pub open spec fn two_digits(n: int) -> Seq<char> {
    seq![crate::text::digit_char(n / 10), crate::text::digit_char(n % 10)]
}

/// A time of day in `hh:mm:ss` notation, from milliseconds; hours are taken modulo 24.
pub open spec fn hms_text(ms: nat) -> Seq<char> {
    two_digits(((ms / 3_600_000) % 24) as int) + seq![':'] + two_digits(((ms / 60_000) % 60) as int)
        + seq![':'] + two_digits(((ms / 1000) % 60) as int)
}

/// Relies on rust_clock's Clock: `set_time_ms` then `get_time` gives `hh:mm:ss`, each field
/// two digits wide, the hours taken modulo 24.
#[verifier::external_body]
fn clock_text(ms: u64) -> (r: String)
    requires
        ms <= 9_223_372_036_854_775_807,
    ensures
        r@ == hms_text(ms as nat),
{
    let mut clock = rust_clock::Clock::new();
    clock.set_time_ms(ms as i64);
    clock.get_time()
}

impl Clone for Track {
    fn clone(&self) -> (r: Track)
        ensures
            r == *self,
    {
        Track {
            title: self.title.clone(),
            uri: self.uri.clone(),
            source: self.source.clone(),
            length_ms: self.length_ms,
            author: self.author.clone(),
        }
    }
}

impl Track {
    /// The track's length as shown to users.
    pub fn length_text(&self) -> (r: String)
        ensures
            r@ == hms_text((self.length_ms % DAY_MS) as nat),
    {
        clock_text(self.length_ms % DAY_MS)
    }
}

} // verus!
