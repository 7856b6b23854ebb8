//! Anime and manga lookups: the numbered list of results, and reading which one the
//! user picked.
use vstd::prelude::*;
use vstd::string::*;
use crate::text::{append, append_decimal, chars_of, decimal, same_text};
use crate::timestamp::{number, numeric, parse_number};

verus! {

/// What a reply to the result list asks for.
#[derive(Clone, Copy, Debug, PartialEq, Eq, Structural)]
pub enum Choice {
    /// Stop asking.
    Abort,
    /// The result at this index, counted from 0.
    Pick(usize),
    /// Nothing that names a result: ask again.
    Invalid,
}

/// A reply without its leading `+`, if it has one.
pub open spec fn unsigned_part(s: Seq<char>) -> Seq<char> {
    if s.len() > 0 && s[0] == '+' {
        s.drop_first()
    } else {
        s
    }
}

/// What a reply asks for, where `count` results were listed: `abort`, or the number of
/// one of them (counted from 1). A negative or zero number names none.
pub open spec fn choice_of(reply: Seq<char>, count: nat) -> Choice {
    if reply == "abort"@ {
        Choice::Abort
    } else if numeric(unsigned_part(reply)) && 1 <= number(unsigned_part(reply)) <= count {
        Choice::Pick((number(unsigned_part(reply)) - 1) as usize)
    } else {
        Choice::Invalid
    }
}

/// Reads a reply to a list of `count` results.
pub fn read_choice(reply: &str, count: usize) -> (r: Choice)
    ensures
        r == choice_of(reply@, count as nat),
{
    if same_text(reply, "abort") {
        return Choice::Abort;
    }
    let n = reply.unicode_len();
    let digits = if n > 0 && reply.get_char(0) == '+' {
        chars_of(reply.substring_char(1, n))
    } else {
        chars_of(reply)
    };
    assert(reply@.len() > 0 && reply@[0] == '+' ==> reply@.subrange(1, n as int) =~= reply@.drop_first());
    match parse_number(&digits) {
        Some(v) => if v >= 1 && (v as u128) <= (count as u128) {
            Choice::Pick((v - 1) as usize)
        } else {
            Choice::Invalid
        },
        None => Choice::Invalid,
    }
}

/// The result list: one line `n. title` and an empty line per title, numbered from 1.
pub open spec fn numbered(titles: Seq<String>) -> Seq<char>
    decreases titles.len(),
{
    if titles.len() == 0 {
        seq![]
    } else {
        numbered(titles.drop_last()) + decimal(titles.len()) + ". "@ + titles.last()@ + "\n\n"@
    }
}

/// The result list for `titles`.
pub fn result_listing(titles: &Vec<String>) -> (r: String)
    ensures
        r@ == numbered(titles@),
{
    let mut s = String::new();
    let mut i: usize = 0;
    assert(titles@.subrange(0, 0) =~= Seq::<String>::empty());
    while i < titles.len()
        invariant
            i <= titles@.len(),
            s@ == numbered(titles@.subrange(0, i as int)),
        decreases titles@.len() - i,
    {
        append_decimal(&mut s, i as u64 + 1);
        append(&mut s, ". ");
        append(&mut s, titles[i].as_str());
        append(&mut s, "\n\n");
        proof {
            let prefix = titles@.subrange(0, i + 1);
            assert(prefix.drop_last() =~= titles@.subrange(0, i as int));
        }
        i += 1;
        assert(s@ =~= numbered(titles@.subrange(0, i as int)));
    }
    assert(titles@.subrange(0, i as int) =~= titles@);
    s
}

} // verus!
