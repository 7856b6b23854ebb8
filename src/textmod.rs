//! Case-changing text commands.
use vstd::prelude::*;

verus! {

/// The Unicode upper case of a text.
pub uninterp spec fn upper_of(s: Seq<char>) -> Seq<char>;

/// The Unicode lower case of a text.
pub uninterp spec fn lower_of(s: Seq<char>) -> Seq<char>;

/// Relies on str::to_uppercase: the result depends on the characters alone, and an
/// empty text stays empty.
#[verifier::external_body]
fn uppercase(s: &str) -> (r: String)
    ensures
        r@ == upper_of(s@),
        s@.len() == 0 ==> r@.len() == 0,
{
    s.to_uppercase()
}

/// Relies on str::to_lowercase: the result depends on the characters alone, and an
/// empty text stays empty.
#[verifier::external_body]
fn lowercase(s: &str) -> (r: String)
    ensures
        r@ == lower_of(s@),
        s@.len() == 0 ==> r@.len() == 0,
{
    s.to_lowercase()
}

/// Which case a text is changed to.
#[derive(Clone, Copy, Debug, PartialEq, Eq, Structural)]
pub enum CaseChange {
    Upper,
    Lower,
}

/// `text` in the case that `kind` names.
pub fn change_case(kind: CaseChange, text: &str) -> (r: String)
    ensures
        kind == CaseChange::Upper ==> r@ == upper_of(text@),
        kind == CaseChange::Lower ==> r@ == lower_of(text@),
{
    match kind {
        CaseChange::Upper => uppercase(text),
        CaseChange::Lower => lowercase(text),
    }
}

} // verus!
