//! Interned name strings for error events.
//!
//! Module, class and function names that travel through the error pipeline
//! are held in `smol_str::SmolStr`, a cheap immutable string. The type is
//! opaque to the verifier; `smol_text` names the text a value holds.
use vstd::prelude::*;

verus! {

#[verifier::external_type_specification]
#[verifier::external_body]
pub struct ExSmolStr(smol_str::SmolStr);

/// The text held by a `SmolStr`.
pub uninterp spec fn smol_text(s: smol_str::SmolStr) -> Seq<char>;

/// Relies on smol_str::SmolStr::new: builds an immutable string holding
/// exactly the given text.
#[verifier::external_body]
pub fn smol_new(text: &str) -> (r: smol_str::SmolStr)
    ensures
        smol_text(r) == text@,
{
    smol_str::SmolStr::new(text)
}

/// Character-wise string equality.
pub fn str_eq(a: &str, b: &str) -> (r: bool)
    ensures
        r == (a@ == b@),
{
    let n = a.unicode_len();
    if n != b.unicode_len() {
        return false;
    }
    let mut i: usize = 0;
    while i < n
        invariant
            i <= n,
            n == a@.len(),
            n == b@.len(),
            forall|j: int| 0 <= j < i ==> a@[j] == b@[j],
        decreases n - i,
    {
        if a.get_char(i) != b.get_char(i) {
            return false;
        }
        i += 1;
    }
    proof {
        assert(a@ =~= b@);
    }
    true
}

} // verus!
