//! Whitespace in body text: trimming, and telling blank text apart.

use vstd::prelude::*;

verus! {

/// Unicode's White_Space property, which `char::is_whitespace` tests and
/// `str::trim` strips: tab through carriage return, space, next line,
/// no-break space, ogham space mark, the spaces from en quad to hair space,
/// line and paragraph separators, narrow no-break space, medium mathematical
/// space and ideographic space.
pub open spec fn white_space(c: char) -> bool {
    let u = c as u32;
    ||| 0x09 <= u <= 0x0D
    ||| u == 0x20
    ||| u == 0x85
    ||| u == 0xA0
    ||| u == 0x1680
    ||| 0x2000 <= u <= 0x200A
    ||| u == 0x2028
    ||| u == 0x2029
    ||| u == 0x202F
    ||| u == 0x205F
    ||| u == 0x3000
}

/// Text made of whitespace only (the empty text included).
pub open spec fn is_blank(s: Seq<char>) -> bool {
    forall|i: int| 0 <= i < s.len() ==> #[trigger] white_space(s[i])
}

/// Relies on `str::trim`: the sub-slice left once leading and trailing
/// White_Space characters are removed. The result is the stretch of `s` that
/// starts at some `a`; everything outside it is whitespace, and it neither
/// starts nor ends with whitespace.
#[verifier::external_body]
fn trim(s: &str) -> (r: &str)
    ensures
        r@.len() <= s@.len(),
        exists|a: int|
            0 <= a <= s@.len() - r@.len() && r@ == #[trigger] s@.subrange(a, a + r@.len()) && (forall|i: int|
                0 <= i < s@.len() && !(a <= i < a + r@.len()) ==> #[trigger] white_space(s@[i])),
        r@.len() > 0 ==> !white_space(r@[0]) && !white_space(r@[r@.len() - 1]),
{
    s.trim()
}

/// Whether `s` is empty once trimmed, that is whether it holds whitespace only.
pub fn is_blank_text(s: &str) -> (r: bool)
    ensures
        r == is_blank(s@),
{
    let t = trim(s);
    let r = t.is_empty();
    proof {
        let a = choose|a: int|
            0 <= a <= s@.len() - t@.len() && t@ == #[trigger] s@.subrange(a, a + t@.len()) && (forall|i: int|
                0 <= i < s@.len() && !(a <= i < a + t@.len()) ==> #[trigger] white_space(s@[i]));
        if !r {
            assert(t@[0] == s@[a]);
        }
    }
    r
}

} // verus!
