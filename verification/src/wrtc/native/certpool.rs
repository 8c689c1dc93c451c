//! The certificate fingerprint announced in the local parameters.

use vstd::prelude::*;

verus! {

/// Whether every character of `s` is ASCII.
pub open spec fn all_ascii(s: Seq<char>) -> bool {
    forall|i: int| 0 <= i < s.len() ==> (#[trigger] s[i] as u32) < 128
}

/// The ASCII upper case of a character: `a` to `z` become `A` to `Z`.
pub open spec fn ascii_upper(c: char) -> char {
    if 97 <= (c as u32) <= 122 { ((c as u32) - 32) as char } else { c }
}

/// The ASCII upper case of a string.
pub open spec fn ascii_upper_str(s: Seq<char>) -> Seq<char> {
    s.map_values(|c: char| ascii_upper(c))
}

/// The upper case of a string as std's `str::to_uppercase` maps it
/// (Unicode's full case mapping, which may change a string's length).
pub uninterp spec fn unicode_upper(s: Seq<char>) -> Seq<char>;

/// The upper case of a string.
///
/// Wraps `str::to_uppercase`. The claim: the result depends on the
/// characters alone (it is named `unicode_upper`), and, as its
/// documentation and the Unicode case mapping give for ASCII text, ASCII
/// letters become upper case and every other ASCII character stays.
#[verifier::external_body]
fn to_uppercase(s: &str) -> (out: String)
    ensures
        out@ == unicode_upper(s@),
        all_ascii(s@) ==> out@ == ascii_upper_str(s@),
{
    s.to_uppercase()
}

/// The fingerprint to announce from a certificate's fingerprint values:
/// the first one in upper case, or empty when there is none.
pub fn fingerprint_of(values: &Vec<String>) -> (out: String)
    ensures
        values@.len() == 0 ==> out@.len() == 0,
        values@.len() > 0 ==> out@ == unicode_upper(values@[0]@),
        values@.len() > 0 && all_ascii(values@[0]@) ==> out@ == ascii_upper_str(values@[0]@),
{
    if values.len() == 0 {
        return String::new();
    }
    to_uppercase(values[0].as_str())
}

} // verus!
