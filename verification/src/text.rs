//! Text handling of the write path: decoding the bytes that a producer
//! hands over, and decorating a fragment for display.

use vstd::prelude::*;
use vstd::string::*;
use vstd::utf8::*;

verus! {

/// The text that `String::from_utf8_lossy` makes of `bytes`: the decoded
/// characters, with U+FFFD in place of every invalid sequence.
pub uninterp spec fn utf8_lossy(bytes: Seq<u8>) -> Seq<char>;

/// `String::from_utf8_lossy`, as an owned string. The call never fails. Its
/// result is named by [`utf8_lossy`]; for bytes that are valid UTF-8 it is
/// the text that they encode.
#[verifier::external_body]
pub(crate) fn decode_lossy(bytes: &[u8]) -> (text: String)
    ensures
        text@ == utf8_lossy(bytes@),
        valid_utf8(bytes@) ==> text@ == decode_utf8(bytes@),
{
    String::from_utf8_lossy(bytes).into_owned()
}

/// The payload that is delivered for a fragment: its text between two
/// backticks, so that the sink shows it as code.
pub open spec fn wrapped(text: Seq<char>) -> Seq<char> {
    seq!['`'] + text + seq!['`']
}

/// Decorates a fragment for display.
pub fn wrap_fragment(text: &str) -> (payload: String)
    ensures
        payload@ == wrapped(text@),
{
    proof {
        reveal_strlit("`");
    }
    let mut payload = String::from_str("`");
    payload.append(text);
    payload.append("`");
    assert(payload@ =~= wrapped(text@));
    payload
}

/// Whether two strings hold the same text.
pub fn same_text(left: &str, right: &str) -> (same: bool)
    ensures
        same == (left@ == right@),
{
    let a = left.as_bytes();
    let b = right.as_bytes();
    proof {
        // Two texts with the same encoding are the same text.
        encode_utf8_decode_utf8(left@);
        encode_utf8_decode_utf8(right@);
    }
    if a.len() != b.len() {
        return false;
    }
    let mut i: usize = 0;
    while i < a.len()
        invariant
            i <= a.len(),
            a.len() == b.len(),
            a@ == encode_utf8(left@),
            b@ == encode_utf8(right@),
            forall|j: int| 0 <= j < i ==> a@[j] == b@[j],
        decreases a.len() - i,
    {
        if a[i] != b[i] {
            return false;
        }
        i += 1;
    }
    assert(a@ =~= b@);
    true
}

} // verus!
