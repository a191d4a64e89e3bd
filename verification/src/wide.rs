//! Text read out of fixed-size, NUL-terminated UTF-16 buffers, as desktop
//! APIs fill them.

use vstd::prelude::*;
use vstd::slice::slice_subrange;

verus! {

/// The text that `String::from_utf16_lossy` decodes from `units`: UTF-16,
/// with U+FFFD in place of every unpaired surrogate.
pub uninterp spec fn utf16_lossy(units: Seq<u16>) -> Seq<char>;

/// Calls `String::from_utf16_lossy`, which accepts every slice.
#[verifier::external_body]
fn decode_utf16(units: &[u16]) -> (text: String)
    ensures
        text@ == utf16_lossy(units@),
{
    String::from_utf16_lossy(units)
}

/// Whether `at` is the place of the first zero unit of `buffer`.
pub open spec fn is_terminator(buffer: Seq<u16>, at: int) -> bool {
    &&& 0 <= at < buffer.len()
    &&& buffer[at] == 0
    &&& forall|i: int| 0 <= i < at ==> buffer[i] != 0
}

/// The units of `buffer` in front of its first zero unit; all of them where
/// it holds none.
pub open spec fn until_terminator(buffer: Seq<u16>) -> Seq<u16>
    decreases buffer.len(),
{
    if buffer.len() == 0 || buffer[0] == 0 {
        Seq::empty()
    } else {
        seq![buffer[0]] + until_terminator(buffer.drop_first())
    }
}

/// `until_terminator` is the prefix of the buffer that ends where the first
/// zero unit stands.
pub proof fn lemma_until_terminator(buffer: Seq<u16>, at: int)
    requires
        0 <= at <= buffer.len(),
        forall|i: int| 0 <= i < at ==> buffer[i] != 0,
        at < buffer.len() ==> buffer[at] == 0,
    ensures
        until_terminator(buffer) == buffer.take(at),
    decreases buffer.len(),
{
    if buffer.len() > 0 && buffer[0] != 0 {
        let rest = buffer.drop_first();
        assert forall|i: int| 0 <= i < at - 1 implies rest[i] != 0 by {
            assert(rest[i] == buffer[i + 1]);
        }
        lemma_until_terminator(rest, at - 1);
        assert(buffer.take(at) =~= seq![buffer[0]] + rest.take(at - 1));
    } else {
        assert(buffer.take(at) =~= Seq::<u16>::empty());
    }
}

/// The place of the first zero unit of `buffer`, where there is one.
pub fn find_terminator(buffer: &[u16]) -> (found: Option<usize>)
    ensures
        match found {
            Some(at) => is_terminator(buffer@, at as int),
            None => !buffer@.contains(0),
        },
{
    let mut at: usize = 0;
    while at < buffer.len()
        invariant
            at <= buffer.len(),
            forall|i: int| 0 <= i < at ==> buffer@[i] != 0,
        decreases buffer.len() - at,
    {
        if buffer[at] == 0 {
            return Some(at);
        }
        at += 1;
    }
    None
}

/// Decodes the text of a NUL-terminated UTF-16 buffer: the units in front of
/// the first zero, with U+FFFD for each unpaired surrogate.
pub fn from_u16(s: &[u16]) -> (text: String)
    requires
        s@.contains(0),
    ensures
        text@ == utf16_lossy(until_terminator(s@)),
{
    match find_terminator(s) {
        Some(at) => {
            proof {
                lemma_until_terminator(s@, at as int);
            }
            decode_utf16(slice_subrange(s, 0, at))
        },
        None => {
            proof {
                assert(false);
            }
            String::new()
        },
    }
}

/// As `from_u16`, for a buffer that may lack its terminator: `None` where no
/// unit is zero.
pub fn try_from_u16(s: &[u16]) -> (text: Option<String>)
    ensures
        text is Some <==> s@.contains(0),
        text matches Some(t) ==> t@ == utf16_lossy(until_terminator(s@)),
{
    match find_terminator(s) {
        Some(_) => Some(from_u16(s)),
        None => None,
    }
}

} // verus!
