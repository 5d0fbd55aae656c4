//! NUL-terminated byte strings: reading the text at the front of a buffer and
//! building a terminated copy of a string.

use vstd::prelude::*;
use vstd::slice::slice_subrange;
use vstd::string::StringSliceAdditionalSpecFns;
use vstd::utf8::*;

verus! {

/// No byte of `b` is the terminator.
pub open spec fn nul_free(b: Seq<u8>) -> bool {
    forall|i: int| 0 <= i < b.len() ==> b[i] != 0
}

/// `p` is the position of the first terminator in `b`.
pub open spec fn is_first_nul(b: Seq<u8>, p: int) -> bool {
    &&& 0 <= p < b.len()
    &&& b[p] == 0
    &&& nul_free(b.subrange(0, p))
}

/// A C reader that starts at the front of `buf` finds exactly `content`:
/// those bytes, none of them a terminator, and then a terminator.
pub open spec fn reads_as(buf: Seq<u8>, content: Seq<u8>) -> bool {
    &&& content.len() < buf.len()
    &&& buf.subrange(0, content.len() as int) == content
    &&& buf[content.len() as int] == 0
    &&& nul_free(content)
}

/// A buffer reads as at most one content: the bytes before its first terminator.
pub proof fn reads_as_unique(buf: Seq<u8>, a: Seq<u8>, b: Seq<u8>)
    requires
        reads_as(buf, a),
        reads_as(buf, b),
    ensures
        a == b,
{
    if a.len() < b.len() {
        assert(b[a.len() as int] == buf[a.len() as int]);
    } else if b.len() < a.len() {
        assert(a[b.len() as int] == buf[b.len() as int]);
    }
    assert(a =~= b);
}

/// Why a string could not be made into a C string: it holds a NUL byte, and
/// `position` is where the first one stands.
#[derive(Clone, Copy, Debug, PartialEq, Eq)]
pub struct InteriorNul {
    pub position: usize,
}

/// Relies on std::str::from_utf8: it accepts exactly the well-formed UTF-8
/// byte sequences, and the string it hands back is made of those same bytes.
#[verifier::external_body]
fn str_from_utf8(b: &[u8]) -> (r: Option<&str>)
    ensures
        r is Some <==> valid_utf8(b@),
        r matches Some(s) ==> s.spec_bytes() == b@,
{
    std::str::from_utf8(b).ok()
}

/// The text of the C string at the front of `raw`: the bytes before its first
/// terminator, read as UTF-8. `None` when `raw` holds no terminator or those
/// bytes are not well-formed UTF-8.
pub fn c_str_text(raw: &[u8]) -> (r: Option<&str>)
    ensures
        r is Some <==> exists|c: Seq<u8>| reads_as(raw@, c) && valid_utf8(c),
        r matches Some(s) ==> reads_as(raw@, s.spec_bytes()),
        r matches Some(s) ==> s@ == decode_utf8(s.spec_bytes()),
{
    let mut n: usize = 0;
    while n < raw.len() && raw[n] != 0
        invariant
            n <= raw@.len(),
            nul_free(raw@.subrange(0, n as int)),
        decreases raw@.len() - n,
    {
        assert(raw@.subrange(0, n + 1) == raw@.subrange(0, n as int).push(raw@[n as int]));
        n = n + 1;
    }
    if n == raw.len() {
        assert forall|c: Seq<u8>| !reads_as(raw@, c) by {
            if reads_as(raw@, c) {
                assert(raw@.subrange(0, n as int)[c.len() as int] == raw@[c.len() as int]);
            }
        }
        return None;
    }
    let front = slice_subrange(raw, 0, n);
    assert(reads_as(raw@, front@));
    assert forall|c: Seq<u8>| reads_as(raw@, c) implies c == front@ by {
        reads_as_unique(raw@, c, front@);
    }
    let r = str_from_utf8(front);
    proof {
        if let Some(s) = r {
            encode_utf8_decode_utf8(s@);
        }
    }
    r
}

/// `s` as a C string: its bytes followed by one terminator. Refused, with the
/// position of the first one, when `s` already holds a NUL byte.
pub fn nul_terminated(s: &str) -> (r: Result<Vec<u8>, InteriorNul>)
    ensures
        r is Ok <==> nul_free(s.spec_bytes()),
        r matches Ok(b) ==> b@ == s.spec_bytes().push(0),
        r matches Err(e) ==> is_first_nul(s.spec_bytes(), e.position as int),
{
    let bytes = s.as_bytes();
    let mut out: Vec<u8> = Vec::new();
    let mut i: usize = 0;
    while i < bytes.len()
        invariant
            bytes@ == s.spec_bytes(),
            i <= bytes@.len(),
            out@ == bytes@.subrange(0, i as int),
            nul_free(out@),
        decreases bytes@.len() - i,
    {
        let byte = bytes[i];
        if byte == 0 {
            assert(is_first_nul(bytes@, i as int));
            return Err(InteriorNul { position: i });
        }
        out.push(byte);
        assert(bytes@.subrange(0, i + 1) == bytes@.subrange(0, i as int).push(byte));
        i = i + 1;
    }
    assert(bytes@.subrange(0, i as int) == bytes@);
    out.push(0);
    Ok(out)
}

} // verus!
