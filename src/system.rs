//! The reply to an environment lookup, as the bytes of a C string.

use vstd::prelude::*;
use vstd::string::StringSliceAdditionalSpecFns;
use vstd::utf8::*;

use crate::c_string::{is_first_nul, nul_free, nul_terminated, reads_as, InteriorNul};

verus! {

/// The bytes that a lookup contributes to its reply: the value's UTF-8 bytes
/// when the variable is set, and none when it is not.
pub open spec fn lookup_bytes(value: Option<Seq<char>>) -> Seq<u8> {
    match value {
        Some(v) => encode_utf8(v),
        None => Seq::empty(),
    }
}

/// The reply to a lookup: the bytes it contributes, then one terminator.
pub open spec fn env_reply_bytes(value: Option<Seq<char>>) -> Seq<u8> {
    lookup_bytes(value).push(0)
}

/// The NUL-terminated reply to a lookup that found `value` (`None`: the
/// variable is unset). An unset variable gets the empty C string, the same
/// reply as a variable set to the empty string. A value holding a NUL byte
/// cannot be expressed as a C string and is refused.
pub fn env_reply(value: Option<&str>) -> (r: Result<Vec<u8>, InteriorNul>)
    ensures
        r is Ok <==> nul_free(lookup_bytes(value.deep_view())),
        r matches Ok(b) ==> b@ == env_reply_bytes(value.deep_view()),
        r matches Err(e) ==> is_first_nul(lookup_bytes(value.deep_view()), e.position as int),
        value is None ==> (r matches Ok(b) && reads_as(b@, Seq::empty())),
        value matches Some(v) ==> (nul_free(v.spec_bytes()) ==> (r matches Ok(b) && b@
            == v.spec_bytes().push(0))),
{
    match value {
        Some(v) => nul_terminated(v),
        None => {
            let mut out: Vec<u8> = Vec::new();
            out.push(0);
            assert(out@.subrange(0, 0) =~= Seq::<u8>::empty());
            assert(reads_as(out@, Seq::empty()));
            assert(out@ =~= env_reply_bytes(value.deep_view()));
            Ok(out)
        },
    }
}

/// A C reader that meets a reply finds the looked-up value's bytes, or
/// nothing when the variable is unset.
pub proof fn reply_reads_back(value: Option<Seq<char>>)
    requires
        nul_free(lookup_bytes(value)),
    ensures
        reads_as(env_reply_bytes(value), lookup_bytes(value)),
{
    assert(env_reply_bytes(value).subrange(0, lookup_bytes(value).len() as int) =~= lookup_bytes(
        value,
    ));
}

/// An unset variable and one set to the empty string get the same reply.
pub proof fn unset_reply_equals_empty_reply()
    ensures
        env_reply_bytes(None) == env_reply_bytes(Some(Seq::<char>::empty())),
{
    assert(encode_utf8(Seq::<char>::empty()) =~= Seq::<u8>::empty());
}

/// Replies are built afresh from the value found: two lookups that find the
/// same value get byte-identical replies, whatever came before.
pub proof fn replies_agree_on_same_value(first: Option<Seq<char>>, second: Option<Seq<char>>)
    requires
        first == second,
    ensures
        env_reply_bytes(first) == env_reply_bytes(second),
{
}

} // verus!
