//! The decisions of a client call: which server to expect on an encrypted
//! connection, and what the caller gets from the one response frame.

use bytes::Bytes;
use vstd::prelude::*;
use vstd::utf8::{encode_utf8, is_char_boundary};

use crate::frame::{ResponseErrorKind, ResponseFrame};

verus! {

broadcast use vstd::utf8::group_utf8_lib;

/// The byte `:` that separates the host from the port in an address.
pub const PORT_SEPARATOR: u8 = 58;

/// What a call returns for the response frame it read: the payload, or the
/// error that the server reported.
pub fn response_result(frame: ResponseFrame) -> (r: Result<Bytes, ResponseErrorKind>)
    ensures
        match frame {
            ResponseFrame::Payload(b) => r == Ok::<Bytes, ResponseErrorKind>(b),
            ResponseFrame::Error(k) => r == Err::<Bytes, ResponseErrorKind>(k),
        },
{
    match frame {
        ResponseFrame::Payload(b) => Ok(b),
        ResponseFrame::Error(k) => Err(k),
    }
}

/// The host part of an address `host:port`: everything before the first
/// `:`, or the whole address when it has none. It is the server name that an
/// encrypted connection expects.
pub fn server_name(addr: &str) -> (r: &str)
    ensures
        ({
            let b = encode_utf8(addr@);
            let k = encode_utf8(r@).len() as int;
            &&& k <= b.len()
            &&& encode_utf8(r@) == b.take(k)
            &&& k == b.len() || b[k] == PORT_SEPARATOR
            &&& forall|j: int| 0 <= j < k ==> b[j] != PORT_SEPARATOR
        }),
{
    let b = addr.as_bytes();
    let mut k: usize = 0;
    while k < b.len() && b[k] != PORT_SEPARATOR
        invariant
            b@ == encode_utf8(addr@),
            k <= b@.len(),
            forall|j: int| 0 <= j < k ==> b@[j] != PORT_SEPARATOR,
        decreases b@.len() - k,
    {
        k = k + 1;
    }
    proof {
        if k < b@.len() {
            assert(!vstd::utf8::is_continuation_byte(b@[k as int]));
            vstd::utf8::is_char_boundary_iff_not_is_continuation_byte(b@, k as int);
            assert(is_char_boundary(b@, k as int));
        } else {
            assert(is_char_boundary(b@, b@.len() as int));
        }
    }
    let (host, _) = addr.split_at(k);
    proof {
        assert(encode_utf8(host@) =~= b@.take(k as int));
    }
    host
}

} // verus!
