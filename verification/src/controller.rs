//! Model of the per-call controller of the native runtime.
//!
//! A controller carries the status of one in-flight RPC — a raw numeric
//! status code, 0 meaning success — and the two side-channel binary
//! payloads attached to the call: the request attachment filled by the
//! peer and the response attachment filled by the handler. Reading the
//! typed error always goes through the total error mapper.

use vstd::prelude::*;
use crate::error::{error_of_code, BrpcError};
use crate::zero_copy::{flat_bytes, ZeroCopyBuf};

verus! {

/// Copy a byte vector; the copy holds exactly the same bytes.
fn clone_bytes(v: &Vec<u8>) -> (r: Vec<u8>)
    ensures
        r@ == v@,
{
    let r = v.clone();
    proof {
        assert forall|i: int| 0 <= i < r@.len() implies r@[i] == v@[i] by {
            assert(cloned::<u8>(v@[i], r@[i]));
        }
        assert(r@ =~= v@);
    }
    r
}

/// Read cursor over one byte payload.
fn cursor_over(data: &Vec<u8>) -> (z: ZeroCopyBuf)
    ensures
        z.wf(),
        z@ == data@,
{
    let copy = clone_bytes(data);
    let n = copy.len();
    let mut segs: Vec<Vec<u8>> = Vec::new();
    segs.push(copy);
    proof {
        let views = segs@.map_values(|v: Vec<u8>| v@);
        assert(views.len() == 1);
        views.lemma_flatten_one_element();
        assert(flat_bytes(views) == data@);
    }
    ZeroCopyBuf::from_segments(segs)
}

/// Status and attachments of one in-flight call.
pub struct Controller {
    /// Raw status code of the call; 0 means the call has not failed.
    pub error_code: i32,
    /// Side-channel binary payload that arrived with the request.
    pub request_data: Vec<u8>,
    /// Side-channel binary payload to be sent with the response.
    pub response_data: Vec<u8>,
}

impl Controller {
    /// A fresh controller: not failed, both attachments empty.
    pub fn new() -> (c: Controller)
        ensures
            c.error_code == 0,
            c.request_data@ == Seq::<u8>::empty(),
            c.response_data@ == Seq::<u8>::empty(),
    {
        let c = Controller { error_code: 0, request_data: Vec::new(), response_data: Vec::new() };
        proof {
            assert(c.request_data@ =~= Seq::<u8>::empty());
            assert(c.response_data@ =~= Seq::<u8>::empty());
        }
        c
    }

    /// Whether the call has failed: exactly when the status code is
    /// nonzero.
    pub fn failed(&self) -> (r: bool)
        ensures
            r == (self.error_code != 0),
    {
        self.error_code != 0
    }

    /// The typed error of the call, through the total error mapper.
    pub fn error(&self) -> (e: BrpcError)
        ensures
            e == error_of_code(self.error_code as int),
    {
        BrpcError::from(self.error_code)
    }

    /// Mark the call failed with the given raw status code (as a
    /// server-side handler does). Attachments are untouched.
    pub fn set_failed(&mut self, code: i32)
        ensures
            final(self).error_code == code,
            final(self).request_data@ == old(self).request_data@,
            final(self).response_data@ == old(self).response_data@,
    {
        self.error_code = code;
    }

    /// Load the request attachment of the call (as the transport does when
    /// the request arrives). Status and response attachment are untouched.
    pub fn set_request_attachment(&mut self, data: Vec<u8>)
        ensures
            final(self).request_data@ == data@,
            final(self).error_code == old(self).error_code,
            final(self).response_data@ == old(self).response_data@,
    {
        self.request_data = data;
    }

    /// Append bytes to the response attachment (as a handler streaming a
    /// payload back does). Status and request attachment are untouched.
    pub fn append_response(&mut self, data: &[u8])
        ensures
            final(self).response_data@ == old(self).response_data@ + data@,
            final(self).error_code == old(self).error_code,
            final(self).request_data@ == old(self).request_data@,
    {
        self.response_data.extend_from_slice(data);
        proof {
            assert forall|i: int| 0 <= i < self.response_data@.len() implies self.response_data@[i]
                == (old(self).response_data@ + data@)[i] by {
                if i >= old(self).response_data@.len() {
                    assert(cloned::<u8>(data@[i - old(self).response_data@.len()],
                        self.response_data@[i]));
                }
            }
            assert(self.response_data@ =~= old(self).response_data@ + data@);
        }
    }

    /// A read cursor over the request attachment.
    pub fn request_attachment(&self) -> (z: ZeroCopyBuf)
        ensures
            z.wf(),
            z@ == self.request_data@,
    {
        cursor_over(&self.request_data)
    }

    /// A read cursor over the response attachment.
    pub fn response_attachment(&self) -> (z: ZeroCopyBuf)
        ensures
            z.wf(),
            z@ == self.response_data@,
    {
        cursor_over(&self.response_data)
    }
}

impl Default for Controller {
    /// Same as `Controller::new`.
    fn default() -> (c: Controller)
        ensures
            c.error_code == 0,
            c.request_data@ == Seq::<u8>::empty(),
            c.response_data@ == Seq::<u8>::empty(),
    {
        Controller::new()
    }
}

} // verus!
