//! Owned text buffers: a borrowed, call-duration text reference comes in,
//! a heap-allocated derivative crosses back with ownership, and the owner
//! releases it through the paired release operation. A process-wide
//! constant text can also be lent out without any release obligation.

use vstd::prelude::*;

verus! {

/// A heap-allocated byte buffer whose ownership has crossed the boundary.
/// It must be released exactly once, through [`drop_str`], which consumes
/// it by value; no other deallocation path exists.
pub struct OwnedText {
    bytes: Vec<u8>,
}

impl View for OwnedText {
    type V = Seq<u8>;

    closed spec fn view(&self) -> Seq<u8> {
        self.bytes@
    }
}

impl OwnedText {
    /// Borrow the contents for the duration of a call, without giving up
    /// ownership.
    pub fn as_bytes(&self) -> (r: &[u8])
        ensures
            r@ == self@,
    {
        self.bytes.as_slice()
    }
}

/// The fixed prefix (`"ok "` as bytes) that [`print`] places before the
/// borrowed text it was handed.
pub open spec fn reply_prefix() -> Seq<u8> {
    seq![111u8, 107u8, 32u8]
}

/// Takes a borrowed text reference, valid only for this call, and returns
/// a newly allocated derivative (the input prefixed with `"ok "`) whose
/// ownership passes to the caller. The borrowed input is never retained.
pub fn print(msg: &[u8]) -> (r: OwnedText)
    ensures
        r@ == reply_prefix() + msg@,
{
    let mut bytes: Vec<u8> = Vec::new();
    bytes.push(111);
    bytes.push(107);
    bytes.push(32);
    let mut i: usize = 0;
    while i < msg.len()
        invariant
            0 <= i <= msg@.len(),
            bytes@ == reply_prefix() + msg@.subrange(0, i as int),
        decreases msg@.len() - i,
    {
        let v = *vstd::slice::slice_index_get(msg, i);
        bytes.push(v);
        proof {
            assert(bytes@ =~= reply_prefix() + msg@.subrange(0, i + 1));
        }
        i = i + 1;
    }
    proof {
        assert(bytes@ =~= reply_prefix() + msg@);
    }
    OwnedText { bytes }
}

/// The paired release operation for [`OwnedText`]: consumes the buffer by
/// value and frees it. Because the buffer is taken by value, releasing it
/// a second time is not expressible.
pub fn drop_str(msg: OwnedText) {
    let _ = msg;
}

/// Returns a borrowed reference to process-wide constant text. Its
/// validity is tied to the process, not to this call, and the caller must
/// never attempt to free it.
pub fn get_str() -> (r: &'static str)
    ensures
        r@ == "123123"@,
{
    "123123"
}

} // verus!
