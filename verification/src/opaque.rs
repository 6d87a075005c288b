//! The opaque handle: a heap object whose field layout is never described
//! to the foreign side. All access goes through the declared operations:
//! [`create`] allocates and initializes it, [`call_and_get_x`] reads it
//! through a borrow (invoking the stored callback exactly once with the
//! stored path), and [`destroy`] consumes the handle by value, so that a
//! destroyed handle cannot be used or destroyed again.

use vstd::prelude::*;

verus! {

/// A stored callback that is handed the object's path on each invocation.
/// `history` is the sequence of paths it has observed, oldest first; each
/// invocation appends exactly the path it was handed.
pub trait PathCallback {
    /// The paths this callback has observed so far, oldest first.
    spec fn history(&self) -> Seq<Seq<u8>>;

    /// Observe one path.
    fn on_path(&mut self, path: &[u8])
        ensures
            final(self).history() == old(self).history().push(path@),
    ;
}

/// A [`PathCallback`] that records every path it observes, so the
/// invocations of a stored callback can be inspected afterwards.
pub struct RecordingPathCallback {
    seen: Vec<Vec<u8>>,
}

impl RecordingPathCallback {
    pub fn new() -> (r: Self)
        ensures
            r.history() == Seq::<Seq<u8>>::empty(),
    {
        RecordingPathCallback { seen: Vec::new() }
    }

    /// How many paths have been observed.
    pub fn seen_count(&self) -> (r: usize)
        ensures
            r == self.history().len(),
    {
        self.seen.len()
    }

    /// The `i`-th observed path, oldest first.
    pub fn seen_at(&self, i: usize) -> (r: &Vec<u8>)
        requires
            i < self.history().len(),
        ensures
            r@ == self.history()[i as int],
    {
        &self.seen[i]
    }
}

impl PathCallback for RecordingPathCallback {
    closed spec fn history(&self) -> Seq<Seq<u8>> {
        self.seen@.map_values(|v: Vec<u8>| v@)
    }

    fn on_path(&mut self, path: &[u8]) {
        self.seen.push(vstd::slice::slice_to_vec(path));
        proof {
            assert(self.history() =~= old(self).history().push(path@));
        }
    }
}

/// The opaque heap object: a path, a stored callback whose lifetime is
/// tied to the object's own, and one plain field. The fields are private;
/// the foreign side reaches them only through the declared operations.
pub struct ComplicatedStruct<C: PathCallback> {
    path: Vec<u8>,
    cb: C,
    x: i32,
}

impl<C: PathCallback> ComplicatedStruct<C> {
    /// The stored path.
    pub closed spec fn path_val(&self) -> Seq<u8> {
        self.path@
    }

    /// The stored callback.
    pub closed spec fn cb_val(&self) -> C {
        self.cb
    }

    /// The stored plain field.
    pub closed spec fn x_val(&self) -> i32 {
        self.x
    }

    /// Borrow the stored callback, e.g. to inspect what it has observed.
    pub fn callback(&self) -> (r: &C)
        ensures
            *r == self.cb_val(),
    {
        &self.cb
    }
}

/// The path every new object is created with: `"/tmp"` as bytes.
pub open spec fn default_path() -> Seq<u8> {
    seq![47u8, 116u8, 109u8, 112u8]
}

/// Allocates a new opaque object owning the given callback, with the
/// fixed path `"/tmp"` and field value 42, and returns the one owning
/// handle to it. Creation never fails; each call returns an independent
/// object whose state is fully determined by its arguments.
pub fn create<C: PathCallback>(cb: C) -> (r: ComplicatedStruct<C>)
    ensures
        r.path_val() == default_path(),
        r.x_val() == 42,
        r.cb_val() == cb,
{
    let mut path: Vec<u8> = Vec::new();
    path.push(47);
    path.push(116);
    path.push(109);
    path.push(112);
    proof {
        assert(path@ =~= default_path());
    }
    ComplicatedStruct { path, cb, x: 42 }
}

/// Reads the object through a borrow: invokes the stored callback exactly
/// once, handing it the stored path, and returns the stored field value.
/// The handle is not consumed, and path and field are left unchanged.
pub fn call_and_get_x<C: PathCallback>(it: &mut ComplicatedStruct<C>) -> (r: i32)
    ensures
        r == old(it).x_val(),
        final(it).x_val() == old(it).x_val(),
        final(it).path_val() == old(it).path_val(),
        final(it).cb_val().history() == old(it).cb_val().history().push(old(it).path_val()),
{
    it.cb.on_path(it.path.as_slice());
    it.x
}

/// The paired release operation for [`create`]: takes the handle by
/// value, dropping the object together with everything it owns (the path
/// and the stored callback). Because the handle is consumed, no further
/// operation on a destroyed handle is expressible.
pub fn destroy<C: PathCallback>(it: ComplicatedStruct<C>) {
    let _ = it;
}

} // verus!
