//! Exclusive ownership of one engine-native object.

use vstd::prelude::*;

verus! {

/// The one owner of an engine-native object, or of none.
///
/// A handle is either null or holds exactly one native object. It cannot be
/// copied, so a native object has at most one owner at any time; moving the
/// handle moves the ownership with it. The native object is destroyed when
/// its handle goes out of scope, or earlier by `release`, after which the
/// handle is null and holds nothing that could be destroyed again. The
/// object can be reached for change only through exclusive access to the
/// handle.
pub struct ResourceHandle<H> {
    native: Option<H>,
}

impl<H> View for ResourceHandle<H> {
    type V = Option<H>;

    closed spec fn view(&self) -> Option<H> {
        self.native
    }
}

impl<H> ResourceHandle<H> {
    /// A handle that owns nothing.
    pub fn null() -> (handle: Self)
        ensures
            handle@ is None,
    {
        ResourceHandle { native: None }
    }

    /// Takes ownership of a native object.
    pub fn adopt(native: H) -> (handle: Self)
        ensures
            handle@ == Some(native),
    {
        ResourceHandle { native: Some(native) }
    }

    /// Whether the handle owns nothing.
    pub fn is_null(&self) -> (null: bool)
        ensures
            null == (self@ is None),
    {
        self.native.is_none()
    }

    /// The native object, for reading.
    pub fn get(&self) -> (native: Option<&H>)
        ensures
            (native is Some) == (self@ is Some),
            native is Some ==> *native->Some_0 == self@->Some_0,
    {
        self.native.as_ref()
    }

    /// The native object, for change. The handle keeps owning it: whatever
    /// the caller makes of the object is what the handle holds afterwards.
    pub fn get_mut(&mut self) -> (native: Option<&mut H>)
        ensures
            (native is Some) == (old(self)@ is Some),
            native matches Some(r) ==> *r == old(self)@->Some_0 && final(self)@ == Some(*final(r)),
            native is None ==> final(self)@ is None,
        no_unwind
    {
        match &mut self.native {
            Some(h) => Some(h),
            None => None,
        }
    }

    /// Gives the native object up, to be destroyed or kept by the caller.
    /// The handle is null afterwards, so a second release finds nothing.
    pub fn release(&mut self) -> (native: Option<H>)
        ensures
            native == old(self)@,
            final(self)@ is None,
    {
        self.native.take()
    }
}

} // verus!
