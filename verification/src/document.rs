//! Documents, and the stemmer and term generator that index text into them.

use vstd::prelude::*;
use crate::error::XError;
use crate::handle::ResourceHandle;
use crate::outcome::{settle, settled};

verus! {

/// A document: the unit of storage and retrieval. Its payload, value slots
/// and terms live in the engine; this side owns the native object.
pub struct Document<H> {
    cxxp: ResourceHandle<H>,
}

impl<H> View for Document<H> {
    type V = H;

    /// The native document.
    closed spec fn view(&self) -> H {
        self.cxxp@->Some_0
    }
}

impl<H> Document<H> {
    #[verifier::type_invariant]
    spec fn owns_native(&self) -> bool {
        self.cxxp@ is Some
    }

    /// The document the engine created: `native` is the object it returned,
    /// `err` the code it set. Zero alone is success.
    pub fn new(native: H, err: i8) -> (result: Result<Self, XError>)
        ensures
            err == 0 ==> (result matches Ok(document) && document@ == native),
            err != 0 ==> result == Err::<Self, XError>(XError::Xapian(err)),
    {
        if err == 0 {
            Ok(Document { cxxp: ResourceHandle::adopt(native) })
        } else {
            Err(XError::Xapian(err))
        }
    }

    /// The native document, for the engine to work on.
    pub fn native_mut(&mut self) -> (native: &mut H)
        ensures
            *native == old(self)@,
            final(self)@ == *final(native),
    {
        proof {
            use_type_invariant(&*self);
        }
        match self.cxxp.get_mut() {
            Some(native) => native,
            None => unreached(),
        }
    }

    /// Settles the writing of a text value into a slot. Zero alone is
    /// success.
    pub fn add_string(&self, err: i8) -> (result: Result<(), XError>)
        ensures
            result == settled((), err),
    {
        settle((), err)
    }

    /// Settles the writing of a 32-bit integer into a slot. Zero alone is
    /// success.
    pub fn add_int(&self, err: i8) -> (result: Result<(), XError>)
        ensures
            result == settled((), err),
    {
        settle((), err)
    }

    /// Settles the writing of a 64-bit integer into a slot. Zero alone is
    /// success.
    pub fn add_long(&self, err: i8) -> (result: Result<(), XError>)
        ensures
            result == settled((), err),
    {
        settle((), err)
    }

    /// Settles the writing of a floating-point number into a slot. Zero
    /// alone is success.
    pub fn add_double(&self, err: i8) -> (result: Result<(), XError>)
        ensures
            result == settled((), err),
    {
        settle((), err)
    }

    /// Settles the setting of the payload. Zero alone is success.
    pub fn set_data(&self, err: i8) -> (result: Result<(), XError>)
        ensures
            result == settled((), err),
    {
        settle((), err)
    }

    /// Settles the adding of a term without positions. Zero alone is
    /// success.
    pub fn add_boolean_term(&self, err: i8) -> (result: Result<(), XError>)
        ensures
            result == settled((), err),
    {
        settle((), err)
    }
}

/// A stemming algorithm for one language. It does not change once made.
pub struct Stem<H> {
    cxxp: ResourceHandle<H>,
}

impl<H> View for Stem<H> {
    type V = H;

    /// The native stemmer.
    closed spec fn view(&self) -> H {
        self.cxxp@->Some_0
    }
}

impl<H> Stem<H> {
    #[verifier::type_invariant]
    spec fn owns_native(&self) -> bool {
        self.cxxp@ is Some
    }

    /// The stemmer the engine created for a language. Zero alone is success.
    pub fn new(native: H, err: i8) -> (result: Result<Self, XError>)
        ensures
            err == 0 ==> (result matches Ok(stem) && stem@ == native),
            err != 0 ==> result == Err::<Self, XError>(XError::Xapian(err)),
    {
        if err == 0 {
            Ok(Stem { cxxp: ResourceHandle::adopt(native) })
        } else {
            Err(XError::Xapian(err))
        }
    }

    /// The native stemmer, for the engine to work on.
    pub fn native_mut(&mut self) -> (native: &mut H)
        ensures
            *native == old(self)@,
            final(self)@ == *final(native),
    {
        proof {
            use_type_invariant(&*self);
        }
        match self.cxxp.get_mut() {
            Some(native) => native,
            None => unreached(),
        }
    }
}

/// The builder that derives terms from text and numbers and adds them to the
/// document it is bound to.
pub struct TermGenerator<H> {
    cxxp: ResourceHandle<H>,
}

impl<H> View for TermGenerator<H> {
    type V = H;

    /// The native term generator.
    closed spec fn view(&self) -> H {
        self.cxxp@->Some_0
    }
}

impl<H> TermGenerator<H> {
    #[verifier::type_invariant]
    spec fn owns_native(&self) -> bool {
        self.cxxp@ is Some
    }

    /// The term generator the engine created. Zero alone is success.
    pub fn new(native: H, err: i8) -> (result: Result<Self, XError>)
        ensures
            err == 0 ==> (result matches Ok(generator) && generator@ == native),
            err != 0 ==> result == Err::<Self, XError>(XError::Xapian(err)),
    {
        if err == 0 {
            Ok(TermGenerator { cxxp: ResourceHandle::adopt(native) })
        } else {
            Err(XError::Xapian(err))
        }
    }

    /// The native term generator, for the engine to work on.
    pub fn native_mut(&mut self) -> (native: &mut H)
        ensures
            *native == old(self)@,
            final(self)@ == *final(native),
    {
        proof {
            use_type_invariant(&*self);
        }
        match self.cxxp.get_mut() {
            Some(native) => native,
            None => unreached(),
        }
    }

    /// Settles the attaching of a stemmer. Without one, text is indexed
    /// unstemmed. Zero alone is success.
    pub fn set_stemmer(&self, err: i8) -> (result: Result<(), XError>)
        ensures
            result == settled((), err),
    {
        settle((), err)
    }

    /// Settles the binding to a document. Binding again detaches the
    /// document bound before, without notice. Zero alone is success.
    pub fn set_document(&self, err: i8) -> (result: Result<(), XError>)
        ensures
            result == settled((), err),
    {
        settle((), err)
    }

    /// Settles the indexing of a text under a prefix. Zero alone is
    /// success.
    pub fn index_text_with_prefix(&self, err: i8) -> (result: Result<(), XError>)
        ensures
            result == settled((), err),
    {
        settle((), err)
    }

    /// Settles the indexing of a text without a prefix. Zero alone is
    /// success.
    pub fn index_text(&self, err: i8) -> (result: Result<(), XError>)
        ensures
            result == settled((), err),
    {
        settle((), err)
    }

    /// Settles the indexing of a 32-bit integer under a prefix. Zero
    /// alone is success.
    pub fn index_int(&self, err: i8) -> (result: Result<(), XError>)
        ensures
            result == settled((), err),
    {
        settle((), err)
    }

    /// Settles the indexing of a 64-bit integer under a prefix. Zero
    /// alone is success.
    pub fn index_long(&self, err: i8) -> (result: Result<(), XError>)
        ensures
            result == settled((), err),
    {
        settle((), err)
    }

    /// Settles the indexing of a single-precision number under a prefix.
    /// Zero alone is success.
    pub fn index_float(&self, err: i8) -> (result: Result<(), XError>)
        ensures
            result == settled((), err),
    {
        settle((), err)
    }

    /// Settles the indexing of a double-precision number under a prefix.
    /// Zero alone is success.
    pub fn index_double(&self, err: i8) -> (result: Result<(), XError>)
        ensures
            result == settled((), err),
    {
        settle((), err)
    }
}

} // verus!
