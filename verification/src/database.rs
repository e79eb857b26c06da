//! Databases: the handle for searching, and the handle for writing.

use vstd::prelude::*;
use crate::enquire::Enquire;
use crate::error::{XError, DATABASE_CLOSED};
use crate::handle::ResourceHandle;
use crate::outcome::{settle, settled};

verus! {

/// A database opened for searching: one store, or several seen as one.
///
/// A handle is open until it is closed with success. On a closed handle
/// every later operation, closing again included, fails with the fault for
/// a closed database, and the engine is not asked: a closed handle gives
/// nothing that could be handed to it.
pub struct Database<H> {
    cxxp: ResourceHandle<H>,
    closed: bool,
}

impl<H> View for Database<H> {
    type V = H;

    /// The native database.
    closed spec fn view(&self) -> H {
        self.cxxp@->Some_0
    }
}

/// What an operation on a database gives that the engine answered with
/// `err`: on a closed handle the fault for a closed database, else `value`
/// if the engine set no code and else the fault it reported.
pub open spec fn settled_on<T>(closed: bool, value: T, err: i8) -> Result<T, XError> {
    if closed {
        Err(XError::Xapian(DATABASE_CLOSED))
    } else {
        settled(value, err)
    }
}

impl<H> Database<H> {
    #[verifier::type_invariant]
    spec fn owns_native(&self) -> bool {
        self.cxxp@ is Some
    }

    /// Whether the handle has been closed.
    pub closed spec fn spec_is_closed(&self) -> bool {
        self.closed
    }

    fn opened(native: H, err: i8) -> (result: Result<Self, XError>)
        ensures
            err == 0 ==> (result matches Ok(database) && database@ == native
                && !database.spec_is_closed()),
            err != 0 ==> result == Err::<Self, XError>(XError::Xapian(err)),
    {
        if err == 0 {
            Ok(Database { cxxp: ResourceHandle::adopt(native), closed: false })
        } else {
            Err(XError::Xapian(err))
        }
    }

    /// The database with no store in it, as the engine created it: `native`
    /// is the object it returned, `err` the code it set. Zero alone is
    /// success. The handle is open.
    pub fn new(native: H, err: i8) -> (result: Result<Self, XError>)
        ensures
            err == 0 ==> (result matches Ok(database) && database@ == native
                && !database.spec_is_closed()),
            err != 0 ==> result == Err::<Self, XError>(XError::Xapian(err)),
    {
        Self::opened(native, err)
    }

    /// The database the engine opened on the store at a path. Zero alone is
    /// success. The handle is open.
    pub fn new_with_path(native: H, err: i8) -> (result: Result<Self, XError>)
        ensures
            err == 0 ==> (result matches Ok(database) && database@ == native
                && !database.spec_is_closed()),
            err != 0 ==> result == Err::<Self, XError>(XError::Xapian(err)),
    {
        Self::opened(native, err)
    }

    /// The native database of an open handle, for the engine to work on. A
    /// closed handle gives nothing to hand to the engine.
    pub fn open_native(&mut self) -> (native: Option<&mut H>)
        ensures
            (native is Some) == !old(self).spec_is_closed(),
            native matches Some(r) ==> *r == old(self)@ && final(self)@ == *final(r),
            native is None ==> final(self)@ == old(self)@,
            final(self).spec_is_closed() == old(self).spec_is_closed(),
    {
        proof {
            use_type_invariant(&*self);
        }
        if self.closed {
            None
        } else {
            self.cxxp.get_mut()
        }
    }

    /// What to hand to the engine to add `database` to the scope of `self`,
    /// in the order the engine takes it: the native database of `self`, then
    /// the native database to add. If either handle is closed there is
    /// nothing to hand over.
    pub fn addition<'a>(&'a mut self, database: &'a mut Database<H>) -> (hand: Option<
        (&'a mut H, &'a mut H),
    >)
        ensures
            (hand is Some) == (!old(self).spec_is_closed() && !old(database).spec_is_closed()),
            hand matches Some((scope, added)) ==> *scope == old(self)@ && *added == old(
                database,
            )@ && final(self)@ == *final(scope) && final(database)@ == *final(added),
            hand is None ==> final(self)@ == old(self)@ && final(database)@ == old(database)@,
            final(self).spec_is_closed() == old(self).spec_is_closed(),
            final(database).spec_is_closed() == old(database).spec_is_closed(),
    {
        proof {
            use_type_invariant(&*self);
            use_type_invariant(&*database);
        }
        if self.closed || database.closed {
            None
        } else {
            match (self.cxxp.get_mut(), database.cxxp.get_mut()) {
                (Some(scope), Some(added)) => Some((scope, added)),
                _ => unreached(),
            }
        }
    }

    /// Whether the handle has been closed.
    pub fn is_closed(&self) -> (closed: bool)
        ensures
            closed == self.spec_is_closed(),
    {
        self.closed
    }

    /// The session the engine created on this database. It holds no query
    /// and no sort key yet. On a closed handle the operation fails and the
    /// session is dropped.
    pub fn new_enquire<E, Q, K>(&self, native: E, err: i8) -> (result: Result<
        Enquire<E, Q, K>,
        XError,
    >)
        ensures
            !self.spec_is_closed() && err == 0 ==> (result matches Ok(session) && session@ == native
                && session.query() is None && session.sorter() is None),
            !self.spec_is_closed() && err != 0 ==> result == Err::<Enquire<E, Q, K>, XError>(
                XError::Xapian(err),
            ),
            self.spec_is_closed() ==> result == Err::<Enquire<E, Q, K>, XError>(
                XError::Xapian(DATABASE_CLOSED),
            ),
    {
        if self.closed {
            Err(XError::Xapian(DATABASE_CLOSED))
        } else {
            Enquire::new(native, err)
        }
    }

    /// Settles the adding of another database to the scope of this one. The
    /// other database is consumed, whatever the outcome. If either handle is
    /// closed the operation fails with the fault for a closed database;
    /// otherwise zero alone is success.
    pub fn add_database(&mut self, database: Database<H>, err: i8) -> (result: Result<
        (),
        XError,
    >)
        ensures
            *final(self) == *old(self),
            result == settled_on(
                old(self).spec_is_closed() || database.spec_is_closed(),
                (),
                err,
            ),
    {
        if self.closed || database.closed {
            Err(XError::Xapian(DATABASE_CLOSED))
        } else {
            settle((), err)
        }
    }

    /// Settles a refresh of the handle's view of the store. The handle
    /// itself is as before, so refreshing again starts from the same state.
    /// On a closed handle the operation fails with the fault for a closed
    /// database; otherwise zero alone is success.
    pub fn reopen(&mut self, err: i8) -> (result: Result<(), XError>)
        ensures
            *final(self) == *old(self),
            result == settled_on(old(self).spec_is_closed(), (), err),
    {
        if self.closed {
            Err(XError::Xapian(DATABASE_CLOSED))
        } else {
            settle((), err)
        }
    }

    /// Settles the closing of the handle. On an open handle zero alone is
    /// success, and with it the handle is closed; after a fault it is open
    /// as before. On a closed handle the operation fails with the fault for
    /// a closed database, and the handle stays closed.
    pub fn close(&mut self, err: i8) -> (result: Result<(), XError>)
        ensures
            final(self)@ == old(self)@,
            final(self).spec_is_closed() == (old(self).spec_is_closed() || err == 0),
            result == settled_on(old(self).spec_is_closed(), (), err),
    {
        proof {
            use_type_invariant(&*self);
        }
        if self.closed {
            Err(XError::Xapian(DATABASE_CLOSED))
        } else {
            if err == 0 {
                self.closed = true;
            }
            settle((), err)
        }
    }
}

/// On a closed handle reopening, closing, adding a database and starting a
/// session all fail with the fault for a closed database, whatever the
/// engine would have answered.
pub proof fn lemma_closed_handle_fails<T>(value: T, err: i8)
    ensures
        settled_on(true, value, err) == Err::<T, XError>(XError::Xapian(DATABASE_CLOSED)),
        settled_on(true, value, err)->Err_0.spec_kind() == crate::error::ErrorKind::DatabaseClosed,
{
}

/// A database opened for writing: exclusive access to one store. Changes
/// are held back until they are committed.
pub struct WritableDatabase<H> {
    cxxp: ResourceHandle<H>,
}

impl<H> View for WritableDatabase<H> {
    type V = H;

    /// The native database.
    closed spec fn view(&self) -> H {
        self.cxxp@->Some_0
    }
}

impl<H> WritableDatabase<H> {
    #[verifier::type_invariant]
    spec fn owns_native(&self) -> bool {
        self.cxxp@ is Some
    }

    /// The database the engine opened for writing on the store at a path,
    /// in one of the four open modes and for one of the backend kinds:
    /// `native` is the object it returned, `err` the code it set. Zero alone
    /// is success.
    pub fn new(native: H, err: i8) -> (result: Result<Self, XError>)
        ensures
            err == 0 ==> (result matches Ok(database) && database@ == native),
            err != 0 ==> result == Err::<Self, XError>(XError::Xapian(err)),
    {
        if err == 0 {
            Ok(WritableDatabase { cxxp: ResourceHandle::adopt(native) })
        } else {
            Err(XError::Xapian(err))
        }
    }

    /// The native database, for the engine to work on.
    pub fn native_mut(&mut self) -> (native: &mut H)
        ensures
            *native == old(self)@,
            final(self)@ == *final(native),
    {
        proof {
            use_type_invariant(&*self);
        }
        match self.cxxp.get_mut() {
            Some(native) => native,
            None => unreached(),
        }
    }

    /// Settles the deleting of the documents under a unique term. Zero
    /// alone is success.
    pub fn delete_document(&self, err: i8) -> (result: Result<(), XError>)
        ensures
            result == settled((), err),
    {
        settle((), err)
    }

    /// The id the engine assigned to the document that replaced those under
    /// a unique term, handed in as `docid`. Zero alone is success.
    pub fn replace_document(&self, docid: u32, err: i8) -> (result: Result<u32, XError>)
        ensures
            result == settled(docid, err),
    {
        settle(docid, err)
    }

    /// Settles the committing of the changes held back so far. Zero
    /// alone is success.
    pub fn commit(&self, err: i8) -> (result: Result<(), XError>)
        ensures
            result == settled((), err),
    {
        settle((), err)
    }

    /// The number of documents in the database, handed in as `count` as the
    /// engine returned it. Zero alone is success.
    pub fn get_doccount(&self, count: i32, err: i8) -> (result: Result<i32, XError>)
        ensures
            result == settled(count, err),
    {
        settle(count, err)
    }
}

} // verus!
