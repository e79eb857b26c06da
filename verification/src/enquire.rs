//! Query execution: the session, the window of results it returns, the
//! cursor over a window, and the composite sort key.

use vstd::prelude::*;
use crate::error::{XError, INVALID_ARGUMENT};
use crate::handle::ResourceHandle;
use crate::outcome::{settle, settled};
use crate::query::Query;

verus! {

/// A composite sort key: the engine compares results by its components in
/// the order they were added, the first added first.
pub struct MultiValueKeyMaker<H> {
    cxxp: ResourceHandle<H>,
}

impl<H> View for MultiValueKeyMaker<H> {
    type V = H;

    /// The native key maker.
    closed spec fn view(&self) -> H {
        self.cxxp@->Some_0
    }
}

impl<H> MultiValueKeyMaker<H> {
    #[verifier::type_invariant]
    spec fn owns_native(&self) -> bool {
        self.cxxp@ is Some
    }

    /// The key maker the engine created: `native` is the object it returned,
    /// `err` the code it set. Zero alone is success.
    pub fn new(native: H, err: i8) -> (result: Result<Self, XError>)
        ensures
            err == 0 ==> (result matches Ok(maker) && maker@ == native),
            err != 0 ==> result == Err::<Self, XError>(XError::Xapian(err)),
    {
        if err == 0 {
            Ok(MultiValueKeyMaker { cxxp: ResourceHandle::adopt(native) })
        } else {
            Err(XError::Xapian(err))
        }
    }

    /// The native key maker, for the engine to work on.
    pub fn native_mut(&mut self) -> (native: &mut H)
        ensures
            *native == old(self)@,
            final(self)@ == *final(native),
    {
        proof {
            use_type_invariant(&*self);
        }
        match self.cxxp.get_mut() {
            Some(native) => native,
            None => unreached(),
        }
    }

    /// Settles the adding of one component. Zero alone is success.
    pub fn add_value(&self, err: i8) -> (result: Result<(), XError>)
        ensures
            result == settled((), err),
    {
        settle((), err)
    }
}

/// A window of ranked results, with the engine's estimate of how many
/// documents match in all.
pub struct MSet<H> {
    cxxp: ResourceHandle<H>,
}

impl<H> View for MSet<H> {
    type V = H;

    /// The native window.
    closed spec fn view(&self) -> H {
        self.cxxp@->Some_0
    }
}

impl<H> MSet<H> {
    #[verifier::type_invariant]
    spec fn owns_native(&self) -> bool {
        self.cxxp@ is Some
    }

    /// The native window, for the engine to work on.
    pub fn native_mut(&mut self) -> (native: &mut H)
        ensures
            *native == old(self)@,
            final(self)@ == *final(native),
    {
        proof {
            use_type_invariant(&*self);
        }
        match self.cxxp.get_mut() {
            Some(native) => native,
            None => unreached(),
        }
    }

    /// A cursor over the window, at its first position. It never fails.
    pub fn iterator(&mut self) -> (result: Result<MSetIterator<'_, H>, i8>)
        ensures
            result matches Ok(cursor) && cursor.index == 0 && *cursor.mset == *old(self)
                && *final(cursor.mset) == *final(self),
    {
        Ok(MSetIterator { mset: self, index: 0 })
    }

    /// The engine's estimate of the number of matching documents, handed in
    /// as `estimate`. Zero alone is success.
    pub fn get_matches_estimated(&self, estimate: i32, err: i8) -> (result: Result<i32, XError>)
        ensures
            result == settled(estimate, err),
    {
        settle(estimate, err)
    }
}

/// A cursor over the positions of one window, from the first onwards.
///
/// It only moves forward: `next` steps to the following position and stops
/// behind the last. Reading at the cursor does not move it. To walk the
/// window again, set `index` back to zero.
pub struct MSetIterator<'a, H> {
    pub mset: &'a mut MSet<H>,
    pub index: i32,
}

/// The position a cursor at `index` is at after one step over a window of
/// `size` results.
pub open spec fn stepped(index: i32, size: i32) -> i32 {
    if size > index {
        (index + 1) as i32
    } else {
        index
    }
}

/// The position a cursor at `index` is at after `steps` steps over a window
/// of `size` results.
pub open spec fn stepped_by(index: i32, size: i32, steps: nat) -> i32
    decreases steps,
{
    if steps == 0 {
        index
    } else {
        stepped(stepped_by(index, size, (steps - 1) as nat), size)
    }
}

impl<'a, H> MSetIterator<'a, H> {
    /// What to hand to the engine to read at the cursor: the native window
    /// and the position of the cursor. The cursor stays where it is.
    pub fn position(&mut self) -> (hand: (&mut H, i32))
        ensures
            *hand.0 == old(self).mset@,
            hand.1 == old(self).index,
            final(self).index == old(self).index,
            final(self).mset@ == *final(hand.0),
    {
        let index = self.index;
        (self.mset.native_mut(), index)
    }

    /// Whether there is a result at the cursor: `size` is the size of the
    /// window as the engine reported it, `err` the code it set. Zero alone
    /// is success.
    pub fn is_next(&self, size: i32, err: i8) -> (result: Result<bool, XError>)
        ensures
            result == settled(size > self.index, err),
    {
        settle(size > self.index, err)
    }

    /// Steps to the following position, unless the cursor is behind the
    /// last already: `size` is the size of the window as the engine
    /// reported it, `err` the code it set. The cursor moves by the size
    /// reported, whatever the code; zero alone is success.
    pub fn next(&mut self, size: i32, err: i8) -> (result: Result<(), XError>)
        ensures
            final(self).index == stepped(old(self).index, size),
            *final(self).mset == *old(self).mset,
            *final(final(self).mset) == *final(old(self).mset),
            result == settled((), err),
    {
        if size > self.index {
            self.index += 1;
        }
        settle((), err)
    }

    /// The payload of the result at the cursor, handed in as `data` as the
    /// engine returned it, unchanged. Zero alone is success. The cursor
    /// stays where it is.
    pub fn get_document_data(&self, data: String, err: i8) -> (result: Result<String, XError>)
        ensures
            result == settled(data, err),
    {
        settle(data, err)
    }
}

/// A cursor inside a window, or just behind it, stays there, and a step
/// moves it by one position exactly when there is a result at the cursor.
pub proof fn lemma_step_stays_in_window(index: i32, size: i32)
    requires
        0 <= index <= size,
    ensures
        index <= stepped(index, size) <= size,
        stepped(index, size) == index + 1 <==> index < size,
        stepped(index, size) == index <==> index == size,
{
}

/// Walking a window from its first position visits the positions in order,
/// one per step, and then rests behind the last: after `steps` steps the
/// cursor is at `steps`, or behind the last position if that comes first.
pub proof fn lemma_walk_from_first(size: i32, steps: nat)
    requires
        0 <= size,
    ensures
        stepped_by(0, size, steps) == if steps <= size {
            steps as int
        } else {
            size as int
        },
    decreases steps,
{
    if steps > 0 {
        lemma_walk_from_first(size, (steps - 1) as nat);
    }
}

/// A query execution session on one database. It keeps the query and the
/// sort key it was last handed, so that both live as long as the engine may
/// refer to them.
pub struct Enquire<E, Q, K> {
    cxxp: ResourceHandle<E>,
    query: Option<Query<Q>>,
    sorter: Option<MultiValueKeyMaker<K>>,
}

impl<E, Q, K> View for Enquire<E, Q, K> {
    type V = E;

    /// The native session.
    closed spec fn view(&self) -> E {
        self.cxxp@->Some_0
    }
}

impl<E, Q, K> Enquire<E, Q, K> {
    #[verifier::type_invariant]
    spec fn owns_native(&self) -> bool {
        self.cxxp@ is Some
    }

    /// The query the session holds, if it was handed one.
    pub closed spec fn query(&self) -> Option<Query<Q>> {
        self.query
    }

    /// The sort key the session holds, if it was handed one.
    pub closed spec fn sorter(&self) -> Option<MultiValueKeyMaker<K>> {
        self.sorter
    }

    /// The session the engine created on a database. It holds no query and
    /// no sort key yet. Zero alone is success.
    pub(crate) fn new(native: E, err: i8) -> (result: Result<Self, XError>)
        ensures
            err == 0 ==> (result matches Ok(session) && session@ == native
                && session.query() is None && session.sorter() is None),
            err != 0 ==> result == Err::<Self, XError>(XError::Xapian(err)),
    {
        if err == 0 {
            Ok(Enquire { cxxp: ResourceHandle::adopt(native), query: None, sorter: None })
        } else {
            Err(XError::Xapian(err))
        }
    }

    /// The native session, for the engine to work on. The query and the
    /// sort key stay as they are.
    pub fn native_mut(&mut self) -> (native: &mut E)
        ensures
            *native == old(self)@,
            final(self)@ == *final(native),
            final(self).query() == old(self).query(),
            final(self).sorter() == old(self).sorter(),
    {
        proof {
            use_type_invariant(&*self);
        }
        match self.cxxp.get_mut() {
            Some(native) => native,
            None => unreached(),
        }
    }

    /// Whether the session holds a query.
    pub fn has_query(&self) -> (held: bool)
        ensures
            held == (self.query() is Some),
    {
        self.query.is_some()
    }

    /// Whether the session holds a sort key.
    pub fn has_sorter(&self) -> (held: bool)
        ensures
            held == (self.sorter() is Some),
    {
        self.sorter.is_some()
    }

    /// The window the engine retrieved: `native` is the object it returned,
    /// `err` the code it set. Zero alone is success. The session is not
    /// changed.
    pub fn get_mset<M>(&self, native: M, err: i8) -> (result: Result<MSet<M>, XError>)
        ensures
            err == 0 ==> (result matches Ok(window) && window@ == native),
            err != 0 ==> result == Err::<MSet<M>, XError>(XError::Xapian(err)),
    {
        if err == 0 {
            Ok(MSet { cxxp: ResourceHandle::adopt(native) })
        } else {
            Err(XError::Xapian(err))
        }
    }

    /// Takes the query to execute. The session owns a built query from
    /// here on, whatever the engine answered, in place of the one it held;
    /// zero alone is success.
    ///
    /// The empty query has no expression that could be handed to the
    /// engine. Taking it fails with `InvalidArgumentError`, the engine is
    /// not asked, and the session keeps the query it held.
    pub fn set_query(&mut self, query: Query<Q>, err: i8) -> (result: Result<(), XError>)
        ensures
            final(self)@ == old(self)@,
            final(self).sorter() == old(self).sorter(),
            query@ is None ==> result == Err::<(), XError>(XError::Xapian(INVALID_ARGUMENT))
                && final(self).query() == old(self).query(),
            query@ is Some ==> final(self).query() == Some(query) && result == settled((), err),
    {
        proof {
            use_type_invariant(&*self);
        }
        if query.is_empty() {
            Err(XError::Xapian(INVALID_ARGUMENT))
        } else {
            self.query = Some(query);
            settle((), err)
        }
    }

    /// Takes the sort key to order results by. The session owns it from
    /// here on, whatever the engine answered, in place of the one it held.
    /// A session that was handed none orders by relevance. Zero alone is
    /// success.
    pub fn set_sort_by_key(&mut self, sorter: MultiValueKeyMaker<K>, err: i8) -> (result: Result<
        (),
        XError,
    >)
        ensures
            final(self)@ == old(self)@,
            final(self).sorter() == Some(sorter),
            final(self).query() == old(self).query(),
            result == settled((), err),
    {
        proof {
            use_type_invariant(&*self);
        }
        self.sorter = Some(sorter);
        settle((), err)
    }
}

} // verus!
