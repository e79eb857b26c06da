//! Queries and the parser that builds them from text.

use vstd::prelude::*;
use crate::codes::XapianOp;
use crate::database::Database;
use crate::error::{XError, DATABASE_CLOSED, INVALID_ARGUMENT};
use crate::handle::ResourceHandle;
use crate::outcome::{settle, settled};

verus! {

/// A query: an expression over terms that the engine built, or the empty
/// query, which was never built and holds no native object.
///
/// Combining two queries consumes both and gives a new one; a query is never
/// shared between two owners.
pub struct Query<H> {
    cxxp: ResourceHandle<H>,
}

impl<H> View for Query<H> {
    type V = Option<H>;

    /// The native expression, or `None` for the empty query.
    closed spec fn view(&self) -> Option<H> {
        self.cxxp@
    }
}

impl<H> Query<H> {
    /// What building a query gives: the query that owns `native` when the
    /// engine set no code, else the fault it reported.
    pub open spec fn built(native: H, err: i8, result: Result<Self, XError>) -> bool {
        if err == 0 {
            result matches Ok(query) && query@ == Some(native)
        } else {
            result == Err::<Self, XError>(XError::Xapian(err))
        }
    }

    fn build(native: H, err: i8) -> (result: Result<Self, XError>)
        ensures
            Self::built(native, err, result),
    {
        if err == 0 {
            Ok(Query { cxxp: ResourceHandle::adopt(native) })
        } else {
            Err(XError::Xapian(err))
        }
    }

    /// The empty query. It never fails.
    pub fn new() -> (result: Result<Self, XError>)
        ensures
            result matches Ok(query) && query@ is None,
    {
        Ok(Query { cxxp: ResourceHandle::null() })
    }

    /// The range query the engine built: `native` is the expression it
    /// returned, `err` the code it set. Zero alone is success.
    pub fn new_range(native: H, err: i8) -> (result: Result<Self, XError>)
        ensures
            Self::built(native, err, result),
    {
        Self::build(native, err)
    }

    /// What to hand to the engine to combine `self` with `q` under `op`, in
    /// the order the engine takes it: the native expression of `self` as the
    /// left operand, the number of the operator, and the native expression
    /// of `q` as the right operand. There is nothing to hand over if either
    /// is the empty query.
    pub fn operands<'a>(&'a mut self, op: XapianOp, q: &'a mut Query<H>) -> (hand: Option<
        (&'a mut H, i32, &'a mut H),
    >)
        ensures
            (hand is Some) == (old(self)@ is Some && old(q)@ is Some),
            hand matches Some((left, code, right)) ==> *left == old(self)@->Some_0 && code
                == op.spec_code() && *right == old(q)@->Some_0 && final(self)@ == Some(
                *final(left),
            ) && final(q)@ == Some(*final(right)),
            hand is None ==> final(self)@ == old(self)@ && final(q)@ == old(q)@,
    {
        match (self.cxxp.get_mut(), q.cxxp.get_mut()) {
            (Some(left), Some(right)) => Some((left, op.code(), right)),
            _ => None,
        }
    }

    /// What combining gives: with an empty operand the fault for an invalid
    /// argument, whatever the engine was asked or answered; else the query
    /// that owns `native` when the engine set no code, and else the fault it
    /// reported.
    pub open spec fn combined(
        left: Option<H>,
        right: Option<H>,
        native: H,
        err: i8,
        result: Result<Self, XError>,
    ) -> bool {
        if left is None || right is None {
            result == Err::<Self, XError>(XError::Xapian(INVALID_ARGUMENT))
        } else {
            Self::built(native, err, result)
        }
    }

    /// The query the engine built from `self` on the left and `q` on the
    /// right. Both operands are consumed, whatever the outcome.
    ///
    /// The empty query has no expression that could be handed to the
    /// engine. Combining with it fails with `InvalidArgumentError`, and the
    /// engine is not asked: `operands` gives nothing to hand over, and
    /// `native` and `err` are not looked at. Otherwise zero alone is
    /// success.
    pub fn add_right(self, q: Query<H>, native: H, err: i8) -> (result: Result<Self, XError>)
        ensures
            Self::combined(self@, q@, native, err, result),
    {
        if self.cxxp.is_null() || q.cxxp.is_null() {
            Err(XError::Xapian(INVALID_ARGUMENT))
        } else {
            Self::build(native, err)
        }
    }

    /// The query for one value under a prefix, as the engine built it. Zero
    /// alone is success.
    pub fn new_double_with_prefix(native: H, err: i8) -> (result: Result<Self, XError>)
        ensures
            Self::built(native, err, result),
    {
        Self::build(native, err)
    }

    /// Whether this is the empty query: one that was never built.
    pub open spec fn spec_is_empty(&self) -> bool {
        self@ is None
    }

    /// Whether the query matches nothing by its content, given the
    /// engine's answer `vacuous` and the code `err` it set: the empty query
    /// does, without the engine; for a built query the answer is the
    /// engine's, or the fault it reported.
    pub open spec fn spec_is_empty_content_query(&self, vacuous: bool, err: i8) -> Result<
        bool,
        XError,
    > {
        if self@ is None {
            Ok(true)
        } else {
            settled(vacuous, err)
        }
    }

    /// Whether this is the empty query: one that was never built.
    pub fn is_empty(&self) -> (empty: bool)
        ensures
            empty == self.spec_is_empty(),
    {
        self.cxxp.is_null()
    }

    /// Whether the query matches nothing by its content. The empty query
    /// does; the engine is not asked, and `vacuous` and `err` are not looked
    /// at. For a built one, `vacuous` is the engine's answer and `err` the
    /// code it set: zero alone is success, and a fault reaches the caller
    /// as a fault, apart from the answer that the query matches nothing.
    pub fn is_empty_content_query(&self, vacuous: bool, err: i8) -> (result: Result<
        bool,
        XError,
    >)
        ensures
            result == self.spec_is_empty_content_query(vacuous, err),
            self@ is None ==> result == Ok::<bool, XError>(true),
            self@ is Some ==> result == settled(vacuous, err),
    {
        if self.cxxp.is_null() {
            Ok(true)
        } else {
            settle(vacuous, err)
        }
    }

    /// The description of the query: the engine's, handed in as
    /// `description`, for a built query, and the empty text for the empty
    /// one.
    pub fn get_description(&self, description: String) -> (text: String)
        ensures
            text@ == if self@ is None {
                Seq::<char>::empty()
            } else {
                description@
            },
    {
        if !self.cxxp.is_null() {
            return description;
        }
        String::new()
    }

    /// The native expression, for the engine to work on; `None` for the
    /// empty query.
    pub fn native_mut(&mut self) -> (native: Option<&mut H>)
        ensures
            (native is Some) == (old(self)@ is Some),
            native matches Some(r) ==> *r == old(self)@->Some_0 && final(self)@ == Some(*final(r)),
            native is None ==> final(self)@ is None,
    {
        self.cxxp.get_mut()
    }
}

/// The empty query and a query that matches nothing are told apart. A
/// query fresh from `new` is empty, and matches nothing whatever the engine
/// would say of it. A query the engine built with success, as by parsing a
/// text, is not empty, even where it matches nothing: whether it does is
/// the engine's answer, and a fault the engine reports for the question is
/// neither answer.
pub proof fn lemma_empty_query_distinction<H>(
    fresh: Query<H>,
    parsed: Query<H>,
    native: H,
    vacuous: bool,
    err: i8,
)
    requires
        fresh@ is None,
        Query::built(native, 0, Ok(parsed)),
    ensures
        fresh.spec_is_empty(),
        fresh.spec_is_empty_content_query(vacuous, err) == Ok::<bool, XError>(true),
        !parsed.spec_is_empty(),
        parsed.spec_is_empty_content_query(vacuous, 0) == Ok::<bool, XError>(vacuous),
        err != 0 ==> parsed.spec_is_empty_content_query(vacuous, err) == Err::<bool, XError>(
            XError::Xapian(err),
        ),
{
}

/// Combining with the empty query gives a result and not an abort: the
/// fault for an invalid argument, on either side and whatever the engine
/// would have answered.
pub proof fn lemma_empty_operand_is_refused<H>(
    left: Option<H>,
    right: Option<H>,
    native: H,
    err: i8,
    result: Result<Query<H>, XError>,
)
    requires
        left is None || right is None,
        Query::combined(left, right, native, err, result),
    ensures
        result is Err,
        result->Err_0 == XError::Xapian(INVALID_ARGUMENT),
        result->Err_0.spec_kind() == crate::error::ErrorKind::InvalidArgument,
{
}

/// The parser that turns text into queries.
pub struct QueryParser<H> {
    cxxp: ResourceHandle<H>,
}

impl<H> View for QueryParser<H> {
    type V = H;

    /// The native parser.
    closed spec fn view(&self) -> H {
        self.cxxp@->Some_0
    }
}

impl<H> QueryParser<H> {
    #[verifier::type_invariant]
    spec fn owns_native(&self) -> bool {
        self.cxxp@ is Some
    }

    /// The parser the engine created: `native` is the object it returned,
    /// `err` the code it set. Zero alone is success.
    pub fn new(native: H, err: i8) -> (result: Result<Self, XError>)
        ensures
            err == 0 ==> (result matches Ok(parser) && parser@ == native),
            err != 0 ==> result == Err::<Self, XError>(XError::Xapian(err)),
    {
        if err == 0 {
            Ok(QueryParser { cxxp: ResourceHandle::adopt(native) })
        } else {
            Err(XError::Xapian(err))
        }
    }

    /// The native parser, for the engine to work on.
    pub fn native_mut(&mut self) -> (native: &mut H)
        ensures
            *native == old(self)@,
            final(self)@ == *final(native),
    {
        proof {
            use_type_invariant(&*self);
        }
        match self.cxxp.get_mut() {
            Some(native) => native,
            None => unreached(),
        }
    }

    /// Settles the setting of the cap on wildcard expansion. Zero alone is
    /// success.
    pub fn set_max_wildcard_expansion(&self, err: i8) -> (result: Result<(), XError>)
        ensures
            result == settled((), err),
    {
        settle((), err)
    }

    /// Settles the attaching of a stemmer. Zero alone is success.
    pub fn set_stemmer(&self, err: i8) -> (result: Result<(), XError>)
        ensures
            result == settled((), err),
    {
        settle((), err)
    }

    /// Settles the attaching of a database, for the features that need
    /// one. Attaching again detaches the database attached before, without
    /// notice. A closed database cannot be attached: the operation fails
    /// with the fault for a closed database, and the engine is not asked.
    /// Otherwise zero alone is success.
    pub fn set_database<D>(&self, database: &Database<D>, err: i8) -> (result: Result<
        (),
        XError,
    >)
        ensures
            database.spec_is_closed() ==> result == Err::<(), XError>(
                XError::Xapian(DATABASE_CLOSED),
            ),
            !database.spec_is_closed() ==> result == settled((), err),
    {
        if database.is_closed() {
            Err(XError::Xapian(DATABASE_CLOSED))
        } else {
            settle((), err)
        }
    }

    /// The query the engine parsed from a text under a set of syntax
    /// features.
    ///
    /// The features are handed to the engine as they are. Those that need a
    /// database (wildcards, partial matching, spelling correction and the
    /// synonym features) are not checked against one being attached: what
    /// becomes of them without a database is the engine's decision, and a
    /// fault it reports for it is surfaced like any other.
    pub fn parse_query<Q>(&self, native: Q, err: i8) -> (result: Result<Query<Q>, XError>)
        ensures
            Query::built(native, err, result),
    {
        Query::build(native, err)
    }

    /// The query the engine parsed from a text under a set of syntax
    /// features and a default prefix. The features are handed to the engine
    /// as they are, as in `parse_query`.
    pub fn parse_query_with_prefix<Q>(&self, native: Q, err: i8) -> (result: Result<
        Query<Q>,
        XError,
    >)
        ensures
            Query::built(native, err, result),
    {
        Query::build(native, err)
    }
}

} // verus!
