//! The fault table as a value: for engines that number their faults
//! otherwise, the mapping from codes to the taxonomy can be changed entry by
//! entry.

use vstd::prelude::*;
use crate::error::{kind_of, ErrorKind, XError};

verus! {

/// A total mapping from fault codes to members of the taxonomy.
///
/// The standard table is the mapping that `kind_of` defines. A code that a
/// table has no better answer for is mapped to `ErrorKind::Unknown`, so a
/// lookup never fails.
pub struct FaultTable {
    kinds: Vec<ErrorKind>,
}

impl FaultTable {
    #[verifier::type_invariant]
    spec fn complete(&self) -> bool {
        self.kinds@.len() == 256
    }

    /// The member this table maps `code` to.
    pub closed spec fn spec_lookup(&self, code: i8) -> ErrorKind {
        self.kinds@[code as int + 128]
    }

    /// The table that maps every code to the catch-all member.
    pub fn new() -> (table: Self)
        ensures
            forall|code: i8| #[trigger] table.spec_lookup(code) == ErrorKind::Unknown,
    {
        let mut kinds: Vec<ErrorKind> = Vec::new();
        let mut filled: usize = 0;
        while filled < 256
            invariant
                filled <= 256,
                kinds@.len() == filled,
                forall|i: int| 0 <= i < filled ==> kinds@[i] == ErrorKind::Unknown,
            decreases 256 - filled,
        {
            kinds.push(ErrorKind::Unknown);
            filled += 1;
        }
        FaultTable { kinds }
    }

    /// The standard table.
    pub fn standard() -> (table: Self)
        ensures
            forall|code: i8| #[trigger] table.spec_lookup(code) == kind_of(code),
    {
        let mut kinds: Vec<ErrorKind> = Vec::new();
        let mut code: i16 = -128;
        while code < 128
            invariant
                -128 <= code <= 128,
                kinds@.len() == code + 128,
                forall|c: i8| c < code ==> kinds@[c as int + 128] == kind_of(c),
            decreases 128 - code,
        {
            kinds.push(ErrorKind::from_code(code as i8));
            code += 1;
        }
        FaultTable { kinds }
    }

    /// Maps `code` to `kind` from here on. Every other code keeps the member
    /// it had.
    pub fn set(&mut self, code: i8, kind: ErrorKind)
        ensures
            forall|c: i8| #[trigger]
                final(self).spec_lookup(c) == if c == code {
                    kind
                } else {
                    old(self).spec_lookup(c)
                },
    {
        proof {
            use_type_invariant(&*self);
        }
        let at: usize = (code as i16 + 128) as usize;
        self.kinds[at] = kind;
    }

    /// The member this table maps `code` to.
    pub fn lookup(&self, code: i8) -> (kind: ErrorKind)
        ensures
            kind == self.spec_lookup(code),
    {
        proof {
            use_type_invariant(self);
        }
        let at: usize = (code as i16 + 128) as usize;
        self.kinds[at]
    }

    /// The member of the taxonomy an error belongs to by this table.
    pub fn kind_of_error(&self, error: &XError) -> (kind: ErrorKind)
        ensures
            kind == match *error {
                XError::Xapian(code) => self.spec_lookup(code),
                XError::Io(_) => ErrorKind::Io,
            },
    {
        match error {
            XError::Xapian(code) => self.lookup(*code),
            XError::Io(_) => ErrorKind::Io,
        }
    }
}

} // verus!
