//! The error model: fault codes, the taxonomy they map into, and the error
//! value every fallible operation returns.

use vstd::prelude::*;
use vstd::string::StringExecFns;

verus! {

/// `std::io::Error`, the error of the host's own input and output. It is
/// declared so that an error value can carry one through unchanged; nothing
/// is known of what it holds.
#[verifier::external_type_specification]
#[verifier::external_body]
pub struct ExIoError(std::io::Error);

/// The closed taxonomy of failures.
///
/// Every fault code the engine can report maps to exactly one member; a code
/// outside the table maps to `Unknown`. `Logic` and `Runtime` are the two
/// families the engine groups its faults into; no code stands for a family as
/// such. `Io` is a failure of the host's own input and output, unrelated to
/// the engine.
#[derive(Clone, Copy, Debug, PartialEq, Eq, Structural)]
pub enum ErrorKind {
    DatabaseModified,
    DatabaseLock,
    Logic,
    Assertion,
    InvalidArgument,
    InvalidOperation,
    Unimplemented,
    Runtime,
    Database,
    DatabaseCorrupt,
    DatabaseCreate,
    DatabaseOpening,
    DatabaseVersion,
    DocNotFound,
    FeatureUnavailable,
    Internal,
    Network,
    NetworkTimeout,
    QueryParser,
    Range,
    Serialisation,
    Wildcard,
    DatabaseNotFound,
    DatabaseClosed,
    Unknown,
    Io,
}

/// The fault code the engine reports for an operation on a closed database.
pub const DATABASE_CLOSED: i8 = -25;

/// The fault code the engine reports for an argument it cannot take.
pub const INVALID_ARGUMENT: i8 = -1;

/// Whether `code` is one of the fault codes of the table.
pub open spec fn is_known_code(code: i8) -> bool {
    -7 <= code <= 0 || -17 <= code <= -10 || -25 <= code <= -20
}

/// The member of the taxonomy that a fault code stands for. Zero, which the
/// engine also sets when a call succeeds, stands for a failed assertion.
pub open spec fn kind_of(code: i8) -> ErrorKind {
    if code == 0 {
        ErrorKind::Assertion
    } else if code == -1 {
        ErrorKind::InvalidArgument
    } else if code == -2 {
        ErrorKind::InvalidOperation
    } else if code == -3 {
        ErrorKind::Unimplemented
    } else if code == -4 {
        ErrorKind::Database
    } else if code == -5 {
        ErrorKind::DatabaseCorrupt
    } else if code == -6 {
        ErrorKind::DatabaseCreate
    } else if code == -7 {
        ErrorKind::DatabaseLock
    } else if code == -10 {
        ErrorKind::DatabaseModified
    } else if code == -11 {
        ErrorKind::DatabaseOpening
    } else if code == -12 {
        ErrorKind::DatabaseVersion
    } else if code == -13 {
        ErrorKind::DocNotFound
    } else if code == -14 {
        ErrorKind::FeatureUnavailable
    } else if code == -15 {
        ErrorKind::Internal
    } else if code == -16 {
        ErrorKind::Network
    } else if code == -17 {
        ErrorKind::NetworkTimeout
    } else if code == -20 {
        ErrorKind::QueryParser
    } else if code == -21 {
        ErrorKind::Serialisation
    } else if code == -22 {
        ErrorKind::Range
    } else if code == -23 {
        ErrorKind::Wildcard
    } else if code == -24 {
        ErrorKind::DatabaseNotFound
    } else if code == -25 {
        ErrorKind::DatabaseClosed
    } else {
        ErrorKind::Unknown
    }
}

/// The fault code that stands for a member of the taxonomy, if one does.
pub open spec fn code_of(kind: ErrorKind) -> Option<i8> {
    match kind {
        ErrorKind::Assertion => Some(0i8),
        ErrorKind::InvalidArgument => Some(-1i8),
        ErrorKind::InvalidOperation => Some(-2i8),
        ErrorKind::Unimplemented => Some(-3i8),
        ErrorKind::Database => Some(-4i8),
        ErrorKind::DatabaseCorrupt => Some(-5i8),
        ErrorKind::DatabaseCreate => Some(-6i8),
        ErrorKind::DatabaseLock => Some(-7i8),
        ErrorKind::DatabaseModified => Some(-10i8),
        ErrorKind::DatabaseOpening => Some(-11i8),
        ErrorKind::DatabaseVersion => Some(-12i8),
        ErrorKind::DocNotFound => Some(-13i8),
        ErrorKind::FeatureUnavailable => Some(-14i8),
        ErrorKind::Internal => Some(-15i8),
        ErrorKind::Network => Some(-16i8),
        ErrorKind::NetworkTimeout => Some(-17i8),
        ErrorKind::QueryParser => Some(-20i8),
        ErrorKind::Serialisation => Some(-21i8),
        ErrorKind::Range => Some(-22i8),
        ErrorKind::Wildcard => Some(-23i8),
        ErrorKind::DatabaseNotFound => Some(-24i8),
        ErrorKind::DatabaseClosed => Some(-25i8),
        ErrorKind::Logic => None,
        ErrorKind::Runtime => None,
        ErrorKind::Unknown => None,
        ErrorKind::Io => None,
    }
}

impl ErrorKind {
    /// The name a member of the taxonomy is displayed under.
    pub open spec fn spec_name(self) -> Seq<char> {
        match self {
            ErrorKind::DatabaseModified => "DatabaseModifiedError"@,
            ErrorKind::DatabaseLock => "DatabaseLockError"@,
            ErrorKind::Logic => "LogicError"@,
            ErrorKind::Assertion => "AssertionError"@,
            ErrorKind::InvalidArgument => "InvalidArgumentError"@,
            ErrorKind::InvalidOperation => "InvalidOperationError"@,
            ErrorKind::Unimplemented => "UnimplementedError"@,
            ErrorKind::Runtime => "RuntimeError"@,
            ErrorKind::Database => "DatabaseError"@,
            ErrorKind::DatabaseCorrupt => "DatabaseCorruptError"@,
            ErrorKind::DatabaseCreate => "DatabaseCreateError"@,
            ErrorKind::DatabaseOpening => "DatabaseOpeningError"@,
            ErrorKind::DatabaseVersion => "DatabaseVersionError"@,
            ErrorKind::DocNotFound => "DocNotFoundError"@,
            ErrorKind::FeatureUnavailable => "FeatureUnavailableError"@,
            ErrorKind::Internal => "InternalError"@,
            ErrorKind::Network => "NetworkError"@,
            ErrorKind::NetworkTimeout => "NetworkTimeoutError"@,
            ErrorKind::QueryParser => "QueryParserError"@,
            ErrorKind::Range => "RangeError"@,
            ErrorKind::Serialisation => "SerialisationError"@,
            ErrorKind::Wildcard => "WildcardError"@,
            ErrorKind::DatabaseNotFound => "DatabaseNotFoundError"@,
            ErrorKind::DatabaseClosed => "DatabaseClosedError"@,
            ErrorKind::Unknown => "Unknown"@,
            ErrorKind::Io => "IoError"@,
        }
    }

    /// Maps a fault code into the taxonomy. Total: a code outside the table
    /// gives `Unknown`.
    pub fn from_code(code: i8) -> (kind: ErrorKind)
        ensures
            kind == kind_of(code),
    {
        if code == 0 {
            ErrorKind::Assertion
        } else if code == -1 {
            ErrorKind::InvalidArgument
        } else if code == -2 {
            ErrorKind::InvalidOperation
        } else if code == -3 {
            ErrorKind::Unimplemented
        } else if code == -4 {
            ErrorKind::Database
        } else if code == -5 {
            ErrorKind::DatabaseCorrupt
        } else if code == -6 {
            ErrorKind::DatabaseCreate
        } else if code == -7 {
            ErrorKind::DatabaseLock
        } else if code == -10 {
            ErrorKind::DatabaseModified
        } else if code == -11 {
            ErrorKind::DatabaseOpening
        } else if code == -12 {
            ErrorKind::DatabaseVersion
        } else if code == -13 {
            ErrorKind::DocNotFound
        } else if code == -14 {
            ErrorKind::FeatureUnavailable
        } else if code == -15 {
            ErrorKind::Internal
        } else if code == -16 {
            ErrorKind::Network
        } else if code == -17 {
            ErrorKind::NetworkTimeout
        } else if code == -20 {
            ErrorKind::QueryParser
        } else if code == -21 {
            ErrorKind::Serialisation
        } else if code == -22 {
            ErrorKind::Range
        } else if code == -23 {
            ErrorKind::Wildcard
        } else if code == -24 {
            ErrorKind::DatabaseNotFound
        } else if code == -25 {
            ErrorKind::DatabaseClosed
        } else {
            ErrorKind::Unknown
        }
    }

    /// The fault code that stands for this member, if one does.
    pub fn code(self) -> (code: Option<i8>)
        ensures
            code == code_of(self),
    {
        match self {
            ErrorKind::Assertion => Some(0i8),
            ErrorKind::InvalidArgument => Some(-1i8),
            ErrorKind::InvalidOperation => Some(-2i8),
            ErrorKind::Unimplemented => Some(-3i8),
            ErrorKind::Database => Some(-4i8),
            ErrorKind::DatabaseCorrupt => Some(-5i8),
            ErrorKind::DatabaseCreate => Some(-6i8),
            ErrorKind::DatabaseLock => Some(-7i8),
            ErrorKind::DatabaseModified => Some(-10i8),
            ErrorKind::DatabaseOpening => Some(-11i8),
            ErrorKind::DatabaseVersion => Some(-12i8),
            ErrorKind::DocNotFound => Some(-13i8),
            ErrorKind::FeatureUnavailable => Some(-14i8),
            ErrorKind::Internal => Some(-15i8),
            ErrorKind::Network => Some(-16i8),
            ErrorKind::NetworkTimeout => Some(-17i8),
            ErrorKind::QueryParser => Some(-20i8),
            ErrorKind::Serialisation => Some(-21i8),
            ErrorKind::Range => Some(-22i8),
            ErrorKind::Wildcard => Some(-23i8),
            ErrorKind::DatabaseNotFound => Some(-24i8),
            ErrorKind::DatabaseClosed => Some(-25i8),
            ErrorKind::Logic => None,
            ErrorKind::Runtime => None,
            ErrorKind::Unknown => None,
            ErrorKind::Io => None,
        }
    }

    /// The name this member is displayed under.
    pub fn name(self) -> (name: &'static str)
        ensures
            name@ == self.spec_name(),
    {
        match self {
            ErrorKind::DatabaseModified => "DatabaseModifiedError",
            ErrorKind::DatabaseLock => "DatabaseLockError",
            ErrorKind::Logic => "LogicError",
            ErrorKind::Assertion => "AssertionError",
            ErrorKind::InvalidArgument => "InvalidArgumentError",
            ErrorKind::InvalidOperation => "InvalidOperationError",
            ErrorKind::Unimplemented => "UnimplementedError",
            ErrorKind::Runtime => "RuntimeError",
            ErrorKind::Database => "DatabaseError",
            ErrorKind::DatabaseCorrupt => "DatabaseCorruptError",
            ErrorKind::DatabaseCreate => "DatabaseCreateError",
            ErrorKind::DatabaseOpening => "DatabaseOpeningError",
            ErrorKind::DatabaseVersion => "DatabaseVersionError",
            ErrorKind::DocNotFound => "DocNotFoundError",
            ErrorKind::FeatureUnavailable => "FeatureUnavailableError",
            ErrorKind::Internal => "InternalError",
            ErrorKind::Network => "NetworkError",
            ErrorKind::NetworkTimeout => "NetworkTimeoutError",
            ErrorKind::QueryParser => "QueryParserError",
            ErrorKind::Range => "RangeError",
            ErrorKind::Serialisation => "SerialisationError",
            ErrorKind::Wildcard => "WildcardError",
            ErrorKind::DatabaseNotFound => "DatabaseNotFoundError",
            ErrorKind::DatabaseClosed => "DatabaseClosedError",
            ErrorKind::Unknown => "Unknown",
            ErrorKind::Io => "IoError",
        }
    }
}

/// The name of the taxonomy member that a fault code stands for; `"Unknown"`
/// for a code outside the table.
pub fn get_xapian_err_type(errcode: i8) -> (name: &'static str)
    ensures
        name@ == kind_of(errcode).spec_name(),
{
    match errcode {
        0 => "AssertionError",
        -1 => "InvalidArgumentError",
        -2 => "InvalidOperationError",
        -3 => "UnimplementedError",
        -4 => "DatabaseError",
        -5 => "DatabaseCorruptError",
        -6 => "DatabaseCreateError",
        -7 => "DatabaseLockError",
        -10 => "DatabaseModifiedError",
        -11 => "DatabaseOpeningError",
        -12 => "DatabaseVersionError",
        -13 => "DocNotFoundError",
        -14 => "FeatureUnavailableError",
        -15 => "InternalError",
        -16 => "NetworkError",
        -17 => "NetworkTimeoutError",
        -20 => "QueryParserError",
        -21 => "SerialisationError",
        -22 => "RangeError",
        -23 => "WildcardError",
        -24 => "DatabaseNotFoundError",
        -25 => "DatabaseClosedError",
        _ => "Unknown",
    }
}

/// Every fault code of the table maps to a member of the taxonomy other than
/// the catch-all, and to none of the members that no code stands for.
pub proof fn lemma_known_code_is_classified(code: i8)
    requires
        is_known_code(code),
    ensures
        kind_of(code) != ErrorKind::Unknown,
        kind_of(code) != ErrorKind::Io,
        kind_of(code) != ErrorKind::Logic,
        kind_of(code) != ErrorKind::Runtime,
{
}

/// Every code outside the table maps to the catch-all member.
pub proof fn lemma_unlisted_code_is_unknown(code: i8)
    requires
        !is_known_code(code),
    ensures
        kind_of(code) == ErrorKind::Unknown,
{
}

/// The table is one to one: mapping a fault code of the table into the
/// taxonomy and back gives the code again, so no two codes share a member.
pub proof fn lemma_code_round_trip(code: i8)
    requires
        is_known_code(code),
    ensures
        code_of(kind_of(code)) == Some(code),
{
}

/// Mapping a member that has a fault code to its code and back gives the
/// member again, and the code is one of the table.
pub proof fn lemma_kind_round_trip(kind: ErrorKind)
    requires
        code_of(kind) is Some,
    ensures
        is_known_code(code_of(kind)->Some_0),
        kind_of(code_of(kind)->Some_0) == kind,
{
}

/// The error of every fallible operation: a fault the engine reported, by its
/// code, or a failure of the host's own input and output.
#[derive(Debug)]
pub enum XError {
    Xapian(i8),
    Io(std::io::Error),
}

/// The decimal digit `d` as a character.
pub open spec fn digit_char(d: int) -> char
    recommends
        0 <= d <= 9,
{
    if d == 0 {
        '0'
    } else if d == 1 {
        '1'
    } else if d == 2 {
        '2'
    } else if d == 3 {
        '3'
    } else if d == 4 {
        '4'
    } else if d == 5 {
        '5'
    } else if d == 6 {
        '6'
    } else if d == 7 {
        '7'
    } else if d == 8 {
        '8'
    } else {
        '9'
    }
}

/// The decimal digits of a natural number, most significant first, without
/// leading zeros.
pub open spec fn decimal_digits(n: nat) -> Seq<char>
    decreases n,
{
    if n < 10 {
        seq![digit_char(n as int)]
    } else {
        decimal_digits(n / 10).push(digit_char((n % 10) as int))
    }
}

/// The decimal numeral of an integer: a minus sign for a negative one, then
/// the digits of its magnitude.
pub open spec fn decimal(n: int) -> Seq<char> {
    if n < 0 {
        seq!['-'] + decimal_digits((-n) as nat)
    } else {
        decimal_digits(n as nat)
    }
}

/// The message shown for a fault the engine reported: the code, and the
/// taxonomy member it stands for.
pub open spec fn fault_message(code: i8) -> Seq<char> {
    "xapian err="@ + decimal(code as int) + " ("@ + kind_of(code).spec_name() + ")"@
}

fn digit_text(d: u8) -> (text: &'static str)
    requires
        d <= 9,
    ensures
        text@ == seq![digit_char(d as int)],
{
    proof {
        reveal_strlit("0");
        reveal_strlit("1");
        reveal_strlit("2");
        reveal_strlit("3");
        reveal_strlit("4");
        reveal_strlit("5");
        reveal_strlit("6");
        reveal_strlit("7");
        reveal_strlit("8");
        reveal_strlit("9");
    }
    let text = if d == 0 {
        "0"
    } else if d == 1 {
        "1"
    } else if d == 2 {
        "2"
    } else if d == 3 {
        "3"
    } else if d == 4 {
        "4"
    } else if d == 5 {
        "5"
    } else if d == 6 {
        "6"
    } else if d == 7 {
        "7"
    } else if d == 8 {
        "8"
    } else {
        "9"
    };
    assert(text@ =~= seq![digit_char(d as int)]);
    text
}

/// Appends the decimal numeral of `code` to `out`.
fn append_decimal(out: &mut String, code: i8)
    ensures
        final(out)@ == old(out)@ + decimal(code as int),
{
    let ghost start = out@;
    let magnitude: u8 = if code < 0 {
        out.append("-");
        proof {
            reveal_strlit("-");
            assert("-"@ =~= seq!['-']);
        }
        if code == i8::MIN {
            128u8
        } else {
            (-code) as u8
        }
    } else {
        code as u8
    };
    let ghost signed = out@;
    proof {
        reveal_with_fuel(decimal_digits, 3);
        if code < 0 {
            assert(magnitude as int == -(code as int));
        }
    }
    if magnitude >= 100 {
        out.append(digit_text(magnitude / 100));
        out.append(digit_text((magnitude / 10) % 10));
        out.append(digit_text(magnitude % 10));
        assert(out@ =~= signed + decimal_digits(magnitude as nat));
    } else if magnitude >= 10 {
        out.append(digit_text(magnitude / 10));
        out.append(digit_text(magnitude % 10));
        assert(out@ =~= signed + decimal_digits(magnitude as nat));
    } else {
        out.append(digit_text(magnitude));
        assert(out@ =~= signed + decimal_digits(magnitude as nat));
    }
    assert(out@ =~= start + decimal(code as int));
}

/// The text of a host failure: what `to_string` gives for a
/// `std::io::Error`. The text is the host's and differs between systems, so
/// nothing is claimed of it.
#[verifier::external_body]
fn io_error_text(err: &std::io::Error) -> (text: String) {
    err.to_string()
}

impl XError {
    /// The member of the taxonomy this error belongs to.
    pub open spec fn spec_kind(&self) -> ErrorKind {
        match self {
            XError::Xapian(code) => kind_of(*code),
            XError::Io(_) => ErrorKind::Io,
        }
    }

    /// The member of the taxonomy this error belongs to.
    pub fn kind(&self) -> (kind: ErrorKind)
        ensures
            kind == self.spec_kind(),
    {
        match self {
            XError::Xapian(code) => ErrorKind::from_code(*code),
            XError::Io(_) => ErrorKind::Io,
        }
    }

    /// The fault code the engine reported, if the error is the engine's.
    pub fn code(&self) -> (code: Option<i8>)
        ensures
            code == match *self {
                XError::Xapian(c) => Some(c),
                XError::Io(_) => None::<i8>,
            },
    {
        match self {
            XError::Xapian(code) => Some(*code),
            XError::Io(_) => None,
        }
    }

    /// The host failure behind this error, if there is one.
    pub fn source(&self) -> (source: Option<&std::io::Error>)
        ensures
            source == match *self {
                XError::Xapian(_) => None::<&std::io::Error>,
                XError::Io(err) => Some(&err),
            },
    {
        match self {
            XError::Xapian(_) => None,
            XError::Io(err) => Some(err),
        }
    }

    /// The message to display. For a fault of the engine it carries the code
    /// together with the name of the taxonomy member, so that no failure is
    /// shown as a bare number; for a host failure it is the host's own text.
    pub fn message(&self) -> (text: String)
        ensures
            self matches XError::Xapian(code) ==> text@ == fault_message(*code),
    {
        match self {
            XError::Xapian(code) => {
                let mut text = String::from_str("xapian err=");
                append_decimal(&mut text, *code);
                text.append(" (");
                text.append(ErrorKind::from_code(*code).name());
                text.append(")");
                text
            },
            XError::Io(err) => io_error_text(err),
        }
    }
}

impl From<i8> for XError {
    fn from(err: i8) -> (error: XError) {
        XError::Xapian(err)
    }
}

impl vstd::std_specs::convert::FromSpecImpl<i8> for XError {
    open spec fn obeys_from_spec() -> bool {
        true
    }

    open spec fn from_spec(err: i8) -> XError {
        XError::Xapian(err)
    }
}

impl From<std::io::Error> for XError {
    fn from(err: std::io::Error) -> (error: XError) {
        XError::Io(err)
    }
}

impl vstd::std_specs::convert::FromSpecImpl<std::io::Error> for XError {
    open spec fn obeys_from_spec() -> bool {
        true
    }

    open spec fn from_spec(err: std::io::Error) -> XError {
        XError::Io(err)
    }
}

} // verus!
