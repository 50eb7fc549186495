use vstd::prelude::*;

verus! {

/// The error type of the database driver. Nothing is known of a value of it
/// beyond its presence.
#[verifier::external_type_specification]
#[verifier::external_body]
pub struct ExDriverError(rusqlite::Error);

/// The error type of the operating system's files. Nothing is known of a
/// value of it beyond its presence.
#[verifier::external_type_specification]
#[verifier::external_body]
pub struct ExFileError(std::io::Error);

/// What an operation of this library can fail with.
#[derive(Debug)]
pub enum VectorError {
    /// The database refused or failed a statement.
    Sqlite(rusqlite::Error),
    /// A vector does not have the length that was asked for.
    DimensionMismatch { expected: usize, actual: usize },
    /// Bytes that do not form a vector, or lists whose lengths differ.
    InvalidVector(String),
    /// A combination of settings that cannot be served.
    Config(String),
    /// The file system refused or failed an access.
    Io(std::io::Error),
    /// Index or statistics maintenance failed.
    Index(String),
}

/// The numeral of one decimal digit.
pub open spec fn digit_text(d: nat) -> Seq<char> {
    if d == 0 {
        "0"@
    } else if d == 1 {
        "1"@
    } else if d == 2 {
        "2"@
    } else if d == 3 {
        "3"@
    } else if d == 4 {
        "4"@
    } else if d == 5 {
        "5"@
    } else if d == 6 {
        "6"@
    } else if d == 7 {
        "7"@
    } else if d == 8 {
        "8"@
    } else {
        "9"@
    }
}

/// The decimal numeral of a number, without leading zeros.
pub open spec fn decimal_text(n: nat) -> Seq<char>
    decreases n,
{
    if n < 10 {
        digit_text(n)
    } else {
        decimal_text(n / 10) + digit_text(n % 10)
    }
}

/// The text of a dimension mismatch.
pub open spec fn mismatch_text(expected: usize, actual: usize) -> Seq<char> {
    "Invalid vector dimension: expected "@ + decimal_text(expected as nat) + ", got "@
        + decimal_text(actual as nat)
}

/// What the text of an error says, as far as the library writes it: the
/// whole text, or, where the database or the file system words the rest,
/// the beginning.
pub open spec fn says(e: VectorError, text: Seq<char>) -> bool {
    match e {
        VectorError::Sqlite(_) => "SQLite error: "@.is_prefix_of(text),
        VectorError::DimensionMismatch { expected, actual } => text == mismatch_text(
            expected,
            actual,
        ),
        VectorError::InvalidVector(s) => text == "Invalid vector data: "@ + s@,
        VectorError::Config(s) => text == "Configuration error: "@ + s@,
        VectorError::Io(_) => "IO error: "@.is_prefix_of(text),
        VectorError::Index(s) => text == "Index error: "@ + s@,
    }
}

/// `ToString::to_string` on the database driver's error: the driver's own
/// wording of it. Nothing is claimed of the text.
#[verifier::external_body]
fn driver_text(e: &rusqlite::Error) -> (text: String) {
    e.to_string()
}

/// `ToString::to_string` on the file system's error: its own wording of
/// it. Nothing is claimed of the text.
#[verifier::external_body]
fn file_text(e: &std::io::Error) -> (text: String) {
    e.to_string()
}

fn digit(d: usize) -> (s: &'static str)
    requires
        d < 10,
    ensures
        s@ == digit_text(d as nat),
{
    if d == 0 {
        "0"
    } else if d == 1 {
        "1"
    } else if d == 2 {
        "2"
    } else if d == 3 {
        "3"
    } else if d == 4 {
        "4"
    } else if d == 5 {
        "5"
    } else if d == 6 {
        "6"
    } else if d == 7 {
        "7"
    } else if d == 8 {
        "8"
    } else {
        "9"
    }
}

/// Writes a number as its decimal numeral.
pub fn decimal(n: usize) -> (s: String)
    ensures
        s@ == decimal_text(n as nat),
    decreases n,
{
    if n < 10 {
        String::from_str(digit(n))
    } else {
        decimal(n / 10).concat(digit(n % 10))
    }
}

impl VectorError {
    /// The text of the error, for people.
    pub fn message(&self) -> (text: String)
        ensures
            says(*self, text@),
    {
        match self {
            VectorError::Sqlite(e) => String::from_str("SQLite error: ").concat(
                driver_text(e).as_str(),
            ),
            VectorError::DimensionMismatch { expected, actual } => String::from_str(
                "Invalid vector dimension: expected ",
            ).concat(decimal(*expected).as_str()).concat(", got ").concat(
                decimal(*actual).as_str(),
            ),
            VectorError::InvalidVector(s) => String::from_str("Invalid vector data: ").concat(
                s.as_str(),
            ),
            VectorError::Config(s) => String::from_str("Configuration error: ").concat(s.as_str()),
            VectorError::Io(e) => String::from_str("IO error: ").concat(file_text(e).as_str()),
            VectorError::Index(s) => String::from_str("Index error: ").concat(s.as_str()),
        }
    }
}

/// Carries what the database driver answered into the library's own
/// result: a value as it is, an error as `Sqlite` with the driver's error
/// inside.
pub fn from_driver<T>(outcome: Result<T, rusqlite::Error>) -> (r: Result<T, VectorError>)
    ensures
        outcome is Ok ==> r == Ok::<T, VectorError>(outcome->Ok_0),
        outcome is Err ==> r == Err::<T, VectorError>(VectorError::Sqlite(outcome->Err_0)),
{
    match outcome {
        Ok(value) => Ok(value),
        Err(e) => Err(VectorError::Sqlite(e)),
    }
}

/// Reads the driver's answer to a statement that is run for its effect:
/// the number of changed rows is dropped, an error is kept as `Sqlite`.
pub fn statement_done(outcome: Result<usize, rusqlite::Error>) -> (r: Result<(), VectorError>)
    ensures
        outcome is Ok ==> r is Ok,
        outcome is Err ==> r == Err::<(), VectorError>(VectorError::Sqlite(outcome->Err_0)),
{
    match outcome {
        Ok(_) => Ok(()),
        Err(e) => Err(VectorError::Sqlite(e)),
    }
}

} // verus!
