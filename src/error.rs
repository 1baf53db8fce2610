use vstd::prelude::*;

verus! {

/// The raw status value with which the engine reports success.
pub const SUCCESS: i32 = 0;

/// Outcome classes reported by the interpreter engine, in the order of the
/// engine's own status numbering (the first one is the success status).
#[derive(Debug, Clone, Copy, PartialEq, Eq, Structural)]
pub enum Error {
    NoError,
    OutOfMemory,
    TypeMismatch,
    NoSuchNode,
    OutOfBounds,
    ExecutionFailure,
    IllegalArguments,
    UnexpectedResult,
    EndReached,
    NotSupported,
}

/// The raw status value that the engine uses for each outcome class.
pub open spec fn status_of(e: Error) -> i32 {
    match e {
        Error::NoError => 0,
        Error::OutOfMemory => 1,
        Error::TypeMismatch => 2,
        Error::NoSuchNode => 3,
        Error::OutOfBounds => 4,
        Error::ExecutionFailure => 5,
        Error::IllegalArguments => 6,
        Error::UnexpectedResult => 7,
        Error::EndReached => 8,
        Error::NotSupported => 9,
    }
}

/// The raw status values that the engine is documented to emit.
pub open spec fn is_documented_status(code: i32) -> bool {
    0 <= code <= 9
}

/// The outcome class that a raw status names; a value outside the documented
/// set is a corruption signal and is classified as `UnexpectedResult`.
pub open spec fn error_of(code: i32) -> Error {
    if code == 0 {
        Error::NoError
    } else if code == 1 {
        Error::OutOfMemory
    } else if code == 2 {
        Error::TypeMismatch
    } else if code == 3 {
        Error::NoSuchNode
    } else if code == 4 {
        Error::OutOfBounds
    } else if code == 5 {
        Error::ExecutionFailure
    } else if code == 6 {
        Error::IllegalArguments
    } else if code == 8 {
        Error::EndReached
    } else if code == 9 {
        Error::NotSupported
    } else {
        Error::UnexpectedResult
    }
}

/// What a raw status means to a caller of the facade: success for the
/// success status, and the outcome class that it names otherwise.
pub open spec fn status_result(code: i32) -> Result<(), Error> {
    if code == SUCCESS {
        Ok(())
    } else {
        Err(error_of(code))
    }
}

impl Error {
    /// The outcome class with raw status `code`, or `None` for a value that
    /// the engine is not documented to emit.
    pub fn from_status(code: i32) -> (r: Option<Error>)
        ensures
            r matches Some(e) ==> status_of(e) == code,
            r is Some <==> is_documented_status(code),
            is_documented_status(code) ==> r == Some(error_of(code)),
    {
        match code {
            0 => Some(Error::NoError),
            1 => Some(Error::OutOfMemory),
            2 => Some(Error::TypeMismatch),
            3 => Some(Error::NoSuchNode),
            4 => Some(Error::OutOfBounds),
            5 => Some(Error::ExecutionFailure),
            6 => Some(Error::IllegalArguments),
            7 => Some(Error::UnexpectedResult),
            8 => Some(Error::EndReached),
            9 => Some(Error::NotSupported),
            _ => None,
        }
    }

    /// The raw status value of this outcome class.
    pub fn status(&self) -> (r: i32)
        ensures
            r == status_of(*self),
    {
        match self {
            Error::NoError => 0,
            Error::OutOfMemory => 1,
            Error::TypeMismatch => 2,
            Error::NoSuchNode => 3,
            Error::OutOfBounds => 4,
            Error::ExecutionFailure => 5,
            Error::IllegalArguments => 6,
            Error::UnexpectedResult => 7,
            Error::EndReached => 8,
            Error::NotSupported => 9,
        }
    }
}

/// Turns a raw status into the result a facade operation hands back.
pub fn check_status(code: i32) -> (r: Result<(), Error>)
    ensures
        r == status_result(code),
        r is Ok <==> code == SUCCESS,
{
    if code == SUCCESS {
        Ok(())
    } else {
        match Error::from_status(code) {
            Some(e) => Err(e),
            None => Err(Error::UnexpectedResult),
        }
    }
}

/// The mapping from documented raw statuses to outcome classes is total and
/// unambiguous: every documented status names the class whose status it is,
/// distinct statuses name distinct classes, and the success status means no
/// error.
pub proof fn lemma_status_mapping_total_and_unambiguous(a: i32, b: i32)
    requires
        is_documented_status(a),
        is_documented_status(b),
    ensures
        status_of(error_of(a)) == a,
        error_of(a) == error_of(b) <==> a == b,
        status_result(SUCCESS) == Ok::<(), Error>(()),
        error_of(SUCCESS) == Error::NoError,
        a != b ==> status_result(a) != status_result(b),
{
}

} // verus!
