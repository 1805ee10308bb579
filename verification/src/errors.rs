//! Errors, and the convention by which the native layer reports them.
//!
//! Every native call returns a signed integer: a negative value is the negated
//! error code, anything else is success and may carry a count.

use vstd::prelude::*;

verus! {

/// The kinds of operation that can be submitted to the native layer.
#[derive(Clone, Copy, Debug, PartialEq, Eq, Structural, Hash)]
pub enum OpKind {
    Write,
    WriteFull,
    Append,
    Remove,
    Read,
    Stat,
    Exists,
    Flush,
}

impl OpKind {
    /// Operations that only observe an object. They have no persistence
    /// milestone: the native layer never reports them as durable.
    pub open spec fn spec_is_read_only(self) -> bool {
        self == OpKind::Read || self == OpKind::Stat || self == OpKind::Exists
    }

    #[verifier::when_used_as_spec(spec_is_read_only)]
    pub fn is_read_only(self) -> (r: bool)
        ensures
            r == self.spec_is_read_only(),
    {
        match self {
            OpKind::Read | OpKind::Stat | OpKind::Exists => true,
            _ => false,
        }
    }
}

/// What identifies one operation in a diagnostic: its kind, the object it
/// addresses, and the byte range it covers (both zero where the kind has none).
#[derive(Debug, PartialEq, Eq)]
pub struct Operation {
    pub kind: OpKind,
    pub object: String,
    pub length: u64,
    pub offset: u64,
}

impl Clone for Operation {
    fn clone(&self) -> (copy: Self)
        ensures
            copy == *self,
    {
        Operation {
            kind: self.kind,
            object: self.object.clone(),
            length: self.length,
            offset: self.offset,
        }
    }
}

/// Everything that can go wrong between submitting an operation and
/// collecting its result.
#[derive(Debug, PartialEq, Eq)]
pub enum Error {
    /// The native layer rejected a call; the field is the positive error code.
    Rados(u32),
    /// An operation was accepted and later reported the given error code.
    Failed { op: Operation, code: u32 },
    /// A name that was to go to the native layer holds a nul byte, at the
    /// given position. The native layer takes names that end at the first nul.
    Nul(usize),
    /// A future was polled again after it had produced its result.
    Finished,
}

impl Clone for Error {
    fn clone(&self) -> (copy: Self)
        ensures
            copy == *self,
    {
        match self {
            Error::Rados(code) => Error::Rados(*code),
            Error::Failed { op, code } => Error::Failed { op: op.clone(), code: *code },
            Error::Nul(position) => Error::Nul(*position),
            Error::Finished => Error::Finished,
        }
    }
}

impl Error {
    /// The native error code that the error carries, if it carries one.
    pub open spec fn spec_code(&self) -> Option<u32> {
        match *self {
            Error::Rados(code) => Some(code),
            Error::Failed { op, code } => Some(code),
            Error::Nul(_) => None,
            Error::Finished => None,
        }
    }

    /// The native error code that the error carries, if it carries one.
    #[verifier::when_used_as_spec(spec_code)]
    pub fn code(&self) -> (code: Option<u32>)
        ensures
            code == self.spec_code(),
    {
        match self {
            Error::Rados(code) => Some(*code),
            Error::Failed { op: _, code } => Some(*code),
            Error::Nul(_) => None,
            Error::Finished => None,
        }
    }
}

/// Whether a raw status reports a failure.
pub open spec fn is_failure(status: i32) -> bool {
    status < 0
}

/// The error code that a failing raw status carries.
pub open spec fn error_code(status: i32) -> u32
    recommends
        is_failure(status),
{
    (-(status as int)) as u32
}

/// The result that a raw status stands for when success carries no value.
pub open spec fn status_result(status: i32) -> Result<(), Error> {
    if is_failure(status) {
        Err(Error::Rados(error_code(status)))
    } else {
        Ok(())
    }
}

/// The result that a raw status stands for when success carries a count.
pub open spec fn status_value(status: i32) -> Result<u32, Error> {
    if is_failure(status) {
        Err(Error::Rados(error_code(status)))
    } else {
        Ok(status as u32)
    }
}

/// Negates a failing status without leaving the range of the result.
fn negated(status: i32) -> (code: u32)
    requires
        is_failure(status),
    ensures
        code == error_code(status),
        code > 0,
{
    if status == i32::MIN {
        2147483648u32
    } else {
        (-status) as u32
    }
}

/// Convert the integer output of a native call into a `Result<(), Error>`.
pub fn librados(err: i32) -> (res: Result<(), Error>)
    ensures
        res == status_result(err),
{
    if err < 0 {
        Err(Error::Rados(negated(err)))
    } else {
        Ok(())
    }
}

/// Convert the integer output of a native call into a `Result<u32, Error>`:
/// the value itself where it is not negative, the error it encodes otherwise.
pub fn librados_res(err: i32) -> (res: Result<u32, Error>)
    ensures
        res == status_value(err),
{
    if err < 0 {
        Err(Error::Rados(negated(err)))
    } else {
        Ok(err as u32)
    }
}

} // verus!
