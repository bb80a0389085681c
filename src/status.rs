use vstd::prelude::*;

verus! {

/// Highest bit of a 64-bit status code: set on errors, clear on success and warnings.
pub const ERROR_BIT: u64 = 0x8000_0000_0000_0000;

/// Code of a successful call.
pub const SUCCESS: u64 = 0;

/// Error code: a buffer length was larger than the channel can service; the
/// callee wrote the length it can service back into the request.
pub const BAD_BUFFER_SIZE: u64 = 0x8000_0000_0000_0004;

/// Error code: the device or the next element of an enumeration does not exist.
pub const NOT_FOUND: u64 = 0x8000_0000_0000_000e;

/// Outcome code returned by every firmware call.
#[derive(Clone, Copy, Debug, PartialEq, Eq, Structural)]
pub struct Status(pub u64);

/// Class of a status code.
pub open spec fn code_is_error(c: u64) -> bool {
    c >= ERROR_BIT
}

pub open spec fn code_is_warning(c: u64) -> bool {
    c != SUCCESS && !code_is_error(c)
}

impl Status {
    pub open spec fn spec_is_success(self) -> bool {
        self.0 == SUCCESS
    }

    /// Whether the code is exactly success.
    pub fn is_success(self) -> (r: bool)
        ensures
            r == self.spec_is_success(),
    {
        self.0 == SUCCESS
    }

    /// Whether the code is a warning: not success, high bit clear.
    pub fn is_warning(self) -> (r: bool)
        ensures
            r == code_is_warning(self.0),
    {
        self.0 != SUCCESS && self.0 < ERROR_BIT
    }

    /// Whether the code is an error: high bit set.
    pub fn is_error(self) -> (r: bool)
        ensures
            r == code_is_error(self.0),
    {
        self.0 >= ERROR_BIT
    }

    /// `Ok(())` on success; every other code, warnings included, becomes an error
    /// that carries it.
    pub fn to_result(self) -> (r: Result<(), Error>)
        ensures
            r == status_result(self, ()),
    {
        if self.is_success() {
            Ok(())
        } else {
            Err(Error { status: self })
        }
    }

    /// The value of the output slot on success, the error otherwise: a slot that a
    /// failed call may have half written is never handed out.
    pub fn to_result_with_val<T>(self, slot: T) -> (r: Result<T, Error>)
        ensures
            r == status_result(self, slot),
    {
        if self.is_success() {
            Ok(slot)
        } else {
            Err(Error { status: self })
        }
    }
}

/// Typed failure of a firmware call, carrying the code it returned.
#[derive(Clone, Copy, Debug, PartialEq, Eq, Structural)]
pub struct Error {
    pub status: Status,
}

impl Error {
    /// The code the call returned.
    pub fn status(&self) -> (r: Status)
        ensures
            r == self.status,
    {
        self.status
    }

    /// Whether the call reported a buffer length it cannot service.
    pub fn is_short_buffer(&self) -> (r: bool)
        ensures
            r == (self.status.0 == BAD_BUFFER_SIZE),
    {
        self.status.0 == BAD_BUFFER_SIZE
    }

    /// Whether an enumeration reported that no further device exists.
    pub fn is_exhausted(&self) -> (r: bool)
        ensures
            r == (self.status.0 == NOT_FOUND),
    {
        self.status.0 == NOT_FOUND
    }
}

/// What a call's result is, given its status and what was written to its output slot.
pub open spec fn status_result<T>(s: Status, slot: T) -> Result<T, Error> {
    if s.spec_is_success() {
        Ok(slot)
    } else {
        Err(Error { status: s })
    }
}

/// A call that succeeded yields exactly what it wrote to its output slot; a call
/// that did not, warnings included, yields its code and nothing of the slot, so
/// two slots written by a failed call give the same result.
pub proof fn lemma_output_only_on_success<T>(s: Status, slot: T, other: T)
    ensures
        s.spec_is_success() ==> status_result(s, slot) == Ok::<T, Error>(slot),
        !s.spec_is_success() ==> status_result(s, slot) == Err::<T, Error>(Error { status: s }),
        !s.spec_is_success() ==> status_result(s, slot) == status_result(s, other),
        status_result(s, slot) is Ok <==> s.0 == SUCCESS,
{
}

} // verus!
