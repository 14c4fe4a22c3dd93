//! A minimal value type around the operating system's thread-local error
//! number: capture it, classify it as success or failure, convert it to and
//! from its raw integer code, and render it as human-readable text.

use vstd::prelude::*;
use vstd::string::StringExecFns;

pub mod decimal;

verus! {

/// The platform's human-readable message for a raw error code: on the same
/// platform it is a function of the code alone, so it carries a name here
/// rather than a definition.
pub uninterp spec fn message_of(code: i32) -> Seq<char>;

/// The structured debug rendering: the raw code and the platform message,
/// each labeled.
pub open spec fn spec_debug(code: i32) -> Seq<char> {
    "SysError { Code="@ + crate::decimal::dec_string(code as int) + ", Reason=\""@ + message_of(
        code,
    ) + "\" }"@
}

/// An immutable, copyable wrapper around a signed 32-bit OS error code.
/// The zero value always means "no error"; any nonzero value is a failure.
/// Equality is defined purely on the wrapped code.
#[derive(Clone, Copy, PartialEq, Eq, Structural)]
pub struct SysError(i32);

impl SysError {
    /// The wrapped raw error code.
    pub closed spec fn spec_code(self) -> i32 {
        self.0
    }

    /// Whether the value represents a failure: exactly the nonzero codes.
    pub open spec fn spec_is_err(self) -> bool {
        self.spec_code() != 0
    }

    /// The value wrapping a given raw code.
    pub closed spec fn spec_from_code(code: i32) -> SysError {
        SysError(code)
    }

    /// Wraps an arbitrary integer code verbatim; total, never fails.
    pub fn from_code(code: i32) -> (r: SysError)
        ensures
            r == SysError::spec_from_code(code),
            r.spec_code() == code,
    {
        SysError(code)
    }

    /// Returns the wrapped integer unchanged.
    pub fn to_code(self) -> (r: i32)
        ensures
            r == self.spec_code(),
    {
        self.0
    }

    /// True iff the wrapped code is nonzero.
    pub fn is_err(self) -> (r: bool)
        ensures
            r == self.spec_is_err(),
    {
        self.0 != 0
    }

    /// True iff the wrapped code is zero: the logical negation of `is_err`.
    pub fn is_ok(self) -> (r: bool)
        ensures
            r == !self.spec_is_err(),
    {
        !self.is_err()
    }

    /// In the ok state, wraps the supplied value as a success; in the error
    /// state, propagates this value unchanged as the failure, discarding the
    /// supplied value.
    pub fn map_or<T>(self, other: T) -> (r: Result<T, SysError>)
        ensures
            self.spec_is_err() ==> r == Result::<T, SysError>::Err(self),
            !self.spec_is_err() ==> r == Result::<T, SysError>::Ok(other),
    {
        if self.is_err() {
            Err(self)
        } else {
            Ok(other)
        }
    }

    /// Snapshots the OS's current thread-local error state. The result
    /// depends on what the thread did last, so nothing is promised of it.
    ///
    /// Relies on `std::io::Error::last_os_error`, which reads the calling
    /// thread's errno slot, and on `raw_os_error`, which hands back the code
    /// it was built from.
    #[verifier::external_body]
    pub fn last() -> SysError {
        match std::io::Error::last_os_error().raw_os_error() {
            Some(code) => SysError(code),
            None => SysError(0),
        }
    }

    /// The platform's human-readable description of the wrapped code: a
    /// stable, non-empty, single line of text, the same on every call with
    /// the same code.
    ///
    /// Relies on `std::io::Error::from_raw_os_error`, whose display text is
    /// the platform's standard message for the code (the `strerror`
    /// lookup), a non-empty function of the code alone.
    #[verifier::external_body]
    pub fn to_str(&self) -> (r: String)
        ensures
            r@ == message_of(self.spec_code()),
            r@.len() > 0,
    {
        std::io::Error::from_raw_os_error(self.0).to_string()
    }

    /// The structured debug rendering, exposing both the raw code and the
    /// platform's message for it.
    pub fn debug_str(&self) -> (s: String)
        ensures
            s@ == spec_debug(self.spec_code()),
    {
        let mut s = String::from_str("SysError { Code=");
        let code_text = crate::decimal::i32_to_string(self.0);
        s.append(code_text.as_str());
        s.append(", Reason=\"");
        let reason = self.to_str();
        s.append(reason.as_str());
        s.append("\" }");
        proof {
            assert(s@ =~= spec_debug(self.spec_code()));
        }
        s
    }
}

impl core::convert::From<i32> for SysError {
    fn from(val: i32) -> SysError {
        SysError::from_code(val)
    }
}

impl vstd::std_specs::convert::FromSpecImpl<i32> for SysError {
    open spec fn obeys_from_spec() -> bool {
        true
    }

    open spec fn from_spec(v: i32) -> SysError {
        SysError::spec_from_code(v)
    }
}

impl core::default::Default for SysError {
    /// The default value is the success state, code zero.
    fn default() -> (r: SysError)
        ensures
            r == SysError::spec_from_code(0),
    {
        SysError::from_code(0)
    }
}

/// In the debug rendering, the code's decimal digits and the platform's
/// message each appear as a contiguous, distinguishable piece, at the
/// positions the labels dictate.
pub proof fn lemma_debug_parts(code: i32)
    ensures
        spec_debug(code).subrange(
            16,
            16 + crate::decimal::dec_string(code as int).len() as int,
        ) == crate::decimal::dec_string(code as int),
        spec_debug(code).subrange(
            26 + crate::decimal::dec_string(code as int).len() as int,
            26 + crate::decimal::dec_string(code as int).len() as int + message_of(
                code,
            ).len() as int,
        ) == message_of(code),
{
    reveal_strlit("SysError { Code=");
    reveal_strlit(", Reason=\"");
    reveal_strlit("\" }");
    let digits = crate::decimal::dec_string(code as int);
    let msg = message_of(code);
    assert(spec_debug(code).subrange(16, 16 + digits.len() as int) =~= digits);
    assert(spec_debug(code).subrange(
        26 + digits.len() as int,
        26 + digits.len() as int + msg.len() as int,
    ) =~= msg);
}

/// Converting an integer in and back out yields the original integer, for
/// every representable 32-bit value.
pub proof fn lemma_code_round_trip(code: i32)
    ensures
        SysError::spec_from_code(code).spec_code() == code,
{
}

/// A value built from a nonzero code is in the error state, and one built
/// from zero is not.
pub proof fn lemma_err_iff_nonzero(code: i32)
    ensures
        SysError::spec_from_code(code).spec_is_err() <==> code != 0,
{
}

/// Two values are equal exactly when their wrapped codes are equal.
pub proof fn lemma_eq_is_code_eq(a: SysError, b: SysError)
    ensures
        (a == b) <==> (a.spec_code() == b.spec_code()),
{
}

} // verus!
