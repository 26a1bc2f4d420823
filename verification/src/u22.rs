use vstd::prelude::*;
use vstd::string::StringExecFns;

use crate::text::dec_rep;
use crate::text::decimal_string;

verus! {

/// A 22-bit unsigned integer: a `u32` whose value is guaranteed to be at
/// most [`U22::MAX`].
#[derive(Debug, Clone, Copy, PartialEq, Eq, Structural, PartialOrd, Ord, Hash)]
pub struct U22(u32);

impl View for U22 {
    type V = u32;

    closed spec fn view(&self) -> u32 {
        self.0
    }
}

impl U22 {
    /// The largest value that can be expressed by this type: `2^22 - 1`.
    pub const MAX: u32 = 0x3FFFFF;

    /// Every reachable value of this type stays within the 22-bit bound.
    #[verifier::type_invariant]
    pub closed spec fn wf(self) -> bool {
        self.0 <= U22::MAX
    }

    /// Creates a new 22-bit integer from the given 32-bit integer if it is
    /// small enough to fit; otherwise reports the offending input.
    pub fn from_u32(n: u32) -> (r: Result<Self, U22FromU32Error>)
        ensures
            n <= U22::MAX ==> (r matches Ok(u) && u@ == n),
            n > U22::MAX ==> (r matches Err(e) && e.0 == n),
    {
        if n > Self::MAX {
            Err(U22FromU32Error(n))
        } else {
            Ok(U22(n))
        }
    }

    /// Creates a new 22-bit integer without validating the bound; the caller
    /// must guarantee that the input fits. Only the packed decode path uses
    /// this, where the bound holds by the decode arithmetic.
    pub(crate) fn from_u32_unchecked(n: u32) -> (r: Self)
        requires
            n <= U22::MAX,
        ensures
            r@ == n,
    {
        U22(n)
    }

    /// Gets the 22-bit integer as a 32-bit integer.
    pub fn as_u32(self) -> (r: u32)
        ensures
            r == self@,
            r <= U22::MAX,
    {
        proof {
            use_type_invariant(self);
        }
        self.0
    }

    /// Renders the magnitude in decimal.
    pub fn to_string(&self) -> (s: String)
        ensures
            s@ == dec_rep(self@ as nat),
    {
        decimal_string(self.as_u32())
    }
}

/// The 22-bit integer with the given magnitude.
pub closed spec fn u22_value(n: u32) -> U22 {
    U22(n)
}

/// The magnitude of [`u22_value`] is the one given.
pub proof fn lemma_u22_value(n: u32)
    ensures
        u22_value(n)@ == n,
{
}

impl TryFrom<u32> for U22 {
    type Error = U22FromU32Error;

    /// Succeeds exactly when the input fits in 22 bits.
    fn try_from(n: u32) -> (r: Result<Self, U22FromU32Error>) {
        U22::from_u32(n)
    }
}

impl vstd::std_specs::convert::TryFromSpecImpl<u32> for U22 {
    open spec fn obeys_try_from_spec() -> bool {
        true
    }

    open spec fn try_from_spec(n: u32) -> Result<U22, U22FromU32Error> {
        if n <= U22::MAX {
            Ok(u22_value(n))
        } else {
            Err(U22FromU32Error(n))
        }
    }
}

impl From<U22> for u32 {
    /// Yields the magnitude of the 22-bit integer.
    fn from(u22: U22) -> (r: u32) {
        u22.as_u32()
    }
}

impl vstd::std_specs::convert::FromSpecImpl<U22> for u32 {
    open spec fn obeys_from_spec() -> bool {
        true
    }

    open spec fn from_spec(u22: U22) -> u32 {
        u22@
    }
}

impl Default for U22 {
    /// The default 22-bit integer holds zero.
    fn default() -> (r: Self)
        ensures
            r@ == 0,
    {
        U22(0)
    }
}

impl core::ops::Deref for U22 {
    type Target = u32;

    /// Read-only access to the magnitude.
    fn deref(&self) -> (r: &u32)
        ensures
            *r == self@,
    {
        &self.0
    }
}

impl core::borrow::Borrow<u32> for U22 {
    /// Read-only access to the magnitude.
    fn borrow(&self) -> &u32 {
        &self.0
    }
}

impl AsRef<u32> for U22 {
    /// Read-only access to the magnitude.
    fn as_ref(&self) -> (r: &u32)
        ensures
            *r == self@,
    {
        &self.0
    }
}

/// Equality over 22-bit integers is structural: two values are equal exactly
/// when their magnitudes are.
pub proof fn lemma_u22_eq_iff_value_eq(a: U22, b: U22)
    ensures
        a == b <==> a@ == b@,
{
}

/// Error type for 32-bit to 22-bit integer conversion, carrying the `u32`
/// that failed to be converted to a [`U22`].
#[derive(Debug, Clone, Copy, PartialEq, Eq, Structural, PartialOrd, Ord, Hash)]
pub struct U22FromU32Error(pub u32);

impl U22FromU32Error {
    /// Renders the failure: the offending value, then why it was refused.
    pub fn message(&self) -> (s: String)
        ensures
            s@ == dec_rep(self.0 as nat) + " exceeds U22::MAX"@,
    {
        let mut s: String = decimal_string(self.0);
        s.append(" exceeds U22::MAX");
        s
    }
}

} // verus!
