//! Elements of the two prime fields of the BN254 curve, as canonical numbers.

use halo2curves::bn256;
use snark_verifier::util::arithmetic::PrimeField;
use vstd::prelude::*;

use crate::bytes::{le_value, le_value_injective};

verus! {

/// The modulus of the base field, in which the coordinates of points lie.
pub open spec fn fq_modulus() -> nat {
    0x30644e72e131a029b85045b68181585d97816a916871ca8d3c208c16d87cfd47nat
}

/// The modulus of the scalar field, in which circuits compute.
pub open spec fn fr_modulus() -> nat {
    0x30644e72e131a029b85045b68181585d2833e84879b9709143e1f593f0000001nat
}

/// An element of the base field. Its view is the number below the modulus that
/// represents it.
#[derive(Clone, Copy, Debug, PartialEq, Eq)]
pub struct Fq {
    repr: [u8; 32],
}

/// An element of the scalar field. Its view is the number below the modulus that
/// represents it.
#[derive(Clone, Copy, Debug, PartialEq, Eq)]
pub struct Fr {
    repr: [u8; 32],
}

impl View for Fq {
    type V = nat;

    closed spec fn view(&self) -> nat {
        le_value(self.repr@)
    }
}

impl View for Fr {
    type V = nat;

    closed spec fn view(&self) -> nat {
        le_value(self.repr@)
    }
}

impl Fq {
    /// The number that represents an element is below the modulus.
    #[verifier::type_invariant]
    pub open spec fn canonical(self) -> bool {
        self@ < fq_modulus()
    }

    /// The element whose little-endian representation is `bytes`, if that number
    /// is below the modulus.
    pub fn from_repr(bytes: [u8; 32]) -> (element: Option<Fq>)
        ensures
            element is Some <==> le_value(bytes@) < fq_modulus(),
            element matches Some(fe) ==> fe@ == le_value(bytes@),
    {
        if is_canonical_fq(&bytes) {
            Some(Fq { repr: bytes })
        } else {
            None
        }
    }

    /// The little-endian representation of the element.
    pub fn to_repr(&self) -> (bytes: [u8; 32])
        ensures
            le_value(bytes@) == self@,
            self.canonical(),
    {
        proof {
            use_type_invariant(self);
        }
        self.repr
    }
}

impl Fr {
    /// The number that represents an element is below the modulus.
    #[verifier::type_invariant]
    pub open spec fn canonical(self) -> bool {
        self@ < fr_modulus()
    }

    /// The element whose little-endian representation is `bytes`, if that number
    /// is below the modulus.
    pub fn from_repr(bytes: [u8; 32]) -> (element: Option<Fr>)
        ensures
            element is Some <==> le_value(bytes@) < fr_modulus(),
            element matches Some(fe) ==> fe@ == le_value(bytes@),
    {
        if is_canonical_fr(&bytes) {
            Some(Fr { repr: bytes })
        } else {
            None
        }
    }

    /// The little-endian representation of the element.
    pub fn to_repr(&self) -> (bytes: [u8; 32])
        ensures
            le_value(bytes@) == self@,
            self.canonical(),
    {
        proof {
            use_type_invariant(self);
        }
        self.repr
    }
}

/// Base-field elements that stand for the same number are the same element.
pub proof fn fq_injective(a: Fq, b: Fq)
    requires
        a@ == b@,
    ensures
        a == b,
{
    le_value_injective(a.repr@, b.repr@);
    assert(a.repr =~= b.repr);
}

/// Scalar-field elements that stand for the same number are the same element.
pub proof fn fr_injective(a: Fr, b: Fr)
    requires
        a@ == b@,
    ensures
        a == b,
{
    le_value_injective(a.repr@, b.repr@);
    assert(a.repr =~= b.repr);
}

/// `halo2curves::bn256::Fq::from_repr` accepts a little-endian byte string exactly
/// if the number it holds is below the modulus of the base field.
#[verifier::external_body]
fn is_canonical_fq(bytes: &[u8; 32]) -> (accepted: bool)
    ensures
        accepted == (le_value(bytes@) < fq_modulus()),
{
    bool::from(bn256::Fq::from_repr(*bytes).is_some())
}

/// `halo2curves::bn256::Fr::from_repr` accepts a little-endian byte string exactly
/// if the number it holds is below the modulus of the scalar field.
#[verifier::external_body]
fn is_canonical_fr(bytes: &[u8; 32]) -> (accepted: bool)
    ensures
        accepted == (le_value(bytes@) < fr_modulus()),
{
    bool::from(bn256::Fr::from_repr(*bytes).is_some())
}

} // verus!
