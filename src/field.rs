//! Prime fields of order below 2^64, as seen by the challengers.
//!
//! Each element type stores its canonical representative as a plain integer;
//! the arithmetic itself is done by the Plonky3 field crates.

use vstd::arithmetic::div_mod::{lemma_mul_mod_noop_left, lemma_mul_mod_noop_right, lemma_small_mod};
use vstd::prelude::*;

verus! {

/// The order of the Goldilocks field, 2^64 - 2^32 + 1.
pub open spec fn goldilocks_order() -> nat {
    18446744069414584321
}

/// The order of the Mersenne-31 field, 2^31 - 1.
pub open spec fn mersenne31_order() -> nat {
    2147483647
}

/// A prime field whose elements have a canonical representative in `[0, order)`.
pub trait Field64: Sized + Copy {
    /// The number of elements of the field.
    spec fn order() -> nat;

    /// The canonical representative of an element.
    spec fn as_nat(&self) -> nat;

    proof fn lemma_order_bounds()
        ensures
            1 < Self::order() <= u64::MAX,
    ;

    /// An element is determined by its canonical representative.
    proof fn lemma_as_nat_injective(a: Self, b: Self)
        requires
            a.as_nat() == b.as_nat(),
        ensures
            a == b,
    ;

    /// The additive identity.
    fn zero() -> (r: Self)
        ensures
            r.as_nat() == 0,
    ;

    /// The multiplicative identity.
    fn one() -> (r: Self)
        ensures
            r.as_nat() == 1,
    ;

    /// The sum of `n` copies of one.
    fn from_u64(n: u64) -> (r: Self)
        ensures
            r.as_nat() == n as nat % Self::order(),
    ;

    /// Field addition.
    fn add(self, rhs: Self) -> (r: Self)
        ensures
            r.as_nat() == (self.as_nat() + rhs.as_nat()) % Self::order(),
    ;

    /// The multiplicative inverse, or `None` for zero.
    fn try_inverse(&self) -> (r: Option<Self>)
        ensures
            r is None <==> self.as_nat() % Self::order() == 0,
            r matches Some(v) ==> v.as_nat() < Self::order() && (v.as_nat() * self.as_nat())
                % Self::order() == 1,
    ;

    /// The canonical representative as an integer.
    fn as_canonical_u64(&self) -> (r: u64)
        ensures
            r as nat == self.as_nat(),
            r as nat % Self::order() == r as nat,
            (r as nat) < Self::order(),
    ;
}

/// `y` is the canonical inverse of `x` in the field `F`.
pub open spec fn is_inverse<F: Field64>(x: nat, y: nat) -> bool {
    y < F::order() && (y * x) % F::order() == 1
}

/// The canonical inverse of `x` in the field `F`, where one exists.
pub open spec fn inverse_of<F: Field64>(x: nat) -> nat {
    choose|y: nat| is_inverse::<F>(x, y)
}

/// An element has at most one canonical inverse.
pub proof fn lemma_inverse_unique<F: Field64>(x: nat, y1: nat, y2: nat)
    requires
        is_inverse::<F>(x, y1),
        is_inverse::<F>(x, y2),
    ensures
        y1 == y2,
{
    let p = F::order() as int;
    F::lemma_order_bounds();
    lemma_mul_mod_noop_right(y1 as int, (y2 * x) as int, p);
    lemma_mul_mod_noop_left((y1 * x) as int, y2 as int, p);
    assert((y1 * (y2 * x)) as int == (y1 * x) * y2) by (nonlinear_arith);
    lemma_small_mod(y1, p as nat);
    lemma_small_mod(y2, p as nat);
}

/// The inverse named by `inverse_of` is the one that any witness shows.
pub proof fn lemma_inverse_of<F: Field64>(x: nat, y: nat)
    requires
        is_inverse::<F>(x, y),
    ensures
        inverse_of::<F>(x) == y,
{
    lemma_inverse_unique::<F>(x, inverse_of::<F>(x), y);
}

/// An element of the Goldilocks field.
#[derive(Clone, Copy, Debug, PartialEq, Eq)]
pub struct Goldilocks {
    val: u64,
}

impl Goldilocks {
    #[verifier::type_invariant]
    spec fn canonical(self) -> bool {
        (self.val as nat) < goldilocks_order()
    }
}

/// Relies on `Add` for `p3_goldilocks::Goldilocks`: the canonical value of a sum
/// is the sum of the canonical values modulo the order.
#[verifier::external_body]
fn goldilocks_add(a: u64, b: u64) -> (r: u64)
    ensures
        r as nat == (a as nat + b as nat) % goldilocks_order(),
{
    let s = p3_goldilocks::Goldilocks::new(a) + p3_goldilocks::Goldilocks::new(b);
    p3_field::PrimeField64::as_canonical_u64(&s)
}

/// Relies on `Field::try_inverse` for `p3_goldilocks::Goldilocks`: `None` for
/// zero, otherwise the element whose product with the input is one.
#[verifier::external_body]
fn goldilocks_try_inverse(a: u64) -> (r: Option<u64>)
    ensures
        r is None <==> a as nat % goldilocks_order() == 0,
        r matches Some(v) ==> (v as nat) < goldilocks_order() && (v as nat * a as nat)
            % goldilocks_order() == 1,
{
    match p3_field::Field::try_inverse(&p3_goldilocks::Goldilocks::new(a)) {
        Some(v) => Some(p3_field::PrimeField64::as_canonical_u64(&v)),
        None => None,
    }
}

/// Relies on `PrimeCharacteristicRing::from_u64` for `p3_goldilocks::Goldilocks`:
/// the sum of `n` copies of one, that is `n` modulo the order.
#[verifier::external_body]
fn goldilocks_from_u64(n: u64) -> (r: u64)
    ensures
        r as nat == n as nat % goldilocks_order(),
{
    let f = <p3_goldilocks::Goldilocks as p3_field::PrimeCharacteristicRing>::from_u64(n);
    p3_field::PrimeField64::as_canonical_u64(&f)
}

impl Field64 for Goldilocks {
    open spec fn order() -> nat {
        goldilocks_order()
    }

    closed spec fn as_nat(&self) -> nat {
        self.val as nat
    }

    proof fn lemma_order_bounds() {
    }

    proof fn lemma_as_nat_injective(a: Self, b: Self) {
    }

    fn zero() -> (r: Self) {
        Goldilocks { val: 0 }
    }

    fn one() -> (r: Self) {
        Goldilocks { val: 1 }
    }

    fn from_u64(n: u64) -> (r: Self) {
        Goldilocks { val: goldilocks_from_u64(n) }
    }

    fn add(self, rhs: Self) -> (r: Self) {
        Goldilocks { val: goldilocks_add(self.val, rhs.val) }
    }

    fn try_inverse(&self) -> (r: Option<Self>) {
        match goldilocks_try_inverse(self.val) {
            Some(v) => Some(Goldilocks { val: v }),
            None => None,
        }
    }

    fn as_canonical_u64(&self) -> (r: u64) {
        proof {
            use_type_invariant(self);
        }
        self.val
    }
}

/// An element of the Mersenne-31 field.
#[derive(Clone, Copy, Debug, PartialEq, Eq)]
pub struct Mersenne31 {
    val: u32,
}

impl Mersenne31 {
    #[verifier::type_invariant]
    spec fn canonical(self) -> bool {
        (self.val as nat) < mersenne31_order()
    }

    /// The element whose canonical value is `v`.
    pub closed spec fn of_canonical(v: u32) -> Mersenne31 {
        Mersenne31 { val: v }
    }

    /// The element whose canonical value is `v`, which must be below the order.
    pub fn from_canonical_u32(v: u32) -> (r: Mersenne31)
        requires
            (v as nat) < mersenne31_order(),
        ensures
            r == Mersenne31::of_canonical(v),
            r.as_nat() == v,
    {
        Mersenne31 { val: v }
    }
}

/// Relies on `Add` for `p3_mersenne_31::Mersenne31`: the canonical value of a
/// sum is the sum of the canonical values modulo the order.
#[verifier::external_body]
fn mersenne31_add(a: u32, b: u32) -> (r: u32)
    ensures
        r as nat == (a as nat + b as nat) % mersenne31_order(),
{
    let s = p3_mersenne_31::Mersenne31::new(a) + p3_mersenne_31::Mersenne31::new(b);
    p3_field::PrimeField32::as_canonical_u32(&s)
}

/// Relies on `Field::try_inverse` for `p3_mersenne_31::Mersenne31`: `None` for
/// zero, otherwise the element whose product with the input is one.
#[verifier::external_body]
fn mersenne31_try_inverse(a: u32) -> (r: Option<u32>)
    ensures
        r is None <==> a as nat % mersenne31_order() == 0,
        r matches Some(v) ==> (v as nat) < mersenne31_order() && (v as nat * a as nat)
            % mersenne31_order() == 1,
{
    match p3_field::Field::try_inverse(&p3_mersenne_31::Mersenne31::new(a)) {
        Some(v) => Some(p3_field::PrimeField32::as_canonical_u32(&v)),
        None => None,
    }
}

/// Relies on `PrimeCharacteristicRing::from_u64` for `p3_mersenne_31::Mersenne31`:
/// the sum of `n` copies of one, that is `n` modulo the order.
#[verifier::external_body]
fn mersenne31_from_u64(n: u64) -> (r: u32)
    ensures
        r as nat == n as nat % mersenne31_order(),
{
    let f = <p3_mersenne_31::Mersenne31 as p3_field::PrimeCharacteristicRing>::from_u64(n);
    p3_field::PrimeField32::as_canonical_u32(&f)
}

impl Field64 for Mersenne31 {
    open spec fn order() -> nat {
        mersenne31_order()
    }

    closed spec fn as_nat(&self) -> nat {
        self.val as nat
    }

    proof fn lemma_order_bounds() {
    }

    proof fn lemma_as_nat_injective(a: Self, b: Self) {
    }

    fn zero() -> (r: Self) {
        Mersenne31 { val: 0 }
    }

    fn one() -> (r: Self) {
        Mersenne31 { val: 1 }
    }

    fn from_u64(n: u64) -> (r: Self) {
        Mersenne31 { val: mersenne31_from_u64(n) }
    }

    fn add(self, rhs: Self) -> (r: Self) {
        Mersenne31 { val: mersenne31_add(self.val, rhs.val) }
    }

    fn try_inverse(&self) -> (r: Option<Self>) {
        match mersenne31_try_inverse(self.val) {
            Some(v) => Some(Mersenne31 { val: v }),
            None => None,
        }
    }

    fn as_canonical_u64(&self) -> (r: u64) {
        proof {
            use_type_invariant(self);
        }
        self.val as u64
    }
}

} // verus!
