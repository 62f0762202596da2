//! Base-field elements as rows of scalar-field limbs.

use halo2curves::bn256;
use snark_verifier::util::arithmetic;
use snark_verifier::util::arithmetic::PrimeField;
use vstd::arithmetic::div_mod::{
    lemma_div_denominator, lemma_fundamental_div_mod, lemma_fundamental_div_mod_converse,
    lemma_mod_bound,
};
use vstd::arithmetic::power2::{lemma2_to64, lemma_pow2_adds, lemma_pow2_pos, pow2};
use vstd::prelude::*;

use crate::bytes::le_value;
use crate::field::{fq_modulus, fr_injective, fr_modulus, Fq, Fr};

verus! {

/// How many limbs hold one base-field element.
pub const LIMBS: usize = 4;

/// How many bits each limb holds.
pub const BITS: usize = 68;

/// Digit `i` of `value` in base two to the power `bits`.
pub open spec fn digit(value: nat, bits: nat, i: nat) -> nat {
    (value / pow2(bits * i)) % pow2(bits)
}

/// The lowest `count` digits of `value`, least significant first.
pub open spec fn digits(value: nat, bits: nat, count: nat) -> Seq<nat> {
    Seq::new(count, |i: int| digit(value, bits, i as nat))
}

/// The number whose digits are `row`, least significant first.
pub open spec fn compose(row: Seq<nat>, bits: nat) -> nat
    decreases row.len(),
{
    if row.len() == 0 {
        0
    } else {
        row[0] + pow2(bits) * compose(row.skip(1), bits)
    }
}

/// The limbs of a base-field element that stands for `value`.
pub open spec fn limbs_of(value: nat) -> Seq<nat> {
    digits(value, BITS as nat, LIMBS as nat)
}

/// The numbers that a row of elements stands for.
pub open spec fn values(row: Seq<Fr>) -> Seq<nat> {
    row.map_values(|fe: Fr| fe@)
}

/// Rows that stand for the same numbers hold the same elements.
pub proof fn values_injective(a: Seq<Fr>, b: Seq<Fr>)
    requires
        values(a) == values(b),
    ensures
        a == b,
{
    assert(a.len() == values(a).len() && b.len() == values(b).len());
    assert forall|i: int| 0 <= i < a.len() implies a[i] == b[i] by {
        assert(values(a)[i] == a[i]@ && values(b)[i] == b[i]@);
        fr_injective(a[i], b[i]);
    }
    assert(a =~= b);
}

/// `snark_verifier::util::arithmetic::fe_to_limbs` from the base field to the
/// scalar field, on little-endian representations: the `COUNT` lowest digits of
/// the element in base two to the power `WIDTH`, least significant first. It
/// panics on a digit that is no scalar-field element, which the bound on `WIDTH`
/// rules out, and `halo2curves::bn256::Fq::from_repr` yields nothing to split for
/// a representation that is not below the modulus.
#[verifier::external_body]
fn fe_to_limbs<const COUNT: usize, const WIDTH: usize>(fe: &[u8; 32]) -> (row: Vec<[u8; 32]>)
    requires
        le_value(fe@) < fq_modulus(),
        0 < WIDTH,
        pow2(WIDTH as nat) <= fr_modulus(),
        COUNT * WIDTH <= u32::MAX,
    ensures
        row@.len() == COUNT,
        forall|i: int|
            0 <= i < COUNT ==> le_value((#[trigger] row@[i])@) == digit(
                le_value(fe@),
                WIDTH as nat,
                i as nat,
            ),
{
    let fe = bn256::Fq::from_repr(*fe).unwrap();
    let row = arithmetic::fe_to_limbs::<bn256::Fq, bn256::Fr, COUNT, WIDTH>(fe);
    row.iter().map(|limb| limb.to_repr()).collect()
}

/// The width of a limb leaves it below the modulus of the scalar field.
proof fn limb_fits()
    ensures
        0 < pow2(BITS as nat) <= fr_modulus(),
{
    lemma2_to64();
    lemma_pow2_adds(64, 4);
    lemma_pow2_pos(68);
}

/// The limbs of `fe` as scalar-field elements, least significant first.
pub fn to_limbs(fe: &Fq) -> (row: Vec<Fr>)
    ensures
        values(row@) == limbs_of(fe@),
{
    let bytes = fe.to_repr();
    proof {
        limb_fits();
    }
    let raw = fe_to_limbs::<LIMBS, BITS>(&bytes);
    let mut row: Vec<Fr> = Vec::new();
    let mut i: usize = 0;
    while i < raw.len()
        invariant
            i <= raw@.len() == LIMBS,
            row@.len() == i,
            0 < pow2(BITS as nat) <= fr_modulus(),
            forall|j: int|
                0 <= j < raw@.len() ==> le_value((#[trigger] raw@[j])@) == digit(
                    fe@,
                    BITS as nat,
                    j as nat,
                ),
            forall|j: int| 0 <= j < i ==> (#[trigger] row@[j])@ == digit(fe@, BITS as nat, j as nat),
        decreases raw.len() - i,
    {
        proof {
            lemma_mod_bound((fe@ / pow2(BITS as nat * i as nat)) as int, pow2(BITS as nat) as int);
            assert(le_value(raw@[i as int]@) == digit(fe@, BITS as nat, i as nat));
        }
        match Fr::from_repr(raw[i]) {
            Some(limb) => row.push(limb),
            None => {
                assert(false);
            },
        }
        i += 1;
    }
    assert(values(row@) =~= limbs_of(fe@));
    row
}

/// Every limb is the number of a scalar-field element.
pub proof fn limbs_are_scalars(value: nat)
    ensures
        forall|i: int|
            0 <= i < limbs_of(value).len() ==> #[trigger] limbs_of(value)[i] < fr_modulus(),
{
    limb_fits();
    assert forall|i: int| 0 <= i < limbs_of(value).len() implies #[trigger] limbs_of(value)[i]
        < fr_modulus() by {
        lemma_mod_bound(
            (value / pow2(BITS as nat * i as nat)) as int,
            pow2(BITS as nat) as int,
        );
    }
}

/// Composing the digits of a number that fits in `count` of them gives it back.
pub proof fn compose_of_digits(value: nat, bits: nat, count: nat)
    requires
        value < pow2(bits * count),
    ensures
        compose(digits(value, bits, count), bits) == value,
    decreases count,
{
    let base = pow2(bits);
    lemma_pow2_pos(bits);
    if count == 0 {
        assert(bits * count == 0) by (nonlinear_arith)
            requires
                count == 0,
        ;
        lemma2_to64();
    } else {
        let rest = (count - 1) as nat;
        let high = value / base;
        digits_tail(value, bits, count);
        assert(bits * count == bits + bits * rest) by (nonlinear_arith)
            requires
                count == rest + 1,
        ;
        lemma_pow2_adds(bits, bits * rest);
        lemma_fundamental_div_mod(value as int, base as int);
        assert(high < pow2(bits * rest)) by (nonlinear_arith)
            requires
                value < base * pow2(bits * rest),
                value == base * high + value % base,
                base > 0,
        ;
        compose_of_digits(high, bits, rest);
        assert(digits(value, bits, count)[0] == value % base);
    }
}

/// The first digit of a number is its remainder, and the others are the digits of
/// its quotient.
proof fn digits_tail(value: nat, bits: nat, count: nat)
    requires
        count > 0,
    ensures
        digits(value, bits, count)[0] == value % pow2(bits),
        digits(value, bits, count).skip(1) == digits(value / pow2(bits), bits, (count - 1) as nat),
{
    let base = pow2(bits);
    lemma_pow2_pos(bits);
    assert(digit(value, bits, 0) == value % base) by {
        assert(bits * 0 == 0) by (nonlinear_arith);
        lemma2_to64();
        assert(value / 1 == value);
    }
    assert forall|k: nat| k < count - 1 implies digit(value, bits, k + 1) == #[trigger] digit(
        value / base,
        bits,
        k,
    ) by {
        assert(bits * (k + 1) == bits + bits * k) by (nonlinear_arith);
        lemma_pow2_adds(bits, bits * k);
        lemma_pow2_pos(bits * k);
        lemma_div_denominator(value as int, base as int, pow2(bits * k) as int);
    }
    assert(digits(value, bits, count).skip(1) =~= digits(value / base, bits, (count - 1) as nat));
}

/// A row of digits is the row of digits of the number it composes.
pub proof fn digits_of_compose(row: Seq<nat>, bits: nat)
    requires
        forall|i: int| 0 <= i < row.len() ==> #[trigger] row[i] < pow2(bits),
    ensures
        digits(compose(row, bits), bits, row.len()) == row,
        compose(row, bits) < pow2(bits * row.len()),
    decreases row.len(),
{
    let base = pow2(bits);
    lemma_pow2_pos(bits);
    if row.len() == 0 {
        assert(bits * row.len() == 0) by (nonlinear_arith)
            requires
                row.len() == 0,
        ;
        lemma2_to64();
        assert(digits(compose(row, bits), bits, row.len()) =~= row);
    } else {
        let tail = row.skip(1);
        let high = compose(tail, bits);
        let value = compose(row, bits);
        digits_of_compose(tail, bits);
        lemma_fundamental_div_mod_converse(value as int, base as int, high as int, row[0] as int);
        digits_tail(value, bits, row.len());
        assert(digits(value, bits, row.len()) =~= seq![row[0]] + tail);
        assert(row =~= seq![row[0]] + tail);
        let n = tail.len();
        assert(bits * row.len() == bits + bits * n) by (nonlinear_arith)
            requires
                row.len() == n + 1,
        ;
        lemma_pow2_adds(bits, bits * n);
        assert(value < base * pow2(bits * n)) by (nonlinear_arith)
            requires
                value == row[0] + base * high,
                row[0] < base,
                high < pow2(bits * n),
        ;
    }
}

/// A base-field element is recovered from its limbs.
pub proof fn limbs_recompose(value: nat)
    requires
        value < fq_modulus(),
    ensures
        compose(limbs_of(value), BITS as nat) == value,
{
    lemma2_to64();
    lemma_pow2_adds(64, 64);
    lemma_pow2_adds(128, 64);
    lemma_pow2_adds(192, 64);
    lemma_pow2_adds(256, 16);
    compose_of_digits(value, BITS as nat, LIMBS as nat);
}

/// A row of elements and the row of their numbers match place by place.
pub proof fn values_match(row: Seq<Fr>)
    ensures
        values(row).len() == row.len(),
        forall|i: int| 0 <= i < row.len() ==> #[trigger] values(row)[i] == row[i]@,
{
}

/// The four limbs of a number hold 68 bits each, and add up to it with the lowest
/// first.
pub proof fn limbs_add_up(value: nat)
    requires
        value < pow2(272),
    ensures
        limbs_of(value).len() == 4,
        forall|i: int| 0 <= i < 4 ==> #[trigger] limbs_of(value)[i] < pow2(68),
        limbs_of(value)[0] + pow2(68) * limbs_of(value)[1] + pow2(136) * limbs_of(value)[2]
            + pow2(204) * limbs_of(value)[3] == value,
{
    let row = limbs_of(value);
    lemma_pow2_pos(68);
    assert forall|i: int| 0 <= i < 4 implies #[trigger] row[i] < pow2(68) by {
        lemma_mod_bound((value / pow2(BITS as nat * i as nat)) as int, pow2(BITS as nat) as int);
    }
    compose_of_digits(value, BITS as nat, LIMBS as nat);
    let (r1, r2, r3) = (row.skip(1), row.skip(1).skip(1), row.skip(1).skip(1).skip(1));
    let r4 = r3.skip(1);
    assert(compose(r4, 68) == 0);
    assert(compose(r3, 68) == row[3] + pow2(68) * compose(r4, 68));
    assert(compose(r2, 68) == row[2] + pow2(68) * compose(r3, 68));
    assert(compose(r1, 68) == row[1] + pow2(68) * compose(r2, 68));
    assert(compose(row, 68) == row[0] + pow2(68) * compose(r1, 68));
    lemma_pow2_adds(68, 68);
    lemma_pow2_adds(68, 136);
    let (b, c1, c2) = (pow2(68), compose(r1, 68), compose(r2, 68));
    let (l1, l2, l3) = (row[1], row[2], row[3]);
    assert(b * 0 == 0);
    assert(b * (l1 + b * (l2 + b * l3)) == b * l1 + (b * b) * l2 + (b * (b * b)) * l3)
        by (nonlinear_arith);
}

} // verus!
