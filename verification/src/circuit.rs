//! How the aggregation circuit is configured and which cells it makes public.

use vstd::prelude::*;

use crate::accumulation::{
    concluded, instance_count, instance_indices, instance_values, settled, Accumulation,
    Accumulator,
};
use crate::calldata::{calldata_determines, calldata_of};
use crate::field::{fq_injective, fr_modulus, Fr};
use crate::limbs::{
    compose, limbs_are_scalars, limbs_of, limbs_recompose, values, values_injective, BITS, LIMBS,
};

verus! {

/// What the range chip beside the main gate is set up with: the widths of the
/// cells that a limb is composed of, and the widths that overflows may have.
pub struct MainGateWithRangeConfig {
    pub composition_bits: Vec<usize>,
    pub overflow_bits: Vec<usize>,
}

impl MainGateWithRangeConfig {
    /// The configuration with these widths.
    pub fn configure(composition_bits: Vec<usize>, overflow_bits: Vec<usize>) -> (config: Self)
        ensures
            config.composition_bits == composition_bits,
            config.overflow_bits == overflow_bits,
    {
        MainGateWithRangeConfig { composition_bits, overflow_bits }
    }
}

impl<S, P, V> Accumulation<S, P, V> {
    /// The configuration of the circuit, where integer arithmetic on limbs may
    /// overflow by `overflow_lengths`: a limb is filled exactly by as many
    /// cells as there are limbs.
    pub fn configure(overflow_lengths: Vec<usize>) -> (config: MainGateWithRangeConfig)
        ensures
            config.composition_bits@.len() == 1,
            config.composition_bits@[0] == BITS as nat / LIMBS as nat,
            LIMBS * config.composition_bits@[0] == BITS,
            config.overflow_bits == overflow_lengths,
    {
        let mut composition_bits: Vec<usize> = Vec::new();
        composition_bits.push(BITS / LIMBS);
        MainGateWithRangeConfig::configure(composition_bits, overflow_lengths)
    }
}

/// The cells that become public, each with its row: the limbs of the four
/// coordinates, one after the other.
pub open spec fn exposed_rows<L>(
    lhs_x: Seq<L>,
    lhs_y: Seq<L>,
    rhs_x: Seq<L>,
    rhs_y: Seq<L>,
) -> Seq<(L, usize)> {
    let cells = lhs_x + lhs_y + rhs_x + rhs_y;
    Seq::new(cells.len(), |i: int| (cells[i], i as usize))
}

/// Which row of the public inputs each limb of the accumulator is bound to.
pub fn expose_limbs<L>(lhs_x: Vec<L>, lhs_y: Vec<L>, rhs_x: Vec<L>, rhs_y: Vec<L>) -> (rows: Vec<
    (L, usize),
>)
    ensures
        rows@ == exposed_rows(lhs_x@, lhs_y@, rhs_x@, rhs_y@),
{
    let mut cells = lhs_x;
    let mut second = lhs_y;
    let mut third = rhs_x;
    let mut fourth = rhs_y;
    cells.append(&mut second);
    cells.append(&mut third);
    cells.append(&mut fourth);
    let ghost all = cells@;
    assert(all =~= lhs_x@ + lhs_y@ + rhs_x@ + rhs_y@);
    let mut rows: Vec<(L, usize)> = Vec::new();
    for cell in it: cells
        invariant
            it.seq() == all,
            rows@.len() == it.index(),
            forall|i: int| 0 <= i < rows@.len() ==> rows@[i] == (all[i], i as usize),
    {
        let row = rows.len();
        rows.push((cell, row));
    }
    assert(rows@ =~= exposed_rows(lhs_x@, lhs_y@, rhs_x@, rhs_y@));
    rows
}

/// The cell that the circuit binds to a row of the public inputs holds what the
/// public inputs of the accumulator have in that row, and the verifier is told to
/// look for the accumulator in just these rows.
pub proof fn public_inputs_agree(accumulator: Accumulator)
    ensures
        ({
            let (lhs, rhs) = (accumulator.lhs, accumulator.rhs);
            let rows = exposed_rows(
                limbs_of(lhs.x@),
                limbs_of(lhs.y@),
                limbs_of(rhs.x@),
                limbs_of(rhs.y@),
            );
            &&& rows.len() == instance_count()
            &&& instance_values(accumulator).len() == instance_count()
            &&& instance_indices().len() == instance_count()
            &&& forall|i: int|
                #![trigger rows[i]]
                0 <= i < instance_count() ==> {
                    &&& rows[i] == (instance_values(accumulator)[i], i as usize)
                    &&& instance_indices()[i] == (0usize, rows[i].1)
                }
        }),
{
}

/// Public inputs fit the cells that are bound to them: each cell holds what the
/// public inputs have in its row.
pub open spec fn fits(rows: Seq<(nat, usize)>, given: Seq<Fr>) -> bool {
    forall|i: int|
        #![trigger rows[i]]
        0 <= i < rows.len() ==> rows[i].1 < given.len() && given[rows[i].1 as int]@ == rows[i].0
}

/// Among all columns of the right length, the cells that the circuit makes public
/// fit the public inputs of the accumulator and no others.
pub proof fn only_own_inputs_fit(accumulator: Accumulator, column: Seq<Fr>, given: Seq<Fr>)
    requires
        values(column) == instance_values(accumulator),
        given.len() == instance_count(),
    ensures
        fits(
            exposed_rows(
                limbs_of(accumulator.lhs.x@),
                limbs_of(accumulator.lhs.y@),
                limbs_of(accumulator.rhs.x@),
                limbs_of(accumulator.rhs.y@),
            ),
            given,
        ) <==> given == column,
{
    let rows = exposed_rows(
        limbs_of(accumulator.lhs.x@),
        limbs_of(accumulator.lhs.y@),
        limbs_of(accumulator.rhs.x@),
        limbs_of(accumulator.rhs.y@),
    );
    public_inputs_agree(accumulator);
    assert(values(column).len() == column.len());
    if given == column {
        assert forall|i: int| #![trigger rows[i]] 0 <= i < rows.len() implies rows[i].1
            < given.len() && given[rows[i].1 as int]@ == rows[i].0 by {
            assert(values(column)[i] == column[i]@);
        }
    }
    if fits(rows, given) {
        assert forall|i: int| 0 <= i < given.len() implies values(given)[i] == values(column)[i] by {
            assert(rows[i] == (instance_values(accumulator)[i], i as usize));
        }
        assert(values(given) =~= values(column));
        values_injective(given, column);
    }
}

/// The circuit makes public just what stands in its public inputs. Verifying the
/// proofs leaves `row` behind, outside of the circuit as inside. A lone accumulator
/// is the same in both places. Several are folded by the accumulation scheme, into
/// `folded` outside and `inside` in the circuit: that these are one accumulator is
/// what the scheme is for.
pub proof fn circuit_folds_alike(
    row: Seq<Accumulator>,
    folded: Option<(Accumulator, Vec<u8>)>,
    inside: Option<Accumulator>,
    column: Seq<Fr>,
)
    requires
        concluded(row, folded) is Some,
        row.len() > 1 ==> inside == Some(concluded(row, folded)->0.outcome),
        values(column) == instance_values(concluded(row, folded)->0.outcome),
    ensures
        settled(row, inside) == Some(concluded(row, folded)->0.outcome),
        ({
            let outcome = settled(row, inside)->0;
            let rows = exposed_rows(
                limbs_of(outcome.lhs.x@),
                limbs_of(outcome.lhs.y@),
                limbs_of(outcome.rhs.x@),
                limbs_of(outcome.rhs.y@),
            );
            &&& rows.len() == column.len()
            &&& forall|i: int|
                #![trigger rows[i]]
                0 <= i < column.len() ==> rows[i] == (column[i]@, i as usize)
        }),
{
    let outcome = concluded(row, folded)->0.outcome;
    public_inputs_agree(outcome);
    assert(values(column).len() == column.len());
    assert forall|i: int| 0 <= i < column.len() implies #[trigger] values(column)[i]
        == column[i]@ by {}
}

/// The accumulator is recovered from its public inputs, coordinate by coordinate.
pub proof fn accumulator_recovered(accumulator: Accumulator)
    requires
        accumulator.lhs.x.canonical(),
        accumulator.lhs.y.canonical(),
        accumulator.rhs.x.canonical(),
        accumulator.rhs.y.canonical(),
    ensures
        ({
            let column = instance_values(accumulator);
            let n = LIMBS as int;
            &&& compose(column.subrange(0, n), BITS as nat) == accumulator.lhs.x@
            &&& compose(column.subrange(n, 2 * n), BITS as nat) == accumulator.lhs.y@
            &&& compose(column.subrange(2 * n, 3 * n), BITS as nat) == accumulator.rhs.x@
            &&& compose(column.subrange(3 * n, 4 * n), BITS as nat) == accumulator.rhs.y@
        }),
{
    let column = instance_values(accumulator);
    let n = LIMBS as int;
    assert(column.subrange(0, n) =~= limbs_of(accumulator.lhs.x@));
    assert(column.subrange(n, 2 * n) =~= limbs_of(accumulator.lhs.y@));
    assert(column.subrange(2 * n, 3 * n) =~= limbs_of(accumulator.rhs.x@));
    assert(column.subrange(3 * n, 4 * n) =~= limbs_of(accumulator.rhs.y@));
    limbs_recompose(accumulator.lhs.x@);
    limbs_recompose(accumulator.lhs.y@);
    limbs_recompose(accumulator.rhs.x@);
    limbs_recompose(accumulator.rhs.y@);
}

/// Accumulators with the same public inputs are the same accumulator.
pub proof fn public_inputs_determine(a: Accumulator, b: Accumulator)
    requires
        a.lhs.x.canonical() && a.lhs.y.canonical() && a.rhs.x.canonical() && a.rhs.y.canonical(),
        b.lhs.x.canonical() && b.lhs.y.canonical() && b.rhs.x.canonical() && b.rhs.y.canonical(),
        instance_values(a) == instance_values(b),
    ensures
        a == b,
{
    accumulator_recovered(a);
    accumulator_recovered(b);
    fq_injective(a.lhs.x, b.lhs.x);
    fq_injective(a.lhs.y, b.lhs.y);
    fq_injective(a.rhs.x, b.rhs.x);
    fq_injective(a.rhs.y, b.rhs.y);
}

/// The calldata that verifies an aggregated proof determines both the accumulator
/// and the proof.
pub proof fn calldata_determines_accumulator(
    a: Accumulator,
    bytes_a: Seq<u8>,
    b: Accumulator,
    bytes_b: Seq<u8>,
)
    requires
        a.lhs.x.canonical() && a.lhs.y.canonical() && a.rhs.x.canonical() && a.rhs.y.canonical(),
        b.lhs.x.canonical() && b.lhs.y.canonical() && b.rhs.x.canonical() && b.rhs.y.canonical(),
        calldata_of(seq![instance_values(a)], bytes_a) == calldata_of(
            seq![instance_values(b)],
            bytes_b,
        ),
    ensures
        a == b,
        bytes_a == bytes_b,
{
    let (table_a, table_b) = (seq![instance_values(a)], seq![instance_values(b)]);
    table_a.lemma_flatten_singleton();
    table_b.lemma_flatten_singleton();
    instances_are_scalars(a);
    instances_are_scalars(b);
    calldata_determines(table_a, bytes_a, table_b, bytes_b);
    public_inputs_determine(a, b);
}

/// Every public input is the number of a scalar-field element.
proof fn instances_are_scalars(accumulator: Accumulator)
    ensures
        forall|i: int|
            0 <= i < instance_values(accumulator).len() ==> #[trigger] instance_values(
                accumulator,
            )[i] < fr_modulus(),
{
    let (lhs, rhs) = (accumulator.lhs, accumulator.rhs);
    limbs_are_scalars(lhs.x@);
    limbs_are_scalars(lhs.y@);
    limbs_are_scalars(rhs.x@);
    limbs_are_scalars(rhs.y@);
    let (p, q, r, s) = (limbs_of(lhs.x@), limbs_of(lhs.y@), limbs_of(rhs.x@), limbs_of(rhs.y@));
    let n = LIMBS as int;
    assert forall|i: int| 0 <= i < instance_values(accumulator).len() implies #[trigger]
        instance_values(accumulator)[i] < fr_modulus() by {
        if i < n {
            assert(instance_values(accumulator)[i] == p[i]);
        } else if i < 2 * n {
            assert(instance_values(accumulator)[i] == q[i - n]);
        } else if i < 3 * n {
            assert(instance_values(accumulator)[i] == r[i - 2 * n]);
        } else {
            assert(instance_values(accumulator)[i] == s[i - 3 * n]);
        }
    }
}

/// Every cell becomes public once, in the order of the coordinates, each in the row
/// that counts the cells before it.
pub proof fn rows_count_cells<L>(
    lhs_x: Seq<L>,
    lhs_y: Seq<L>,
    rhs_x: Seq<L>,
    rhs_y: Seq<L>,
    i: int,
)
    ensures
        ({
            let rows = exposed_rows(lhs_x, lhs_y, rhs_x, rhs_y);
            let (a, b, c) = (lhs_x.len() as int, lhs_y.len() as int, rhs_x.len() as int);
            &&& rows.len() == a + b + c + rhs_y.len()
            &&& 0 <= i < rows.len() ==> rows[i].1 == i as usize
            &&& 0 <= i < lhs_x.len() ==> rows[i].0 == lhs_x[i]
            &&& 0 <= i < lhs_y.len() ==> rows[a + i].0 == lhs_y[i]
            &&& 0 <= i < rhs_x.len() ==> rows[a + b + i].0 == rhs_x[i]
            &&& 0 <= i < rhs_y.len() ==> rows[a + b + c + i].0 == rhs_y[i]
        }),
{
}

} // verus!
