//! Folding the accumulators of many proofs into one, and the aggregation circuit
//! that carries it.

use vstd::prelude::*;
use vstd::seq_lib::lemma_flatten_concat;

use crate::field::{Fq, Fr};
use crate::limbs::{limbs_of, to_limbs, values, LIMBS};
use crate::value::{known_bytes, known_slice, Value};
use crate::witness::{columns, pair_count, pair_snarks, revealed, SnarkWitness};

verus! {

/// The accumulators to go on with: one that stands alone, or several that the
/// accumulation scheme has to fold.
pub enum Folding<A> {
    Single(A),
    Several(Vec<A>),
}

impl<A> Folding<A> {
    /// The accumulators, in order.
    pub open spec fn accumulators(self) -> Seq<A> {
        match self {
            Folding::Single(accumulator) => seq![accumulator],
            Folding::Several(accumulators) => accumulators@,
        }
    }

    /// What is called several is more than one.
    pub open spec fn valid(self) -> bool {
        self is Several ==> self.accumulators().len() > 1
    }
}

/// Whether verifying the proofs left any accumulator behind.
pub fn any_accumulator<A>(verified: &Vec<Vec<A>>) -> (any: bool)
    ensures
        any == (columns(verified@).flatten().len() > 0),
{
    let ghost all = columns(verified@);
    let mut i: usize = 0;
    while i < verified.len()
        invariant
            i <= verified@.len(),
            all == columns(verified@),
            all.take(i as int).flatten().len() == 0,
        decreases verified.len() - i,
    {
        proof {
            assert(all.take(i + 1) =~= all.take(i as int).push(all[i as int]));
            all.take(i as int).lemma_flatten_push(all[i as int]);
        }
        if verified[i].len() > 0 {
            proof {
                assert(all =~= all.take(i + 1) + all.skip(i + 1));
                lemma_flatten_concat(all.take(i + 1), all.skip(i + 1));
            }
            return true;
        }
        i += 1;
    }
    assert(all.take(i as int) =~= all);
    false
}

/// Puts the accumulators that verifying each proof left behind in one row, and
/// says whether the accumulation scheme has to fold them.
pub fn accumulate<A>(verified: Vec<Vec<A>>) -> (folding: Folding<A>)
    requires
        columns(verified@).flatten().len() > 0,
    ensures
        folding.valid(),
        folding.accumulators() == columns(verified@).flatten(),
        folding is Single <==> columns(verified@).flatten().len() == 1,
        folding is Several <==> columns(verified@).flatten().len() > 1,
        match folding {
            Folding::Single(lone) => columns(verified@).flatten() == seq![lone],
            Folding::Several(row) => columns(verified@).flatten() == row@,
        },
{
    let mut rest = verified;
    let mut row: Vec<A> = Vec::new();
    proof {
        assert(columns(verified@).flatten() =~= columns(rest@).flatten() + row@);
    }
    while rest.len() > 0
        invariant
            columns(verified@).flatten().len() > 0,
            columns(verified@).flatten() == columns(rest@).flatten() + row@,
        decreases rest@.len(),
    {
        let ghost before = columns(rest@);
        let ghost old_row = row@;
        match rest.pop() {
            Some(mut last) => {
                let ghost tail = last@;
                proof {
                    assert(before =~= columns(rest@).push(tail));
                    columns(rest@).lemma_flatten_push(tail);
                }
                last.append(&mut row);
                row = last;
                assert(columns(rest@).flatten() + (tail + old_row) =~= (columns(rest@).flatten()
                    + tail) + old_row);
            },
            None => {},
        }
    }
    assert(columns(rest@) =~= Seq::<Seq<A>>::empty());
    assert(columns(verified@).flatten() =~= row@);
    if row.len() > 1 {
        Folding::Several(row)
    } else {
        let accumulator = row.swap_remove(0);
        assert(columns(verified@).flatten() =~= seq![accumulator]);
        Folding::Single(accumulator)
    }
}

/// The accumulator that came out, and what is known of a proof of the folding.
pub struct Folded<A> {
    pub outcome: A,
    pub as_proof: Value<Vec<u8>>,
}

/// What comes out of a row of accumulators, where `folded` is what the
/// accumulation scheme made of the row with its proof.
pub open spec fn concluded<A>(row: Seq<A>, folded: Option<(A, Vec<u8>)>) -> Option<Folded<A>> {
    if row.len() == 0 {
        None
    } else if row.len() == 1 {
        Some(Folded { outcome: row[0], as_proof: Value::Unknown })
    } else {
        match folded {
            Some((outcome, transcript)) => Some(
                Folded { outcome, as_proof: Value::Known(transcript) },
            ),
            None => None,
        }
    }
}

/// Takes a lone accumulator as it is, and several as the accumulation scheme
/// folded them. Nothing comes out of several that were not folded.
pub fn conclude<A>(folding: Folding<A>, folded: Option<(A, Vec<u8>)>) -> (conclusion: Option<
    Folded<A>,
>)
    requires
        folding.valid(),
    ensures
        conclusion == concluded(folding.accumulators(), folded),
        match (folding, folded) {
            (Folding::Single(lone), _) => conclusion == Some(
                (Folded { outcome: lone, as_proof: Value::Unknown }),
            ),
            (Folding::Several(_), Some((outcome, transcript))) => conclusion == Some(
                (Folded { outcome, as_proof: Value::Known(transcript) }),
            ),
            (Folding::Several(_), None) => conclusion is None,
        },
{
    match folding {
        Folding::Single(outcome) => Some(Folded { outcome, as_proof: Value::unknown() }),
        Folding::Several(_) => match folded {
            Some((outcome, transcript)) => Some(
                Folded { outcome, as_proof: Value::known(transcript) },
            ),
            None => None,
        },
    }
}

/// The accumulator that comes out of a row, where `folded` is what the accumulation
/// scheme makes of the row.
pub open spec fn settled<A>(row: Seq<A>, folded: Option<A>) -> Option<A> {
    if row.len() == 0 {
        None
    } else if row.len() == 1 {
        Some(row[0])
    } else {
        folded
    }
}

/// Takes a lone accumulator as it is, and several as the accumulation scheme
/// folds them, where the proof of the folding is there already.
pub fn settle<A>(folding: Folding<A>, folded: Option<A>) -> (outcome: Option<A>)
    requires
        folding.valid(),
    ensures
        outcome == settled(folding.accumulators(), folded),
        match folding {
            Folding::Single(lone) => outcome == Some(lone),
            Folding::Several(_) => outcome == folded,
        },
{
    match folding {
        Folding::Single(outcome) => Some(outcome),
        Folding::Several(_) => folded,
    }
}

/// The seed of the generator that blinds a proof of the folding: all zeros.
pub fn folding_seed() -> (seed: [u8; 32])
    ensures
        seed@ == Seq::new(32, |i: int| 0u8),
{
    let seed = [0u8; 32];
    assert(seed@ =~= Seq::new(32, |i: int| 0u8));
    seed
}

/// The proof of the folding is known exactly if there was more than one
/// accumulator.
pub proof fn proof_known_if_folded<A>(row: Seq<A>, folded: Option<(A, Vec<u8>)>)
    ensures
        concluded(row, folded) matches Some(conclusion) ==> (conclusion.as_proof is Known
            <==> row.len() > 1),
{
}

/// Where each proof leaves one accumulator, there are as many accumulators as
/// proofs, in the order of the proofs.
pub proof fn one_accumulator_each<A>(verified: Seq<Seq<A>>)
    requires
        forall|i: int| 0 <= i < verified.len() ==> (#[trigger] verified[i]).len() == 1,
    ensures
        verified.flatten().len() == verified.len(),
        forall|i: int| 0 <= i < verified.len() ==> #[trigger] verified.flatten()[i] == verified[i][0],
    decreases verified.len(),
{
    if verified.len() > 0 {
        let front = verified.drop_last();
        assert forall|i: int| 0 <= i < front.len() implies (#[trigger] front[i]).len() == 1 by {
            assert(verified[i].len() == 1);
        }
        one_accumulator_each(front);
        assert(verified =~= front.push(verified.last()));
        front.lemma_flatten_push(verified.last());
    }
}

/// A point of the curve by its affine coordinates.
#[derive(Clone, Copy, Debug)]
pub struct Point {
    pub x: Fq,
    pub y: Fq,
}

/// An accumulator: the two sides of the pairing check that is still to be made.
#[derive(Clone, Copy, Debug)]
pub struct Accumulator {
    pub lhs: Point,
    pub rhs: Point,
}

/// The public inputs that stand for `accumulator`: the limbs of its four
/// coordinates, one after the other.
pub open spec fn instance_values(accumulator: Accumulator) -> Seq<nat> {
    limbs_of(accumulator.lhs.x@) + limbs_of(accumulator.lhs.y@) + limbs_of(accumulator.rhs.x@)
        + limbs_of(accumulator.rhs.y@)
}

/// How many public inputs there are.
pub open spec fn instance_count() -> nat {
    4 * LIMBS as nat
}

/// Where the limbs of the accumulator stand among the public inputs: column and
/// row of each.
pub open spec fn instance_indices() -> Seq<(usize, usize)> {
    Seq::new(instance_count(), |i: int| (0usize, i as usize))
}

/// The public inputs of `accumulator` as scalar-field elements.
pub fn accumulator_instances(accumulator: &Accumulator) -> (column: Vec<Fr>)
    ensures
        values(column@) == instance_values(*accumulator),
{
    let mut column = to_limbs(&accumulator.lhs.x);
    let mut lhs_y = to_limbs(&accumulator.lhs.y);
    let mut rhs_x = to_limbs(&accumulator.rhs.x);
    let mut rhs_y = to_limbs(&accumulator.rhs.y);
    let ghost rows = (column@, lhs_y@, rhs_x@, rhs_y@);
    column.append(&mut lhs_y);
    column.append(&mut rhs_x);
    column.append(&mut rhs_y);
    assert(values(column@) =~= values(rows.0) + values(rows.1) + values(rows.2) + values(rows.3));
    column
}

/// The aggregation circuit: the key of the proofs, the proofs, the public inputs
/// of the accumulator they fold into, and the key and proof of the folding.
pub struct Accumulation<S, P, V> {
    svk: S,
    snarks: Vec<SnarkWitness<P>>,
    instances: Vec<Fr>,
    as_vk: V,
    as_proof: Value<Vec<u8>>,
}

impl<S, P, V> Accumulation<S, P, V> {
    /// The circuit aggregates at least one proof, and has one public input for
    /// each limb of the accumulator.
    #[verifier::type_invariant]
    pub closed spec fn well_formed(self) -> bool {
        &&& self.snarks@.len() > 0
        &&& self.instances@.len() == instance_count()
    }

    /// The succinct verifying key of the proofs.
    pub closed spec fn spec_svk(self) -> S {
        self.svk
    }

    /// The proofs.
    pub closed spec fn spec_snarks(self) -> Seq<SnarkWitness<P>> {
        self.snarks@
    }

    /// The public inputs.
    pub closed spec fn spec_column(self) -> Seq<Fr> {
        self.instances@
    }

    /// The verifying key of the accumulation scheme.
    pub closed spec fn spec_as_vk(self) -> V {
        self.as_vk
    }

    /// What is known of the proof of the folding.
    pub closed spec fn spec_as_proof(self) -> Option<Seq<u8>> {
        known_bytes(self.as_proof)
    }

    /// The circuit knows the proofs of `protocol` with their public signals, as far
    /// as there are both.
    pub open spec fn aggregates(
        self,
        protocol: P,
        public_signals: Seq<Vec<Fr>>,
        proofs: Seq<Vec<u8>>,
    ) -> bool where P: Clone {
        let snarks = self.spec_snarks();
        &&& snarks.len() == pair_count(public_signals.len(), proofs.len())
        &&& forall|i: int|
            #![trigger snarks[i]]
            0 <= i < snarks.len() ==> {
                &&& cloned(protocol, snarks[i].protocol)
                &&& columns(snarks[i].instances@) == seq![revealed(public_signals[i]@)]
                &&& known_bytes(snarks[i].proof) == Some(proofs[i]@)
            }
    }

    /// Where the limbs of the accumulator stand among the public inputs: column
    /// and row of each.
    pub fn accumulator_indices() -> (indices: Vec<(usize, usize)>)
        ensures
            indices@ == instance_indices(),
            indices@.len() == 4 * LIMBS,
            forall|i: int| 0 <= i < 4 * LIMBS ==> #[trigger] indices@[i] == (0usize, i as usize),
    {
        let mut indices: Vec<(usize, usize)> = Vec::new();
        let mut row: usize = 0;
        while row < 4 * LIMBS
            invariant
                row <= 4 * LIMBS,
                indices@ == Seq::new(row as nat, |i: int| (0usize, i as usize)),
            decreases 4 * LIMBS - row,
        {
            indices.push((0, row));
            row += 1;
            assert(indices@ =~= Seq::new(row as nat, |i: int| (0usize, i as usize)));
        }
        assert(indices@ =~= instance_indices());
        indices
    }

    /// How many public inputs each column has.
    pub fn num_instance() -> (counts: Vec<usize>)
        ensures
            counts@.len() == 1,
            counts@[0] == instance_count(),
            counts@[0] == 4 * LIMBS,
    {
        let mut counts: Vec<usize> = Vec::new();
        counts.push(4 * LIMBS);
        counts
    }

    /// The public inputs, as a table of one column.
    pub fn instances(&self) -> (table: Vec<Vec<Fr>>)
        ensures
            columns(table@) == seq![self.spec_column()],
            table@.len() == 1,
            table@[0]@ == self.spec_column(),
            self.spec_column().len() == instance_count(),
    {
        proof {
            use_type_invariant(self);
        }
        let column = self.instances.clone();
        assert(column@ =~= self.instances@);
        let mut table: Vec<Vec<Fr>> = Vec::new();
        table.push(column);
        assert(columns(table@) =~= seq![self.instances@]);
        table
    }

    /// The proof of the folding, where it is known.
    pub fn as_proof(&self) -> (bytes: Value<&[u8]>)
        ensures
            known_slice(bytes) == self.spec_as_proof(),
    {
        self.as_proof.as_slice()
    }

    /// The proofs that the circuit verifies, in order.
    pub fn snarks(&self) -> (snarks: &Vec<SnarkWitness<P>>)
        ensures
            snarks@ == self.spec_snarks(),
            snarks@.len() > 0,
    {
        proof {
            use_type_invariant(self);
        }
        &self.snarks
    }

    /// The succinct verifying key of the proofs.
    pub fn svk(&self) -> (svk: &S)
        ensures
            *svk == self.spec_svk(),
    {
        &self.svk
    }

    /// The verifying key of the accumulation scheme.
    pub fn as_vk(&self) -> (as_vk: &V)
        ensures
            *as_vk == self.spec_as_vk(),
    {
        &self.as_vk
    }
}

impl<S: Copy, P: Clone, V: Copy> Clone for Accumulation<S, P, V> {
    /// The same circuit.
    fn clone(&self) -> (circuit: Self)
        ensures
            circuit.spec_svk() == self.spec_svk(),
            circuit.spec_as_vk() == self.spec_as_vk(),
            circuit.spec_column() == self.spec_column(),
            circuit.spec_as_proof() == self.spec_as_proof(),
            circuit.spec_snarks().len() == self.spec_snarks().len(),
            forall|i: int|
                #![trigger circuit.spec_snarks()[i]]
                0 <= i < circuit.spec_snarks().len() ==> {
                    let (same, own) = (circuit.spec_snarks()[i], self.spec_snarks()[i]);
                    &&& cloned(own.protocol, same.protocol)
                    &&& columns(same.instances@) == columns(own.instances@)
                    &&& known_bytes(same.proof) == known_bytes(own.proof)
                },
    {
        proof {
            use_type_invariant(self);
        }
        let mut snarks: Vec<SnarkWitness<P>> = Vec::new();
        let mut i: usize = 0;
        while i < self.snarks.len()
            invariant
                i <= self.snarks@.len(),
                snarks@.len() == i,
                forall|j: int|
                    #![trigger snarks@[j]]
                    0 <= j < i ==> {
                        &&& cloned(self.snarks@[j].protocol, snarks@[j].protocol)
                        &&& columns(snarks@[j].instances@) == columns(self.snarks@[j].instances@)
                        &&& known_bytes(snarks@[j].proof) == known_bytes(self.snarks@[j].proof)
                    },
            decreases self.snarks.len() - i,
        {
            snarks.push(self.snarks[i].clone());
            i += 1;
        }
        let instances = self.instances.clone();
        assert(instances@ =~= self.instances@);
        Accumulation {
            svk: self.svk,
            snarks,
            instances,
            as_vk: self.as_vk,
            as_proof: self.as_proof.copy(),
        }
    }
}

impl<S: Copy, P: Clone, V: Copy> Accumulation<S, P, V> {
    /// The circuit for the proofs of one `protocol` that folded into `folded`. A
    /// row of public signals without a proof, or a proof without public signals,
    /// is left out.
    pub fn new(
        svk: S,
        protocol: &P,
        as_vk: V,
        public_signals: &Vec<Vec<Fr>>,
        proofs: &Vec<Vec<u8>>,
        folded: Folded<Accumulator>,
    ) -> (circuit: Accumulation<S, P, V>)
        requires
            public_signals@.len() > 0,
            proofs@.len() > 0,
        ensures
            circuit.spec_svk() == svk,
            circuit.spec_as_vk() == as_vk,
            values(circuit.spec_column()) == instance_values(folded.outcome),
            circuit.spec_as_proof() == known_bytes(folded.as_proof),
            circuit.aggregates(*protocol, public_signals@, proofs@),
    {
        let pairs = pair_snarks(public_signals, proofs);
        let mut snarks: Vec<SnarkWitness<P>> = Vec::new();
        let mut i: usize = 0;
        while i < pairs.len()
            invariant
                i <= pairs@.len(),
                snarks@.len() == i,
                forall|j: int|
                    #![trigger pairs@[j]]
                    0 <= j < pairs@.len() ==> {
                        &&& columns(pairs@[j].instances@) == seq![public_signals@[j]@]
                        &&& pairs@[j].proof@ == proofs@[j]@
                    },
                forall|j: int|
                    #![trigger snarks@[j]]
                    0 <= j < i ==> {
                        &&& cloned(*protocol, snarks@[j].protocol)
                        &&& columns(snarks@[j].instances@) == seq![revealed(public_signals@[j]@)]
                        &&& known_bytes(snarks@[j].proof) == Some(proofs@[j]@)
                    },
            decreases pairs.len() - i,
        {
            let witness = SnarkWitness::new(protocol.clone(), &pairs[i]);
            assert(columns(witness.instances@) =~= seq![revealed(public_signals@[i as int]@)]);
            snarks.push(witness);
            i += 1;
        }
        let Folded { outcome, as_proof } = folded;
        let instances = accumulator_instances(&outcome);
        assert(values(instances@).len() == instance_count());
        Accumulation { svk, snarks, instances, as_vk, as_proof }
    }

    /// The circuit for proofs of one `protocol`, where `verified` is what verifying
    /// each of them left behind, and `folded` what the accumulation scheme made of
    /// that, with its proof. There is none if nothing was left behind, or if several
    /// accumulators were not folded.
    pub fn aggregate(
        svk: S,
        protocol: &P,
        as_vk: V,
        public_signals: &Vec<Vec<Fr>>,
        proofs: &Vec<Vec<u8>>,
        verified: Vec<Vec<Accumulator>>,
        folded: Option<(Accumulator, Vec<u8>)>,
    ) -> (circuit: Option<Accumulation<S, P, V>>)
        requires
            verified@.len() == pair_count(public_signals@.len(), proofs@.len()),
        ensures
            circuit is Some <==> concluded(columns(verified@).flatten(), folded) is Some,
            circuit matches Some(circuit) ==> {
                let row = columns(verified@).flatten();
                let conclusion = concluded(row, folded)->0;
                &&& circuit.spec_svk() == svk
                &&& circuit.spec_as_vk() == as_vk
                &&& circuit.aggregates(*protocol, public_signals@, proofs@)
                &&& values(circuit.spec_column()) == instance_values(conclusion.outcome)
                &&& circuit.spec_as_proof() == known_bytes(conclusion.as_proof)
                &&& circuit.spec_as_proof() is Some <==> row.len() > 1
                &&& row.len() == 1 ==> values(circuit.spec_column()) == instance_values(row[0])
                &&& row.len() > 1 ==> folded is Some
                &&& row.len() > 1 ==> values(circuit.spec_column()) == instance_values(
                    (folded->0).0,
                )
                &&& row.len() > 1 ==> circuit.spec_as_proof() == Some((folded->0).1@)
            },
            columns(verified@).flatten().len() == 0 ==> circuit is None,
            columns(verified@).flatten().len() == 1 ==> circuit is Some,
            columns(verified@).flatten().len() > 1 ==> (circuit is Some <==> folded is Some),
    {
        if !any_accumulator(&verified) {
            return None;
        }
        proof {
            if verified@.len() == 0 {
                assert(columns(verified@) =~= Seq::<Seq<Accumulator>>::empty());
            }
        }
        match conclude(accumulate(verified), folded) {
            Some(conclusion) => Some(
                Accumulation::new(svk, protocol, as_vk, public_signals, proofs, conclusion),
            ),
            None => None,
        }
    }

    /// The same circuit with nothing known of the proofs. The public inputs and
    /// the keys stay.
    pub fn without_witnesses(&self) -> (circuit: Accumulation<S, P, V>)
        ensures
            circuit.spec_svk() == self.spec_svk(),
            circuit.spec_as_vk() == self.spec_as_vk(),
            circuit.spec_column() == self.spec_column(),
            circuit.spec_as_proof() is None,
            circuit.spec_snarks().len() == self.spec_snarks().len(),
            forall|i: int|
                #![trigger circuit.spec_snarks()[i]]
                0 <= i < circuit.spec_snarks().len() ==> {
                    &&& cloned(self.spec_snarks()[i].protocol, circuit.spec_snarks()[i].protocol)
                    &&& circuit.spec_snarks()[i].hides(self.spec_snarks()[i])
                },
    {
        proof {
            use_type_invariant(self);
        }
        let mut snarks: Vec<SnarkWitness<P>> = Vec::new();
        let mut i: usize = 0;
        while i < self.snarks.len()
            invariant
                i <= self.snarks@.len(),
                snarks@.len() == i,
                forall|j: int|
                    #![trigger snarks@[j]]
                    0 <= j < i ==> {
                        &&& cloned(self.snarks@[j].protocol, snarks@[j].protocol)
                        &&& snarks@[j].hides(self.snarks@[j])
                    },
            decreases self.snarks.len() - i,
        {
            snarks.push(self.snarks[i].without_witnesses());
            i += 1;
        }
        let instances = self.instances.clone();
        assert(instances@ =~= self.instances@);
        Accumulation {
            svk: self.svk,
            snarks,
            instances,
            as_vk: self.as_vk,
            as_proof: Value::unknown(),
        }
    }
}

/// What the accumulation scheme makes of more than one accumulator is what comes out
/// of them, with its proof, however many there are: none of the row stands in for
/// the whole of it.
pub proof fn several_come_out_folded<A>(row: Seq<A>, outcome: A, transcript: Vec<u8>)
    requires
        row.len() > 1,
    ensures
        concluded(row, Some((outcome, transcript))) is Some,
        concluded(row, Some((outcome, transcript)))->0.outcome == outcome,
        concluded(row, Some((outcome, transcript)))->0.as_proof == Value::Known(transcript),
        concluded(row, None::<(A, Vec<u8>)>) is None,
        settled(row, Some(outcome)) == Some(outcome),
        settled(row, None::<A>) is None,
{
}

/// A lone accumulator comes out as it is, without a proof, whatever the accumulation
/// scheme says.
pub proof fn lone_comes_out_as_it_is<A>(
    lone: A,
    folded: Option<(A, Vec<u8>)>,
    inside: Option<A>,
)
    ensures
        concluded(seq![lone], folded) is Some,
        concluded(seq![lone], folded)->0.outcome == lone,
        concluded(seq![lone], folded)->0.as_proof is Unknown,
        settled(seq![lone], inside) == Some(lone),
{
}

/// Nothing comes out of no accumulators.
pub proof fn nothing_comes_out_of_nothing<A>(folded: Option<(A, Vec<u8>)>, inside: Option<A>)
    ensures
        concluded(Seq::<A>::empty(), folded) is None,
        settled(Seq::<A>::empty(), inside) is None,
{
}

/// Whether one accumulator or several are to go on with, they are those it holds.
pub proof fn folding_holds_its_row<A>(lone: A, row: Vec<A>)
    ensures
        Folding::Single(lone).accumulators() == seq![lone],
        Folding::Several(row).accumulators() == row@,
        Folding::Several(row).valid() <==> row@.len() > 1,
        Folding::Single(lone).valid(),
{
}

/// The public inputs are sixteen: four limbs for each coordinate, that of `lhs`
/// before that of `rhs` and `x` before `y`.
pub proof fn instances_by_coordinate(accumulator: Accumulator, i: int)
    requires
        0 <= i < 4,
    ensures
        instance_count() == 16,
        instance_values(accumulator).len() == 16,
        instance_values(accumulator)[i] == limbs_of(accumulator.lhs.x@)[i],
        instance_values(accumulator)[4 + i] == limbs_of(accumulator.lhs.y@)[i],
        instance_values(accumulator)[8 + i] == limbs_of(accumulator.rhs.x@)[i],
        instance_values(accumulator)[12 + i] == limbs_of(accumulator.rhs.y@)[i],
{
}

/// The limbs are looked for in the one column, in the order of its rows.
pub proof fn indices_count_rows(i: int)
    requires
        0 <= i < 16,
    ensures
        instance_indices().len() == 16,
        instance_indices()[i] == (0usize, i as usize),
{
}

/// In a circuit that aggregates proofs, each proof stands at its place with its own
/// public signals, all of them known.
pub proof fn aggregated_place_by_place<S, P: Clone, V>(
    circuit: Accumulation<S, P, V>,
    protocol: P,
    public_signals: Seq<Vec<Fr>>,
    proofs: Seq<Vec<u8>>,
    i: int,
    j: int,
)
    requires
        circuit.aggregates(protocol, public_signals, proofs),
    ensures
        circuit.spec_snarks().len() <= public_signals.len(),
        circuit.spec_snarks().len() <= proofs.len(),
        circuit.spec_snarks().len() == public_signals.len() || circuit.spec_snarks().len()
            == proofs.len(),
        0 <= i < circuit.spec_snarks().len() ==> {
            let snark = circuit.spec_snarks()[i];
            &&& cloned(protocol, snark.protocol)
            &&& snark.proof is Known
            &&& snark.proof->Known_0@ == proofs[i]@
            &&& snark.instances@.len() == 1
            &&& snark.instances@[0]@.len() == public_signals[i]@.len()
            &&& 0 <= j < public_signals[i]@.len() ==> snark.instances@[0]@[j] == Value::Known(
                public_signals[i]@[j],
            )
        },
{
    if 0 <= i < circuit.spec_snarks().len() {
        let snark = circuit.spec_snarks()[i];
        let own = columns(snark.instances@);
        assert(own.len() == snark.instances@.len());
        assert(own[0] == snark.instances@[0]@);
        assert(own[0] == revealed(public_signals[i]@));
    }
}

} // verus!
