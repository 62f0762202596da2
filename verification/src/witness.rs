//! The proofs to aggregate, as the circuit sees them.

use vstd::prelude::*;

use crate::field::Fr;
use crate::value::{known_bytes, known_slice, Value};

verus! {

/// The columns of a table, by their contents.
pub open spec fn columns<T>(table: Seq<Vec<T>>) -> Seq<Seq<T>> {
    table.map_values(|column: Vec<T>| column@)
}

/// A column of the same length of which nothing is known.
pub open spec fn hidden(column: Seq<Value<Fr>>) -> Seq<Value<Fr>> {
    Seq::new(column.len(), |i: int| Value::Unknown)
}

/// A column of which everything is known.
pub open spec fn revealed(column: Seq<Fr>) -> Seq<Value<Fr>> {
    column.map_values(|element: Fr| Value::Known(element))
}

/// One proof with the instances that it is about.
pub struct Snark {
    pub instances: Vec<Vec<Fr>>,
    pub proof: Vec<u8>,
}

/// One proof inside the aggregation circuit: what it proves, its instances, and
/// its bytes.
pub struct SnarkWitness<P> {
    pub protocol: P,
    pub instances: Vec<Vec<Value<Fr>>>,
    pub proof: Value<Vec<u8>>,
}

/// How many proofs have public signals at their place.
pub open spec fn pair_count(signals: nat, proofs: nat) -> nat {
    if signals <= proofs {
        signals
    } else {
        proofs
    }
}

/// Pairs each row of public signals with the proof at its place. Where there are
/// more of one than of the other, what is left over at the end is dropped.
pub fn pair_snarks(public_signals: &Vec<Vec<Fr>>, proofs: &Vec<Vec<u8>>) -> (snarks: Vec<Snark>)
    ensures
        snarks@.len() == pair_count(public_signals@.len(), proofs@.len()),
        forall|i: int|
            #![trigger snarks@[i]]
            0 <= i < snarks@.len() ==> {
                &&& columns(snarks@[i].instances@) == seq![public_signals@[i]@]
                &&& snarks@[i].proof@ == proofs@[i]@
            },
        snarks@.len() <= public_signals@.len(),
        snarks@.len() <= proofs@.len(),
        snarks@.len() == public_signals@.len() || snarks@.len() == proofs@.len(),
        forall|i: int|
            #![trigger snarks@[i]]
            0 <= i < snarks@.len() ==> {
                &&& snarks@[i].instances@.len() == 1
                &&& snarks@[i].instances@[0]@ == public_signals@[i]@
            },
{
    let mut snarks: Vec<Snark> = Vec::new();
    let mut i: usize = 0;
    while i < public_signals.len() && i < proofs.len()
        invariant
            i <= public_signals@.len(),
            i <= proofs@.len(),
            snarks@.len() == i,
            forall|j: int|
                #![trigger snarks@[j]]
                0 <= j < i ==> {
                    &&& columns(snarks@[j].instances@) == seq![public_signals@[j]@]
                    &&& snarks@[j].proof@ == proofs@[j]@
                    &&& snarks@[j].instances@.len() == 1
                    &&& snarks@[j].instances@[0]@ == public_signals@[j]@
                },
        decreases public_signals.len() - i,
    {
        let column = public_signals[i].clone();
        assert(column@ =~= public_signals@[i as int]@);
        let mut instances: Vec<Vec<Fr>> = Vec::new();
        instances.push(column);
        let proof = proofs[i].clone();
        assert(proof@ =~= proofs@[i as int]@);
        assert(columns(instances@) =~= seq![public_signals@[i as int]@]);
        snarks.push(Snark { instances, proof });
        i += 1;
    }
    snarks
}

/// A column with every element known.
fn reveal_column(column: &Vec<Fr>) -> (known: Vec<Value<Fr>>)
    ensures
        known@ == revealed(column@),
{
    let mut known: Vec<Value<Fr>> = Vec::new();
    let mut i: usize = 0;
    while i < column.len()
        invariant
            i <= column@.len(),
            known@ == revealed(column@.take(i as int)),
        decreases column.len() - i,
    {
        known.push(Value::known(column[i]));
        i += 1;
        assert(known@ =~= revealed(column@.take(i as int)));
    }
    assert(column@.take(i as int) =~= column@);
    known
}

/// A column of `len` elements of which none is known.
fn hide_column(len: usize) -> (column: Vec<Value<Fr>>)
    ensures
        column@ == Seq::new(len as nat, |i: int| Value::<Fr>::Unknown),
{
    let mut column: Vec<Value<Fr>> = Vec::new();
    let mut i: usize = 0;
    while i < len
        invariant
            i <= len,
            column@ == Seq::new(i as nat, |j: int| Value::<Fr>::Unknown),
        decreases len - i,
    {
        column.push(Value::unknown());
        i += 1;
        assert(column@ =~= Seq::new(i as nat, |j: int| Value::<Fr>::Unknown));
    }
    column
}

impl<P> SnarkWitness<P> {
    /// Everything in `snark` is known to this witness.
    pub open spec fn knows(self, snark: Snark) -> bool {
        &&& columns(self.instances@) == columns(snark.instances@).map_values(
            |column: Seq<Fr>| revealed(column),
        )
        &&& known_bytes(self.proof) == Some(snark.proof@)
    }

    /// This witness has the shape of `full`, and nothing in it is known.
    pub open spec fn hides(self, full: SnarkWitness<P>) -> bool {
        &&& columns(self.instances@) == columns(full.instances@).map_values(
            |column: Seq<Value<Fr>>| hidden(column),
        )
        &&& known_bytes(self.proof) is None
    }

    /// The witness for `snark`, which proves a statement of `protocol`.
    pub fn new(protocol: P, snark: &Snark) -> (witness: SnarkWitness<P>)
        ensures
            witness.protocol == protocol,
            witness.knows(*snark),
    {
        let mut instances: Vec<Vec<Value<Fr>>> = Vec::new();
        let mut i: usize = 0;
        let ghost all = columns(snark.instances@).map_values(|column: Seq<Fr>| revealed(column));
        while i < snark.instances.len()
            invariant
                i <= snark.instances@.len(),
                all == columns(snark.instances@).map_values(|column: Seq<Fr>| revealed(column)),
                columns(instances@) == all.take(i as int),
            decreases snark.instances.len() - i,
        {
            let ghost before = columns(instances@);
            let column = reveal_column(&snark.instances[i]);
            let ghost added = column@;
            instances.push(column);
            assert(columns(instances@) =~= before.push(added));
            i += 1;
            assert(all.take(i as int) =~= before.push(all[i - 1]));
        }
        assert(all.take(i as int) =~= all);
        let bytes = snark.proof.clone();
        assert(bytes@ =~= snark.proof@);
        SnarkWitness { protocol, instances, proof: Value::known(bytes) }
    }

    /// The bytes of the proof, where they are known.
    pub fn proof_bytes(&self) -> (bytes: Value<&[u8]>)
        ensures
            known_slice(bytes) == known_bytes(self.proof),
    {
        self.proof.as_slice()
    }
}

/// A column with the same elements.
fn copy_column(column: &Vec<Value<Fr>>) -> (same: Vec<Value<Fr>>)
    ensures
        same@ == column@,
{
    let mut same: Vec<Value<Fr>> = Vec::new();
    let mut i: usize = 0;
    while i < column.len()
        invariant
            i <= column@.len(),
            same@ == column@.take(i as int),
        decreases column.len() - i,
    {
        same.push(column[i]);
        i += 1;
        assert(same@ =~= column@.take(i as int));
    }
    assert(column@.take(i as int) =~= column@);
    same
}

impl<P: Clone> Clone for SnarkWitness<P> {
    /// The same witness: whatever is known stays known.
    fn clone(&self) -> (witness: Self)
        ensures
            cloned(self.protocol, witness.protocol),
            columns(witness.instances@) == columns(self.instances@),
            known_bytes(witness.proof) == known_bytes(self.proof),
    {
        let mut instances: Vec<Vec<Value<Fr>>> = Vec::new();
        let mut i: usize = 0;
        let ghost all = columns(self.instances@);
        while i < self.instances.len()
            invariant
                i <= self.instances@.len(),
                all == columns(self.instances@),
                columns(instances@) == all.take(i as int),
            decreases self.instances.len() - i,
        {
            let ghost before = columns(instances@);
            let column = copy_column(&self.instances[i]);
            let ghost added = column@;
            instances.push(column);
            assert(columns(instances@) =~= before.push(added));
            i += 1;
            assert(all.take(i as int) =~= before.push(all[i - 1]));
        }
        assert(all.take(i as int) =~= all);
        SnarkWitness { protocol: self.protocol.clone(), instances, proof: self.proof.copy() }
    }
}

impl<P: Clone> SnarkWitness<P> {
    /// The same statement with as many instances, of which nothing is known, and
    /// with no proof.
    pub fn without_witnesses(&self) -> (witness: SnarkWitness<P>)
        ensures
            cloned(self.protocol, witness.protocol),
            witness.hides(*self),
    {
        let mut instances: Vec<Vec<Value<Fr>>> = Vec::new();
        let mut i: usize = 0;
        let ghost all = columns(self.instances@).map_values(
            |column: Seq<Value<Fr>>| hidden(column),
        );
        while i < self.instances.len()
            invariant
                i <= self.instances@.len(),
                all == columns(self.instances@).map_values(
                    |column: Seq<Value<Fr>>| hidden(column),
                ),
                columns(instances@) == all.take(i as int),
            decreases self.instances.len() - i,
        {
            let ghost before = columns(instances@);
            let column = hide_column(self.instances[i].len());
            let ghost added = column@;
            instances.push(column);
            assert(columns(instances@) =~= before.push(added));
            i += 1;
            assert(all.take(i as int) =~= before.push(all[i - 1]));
        }
        assert(all.take(i as int) =~= all);
        SnarkWitness { protocol: self.protocol.clone(), instances, proof: Value::unknown() }
    }
}

/// Hiding what is already hidden changes nothing.
pub proof fn hiding_twice<P>(full: SnarkWitness<P>, once: SnarkWitness<P>, twice: SnarkWitness<P>)
    requires
        once.hides(full),
        twice.hides(once),
    ensures
        twice.hides(full),
        columns(twice.instances@) == columns(once.instances@),
{
    let hide = |column: Seq<Value<Fr>>| hidden(column);
    let a = columns(full.instances@);
    assert forall|i: int| 0 <= i < a.len() implies hidden(hidden(#[trigger] a[i])) == hidden(a[i]) by {
        assert(hidden(hidden(a[i])) =~= hidden(a[i]));
    }
    assert(a.map_values(hide).map_values(hide) =~= a.map_values(hide));
}

/// What a witness hides it hides completely: witnesses for proofs with equally
/// many instances become the same table.
pub proof fn hiding_forgets<P>(
    first: SnarkWitness<P>,
    second: SnarkWitness<P>,
    hidden_first: SnarkWitness<P>,
    hidden_second: SnarkWitness<P>,
)
    requires
        hidden_first.hides(first),
        hidden_second.hides(second),
        first.instances@.len() == second.instances@.len(),
        forall|i: int|
            0 <= i < first.instances@.len() ==> (#[trigger] first.instances@[i])@.len()
                == second.instances@[i]@.len(),
    ensures
        columns(hidden_first.instances@) == columns(hidden_second.instances@),
        known_bytes(hidden_first.proof) == known_bytes(hidden_second.proof),
{
    let (a, b) = (columns(first.instances@), columns(second.instances@));
    let hide = |column: Seq<Value<Fr>>| hidden(column);
    assert forall|i: int| 0 <= i < a.len() implies hidden(#[trigger] a[i]) == hidden(b[i]) by {
        assert(first.instances@[i]@.len() == second.instances@[i]@.len());
        assert(hidden(a[i]) =~= hidden(b[i]));
    }
    assert(a.map_values(hide) =~= b.map_values(hide));
}

/// A table and its columns match place by place.
pub proof fn columns_match<T>(table: Seq<Vec<T>>)
    ensures
        columns(table).len() == table.len(),
        forall|i: int| 0 <= i < table.len() ==> #[trigger] columns(table)[i] == table[i]@,
{
}

/// There are as many pairs as there is the fewer of.
pub proof fn pairs_are_the_fewer(signals: nat, proofs: nat)
    ensures
        pair_count(signals, proofs) <= signals,
        pair_count(signals, proofs) <= proofs,
        pair_count(signals, proofs) == signals || pair_count(signals, proofs) == proofs,
{
}

/// A witness that knows a proof has each of its instances at the same place, known,
/// and its bytes.
pub proof fn known_place_by_place<P>(witness: SnarkWitness<P>, snark: Snark, i: int, j: int)
    requires
        witness.knows(snark),
    ensures
        witness.instances@.len() == snark.instances@.len(),
        witness.proof is Known,
        witness.proof->Known_0@ == snark.proof@,
        0 <= i < snark.instances@.len() ==> witness.instances@[i]@.len()
            == snark.instances@[i]@.len(),
        0 <= i < snark.instances@.len() && 0 <= j < snark.instances@[i]@.len() ==> (
        witness.instances@[i]@[j] == Value::Known(snark.instances@[i]@[j])),
{
    let (own, all) = (columns(witness.instances@), columns(snark.instances@));
    assert(own.len() == witness.instances@.len());
    assert(all.len() == snark.instances@.len());
    if 0 <= i < snark.instances@.len() {
        assert(own[i] == revealed(all[i]));
        assert(own[i] == witness.instances@[i]@);
    }
}

/// A witness that hides another has as many instances in as many columns, none of
/// them known, and no proof.
pub proof fn hidden_place_by_place<P>(
    witness: SnarkWitness<P>,
    full: SnarkWitness<P>,
    i: int,
    j: int,
)
    requires
        witness.hides(full),
    ensures
        witness.instances@.len() == full.instances@.len(),
        witness.proof is Unknown,
        0 <= i < full.instances@.len() ==> witness.instances@[i]@.len()
            == full.instances@[i]@.len(),
        0 <= i < full.instances@.len() && 0 <= j < full.instances@[i]@.len() ==> (
        witness.instances@[i]@[j] is Unknown),
{
    let (own, all) = (columns(witness.instances@), columns(full.instances@));
    assert(own.len() == witness.instances@.len());
    assert(all.len() == full.instances@.len());
    if 0 <= i < full.instances@.len() {
        assert(own[i] == hidden(all[i]));
        assert(own[i] == witness.instances@[i]@);
    }
}

} // verus!
