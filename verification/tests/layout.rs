use maze::accumulation::{
    accumulate, accumulator_instances, any_accumulator, conclude, folding_seed, settle,
    Accumulation, Accumulator, Folded, Folding, Point,
};
use maze::calldata::encode_calldata;
use maze::circuit::{expose_limbs, MainGateWithRangeConfig};
use maze::field::{Fq, Fr};
use maze::limbs::{to_limbs, BITS, LIMBS};
use maze::value::Value;
use maze::witness::{pair_snarks, Snark, SnarkWitness};

type Circuit = Accumulation<u8, String, bool>;

const Q_MINUS_ONE: [u8; 32] = [
    0x46, 0xfd, 0x7c, 0xd8, 0x16, 0x8c, 0x20, 0x3c, 0x8d, 0xca, 0x71, 0x68, 0x91, 0x6a, 0x81, 0x97,
    0x5d, 0x58, 0x81, 0x81, 0xb6, 0x45, 0x50, 0xb8, 0x29, 0xa0, 0x31, 0xe1, 0x72, 0x4e, 0x64, 0x30,
];

const R: [u8; 32] = [
    0x01, 0x00, 0x00, 0xf0, 0x93, 0xf5, 0xe1, 0x43, 0x91, 0x70, 0xb9, 0x79, 0x48, 0xe8, 0x33, 0x28,
    0x5d, 0x58, 0x81, 0x81, 0xb6, 0x45, 0x50, 0xb8, 0x29, 0xa0, 0x31, 0xe1, 0x72, 0x4e, 0x64, 0x30,
];

fn bytes_of(value: u128) -> [u8; 32] {
    let mut bytes = [0u8; 32];
    bytes[..16].copy_from_slice(&value.to_le_bytes());
    bytes
}

fn fq(value: u128) -> Fq {
    Fq::from_repr(bytes_of(value)).unwrap()
}

fn fr(value: u128) -> Fr {
    Fr::from_repr(bytes_of(value)).unwrap()
}

fn low(element: &Fr) -> u128 {
    let bytes = element.to_repr();
    assert_eq!(&bytes[16..], &[0u8; 16]);
    let mut half = [0u8; 16];
    half.copy_from_slice(&bytes[..16]);
    u128::from_le_bytes(half)
}

fn lows(row: &[Fr]) -> Vec<u128> {
    row.iter().map(low).collect()
}

fn accumulator() -> Accumulator {
    Accumulator {
        lhs: Point { x: fq((1 << 68) + 5), y: fq(2) },
        rhs: Point { x: Fq::from_repr(Q_MINUS_ONE).unwrap(), y: fq(7) },
    }
}

fn column() -> Vec<u128> {
    vec![
        5,
        1,
        0,
        0,
        2,
        0,
        0,
        0,
        0xd3c208c16d87cfd46,
        0x5d97816a916871ca8,
        0x29b85045b6818158,
        0x30644e72e131a,
        7,
        0,
        0,
        0,
    ]
}

fn circuit(as_proof: Value<Vec<u8>>) -> Circuit {
    let signals = vec![vec![fr(10), fr(11)], vec![fr(12)], vec![fr(13)]];
    let proofs = vec![vec![1u8, 2], vec![3]];
    Accumulation::new(
        9u8,
        &"protocol".to_string(),
        true,
        &signals,
        &proofs,
        Folded { outcome: accumulator(), as_proof },
    )
}

#[test]
fn representations_below_the_modulus_are_elements() {
    assert_eq!(Fq::from_repr(Q_MINUS_ONE).unwrap().to_repr(), Q_MINUS_ONE);
    let mut q = Q_MINUS_ONE;
    q[0] += 1;
    assert!(Fq::from_repr(q).is_none());
    assert!(Fq::from_repr([0xff; 32]).is_none());
    assert_eq!(Fq::from_repr([0; 32]).unwrap().to_repr(), [0; 32]);
}

#[test]
fn the_fields_have_different_moduli() {
    assert!(Fr::from_repr(R).is_none());
    assert!(Fq::from_repr(R).is_some());
    let mut r_minus_one = R;
    r_minus_one[0] = 0;
    assert_eq!(Fr::from_repr(r_minus_one).unwrap().to_repr(), r_minus_one);
}

#[test]
fn equal_numbers_are_equal_elements() {
    let row = |values: &[u128]| -> Vec<Fr> { values.iter().map(|value| fr(*value)).collect() };
    assert_eq!(row(&[3, 4]), row(&[3, 4]));
    assert_eq!(lows(&row(&[3, 4])), vec![3, 4]);
    assert!(row(&[3, 4]) != row(&[4, 3]));
    assert!(row(&[3]) != row(&[3, 0]));
}

#[test]
fn limbs_are_digits_of_68_bits() {
    assert_eq!(lows(&to_limbs(&fq((1 << 68) + 5))), vec![5, 1, 0, 0]);
    assert_eq!(lows(&to_limbs(&fq((1 << 68) - 1))), vec![(1 << 68) - 1, 0, 0, 0]);
    assert_eq!(
        lows(&to_limbs(&Fq::from_repr(Q_MINUS_ONE).unwrap())),
        vec![0xd3c208c16d87cfd46, 0x5d97816a916871ca8, 0x29b85045b6818158, 0x30644e72e131a]
    );
}

#[test]
fn limbs_compose_to_the_element() {
    let limbs = lows(&to_limbs(&Fq::from_repr(Q_MINUS_ONE).unwrap()));
    let mut bits = Vec::new();
    for limb in limbs {
        for i in 0..68 {
            bits.push(limb >> i & 1 == 1);
        }
    }
    let mut bytes = [0u8; 34];
    for (i, bit) in bits.iter().enumerate() {
        if *bit {
            bytes[i / 8] |= 1 << (i % 8);
        }
    }
    assert_eq!(&bytes[..32], &Q_MINUS_ONE);
    assert_eq!(&bytes[32..], &[0, 0]);
}

#[test]
fn instances_hold_the_four_coordinates() {
    assert_eq!(lows(&accumulator_instances(&accumulator())), column());
}

#[test]
fn public_inputs_and_exposed_rows_agree() {
    let a = accumulator();
    let rows = expose_limbs(
        to_limbs(&a.lhs.x),
        to_limbs(&a.lhs.y),
        to_limbs(&a.rhs.x),
        to_limbs(&a.rhs.y),
    );
    let table = circuit(Value::Unknown).instances();
    let indices = Circuit::accumulator_indices();
    assert_eq!(table.len(), 1);
    assert_eq!(Circuit::num_instance(), vec![16]);
    assert_eq!(table[0].len(), 16);
    assert_eq!(rows.len(), 16);
    assert_eq!(indices.len(), 16);
    for (i, (limb, row)) in rows.iter().enumerate() {
        assert_eq!(*row, i);
        assert_eq!(indices[i], (0, i));
        assert_eq!(table[0][i], *limb);
    }
}

#[test]
fn the_exposed_rows_fit_their_own_inputs_only() {
    let a = accumulator();
    let rows = expose_limbs(
        to_limbs(&a.lhs.x),
        to_limbs(&a.lhs.y),
        to_limbs(&a.rhs.x),
        to_limbs(&a.rhs.y),
    );
    let fits = |given: &[Fr]| rows.iter().all(|(limb, row)| given[*row] == *limb);
    let own = accumulator_instances(&a);
    assert!(fits(&own));
    for i in 0..16 {
        let mut other = own.clone();
        other[i] = fr(99);
        assert!(!fits(&other));
    }
}

#[test]
fn different_accumulators_have_different_public_inputs() {
    let mut other = accumulator();
    other.rhs.y = fq(8);
    assert!(accumulator_instances(&accumulator()) != accumulator_instances(&other));
}

#[test]
fn calldata_carries_the_accumulator() {
    let calldata = encode_calldata(&circuit(Value::Unknown).instances(), &[1, 2, 3]);
    assert_eq!(calldata.len(), 16 * 32 + 3);
    for (i, limb) in column().iter().enumerate() {
        assert_eq!(&calldata[32 * i..32 * i + 16], &[0u8; 16]);
        assert_eq!(&calldata[32 * i + 16..32 * i + 32], &limb.to_be_bytes());
    }
    assert_eq!(&calldata[512..], &[1, 2, 3]);
}

#[test]
fn rows_of_uneven_cells_are_counted_through() {
    let rows = expose_limbs(vec!['a'], vec![], vec!['b', 'c'], vec!['d']);
    assert_eq!(rows, vec![('a', 0), ('b', 1), ('c', 2), ('d', 3)]);
}

#[test]
fn accumulators_keep_the_order_of_the_proofs() {
    match accumulate(vec![vec![1, 2], vec![], vec![3]]) {
        Folding::Several(row) => assert_eq!(row, vec![1, 2, 3]),
        _ => panic!("there are three"),
    }
    match accumulate(vec![vec!['x'], vec!['y']]) {
        Folding::Several(row) => assert_eq!(row, vec!['x', 'y']),
        _ => panic!("there are two"),
    }
}

#[test]
fn a_lone_accumulator_is_not_folded() {
    match accumulate(vec![vec![], vec![4]]) {
        Folding::Single(accumulator) => assert_eq!(accumulator, 4),
        _ => panic!("there is one"),
    }
}

#[test]
fn an_accumulator_is_found_wherever_it_is() {
    assert!(!any_accumulator::<u8>(&vec![]));
    assert!(!any_accumulator::<u8>(&vec![vec![], vec![]]));
    assert!(any_accumulator(&vec![vec![], vec![4]]));
    assert!(any_accumulator(&vec![vec![1, 2], vec![]]));
}

#[test]
fn the_folding_has_a_proof_if_there_was_something_to_fold() {
    let several = conclude(accumulate(vec![vec![1], vec![2]]), Some((7, vec![8u8])));
    let several = several.unwrap();
    assert_eq!(several.outcome, 7);
    assert_eq!(several.as_proof, Value::Known(vec![8]));
    let single = conclude(accumulate(vec![vec![1]]), None).unwrap();
    assert_eq!(single.outcome, 1);
    assert_eq!(single.as_proof, Value::Unknown);
    assert!(conclude(accumulate(vec![vec![1], vec![2]]), None).is_none());
}

fn aggregated(
    signals: &Vec<Vec<Fr>>,
    proofs: &Vec<Vec<u8>>,
    verified: Vec<Vec<Accumulator>>,
    folded: Option<(Accumulator, Vec<u8>)>,
) -> Option<Circuit> {
    Accumulation::aggregate(9u8, &"protocol".to_string(), true, signals, proofs, verified, folded)
}

#[test]
fn one_proof_is_aggregated_as_it_is() {
    let (signals, proofs) = (vec![vec![fr(1)]], vec![vec![5u8]]);
    let circuit = aggregated(&signals, &proofs, vec![vec![accumulator()]], None).unwrap();
    assert_eq!(lows(&circuit.instances()[0]), column());
    assert_eq!(circuit.as_proof(), Value::Unknown);
    assert_eq!((*circuit.svk(), *circuit.as_vk()), (9, true));
    assert_eq!(circuit.snarks().len(), 1);
    assert_eq!(circuit.snarks()[0].proof_bytes(), Value::Known(&[5u8][..]));
}

#[test]
fn several_proofs_are_aggregated_as_they_fold() {
    let (signals, proofs) = (vec![vec![fr(1)], vec![fr(2)]], vec![vec![5u8], vec![6]]);
    let mut other = accumulator();
    other.rhs.y = fq(8);
    let verified = || vec![vec![other], vec![other]];
    let folded = Some((accumulator(), vec![7u8]));
    let circuit = aggregated(&signals, &proofs, verified(), folded).unwrap();
    assert_eq!(lows(&circuit.instances()[0]), column());
    assert_eq!(circuit.as_proof(), Value::Known(&[7u8][..]));
    assert_eq!(circuit.snarks().len(), 2);
    assert!(aggregated(&signals, &proofs, verified(), None).is_none());
}

#[test]
fn nothing_is_aggregated_from_nothing() {
    let folded = || Some((accumulator(), vec![7u8]));
    assert!(aggregated(&vec![], &vec![], vec![], folded()).is_none());
    assert!(aggregated(&vec![vec![fr(1)]], &vec![], vec![], folded()).is_none());
    assert!(aggregated(&vec![], &vec![vec![5]], vec![], folded()).is_none());
    assert!(aggregated(&vec![vec![]], &vec![vec![]], vec![vec![]], folded()).is_none());
}

#[test]
fn folding_comes_to_the_same_inside_the_circuit() {
    let lone = || accumulate(vec![vec![3]]);
    assert_eq!(settle(lone(), None), Some(3));
    assert_eq!(settle(lone(), Some(4)), conclude(lone(), None).map(|folded| folded.outcome));
    let several = || accumulate(vec![vec![1], vec![2]]);
    assert_eq!(settle(several(), None), None);
    let outside = conclude(several(), Some((7, vec![8u8]))).unwrap().outcome;
    assert_eq!(settle(several(), Some(7)), Some(outside));
}

#[test]
fn the_folding_is_seeded_with_zeros() {
    assert_eq!(folding_seed(), [0u8; 32]);
}

#[test]
fn proofs_and_signals_are_paired_as_far_as_both_go() {
    let snarks = pair_snarks(&vec![vec![fr(1)], vec![fr(2)]], &vec![vec![5], vec![6], vec![7]]);
    assert_eq!(snarks.len(), 2);
    assert_eq!(snarks[1].instances, vec![vec![fr(2)]]);
    assert_eq!(snarks[1].proof, vec![6]);
    assert_eq!(pair_snarks(&vec![], &vec![vec![5]]).len(), 0);
    assert_eq!(pair_snarks(&vec![vec![fr(1)]], &vec![]).len(), 0);
}

#[test]
fn the_circuit_knows_its_proofs() {
    let circuit = circuit(Value::Known(vec![4, 4]));
    assert_eq!(*circuit.svk(), 9);
    assert!(*circuit.as_vk());
    assert_eq!(circuit.as_proof(), Value::Known(&[4u8, 4][..]));
    assert_eq!(circuit.snarks().len(), 2);
    assert_eq!(circuit.snarks()[0].protocol, "protocol");
    assert_eq!(
        circuit.snarks()[0].instances,
        vec![vec![Value::Known(fr(10)), Value::Known(fr(11))]]
    );
    assert_eq!(circuit.snarks()[1].proof_bytes(), Value::Known(&[3u8][..]));
    assert_eq!(lows(&circuit.instances()[0]), column());
}

#[test]
fn a_circuit_without_folding_has_no_proof_of_it() {
    assert_eq!(circuit(Value::Unknown).as_proof(), Value::Unknown);
}

#[test]
fn a_copy_of_the_circuit_is_the_same() {
    let circuit = circuit(Value::Known(vec![4, 4]));
    let same = circuit.clone();
    assert_eq!(same.as_proof(), circuit.as_proof());
    assert_eq!(same.instances(), circuit.instances());
    assert_eq!(same.snarks()[0].instances, circuit.snarks()[0].instances);
    assert_eq!(same.snarks()[1].proof, circuit.snarks()[1].proof);
}

#[test]
fn witnesses_are_hidden_and_the_shape_stays() {
    let full = circuit(Value::Known(vec![4, 4]));
    let hidden = full.without_witnesses();
    assert_eq!(hidden.as_proof(), Value::Unknown);
    assert_eq!(hidden.instances(), full.instances());
    assert_eq!(*hidden.svk(), 9);
    assert!(*hidden.as_vk());
    assert_eq!(hidden.snarks().len(), 2);
    assert_eq!(hidden.snarks()[0].protocol, "protocol");
    assert_eq!(hidden.snarks()[0].instances, vec![vec![Value::Unknown, Value::Unknown]]);
    assert_eq!(hidden.snarks()[0].proof_bytes(), Value::Unknown);
    let again = hidden.without_witnesses();
    assert_eq!(again.snarks()[0].instances, hidden.snarks()[0].instances);
}

#[test]
fn hidden_witnesses_of_one_shape_are_alike() {
    let a = SnarkWitness::new(0u8, &Snark { instances: vec![vec![fr(1)], vec![]], proof: vec![1] });
    let b = SnarkWitness::new(0u8, &Snark { instances: vec![vec![fr(2)], vec![]], proof: vec![2] });
    assert!(a.instances != b.instances);
    let (a, b) = (a.without_witnesses(), b.without_witnesses());
    assert_eq!(a.instances, b.instances);
    assert_eq!(a.proof, b.proof);
}

#[test]
fn cells_fill_a_limb() {
    let config = Circuit::configure(vec![3, 4]);
    assert_eq!(config.composition_bits, vec![17]);
    assert_eq!(config.overflow_bits, vec![3, 4]);
    assert_eq!(LIMBS * config.composition_bits[0], BITS);
    let other = MainGateWithRangeConfig::configure(vec![1], vec![2]);
    assert_eq!((other.composition_bits, other.overflow_bits), (vec![1], vec![2]));
}
