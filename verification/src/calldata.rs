//! The calldata that an EVM verifier is called with.

use halo2curves::bn256;
use snark_verifier::loader::evm;
use snark_verifier::util::arithmetic::PrimeField;
use vstd::prelude::*;

use crate::bytes::{
    be_bytes, be_bytes_byte, be_bytes_injective, be_bytes_len, byte_range, le_reversed_is_be, le_value,
};
use crate::field::{fr_modulus, Fr};
use crate::limbs::values;
use crate::witness::columns;

verus! {

/// How many bytes a word of the EVM has.
pub open spec fn word_len() -> nat {
    32
}

/// The numbers of `row` as EVM words, one after the other.
pub open spec fn words(row: Seq<nat>) -> Seq<u8>
    decreases row.len(),
{
    if row.len() == 0 {
        Seq::empty()
    } else {
        words(row.drop_last()) + be_bytes(row.last(), word_len())
    }
}

/// The numbers that a table of elements stands for, column by column.
pub open spec fn table_values(table: Seq<Vec<Fr>>) -> Seq<Seq<nat>> {
    columns(table).map_values(|column: Seq<Fr>| values(column))
}

/// The numbers that little-endian representations hold.
pub open spec fn repr_values(row: Seq<[u8; 32]>) -> Seq<nat> {
    row.map_values(|repr: [u8; 32]| le_value(repr@))
}

/// Representations with the bytes of each in reverse, one after the other.
pub open spec fn reversed(row: Seq<[u8; 32]>) -> Seq<u8>
    decreases row.len(),
{
    if row.len() == 0 {
        Seq::empty()
    } else {
        reversed(row.drop_last()) + row.last()@.reverse()
    }
}

/// The calldata for instances that stand for `table`: each of them as a word,
/// column after column, and then the proof.
pub open spec fn calldata_of(table: Seq<Seq<nat>>, bytes: Seq<u8>) -> Seq<u8> {
    words(table.flatten()) + bytes
}

/// `snark_verifier::loader::evm::encode_calldata` on little-endian
/// representations of scalar-field elements: the representation of each with its
/// bytes in reverse, column after column, and then the bytes of the proof.
/// `halo2curves::bn256::Fr::from_repr` yields no element for a representation that
/// is not below the modulus.
#[verifier::external_body]
fn encode_reprs(table: &Vec<Vec<[u8; 32]>>, bytes: &[u8]) -> (calldata: Vec<u8>)
    requires
        forall|i: int, j: int|
            0 <= i < table@.len() && 0 <= j < table@[i]@.len() ==> le_value(
                (#[trigger] table@[i]@[j])@,
            ) < fr_modulus(),
    ensures
        calldata@ == reversed(columns(table@).flatten()) + bytes@,
{
    let element = |repr: &[u8; 32]| bn256::Fr::from_repr(*repr).unwrap();
    let table: Vec<Vec<bn256::Fr>> =
        table.iter().map(|column| column.iter().map(element).collect()).collect();
    evm::encode_calldata(&table, bytes)
}

/// The representations of the elements of a column.
fn column_reprs(column: &Vec<Fr>) -> (reprs: Vec<[u8; 32]>)
    ensures
        repr_values(reprs@) == values(column@),
        forall|j: int| 0 <= j < reprs@.len() ==> le_value((#[trigger] reprs@[j])@) < fr_modulus(),
{
    let mut reprs: Vec<[u8; 32]> = Vec::new();
    let mut i: usize = 0;
    while i < column.len()
        invariant
            i <= column@.len(),
            reprs@.len() == i,
            forall|j: int|
                0 <= j < i ==> {
                    &&& le_value((#[trigger] reprs@[j])@) == column@[j]@
                    &&& le_value(reprs@[j]@) < fr_modulus()
                },
        decreases column.len() - i,
    {
        reprs.push(column[i].to_repr());
        i += 1;
    }
    assert(repr_values(reprs@) =~= values(column@));
    reprs
}

/// A representation in reverse is the EVM word of the number it holds.
proof fn reversed_is_words(row: Seq<[u8; 32]>)
    ensures
        reversed(row) == words(repr_values(row)),
    decreases row.len(),
{
    if row.len() > 0 {
        reversed_is_words(row.drop_last());
        le_reversed_is_be(row.last()@);
        assert(repr_values(row).drop_last() =~= repr_values(row.drop_last()));
    } else {
        assert(repr_values(row) =~= Seq::<nat>::empty());
    }
}

/// The numbers of a table, column after column, are those of its columns.
proof fn repr_values_flatten(table: Seq<Seq<[u8; 32]>>)
    ensures
        repr_values(table.flatten()) == table.map_values(
            |row: Seq<[u8; 32]>| repr_values(row),
        ).flatten(),
    decreases table.len(),
{
    let hold = |row: Seq<[u8; 32]>| repr_values(row);
    if table.len() > 0 {
        let front = table.drop_last();
        repr_values_flatten(front);
        assert(table =~= front.push(table.last()));
        front.lemma_flatten_push(table.last());
        assert(table.map_values(hold) =~= front.map_values(hold).push(repr_values(table.last())));
        front.map_values(hold).lemma_flatten_push(repr_values(table.last()));
        assert(repr_values(table.flatten()) =~= repr_values(front.flatten()) + repr_values(
            table.last(),
        ));
    } else {
        assert(table.map_values(hold) =~= Seq::<Seq<nat>>::empty());
        assert(repr_values(table.flatten()) =~= Seq::<nat>::empty());
    }
}

/// A scalar-field element fits in an EVM word.
proof fn element_fits_word()
    ensures
        fr_modulus() <= byte_range(word_len()),
{
    reveal_with_fuel(byte_range, 33);
}

/// Encodes instances and a proof into calldata.
pub fn encode_calldata(instances: &Vec<Vec<Fr>>, bytes: &[u8]) -> (calldata: Vec<u8>)
    ensures
        calldata@ == calldata_of(table_values(instances@), bytes@),
{
    let mut table: Vec<Vec<[u8; 32]>> = Vec::new();
    let mut i: usize = 0;
    while i < instances.len()
        invariant
            i <= instances@.len(),
            table@.len() == i,
            forall|k: int|
                #![trigger table@[k]]
                0 <= k < i ==> repr_values(table@[k]@) == values(instances@[k]@),
            forall|k: int, j: int|
                0 <= k < i && 0 <= j < table@[k]@.len() ==> le_value((#[trigger] table@[k]@[j])@)
                    < fr_modulus(),
        decreases instances.len() - i,
    {
        table.push(column_reprs(&instances[i]));
        i += 1;
    }
    proof {
        let reprs = columns(table@);
        assert(reprs.map_values(|row: Seq<[u8; 32]>| repr_values(row)) =~= table_values(
            instances@,
        ));
        repr_values_flatten(reprs);
        reversed_is_words(reprs.flatten());
    }
    encode_reprs(&table, bytes)
}

/// The words of a row take up 32 bytes each.
pub proof fn words_len(row: Seq<nat>)
    ensures
        words(row).len() == word_len() * row.len(),
    decreases row.len(),
{
    if row.len() > 0 {
        words_len(row.drop_last());
        be_bytes_len(row.last(), word_len());
    }
}

/// Instance `i` of the calldata stands in the bytes from `32 * i` on, most
/// significant first, and the proof stands behind all of them.
pub proof fn calldata_layout(table: Seq<Seq<nat>>, bytes: Seq<u8>)
    ensures
        ({
            let (calldata, n) = (calldata_of(table, bytes), word_len() as int);
            let row = table.flatten();
            &&& calldata.len() == n * row.len() + bytes.len()
            &&& calldata.skip(n * row.len()) == bytes
            &&& forall|i: int|
                0 <= i < row.len() ==> calldata.subrange(n * i, n * i + n) == be_bytes(
                    #[trigger] row[i],
                    word_len(),
                )
        }),
{
    let row = table.flatten();
    let (calldata, n) = (calldata_of(table, bytes), word_len() as int);
    words_len(row);
    assert(calldata.skip(n * row.len()) =~= bytes);
    assert forall|i: int| 0 <= i < row.len() implies calldata.subrange(n * i, n * i + n)
        == be_bytes(#[trigger] row[i], word_len()) by {
        word_at(row, i);
        assert(0 <= n * i && n * i + n <= n * row.len()) by (nonlinear_arith)
            requires
                0 < n,
                0 <= i < row.len(),
        ;
        assert(calldata.subrange(n * i, n * i + n) =~= words(row).subrange(n * i, n * i + n));
    }
}

/// Word `i` of a row stands in the bytes from `32 * i` on.
proof fn word_at(row: Seq<nat>, i: int)
    requires
        0 <= i < row.len(),
    ensures
        words(row).subrange(word_len() * i, word_len() * i + word_len()) == be_bytes(
            row[i],
            word_len(),
        ),
    decreases row.len(),
{
    let n = word_len() as int;
    let front = row.drop_last();
    words_len(front);
    words_len(row);
    be_bytes_len(row.last(), word_len());
    if i == row.len() - 1 {
        assert(words(row).subrange(n * i, n * i + n) =~= be_bytes(row.last(), word_len()));
    } else {
        word_at(front, i);
        assert(words(row).subrange(n * i, n * i + n) =~= words(front).subrange(n * i, n * i + n));
    }
}

/// Calldata for equally many instances determines both the instances and the
/// proof.
pub proof fn calldata_determines(
    table_a: Seq<Seq<nat>>,
    bytes_a: Seq<u8>,
    table_b: Seq<Seq<nat>>,
    bytes_b: Seq<u8>,
)
    requires
        table_a.flatten().len() == table_b.flatten().len(),
        forall|i: int|
            0 <= i < table_a.flatten().len() ==> #[trigger] table_a.flatten()[i] < fr_modulus(),
        forall|i: int|
            0 <= i < table_b.flatten().len() ==> #[trigger] table_b.flatten()[i] < fr_modulus(),
        calldata_of(table_a, bytes_a) == calldata_of(table_b, bytes_b),
    ensures
        table_a.flatten() == table_b.flatten(),
        bytes_a == bytes_b,
{
    let (a, b) = (table_a.flatten(), table_b.flatten());
    calldata_layout(table_a, bytes_a);
    calldata_layout(table_b, bytes_b);
    element_fits_word();
    assert forall|i: int| 0 <= i < a.len() implies a[i] == b[i] by {
        be_bytes_injective(a[i], b[i], word_len());
    }
    assert(a =~= b);
}

/// A table of elements and the table of their numbers match place by place.
pub proof fn table_values_match(table: Seq<Vec<Fr>>, i: int, j: int)
    requires
        0 <= i < table.len(),
    ensures
        table_values(table).len() == table.len(),
        table_values(table)[i].len() == table[i]@.len(),
        0 <= j < table[i]@.len() ==> table_values(table)[i][j] == table[i]@[j]@,
{
    assert(table_values(table)[i] == values(columns(table)[i]));
}

/// Each instance fills 32 bytes of the calldata, the last of them its lowest byte,
/// and the byte `j` places before that counts 256 to the power `j` times. The proof
/// follows byte by byte.
pub proof fn calldata_byte_by_byte(table: Seq<Seq<nat>>, bytes: Seq<u8>, i: int, j: nat)
    ensures
        calldata_of(table, bytes).len() == 32 * table.flatten().len() + bytes.len(),
        0 <= i < table.flatten().len() && j < 32 ==> calldata_of(table, bytes)[32 * i + 31 - j]
            == (table.flatten()[i] / byte_range(j)) % 256,
        0 <= i < bytes.len() ==> calldata_of(table, bytes)[32 * table.flatten().len() + i]
            == bytes[i],
{
    let (row, calldata) = (table.flatten(), calldata_of(table, bytes));
    calldata_layout(table, bytes);
    if 0 <= i < row.len() && j < 32 {
        be_bytes_byte(row[i], 32, j);
        assert(calldata.subrange(32 * i, 32 * i + 32)[31 - j] == calldata[32 * i + 31 - j]);
    }
    if 0 <= i < bytes.len() {
        assert(calldata.skip(32 * row.len() as int)[i] == calldata[32 * row.len() + i]);
    }
}

} // verus!
