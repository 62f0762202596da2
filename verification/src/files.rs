//! The names of the files that the tool reads and writes.

use vstd::prelude::*;

use crate::text::{
    around_number, decimal, decimal_by_digits, decimal_denotes, decimal_digits, join, number_of,
};

verus! {

/// The name of the file with proof `number`.
pub open spec fn proof_name(number: nat) -> Seq<char> {
    "proof"@ + decimal(number) + ".json"@
}

/// The name of the file with the public signals of proof `number`.
pub open spec fn public_name(number: nat) -> Seq<char> {
    "public"@ + decimal(number) + ".json"@
}

/// The name of the file with parameters of degree `k`.
pub open spec fn srs_name(k: nat) -> Seq<char> {
    "k-"@ + decimal(k) + ".srs"@
}

/// The files that an aggregated proof is written to.
#[derive(Clone, Copy, Debug, PartialEq, Eq, Structural)]
pub enum ProofFile {
    /// The bytes of the proof.
    Proof,
    /// The public inputs.
    Instances,
    /// The calldata of the EVM verifier.
    Calldata,
}

impl ProofFile {
    /// What tells the file from the others.
    pub open spec fn suffix(self) -> Seq<char> {
        match self {
            ProofFile::Proof => ""@,
            ProofFile::Instances => "instances"@,
            ProofFile::Calldata => "evm-calldata"@,
        }
    }

    /// The name of the file.
    pub open spec fn spec_name(self) -> Seq<char> {
        "halo2-agg-proof"@ + self.suffix() + ".txt"@
    }

    /// The name of the file.
    pub fn name(&self) -> (name: String)
        ensures
            name@ == self.spec_name(),
    {
        let suffix = match self {
            ProofFile::Proof => "",
            ProofFile::Instances => "instances",
            ProofFile::Calldata => "evm-calldata",
        };
        join(join("halo2-agg-proof", suffix).as_str(), ".txt")
    }
}

/// The name of the file with proof `number`.
pub fn proof_file(number: u64) -> (name: String)
    ensures
        name@ == proof_name(number as nat),
{
    around_number("proof", number, ".json")
}

/// The name of the file with the public signals of proof `number`.
pub fn public_file(number: u64) -> (name: String)
    ensures
        name@ == public_name(number as nat),
{
    around_number("public", number, ".json")
}

/// The name of the file with parameters of degree `k`.
pub fn srs_file(k: u64) -> (name: String)
    ensures
        name@ == srs_name(k as nat),
{
    around_number("k-", k, ".srs")
}

/// The name of the file with the bytecode of the EVM verifier.
pub fn verifier_file() -> (name: String)
    ensures
        name@ == "evm-verifier.bin"@,
{
    "evm-verifier.bin".to_owned()
}

/// The text between a prefix and a suffix.
proof fn middle_cancels(prefix: Seq<char>, a: Seq<char>, b: Seq<char>, suffix: Seq<char>)
    requires
        prefix + a + suffix == prefix + b + suffix,
    ensures
        a == b,
{
    let (x, y) = (prefix + a + suffix, prefix + b + suffix);
    assert(x.len() == prefix.len() + a.len() + suffix.len());
    assert(y.len() == prefix.len() + b.len() + suffix.len());
    assert(a =~= x.subrange(prefix.len() as int, (prefix.len() + a.len()) as int));
    assert(b =~= y.subrange(prefix.len() as int, (prefix.len() + b.len()) as int));
}

/// No two files of proofs or public signals have one name.
pub proof fn input_names_distinct(a: nat, b: nat)
    ensures
        proof_name(a) == proof_name(b) ==> a == b,
        public_name(a) == public_name(b) ==> a == b,
        proof_name(a) != public_name(b),
{
    if proof_name(a) == proof_name(b) {
        middle_cancels("proof"@, decimal(a), decimal(b), ".json"@);
    }
    if public_name(a) == public_name(b) {
        middle_cancels("public"@, decimal(a), decimal(b), ".json"@);
    }
    decimal_denotes(a);
    decimal_denotes(b);
    reveal_strlit("proof");
    reveal_strlit("public");
    assert(proof_name(a)[1] == 'r');
    assert(public_name(b)[1] == 'u');
}

/// Parameters of different degrees are kept in different files.
pub proof fn srs_names_distinct(a: nat, b: nat)
    requires
        srs_name(a) == srs_name(b),
    ensures
        a == b,
{
    middle_cancels("k-"@, decimal(a), decimal(b), ".srs"@);
    decimal_denotes(a);
    decimal_denotes(b);
}

/// The files of an aggregated proof have different names.
pub proof fn proof_file_names_distinct(a: ProofFile, b: ProofFile)
    requires
        a.spec_name() == b.spec_name(),
    ensures
        a == b,
{
    reveal_strlit("");
    reveal_strlit("instances");
    reveal_strlit("evm-calldata");
    middle_cancels("halo2-agg-proof"@, a.suffix(), b.suffix(), ".txt"@);
    assert(a.suffix().len() == b.suffix().len());
}

/// A row of decimal digits that denotes `number` and does not begin with a zero that
/// could be left out.
pub open spec fn writes_number(digits: Seq<char>, number: nat) -> bool {
    &&& digits.len() > 0
    &&& number_of(digits) == number
    &&& forall|i: int| 0 <= i < digits.len() ==> '0' <= #[trigger] digits[i] <= '9'
    &&& number > 0 ==> digits[0] != '0'
}

/// Decimal notation writes its number.
proof fn decimal_writes(number: nat)
    ensures
        writes_number(decimal(number), number),
{
    decimal_denotes(number);
    decimal_digits(number);
    decimal_by_digits(number, 0);
}

/// The file of a proof and that of its public signals are called by the number of the
/// proof, which both names write alike.
pub proof fn input_names_say_number(number: nat)
    ensures
        ({
            let (own, other) = (proof_name(number), public_name(number));
            let digits = own.subrange(5, own.len() - 5);
            &&& own.len() > 10
            &&& other.len() == own.len() + 1
            &&& own.take(5) == seq!['p', 'r', 'o', 'o', 'f']
            &&& other.take(6) == seq!['p', 'u', 'b', 'l', 'i', 'c']
            &&& own.skip(own.len() - 5) == seq!['.', 'j', 's', 'o', 'n']
            &&& other.skip(other.len() - 5) == seq!['.', 'j', 's', 'o', 'n']
            &&& writes_number(digits, number)
            &&& other.subrange(6, other.len() - 5) == digits
        }),
{
    reveal_strlit("proof");
    reveal_strlit("public");
    reveal_strlit(".json");
    decimal_writes(number);
    let (own, other) = (proof_name(number), public_name(number));
    assert(own.subrange(5, own.len() - 5) =~= decimal(number));
    assert(other.subrange(6, other.len() - 5) =~= decimal(number));
    assert(own.take(5) =~= seq!['p', 'r', 'o', 'o', 'f']);
    assert(other.take(6) =~= seq!['p', 'u', 'b', 'l', 'i', 'c']);
    assert(own.skip(own.len() - 5) =~= seq!['.', 'j', 's', 'o', 'n']);
    assert(other.skip(other.len() - 5) =~= seq!['.', 'j', 's', 'o', 'n']);
}

/// The file of parameters is called by their degree.
pub proof fn srs_name_says_degree(k: nat)
    ensures
        ({
            let name = srs_name(k);
            &&& name.len() > 6
            &&& name.take(2) == seq!['k', '-']
            &&& name.skip(name.len() - 4) == seq!['.', 's', 'r', 's']
            &&& writes_number(name.subrange(2, name.len() - 4), k)
        }),
{
    reveal_strlit("k-");
    reveal_strlit(".srs");
    decimal_writes(k);
    let name = srs_name(k);
    assert(name.subrange(2, name.len() - 4) =~= decimal(k));
    assert(name.take(2) =~= seq!['k', '-']);
    assert(name.skip(name.len() - 4) =~= seq!['.', 's', 'r', 's']);
}

/// The files of an aggregated proof have these names.
pub proof fn proof_files_are_called()
    ensures
        ProofFile::Proof.spec_name() == "halo2-agg-proof.txt"@,
        ProofFile::Instances.spec_name() == "halo2-agg-proofinstances.txt"@,
        ProofFile::Calldata.spec_name() == "halo2-agg-proofevm-calldata.txt"@,
{
    reveal_strlit("");
    reveal_strlit(".txt");
    reveal_strlit("instances");
    reveal_strlit("evm-calldata");
    reveal_strlit("halo2-agg-proof");
    reveal_strlit("halo2-agg-proof.txt");
    reveal_strlit("halo2-agg-proofinstances.txt");
    reveal_strlit("halo2-agg-proofevm-calldata.txt");
    assert(ProofFile::Proof.spec_name() =~= "halo2-agg-proof.txt"@);
    assert(ProofFile::Instances.spec_name() =~= "halo2-agg-proofinstances.txt"@);
    assert(ProofFile::Calldata.spec_name() =~= "halo2-agg-proofevm-calldata.txt"@);
}

} // verus!
