//! Verifying an aggregated proof in a simulated EVM.

use ethereum_types::Address;
use vstd::arithmetic::div_mod::lemma_basic_div;
use vstd::prelude::*;

use crate::bytes::{be_bytes, be_bytes_byte, byte_range, byte_range_grows};
use crate::calldata::{calldata_of, encode_calldata, table_values};
use crate::failure::Failure;
use crate::field::Fr;
use crate::files::{writes_number, ProofFile};
use crate::report::{line, line_views, Line, Style};
use crate::text::{
    around_number, decimal, decimal_by_digits, decimal_denotes, decimal_digits,
};

verus! {

/// The account that deploys and calls the verifier.
pub const CALLER: u64 = 0xfe;

/// How many bytes an address has.
pub open spec fn address_len() -> nat {
    20
}

/// `ethereum_types::Address::from_low_u64_be`: the address whose lowest eight
/// bytes are `low`, most significant first, and whose other bytes are zero.
#[verifier::external_body]
fn address_from_low(low: u64) -> (address: [u8; 20])
    ensures
        address@ == be_bytes(low as nat, address_len()),
{
    Address::from_low_u64_be(low).0
}

/// What is deployed and called, by whom, with how much gas and value.
pub struct EvmCall {
    pub caller: [u8; 20],
    pub gas_limit: u64,
    pub value: u64,
    pub deployment_code: Vec<u8>,
    pub calldata: Vec<u8>,
}

/// A deployment and call, by what is in it.
pub struct EvmCallView {
    pub caller: Seq<u8>,
    pub gas_limit: u64,
    pub value: u64,
    pub deployment_code: Seq<u8>,
    pub calldata: Seq<u8>,
}

impl View for EvmCall {
    type V = EvmCallView;

    open spec fn view(&self) -> EvmCallView {
        EvmCallView {
            caller: self.caller@,
            gas_limit: self.gas_limit,
            value: self.value,
            deployment_code: self.deployment_code@,
            calldata: self.calldata@,
        }
    }
}

/// The deployment of a verifier and the call that verifies the proof `bytes` for
/// the public inputs `table` with it.
pub open spec fn call_for(
    deployment_code: Seq<u8>,
    table: Seq<Seq<nat>>,
    bytes: Seq<u8>,
) -> EvmCallView {
    EvmCallView {
        caller: be_bytes(CALLER as nat, address_len()),
        gas_limit: u64::MAX,
        value: 0,
        deployment_code,
        calldata: calldata_of(table, bytes),
    }
}

/// The deployment of a verifier and the call that verifies a proof with it.
pub fn evm_call(deployment_code: Vec<u8>, instances: &Vec<Vec<Fr>>, bytes: &[u8]) -> (call: EvmCall)
    ensures
        call@ == call_for(deployment_code@, table_values(instances@), bytes@),
        call.gas_limit == u64::MAX,
        call.value == 0,
        call.deployment_code@ == deployment_code@,
        call.calldata@ == calldata_of(table_values(instances@), bytes@),
{
    EvmCall {
        caller: address_from_low(CALLER),
        gas_limit: u64::MAX,
        value: 0,
        deployment_code,
        calldata: encode_calldata(instances, bytes),
    }
}

/// What came of deploying and calling the verifier.
pub enum EvmReply {
    /// The verifier could not be deployed.
    DeployFailed { message: String },
    /// The verifier could not be called.
    CallFailed,
    /// The call returned.
    Returned { gas_used: u64, reverted: bool },
}

/// What a call that returned did.
#[derive(Clone, Copy, Debug, PartialEq, Eq, Structural)]
pub struct EvmReturn {
    pub gas_used: u64,
    pub reverted: bool,
}

/// What the verification comes to.
pub open spec fn evm_outcome(reply: EvmReply) -> Result<EvmReturn, Failure> {
    match reply {
        EvmReply::DeployFailed { message } => Err(Failure::Outside { message }),
        EvmReply::CallFailed => Err(Failure::EvmCall),
        EvmReply::Returned { gas_used, reverted } => Ok(EvmReturn { gas_used, reverted }),
    }
}

/// What the verification comes to.
pub fn evm_verify(reply: EvmReply) -> (outcome: Result<EvmReturn, Failure>)
    ensures
        outcome == evm_outcome(reply),
        reply matches EvmReply::Returned { gas_used, reverted } ==> {
            &&& outcome is Ok
            &&& outcome->Ok_0.gas_used == gas_used
            &&& outcome->Ok_0.reverted == reverted
        },
        !(reply is Returned) ==> outcome is Err,
{
    match reply {
        EvmReply::DeployFailed { message } => Err(Failure::Outside { message }),
        EvmReply::CallFailed => Err(Failure::EvmCall),
        EvmReply::Returned { gas_used, reverted } => Ok(EvmReturn { gas_used, reverted }),
    }
}

/// What is printed of the verification.
pub open spec fn evm_report(outcome: Result<EvmReturn, Failure>) -> Seq<(Seq<char>, Style)> {
    match outcome {
        Ok(returned) => seq![
            ("Gas used: "@ + decimal(returned.gas_used as nat), Style::Note),
            if returned.reverted {
                ("Verification failed"@, Style::Error)
            } else {
                ("Verification success"@, Style::Success)
            },
        ],
        Err(_) => seq![(Failure::EvmVerification.text(), Style::Error)],
    }
}

/// The lines to print of the verification.
pub fn evm_lines(outcome: &Result<EvmReturn, Failure>) -> (lines: Vec<Line>)
    ensures
        line_views(lines@) == evm_report(*outcome),
{
    let mut lines: Vec<Line> = Vec::new();
    match outcome {
        Ok(returned) => {
            let text = around_number("Gas used: ", returned.gas_used, "");
            proof {
                reveal_strlit("");
                assert(text@ =~= "Gas used: "@ + decimal(returned.gas_used as nat));
            }
            lines.push(Line { text, style: Style::Note });
            if returned.reverted {
                lines.push(line("Verification failed", Style::Error));
            } else {
                lines.push(line("Verification success", Style::Success));
            }
        },
        Err(_) => {
            lines.push(Line { text: Failure::EvmVerification.message(), style: Style::Error });
        },
    }
    assert(line_views(lines@) =~= evm_report(*outcome));
    lines
}

/// Verifying one proof twice comes to the same, in an EVM that starts afresh each
/// time, so that its reply depends on the call alone.
pub proof fn verification_repeats(
    fresh_evm: spec_fn(EvmCallView) -> EvmReply,
    first: EvmCall,
    second: EvmCall,
    deployment_code: Seq<u8>,
    table: Seq<Seq<nat>>,
    bytes: Seq<u8>,
)
    requires
        first@ == call_for(deployment_code, table, bytes),
        second@ == call_for(deployment_code, table, bytes),
    ensures
        first@ == second@,
        evm_outcome(fresh_evm(first@)) == evm_outcome(fresh_evm(second@)),
        evm_report(evm_outcome(fresh_evm(first@))) == evm_report(
            evm_outcome(fresh_evm(second@)),
        ),
{
}

/// What is written to which file of an aggregated proof: the proof as it is, and
/// the calldata that verifies it.
pub fn proof_outputs(instances: &Vec<Vec<Fr>>, bytes: &Vec<u8>) -> (outputs: Vec<
    (ProofFile, Vec<u8>),
>)
    ensures
        outputs@.len() == 2,
        outputs@[0].0 == ProofFile::Proof,
        outputs@[0].1@ == bytes@,
        outputs@[1].0 == ProofFile::Calldata,
        outputs@[1].1@ == calldata_of(table_values(instances@), bytes@),
{
    let same = bytes.clone();
    assert(same@ =~= bytes@);
    let mut outputs: Vec<(ProofFile, Vec<u8>)> = Vec::new();
    outputs.push((ProofFile::Proof, same));
    outputs.push((ProofFile::Calldata, encode_calldata(instances, bytes.as_slice())));
    outputs
}

/// What a call that returned did is handed on unchanged, whatever the gas used and
/// whether it was reverted or not.
pub proof fn return_is_handed_on(gas_used: u64, reverted: bool)
    ensures
        evm_outcome(EvmReply::Returned { gas_used, reverted }) is Ok,
        evm_outcome(EvmReply::Returned { gas_used, reverted })->Ok_0.gas_used == gas_used,
        evm_outcome(EvmReply::Returned { gas_used, reverted })->Ok_0.reverted == reverted,
{
}

/// What keeps the verifier from being deployed is told as it is, and that it could not
/// be called is a failure of the call.
pub proof fn failed_evm_is_told(message: String)
    ensures
        evm_outcome(EvmReply::DeployFailed { message }) == Err::<EvmReturn, _>(
            Failure::Outside { message },
        ),
        evm_outcome(EvmReply::CallFailed) == Err::<EvmReturn, _>(Failure::EvmCall),
{
}

/// The report says success exactly if the verifier was called and did not revert,
/// whatever the gas used.
pub proof fn success_means_not_reverted(reply: EvmReply)
    ensures
        ({
            let report = evm_report(evm_outcome(reply));
            &&& report.len() > 0
            &&& report.last() == ("Verification success"@, Style::Success) <==> (reply is Returned
                && !reply->reverted)
            &&& report.last() == ("Verification failed"@, Style::Error) <==> (reply is Returned
                && reply->reverted)
            &&& !(reply is Returned) ==> report == seq![("Evm verification failed"@, Style::Error)]
        }),
{
    reveal_strlit("Verification success");
    reveal_strlit("Verification failed");
    reveal_strlit("Evm verification failed");
    assert("Verification success"@.len() != "Verification failed"@.len());
    assert("Evm verification failed"@.len() != "Verification failed"@.len());
    assert(evm_report(evm_outcome(reply)).len() > 0);
}

/// The report of a call that returned has two lines, and the first says the gas used.
pub proof fn report_says_gas(gas_used: u64, reverted: bool)
    ensures
        ({
            let report = evm_report(evm_outcome(EvmReply::Returned { gas_used, reverted }));
            &&& report.len() == 2
            &&& report[0].1 == Style::Note
            &&& report[0].0.take(10) == "Gas used: "@
            &&& writes_number(report[0].0.skip(10), gas_used as nat)
        }),
{
    reveal_strlit("Gas used: ");
    let report = evm_report(evm_outcome(EvmReply::Returned { gas_used, reverted }));
    decimal_denotes(gas_used as nat);
    decimal_digits(gas_used as nat);
    decimal_by_digits(gas_used as nat, 0);
    assert(report[0].0.take(10) =~= "Gas used: "@);
    assert(report[0].0.skip(10) =~= decimal(gas_used as nat));
}

/// The verifier that is deployed and the proof that it is called with are those given,
/// by the account with the number 254, with all gas and no value.
pub proof fn call_carries_its_inputs(
    deployment_code: Seq<u8>,
    table: Seq<Seq<nat>>,
    bytes: Seq<u8>,
    i: int,
)
    ensures
        ({
            let call = call_for(deployment_code, table, bytes);
            &&& call.deployment_code == deployment_code
            &&& call.calldata == calldata_of(table, bytes)
            &&& call.gas_limit == u64::MAX
            &&& call.value == 0
            &&& call.caller.len() == 20
            &&& call.caller[19] == 254
            &&& 0 <= i < 19 ==> call.caller[i] == 0
        }),
{
    be_bytes_byte(254, 20, 0);
    byte_range_grows(0);
    if 0 <= i < 19 {
        let place = (19 - i) as nat;
        be_bytes_byte(254, 20, place);
        small_quotient(254, place);
    }
}

/// A number below 256 has nothing beyond its lowest byte.
proof fn small_quotient(value: nat, place: nat)
    requires
        value < 256,
        place > 0,
    ensures
        value / byte_range(place) == 0,
{
    let before = (place - 1) as nat;
    byte_range_grows(before);
    assert(byte_range(place) >= 256);
    lemma_basic_div(value as int, byte_range(place) as int);
}

/// A call is seen by all that is in it.
pub proof fn call_is_seen_whole(call: EvmCall)
    ensures
        call@.caller == call.caller@,
        call@.gas_limit == call.gas_limit,
        call@.value == call.value,
        call@.deployment_code == call.deployment_code@,
        call@.calldata == call.calldata@,
{
}

} // verus!
