use maze::calldata::encode_calldata;
use maze::evm::{evm_call, evm_lines, evm_verify, proof_outputs, EvmReply, EvmReturn};
use maze::failure::Failure;
use maze::field::Fr;
use maze::files::{proof_file, public_file, srs_file, verifier_file, ProofFile};
use maze::inputs::{prepare_circom_vk, Fetched, InputReader, InputRequest};
use maze::params::{degree, params_format, params_format_of, prepare_params, SrsFormat};
use maze::proving::{Proving, ProvingEvent};
use maze::report::{elapsed_line, Line, MockResult, Style};
use maze::saving::{finish_output, Detail, SaveNext, SaveStep, Saving, Target};
use std::collections::BTreeMap;
use maze::text::to_decimal;
use maze::workflow::{Command, Ending, Next, OnFailure, Stage, Workflow};

fn fr(value: u8) -> Fr {
    let mut bytes = [0u8; 32];
    bytes[0] = value;
    bytes[1] = 1;
    Fr::from_repr(bytes).unwrap()
}

fn word(value: u8) -> Vec<u8> {
    let mut bytes = vec![0u8; 32];
    bytes[30] = 1;
    bytes[31] = value;
    bytes
}

fn printed(lines: &[Line]) -> Vec<(&str, Style)> {
    lines.iter().map(|line| (line.text.as_str(), line.style)).collect()
}

#[test]
fn calldata_holds_words_and_then_the_proof() {
    let calldata = encode_calldata(&vec![vec![fr(2), fr(3)], vec![], vec![fr(4)]], &[9, 8]);
    let expected = [word(2), word(3), word(4), vec![9, 8]].concat();
    assert_eq!(calldata, expected);
    assert_eq!(encode_calldata(&vec![], &[7]), vec![7]);
}

#[test]
fn calldata_tells_instances_apart() {
    let a = encode_calldata(&vec![vec![fr(2)]], &[1]);
    assert!(a != encode_calldata(&vec![vec![fr(3)]], &[1]));
    assert!(a != encode_calldata(&vec![vec![fr(2)]], &[2]));
}

#[test]
fn the_verifier_is_called_with_the_calldata() {
    let call = evm_call(vec![1, 2], &vec![vec![fr(5)]], &[6]);
    let mut caller = [0u8; 20];
    caller[19] = 0xfe;
    assert_eq!(call.caller, caller);
    assert_eq!(call.gas_limit, u64::MAX);
    assert_eq!(call.value, 0);
    assert_eq!(call.deployment_code, vec![1, 2]);
    assert_eq!(call.calldata, [word(5), vec![6]].concat());
}

#[test]
fn the_verification_is_reported() {
    let good = evm_verify(EvmReply::Returned { gas_used: 1205, reverted: false });
    assert_eq!(good.as_ref().ok(), Some(&EvmReturn { gas_used: 1205, reverted: false }));
    assert_eq!(
        printed(&evm_lines(&good)),
        vec![("Gas used: 1205", Style::Note), ("Verification success", Style::Success)]
    );
    let bad = evm_verify(EvmReply::Returned { gas_used: 0, reverted: true });
    assert_eq!(
        printed(&evm_lines(&bad)),
        vec![("Gas used: 0", Style::Note), ("Verification failed", Style::Error)]
    );
    let failed = evm_verify(EvmReply::CallFailed);
    assert_eq!(failed.as_ref().err().unwrap().message(), "EVM verification failed!");
    assert_eq!(printed(&evm_lines(&failed)), vec![("Evm verification failed", Style::Error)]);
    let undeployed = evm_verify(EvmReply::DeployFailed { message: "no".to_string() });
    assert_eq!(undeployed.err().unwrap().message(), "no");
}

#[test]
fn the_proof_and_its_calldata_are_written() {
    let outputs = proof_outputs(&vec![vec![fr(5)]], &vec![6]);
    assert_eq!(outputs[0], (ProofFile::Proof, vec![6]));
    assert_eq!(outputs[1], (ProofFile::Calldata, [word(5), vec![6]].concat()));
    assert_eq!(outputs.len(), 2);
}

#[test]
fn numbers_are_written_in_decimal() {
    for number in [0, 7, 10, 99, 100, 120, 18446744073709551615] {
        assert_eq!(to_decimal(number), format!("{}", number));
    }
}

#[test]
fn files_have_their_names() {
    assert_eq!(proof_file(1), "proof1.json");
    assert_eq!(public_file(12), "public12.json");
    assert_eq!(srs_file(21), "k-21.srs");
    assert_eq!(verifier_file(), "evm-verifier.bin");
    let files = [ProofFile::Proof, ProofFile::Instances, ProofFile::Calldata];
    let names: Vec<String> = files.iter().map(|file| file.name()).collect();
    assert_eq!(
        names,
        vec![
            "halo2-agg-proof.txt",
            "halo2-agg-proofinstances.txt",
            "halo2-agg-proofevm-calldata.txt",
        ]
    );
}

#[test]
fn input_files_do_not_collide() {
    let mut names = Vec::new();
    for number in 1..200 {
        names.push(proof_file(number));
        names.push(public_file(number));
        names.push(srs_file(number));
    }
    names.sort();
    let count = names.len();
    names.dedup();
    assert_eq!(names.len(), count);
}

#[test]
fn parameters_come_in_two_formats() {
    let format = |extension: &str| params_format(Some(extension.to_string()));
    assert_eq!(format("ptau").ok(), Some(SrsFormat::SnarkJs));
    assert_eq!(format("srs").ok(), Some(SrsFormat::Pse));
    assert!(matches!(format("PTAU"), Err(Failure::ParamsExtension)));
    assert!(matches!(format(""), Err(Failure::ParamsExtension)));
    assert!(matches!(params_format(None), Err(Failure::ParamsPath)));
}

#[test]
fn the_format_is_told_by_the_path() {
    let pse = ["k.srs", "a/b/k-21.srs", "/a.ptau/x.srs", "./x.srs", "x.ptau.srs", "x.srs/",
        "x.srs/.//", "..srs", "../x.srs"];
    for path in pse {
        assert_eq!(params_format_of(path).ok(), Some(SrsFormat::Pse), "{}", path);
    }
    for path in ["k.ptau", "a.srs/k.ptau", "x.srs.ptau"] {
        assert_eq!(params_format_of(path).ok(), Some(SrsFormat::SnarkJs), "{}", path);
    }
    for path in ["", "/", ".", "..", "x", "a.srs/x", ".srs", "a/.ptau", "x.srs/..", "./"] {
        assert!(matches!(params_format_of(path), Err(Failure::ParamsPath)), "{}", path);
    }
    for path in ["x.", "x.SRS", "x.srs.bak", "srs.x", "x.srs ", "a.srs/x.y"] {
        assert!(matches!(params_format_of(path), Err(Failure::ParamsExtension)), "{}", path);
    }
}

#[test]
fn saved_parameters_load_back() {
    let mut files = BTreeMap::new();
    for k in [0, 7, 21, 1234567] {
        assert!(save(&mut files, Target::Params { k }, &[k as u8, 1], NEVER).1.is_ok());
        let name = srs_file(k as u64);
        for path in [name.clone(), format!("out/{}", name), format!("/a.b/{}", name)] {
            let format = params_format_of(&path).ok().unwrap();
            assert_eq!(format, SrsFormat::Pse);
            let loaded = prepare_params(format, Fetched::Parsed(files[&name].clone()));
            assert_eq!(loaded.ok(), Some(vec![k as u8, 1]));
        }
    }
}

#[test]
fn parameters_are_handed_on_or_reported() {
    assert_eq!(prepare_params(SrsFormat::Pse, Fetched::Parsed(3)).ok(), Some(3));
    let missing = |format| {
        let fetched = Fetched::<u8>::Missing { path: "p".to_string() };
        prepare_params(format, fetched).err().unwrap().message()
    };
    assert_eq!(missing(SrsFormat::SnarkJs), "Failed to read .ptau file p");
    assert_eq!(missing(SrsFormat::Pse), "Failed to read .srs file p");
    let malformed = prepare_params(SrsFormat::Pse, Fetched::<u8>::Malformed);
    assert_eq!(malformed.err().unwrap().message(), "Malformed params file");
}

#[test]
fn degrees_are_cut_to_32_bits() {
    assert_eq!(degree(21), 21);
    assert_eq!(degree((1 << 32) + 5), 5);
    match &(Target::Params { k: (1 << 32) + 5 }).steps()[1..] {
        [SaveStep::Generate { degree }, SaveStep::Create { name }, SaveStep::Write] => {
            assert_eq!(*degree, 5);
            assert_eq!(name, "k-4294967301.srs");
        }
        _ => panic!("parameters are made, and then written"),
    }
}

fn described(target: Target) -> Vec<String> {
    target
        .steps()
        .iter()
        .map(|step| match step {
            SaveStep::MakeDirectory => "directory".to_string(),
            SaveStep::Generate { degree } => format!("generate {}", degree),
            SaveStep::Create { name } => format!("create {}", name),
            SaveStep::Open { name } => format!("open {}", name),
            SaveStep::Write => "write".to_string(),
        })
        .collect()
}

#[test]
fn outputs_are_written_step_by_step() {
    assert_eq!(
        described(Target::Params { k: 3 }),
        vec!["directory", "generate 3", "create k-3.srs", "write"]
    );
    assert_eq!(
        described(Target::Verifier),
        vec!["directory", "create evm-verifier.bin", "write"]
    );
    assert_eq!(
        described(Target::ProofFiles),
        vec![
            "directory",
            "create halo2-agg-proof.txt",
            "create halo2-agg-proofinstances.txt",
            "create halo2-agg-proofevm-calldata.txt",
        ]
    );
    assert_eq!(
        described(Target::ProofOutput { file: ProofFile::Calldata }),
        vec!["open halo2-agg-proofevm-calldata.txt", "write"]
    );
}

#[test]
fn failed_writing_is_reported() {
    let told = |target: Target, step: SaveStep| {
        (target.detail(&step), target.failure(&step, "p".to_string()).message())
    };
    let path = |message: &str| (Detail::Path, message.to_string());
    let message = (Detail::Message, "p".to_string());
    let name = || "n".to_string();
    let params = Target::Params { k: 1 };
    let output = Target::ProofOutput { file: ProofFile::Proof };
    assert_eq!(
        told(Target::Verifier, SaveStep::MakeDirectory),
        path("Failed to locate directory at p")
    );
    assert_eq!(
        told(Target::ProofFiles, SaveStep::Create { name: name() }),
        path("Failed to create new file at p")
    );
    assert_eq!(told(output, SaveStep::Open { name: name() }), path("Failed to open file at p"));
    assert_eq!(told(output, SaveStep::Write), path("Failed to write to file at p"));
    assert_eq!(
        told(Target::Verifier, SaveStep::Write),
        path("Failed to write evm verifier to p")
    );
    assert_eq!(told(params, SaveStep::Write), message);
    assert_eq!(told(params, SaveStep::Generate { degree: 1 }), message);
}

/// Writes to a directory in memory. The step at `fails` fails.
fn save(
    files: &mut BTreeMap<String, Vec<u8>>,
    target: Target,
    contents: &[u8],
    fails: usize,
) -> (usize, Result<(), Failure>) {
    let mut at_hand = String::new();
    let mut saving = Saving::start(target);
    let mut tried = 0;
    loop {
        let outcome = if tried == fails {
            Err("x".to_string())
        } else {
            match saving.step() {
                SaveStep::MakeDirectory | SaveStep::Generate { .. } => {}
                SaveStep::Create { name } | SaveStep::Open { name } => {
                    at_hand = name.clone();
                    files.insert(name.clone(), vec![]);
                }
                SaveStep::Write => {
                    files.insert(at_hand.clone(), contents.to_vec());
                }
            }
            Ok(())
        };
        tried += 1;
        saving = match saving.finish_step(outcome) {
            SaveNext::Run(saving) => saving,
            SaveNext::End(result) => return (tried, result),
        };
    }
}

const NEVER: usize = usize::MAX;

#[test]
fn writing_succeeds_if_every_step_is_done() {
    let output = Target::ProofOutput { file: ProofFile::Proof };
    for target in [Target::Params { k: 2 }, Target::Verifier, Target::ProofFiles, output] {
        let count = target.steps().len();
        let (tried, result) = save(&mut BTreeMap::new(), target, &[1], NEVER);
        assert!(result.is_ok());
        assert_eq!(tried, count);
        for at in 0..count {
            let (tried, result) = save(&mut BTreeMap::new(), target, &[1], at);
            assert_eq!(tried, at + 1);
            let expected = target.failure(&target.steps()[at], "x".to_string()).message();
            assert_eq!(result.err().unwrap().message(), expected);
        }
    }
}

#[test]
fn a_failed_directory_makes_no_file() {
    let mut files = BTreeMap::new();
    files.insert("k-2.srs".to_string(), vec![9u8]);
    let (tried, result) = save(&mut files, Target::Params { k: 2 }, &[1], 0);
    assert_eq!(tried, 1);
    assert_eq!(result.err().unwrap().message(), "Failed to locate directory at x");
    assert_eq!(files.len(), 1);
    assert_eq!(files["k-2.srs"], vec![9]);
}

#[test]
fn a_failed_file_of_parameters_is_reported() {
    let params = Target::Params { k: 2 };
    let (_, result) = save(&mut BTreeMap::new(), params, &[1], 2);
    assert_eq!(result.err().unwrap().message(), "Failed to create new file at x");
    let (_, result) = save(&mut BTreeMap::new(), params, &[1], 3);
    assert_eq!(result.err().unwrap().message(), "x");
}

#[test]
fn parameters_of_other_degrees_stay() {
    let mut files = BTreeMap::new();
    files.insert("other".to_string(), vec![0u8]);
    assert!(save(&mut files, Target::Params { k: 2 }, &[2, 2], NEVER).1.is_ok());
    assert!(save(&mut files, Target::Params { k: 12 }, &[1], NEVER).1.is_ok());
    assert_eq!(files.len(), 3);
    assert_eq!(files["other"], vec![0]);
    assert_eq!(files["k-2.srs"], vec![2, 2]);
    assert_eq!(files["k-12.srs"], vec![1]);
    assert!(save(&mut files, Target::Verifier, &[5], NEVER).1.is_ok());
    assert_eq!(files["evm-verifier.bin"], vec![5]);
}

#[test]
fn the_proof_ends_up_in_its_files() {
    let mut files = BTreeMap::new();
    assert!(save(&mut files, Target::ProofFiles, &[], NEVER).1.is_ok());
    for (file, contents) in proof_outputs(&vec![vec![fr(5)]], &vec![6]) {
        assert!(save(&mut files, Target::ProofOutput { file }, &contents, NEVER).1.is_ok());
    }
    assert_eq!(files.len(), 3);
    assert_eq!(files["halo2-agg-proof.txt"], vec![6]);
    assert_eq!(files["halo2-agg-proofevm-calldata.txt"], [word(5), vec![6]].concat());
    assert_eq!(files["halo2-agg-proofinstances.txt"], Vec::<u8>::new());
}

#[test]
fn a_failed_output_does_not_stop_the_next() {
    let failed = Err(Failure::OpenFile { path: "p".to_string() });
    let (line, next) = finish_output(2, 0, &failed);
    assert_eq!(printed(&[line.unwrap()]), vec![("Failed to open file at p", Style::Error)]);
    assert_eq!(next, Some(1));
    let (line, next) = finish_output(2, 0, &Ok(()));
    assert!(line.is_none());
    assert_eq!(next, Some(1));
    let (line, next) = finish_output(2, 1, &failed);
    assert!(line.is_some());
    assert_eq!(next, None);
}

#[test]
fn verifying_twice_calls_alike() {
    let call = || evm_call(vec![1, 2], &vec![vec![fr(5)]], &[6]);
    let (first, second) = (call(), call());
    assert_eq!(first.caller, second.caller);
    assert_eq!((first.gas_limit, first.value), (second.gas_limit, second.value));
    assert_eq!(first.deployment_code, second.deployment_code);
    assert_eq!(first.calldata, second.calldata);
    let outcome = || evm_verify(EvmReply::Returned { gas_used: 3, reverted: false });
    assert_eq!(printed(&evm_lines(&outcome())), printed(&evm_lines(&outcome())));
}

#[test]
fn failures_have_messages() {
    let path = || "a/b".to_string();
    let messages = vec![
        (Failure::ParamsExtension, "Invalid file extension. Only .ptau or .srs files allowed for params"),
        (Failure::ParamsPath, "Invalid file path for params"),
        (Failure::Directory { path: path() }, "Failed to locate directory at a/b"),
        (Failure::CreateFile { path: path() }, "Failed to create new file at a/b"),
        (Failure::OpenFile { path: path() }, "Failed to open file at a/b"),
        (Failure::WriteFile { path: path() }, "Failed to write to file at a/b"),
        (Failure::WriteVerifier { path: path() }, "Failed to write evm verifier to a/b"),
        (Failure::MissingKey { path: path() }, "Failed to locate verification key at a/b"),
        (Failure::MalformedKey, "Malformed verification key"),
        (
            Failure::MissingProof { number: 12, path: path() },
            "Failed to locate proof12.json at a/b",
        ),
        (Failure::MalformedProof { number: 3 }, "Malformed proof3.json"),
        (
            Failure::MissingPublic { number: 4, path: path() },
            "Failed to locate public4.json at a/b",
        ),
        (Failure::MalformedPublic { number: 5 }, "Malformed public5.json"),
        (Failure::MockProver, "Mock prover failed"),
        (Failure::EvmVerification, "Evm verification failed"),
        (Failure::Outside { message: path() }, "a/b"),
    ];
    for (failure, message) in messages {
        assert_eq!(failure.message(), message);
    }
}

#[test]
fn the_key_is_handed_on_or_reported() {
    assert_eq!(prepare_circom_vk(Fetched::Parsed(3)).ok(), Some(3));
    assert!(matches!(prepare_circom_vk(Fetched::<u8>::Malformed), Err(Failure::MalformedKey)));
    match prepare_circom_vk(Fetched::<u8>::Missing { path: "p".to_string() }) {
        Err(Failure::MissingKey { path }) => assert_eq!(path, "p"),
        _ => panic!("the file is missing"),
    }
}

fn read(
    count: usize,
    fetch: impl Fn(&str) -> Fetched<String>,
) -> (Vec<String>, Result<(Vec<String>, Vec<String>), Failure>) {
    let mut asked = Vec::new();
    let mut reader = InputReader::new(count);
    loop {
        let next = match reader.request() {
            InputRequest::Proof { file, .. } => {
                asked.push(file.clone());
                reader.supply_proof(fetch(&file))
            }
            InputRequest::Public { file, .. } => {
                asked.push(file.clone());
                reader.supply_public(fetch(&file))
            }
            InputRequest::Finished => return (asked, Ok(reader.finish())),
        };
        reader = match next {
            Ok(next) => next,
            Err(failure) => return (asked, Err(failure)),
        };
    }
}

#[test]
fn inputs_are_read_in_turn() {
    let (asked, inputs) = read(2, |file| Fetched::Parsed(file.to_uppercase()));
    assert_eq!(asked, vec!["proof1.json", "public1.json", "proof2.json", "public2.json"]);
    let (proofs, signals) = inputs.ok().unwrap();
    assert_eq!(proofs, vec!["PROOF1.JSON", "PROOF2.JSON"]);
    assert_eq!(signals, vec!["PUBLIC1.JSON", "PUBLIC2.JSON"]);
    let (asked, inputs) = read(0, |_| Fetched::Malformed);
    assert!(asked.is_empty());
    assert_eq!(inputs.ok(), Some((vec![], vec![])));
}

#[test]
fn reading_stops_at_the_first_bad_file() {
    let (asked, inputs) = read(3, |file| {
        if file == "proof2.json" {
            Fetched::Missing { path: "d/proof2.json".to_string() }
        } else {
            Fetched::Parsed(file.to_string())
        }
    });
    assert_eq!(asked.len(), 3);
    assert_eq!(
        inputs.err().unwrap().message(),
        "Failed to locate proof2.json at d/proof2.json"
    );
    let (asked, inputs) = read(3, |file| {
        if file.contains('3') {
            Fetched::Malformed
        } else {
            Fetched::Parsed(file.to_string())
        }
    });
    assert_eq!(asked.len(), 5);
    assert_eq!(inputs.err().unwrap().message(), "Malformed proof3.json");
    let (_, inputs) = read(1, |file| {
        if file.starts_with("public") {
            Fetched::Malformed
        } else {
            Fetched::Parsed(file.to_string())
        }
    });
    assert_eq!(inputs.err().unwrap().message(), "Malformed public1.json");
    let (_, inputs) = read(1, |file| {
        if file.starts_with("public") {
            Fetched::Missing { path: "q".to_string() }
        } else {
            Fetched::Parsed(file.to_string())
        }
    });
    assert_eq!(inputs.err().unwrap().message(), "Failed to locate public1.json at q");
}

#[test]
fn fewer_inputs_are_the_first_of_more() {
    let good = |file: &str| Fetched::Parsed(file.to_string());
    let (proofs, signals) = read(2, good).1.ok().unwrap();
    let (more_proofs, more_signals) = read(5, good).1.ok().unwrap();
    assert_eq!(proofs, more_proofs[..2]);
    assert_eq!(signals, more_signals[..2]);
    let bad = |file: &str| match file {
        "public3.json" => Fetched::Malformed,
        _ => Fetched::Parsed(file.to_string()),
    };
    assert_eq!(read(2, bad).1.ok(), Some((proofs, signals)));
    assert_eq!(read(3, bad).1.err().unwrap().message(), "Malformed public3.json");
    assert_eq!(read(5, bad).1.err().unwrap().message(), "Malformed public3.json");
}

fn table() -> Vec<Vec<Fr>> {
    vec![vec![fr(1), fr(2)]]
}

fn prove(satisfied: bool, bytes: Option<Vec<u8>>, accepted: Option<bool>) -> Option<Vec<u8>> {
    let end = Proving::start(table())
        .step(ProvingEvent::Mocked { satisfied })
        .step(ProvingEvent::Created { bytes })
        .step(ProvingEvent::Verified { accepted });
    match end {
        Proving::Released { instances, bytes } => {
            assert_eq!(instances, table());
            Some(bytes)
        }
        Proving::Aborted => None,
        _ => panic!("the making is over"),
    }
}

#[test]
fn only_verified_proofs_are_given_out() {
    assert_eq!(prove(true, Some(vec![1, 2]), Some(true)), Some(vec![1, 2]));
    assert_eq!(prove(false, Some(vec![1, 2]), Some(true)), None);
    assert_eq!(prove(true, None, Some(true)), None);
    assert_eq!(prove(true, Some(vec![1, 2]), Some(false)), None);
    assert_eq!(prove(true, Some(vec![1, 2]), None), None);
    let skipped = Proving::start(table()).step(ProvingEvent::Verified { accepted: Some(true) });
    assert!(matches!(skipped, Proving::Aborted));
    let released = Proving::Released { instances: table(), bytes: vec![3] };
    let later = released.step(ProvingEvent::Mocked { satisfied: false });
    assert!(matches!(later, Proving::Released { bytes, .. } if bytes == vec![3]));
}

#[test]
fn every_step_of_the_making_gets_the_same_inputs() {
    let mut seen = Vec::new();
    let mut proving = Proving::start(table());
    let bytes = loop {
        let event = match &proving {
            Proving::Mock { instances } => {
                seen.push(instances.clone());
                ProvingEvent::Mocked { satisfied: true }
            }
            Proving::Create { instances } => {
                seen.push(instances.clone());
                ProvingEvent::Created { bytes: Some(vec![8]) }
            }
            Proving::Verify { instances, bytes } => {
                seen.push(instances.clone());
                ProvingEvent::Verified { accepted: Some(*bytes == vec![8]) }
            }
            Proving::Released { instances, bytes } => {
                seen.push(instances.clone());
                break bytes.clone();
            }
            Proving::Aborted => panic!("the proof is made"),
        };
        proving = proving.step(event);
    };
    assert_eq!(bytes, vec![8]);
    assert_eq!(seen, vec![table(); 4]);
}

#[test]
fn times_and_mock_runs_are_reported() {
    assert_eq!(printed(&[elapsed_line(61)]), vec![("Took 61 seconds", Style::Elapsed)]);
    assert!(MockResult::Satisfied.lines().is_empty());
    assert_eq!(
        printed(&MockResult::Failed.lines()),
        vec![("Mock prover failed", Style::Error)]
    );
    let unsatisfied = MockResult::Unsatisfied { errors: vec!["a".to_string(), "b".to_string()] };
    assert_eq!(
        printed(&unsatisfied.lines()),
        vec![
            ("Mock prover failed with errors:", Style::Error),
            ("a", Style::Error),
            ("b", Style::Error),
        ]
    );
}

fn trace(command: Command, fails: impl Fn(Stage) -> bool) -> (Vec<Stage>, Ending) {
    let mut stages = Vec::new();
    let mut next = Workflow::start(command);
    loop {
        match next {
            Next::Run(workflow) => {
                let stage = workflow.stage();
                stages.push(stage);
                next = workflow.finish_stage(!fails(stage));
            }
            Next::End(ending) => return (stages, ending),
        }
    }
}

#[test]
fn commands_take_their_steps() {
    let done = Ending::Exit { code: 0 };
    assert_eq!(
        trace(Command::MockSetup { k: 21 }, |_| false),
        (
            vec![
                Stage::MakeParams { degree: 1 },
                Stage::ReadKey,
                Stage::ReadInputs,
                Stage::BuildCircuit,
                Stage::MockProve { degree: 21 },
            ],
            done
        )
    );
    assert_eq!(
        trace(Command::GenEvmVerifier, |_| false),
        (
            vec![
                Stage::ReadParams,
                Stage::ReadKey,
                Stage::ReadInputs,
                Stage::BuildCircuit,
                Stage::MockProve { degree: 3 },
                Stage::GenerateVerifier,
                Stage::SaveVerifier,
            ],
            done
        )
    );
    assert_eq!(
        trace(Command::CreateProof, |_| false),
        (
            vec![
                Stage::ReadParams,
                Stage::ReadKey,
                Stage::ReadInputs,
                Stage::BuildCircuit,
                Stage::PrepareOutput,
                Stage::GenerateProof,
                Stage::SaveProof,
                Stage::SimulateEvm,
            ],
            done
        )
    );
    assert_eq!(trace(Command::CreateParams, |_| false), (vec![Stage::SaveParams], done));
    assert_eq!(trace(Command::Nothing, |_| false), (vec![], Ending::Exit { code: 1 }));
}

#[test]
fn the_first_decisive_failure_ends_a_command() {
    let exit = Ending::Exit { code: 1 };
    let (stages, ending) = trace(Command::CreateProof, |stage| stage == Stage::ReadParams);
    assert_eq!((stages.len(), ending), (1, exit));
    let (stages, ending) = trace(Command::CreateProof, |stage| stage == Stage::PrepareOutput);
    assert_eq!((stages.len(), ending), (5, exit));
    let (stages, ending) = trace(Command::GenEvmVerifier, |stage| stage == Stage::ReadInputs);
    assert_eq!((stages.len(), ending), (3, Ending::Abort));
    let (_, ending) = trace(Command::GenEvmVerifier, |stage| stage == Stage::SaveVerifier);
    assert_eq!(ending, exit);
    let (_, ending) = trace(Command::CreateParams, |_| true);
    assert_eq!(ending, exit);
}

#[test]
fn some_failures_do_not_end_a_command() {
    let lenient = |stage: Stage| stage.if_failed() == OnFailure::GoOn;
    let (stages, ending) = trace(Command::CreateProof, lenient);
    assert_eq!((stages.len(), ending), (8, Ending::Exit { code: 0 }));
    let (stages, ending) = trace(Command::GenEvmVerifier, lenient);
    assert_eq!((stages.len(), ending), (7, Ending::Exit { code: 0 }));
}

#[test]
fn steps_are_announced_and_closed() {
    let heading = |stage: Stage| stage.heading().map(|line| (line.text, line.style));
    assert_eq!(
        heading(Stage::ReadParams),
        Some(("Reading parameters for the circuit".to_string(), Style::Heading))
    );
    assert_eq!(
        heading(Stage::SaveParams),
        Some((
            "Warning! Please don't use generated Params in production.".to_string(),
            Style::Warning
        ))
    );
    assert_eq!(heading(Stage::SaveProof), None);
    assert!(Stage::GenerateVerifier.starts_clock() && !Stage::GenerateVerifier.reports_time());
    assert!(!Stage::SaveVerifier.starts_clock() && Stage::SaveVerifier.reports_time());
    let failure = Failure::Directory { path: "d".to_string() };
    let plain = Stage::PrepareOutput.failure_line(&failure);
    assert_eq!((plain.text.as_str(), plain.style), ("Failed to locate directory at d", Style::Plain));
    assert_eq!(Stage::SaveVerifier.failure_line(&failure).style, Style::Error);
}

#[test]
fn gaps_follow_the_command() {
    let gaps = |command: Command| {
        let mut gaps = Vec::new();
        let mut next = Workflow::start(command);
        while let Next::Run(workflow) = next {
            gaps.push(workflow.leaves_gap());
            next = workflow.finish_stage(true);
        }
        gaps
    };
    assert_eq!(gaps(Command::MockSetup { k: 1 }), vec![false, true, true, true, false]);
    assert_eq!(
        gaps(Command::GenEvmVerifier),
        vec![true, true, true, true, true, false, false]
    );
    assert_eq!(
        gaps(Command::CreateProof),
        vec![true, true, true, true, false, false, true, false]
    );
}
