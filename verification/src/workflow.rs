//! The commands of the tool: which steps they take, and how they end.

use vstd::prelude::*;

use crate::failure::Failure;
use crate::params::degree;
use crate::report::{line, Line, Style};

verus! {

/// A command of the tool.
#[derive(Clone, Copy, Debug, PartialEq, Eq, Structural)]
pub enum Command {
    /// Checks the circuit at degree `k` with the mock prover.
    MockSetup { k: usize },
    /// Makes the EVM verifier.
    GenEvmVerifier,
    /// Makes an aggregated proof.
    CreateProof,
    /// Makes parameters.
    CreateParams,
    /// No command was given.
    Nothing,
}

/// A step of a command.
#[derive(Clone, Copy, Debug, PartialEq, Eq, Structural)]
pub enum Stage {
    /// Make parameters of this degree to build the circuit with.
    MakeParams { degree: u32 },
    /// Read the parameters.
    ReadParams,
    /// Read the verification key.
    ReadKey,
    /// Read the proofs and the public signals.
    ReadInputs,
    /// Build the circuit.
    BuildCircuit,
    /// Run the mock prover at this degree.
    MockProve { degree: u32 },
    /// Make the EVM verifier.
    GenerateVerifier,
    /// Write the EVM verifier to its file.
    SaveVerifier,
    /// Make the files that the proof will be written to.
    PrepareOutput,
    /// Make the proof.
    GenerateProof,
    /// Write the proof to its files.
    SaveProof,
    /// Verify the proof in a simulated EVM.
    SimulateEvm,
    /// Make parameters and write them to their file.
    SaveParams,
}

/// How a command goes on after a step that failed.
#[derive(Clone, Copy, Debug, PartialEq, Eq, Structural)]
pub enum OnFailure {
    /// With the next step, as if the step had succeeded.
    GoOn,
    /// It ends with exit code 1.
    Exit,
    /// It panics.
    Abort,
}

/// How a command ends.
#[derive(Clone, Copy, Debug, PartialEq, Eq, Structural)]
pub enum Ending {
    /// With this exit code.
    Exit { code: i32 },
    /// With a panic.
    Abort,
}

impl Command {
    /// The steps of the command, in order.
    pub open spec fn stages(self) -> Seq<Stage> {
        match self {
            Command::MockSetup { k } => seq![
                Stage::MakeParams { degree: 1 },
                Stage::ReadKey,
                Stage::ReadInputs,
                Stage::BuildCircuit,
                Stage::MockProve { degree: (k as int % 0x1_0000_0000) as u32 },
            ],
            Command::GenEvmVerifier => seq![
                Stage::ReadParams,
                Stage::ReadKey,
                Stage::ReadInputs,
                Stage::BuildCircuit,
                Stage::MockProve { degree: 3 },
                Stage::GenerateVerifier,
                Stage::SaveVerifier,
            ],
            Command::CreateProof => seq![
                Stage::ReadParams,
                Stage::ReadKey,
                Stage::ReadInputs,
                Stage::BuildCircuit,
                Stage::PrepareOutput,
                Stage::GenerateProof,
                Stage::SaveProof,
                Stage::SimulateEvm,
            ],
            Command::CreateParams => seq![Stage::SaveParams],
            Command::Nothing => Seq::empty(),
        }
    }

    /// The steps of the command, in order.
    fn list_stages(self) -> (stages: Vec<Stage>)
        ensures
            stages@ == self.stages(),
    {
        let mut stages: Vec<Stage> = Vec::new();
        match self {
            Command::MockSetup { k } => {
                stages.push(Stage::MakeParams { degree: 1 });
                stages.push(Stage::ReadKey);
                stages.push(Stage::ReadInputs);
                stages.push(Stage::BuildCircuit);
                stages.push(Stage::MockProve { degree: degree(k) });
            },
            Command::GenEvmVerifier => {
                stages.push(Stage::ReadParams);
                stages.push(Stage::ReadKey);
                stages.push(Stage::ReadInputs);
                stages.push(Stage::BuildCircuit);
                stages.push(Stage::MockProve { degree: 3 });
                stages.push(Stage::GenerateVerifier);
                stages.push(Stage::SaveVerifier);
            },
            Command::CreateProof => {
                stages.push(Stage::ReadParams);
                stages.push(Stage::ReadKey);
                stages.push(Stage::ReadInputs);
                stages.push(Stage::BuildCircuit);
                stages.push(Stage::PrepareOutput);
                stages.push(Stage::GenerateProof);
                stages.push(Stage::SaveProof);
                stages.push(Stage::SimulateEvm);
            },
            Command::CreateParams => {
                stages.push(Stage::SaveParams);
            },
            Command::Nothing => {},
        }
        assert(stages@ =~= self.stages());
        stages
    }
}

impl Stage {
    /// How a command goes on if the step fails.
    pub open spec fn on_failure(self) -> OnFailure {
        match self {
            Stage::ReadParams
            | Stage::SaveVerifier
            | Stage::PrepareOutput
            | Stage::SaveParams => OnFailure::Exit,
            Stage::MockProve { .. } | Stage::SaveProof | Stage::SimulateEvm => OnFailure::GoOn,
            _ => OnFailure::Abort,
        }
    }

    /// How a command goes on if the step fails.
    pub fn if_failed(self) -> (reaction: OnFailure)
        ensures
            reaction == self.on_failure(),
    {
        match self {
            Stage::ReadParams
            | Stage::SaveVerifier
            | Stage::PrepareOutput
            | Stage::SaveParams => OnFailure::Exit,
            Stage::MockProve { .. } | Stage::SaveProof | Stage::SimulateEvm => OnFailure::GoOn,
            _ => OnFailure::Abort,
        }
    }

    /// The line that announces the step, if there is one.
    pub open spec fn announcement(self) -> Option<(Seq<char>, Style)> {
        match self {
            Stage::ReadParams => Some(("Reading parameters for the circuit"@, Style::Heading)),
            Stage::ReadKey => Some(("Reading circom-plonk verification key"@, Style::Heading)),
            Stage::ReadInputs => Some(
                ("Reading circom-plonk proofs and public signals"@, Style::Heading),
            ),
            Stage::BuildCircuit => Some(("Building aggregation circuit"@, Style::Heading)),
            Stage::MockProve { .. } => Some(
                ("Running mock prover for aggregation circuit"@, Style::Heading),
            ),
            Stage::GenerateVerifier => Some(("Generating evm verifier"@, Style::Heading)),
            Stage::GenerateProof => Some(("Generating proof"@, Style::Heading)),
            Stage::SimulateEvm => Some(("Simulating evm verification"@, Style::Heading)),
            Stage::SaveParams => Some(
                ("Warning! Please don't use generated Params in production."@, Style::Warning),
            ),
            _ => None,
        }
    }

    /// The line that announces the step, if there is one.
    pub fn heading(self) -> (heading: Option<Line>)
        ensures
            match heading {
                Some(heading) => self.announcement() == Some(heading@),
                None => self.announcement() is None,
            },
    {
        match self {
            Stage::ReadParams => Some(line("Reading parameters for the circuit", Style::Heading)),
            Stage::ReadKey => Some(line("Reading circom-plonk verification key", Style::Heading)),
            Stage::ReadInputs => Some(
                line("Reading circom-plonk proofs and public signals", Style::Heading),
            ),
            Stage::BuildCircuit => Some(line("Building aggregation circuit", Style::Heading)),
            Stage::MockProve { .. } => Some(
                line("Running mock prover for aggregation circuit", Style::Heading),
            ),
            Stage::GenerateVerifier => Some(line("Generating evm verifier", Style::Heading)),
            Stage::GenerateProof => Some(line("Generating proof", Style::Heading)),
            Stage::SimulateEvm => Some(line("Simulating evm verification", Style::Heading)),
            Stage::SaveParams => Some(
                line("Warning! Please don't use generated Params in production.", Style::Warning),
            ),
            _ => None,
        }
    }

    /// Whether the clock is set to zero before the step.
    pub fn starts_clock(self) -> (starts: bool)
        ensures
            starts == (self is ReadParams || self is MockProve || self is GenerateVerifier
                || self is GenerateProof),
    {
        match self {
            Stage::ReadParams
            | Stage::MockProve { .. }
            | Stage::GenerateVerifier
            | Stage::GenerateProof => true,
            _ => false,
        }
    }

    /// Whether the time is printed after the step, where the command goes on or
    /// ends well.
    pub fn reports_time(self) -> (reports: bool)
        ensures
            reports == (self is ReadParams || self is MockProve || self is SaveVerifier
                || self is GenerateProof),
    {
        match self {
            Stage::ReadParams
            | Stage::MockProve { .. }
            | Stage::SaveVerifier
            | Stage::GenerateProof => true,
            _ => false,
        }
    }

    /// The line to print of a failure of the step.
    pub fn failure_line(self, failure: &Failure) -> (line: Line)
        ensures
            line@ == (
                failure.text(),
                if self is PrepareOutput {
                    Style::Plain
                } else {
                    Style::Error
                },
            ),
    {
        let style = match self {
            Stage::PrepareOutput => Style::Plain,
            _ => Style::Error,
        };
        Line { text: failure.message(), style }
    }
}

/// A command under way: its steps, and the one it is at.
pub struct Workflow {
    command: Command,
    stages: Vec<Stage>,
    position: usize,
}

/// What a command does next.
pub enum Next {
    /// The step that the workflow is at.
    Run(Workflow),
    /// Nothing: it is over.
    End(Ending),
}

/// What a command does next, by the step it is at.
pub enum Progress {
    /// The step at this position.
    At { position: nat },
    /// Nothing: it is over.
    Over { ending: Ending },
}

/// What `command` does after the step at `position`.
pub open spec fn progress_after(command: Command, position: nat, succeeded: bool) -> Progress {
    let reaction = command.stages()[position as int].on_failure();
    if !succeeded && reaction == OnFailure::Exit {
        Progress::Over { ending: Ending::Exit { code: 1 } }
    } else if !succeeded && reaction == OnFailure::Abort {
        Progress::Over { ending: Ending::Abort }
    } else if position + 1 < command.stages().len() {
        Progress::At { position: position + 1 }
    } else {
        Progress::Over { ending: Ending::Exit { code: 0 } }
    }
}

/// What `command` does first.
pub open spec fn first_progress(command: Command) -> Progress {
    if command == Command::Nothing {
        Progress::Over { ending: Ending::Exit { code: 1 } }
    } else {
        Progress::At { position: 0 }
    }
}

impl Next {
    /// The next step of `command` is this one.
    pub open spec fn is_progress(self, command: Command, progress: Progress) -> bool {
        match (self, progress) {
            (Next::Run(workflow), Progress::At { position }) => {
                &&& workflow.spec_command() == command
                &&& workflow.spec_position() == position
                &&& workflow.well_formed()
            },
            (Next::End(ending), Progress::Over { ending: expected }) => ending == expected,
            _ => false,
        }
    }
}

impl Workflow {
    /// The workflow is at a step of its command.
    #[verifier::type_invariant]
    pub closed spec fn well_formed(self) -> bool {
        &&& self.stages@ == self.command.stages()
        &&& self.position < self.stages@.len()
    }

    /// The command.
    pub closed spec fn spec_command(self) -> Command {
        self.command
    }

    /// Which step the command is at.
    pub closed spec fn spec_position(self) -> nat {
        self.position as nat
    }

    /// Starts `command`.
    pub fn start(command: Command) -> (next: Next)
        ensures
            next.is_progress(command, first_progress(command)),
            command is Nothing ==> next == Next::End((Ending::Exit { code: 1 })),
            !(command is Nothing) ==> {
                &&& next is Run
                &&& next->Run_0.spec_command() == command
                &&& next->Run_0.spec_position() == 0
            },
    {
        let stages = command.list_stages();
        if stages.len() == 0 {
            Next::End(Ending::Exit { code: 1 })
        } else {
            Next::Run(Workflow { command, stages, position: 0 })
        }
    }

    /// The step that the command is at.
    pub fn stage(&self) -> (stage: Stage)
        ensures
            self.spec_position() < self.spec_command().stages().len(),
            stage == self.spec_command().stages()[self.spec_position() as int],
    {
        proof {
            use_type_invariant(self);
        }
        self.stages[self.position]
    }

    /// Whether an empty line is printed after the step, where the command goes on
    /// or ends well.
    pub fn leaves_gap(&self) -> (gap: bool)
        ensures
            gap == ({
                let stage = self.spec_command().stages()[self.spec_position() as int];
                ||| stage is ReadParams
                ||| stage is ReadKey
                ||| stage is ReadInputs
                ||| stage is BuildCircuit
                ||| stage is SaveProof
                ||| stage is MockProve && self.spec_command() is GenEvmVerifier
            }),
    {
        match self.stage() {
            Stage::ReadParams
            | Stage::ReadKey
            | Stage::ReadInputs
            | Stage::BuildCircuit
            | Stage::SaveProof => true,
            Stage::MockProve { .. } => self.command == Command::GenEvmVerifier,
            _ => false,
        }
    }

    /// Goes on after the step, which succeeded or failed.
    pub fn finish_stage(self, succeeded: bool) -> (next: Next)
        ensures
            next.is_progress(
                self.spec_command(),
                progress_after(self.spec_command(), self.spec_position(), succeeded),
            ),
            next matches Next::Run(workflow) ==> {
                &&& workflow.spec_command() == self.spec_command()
                &&& workflow.spec_position() == self.spec_position() + 1
                &&& workflow.spec_position() < self.spec_command().stages().len()
            },
            succeeded ==> (next is Run <==> self.spec_position() + 1
                < self.spec_command().stages().len()),
            succeeded && next is End ==> next->End_0 == (Ending::Exit { code: 0 }),
            !succeeded ==> match self.spec_command().stages()[self.spec_position() as int]
                .on_failure() {
                OnFailure::Exit => next == Next::End((Ending::Exit { code: 1 })),
                OnFailure::Abort => next == Next::End(Ending::Abort),
                OnFailure::GoOn => {
                    &&& next is Run <==> self.spec_position() + 1
                        < self.spec_command().stages().len()
                    &&& next is End ==> next->End_0 == (Ending::Exit { code: 0 })
                },
            },
    {
        proof {
            use_type_invariant(&self);
        }
        let reaction = self.stage().if_failed();
        if !succeeded && reaction == OnFailure::Exit {
            Next::End(Ending::Exit { code: 1 })
        } else if !succeeded && reaction == OnFailure::Abort {
            Next::End(Ending::Abort)
        } else if self.position + 1 < self.stages.len() {
            let Workflow { command, stages, position } = self;
            Next::Run(Workflow { command, stages, position: position + 1 })
        } else {
            Next::End(Ending::Exit { code: 0 })
        }
    }
}

/// How `command` ends from `progress` on, where `outcomes` says which of its steps
/// succeed.
pub open spec fn ending(command: Command, progress: Progress, outcomes: Seq<bool>) -> Ending
    decreases
            command.stages().len() - (match progress {
                Progress::At { position } => position as int,
                Progress::Over { .. } => command.stages().len() as int,
            }),
    when match progress {
        Progress::At { position } => position < command.stages().len(),
        Progress::Over { .. } => true,
    }
{
    match progress {
        Progress::At { position } => ending(
            command,
            progress_after(command, position, outcomes[position as int]),
            outcomes,
        ),
        Progress::Over { ending } => ending,
    }
}

/// A step stops its command: it failed, and the command does not go on without it.
pub open spec fn stops(command: Command, outcomes: Seq<bool>, position: int) -> bool {
    !outcomes[position] && command.stages()[position].on_failure() != OnFailure::GoOn
}

/// A command that is not stopped before `position` comes there.
proof fn ending_from(command: Command, outcomes: Seq<bool>, position: nat)
    requires
        position < command.stages().len(),
        forall|i: int| 0 <= i < position ==> !#[trigger] stops(command, outcomes, i),
    ensures
        ending(command, first_progress(command), outcomes) == ending(
            command,
            Progress::At { position },
            outcomes,
        ),
    decreases position,
{
    if position > 0 {
        let before = (position - 1) as nat;
        ending_from(command, outcomes, before);
        assert(!stops(command, outcomes, before as int));
    }
}

/// A command whose steps all go well, or fail only where it goes on all the same,
/// ends with exit code 0.
pub proof fn command_succeeds(command: Command, outcomes: Seq<bool>)
    requires
        command != Command::Nothing,
        forall|i: int| 0 <= i < command.stages().len() ==> !#[trigger] stops(command, outcomes, i),
    ensures
        ending(command, first_progress(command), outcomes) == (Ending::Exit { code: 0 }),
{
    let last = (command.stages().len() - 1) as nat;
    reveal_with_fuel(ending, 2);
    ending_from(command, outcomes, last);
    assert(!stops(command, outcomes, last as int));
}

/// The first step that stops a command decides how it ends.
pub proof fn command_stops(command: Command, outcomes: Seq<bool>, position: nat)
    requires
        position < command.stages().len(),
        stops(command, outcomes, position as int),
        forall|i: int| 0 <= i < position ==> !#[trigger] stops(command, outcomes, i),
    ensures
        ending(command, first_progress(command), outcomes) == if command.stages()[position as int]
            .on_failure() == OnFailure::Exit {
            Ending::Exit { code: 1 }
        } else {
            Ending::Abort
        },
{
    reveal_with_fuel(ending, 2);
    ending_from(command, outcomes, position);
}

/// The mock prover is the last step of a mock setup and the only one that runs it, at
/// the degree that the command was given, up to the 32 bits that a degree has.
pub proof fn mock_setup_runs_at_its_degree(k: usize)
    ensures
        ({
            let stages = (Command::MockSetup { k }).stages();
            &&& stages.len() > 0
            &&& forall|i: int|
                0 <= i < stages.len() ==> ((#[trigger] stages[i]) is MockProve <==> i
                    == stages.len() - 1)
            &&& stages.last()->MockProve_degree as int == k as int % 0x1_0000_0000
            &&& k < 0x1_0000_0000 ==> stages.last()->MockProve_degree == k
        }),
{
}

/// Mock setups at different degrees run at different degrees.
pub proof fn mock_setups_differ(j: usize, k: usize)
    requires
        j < 0x1_0000_0000,
        k < 0x1_0000_0000,
        (Command::MockSetup { k: j }).stages().last() == (Command::MockSetup { k }).stages().last(),
    ensures
        j == k,
{
    mock_setup_runs_at_its_degree(j);
    mock_setup_runs_at_its_degree(k);
}

/// Each step has what it works on from the one right before it: the circuit is built
/// from parameters, the key and the inputs, in this order; the mock prover runs on a
/// circuit just built; what is written was just made; and the proof is made only when
/// there is a place for it.
pub proof fn steps_build_on_each_other(command: Command, i: int)
    requires
        0 <= i < command.stages().len(),
    ensures
        ({
            let stages = command.stages();
            &&& stages[i] is MakeParams || stages[i] is ReadParams || stages[i] is SaveParams
                <==> i == 0
            &&& stages[i] is ReadKey <==> i == 1
            &&& stages[i] is ReadInputs <==> i == 2
            &&& stages[i] is BuildCircuit <==> i == 3
            &&& stages[i] is MockProve ==> stages[i - 1] is BuildCircuit
            &&& stages[i] is GenerateVerifier ==> stages[i - 1] is MockProve
            &&& stages[i] is SaveVerifier ==> stages[i - 1] is GenerateVerifier
            &&& stages[i] is PrepareOutput ==> stages[i - 1] is BuildCircuit
            &&& stages[i] is GenerateProof ==> stages[i - 1] is PrepareOutput
            &&& stages[i] is SaveProof ==> stages[i - 1] is GenerateProof
            &&& stages[i] is SimulateEvm ==> stages[i - 1] is SaveProof
        }),
{
}

/// A command begins with parameters and ends with what it is for.
pub proof fn commands_end_with_their_purpose(command: Command)
    ensures
        ({
            let stages = command.stages();
            &&& stages.len() == 0 <==> command is Nothing
            &&& command is MockSetup ==> stages[0] == (Stage::MakeParams { degree: 1 })
            &&& command is MockSetup ==> stages.last() is MockProve
            &&& command is GenEvmVerifier ==> stages[0] is ReadParams
            &&& command is GenEvmVerifier ==> stages.last() is SaveVerifier
            &&& command is GenEvmVerifier ==> stages.contains((Stage::MockProve { degree: 3 }))
            &&& command is CreateProof ==> stages[0] is ReadParams
            &&& command is CreateProof ==> stages.last() is SimulateEvm
            &&& command is CreateParams ==> stages == seq![Stage::SaveParams]
        }),
{
    if command is GenEvmVerifier {
        assert(command.stages()[4] == (Stage::MockProve { degree: 3 }));
    }
}

/// A command ends with exit code 1 if its parameters cannot be read or what it is for
/// cannot be written, goes on if the mock prover, the saving of a proof or the
/// simulation fails, and panics if anything else does.
pub proof fn failures_are_told_apart(stage: Stage)
    ensures
        stage.on_failure() == OnFailure::Exit <==> stage is ReadParams || stage is SaveVerifier
            || stage is PrepareOutput || stage is SaveParams,
        stage.on_failure() == OnFailure::GoOn <==> stage is MockProve || stage is SaveProof
            || stage is SimulateEvm,
{
}

/// After a step that was done a command goes on with the next, or ends well if it was
/// the last. After one that failed it does the same where it goes on all the same, and
/// otherwise ends with exit code 1 or a panic.
pub proof fn next_stage_follows(command: Command, position: nat, succeeded: bool)
    requires
        position < command.stages().len(),
    ensures
        ({
            let stage = command.stages()[position as int];
            let next = progress_after(command, position, succeeded);
            let goes_on = succeeded || stage is MockProve || stage is SaveProof
                || stage is SimulateEvm;
            &&& next is At <==> goes_on && position + 1 < command.stages().len()
            &&& next is At ==> next->position == position + 1
            &&& next is Over && goes_on ==> next->ending == (Ending::Exit { code: 0 })
            &&& !goes_on ==> next->ending != (Ending::Exit { code: 0 })
            &&& next is Over && next->ending == (Ending::Exit { code: 1 }) <==> !succeeded && (
            stage is ReadParams || stage is SaveVerifier || stage is PrepareOutput
                || stage is SaveParams)
        }),
        first_progress(command) == (Progress::At { position: 0 }) <==> !(command is Nothing),
        first_progress(Command::Nothing) == (Progress::Over {
            ending: Ending::Exit { code: 1 },
        }),
{
}

/// A step is announced by what it does, whatever its degree, and those that only
/// prepare or finish another are not.
pub proof fn steps_are_announced(degree: u32)
    ensures
        Stage::ReadParams.announcement() == Some(
            ("Reading parameters for the circuit"@, Style::Heading),
        ),
        Stage::ReadKey.announcement() == Some(
            ("Reading circom-plonk verification key"@, Style::Heading),
        ),
        Stage::ReadInputs.announcement() == Some(
            ("Reading circom-plonk proofs and public signals"@, Style::Heading),
        ),
        Stage::BuildCircuit.announcement() == Some(
            ("Building aggregation circuit"@, Style::Heading),
        ),
        (Stage::MockProve { degree }).announcement() == Some(
            ("Running mock prover for aggregation circuit"@, Style::Heading),
        ),
        Stage::GenerateVerifier.announcement() == Some(
            ("Generating evm verifier"@, Style::Heading),
        ),
        Stage::GenerateProof.announcement() == Some(("Generating proof"@, Style::Heading)),
        Stage::SimulateEvm.announcement() == Some(
            ("Simulating evm verification"@, Style::Heading),
        ),
        Stage::SaveParams.announcement() == Some(
            ("Warning! Please don't use generated Params in production."@, Style::Warning),
        ),
        (Stage::MakeParams { degree }).announcement() is None,
        Stage::SaveVerifier.announcement() is None,
        Stage::PrepareOutput.announcement() is None,
        Stage::SaveProof.announcement() is None,
{
}

} // verus!
