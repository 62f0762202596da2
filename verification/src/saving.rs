//! Writing the outputs of the tool: in which order, under which names, and what is
//! said if it fails.

use vstd::prelude::*;

use crate::failure::Failure;
use crate::files::{
    proof_file_names_distinct, srs_file, srs_name, srs_names_distinct, verifier_file, ProofFile,
};
use crate::inputs::Fetched;
use crate::params::{degree, format_by, prepared, saved_params_format, SrsFormat};
use crate::paths::extension;
use crate::report::{Line, Style};

verus! {

/// What is to be written.
#[derive(Clone, Copy, Debug, PartialEq, Eq, Structural)]
pub enum Target {
    /// Parameters that are made for the purpose.
    Params { k: usize },
    /// The bytecode of the EVM verifier.
    Verifier,
    /// The files of an aggregated proof, still empty.
    ProofFiles,
    /// One file of an aggregated proof.
    ProofOutput { file: ProofFile },
}

/// A step of the writing.
pub enum SaveStep {
    /// Make the directory and what leads to it.
    MakeDirectory,
    /// Make parameters of this degree.
    Generate { degree: u32 },
    /// Make the file of this name, empty.
    Create { name: String },
    /// Open the file of this name, which is there already, for writing, and empty
    /// it.
    Open { name: String },
    /// Write the contents to the file at hand.
    Write,
}

/// A step of the writing, by the text of its name.
pub enum SaveStepView {
    MakeDirectory,
    Generate { degree: u32 },
    Create { name: Seq<char> },
    Open { name: Seq<char> },
    Write,
}

impl View for SaveStep {
    type V = SaveStepView;

    open spec fn view(&self) -> SaveStepView {
        match *self {
            SaveStep::MakeDirectory => SaveStepView::MakeDirectory,
            SaveStep::Generate { degree } => SaveStepView::Generate { degree },
            SaveStep::Create { name } => SaveStepView::Create { name: name@ },
            SaveStep::Open { name } => SaveStepView::Open { name: name@ },
            SaveStep::Write => SaveStepView::Write,
        }
    }
}

/// What a failure of a step is told with.
#[derive(Clone, Copy, Debug, PartialEq, Eq, Structural)]
pub enum Detail {
    /// The path that the step is about.
    Path,
    /// What the system says of the failure.
    Message,
}

/// Steps by their views.
pub open spec fn step_views(steps: Seq<SaveStep>) -> Seq<SaveStepView> {
    steps.map_values(|step: SaveStep| step@)
}

impl Target {
    /// The steps of the writing, in order.
    pub open spec fn spec_steps(self) -> Seq<SaveStepView> {
        match self {
            Target::Params { k } => seq![
                SaveStepView::MakeDirectory,
                SaveStepView::Generate { degree: (k as int % 0x1_0000_0000) as u32 },
                SaveStepView::Create { name: srs_name(k as nat) },
                SaveStepView::Write,
            ],
            Target::Verifier => seq![
                SaveStepView::MakeDirectory,
                SaveStepView::Create { name: "evm-verifier.bin"@ },
                SaveStepView::Write,
            ],
            Target::ProofFiles => seq![
                SaveStepView::MakeDirectory,
                SaveStepView::Create { name: ProofFile::Proof.spec_name() },
                SaveStepView::Create { name: ProofFile::Instances.spec_name() },
                SaveStepView::Create { name: ProofFile::Calldata.spec_name() },
            ],
            Target::ProofOutput { file } => seq![
                SaveStepView::Open { name: file.spec_name() },
                SaveStepView::Write,
            ],
        }
    }

    /// The steps of the writing, in order.
    pub fn steps(&self) -> (steps: Vec<SaveStep>)
        ensures
            step_views(steps@) == self.spec_steps(),
    {
        let mut steps: Vec<SaveStep> = Vec::new();
        match *self {
            Target::Params { k } => {
                steps.push(SaveStep::MakeDirectory);
                steps.push(SaveStep::Generate { degree: degree(k) });
                steps.push(SaveStep::Create { name: srs_file(k as u64) });
                steps.push(SaveStep::Write);
            },
            Target::Verifier => {
                steps.push(SaveStep::MakeDirectory);
                steps.push(SaveStep::Create { name: verifier_file() });
                steps.push(SaveStep::Write);
            },
            Target::ProofFiles => {
                steps.push(SaveStep::MakeDirectory);
                steps.push(SaveStep::Create { name: ProofFile::Proof.name() });
                steps.push(SaveStep::Create { name: ProofFile::Instances.name() });
                steps.push(SaveStep::Create { name: ProofFile::Calldata.name() });
            },
            Target::ProofOutput { file } => {
                steps.push(SaveStep::Open { name: file.name() });
                steps.push(SaveStep::Write);
            },
        }
        assert(step_views(steps@) =~= self.spec_steps());
        steps
    }

    /// What a failure of a step is told with.
    pub open spec fn told_with(self, step: SaveStepView) -> Detail {
        match (step, self) {
            (SaveStepView::Generate { .. }, _) => Detail::Message,
            (SaveStepView::Write, Target::Params { .. } | Target::ProofFiles) => Detail::Message,
            _ => Detail::Path,
        }
    }

    /// What a failure of a step is, where `detail` is what it is told with.
    pub open spec fn step_failure(self, step: SaveStepView, detail: String) -> Failure {
        match (step, self) {
            (SaveStepView::MakeDirectory, _) => Failure::Directory { path: detail },
            (SaveStepView::Create { .. }, _) => Failure::CreateFile { path: detail },
            (SaveStepView::Open { .. }, _) => Failure::OpenFile { path: detail },
            (SaveStepView::Write, Target::Verifier) => Failure::WriteVerifier { path: detail },
            (SaveStepView::Write, Target::ProofOutput { .. }) => Failure::WriteFile {
                path: detail,
            },
            _ => Failure::Outside { message: detail },
        }
    }

    /// What a failure of a step is told with.
    pub fn detail(&self, step: &SaveStep) -> (detail: Detail)
        ensures
            detail == self.told_with(step@),
    {
        match step {
            SaveStep::Generate { .. } => Detail::Message,
            SaveStep::Write => match *self {
                Target::Params { .. } | Target::ProofFiles => Detail::Message,
                _ => Detail::Path,
            },
            _ => Detail::Path,
        }
    }

    /// What a failure of a step is, where `detail` is what it is told with.
    pub fn failure(&self, step: &SaveStep, detail: String) -> (failure: Failure)
        ensures
            failure == self.step_failure(step@, detail),
    {
        match step {
            SaveStep::MakeDirectory => Failure::Directory { path: detail },
            SaveStep::Create { .. } => Failure::CreateFile { path: detail },
            SaveStep::Open { .. } => Failure::OpenFile { path: detail },
            SaveStep::Write => match *self {
                Target::Verifier => Failure::WriteVerifier { path: detail },
                Target::ProofOutput { .. } => Failure::WriteFile { path: detail },
                _ => Failure::Outside { message: detail },
            },
            SaveStep::Generate { .. } => Failure::Outside { message: detail },
        }
    }
}

/// A writing under way: what is written, its steps, and the one it is at.
pub struct Saving {
    target: Target,
    steps: Vec<SaveStep>,
    position: usize,
}

/// How a writing goes on.
pub enum SaveNext {
    /// With the step that the writing is at.
    Run(Saving),
    /// Not at all: everything is written, or a step failed.
    End(Result<(), Failure>),
}

/// How a writing goes on, by the step it is at.
pub enum SaveProgress {
    /// With the step at this position.
    At { position: nat },
    /// Not at all: everything is written, or a step failed.
    Over { result: Result<(), Failure> },
}

/// How the writing of `target` goes on after the step at `position`, which was done
/// or failed, told with its detail.
pub open spec fn saving_after(
    target: Target,
    position: nat,
    outcome: Result<(), String>,
) -> SaveProgress {
    match outcome {
        Err(detail) => SaveProgress::Over {
            result: Err(target.step_failure(target.spec_steps()[position as int], detail)),
        },
        Ok(()) => if position + 1 < target.spec_steps().len() {
            SaveProgress::At { position: position + 1 }
        } else {
            SaveProgress::Over { result: Ok(()) }
        },
    }
}

impl SaveNext {
    /// The writing of `target` goes on like this.
    pub open spec fn is_progress(self, target: Target, progress: SaveProgress) -> bool {
        match (self, progress) {
            (SaveNext::Run(saving), SaveProgress::At { position }) => {
                &&& saving.spec_target() == target
                &&& saving.spec_position() == position
                &&& saving.well_formed()
            },
            (SaveNext::End(result), SaveProgress::Over { result: expected }) => result == expected,
            _ => false,
        }
    }
}

impl Saving {
    /// The writing is at a step of its target.
    #[verifier::type_invariant]
    pub closed spec fn well_formed(self) -> bool {
        &&& step_views(self.steps@) == self.target.spec_steps()
        &&& self.position < self.steps@.len()
    }

    /// What is written.
    pub closed spec fn spec_target(self) -> Target {
        self.target
    }

    /// Which step the writing is at.
    pub closed spec fn spec_position(self) -> nat {
        self.position as nat
    }

    /// Starts to write `target`.
    pub fn start(target: Target) -> (saving: Saving)
        ensures
            saving.spec_target() == target,
            saving.spec_position() == 0,
            saving.well_formed(),
    {
        let steps = target.steps();
        assert(steps@.len() == target.spec_steps().len());
        Saving { target, steps, position: 0 }
    }

    /// The step that the writing is at.
    pub fn step(&self) -> (step: &SaveStep)
        ensures
            self.spec_position() < self.spec_target().spec_steps().len(),
            step@ == self.spec_target().spec_steps()[self.spec_position() as int],
    {
        proof {
            use_type_invariant(self);
            assert(step_views(self.steps@)[self.position as int] == self.steps@[self.position
                as int]@);
        }
        &self.steps[self.position]
    }

    /// What a failure of the step is told with.
    pub fn detail(&self) -> (detail: Detail)
        ensures
            detail == self.spec_target().told_with(
                self.spec_target().spec_steps()[self.spec_position() as int],
            ),
    {
        self.target.detail(self.step())
    }

    /// Goes on after the step, which was done or failed, told with its detail.
    pub fn finish_step(self, outcome: Result<(), String>) -> (next: SaveNext)
        ensures
            next.is_progress(
                self.spec_target(),
                saving_after(self.spec_target(), self.spec_position(), outcome),
            ),
            outcome matches Err(detail) ==> next == SaveNext::End(
                Err(
                    self.spec_target().step_failure(
                        self.spec_target().spec_steps()[self.spec_position() as int],
                        detail,
                    ),
                ),
            ),
            outcome is Ok && self.spec_position() + 1 < self.spec_target().spec_steps().len() ==> {
                &&& next is Run
                &&& next->Run_0.spec_target() == self.spec_target()
                &&& next->Run_0.spec_position() == self.spec_position() + 1
            },
            outcome is Ok && self.spec_position() + 1 >= self.spec_target().spec_steps().len() ==> {
                &&& next is End
                &&& next->End_0 is Ok
            },
    {
        proof {
            use_type_invariant(&self);
            assert(self.steps@.len() == self.target.spec_steps().len());
        }
        match outcome {
            Err(detail) => SaveNext::End(Err(self.target.failure(self.step(), detail))),
            Ok(()) => if self.position + 1 < self.steps.len() {
                let Saving { target, steps, position } = self;
                SaveNext::Run(Saving { target, steps, position: position + 1 })
            } else {
                SaveNext::End(Ok(()))
            },
        }
    }
}

/// What came of a writing: the steps that were tried, in order, and the result.
pub struct SaveRun {
    pub tried: Seq<SaveStepView>,
    pub result: Result<(), Failure>,
}

/// What comes of writing `target` from the step at `position` on, where `outcomes`
/// says which of its steps are done.
pub open spec fn save_run(
    target: Target,
    position: nat,
    outcomes: Seq<Result<(), String>>,
) -> SaveRun
    decreases target.spec_steps().len() - position,
    when position < target.spec_steps().len()
{
    let step = target.spec_steps()[position as int];
    match saving_after(target, position, outcomes[position as int]) {
        SaveProgress::At { position: next } => {
            let rest = save_run(target, next, outcomes);
            SaveRun { tried: seq![step] + rest.tried, result: rest.result }
        },
        SaveProgress::Over { result } => SaveRun { tried: seq![step], result },
    }
}

/// The steps from `position` up to `at` are done.
pub open spec fn done_until(outcomes: Seq<Result<(), String>>, position: nat, at: nat) -> bool {
    forall|i: int| position <= i < at ==> #[trigger] outcomes[i] is Ok
}

/// A writing whose first failing step is the one at `at`, from `position` on.
proof fn stops_from(
    target: Target,
    position: nat,
    at: nat,
    outcomes: Seq<Result<(), String>>,
    detail: String,
)
    requires
        position <= at < target.spec_steps().len(),
        done_until(outcomes, position, at),
        outcomes[at as int] == Err::<(), _>(detail),
    ensures
        save_run(target, position, outcomes).tried == target.spec_steps().subrange(
            position as int,
            at as int + 1,
        ),
        save_run(target, position, outcomes).result == Err::<(), _>(
            target.step_failure(target.spec_steps()[at as int], detail),
        ),
    decreases at - position,
{
    let steps = target.spec_steps();
    if position < at {
        assert(outcomes[position as int] is Ok);
        stops_from(target, position + 1, at, outcomes, detail);
        assert(steps.subrange(position as int, at as int + 1) =~= seq![steps[position as int]]
            + steps.subrange(position as int + 1, at as int + 1));
    } else {
        assert(steps.subrange(position as int, at as int + 1) =~= seq![steps[at as int]]);
    }
}

/// A writing whose steps are all done, from `position` on.
proof fn succeeds_from(target: Target, position: nat, outcomes: Seq<Result<(), String>>)
    requires
        position < target.spec_steps().len(),
        done_until(outcomes, position, target.spec_steps().len()),
    ensures
        save_run(target, position, outcomes).tried == target.spec_steps().skip(position as int),
        save_run(target, position, outcomes).result == Ok::<_, Failure>(()),
    decreases target.spec_steps().len() - position,
{
    let steps = target.spec_steps();
    assert(outcomes[position as int] is Ok);
    assert(steps.skip(position as int) =~= seq![steps[position as int]] + steps.skip(position as int + 1));
    if position + 1 < steps.len() {
        succeeds_from(target, position + 1, outcomes);
    } else {
        assert(steps.skip(position as int + 1) =~= Seq::<SaveStepView>::empty());
        assert(steps.skip(position as int) =~= seq![steps[position as int]]);
    }
}

/// The first step of a writing that fails, or the number of its steps.
proof fn first_failure(outcomes: Seq<Result<(), String>>, count: nat) -> (at: nat)
    ensures
        at <= count,
        done_until(outcomes, 0, at),
        at < count ==> outcomes[at as int] is Err,
    decreases count,
{
    if count == 0 {
        0
    } else {
        let before = first_failure(outcomes, (count - 1) as nat);
        if before < count - 1 || outcomes[before as int] is Err {
            before
        } else {
            count
        }
    }
}

/// A writing succeeds if every step is done, and then all of them were tried.
pub proof fn saving_succeeds(target: Target, outcomes: Seq<Result<(), String>>)
    requires
        done_until(outcomes, 0, target.spec_steps().len()),
    ensures
        save_run(target, 0, outcomes).tried == target.spec_steps(),
        save_run(target, 0, outcomes).result is Ok,
{
    succeeds_from(target, 0, outcomes);
    assert(target.spec_steps().skip(0) =~= target.spec_steps());
}

/// The first step of a writing that fails ends it: no later step is tried, and the
/// result is the failure of that step.
pub proof fn saving_stops(
    target: Target,
    at: nat,
    outcomes: Seq<Result<(), String>>,
    detail: String,
)
    requires
        at < target.spec_steps().len(),
        done_until(outcomes, 0, at),
        outcomes[at as int] == Err::<(), _>(detail),
    ensures
        save_run(target, 0, outcomes).tried == target.spec_steps().take(at as int + 1),
        save_run(target, 0, outcomes).result == Err::<(), _>(
            target.step_failure(target.spec_steps()[at as int], detail),
        ),
{
    stops_from(target, 0, at, outcomes, detail);
}

/// A writing that succeeds did every step: none that failed, whether it made a
/// directory, made or opened a file, or wrote to it, is ever passed over.
pub proof fn success_means_written(target: Target, outcomes: Seq<Result<(), String>>)
    ensures
        save_run(target, 0, outcomes).result is Ok <==> done_until(
            outcomes,
            0,
            target.spec_steps().len(),
        ),
{
    let count = target.spec_steps().len();
    let at = first_failure(outcomes, count);
    if at < count {
        saving_stops(target, at, outcomes, outcomes[at as int]->Err_0);
        assert(!done_until(outcomes, 0, count));
    } else {
        saving_succeeds(target, outcomes);
    }
}

/// If the directory cannot be made, no file is made, opened or written, and the
/// result says so.
pub proof fn failed_directory_makes_no_file(
    target: Target,
    outcomes: Seq<Result<(), String>>,
    path: String,
)
    requires
        target.spec_steps()[0] is MakeDirectory,
        outcomes[0] == Err::<(), _>(path),
    ensures
        save_run(target, 0, outcomes).tried == seq![SaveStepView::MakeDirectory],
        save_run(target, 0, outcomes).result == Err::<(), _>(Failure::Directory { path }),
{
    saving_stops(target, 0, outcomes, path);
    assert(target.spec_steps().take(1) =~= seq![SaveStepView::MakeDirectory]);
}

/// The files of a directory by their names, and the one at hand.
pub struct Directory {
    pub files: Map<Seq<char>, Seq<u8>>,
    pub at_hand: Option<Seq<char>>,
}

impl Directory {
    /// The directory after a step was done that writes `contents`, if it writes.
    pub open spec fn after(self, step: SaveStepView, contents: Seq<u8>) -> Directory {
        match step {
            SaveStepView::Create { name } | SaveStepView::Open { name } => Directory {
                files: self.files.insert(name, Seq::empty()),
                at_hand: Some(name),
            },
            SaveStepView::Write => match self.at_hand {
                Some(name) => Directory { files: self.files.insert(name, contents), ..self },
                None => self,
            },
            _ => self,
        }
    }

    /// The directory after these steps were done, in order.
    pub open spec fn after_all(self, steps: Seq<SaveStepView>, contents: Seq<u8>) -> Directory
        decreases steps.len(),
    {
        if steps.len() == 0 {
            self
        } else {
            self.after_all(steps.drop_last(), contents).after(steps.last(), contents)
        }
    }
}

/// The files of a directory after the first `count` steps of writing `contents` to
/// `target` were done.
pub open spec fn files_after(
    files: Map<Seq<char>, Seq<u8>>,
    target: Target,
    count: nat,
    contents: Seq<u8>,
) -> Map<Seq<char>, Seq<u8>> {
    Directory { files, at_hand: None }.after_all(
        target.spec_steps().take(count as int),
        contents,
    ).files
}

/// The files of a directory after `contents` were written to `target`.
pub open spec fn stored(
    files: Map<Seq<char>, Seq<u8>>,
    target: Target,
    contents: Seq<u8>,
) -> Map<Seq<char>, Seq<u8>> {
    files_after(files, target, target.spec_steps().len(), contents)
}

/// One more step.
proof fn directory_step(start: Directory, steps: Seq<SaveStepView>, count: nat, contents: Seq<u8>)
    requires
        count < steps.len(),
    ensures
        start.after_all(steps.take(count as int + 1), contents) == start.after_all(
            steps.take(count as int),
            contents,
        ).after(steps[count as int], contents),
{
    assert(steps.take(count as int + 1).drop_last() =~= steps.take(count as int));
}

/// Parameters of degree `k` are kept in one file, whole, and no other file is made,
/// emptied or written on the way there.
pub proof fn params_touch_one_file(
    files: Map<Seq<char>, Seq<u8>>,
    k: usize,
    contents: Seq<u8>,
    count: nat,
)
    requires
        count <= (Target::Params { k }).spec_steps().len(),
    ensures
        stored(files, Target::Params { k }, contents) == files.insert(srs_name(k as nat), contents),
        files_after(files, Target::Params { k }, count, contents).remove(srs_name(k as nat))
            == files.remove(srs_name(k as nat)),
        count <= 2 ==> files_after(files, Target::Params { k }, count, contents) == files,
{
    let target = Target::Params { k };
    let steps = target.spec_steps();
    let start = Directory { files, at_hand: None };
    let name = srs_name(k as nat);
    assert(steps.take(0) =~= Seq::<SaveStepView>::empty());
    assert(start.after_all(steps.take(0), contents) == start);
    directory_step(start, steps, 0, contents);
    directory_step(start, steps, 1, contents);
    directory_step(start, steps, 2, contents);
    directory_step(start, steps, 3, contents);
    let empty = Seq::<u8>::empty();
    assert(files_after(files, target, 3, contents) == files.insert(name, empty));
    assert(files_after(files, target, 4, contents) =~= files.insert(name, contents));
    assert(files.insert(name, empty).remove(name) =~= files.remove(name));
    assert(files.insert(name, contents).remove(name) =~= files.remove(name));
}

/// Parameters of different degrees leave each other alone: after both were written
/// to one directory, each file holds its own, and every other file is as it was.
pub proof fn params_files_apart(
    files: Map<Seq<char>, Seq<u8>>,
    j: usize,
    first: Seq<u8>,
    k: usize,
    second: Seq<u8>,
)
    requires
        j != k,
    ensures
        ({
            let both = stored(
                stored(files, Target::Params { k: j }, first),
                Target::Params { k },
                second,
            );
            &&& both.contains_pair(srs_name(j as nat), first)
            &&& both.contains_pair(srs_name(k as nat), second)
            &&& both.remove(srs_name(j as nat)).remove(srs_name(k as nat)) == files.remove(
                srs_name(j as nat),
            ).remove(srs_name(k as nat))
        }),
{
    let (a, b) = (srs_name(j as nat), srs_name(k as nat));
    if a == b {
        srs_names_distinct(j as nat, k as nat);
    }
    params_touch_one_file(files, j, first, 0);
    params_touch_one_file(files.insert(a, first), k, second, 0);
    assert(files.insert(a, first).insert(b, second).remove(a).remove(b) =~= files.remove(a).remove(
        b,
    ));
}

/// Parameters that were saved load back unchanged: their file is read in the format
/// they were written in, holds all that was written, and yields the parameters.
/// `write` and `read` are how parameters become bytes and bytes parameters; that the
/// one undoes the other is what they are for.
pub proof fn saved_params_load<K>(
    files: Map<Seq<char>, Seq<u8>>,
    directory: Seq<char>,
    k: usize,
    params: K,
    write: spec_fn(K) -> Seq<u8>,
    read: spec_fn(SrsFormat, Seq<u8>) -> Fetched<K>,
)
    requires
        directory.len() == 0 || directory.last() == '/',
        read(SrsFormat::Pse, write(params)) == Fetched::Parsed(params),
    ensures
        ({
            let name = srs_name(k as nat);
            let after = stored(files, Target::Params { k }, write(params));
            let format = format_by(extension(directory + name));
            &&& format is Ok
            &&& after.dom().contains(name)
            &&& prepared(format->Ok_0, read(format->Ok_0, after[name])) == Ok::<_, Failure>(params)
        }),
{
    saved_params_format(directory, k as nat);
    params_touch_one_file(files, k, write(params), 0);
}

/// The bytecode of the verifier is kept in one file, whole.
pub proof fn verifier_is_stored(files: Map<Seq<char>, Seq<u8>>, contents: Seq<u8>)
    ensures
        stored(files, Target::Verifier, contents) == files.insert("evm-verifier.bin"@, contents),
{
    let steps = Target::Verifier.spec_steps();
    let start = Directory { files, at_hand: None };
    assert(steps.take(0) =~= Seq::<SaveStepView>::empty());
    assert(start.after_all(steps.take(0), contents) == start);
    directory_step(start, steps, 0, contents);
    directory_step(start, steps, 1, contents);
    directory_step(start, steps, 2, contents);
    assert(stored(files, Target::Verifier, contents) =~= files.insert(
        "evm-verifier.bin"@,
        contents,
    ));
}

/// The files of an aggregated proof are made empty.
proof fn proof_files_are_empty(files: Map<Seq<char>, Seq<u8>>, contents: Seq<u8>)
    ensures
        stored(files, Target::ProofFiles, contents) == files.insert(
            ProofFile::Proof.spec_name(),
            Seq::empty(),
        ).insert(ProofFile::Instances.spec_name(), Seq::empty()).insert(
            ProofFile::Calldata.spec_name(),
            Seq::empty(),
        ),
{
    let steps = Target::ProofFiles.spec_steps();
    let start = Directory { files, at_hand: None };
    assert(steps.take(0) =~= Seq::<SaveStepView>::empty());
    assert(start.after_all(steps.take(0), contents) == start);
    directory_step(start, steps, 0, contents);
    directory_step(start, steps, 1, contents);
    directory_step(start, steps, 2, contents);
    directory_step(start, steps, 3, contents);
}

/// One file of an aggregated proof is written whole.
proof fn output_is_stored(files: Map<Seq<char>, Seq<u8>>, file: ProofFile, contents: Seq<u8>)
    ensures
        stored(files, Target::ProofOutput { file }, contents) == files.insert(
            file.spec_name(),
            contents,
        ),
{
    let steps = Target::ProofOutput { file }.spec_steps();
    let start = Directory { files, at_hand: None };
    assert(steps.take(0) =~= Seq::<SaveStepView>::empty());
    assert(start.after_all(steps.take(0), contents) == start);
    directory_step(start, steps, 0, contents);
    directory_step(start, steps, 1, contents);
    assert(stored(files, Target::ProofOutput { file }, contents) =~= files.insert(
        file.spec_name(),
        contents,
    ));
}

/// After the files of an aggregated proof were made and its outputs written, the
/// proof and the calldata are each in their file, whole, and the file of the public
/// inputs is empty.
pub proof fn proof_is_stored(files: Map<Seq<char>, Seq<u8>>, bytes: Seq<u8>, calldata: Seq<u8>)
    ensures
        ({
            let made = stored(files, Target::ProofFiles, Seq::empty());
            let first = stored(made, Target::ProofOutput { file: ProofFile::Proof }, bytes);
            let both = stored(first, Target::ProofOutput { file: ProofFile::Calldata }, calldata);
            &&& both.contains_pair(ProofFile::Proof.spec_name(), bytes)
            &&& both.contains_pair(ProofFile::Calldata.spec_name(), calldata)
            &&& both.contains_pair(ProofFile::Instances.spec_name(), Seq::<u8>::empty())
        }),
{
    let made = stored(files, Target::ProofFiles, Seq::empty());
    let first = stored(made, Target::ProofOutput { file: ProofFile::Proof }, bytes);
    proof_files_are_empty(files, Seq::empty());
    output_is_stored(made, ProofFile::Proof, bytes);
    output_is_stored(first, ProofFile::Calldata, calldata);
    if ProofFile::Proof.spec_name() == ProofFile::Calldata.spec_name() {
        proof_file_names_distinct(ProofFile::Proof, ProofFile::Calldata);
    }
    if ProofFile::Instances.spec_name() == ProofFile::Calldata.spec_name() {
        proof_file_names_distinct(ProofFile::Instances, ProofFile::Calldata);
    }
    if ProofFile::Instances.spec_name() == ProofFile::Proof.spec_name() {
        proof_file_names_distinct(ProofFile::Instances, ProofFile::Proof);
    }
}

/// Which of `count` outputs is written after the one at `position`, whether that
/// was `saved` or not.
pub open spec fn output_after(
    count: nat,
    position: nat,
    saved: Result<(), Failure>,
) -> Option<nat> {
    if position + 1 < count {
        Some(position + 1)
    } else {
        None
    }
}

/// What is printed of an output.
pub open spec fn output_report(saved: Result<(), Failure>) -> Option<(Seq<char>, Style)> {
    match saved {
        Ok(()) => None,
        Err(failure) => Some((failure.text(), Style::Error)),
    }
}

/// The line to print of the output at `position` out of `count`, if there is one, and
/// the output that is written next.
pub fn finish_output(count: usize, position: usize, saved: &Result<(), Failure>) -> (next: (
    Option<Line>,
    Option<usize>,
))
    requires
        position < count,
    ensures
        match next.0 {
            Some(line) => output_report(*saved) == Some(line@),
            None => output_report(*saved) is None,
        },
        next.1 is Some <==> position + 1 < count,
        next.1 matches Some(after) ==> after == position + 1,
        next.0 is Some <==> *saved is Err,
        match next.1 {
            Some(after) => output_after(count as nat, position as nat, *saved) == Some(
                after as nat,
            ),
            None => output_after(count as nat, position as nat, *saved) is None,
        },
{
    let line = match saved {
        Ok(()) => None,
        Err(failure) => Some(Line { text: failure.message(), style: Style::Error }),
    };
    let after = if position + 1 < count {
        Some(position + 1)
    } else {
        None
    };
    (line, after)
}

/// The outputs that are written, in order, from the one at `position` on, where
/// `results` says what came of each.
pub open spec fn outputs_tried(
    count: nat,
    position: nat,
    results: Seq<Result<(), Failure>>,
) -> Seq<nat>
    decreases count - position,
{
    match output_after(count, position, results[position as int]) {
        Some(next) => seq![position] + outputs_tried(count, next, results),
        None => seq![position],
    }
}

/// Every output is tried, in order, whatever came of those before it.
pub proof fn failed_output_stops_nothing(
    count: nat,
    position: nat,
    results: Seq<Result<(), Failure>>,
)
    requires
        position < count,
    ensures
        outputs_tried(count, position, results) == Seq::new(
            (count - position) as nat,
            |i: int| (position + i) as nat,
        ),
    decreases count - position,
{
    if position + 1 < count {
        failed_output_stops_nothing(count, position + 1, results);
    }
    assert(outputs_tried(count, position, results) =~= Seq::new(
        (count - position) as nat,
        |i: int| (position + i) as nat,
    ));
}

/// A file is made or opened directly before it is written.
pub proof fn written_file_is_at_hand(target: Target, i: int)
    requires
        0 <= i < target.spec_steps().len(),
        target.spec_steps()[i] is Write,
    ensures
        0 < i,
        target.spec_steps()[i - 1] is Create || target.spec_steps()[i - 1] is Open,
{
}

/// A directory is made before any file in it.
pub proof fn directory_comes_first(target: Target, i: int)
    requires
        0 <= i < target.spec_steps().len(),
        target.spec_steps()[i] is Create,
    ensures
        0 < i,
        target.spec_steps()[0] is MakeDirectory,
{
}

/// The parameters that are made are of the degree that the name of their file says,
/// up to the 32 bits that a degree has.
pub proof fn made_degree_is_named(k: usize)
    ensures
        ({
            let steps = (Target::Params { k }).spec_steps();
            &&& steps.len() == 4
            &&& steps[0] is MakeDirectory
            &&& steps[1] is Generate
            &&& steps[1]->degree as int == k as int % 0x1_0000_0000
            &&& k < 0x1_0000_0000 ==> steps[1]->degree == k
            &&& steps[2] is Create
            &&& steps[2]->Create_name == srs_name(k as nat)
            &&& steps[3] is Write
        }),
{
}

/// Parameters of different degrees are made where different ones are asked for.
pub proof fn different_degrees_are_made(j: usize, k: usize)
    requires
        j < 0x1_0000_0000,
        k < 0x1_0000_0000,
        (Target::Params { k: j }).spec_steps()[1] == (Target::Params { k }).spec_steps()[1],
    ensures
        j == k,
{
    made_degree_is_named(j);
    made_degree_is_named(k);
}

/// The verifier is written to a new file in its directory, the files of a proof are
/// made there one after the other, and each output is written to the file that was
/// made for it.
pub proof fn files_are_made_then_written(file: ProofFile)
    ensures
        ({
            let steps = Target::Verifier.spec_steps();
            &&& steps.len() == 3
            &&& steps[0] is MakeDirectory
            &&& steps[1] is Create
            &&& steps[1]->Create_name == "evm-verifier.bin"@
            &&& steps[2] is Write
        }),
        ({
            let steps = Target::ProofFiles.spec_steps();
            &&& steps.len() == 4
            &&& steps[0] is MakeDirectory
            &&& exists|i: int|
                1 <= i < 4 && (#[trigger] steps[i]) == (SaveStepView::Create {
                    name: file.spec_name(),
                })
            &&& forall|i: int| 1 <= i < 4 ==> (#[trigger] steps[i]) is Create
            &&& steps[1]->Create_name == ProofFile::Proof.spec_name()
            &&& steps[2]->Create_name == ProofFile::Instances.spec_name()
            &&& steps[3]->Create_name == ProofFile::Calldata.spec_name()
        }),
        ({
            let steps = (Target::ProofOutput { file }).spec_steps();
            &&& steps.len() == 2
            &&& steps[0] is Open
            &&& steps[0]->Open_name == file.spec_name()
            &&& steps[1] is Write
        }),
{
    let steps = Target::ProofFiles.spec_steps();
    match file {
        ProofFile::Proof => {
            assert(steps[1] == (SaveStepView::Create { name: file.spec_name() }));
        },
        ProofFile::Instances => {
            assert(steps[2] == (SaveStepView::Create { name: file.spec_name() }));
        },
        ProofFile::Calldata => {
            assert(steps[3] == (SaveStepView::Create { name: file.spec_name() }));
        },
    }
}

/// What is said of a step that failed ends with what it is told with: with the path
/// behind what could not be done, or with the message of the system alone.
pub proof fn failed_step_is_told(target: Target, step: SaveStepView, detail: String)
    ensures
        target.told_with(step) == Detail::Message <==> {
            ||| step is Generate
            ||| step is Write && target is Params
            ||| step is Write && target is ProofFiles
        },
        target.told_with(step) == Detail::Message ==> target.step_failure(step, detail).text()
            == detail@,
        step is MakeDirectory ==> target.step_failure(step, detail).text()
            == "Failed to locate directory at "@ + detail@,
        step is Create ==> target.step_failure(step, detail).text()
            == "Failed to create new file at "@ + detail@,
        step is Open ==> target.step_failure(step, detail).text() == "Failed to open file at "@
            + detail@,
        step is Write && target is Verifier ==> target.step_failure(step, detail).text()
            == "Failed to write evm verifier to "@ + detail@,
        step is Write && target is ProofOutput ==> target.step_failure(step, detail).text()
            == "Failed to write to file at "@ + detail@,
{
}

/// A step is seen by its kind and its degree or name.
pub proof fn step_is_seen_whole(degree: u32, name: String)
    ensures
        SaveStep::MakeDirectory@ is MakeDirectory,
        (SaveStep::Generate { degree })@ == (SaveStepView::Generate { degree }),
        (SaveStep::Create { name })@ == (SaveStepView::Create { name: name@ }),
        (SaveStep::Open { name })@ == (SaveStepView::Open { name: name@ }),
        SaveStep::Write@ is Write,
{
}

/// Steps are seen in their order.
pub proof fn steps_match(steps: Seq<SaveStep>)
    ensures
        step_views(steps).len() == steps.len(),
        forall|i: int| 0 <= i < steps.len() ==> #[trigger] step_views(steps)[i] == steps[i]@,
{
}

/// A writing goes on with the next step exactly if the one before was done and was
/// not the last. It ends well exactly if the last was done.
pub proof fn next_step_follows(target: Target, position: nat, detail: String)
    requires
        position < target.spec_steps().len(),
    ensures
        position + 1 < target.spec_steps().len() ==> saving_after(target, position, Ok(())) == (
        SaveProgress::At { position: position + 1 }),
        position + 1 == target.spec_steps().len() ==> saving_after(target, position, Ok(())) == (
        SaveProgress::Over { result: Ok(()) }),
        saving_after(target, position, Err(detail)) is Over,
        saving_after(target, position, Err(detail))->result is Err,
{
}

/// Of an output that was saved nothing is printed, and of one that was not, the
/// failure.
pub proof fn failed_output_is_printed(failure: Failure)
    ensures
        output_report(Ok(())) is None,
        output_report(Err(failure)) == Some((failure.text(), Style::Error)),
{
}

} // verus!
