//! Reading numbered proofs and their public signals, one file after the other.

use vstd::prelude::*;

use crate::failure::Failure;
use crate::files::{proof_file, proof_name, public_file, public_name};

verus! {

/// What came of reading one file.
pub enum Fetched<T> {
    /// The file could not be read.
    Missing { path: String },
    /// The contents are not what they should be.
    Malformed,
    /// What the file holds.
    Parsed(T),
}

/// The file to read next.
pub enum InputRequest {
    /// The file with that proof.
    Proof { number: u64, file: String },
    /// The file with the public signals of that proof.
    Public { number: u64, file: String },
    /// There is nothing left to read.
    Finished,
}

/// How far the reading of `count` proofs with their public signals has come.
pub struct Inputs<P, S> {
    pub count: nat,
    pub proofs: Seq<P>,
    pub signals: Seq<S>,
}

impl<P, S> Inputs<P, S> {
    /// Proofs and public signals are read in turn, the proof first.
    pub open spec fn valid(self) -> bool {
        &&& self.signals.len() <= self.proofs.len() <= self.signals.len() + 1
        &&& self.proofs.len() <= self.count <= u64::MAX
    }

    /// Nothing is read yet.
    pub open spec fn start(count: nat) -> Inputs<P, S> {
        Inputs { count, proofs: Seq::empty(), signals: Seq::empty() }
    }

    /// The next file holds a proof.
    pub open spec fn wants_proof(self) -> bool {
        self.signals.len() == self.proofs.len() < self.count
    }

    /// The next file holds public signals.
    pub open spec fn wants_public(self) -> bool {
        self.signals.len() < self.proofs.len()
    }

    /// Everything is read.
    pub open spec fn finished(self) -> bool {
        self.signals.len() == self.proofs.len() == self.count
    }

    /// How the reading goes on after the file with the next proof.
    pub open spec fn after_proof(self, fetched: Fetched<P>) -> Result<Inputs<P, S>, Failure> {
        let number = (self.proofs.len() + 1) as u64;
        match fetched {
            Fetched::Missing { path } => Err(Failure::MissingProof { number, path }),
            Fetched::Malformed => Err(Failure::MalformedProof { number }),
            Fetched::Parsed(value) => Ok(Inputs { proofs: self.proofs.push(value), ..self }),
        }
    }

    /// How the reading goes on after the file with the next public signals.
    pub open spec fn after_public(self, fetched: Fetched<S>) -> Result<Inputs<P, S>, Failure> {
        let number = (self.signals.len() + 1) as u64;
        match fetched {
            Fetched::Missing { path } => Err(Failure::MissingPublic { number, path }),
            Fetched::Malformed => Err(Failure::MalformedPublic { number }),
            Fetched::Parsed(value) => Ok(Inputs { signals: self.signals.push(value), ..self }),
        }
    }
}

/// Collects proofs and public signals as they are read.
pub struct InputReader<P, S> {
    count: usize,
    proofs: Vec<P>,
    signals: Vec<S>,
}

impl<P, S> View for InputReader<P, S> {
    type V = Inputs<P, S>;

    closed spec fn view(&self) -> Inputs<P, S> {
        Inputs { count: self.count as nat, proofs: self.proofs@, signals: self.signals@ }
    }
}

impl<P, S> InputReader<P, S> {
    /// The reading is at a place that it can be at.
    #[verifier::type_invariant]
    pub open spec fn well_formed(self) -> bool {
        self@.valid()
    }

    /// A reader of `count` proofs and their public signals.
    pub fn new(count: usize) -> (reader: InputReader<P, S>)
        ensures
            reader@ == Inputs::<P, S>::start(count as nat),
    {
        InputReader { count, proofs: Vec::new(), signals: Vec::new() }
    }

    /// The file to read next.
    pub fn request(&self) -> (request: InputRequest)
        ensures
            request is Proof <==> self@.wants_proof(),
            request is Public <==> self@.wants_public(),
            request is Finished <==> self@.finished(),
            request matches InputRequest::Proof { number, file } ==> {
                &&& number == self@.proofs.len() + 1
                &&& file@ == proof_name(number as nat)
            },
            request matches InputRequest::Public { number, file } ==> {
                &&& number == self@.signals.len() + 1
                &&& file@ == public_name(number as nat)
            },
    {
        proof {
            use_type_invariant(self);
        }
        if self.signals.len() < self.proofs.len() {
            let number = self.signals.len() as u64 + 1;
            InputRequest::Public { number, file: public_file(number) }
        } else if self.proofs.len() < self.count {
            let number = self.proofs.len() as u64 + 1;
            InputRequest::Proof { number, file: proof_file(number) }
        } else {
            InputRequest::Finished
        }
    }

    /// Goes on after the file with the next proof.
    pub fn supply_proof(self, fetched: Fetched<P>) -> (reader: Result<InputReader<P, S>, Failure>)
        requires
            self@.wants_proof(),
        ensures
            match reader {
                Ok(reader) => self@.after_proof(fetched) == Ok::<_, Failure>(reader@),
                Err(failure) => self@.after_proof(fetched) == Err::<Inputs<P, S>, _>(failure),
            },
    {
        proof {
            use_type_invariant(&self);
        }
        let number = self.proofs.len() as u64 + 1;
        match fetched {
            Fetched::Missing { path } => Err(Failure::MissingProof { number, path }),
            Fetched::Malformed => Err(Failure::MalformedProof { number }),
            Fetched::Parsed(value) => {
                let InputReader { count, proofs, signals } = self;
                let mut proofs = proofs;
                proofs.push(value);
                Ok(InputReader { count, proofs, signals })
            },
        }
    }

    /// Goes on after the file with the next public signals.
    pub fn supply_public(self, fetched: Fetched<S>) -> (reader: Result<InputReader<P, S>, Failure>)
        requires
            self@.wants_public(),
        ensures
            match reader {
                Ok(reader) => self@.after_public(fetched) == Ok::<_, Failure>(reader@),
                Err(failure) => self@.after_public(fetched) == Err::<Inputs<P, S>, _>(failure),
            },
    {
        proof {
            use_type_invariant(&self);
        }
        let number = self.signals.len() as u64 + 1;
        match fetched {
            Fetched::Missing { path } => Err(Failure::MissingPublic { number, path }),
            Fetched::Malformed => Err(Failure::MalformedPublic { number }),
            Fetched::Parsed(value) => {
                let InputReader { count, proofs, signals } = self;
                let mut signals = signals;
                signals.push(value);
                Ok(InputReader { count, proofs, signals })
            },
        }
    }

    /// The proofs and the public signals, in the order of their numbers.
    pub fn finish(self) -> (inputs: (Vec<P>, Vec<S>))
        requires
            self@.finished(),
        ensures
            inputs.0@ == self@.proofs,
            inputs.1@ == self@.signals,
    {
        (self.proofs, self.signals)
    }
}

/// The verification key that was read from its file, or why there is none.
pub fn prepare_circom_vk<K>(fetched: Fetched<K>) -> (key: Result<K, Failure>)
    ensures
        key == match fetched {
            Fetched::Missing { path } => Err(Failure::MissingKey { path }),
            Fetched::Malformed => Err(Failure::MalformedKey),
            Fetched::Parsed(key) => Ok(key),
        },
{
    match fetched {
        Fetched::Missing { path } => Err(Failure::MissingKey { path }),
        Fetched::Malformed => Err(Failure::MalformedKey),
        Fetched::Parsed(key) => Ok(key),
    }
}

/// Where the reading ends that starts at `inputs`, with `proofs` and `signals` as
/// what came of reading the files of each number.
pub open spec fn run<P, S>(
    inputs: Inputs<P, S>,
    proofs: Seq<Fetched<P>>,
    signals: Seq<Fetched<S>>,
) -> Result<Inputs<P, S>, Failure>
    decreases 2 * inputs.count - inputs.proofs.len() - inputs.signals.len(),
    when inputs.valid()
{
    if inputs.wants_public() {
        match inputs.after_public(signals[inputs.signals.len() as int]) {
            Ok(next) => run(next, proofs, signals),
            Err(failure) => Err(failure),
        }
    } else if inputs.wants_proof() {
        match inputs.after_proof(proofs[inputs.proofs.len() as int]) {
            Ok(next) => run(next, proofs, signals),
            Err(failure) => Err(failure),
        }
    } else {
        Ok(inputs)
    }
}

/// The first `count` files of a row all hold what they should.
pub open spec fn all_parsed<T>(row: Seq<Fetched<T>>, count: nat) -> bool {
    forall|i: int| 0 <= i < count ==> #[trigger] row[i] is Parsed
}

/// What the first `count` files of a row hold.
pub open spec fn parsed<T>(row: Seq<Fetched<T>>, count: nat) -> Seq<T> {
    Seq::new(count, |i: int| row[i]->Parsed_0)
}

/// The reading that has come past the first `done` numbers.
pub open spec fn halfway<P, S>(
    count: nat,
    done: nat,
    proofs: Seq<Fetched<P>>,
    signals: Seq<Fetched<S>>,
) -> Inputs<P, S> {
    Inputs { count, proofs: parsed(proofs, done), signals: parsed(signals, done) }
}

/// While all files are in order, the reading comes past one number after the
/// other.
proof fn run_reaches<P, S>(
    count: nat,
    done: nat,
    proofs: Seq<Fetched<P>>,
    signals: Seq<Fetched<S>>,
)
    requires
        done <= count <= u64::MAX,
        all_parsed(proofs, done),
        all_parsed(signals, done),
    ensures
        run(Inputs::<P, S>::start(count), proofs, signals) == run(
            halfway(count, done, proofs, signals),
            proofs,
            signals,
        ),
    decreases done,
{
    if done == 0 {
        assert(parsed(proofs, 0) =~= Seq::<P>::empty());
        assert(parsed(signals, 0) =~= Seq::<S>::empty());
    } else {
        let before = (done - 1) as nat;
        run_reaches(count, before, proofs, signals);
        let here = halfway(count, before, proofs, signals);
        assert(proofs[before as int] is Parsed);
        assert(signals[before as int] is Parsed);
        let middle = Inputs { proofs: here.proofs.push(proofs[before as int]->Parsed_0), ..here };
        let next = halfway(count, done, proofs, signals);
        assert(next.proofs =~= middle.proofs);
        assert(next.signals =~= middle.signals.push(signals[before as int]->Parsed_0));
        assert(run(here, proofs, signals) == run(middle, proofs, signals));
        assert(run(middle, proofs, signals) == run(next, proofs, signals));
    }
}

/// If every file is in order, the reading ends with what they hold, in the order
/// of their numbers.
pub proof fn reading_succeeds<P, S>(
    count: nat,
    proofs: Seq<Fetched<P>>,
    signals: Seq<Fetched<S>>,
)
    requires
        count <= u64::MAX,
        all_parsed(proofs, count),
        all_parsed(signals, count),
    ensures
        run(Inputs::<P, S>::start(count), proofs, signals) == Ok::<_, Failure>(
            Inputs { count, proofs: parsed(proofs, count), signals: parsed(signals, count) },
        ),
{
    run_reaches(count, count, proofs, signals);
}

/// If the first file that is not in order is that of proof `at + 1`, the reading
/// ends with the failure of that file.
pub proof fn reading_stops_at_proof<P, S>(
    count: nat,
    at: nat,
    proofs: Seq<Fetched<P>>,
    signals: Seq<Fetched<S>>,
)
    requires
        at < count <= u64::MAX,
        all_parsed(proofs, at),
        all_parsed(signals, at),
        !(proofs[at as int] is Parsed),
    ensures
        run(Inputs::<P, S>::start(count), proofs, signals) == Err::<Inputs<P, S>, _>(
            match proofs[at as int] {
                Fetched::Missing { path } => Failure::MissingProof {
                    number: (at + 1) as u64,
                    path,
                },
                _ => Failure::MalformedProof { number: (at + 1) as u64 },
            },
        ),
{
    run_reaches(count, at, proofs, signals);
}

/// If the first file that is not in order is that of the public signals of proof
/// `at + 1`, the reading ends with the failure of that file.
pub proof fn reading_stops_at_public<P, S>(
    count: nat,
    at: nat,
    proofs: Seq<Fetched<P>>,
    signals: Seq<Fetched<S>>,
)
    requires
        at < count <= u64::MAX,
        all_parsed(proofs, at + 1),
        all_parsed(signals, at),
        !(signals[at as int] is Parsed),
    ensures
        run(Inputs::<P, S>::start(count), proofs, signals) == Err::<Inputs<P, S>, _>(
            match signals[at as int] {
                Fetched::Missing { path } => Failure::MissingPublic {
                    number: (at + 1) as u64,
                    path,
                },
                _ => Failure::MalformedPublic { number: (at + 1) as u64 },
            },
        ),
{
    run_reaches(count, at, proofs, signals);
    let here = halfway(count, at, proofs, signals);
    assert(proofs[at as int] is Parsed);
    let middle = Inputs { proofs: here.proofs.push(proofs[at as int]->Parsed_0), ..here };
    assert(run(here, proofs, signals) == run(middle, proofs, signals));
}

/// The first number with a file that is not in order, or the number of proofs.
proof fn first_bad<P, S>(
    count: nat,
    proofs: Seq<Fetched<P>>,
    signals: Seq<Fetched<S>>,
) -> (at: nat)
    ensures
        at <= count,
        all_parsed(proofs, at),
        all_parsed(signals, at),
        at < count ==> !(proofs[at as int] is Parsed && signals[at as int] is Parsed),
    decreases count,
{
    if count == 0 {
        0
    } else {
        let last = (count - 1) as nat;
        let before = first_bad(last, proofs, signals);
        if before < last || !(proofs[last as int] is Parsed && signals[last as int] is Parsed) {
            before
        } else {
            count
        }
    }
}

/// To read fewer proofs from the same files gives the first of what reading more of
/// them gives, and a failure of the shorter reading is the failure of the longer.
pub proof fn reading_fewer<P, S>(
    fewer: nat,
    count: nat,
    proofs: Seq<Fetched<P>>,
    signals: Seq<Fetched<S>>,
)
    requires
        fewer <= count <= u64::MAX,
    ensures
        match (
            run(Inputs::<P, S>::start(fewer), proofs, signals),
            run(Inputs::<P, S>::start(count), proofs, signals),
        ) {
            (Ok(part), Ok(all)) => {
                &&& part.proofs == all.proofs.take(fewer as int)
                &&& part.signals == all.signals.take(fewer as int)
            },
            (Ok(part), Err(_)) => {
                &&& part.proofs == parsed(proofs, fewer)
                &&& part.signals == parsed(signals, fewer)
            },
            (Err(early), Err(late)) => early == late,
            (Err(_), Ok(_)) => false,
        },
{
    let at = first_bad(count, proofs, signals);
    if at < count {
        stops_at(count, at, proofs, signals);
    } else {
        reading_succeeds(count, proofs, signals);
        assert(parsed(proofs, count).take(fewer as int) =~= parsed(proofs, fewer));
        assert(parsed(signals, count).take(fewer as int) =~= parsed(signals, fewer));
    }
    if at < fewer {
        stops_at(fewer, at, proofs, signals);
    } else {
        reading_succeeds(fewer, proofs, signals);
    }
}

/// The failure at the first number with a file that is not in order does not depend
/// on how many proofs are to be read.
proof fn stops_at<P, S>(
    count: nat,
    at: nat,
    proofs: Seq<Fetched<P>>,
    signals: Seq<Fetched<S>>,
)
    requires
        at < count <= u64::MAX,
        all_parsed(proofs, at),
        all_parsed(signals, at),
        !(proofs[at as int] is Parsed && signals[at as int] is Parsed),
    ensures
        run(Inputs::<P, S>::start(count), proofs, signals) == Err::<Inputs<P, S>, _>(
            match (proofs[at as int], signals[at as int]) {
                (Fetched::Missing { path }, _) => Failure::MissingProof {
                    number: (at + 1) as u64,
                    path,
                },
                (Fetched::Malformed, _) => Failure::MalformedProof { number: (at + 1) as u64 },
                (_, Fetched::Missing { path }) => Failure::MissingPublic {
                    number: (at + 1) as u64,
                    path,
                },
                _ => Failure::MalformedPublic { number: (at + 1) as u64 },
            },
        ),
{
    if proofs[at as int] is Parsed {
        reading_stops_at_public(count, at, proofs, signals);
    } else {
        reading_stops_at_proof(count, at, proofs, signals);
    }
}

/// What files hold is taken in the order of their numbers.
pub proof fn parsed_place_by_place<T>(row: Seq<Fetched<T>>, count: nat, i: int)
    requires
        0 <= i < count,
        all_parsed(row, count),
    ensures
        parsed(row, count).len() == count,
        row[i] == Fetched::Parsed(parsed(row, count)[i]),
{
    assert(row[i] is Parsed);
}

/// Proofs and public signals are asked for in turn, a proof before its public
/// signals, until there are `count` of both.
pub proof fn asked_in_turn<P, S>(inputs: Inputs<P, S>)
    requires
        inputs.signals.len() <= inputs.proofs.len() <= inputs.signals.len() + 1,
        inputs.proofs.len() <= inputs.count <= u64::MAX,
    ensures
        inputs.valid(),
        inputs.wants_public() <==> inputs.proofs.len() == inputs.signals.len() + 1,
        inputs.wants_proof() <==> inputs.proofs.len() == inputs.signals.len()
            && inputs.proofs.len() < inputs.count,
        inputs.finished() <==> inputs.proofs.len() == inputs.count && inputs.signals.len()
            == inputs.count,
{
}

/// What a file holds is added behind what was read before, and nothing else changes.
/// A file that is not in order ends the reading with its number.
pub proof fn file_is_taken_or_reported<P, S>(
    inputs: Inputs<P, S>,
    first: P,
    second: S,
    path: String,
)
    requires
        inputs.valid(),
    ensures
        inputs.wants_proof() ==> {
            let number = (inputs.proofs.len() + 1) as u64;
            &&& inputs.after_proof(Fetched::Parsed(first)) == Ok::<_, Failure>(
                Inputs { proofs: inputs.proofs.push(first), ..inputs },
            )
            &&& inputs.after_proof(Fetched::Missing { path }) == Err::<Inputs<P, S>, _>(
                Failure::MissingProof { number, path },
            )
            &&& inputs.after_proof(Fetched::Malformed) == Err::<Inputs<P, S>, _>(
                Failure::MalformedProof { number },
            )
        },
        inputs.wants_public() ==> {
            let number = (inputs.signals.len() + 1) as u64;
            &&& inputs.after_public(Fetched::Parsed(second)) == Ok::<_, Failure>(
                Inputs { signals: inputs.signals.push(second), ..inputs },
            )
            &&& inputs.after_public(Fetched::Missing { path }) == Err::<Inputs<P, S>, _>(
                Failure::MissingPublic { number, path },
            )
            &&& inputs.after_public(Fetched::Malformed) == Err::<Inputs<P, S>, _>(
                Failure::MalformedPublic { number },
            )
        },
{
}

} // verus!
