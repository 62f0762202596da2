//! When an aggregated proof may be given out.

use vstd::prelude::*;

use crate::field::Fr;

verus! {

/// How far the making of a proof for a table of public inputs has come.
pub enum Proving {
    /// The mock prover has to check the circuit with these public inputs.
    Mock { instances: Vec<Vec<Fr>> },
    /// The proof has to be made for these public inputs.
    Create { instances: Vec<Vec<Fr>> },
    /// This proof has to be verified for these public inputs.
    Verify { instances: Vec<Vec<Fr>>, bytes: Vec<u8> },
    /// This proof may be given out, for these public inputs.
    Released { instances: Vec<Vec<Fr>>, bytes: Vec<u8> },
    /// There will be no proof.
    Aborted,
}

/// What came of a step of the making.
pub enum ProvingEvent {
    /// The mock prover ran, and is satisfied or not.
    Mocked { satisfied: bool },
    /// The prover made these bytes, or failed.
    Created { bytes: Option<Vec<u8>> },
    /// The verifier accepted the proof or rejected it, or failed.
    Verified { accepted: Option<bool> },
}

impl Proving {
    /// How the making goes on after `event`.
    pub open spec fn after(self, event: ProvingEvent) -> Proving {
        match (self, event) {
            (Proving::Mock { instances }, ProvingEvent::Mocked { satisfied: true }) =>
                Proving::Create { instances },
            (Proving::Create { instances }, ProvingEvent::Created { bytes: Some(bytes) }) =>
                Proving::Verify { instances, bytes },
            (
                Proving::Verify { instances, bytes },
                ProvingEvent::Verified { accepted: Some(true) },
            ) => Proving::Released { instances, bytes },
            (Proving::Released { instances, bytes }, _) => Proving::Released { instances, bytes },
            _ => Proving::Aborted,
        }
    }

    /// Starts to make a proof for these public inputs.
    pub fn start(instances: Vec<Vec<Fr>>) -> (proving: Proving)
        ensures
            proving == (Proving::Mock { instances }),
    {
        Proving::Mock { instances }
    }

    /// Goes on after `event`.
    pub fn step(self, event: ProvingEvent) -> (next: Proving)
        ensures
            next == self.after(event),
    {
        match (self, event) {
            (Proving::Mock { instances }, ProvingEvent::Mocked { satisfied }) => if satisfied {
                Proving::Create { instances }
            } else {
                Proving::Aborted
            },
            (Proving::Create { instances }, ProvingEvent::Created { bytes }) => match bytes {
                Some(bytes) => Proving::Verify { instances, bytes },
                None => Proving::Aborted,
            },
            (Proving::Verify { instances, bytes }, ProvingEvent::Verified { accepted }) =>
                match accepted {
                    Some(accepted) => if accepted {
                        Proving::Released { instances, bytes }
                    } else {
                        Proving::Aborted
                    },
                    None => Proving::Aborted,
                },
            (Proving::Released { instances, bytes }, _) => Proving::Released { instances, bytes },
            _ => Proving::Aborted,
        }
    }
}

/// Where the making of a proof for `instances` stands after `events`.
pub open spec fn proving_after(instances: Vec<Vec<Fr>>, events: Seq<ProvingEvent>) -> Proving
    decreases events.len(),
{
    if events.len() == 0 {
        Proving::Mock { instances }
    } else {
        proving_after(instances, events.drop_last()).after(events.last())
    }
}

/// A proof is given out exactly if the mock prover was satisfied, the prover then
/// made it, and the verifier then accepted it, and it is given out for the public
/// inputs that the making started with.
pub proof fn released_means_verified(
    instances: Vec<Vec<Fr>>,
    events: Seq<ProvingEvent>,
    released: Vec<Vec<Fr>>,
    bytes: Vec<u8>,
)
    ensures
        proving_after(instances, events) == (Proving::Released { instances: released, bytes }) <==> {
            &&& released == instances
            &&& events.len() >= 3
            &&& events[0] == (ProvingEvent::Mocked { satisfied: true })
            &&& events[1] == (ProvingEvent::Created { bytes: Some(bytes) })
            &&& events[2] == (ProvingEvent::Verified { accepted: Some(true) })
        },
{
    proving_traces(instances, events, bytes);
}

/// The states of the making by the events that lead to them. All are about the
/// public inputs that it started with.
proof fn proving_traces(instances: Vec<Vec<Fr>>, events: Seq<ProvingEvent>, bytes: Vec<u8>)
    ensures
        match proving_after(instances, events) {
            Proving::Mock { instances: about } => about == instances,
            Proving::Create { instances: about } => about == instances,
            Proving::Verify { instances: about, .. } => about == instances,
            Proving::Released { instances: about, .. } => about == instances,
            Proving::Aborted => true,
        },
        proving_after(instances, events) is Mock <==> events.len() == 0,
        proving_after(instances, events) is Create <==> events.len() == 1 && events[0]
            == (ProvingEvent::Mocked { satisfied: true }),
        proving_after(instances, events) == (Proving::Verify { instances, bytes }) <==> {
            &&& events.len() == 2
            &&& events[0] == (ProvingEvent::Mocked { satisfied: true })
            &&& events[1] == (ProvingEvent::Created { bytes: Some(bytes) })
        },
        proving_after(instances, events) == (Proving::Released { instances, bytes }) <==> {
            &&& events.len() >= 3
            &&& events[0] == (ProvingEvent::Mocked { satisfied: true })
            &&& events[1] == (ProvingEvent::Created { bytes: Some(bytes) })
            &&& events[2] == (ProvingEvent::Verified { accepted: Some(true) })
        },
    decreases events.len(),
{
    if events.len() > 0 {
        proving_traces(instances, events.drop_last(), bytes);
        assert(events.last() == events[events.len() - 1]);
    }
}

/// The provers and the verifier of one making: whether the mock prover is satisfied
/// with public inputs, what the prover makes for them, and whether the verifier
/// accepts a proof for them.
pub struct Provers {
    pub mock: spec_fn(Vec<Vec<Fr>>) -> bool,
    pub create: spec_fn(Vec<Vec<Fr>>) -> Option<Vec<u8>>,
    pub verify: spec_fn(Vec<Vec<Fr>>, Vec<u8>) -> Option<bool>,
}

impl Provers {
    /// What comes of doing what a state asks for, with the public inputs that it
    /// names. A state that asks for nothing stays as it is.
    pub open spec fn advance(self, proving: Proving) -> Proving {
        match proving {
            Proving::Mock { instances } => proving.after(
                ProvingEvent::Mocked { satisfied: (self.mock)(instances) },
            ),
            Proving::Create { instances } => proving.after(
                ProvingEvent::Created { bytes: (self.create)(instances) },
            ),
            Proving::Verify { instances, bytes } => proving.after(
                ProvingEvent::Verified { accepted: (self.verify)(instances, bytes) },
            ),
            _ => proving,
        }
    }

    /// What comes of making a proof for `instances`.
    pub open spec fn outcome(self, instances: Vec<Vec<Fr>>) -> Proving {
        self.advance(self.advance(self.advance(Proving::Mock { instances })))
    }
}

/// Making a proof for `instances` ends after three steps. It gives out just the
/// proof that the prover made for them, and that exactly if the mock prover is
/// satisfied with them and the verifier accepts the proof for them.
pub proof fn given_out_for_own_inputs(provers: Provers, instances: Vec<Vec<Fr>>, bytes: Vec<u8>)
    ensures
        provers.outcome(instances) is Released || provers.outcome(instances) is Aborted,
        provers.outcome(instances) is Released ==> provers.outcome(instances)->Released_instances
            == instances,
        provers.outcome(instances) == (Proving::Released { instances, bytes }) <==> {
            &&& (provers.mock)(instances)
            &&& (provers.create)(instances) == Some(bytes)
            &&& (provers.verify)(instances, bytes) == Some(true)
        },
{
}

/// A making ends without a proof as soon as something else happens than that the mock
/// prover is satisfied, the prover makes a proof, and the verifier accepts it, in this
/// order.
pub proof fn anything_else_aborts(instances: Vec<Vec<Fr>>, bytes: Vec<u8>, event: ProvingEvent)
    ensures
        event != (ProvingEvent::Mocked { satisfied: true }) ==> (Proving::Mock {
            instances,
        }).after(event) is Aborted,
        !(event is Created && event->Created_bytes is Some) ==> (Proving::Create {
            instances,
        }).after(event) is Aborted,
        event != (ProvingEvent::Verified { accepted: Some(true) }) ==> (Proving::Verify {
            instances,
            bytes,
        }).after(event) is Aborted,
        Proving::Aborted.after(event) is Aborted,
        (Proving::Released { instances, bytes }).after(event) == (Proving::Released {
            instances,
            bytes,
        }),
{
}

} // verus!
