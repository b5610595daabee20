use vstd::prelude::*;
use crate::focus::WindowSnapshot;

verus! {

/// A message from the filter instance to its worker.
#[derive(Clone, Copy, Debug, PartialEq, Eq, Structural)]
pub enum ControlMessage {
    CloseConnection,
}

/// What the worker does after one wait: the snapshot to send on, if any, and
/// whether to end.
#[derive(Clone, Copy, Debug, PartialEq, Eq, Structural)]
pub struct WorkerStep {
    pub forward: Option<WindowSnapshot>,
    pub stop: bool,
}

/// Whether a drained run of control messages asks the worker to end.
pub open spec fn requests_close(controls: Seq<ControlMessage>) -> bool {
    exists|i: int| 0 <= i < controls.len() && controls[i] == ControlMessage::CloseConnection
}

/// The worker forwards what it observed, then ends if it was asked to.
pub open spec fn step_of(event: Option<WindowSnapshot>, controls: Seq<ControlMessage>) -> WorkerStep {
    WorkerStep { forward: event, stop: requests_close(controls) }
}

/// Decides one round of the worker, given the result of its wait for a window
/// event and the control messages drained after it.
pub fn worker_step(event: Option<WindowSnapshot>, controls: &Vec<ControlMessage>) -> (r: WorkerStep)
    ensures
        r == step_of(event, controls@),
{
    let mut stop = false;
    let mut i: usize = 0;
    while i < controls.len()
        invariant
            i <= controls@.len(),
            stop <==> requests_close(controls@.take(i as int)),
        decreases controls@.len() - i,
    {
        match controls[i] {
            ControlMessage::CloseConnection => {
                stop = true;
            },
        }
        proof {
            assert(controls@.take(i + 1)[i as int] == controls@[i as int]);
            if requests_close(controls@.take(i as int)) {
                let j = choose|j: int| 0 <= j < i && controls@.take(i as int)[j] == ControlMessage::CloseConnection;
                assert(controls@.take(i + 1)[j] == ControlMessage::CloseConnection);
            }
        }
        i = i + 1;
    }
    proof {
        assert(controls@.take(i as int) =~= controls@);
    }
    WorkerStep { forward: event, stop }
}

/// The snapshots that a worker sends when its rounds observe `events` and drain
/// `controls`, round by round, up to and including the round that ends it.
pub open spec fn forwarded(events: Seq<Option<WindowSnapshot>>, controls: Seq<Seq<ControlMessage>>) -> Seq<WindowSnapshot>
    decreases events.len(),
{
    if events.len() == 0 || controls.len() == 0 {
        seq![]
    } else {
        let step = step_of(events[0], controls[0]);
        let sent = match step.forward {
            Some(s) => seq![s],
            None => seq![],
        };
        if step.stop {
            sent
        } else {
            sent + forwarded(events.drop_first(), controls.drop_first())
        }
    }
}

/// Once a round has drained a close request, the worker sends nothing more:
/// whatever later rounds would observe, the snapshots sent are those of the
/// rounds up to that one.
pub proof fn lemma_nothing_after_close(
    events: Seq<Option<WindowSnapshot>>,
    controls: Seq<Seq<ControlMessage>>,
    k: int,
)
    requires
        0 <= k < events.len(),
        k < controls.len(),
        requests_close(controls[k]),
    ensures
        forwarded(events, controls) == forwarded(events.take(k + 1), controls.take(k + 1)),
    decreases k,
{
    if k > 0 {
        lemma_nothing_after_close(events.drop_first(), controls.drop_first(), k - 1);
        assert(events.drop_first().take(k) =~= events.take(k + 1).drop_first());
        assert(controls.drop_first().take(k) =~= controls.take(k + 1).drop_first());
    }
}

/// Where the teardown of a worker stands.
#[derive(Clone, Copy, Debug, PartialEq, Eq, Structural)]
pub enum BridgePhase {
    /// The worker runs and may send snapshots.
    Running,
    /// The close request was sent; the worker has not been joined yet.
    Closing,
    /// The worker was joined: it has ended and sends nothing more.
    Stopped,
}

/// A teardown step taken out of order: a second close request or a second join.
#[derive(Clone, Copy, Debug, PartialEq, Eq, Structural)]
pub enum TeardownMisuse {
    CloseTwice,
    JoinOutOfOrder,
}

/// The lifecycle of one worker: one close request, then one join.
#[derive(Clone, Copy, Debug, PartialEq, Eq, Structural)]
pub struct BridgeLifecycle {
    pub phase: BridgePhase,
}

impl BridgeLifecycle {
    /// A worker that has just been started.
    pub fn started() -> (r: BridgeLifecycle)
        ensures
            r.phase == BridgePhase::Running,
    {
        BridgeLifecycle { phase: BridgePhase::Running }
    }

    /// Records the close request; allowed once, while the worker runs.
    pub fn close(&mut self) -> (r: Result<(), TeardownMisuse>)
        ensures
            r is Ok <==> old(self).phase == BridgePhase::Running,
            r is Ok ==> final(self).phase == BridgePhase::Closing,
            r is Err ==> r == Err::<(), TeardownMisuse>(TeardownMisuse::CloseTwice) && *final(self) == *old(self),
    {
        match self.phase {
            BridgePhase::Running => {
                self.phase = BridgePhase::Closing;
                Ok(())
            },
            _ => Err(TeardownMisuse::CloseTwice),
        }
    }

    /// Records the join; allowed once, after the close request.
    pub fn joined(&mut self) -> (r: Result<(), TeardownMisuse>)
        ensures
            r is Ok <==> old(self).phase == BridgePhase::Closing,
            r is Ok ==> final(self).phase == BridgePhase::Stopped,
            r is Err ==> r == Err::<(), TeardownMisuse>(TeardownMisuse::JoinOutOfOrder) && *final(self) == *old(self),
    {
        match self.phase {
            BridgePhase::Closing => {
                self.phase = BridgePhase::Stopped;
                Ok(())
            },
            _ => Err(TeardownMisuse::JoinOutOfOrder),
        }
    }

    /// Whether snapshots may still arrive from the worker.
    pub fn may_deliver(&self) -> (r: bool)
        ensures
            r == (self.phase != BridgePhase::Stopped),
    {
        match self.phase {
            BridgePhase::Stopped => false,
            _ => true,
        }
    }
}

} // verus!
