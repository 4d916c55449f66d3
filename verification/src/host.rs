//! The orchestration protocol shared by every data-availability backend:
//! the lifecycle of one run (allocate channels, start the preimage
//! server, run the witness generator, unconditionally abort the server,
//! return), and the DA-specific decisions that bound a proving range.

use vstd::prelude::*;

verus! {

/// The lifecycle stage of one orchestration run.
#[derive(Clone, Copy, Debug, PartialEq, Eq, Structural)]
pub enum RunStage {
    /// Nothing has happened yet.
    Init,
    /// Both channel pairs exist; no task has started.
    ChannelsAllocated,
    /// The preimage server task is running on the host halves.
    ServerStarted,
    /// The witness generator finished, with or without a witness; the
    /// server task has not yet been aborted.
    WitnessDone { witness_ok: bool },
    /// The server task has been aborted; the run's result may now be
    /// returned.
    Returned { witness_ok: bool },
    /// Channel allocation or server start failed; no client-side work
    /// ever began.
    SetupFailed,
}

/// An event the orchestration loop observes.
#[derive(Clone, Copy, Debug, PartialEq, Eq, Structural)]
pub enum RunEvent {
    ChannelsOk,
    ChannelsFailed,
    ServerOk,
    ServerFailed,
    WitnessOk,
    WitnessFailed,
    /// The forced cancellation of the server task has been issued.
    ServerAborted,
}

/// The action the loop must perform after a step.
#[derive(Clone, Copy, Debug, PartialEq, Eq, Structural)]
pub enum RunAction {
    StartServer,
    RunWitness,
    /// Forcibly cancel the server task; never wait for it to finish on
    /// its own.
    AbortServer,
    ReturnWitness,
    ReturnWitnessError,
    ReturnSetupError,
}

/// The transition relation of one run: from a stage and an observed
/// event to the next stage and the action owed, or nothing for a pair
/// the protocol never produces.
pub open spec fn spec_run_step(s: RunStage, e: RunEvent) -> Option<(RunStage, RunAction)> {
    match (s, e) {
        (RunStage::Init, RunEvent::ChannelsOk) => Some(
            (RunStage::ChannelsAllocated, RunAction::StartServer),
        ),
        (RunStage::Init, RunEvent::ChannelsFailed) => Some(
            (RunStage::SetupFailed, RunAction::ReturnSetupError),
        ),
        (RunStage::ChannelsAllocated, RunEvent::ServerOk) => Some(
            (RunStage::ServerStarted, RunAction::RunWitness),
        ),
        (RunStage::ChannelsAllocated, RunEvent::ServerFailed) => Some(
            (RunStage::SetupFailed, RunAction::ReturnSetupError),
        ),
        (RunStage::ServerStarted, RunEvent::WitnessOk) => Some(
            (RunStage::WitnessDone { witness_ok: true }, RunAction::AbortServer),
        ),
        (RunStage::ServerStarted, RunEvent::WitnessFailed) => Some(
            (RunStage::WitnessDone { witness_ok: false }, RunAction::AbortServer),
        ),
        (RunStage::WitnessDone { witness_ok }, RunEvent::ServerAborted) => Some(
            (
                RunStage::Returned { witness_ok },
                if witness_ok {
                    RunAction::ReturnWitness
                } else {
                    RunAction::ReturnWitnessError
                },
            ),
        ),
        _ => None,
    }
}

/// One step of the orchestration loop.
pub fn run_step(s: RunStage, e: RunEvent) -> (r: Option<(RunStage, RunAction)>)
    ensures
        r == spec_run_step(s, e),
{
    match (s, e) {
        (RunStage::Init, RunEvent::ChannelsOk) => Some(
            (RunStage::ChannelsAllocated, RunAction::StartServer),
        ),
        (RunStage::Init, RunEvent::ChannelsFailed) => Some(
            (RunStage::SetupFailed, RunAction::ReturnSetupError),
        ),
        (RunStage::ChannelsAllocated, RunEvent::ServerOk) => Some(
            (RunStage::ServerStarted, RunAction::RunWitness),
        ),
        (RunStage::ChannelsAllocated, RunEvent::ServerFailed) => Some(
            (RunStage::SetupFailed, RunAction::ReturnSetupError),
        ),
        (RunStage::ServerStarted, RunEvent::WitnessOk) => Some(
            (RunStage::WitnessDone { witness_ok: true }, RunAction::AbortServer),
        ),
        (RunStage::ServerStarted, RunEvent::WitnessFailed) => Some(
            (RunStage::WitnessDone { witness_ok: false }, RunAction::AbortServer),
        ),
        (RunStage::WitnessDone { witness_ok }, RunEvent::ServerAborted) => Some(
            (
                RunStage::Returned { witness_ok },
                if witness_ok {
                    RunAction::ReturnWitness
                } else {
                    RunAction::ReturnWitnessError
                },
            ),
        ),
        _ => None,
    }
}

/// The stage a run reaches after a sequence of events, starting at
/// [`RunStage::Init`]; `None` if any pair was outside the protocol.
pub open spec fn run_trace(events: Seq<RunEvent>) -> Option<RunStage>
    decreases events.len(),
{
    if events.len() == 0 {
        Some(RunStage::Init)
    } else {
        match run_trace(events.drop_last()) {
            None => None,
            Some(s) => match spec_run_step(s, events.last()) {
                None => None,
                Some(p) => Some(p.0),
            },
        }
    }
}

/// Leaving the witness phase always demands the forced server abort,
/// whether the witness generator succeeded or failed.
pub proof fn lemma_abort_unconditional(e: RunEvent)
    requires
        e == RunEvent::WitnessOk || e == RunEvent::WitnessFailed,
    ensures
        spec_run_step(RunStage::ServerStarted, e).is_some(),
        spec_run_step(RunStage::ServerStarted, e).unwrap().1 == RunAction::AbortServer,
{
}

/// Cancellation guarantee: every run that returns a result — success or
/// failure alike — issued the forced server abort first. The final event
/// confirms the abort, the step before it is the one out of the witness
/// phase, and that step's action is the abort itself.
pub proof fn lemma_cancellation_guarantee(events: Seq<RunEvent>, witness_ok: bool)
    requires
        run_trace(events) == Some(RunStage::Returned { witness_ok }),
    ensures
        events.len() >= 2,
        events.last() == RunEvent::ServerAborted,
        run_trace(events.drop_last()) == Some(RunStage::WitnessDone { witness_ok }),
        run_trace(events.drop_last().drop_last()) == Some(RunStage::ServerStarted),
        spec_run_step(RunStage::ServerStarted, events.drop_last().last()).unwrap().1
            == RunAction::AbortServer,
{
    let prev = run_trace(events.drop_last());
    assert(events.len() >= 1);
    assert(prev.is_some());
    let s = prev.unwrap();
    assert(spec_run_step(s, events.last()).unwrap().0 == RunStage::Returned { witness_ok });
    assert(s == RunStage::WitnessDone { witness_ok } && events.last() == RunEvent::ServerAborted);
    let shorter = events.drop_last();
    assert(shorter.len() >= 1);
    let prev2 = run_trace(shorter.drop_last());
    assert(prev2.is_some());
    let s2 = prev2.unwrap();
    assert(spec_run_step(s2, shorter.last()).unwrap().0 == RunStage::WitnessDone { witness_ok });
    assert(s2 == RunStage::ServerStarted);
    assert(shorter.last() == RunEvent::WitnessOk || shorter.last() == RunEvent::WitnessFailed);
}

/// The highest provable L2 height on a directly L1-anchored backend:
/// simply the chain's finalized L2 height, absent when the chain has
/// none yet.
pub fn single_chain_finalized_l2_block_number(finalized_l2: Option<u64>) -> (r: Option<u64>)
    ensures
        r == finalized_l2,
{
    finalized_l2
}

/// The highest provable L2 height on a blob-DA-backed backend: bounded
/// by the height covered by the latest confirmed DA commitment, absent
/// while the DA bridge has confirmed nothing; never beyond the latest
/// block the host has processed.
pub fn da_backed_finalized_l2_block_number(
    latest_commitment_l2: Option<u64>,
    latest_proposed_block_number: u64,
) -> (r: Option<u64>)
    ensures
        latest_commitment_l2.is_none() ==> r.is_none(),
        latest_commitment_l2 matches Some(c) ==> r == Some(
            if c <= latest_proposed_block_number {
                c
            } else {
                latest_proposed_block_number
            },
        ),
        r matches Some(v) ==> v <= latest_commitment_l2.unwrap(),
        r matches Some(v) ==> v <= latest_proposed_block_number,
{
    match latest_commitment_l2 {
        None => None,
        Some(c) => if c <= latest_proposed_block_number {
            Some(c)
        } else {
            Some(latest_proposed_block_number)
        },
    }
}

/// Why a safe L1 head could not be resolved.
#[derive(Clone, Copy, Debug, PartialEq, Eq, Structural)]
pub enum SafeHeadError {
    /// The authoritative safe-head index is unavailable and the caller
    /// forbade the timestamp-based fallback.
    SafeDbUnavailable,
}

/// A resolved safe L1 head, carrying whether the degraded fallback path
/// produced it: fallback activation is observable, never silent.
#[derive(Clone, Copy, Debug, PartialEq, Eq, Structural)]
pub struct SafeHeadResolution {
    pub l1_block_number: u64,
    pub used_fallback: bool,
}

/// Chooses the L1 head for a directly L1-anchored backend: the
/// authoritative safe head when the index has one, the timestamp-based
/// estimate when the caller allowed the fallback, and an error
/// otherwise.
pub fn resolve_safe_l1_head(
    authoritative_safe_l1: Option<u64>,
    estimated_safe_l1: u64,
    safe_db_fallback: bool,
) -> (r: Result<SafeHeadResolution, SafeHeadError>)
    ensures
        authoritative_safe_l1 matches Some(h) ==> r == Ok::<SafeHeadResolution, SafeHeadError>(
            SafeHeadResolution { l1_block_number: h, used_fallback: false },
        ),
        authoritative_safe_l1.is_none() && safe_db_fallback ==> r == Ok::<
            SafeHeadResolution,
            SafeHeadError,
        >(SafeHeadResolution { l1_block_number: estimated_safe_l1, used_fallback: true }),
        authoritative_safe_l1.is_none() && !safe_db_fallback ==> r == Err::<
            SafeHeadResolution,
            SafeHeadError,
        >(SafeHeadError::SafeDbUnavailable),
{
    match authoritative_safe_l1 {
        Some(h) => Ok(SafeHeadResolution { l1_block_number: h, used_fallback: false }),
        None => if safe_db_fallback {
            Ok(SafeHeadResolution { l1_block_number: estimated_safe_l1, used_fallback: true })
        } else {
            Err(SafeHeadError::SafeDbUnavailable)
        },
    }
}

/// Chooses the L1 head for a blob-DA-backed range: never before the L1
/// height at which the range's data was committed to the DA layer, so a
/// third party relying solely on DA contents can verify the witness.
pub fn da_backed_safe_l1_block(
    candidate_l1_block: u64,
    commitment_inclusion_l1_block: u64,
) -> (r: u64)
    ensures
        r >= commitment_inclusion_l1_block,
        r >= candidate_l1_block,
        r == candidate_l1_block || r == commitment_inclusion_l1_block,
{
    if candidate_l1_block >= commitment_inclusion_l1_block {
        candidate_l1_block
    } else {
        commitment_inclusion_l1_block
    }
}

} // verus!
