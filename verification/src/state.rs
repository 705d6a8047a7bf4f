use vstd::prelude::*;

verus! {

/// Observable state of the dictation pipeline.
#[derive(Clone, Copy, Debug, PartialEq, Eq, Structural)]
pub enum AppState {
    Idle,
    Recording,
    Transcribing,
    Injecting,
    Error,
}

/// Events that drive the pipeline from one state to the next.
#[derive(Clone, Copy, Debug, PartialEq, Eq, Structural)]
pub enum Transition {
    StartRecording,
    StopRecording,
    TranscriptionDone,
    InjectionDone,
    Fail,
    Reset,
}

/// The transition function: the four pipeline steps advance in order,
/// `Fail` always leads to `Error`, `Reset` always leads to `Idle`, and any
/// other pair leaves the state as it is.
pub open spec fn next_state(s: AppState, t: Transition) -> AppState {
    match (s, t) {
        (AppState::Idle, Transition::StartRecording) => AppState::Recording,
        (AppState::Recording, Transition::StopRecording) => AppState::Transcribing,
        (AppState::Transcribing, Transition::TranscriptionDone) => AppState::Injecting,
        (AppState::Injecting, Transition::InjectionDone) => AppState::Idle,
        (_, Transition::Fail) => AppState::Error,
        (_, Transition::Reset) => AppState::Idle,
        (s, _) => s,
    }
}

impl AppState {
    pub fn apply(self, t: Transition) -> (r: AppState)
        ensures
            r == next_state(self, t),
    {
        match (self, t) {
            (AppState::Idle, Transition::StartRecording) => AppState::Recording,
            (AppState::Recording, Transition::StopRecording) => AppState::Transcribing,
            (AppState::Transcribing, Transition::TranscriptionDone) => AppState::Injecting,
            (AppState::Injecting, Transition::InjectionDone) => AppState::Idle,
            (_, Transition::Fail) => AppState::Error,
            (_, Transition::Reset) => AppState::Idle,
            (s, _) => s,
        }
    }
}

/// A failure moves every state to `Error`.
pub proof fn lemma_fail_from_any_state(s: AppState)
    ensures
        next_state(s, Transition::Fail) == AppState::Error,
{
}

/// A reset moves every state back to `Idle`.
pub proof fn lemma_reset_from_any_state(s: AppState)
    ensures
        next_state(s, Transition::Reset) == AppState::Idle,
{
}

/// Once in `Error`, only `Reset` leaves it.
pub proof fn lemma_error_is_left_only_by_reset(t: Transition)
    ensures
        t != Transition::Reset ==> next_state(AppState::Error, t) == AppState::Error,
{
}

/// A transition that is neither a step of the pipeline in its own state,
/// nor `Fail`, nor `Reset`, changes nothing.
pub proof fn lemma_out_of_order_transition_is_noop(s: AppState, t: Transition)
    requires
        t != Transition::Fail,
        t != Transition::Reset,
        !(s == AppState::Idle && t == Transition::StartRecording),
        !(s == AppState::Recording && t == Transition::StopRecording),
        !(s == AppState::Transcribing && t == Transition::TranscriptionDone),
        !(s == AppState::Injecting && t == Transition::InjectionDone),
    ensures
        next_state(s, t) == s,
{
}


/// Each of the four pipeline steps advances its own state, in the cycle
/// `Idle` → `Recording` → `Transcribing` → `Injecting` → `Idle`; so running
/// the four steps in order from `Idle` visits every working state once and
/// ends `Idle`.
pub proof fn lemma_steps_advance_the_cycle()
    ensures
        next_state(AppState::Idle, Transition::StartRecording) == AppState::Recording,
        next_state(AppState::Recording, Transition::StopRecording) == AppState::Transcribing,
        next_state(AppState::Transcribing, Transition::TranscriptionDone) == AppState::Injecting,
        next_state(AppState::Injecting, Transition::InjectionDone) == AppState::Idle,
        forall|s: AppState, t: Transition|
            next_state(s, t) != s ==> {
                ||| t == Transition::Fail
                ||| t == Transition::Reset
                ||| (s == AppState::Idle && t == Transition::StartRecording)
                ||| (s == AppState::Recording && t == Transition::StopRecording)
                ||| (s == AppState::Transcribing && t == Transition::TranscriptionDone)
                ||| (s == AppState::Injecting && t == Transition::InjectionDone)
            },
{
}

} // verus!
