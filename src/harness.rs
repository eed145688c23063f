//! The decisions of a run: which mode it takes and how it moves through the
//! stages that the proving service performs.
use vstd::prelude::*;

verus! {

/// What a run does: execute the program only, or prove and verify it.
#[derive(Debug, Clone, Copy, PartialEq, Eq, Structural)]
pub enum Mode {
    Execute,
    Prove,
}

/// A run asked for no mode, or for both.
#[derive(Debug, Clone, Copy, PartialEq, Eq, Structural)]
pub enum ConfigError {
    NoModeSelected,
    BothModesSelected,
}

/// A piece of outside work within a run.
#[derive(Debug, Clone, Copy, PartialEq, Eq, Structural)]
pub enum Stage {
    /// Run the program without a proof.
    Execute,
    /// Derive the proving and verifying keys.
    Setup,
    /// Generate the proof.
    Prove,
    /// Check the proof against the verifying key.
    Verify,
}

/// Where a run stands.
#[derive(Debug, Clone, Copy, PartialEq, Eq, Structural)]
pub enum RunState {
    Idle,
    Running(Stage),
    Succeeded,
    Failed(Stage),
}

/// Picks the mode from the two flags; exactly one of them must be set.
pub fn select_mode(execute: bool, prove: bool) -> (r: Result<Mode, ConfigError>)
    ensures
        execute && !prove <==> r == Ok::<Mode, ConfigError>(Mode::Execute),
        prove && !execute <==> r == Ok::<Mode, ConfigError>(Mode::Prove),
        !execute && !prove <==> r == Err::<Mode, ConfigError>(ConfigError::NoModeSelected),
        execute && prove <==> r == Err::<Mode, ConfigError>(ConfigError::BothModesSelected),
{
    if execute && prove {
        Err(ConfigError::BothModesSelected)
    } else if execute {
        Ok(Mode::Execute)
    } else if prove {
        Ok(Mode::Prove)
    } else {
        Err(ConfigError::NoModeSelected)
    }
}

/// The stage a run in `mode` begins with.
pub open spec fn first_stage(mode: Mode) -> Stage {
    match mode {
        Mode::Execute => Stage::Execute,
        Mode::Prove => Stage::Setup,
    }
}

/// The stage that follows a successful `stage`, if any.
pub open spec fn stage_after(stage: Stage) -> Option<Stage> {
    match stage {
        Stage::Setup => Some(Stage::Prove),
        Stage::Prove => Some(Stage::Verify),
        Stage::Execute | Stage::Verify => None,
    }
}

/// Where a run goes once the running stage reports success (`ok`) or failure.
pub open spec fn next_state_spec(state: RunState, ok: bool) -> RunState {
    match state {
        RunState::Running(stage) => if !ok {
            RunState::Failed(stage)
        } else {
            match stage_after(stage) {
                Some(next) => RunState::Running(next),
                None => RunState::Succeeded,
            }
        },
        other => other,
    }
}

/// Leaves the idle state for the first stage of `mode`.
pub fn start(mode: Mode) -> (r: RunState)
    ensures
        r == RunState::Running(first_stage(mode)),
{
    match mode {
        Mode::Execute => RunState::Running(Stage::Execute),
        Mode::Prove => RunState::Running(Stage::Setup),
    }
}

/// Moves a run on after its running stage reported success (`ok`) or failure.
/// A failure ends the run at that stage; proving succeeds only once setup,
/// proving and verifying have all succeeded. A finished or idle run stays put.
pub fn advance(state: RunState, ok: bool) -> (r: RunState)
    ensures
        r == next_state_spec(state, ok),
{
    match state {
        RunState::Running(stage) => {
            if !ok {
                RunState::Failed(stage)
            } else {
                match stage {
                    Stage::Setup => RunState::Running(Stage::Prove),
                    Stage::Prove => RunState::Running(Stage::Verify),
                    Stage::Execute | Stage::Verify => RunState::Succeeded,
                }
            }
        },
        other => other,
    }
}

} // verus!
