//! The counting abstraction of the hysteresis state machine.
//!
//! [`StateModel`] is the alarm state with episode identifiers and timestamps
//! stripped: only the debounce and repeat counters, and the shadowed state of
//! an error episode, remain. The three step functions below are the exact
//! update rules the engine follows; the engine's executable update functions
//! are proved to move the abstraction of their state along these functions.

use vstd::prelude::*;

verus! {

/// The four hysteresis thresholds of one alarm.
///
/// `cycles` consecutive bad verdicts raise the alarm and `recover_cycles`
/// consecutive good verdicts clear it; both must be at least one. A
/// `repeat_cycles` (or, while erroring, `error_repeat_cycles`) of zero
/// disables re-notification.
pub struct AlarmCfg {
    pub cycles: u32,
    pub repeat_cycles: u32,
    pub recover_cycles: u32,
    pub error_repeat_cycles: u32,
}

/// An alarm state reduced to its counters.
///
/// `Good` counts consecutive bad verdicts that have not yet reached
/// `cycles`; `Bad` counts bad verdicts since the last (re-)trigger and good
/// verdicts towards recovery; `Error` counts consecutive classification
/// errors and keeps the state that was active before the first error.
pub enum StateModel {
    Good { bad_cycles: u32 },
    Bad { cycles: u32, good_cycles: u32 },
    Error { cycles: u32, shadow: Box<StateModel> },
}

/// The state of a freshly constructed alarm.
pub open spec fn init_model() -> StateModel {
    StateModel::Good { bad_cycles: 0 }
}

/// Increment that stops at the counter's largest value instead of wrapping.
/// Only counters whose threshold is disabled (zero or one) can ever reach it.
pub open spec fn inc_sat(x: u32) -> u32 {
    if x == u32::MAX {
        x
    } else {
        (x + 1) as u32
    }
}

/// Counters a state may legally hold under `cfg`: progress counters stay
/// strictly below their threshold, episode counters start at one, and an
/// error episode always shadows a non-error state.
pub open spec fn model_wf(cfg: AlarmCfg, m: StateModel) -> bool
    decreases m,
{
    match m {
        StateModel::Good { bad_cycles } => bad_cycles < cfg.cycles,
        StateModel::Bad { cycles, good_cycles } => cycles >= 1 && good_cycles
            < cfg.recover_cycles,
        StateModel::Error { cycles, shadow } => cycles >= 1 && !(*shadow is Error)
            && model_wf(cfg, *shadow),
    }
}

/// One bad verdict. Progress below the raise threshold only counts; while
/// bad, re-notification fires each time the count reaches `repeat_cycles`;
/// while erroring, the shadowed state takes the step instead.
pub open spec fn bad_step(cfg: AlarmCfg, m: StateModel) -> (StateModel, bool)
    decreases m,
{
    match m {
        StateModel::Good { bad_cycles } => if bad_cycles + 1 == cfg.cycles {
            ((StateModel::Bad { cycles: 1, good_cycles: 0 }), true)
        } else {
            ((StateModel::Good { bad_cycles: inc_sat(bad_cycles) }), false)
        },
        StateModel::Bad { cycles, good_cycles } => if cycles + 1 == cfg.repeat_cycles {
            ((StateModel::Bad { cycles: 1, good_cycles: 0 }), true)
        } else {
            ((StateModel::Bad { cycles: inc_sat(cycles), good_cycles: 0 }), false)
        },
        StateModel::Error { cycles, shadow } => bad_step(cfg, *shadow),
    }
}

/// One good verdict. Nothing changes while good; while bad, only recovery
/// progress advances — the count of consecutive bad verdicts is left as it
/// stands — and recovery fires when that progress reaches `recover_cycles`;
/// while erroring, the shadowed state takes the *bad* step instead, an
/// asymmetry kept deliberately.
pub open spec fn good_step(cfg: AlarmCfg, m: StateModel) -> (StateModel, bool)
    decreases m,
{
    match m {
        StateModel::Good { bad_cycles } => (m, false),
        StateModel::Bad { cycles, good_cycles } => if good_cycles + 1 == cfg.recover_cycles {
            ((StateModel::Good { bad_cycles: 0 }), true)
        } else {
            ((StateModel::Bad { cycles, good_cycles: inc_sat(good_cycles) }), false)
        },
        StateModel::Error { cycles, shadow } => bad_step(cfg, *shadow),
    }
}

/// One classification error: enter an error episode (shadowing the current
/// state) with an immediate trigger, or re-trigger every
/// `error_repeat_cycles` while one is running.
pub open spec fn error_step(cfg: AlarmCfg, m: StateModel) -> (StateModel, bool)
    decreases m,
{
    match m {
        StateModel::Error { cycles, shadow } => if cycles + 1 == cfg.error_repeat_cycles {
            ((StateModel::Error { cycles: 1, shadow }), true)
        } else {
            ((StateModel::Error { cycles: inc_sat(cycles), shadow }), false)
        },
        _ => ((StateModel::Error { cycles: 1, shadow: Box::new(m) }), true),
    }
}

/// Well-formedness is preserved by every step, provided both raise/recover
/// thresholds are enabled.
pub proof fn lemma_steps_preserve_wf(cfg: AlarmCfg, m: StateModel)
    requires
        cfg.cycles >= 1,
        cfg.recover_cycles >= 1,
        model_wf(cfg, m),
    ensures
        model_wf(cfg, bad_step(cfg, m).0),
        model_wf(cfg, good_step(cfg, m).0),
        model_wf(cfg, error_step(cfg, m).0),
    decreases m,
{
    match m {
        StateModel::Error { cycles, shadow } => {
            lemma_steps_preserve_wf(cfg, *shadow);
        },
        _ => {},
    }
}

} // verus!
