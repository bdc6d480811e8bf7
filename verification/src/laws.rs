//! The hysteresis guarantees, proved over the counting model.
//!
//! Each proof function below states one guarantee of the state machine over
//! runs of consecutive verdicts or errors, in terms of the step functions of
//! [`crate::model`]; the engine's update functions are proved to follow
//! exactly those step functions.

use crate::decision::SinkDecision;
use crate::model::AlarmCfg;
use crate::model::StateModel;
use crate::model::bad_step;
use crate::model::error_step;
use crate::model::good_step;
use crate::model::init_model;
use vstd::prelude::*;

verus! {

/// The state after `n` consecutive bad verdicts.
pub open spec fn run_bads(cfg: AlarmCfg, m: StateModel, n: nat) -> StateModel
    decreases n,
{
    if n == 0 {
        m
    } else {
        bad_step(cfg, run_bads(cfg, m, (n - 1) as nat)).0
    }
}

/// How many of `n` consecutive bad verdicts trigger.
pub open spec fn count_bads(cfg: AlarmCfg, m: StateModel, n: nat) -> nat
    decreases n,
{
    if n == 0 {
        0
    } else {
        count_bads(cfg, m, (n - 1) as nat) + (if bad_step(
            cfg,
            run_bads(cfg, m, (n - 1) as nat),
        ).1 {
            1nat
        } else {
            0nat
        })
    }
}

/// The state after `n` consecutive good verdicts.
pub open spec fn run_goods(cfg: AlarmCfg, m: StateModel, n: nat) -> StateModel
    decreases n,
{
    if n == 0 {
        m
    } else {
        good_step(cfg, run_goods(cfg, m, (n - 1) as nat)).0
    }
}

/// How many of `n` consecutive good verdicts trigger.
pub open spec fn count_goods(cfg: AlarmCfg, m: StateModel, n: nat) -> nat
    decreases n,
{
    if n == 0 {
        0
    } else {
        count_goods(cfg, m, (n - 1) as nat) + (if good_step(
            cfg,
            run_goods(cfg, m, (n - 1) as nat),
        ).1 {
            1nat
        } else {
            0nat
        })
    }
}

/// The state after `n` consecutive classification errors.
pub open spec fn run_errors(cfg: AlarmCfg, m: StateModel, n: nat) -> StateModel
    decreases n,
{
    if n == 0 {
        m
    } else {
        error_step(cfg, run_errors(cfg, m, (n - 1) as nat)).0
    }
}

/// How many of `n` consecutive classification errors trigger.
pub open spec fn count_errors(cfg: AlarmCfg, m: StateModel, n: nat) -> nat
    decreases n,
{
    if n == 0 {
        0
    } else {
        count_errors(cfg, m, (n - 1) as nat) + (if error_step(
            cfg,
            run_errors(cfg, m, (n - 1) as nat),
        ).1 {
            1nat
        } else {
            0nat
        })
    }
}

/// From the fresh good state, fewer than `cycles` consecutive bad verdicts
/// never trigger: the alarm only counts.
pub proof fn lemma_raise_debounce(cfg: AlarmCfg, n: nat)
    requires
        1 <= cfg.cycles,
        n < cfg.cycles,
    ensures
        run_bads(cfg, init_model(), n) == (StateModel::Good { bad_cycles: n as u32 }),
        count_bads(cfg, init_model(), n) == 0,
    decreases n,
{
    if n > 0 {
        lemma_raise_debounce(cfg, (n - 1) as nat);
    }
}

/// The `cycles`-th consecutive bad verdict from the fresh good state
/// triggers, exactly once over the whole run, and moves to the bad state.
pub proof fn lemma_raise_fires(cfg: AlarmCfg)
    requires
        1 <= cfg.cycles,
    ensures
        bad_step(cfg, run_bads(cfg, init_model(), (cfg.cycles - 1) as nat)).1,
        run_bads(cfg, init_model(), cfg.cycles as nat) == (StateModel::Bad {
            cycles: 1,
            good_cycles: 0,
        }),
        count_bads(cfg, init_model(), cfg.cycles as nat) == 1,
{
    lemma_raise_debounce(cfg, (cfg.cycles - 1) as nat);
}

/// With `repeat_cycles` zero, no run of bad verdicts from a bad state ever
/// re-triggers, however long.
pub proof fn lemma_repeat_disabled(cfg: AlarmCfg, c0: u32, g0: u32, n: nat)
    requires
        cfg.repeat_cycles == 0,
    ensures
        count_bads(cfg, (StateModel::Bad { cycles: c0, good_cycles: g0 }), n) == 0,
        run_bads(cfg, (StateModel::Bad { cycles: c0, good_cycles: g0 }), n) is Bad,
    decreases n,
{
    if n > 0 {
        lemma_repeat_disabled(cfg, c0, g0, (n - 1) as nat);
    }
}

/// With `repeat_cycles` at least two, a fresh bad episode re-triggers for
/// the first time on the bad verdict that brings its count back to
/// `repeat_cycles` (counting the triggering verdict itself as the first),
/// and the state then reads exactly as at the episode's start, so the same
/// interval repeats.
pub proof fn lemma_repeat_period(cfg: AlarmCfg, n: nat)
    requires
        cfg.repeat_cycles >= 2,
        n <= cfg.repeat_cycles - 1,
    ensures
        n < cfg.repeat_cycles - 1 ==> run_bads(
            cfg,
            (StateModel::Bad { cycles: 1, good_cycles: 0 }),
            n,
        ) == (StateModel::Bad { cycles: (n + 1) as u32, good_cycles: 0 }) && count_bads(
            cfg,
            (StateModel::Bad { cycles: 1, good_cycles: 0 }),
            n,
        ) == 0,
        n == cfg.repeat_cycles - 1 ==> run_bads(
            cfg,
            (StateModel::Bad { cycles: 1, good_cycles: 0 }),
            n,
        ) == (StateModel::Bad { cycles: 1, good_cycles: 0 }) && count_bads(
            cfg,
            (StateModel::Bad { cycles: 1, good_cycles: 0 }),
            n,
        ) == 1,
    decreases n,
{
    if n > 0 {
        lemma_repeat_period(cfg, (n - 1) as nat);
    }
}

/// Fewer than `recover_cycles` consecutive good verdicts against a bad
/// episode never trigger: only recovery progress counts up, and the count
/// of bad verdicts stands untouched.
pub proof fn lemma_recovery_progress(cfg: AlarmCfg, c0: u32, n: nat)
    requires
        1 <= cfg.recover_cycles,
        n < cfg.recover_cycles,
    ensures
        run_goods(cfg, (StateModel::Bad { cycles: c0, good_cycles: 0 }), n) == (StateModel::Bad {
            cycles: c0,
            good_cycles: n as u32,
        }),
        count_goods(cfg, (StateModel::Bad { cycles: c0, good_cycles: 0 }), n) == 0,
    decreases n,
{
    if n > 0 {
        lemma_recovery_progress(cfg, c0, (n - 1) as nat);
    }
}

/// A good verdict that does not complete recovery leaves the count of bad
/// verdicts since the last (re-)trigger exactly as it stands, so interleaved
/// good verdicts never advance or disturb the re-notification interval.
pub proof fn lemma_good_keeps_bad_count(cfg: AlarmCfg, c: u32, g: u32)
    requires
        g + 1 != cfg.recover_cycles,
    ensures
        !good_step(cfg, (StateModel::Bad { cycles: c, good_cycles: g })).1,
        good_step(cfg, (StateModel::Bad { cycles: c, good_cycles: g })).0 matches StateModel::Bad {
            cycles: c2,
            good_cycles: g2,
        } && c2 == c,
{
}

/// The `recover_cycles`-th consecutive good verdict clears the episode:
/// exactly one trigger over the run, ending in the fresh good state.
pub proof fn lemma_recovery_fires(cfg: AlarmCfg, c0: u32)
    requires
        1 <= cfg.recover_cycles,
    ensures
        good_step(
            cfg,
            run_goods(
                cfg,
                (StateModel::Bad { cycles: c0, good_cycles: 0 }),
                (cfg.recover_cycles - 1) as nat,
            ),
        ).1,
        run_goods(
            cfg,
            (StateModel::Bad { cycles: c0, good_cycles: 0 }),
            cfg.recover_cycles as nat,
        ) == (StateModel::Good { bad_cycles: 0 }),
        count_goods(
            cfg,
            (StateModel::Bad { cycles: c0, good_cycles: 0 }),
            cfg.recover_cycles as nat,
        ) == 1,
{
    lemma_recovery_progress(cfg, c0, (cfg.recover_cycles - 1) as nat);
}

/// Any bad verdict against a bad episode resets recovery progress to zero.
pub proof fn lemma_bad_resets_recovery(cfg: AlarmCfg, c: u32, g: u32)
    ensures
        bad_step(cfg, (StateModel::Bad { cycles: c, good_cycles: g })).0 matches StateModel::Bad {
            cycles: c2,
            good_cycles: g2,
        } && g2 == 0,
{
}

/// A classification error against a non-error state triggers immediately,
/// exactly once, and the new error episode shadows a full copy of the prior
/// state.
pub proof fn lemma_error_entry(cfg: AlarmCfg, m: StateModel)
    requires
        !(m is Error),
    ensures
        error_step(cfg, m) == ((StateModel::Error { cycles: 1, shadow: Box::new(m) }), true),
{
}

/// The shadowed state is untouched by any run of further errors.
pub proof fn lemma_error_shadow_stable(cfg: AlarmCfg, c0: u32, s: StateModel, n: nat)
    ensures
        run_errors(cfg, (StateModel::Error { cycles: c0, shadow: Box::new(s) }), n)
            matches StateModel::Error { cycles: c, shadow: s2 } && *s2 == s,
    decreases n,
{
    if n > 0 {
        lemma_error_shadow_stable(cfg, c0, s, (n - 1) as nat);
    }
}

/// With `error_repeat_cycles` zero, a running error episode never
/// re-triggers, however long the run of errors.
pub proof fn lemma_error_repeat_disabled(cfg: AlarmCfg, c0: u32, s: StateModel, n: nat)
    requires
        cfg.error_repeat_cycles == 0,
    ensures
        count_errors(cfg, (StateModel::Error { cycles: c0, shadow: Box::new(s) }), n) == 0,
    decreases n,
{
    if n > 0 {
        lemma_error_repeat_disabled(cfg, c0, s, (n - 1) as nat);
        lemma_error_shadow_stable(cfg, c0, s, (n - 1) as nat);
    }
}

/// With `error_repeat_cycles` at least two, a fresh error episode
/// re-triggers on the error that brings its count back to
/// `error_repeat_cycles` (counting the entering error as the first), the
/// state then reading as at the episode's start, so the interval repeats.
pub proof fn lemma_error_repeat_period(cfg: AlarmCfg, s: StateModel, n: nat)
    requires
        cfg.error_repeat_cycles >= 2,
        n <= cfg.error_repeat_cycles - 1,
    ensures
        n < cfg.error_repeat_cycles - 1 ==> run_errors(
            cfg,
            (StateModel::Error { cycles: 1, shadow: Box::new(s) }),
            n,
        ) == (StateModel::Error { cycles: (n + 1) as u32, shadow: Box::new(s) }) && count_errors(
            cfg,
            (StateModel::Error { cycles: 1, shadow: Box::new(s) }),
            n,
        ) == 0,
        n == cfg.error_repeat_cycles - 1 ==> run_errors(
            cfg,
            (StateModel::Error { cycles: 1, shadow: Box::new(s) }),
            n,
        ) == (StateModel::Error { cycles: 1, shadow: Box::new(s) }) && count_errors(
            cfg,
            (StateModel::Error { cycles: 1, shadow: Box::new(s) }),
            n,
        ) == 1,
    decreases n,
{
    if n > 0 {
        lemma_error_repeat_period(cfg, s, (n - 1) as nat);
    }
}

/// After an error episode of any length, the next bad verdict behaves
/// exactly as it would have against the state shadowed when the episode
/// began: no progress is lost or duplicated.
pub proof fn lemma_error_resume(cfg: AlarmCfg, m: StateModel, n: nat)
    requires
        !(m is Error),
    ensures
        bad_step(cfg, run_errors(cfg, error_step(cfg, m).0, n)) == bad_step(cfg, m),
{
    lemma_error_entry(cfg, m);
    lemma_error_shadow_stable(cfg, 1, m, n);
}

/// One verdict fed through the engine's dispatch: `invert` picks which raw
/// verdict counts as bad, then the matching step function runs.
pub open spec fn decision_step(cfg: AlarmCfg, invert: bool, m: StateModel, d: SinkDecision) -> (
    StateModel,
    bool,
) {
    let eff = if invert {
        d.flipped()
    } else {
        d
    };
    match eff {
        SinkDecision::Bad => bad_step(cfg, m),
        SinkDecision::Good => good_step(cfg, m),
    }
}

/// Inverting swaps which raw verdict counts as bad, and changes nothing
/// else: no threshold enters the dispatch.
pub proof fn lemma_invert_swaps_verdicts(cfg: AlarmCfg, m: StateModel, d: SinkDecision)
    ensures
        decision_step(cfg, true, m, d) == decision_step(cfg, false, m, d.flipped()),
{
}

} // verus!

