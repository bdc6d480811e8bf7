//! The three state families of the alarm engine.
//!
//! Exactly one variant is active at any time. Besides the counters captured
//! by [`StateModel`], a state carries the entry timestamp of its episode and,
//! for bad and error episodes, the episode's unique identifier, which stays
//! stable across re-triggers of the same episode. The relations at the end
//! of this module state how identifiers and timestamps move under each
//! update; the counters themselves move along the model's step functions.

use crate::model::StateModel;
use vstd::prelude::*;

verus! {

/// No alarm is raised; counts bad verdicts that have not yet reached the
/// `cycles` threshold, and carries the identifier of a just-cleared bad
/// episode for one transition so the recovery notification can name it.
pub struct GoodState {
    pub timestamp: u64,
    pub last_alarm_uuid: Option<String>,
    pub bad_cycles: u32,
}

/// A bad episode: raised at `timestamp`, identified by `uuid`; counts bad
/// verdicts since the last (re-)trigger and good verdicts towards recovery.
pub struct BadState {
    pub timestamp: u64,
    pub uuid: String,
    pub cycles: u32,
    pub good_cycles: u32,
}

/// An error episode: counts consecutive classification errors and keeps a
/// full copy of the state that was active before the first error, so that
/// processing resumes there once errors stop.
pub struct ErrorState {
    pub timestamp: u64,
    pub uuid: String,
    pub shadowed_state: Box<State>,
    pub cycles: u32,
}

/// The alarm state: exactly one of the three families.
pub enum State {
    Good(GoodState),
    Bad(BadState),
    Error(ErrorState),
}

impl State {
    /// The counting abstraction of this state.
    pub open spec fn model(self) -> StateModel
        decreases self,
    {
        match self {
            State::Good(g) => StateModel::Good { bad_cycles: g.bad_cycles },
            State::Bad(b) => StateModel::Bad { cycles: b.cycles, good_cycles: b.good_cycles },
            State::Error(e) => StateModel::Error {
                cycles: e.cycles,
                shadow: Box::new((*e.shadowed_state).model()),
            },
        }
    }
}

impl Clone for GoodState {
    fn clone(&self) -> (res: GoodState)
        ensures
            res == *self,
    {
        GoodState {
            timestamp: self.timestamp,
            last_alarm_uuid: match &self.last_alarm_uuid {
                Some(u) => Some(u.clone()),
                None => None,
            },
            bad_cycles: self.bad_cycles,
        }
    }
}

impl Clone for BadState {
    fn clone(&self) -> (res: BadState)
        ensures
            res == *self,
    {
        BadState {
            timestamp: self.timestamp,
            uuid: self.uuid.clone(),
            cycles: self.cycles,
            good_cycles: self.good_cycles,
        }
    }
}

impl Clone for State {
    fn clone(&self) -> (res: State)
        ensures
            res == *self,
        decreases *self,
    {
        match self {
            State::Good(g) => State::Good(g.clone()),
            State::Bad(b) => State::Bad(b.clone()),
            State::Error(e) => State::Error(
                ErrorState {
                    timestamp: e.timestamp,
                    uuid: e.uuid.clone(),
                    shadowed_state: Box::new((*e.shadowed_state).clone()),
                    cycles: e.cycles,
                },
            ),
        }
    }
}

/// Every episode identifier a state holds is in the canonical 36-character
/// form, the carried identifier of a cleared episode included.
pub open spec fn ids_wf(s: State) -> bool
    decreases s,
{
    match s {
        State::Good(g) => g.last_alarm_uuid matches Some(u) ==> u@.len() == 36,
        State::Bad(b) => b.uuid@.len() == 36,
        State::Error(e) => e.uuid@.len() == 36 && ids_wf(*e.shadowed_state),
    }
}

/// How identifiers and timestamps move under a bad-verdict update: a bad
/// episode keeps its identifier and entry timestamp; progress within the
/// good state keeps the entry timestamp and drops a carried identifier; an
/// error episode defers to its shadowed state. A fresh bad episode gets a
/// fresh identifier, of which only the canonical 36-character form is known.
pub open spec fn bad_ids(pre: State, post: State) -> bool
    decreases pre,
{
    match pre {
        State::Good(g) => (post matches State::Good(ng) ==> ng.timestamp == g.timestamp
            && ng.last_alarm_uuid is None) && (post matches State::Bad(nb) ==> nb.uuid@.len()
            == 36),
        State::Bad(b) => post matches State::Bad(nb) && nb.uuid == b.uuid && nb.timestamp
            == b.timestamp,
        State::Error(e) => bad_ids(*e.shadowed_state, post),
    }
}

/// How identifiers and timestamps move under a good-verdict update: the good
/// state is untouched; a bad episode either keeps its identity or, on
/// recovery, hands its identifier over as `last_alarm_uuid`; an error episode
/// defers to its shadowed state under the *bad* update rules.
pub open spec fn good_ids(pre: State, post: State) -> bool
    decreases pre,
{
    match pre {
        State::Good(g) => post == pre,
        State::Bad(b) => (post matches State::Good(ng) ==> ng.bad_cycles == 0
            && ng.last_alarm_uuid == Some(b.uuid)) && (post matches State::Bad(nb) ==> nb.uuid
            == b.uuid && nb.timestamp == b.timestamp),
        State::Error(e) => bad_ids(*e.shadowed_state, post),
    }
}

/// How identifiers move under a classification error: a running error
/// episode keeps its identity and its shadowed state untouched; entering one
/// stores a full copy of the prior state and gets a fresh identifier.
pub open spec fn error_ids(pre: State, post: State) -> bool {
    match pre {
        State::Error(e) => post matches State::Error(ne) && ne.uuid == e.uuid && ne.timestamp
            == e.timestamp && *ne.shadowed_state == *e.shadowed_state,
        _ => post matches State::Error(ne) && *ne.shadowed_state == pre && ne.uuid@.len() == 36,
    }
}

} // verus!
