//! The alarm engine: a hysteresis state machine over verdicts and
//! classification errors.
//!
//! The engine consumes verdicts from its decision sink and classification
//! errors reported by the caller, updates its [`State`], and, when a
//! transition or a configured repeat interval warrants notification, hands
//! back a [`Trigger`]: which kind of action to invoke and the full
//! substitution context to invoke it with. Invoking the action itself is the
//! caller's business; a trigger with no action configured for its kind is
//! simply dropped there.

use crate::decision::AlarmError;
use crate::decision::DataSink;
use crate::decision::SinkDecision;
use crate::model::AlarmCfg;
use crate::model::StateModel;
use crate::model::bad_step;
use crate::model::error_step;
use crate::model::good_step;
use crate::model::model_wf;
use crate::placeholder::PlaceholderMap;
use crate::state::BadState;
use crate::state::ErrorState;
use crate::state::GoodState;
use crate::state::State;
use crate::state::bad_ids;
use crate::state::error_ids;
use crate::state::good_ids;
use crate::state::ids_wf;
use crate::timefmt::iso8601;
use crate::timefmt::iso8601_seq;
use vstd::prelude::*;
use vstd::string::StringExecFns;

verus! {

/// Relies on uuid::Uuid::new_v4, rendered through uuid's Display
/// implementation: the canonical hyphenated form of a freshly generated
/// random identifier, which is always 36 characters long. The call aborts
/// the process if the operating system's random source fails.
#[verifier::external_body]
fn fresh_episode_id() -> (r: String)
    ensures
        r@.len() == 36,
{
    uuid::Uuid::new_v4().to_string()
}

/// Relies on std::time::SystemTime::now and duration_since: the wall
/// clock's offset from the Unix epoch, in whole seconds, or zero if the
/// clock reads earlier than the epoch. Nothing is assumed of the value.
#[verifier::external_body]
fn now_unix_seconds() -> u64 {
    match std::time::SystemTime::now().duration_since(std::time::UNIX_EPOCH) {
        Ok(d) => d.as_secs(),
        Err(_) => 0,
    }
}

/// Which of the three configured actions a trigger asks for.
#[derive(Clone, Copy, PartialEq, Eq, Structural, Debug)]
pub enum TriggerKind {
    /// The alarm was raised, or re-notifies while raised.
    Alarm,
    /// The alarm cleared.
    Recover,
    /// An error episode began, or re-notifies while running.
    Error,
}

/// A notification the engine asks its caller to deliver: the action kind and
/// the complete substitution context for it.
pub struct Trigger {
    pub kind: TriggerKind,
    pub payload: PlaceholderMap,
}

/// The spec-level view of an optional episode identifier.
pub open spec fn opt_view(o: Option<String>) -> Option<Seq<char>> {
    match o {
        Some(s) => Some(s@),
        None => None,
    }
}

/// The common part of every payload: the alarm's base placeholders and its
/// name, merged left-biased under the caller's placeholders — an existing
/// key, the caller's own `alarm_name` included, is never overwritten.
pub open spec fn common_payload(
    p: Map<Seq<char>, Seq<char>>,
    name: Seq<char>,
    base: Map<Seq<char>, Seq<char>>,
) -> Map<Seq<char>, Seq<char>> {
    base.insert("alarm_name"@, name).union_prefer_right(p)
}

/// The context of an alarm trigger: the common part, then the episode's
/// timestamp and identifier.
pub open spec fn alarm_payload(
    p: Map<Seq<char>, Seq<char>>,
    name: Seq<char>,
    base: Map<Seq<char>, Seq<char>>,
    ts: Seq<char>,
    uuid: Seq<char>,
) -> Map<Seq<char>, Seq<char>> {
    common_payload(p, name, base).insert("alarm_timestamp"@, ts).insert("alarm_uuid"@, uuid)
}

/// The context of a recovery trigger: as above, then the cleared episode's
/// identifier if one is carried, then the recovery base placeholders
/// (left-biased again).
pub open spec fn recover_payload(
    p: Map<Seq<char>, Seq<char>>,
    name: Seq<char>,
    base: Map<Seq<char>, Seq<char>>,
    recover_base: Map<Seq<char>, Seq<char>>,
    last_uuid: Option<Seq<char>>,
) -> Map<Seq<char>, Seq<char>> {
    let m = common_payload(p, name, base);
    let m2 = match last_uuid {
        Some(u) => m.insert("alarm_uuid"@, u),
        None => m,
    };
    recover_base.union_prefer_right(m2)
}

/// The context of an error trigger: the common part, then the error
/// episode's identifier and timestamp, then the error base placeholders
/// (left-biased again).
pub open spec fn error_payload(
    p: Map<Seq<char>, Seq<char>>,
    name: Seq<char>,
    base: Map<Seq<char>, Seq<char>>,
    error_base: Map<Seq<char>, Seq<char>>,
    uuid: Seq<char>,
    ts: Seq<char>,
) -> Map<Seq<char>, Seq<char>> {
    error_base.union_prefer_right(
        common_payload(p, name, base).insert("error_uuid"@, uuid).insert("error_timestamp"@, ts),
    )
}

/// The alarm engine for one monitored item.
///
/// Configuration is fixed after construction; `state` is replaced wholesale
/// on every sample. The engine must be driven by a single logical sequence
/// of calls; it holds no synchronization of its own.
pub struct AlarmBase<T: DataSink> {
    pub name: String,
    pub id: String,
    pub placeholders: PlaceholderMap,
    pub cycles: u32,
    pub repeat_cycles: u32,
    pub recover_placeholders: PlaceholderMap,
    pub recover_cycles: u32,
    pub error_placeholders: PlaceholderMap,
    pub error_repeat_cycles: u32,
    pub invert: bool,
    pub state: State,
    pub data_sink: T,
}

/// Everything but the state is unchanged.
pub open spec fn same_config<T: DataSink>(pre: AlarmBase<T>, post: AlarmBase<T>) -> bool {
    &&& post.name == pre.name
    &&& post.id == pre.id
    &&& post.placeholders == pre.placeholders
    &&& post.cycles == pre.cycles
    &&& post.repeat_cycles == pre.repeat_cycles
    &&& post.recover_placeholders == pre.recover_placeholders
    &&& post.recover_cycles == pre.recover_cycles
    &&& post.error_placeholders == pre.error_placeholders
    &&& post.error_repeat_cycles == pre.error_repeat_cycles
    &&& post.invert == pre.invert
    &&& post.data_sink == pre.data_sink
}

/// What a bad verdict does: the state moves along `bad_step`, identifiers
/// move along `bad_ids`, and a trigger is handed back exactly when the step
/// fires, carrying the alarm payload of the (new or re-notified) episode.
pub open spec fn bad_outcome<T: DataSink>(
    pre: AlarmBase<T>,
    post: AlarmBase<T>,
    p: Map<Seq<char>, Seq<char>>,
    tr: Option<Trigger>,
) -> bool {
    &&& post.state.model() == bad_step(pre.cfg(), pre.state.model()).0
    &&& bad_ids(pre.state, post.state)
    &&& (tr is Some) == bad_step(pre.cfg(), pre.state.model()).1
    &&& (tr matches Some(t) ==> {
        &&& t.kind == TriggerKind::Alarm
        &&& t.payload.wf()
        &&& post.state matches State::Bad(b) && t.payload@ == alarm_payload(
            p,
            pre.name@,
            pre.placeholders@,
            iso8601_seq(b.timestamp as nat),
            b.uuid@,
        )
    })
}

/// What a good verdict does: the state moves along `good_step`, identifiers
/// along `good_ids`, and a recovery trigger is handed back exactly when the
/// step fires, naming the episode that cleared.
pub open spec fn good_outcome<T: DataSink>(
    pre: AlarmBase<T>,
    post: AlarmBase<T>,
    p: Map<Seq<char>, Seq<char>>,
    tr: Option<Trigger>,
) -> bool {
    &&& post.state.model() == good_step(pre.cfg(), pre.state.model()).0
    &&& good_ids(pre.state, post.state)
    &&& (tr is Some) == good_step(pre.cfg(), pre.state.model()).1
    &&& (tr matches Some(t) ==> {
        &&& t.kind == TriggerKind::Recover
        &&& t.payload.wf()
        &&& post.state matches State::Good(g) && t.payload@ == recover_payload(
            p,
            pre.name@,
            pre.placeholders@,
            pre.recover_placeholders@,
            opt_view(g.last_alarm_uuid),
        )
    })
}

/// What a classification error does: the state moves along `error_step`,
/// identifiers along `error_ids`, and an error trigger is handed back
/// exactly when the step fires.
pub open spec fn error_outcome<T: DataSink>(
    pre: AlarmBase<T>,
    post: AlarmBase<T>,
    p: Map<Seq<char>, Seq<char>>,
    tr: Option<Trigger>,
) -> bool {
    &&& post.state.model() == error_step(pre.cfg(), pre.state.model()).0
    &&& error_ids(pre.state, post.state)
    &&& (tr is Some) == error_step(pre.cfg(), pre.state.model()).1
    &&& (tr matches Some(t) ==> {
        &&& t.kind == TriggerKind::Error
        &&& t.payload.wf()
        &&& post.state matches State::Error(e) && t.payload@ == error_payload(
            p,
            pre.name@,
            pre.placeholders@,
            pre.error_placeholders@,
            e.uuid@,
            iso8601_seq(e.timestamp as nat),
        )
    })
}

/// A good verdict against an error episode resumes the shadowed state
/// through the bad update; if that update itself fires, the engine would
/// have to deliver a recovery notification from a non-good state, a fatal
/// internal inconsistency rather than a recoverable error. Such inputs are
/// excluded by `requires`; an unverified caller must test for them and
/// abort rather than deliver the wrong notification kind.
pub open spec fn good_update_is_fatal(cfg: AlarmCfg, m: StateModel) -> bool {
    m matches StateModel::Error { cycles, shadow } && bad_step(cfg, *shadow).1
}

impl<T: DataSink> AlarmBase<T> {
    /// The four thresholds, as the model's step functions take them.
    pub open spec fn cfg(self) -> AlarmCfg {
        AlarmCfg {
            cycles: self.cycles,
            repeat_cycles: self.repeat_cycles,
            recover_cycles: self.recover_cycles,
            error_repeat_cycles: self.error_repeat_cycles,
        }
    }

    /// Raise and recover thresholds are enabled, the state's counters are
    /// within bounds, and the placeholder maps are well formed.
    pub open spec fn wf(self) -> bool {
        &&& self.cycles >= 1
        &&& self.recover_cycles >= 1
        &&& model_wf(self.cfg(), self.state.model())
        &&& ids_wf(self.state)
        &&& self.placeholders.wf()
        &&& self.recover_placeholders.wf()
        &&& self.error_placeholders.wf()
    }

    /// Builds an alarm in the fresh good state. `cycles` and
    /// `recover_cycles` of zero would never raise respectively never clear
    /// the alarm and are rejected as a configuration error.
    pub fn new(
        name: String,
        id: String,
        placeholders: PlaceholderMap,
        cycles: u32,
        repeat_cycles: u32,
        recover_placeholders: PlaceholderMap,
        recover_cycles: u32,
        error_placeholders: PlaceholderMap,
        error_repeat_cycles: u32,
        invert: bool,
        data_sink: T,
    ) -> (r: Result<AlarmBase<T>, AlarmError>)
        requires
            placeholders.wf(),
            recover_placeholders.wf(),
            error_placeholders.wf(),
        ensures
            (r is Ok) == (cycles >= 1 && recover_cycles >= 1),
            r matches Err(e) ==> e == AlarmError::InvalidConfig,
            r matches Ok(a) ==> {
                &&& a.wf()
                &&& a.name == name
                &&& a.id == id
                &&& a.placeholders == placeholders
                &&& a.cycles == cycles
                &&& a.repeat_cycles == repeat_cycles
                &&& a.recover_placeholders == recover_placeholders
                &&& a.recover_cycles == recover_cycles
                &&& a.error_placeholders == error_placeholders
                &&& a.error_repeat_cycles == error_repeat_cycles
                &&& a.invert == invert
                &&& a.data_sink == data_sink
                &&& a.state matches State::Good(g) && g.bad_cycles == 0 && g.last_alarm_uuid
                    is None
            },
    {
        if cycles == 0 || recover_cycles == 0 {
            return Err(AlarmError::InvalidConfig);
        }
        Ok(
            AlarmBase {
                name,
                id,
                placeholders,
                cycles,
                repeat_cycles,
                recover_placeholders,
                recover_cycles,
                error_placeholders,
                error_repeat_cycles,
                invert,
                state: State::Good(
                    GoodState {
                        timestamp: now_unix_seconds(),
                        last_alarm_uuid: None,
                        bad_cycles: 0,
                    },
                ),
                data_sink,
            },
        )
    }

    /// The pure bad-verdict update of §state machine: one step of
    /// `bad_step`, with fresh episode identity where a new bad episode
    /// begins. An error episode resumes its shadowed state.
    pub fn bad_update_state(&self, state: &State) -> (r: (State, bool))
        requires
            self.wf(),
            model_wf(self.cfg(), state.model()),
            ids_wf(*state),
        ensures
            r.0.model() == bad_step(self.cfg(), state.model()).0,
            r.1 == bad_step(self.cfg(), state.model()).1,
            model_wf(self.cfg(), r.0.model()),
            ids_wf(r.0),
            bad_ids(*state, r.0),
            r.1 ==> r.0 is Bad,
        decreases *state,
    {
        match state {
            State::Good(good) => {
                if good.bad_cycles + 1 == self.cycles {
                    (
                        State::Bad(
                            BadState {
                                timestamp: now_unix_seconds(),
                                uuid: fresh_episode_id(),
                                cycles: 1,
                                good_cycles: 0,
                            },
                        ),
                        true,
                    )
                } else {
                    (
                        State::Good(
                            GoodState {
                                timestamp: good.timestamp,
                                last_alarm_uuid: None,
                                bad_cycles: good.bad_cycles + 1,
                            },
                        ),
                        false,
                    )
                }
            },
            State::Bad(bad) => {
                let trig = bad.cycles < u32::MAX && bad.cycles + 1 == self.repeat_cycles;
                let cycles = if trig {
                    1
                } else if bad.cycles == u32::MAX {
                    u32::MAX
                } else {
                    bad.cycles + 1
                };
                (
                    State::Bad(
                        BadState {
                            timestamp: bad.timestamp,
                            uuid: bad.uuid.clone(),
                            cycles,
                            good_cycles: 0,
                        },
                    ),
                    trig,
                )
            },
            State::Error(error) => self.bad_update_state(&error.shadowed_state),
        }
    }

    /// The pure good-verdict update: one step of `good_step`. Progress in
    /// the good state is untouched; a bad episode gains recovery progress,
    /// its count of bad verdicts left as it stands; an error episode resumes
    /// its shadowed state through the bad update.
    pub fn good_update_state(&self, state: &State) -> (r: (State, bool))
        requires
            self.wf(),
            model_wf(self.cfg(), state.model()),
            ids_wf(*state),
        ensures
            r.0.model() == good_step(self.cfg(), state.model()).0,
            r.1 == good_step(self.cfg(), state.model()).1,
            model_wf(self.cfg(), r.0.model()),
            ids_wf(r.0),
            good_ids(*state, r.0),
            r.1 && !good_update_is_fatal(self.cfg(), state.model()) ==> r.0 is Good,
    {
        match state {
            State::Good(good) => (State::Good(good.clone()), false),
            State::Bad(bad) => {
                if bad.good_cycles + 1 == self.recover_cycles {
                    (
                        State::Good(
                            GoodState {
                                timestamp: now_unix_seconds(),
                                last_alarm_uuid: Some(bad.uuid.clone()),
                                bad_cycles: 0,
                            },
                        ),
                        true,
                    )
                } else {
                    (
                        State::Bad(
                            BadState {
                                timestamp: bad.timestamp,
                                uuid: bad.uuid.clone(),
                                cycles: bad.cycles,
                                good_cycles: bad.good_cycles + 1,
                            },
                        ),
                        false,
                    )
                }
            },
            State::Error(error) => self.bad_update_state(&error.shadowed_state),
        }
    }

    /// The pure error update: one step of `error_step`. A first error
    /// shadows the current state in full; further errors only count.
    pub fn error_update_state(&self, state: &State) -> (r: (State, bool))
        requires
            self.wf(),
            model_wf(self.cfg(), state.model()),
            ids_wf(*state),
        ensures
            r.0.model() == error_step(self.cfg(), state.model()).0,
            r.1 == error_step(self.cfg(), state.model()).1,
            model_wf(self.cfg(), r.0.model()),
            ids_wf(r.0),
            error_ids(*state, r.0),
            r.0 is Error,
    {
        match state {
            State::Error(error) => {
                let trig = error.cycles < u32::MAX && error.cycles + 1 == self.error_repeat_cycles;
                let cycles = if trig {
                    1
                } else if error.cycles == u32::MAX {
                    u32::MAX
                } else {
                    error.cycles + 1
                };
                (
                    State::Error(
                        ErrorState {
                            timestamp: error.timestamp,
                            uuid: error.uuid.clone(),
                            shadowed_state: Box::new((*error.shadowed_state).clone()),
                            cycles,
                        },
                    ),
                    trig,
                )
            },
            _ => (
                State::Error(
                    ErrorState {
                        timestamp: now_unix_seconds(),
                        uuid: fresh_episode_id(),
                        shadowed_state: Box::new(state.clone()),
                        cycles: 1,
                    },
                ),
                true,
            ),
        }
    }

    /// Merges the alarm's name and base placeholders in, left-biased: a key
    /// the caller already set, `alarm_name` included, keeps its value.
    pub fn add_placeholders(&self, placeholders: &mut PlaceholderMap)
        requires
            self.wf(),
            old(placeholders).wf(),
        ensures
            final(placeholders).wf(),
            final(placeholders)@ == common_payload(
                old(placeholders)@,
                self.name@,
                self.placeholders@,
            ),
    {
        let ghost p0 = placeholders@;
        if !placeholders.contains_key("alarm_name") {
            placeholders.insert("alarm_name".to_owned(), self.name.clone());
        }
        placeholders.merge(&self.placeholders);
        proof {
            assert(placeholders@ =~= common_payload(p0, self.name@, self.placeholders@));
        }
    }

    /// Builds the alarm payload for the currently raised episode.
    pub fn trigger(&self, placeholders: PlaceholderMap) -> (r: PlaceholderMap)
        requires
            self.wf(),
            placeholders.wf(),
            self.state is Bad,
        ensures
            r.wf(),
            self.state matches State::Bad(b) ==> r@ == alarm_payload(
                placeholders@,
                self.name@,
                self.placeholders@,
                iso8601_seq(b.timestamp as nat),
                b.uuid@,
            ),
    {
        let mut p = placeholders;
        self.add_placeholders(&mut p);
        match &self.state {
            State::Bad(bad) => {
                p.insert("alarm_timestamp".to_owned(), iso8601(bad.timestamp));
                p.insert("alarm_uuid".to_owned(), bad.uuid.clone());
                p
            },
            _ => unreached(),
        }
    }

    /// Builds the recovery payload for the episode that just cleared.
    pub fn trigger_recover(&self, placeholders: PlaceholderMap) -> (r: PlaceholderMap)
        requires
            self.wf(),
            placeholders.wf(),
            self.state is Good,
        ensures
            r.wf(),
            self.state matches State::Good(g) ==> r@ == recover_payload(
                placeholders@,
                self.name@,
                self.placeholders@,
                self.recover_placeholders@,
                opt_view(g.last_alarm_uuid),
            ),
    {
        let mut p = placeholders;
        self.add_placeholders(&mut p);
        match &self.state {
            State::Good(good) => {
                match &good.last_alarm_uuid {
                    Some(last) => {
                        p.insert("alarm_uuid".to_owned(), last.clone());
                    },
                    None => {},
                }
                p.merge(&self.recover_placeholders);
                p
            },
            _ => unreached(),
        }
    }

    /// Builds the error payload for the running error episode.
    pub fn trigger_error(&self, placeholders: PlaceholderMap) -> (r: PlaceholderMap)
        requires
            self.wf(),
            placeholders.wf(),
            self.state is Error,
        ensures
            r.wf(),
            self.state matches State::Error(e) ==> r@ == error_payload(
                placeholders@,
                self.name@,
                self.placeholders@,
                self.error_placeholders@,
                e.uuid@,
                iso8601_seq(e.timestamp as nat),
            ),
    {
        let mut p = placeholders;
        self.add_placeholders(&mut p);
        match &self.state {
            State::Error(error) => {
                p.insert("error_uuid".to_owned(), error.uuid.clone());
                p.insert("error_timestamp".to_owned(), iso8601(error.timestamp));
                p.merge(&self.error_placeholders);
                p
            },
            _ => unreached(),
        }
    }

    /// Whether a good verdict would hit the fatal resumption corner that
    /// `good` excludes: an unverified caller tests this before feeding an
    /// effective good verdict, and aborts where it holds.
    pub fn good_would_be_fatal(&self) -> (r: bool)
        requires
            self.wf(),
        ensures
            r == good_update_is_fatal(self.cfg(), self.state.model()),
    {
        match &self.state {
            State::Error(e) => {
                proof {
                    assert(model_wf(self.cfg(), (*e.shadowed_state).model()));
                }
                match &*e.shadowed_state {
                    State::Good(g) => {
                        proof {
                            assert((*e.shadowed_state).model() == (StateModel::Good {
                                bad_cycles: g.bad_cycles,
                            }));
                        }
                        g.bad_cycles + 1 == self.cycles
                    },
                    State::Bad(b) => b.cycles < u32::MAX && b.cycles + 1 == self.repeat_cycles,
                    State::Error(_) => {
                        proof {
                            assert(false);
                        }
                        false
                    },
                }
            },
            _ => false,
        }
    }

    /// Feeds one bad verdict into the state machine.
    pub fn bad(&mut self, placeholders: PlaceholderMap) -> (r: Option<Trigger>)
        requires
            old(self).wf(),
            placeholders.wf(),
        ensures
            final(self).wf(),
            same_config(*old(self), *final(self)),
            bad_outcome(*old(self), *final(self), placeholders@, r),
    {
        let (new_state, trig) = self.bad_update_state(&self.state);
        self.state = new_state;
        if trig {
            let payload = self.trigger(placeholders);
            Some(Trigger { kind: TriggerKind::Alarm, payload })
        } else {
            None
        }
    }

    /// Feeds one good verdict into the state machine.
    pub fn good(&mut self, placeholders: PlaceholderMap) -> (r: Option<Trigger>)
        requires
            old(self).wf(),
            placeholders.wf(),
            !good_update_is_fatal(old(self).cfg(), old(self).state.model()),
        ensures
            final(self).wf(),
            same_config(*old(self), *final(self)),
            good_outcome(*old(self), *final(self), placeholders@, r),
    {
        let (new_state, trig) = self.good_update_state(&self.state);
        self.state = new_state;
        if trig {
            let payload = self.trigger_recover(placeholders);
            Some(Trigger { kind: TriggerKind::Recover, payload })
        } else {
            None
        }
    }

    /// Feeds one classification error into the state machine.
    pub fn error(&mut self, placeholders: PlaceholderMap) -> (r: Option<Trigger>)
        requires
            old(self).wf(),
            placeholders.wf(),
        ensures
            final(self).wf(),
            same_config(*old(self), *final(self)),
            error_outcome(*old(self), *final(self), placeholders@, r),
    {
        let (new_state, trig) = self.error_update_state(&self.state);
        self.state = new_state;
        if trig {
            let payload = self.trigger_error(placeholders);
            Some(Trigger { kind: TriggerKind::Error, payload })
        } else {
            None
        }
    }

    /// Runs the decision sink on one sample, applies `invert`, and feeds the
    /// effective verdict into the state machine. A sink failure is returned
    /// unchanged and leaves the state untouched.
    pub fn put_data(&mut self, data: &T::Item, placeholders: PlaceholderMap) -> (r: Result<
        Option<Trigger>,
        AlarmError,
    >)
        requires
            old(self).wf(),
            placeholders.wf(),
            (match old(self).data_sink.classify(data) {
                Result::Ok(d) => (if old(self).invert {
                    d.flipped()
                } else {
                    d
                }) is Good,
                Result::Err(_) => false,
            }) ==> !good_update_is_fatal(old(self).cfg(), old(self).state.model()),
        ensures
            final(self).wf(),
            same_config(*old(self), *final(self)),
            match old(self).data_sink.classify(data) {
                Result::Err(e) => r == Result::<Option<Trigger>, AlarmError>::Err(e)
                    && *final(self) == *old(self),
                Result::Ok(d) => {
                    let eff = if old(self).invert {
                        d.flipped()
                    } else {
                        d
                    };
                    &&& r is Ok
                    &&& (r matches Ok(tr) ==> (match eff {
                        SinkDecision::Bad => bad_outcome(
                            *old(self),
                            *final(self),
                            placeholders@,
                            tr,
                        ),
                        SinkDecision::Good => good_outcome(
                            *old(self),
                            *final(self),
                            placeholders@,
                            tr,
                        ),
                    }))
                },
            },
    {
        let decision = match self.data_sink.put_data(data) {
            Ok(d) => d,
            Err(e) => {
                return Err(e);
            },
        };
        let decision = if self.invert {
            decision.flip()
        } else {
            decision
        };
        match decision {
            SinkDecision::Good => Ok(self.good(placeholders)),
            SinkDecision::Bad => Ok(self.bad(placeholders)),
        }
    }

    /// Feeds one classification failure, reported by the caller, into the
    /// error path. The sink is bypassed entirely.
    pub fn put_error(&mut self, placeholders: PlaceholderMap) -> (r: Option<Trigger>)
        requires
            old(self).wf(),
            placeholders.wf(),
        ensures
            final(self).wf(),
            same_config(*old(self), *final(self)),
            error_outcome(*old(self), *final(self), placeholders@, r),
    {
        self.error(placeholders)
    }
}

} // verus!
