//! Decision core of a monitoring/alerting engine.
//!
//! Samples for one monitored item are classified good or bad by a pluggable
//! [`DataSink`]; the [`AlarmBase`] state machine applies hysteresis to the
//! resulting verdicts and decides when an external action should be notified,
//! and with which substitution values.

pub mod decision;
pub mod engine;
pub mod laws;
pub mod level;
pub mod model;
pub mod placeholder;
pub mod state;
pub mod timefmt;

pub use decision::AlarmError;
pub use decision::DataSink;
pub use decision::SinkDecision;
pub use engine::AlarmBase;
pub use engine::Trigger;
pub use engine::TriggerKind;
pub use level::Level;
pub use placeholder::PlaceholderMap;
pub use state::State;
