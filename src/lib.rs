//! Control plane of a parametric equalizer: the command queue and the spectrum
//! cell that carry data from the audio thread to the interface, and the
//! control-point state machine that the interface drives with domain events.
//!
//! Numeric values (frequencies, gains, pixel offsets, normalized values,
//! magnitudes) cross this library as the raw 32-bit IEEE-754 encoding of the
//! number. The library moves and stores them; it never does arithmetic on them.

mod event;
mod control;
mod command;
mod telemetry;
mod ui;

pub use event::{EQEvent, UIHandleMsg};
pub use control::{ControlPoint, ControlState, ControlView, CONTROL_COUNT, step};
pub use command::{CommandChannel, queued, queue_capacity, after_push, after_pushes, lemma_push_keeps_prefix, MAX_QUEUE_CAPACITY};
pub use telemetry::{SnapshotCell, newest, published, lemma_latest_wins};
pub use ui::{ParametricEQUI, domain_event, lemma_set_freq_idempotent, lemma_set_gain_idempotent};
