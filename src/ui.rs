use vstd::prelude::*;
use crate::command::{CommandChannel, queued, queue_capacity};
use crate::control::{ControlState, ControlView, ControlPoint, CONTROL_COUNT, step};
use crate::event::{EQEvent, UIHandleMsg};
use crate::telemetry::{SnapshotCell, newest};

verus! {

/// The domain event that a command becomes once its normalized value has been
/// converted to the physical value `physical`; `None` for the command that
/// closes the window.
pub open spec fn domain_event(msg: UIHandleMsg, physical: u32) -> Option<EQEvent> {
    match msg {
        UIHandleMsg::CloseWindow => None,
        UIHandleMsg::SetGain(i, _) => Some(EQEvent::SetGain(i, physical)),
        UIHandleMsg::SetFreq(i, _) => Some(EQEvent::SetFreq(i, physical)),
    }
}

/// State of the equalizer's interface: the receiving ends of the two channels
/// from the audio thread, and the control points of the bands.
pub struct ParametricEQUI {
    pub message_consumer: CommandChannel,
    pub consumer: SnapshotCell,
    pub controls: ControlState,
}

impl ParametricEQUI {
    /// An interface on the given channels, with one control point per band at
    /// the origin and the first one selected.
    pub fn new(message_consumer: CommandChannel, consumer: SnapshotCell) -> (r: Self)
        ensures
            r.message_consumer == message_consumer,
            r.consumer == consumer,
            r.controls@.wf(),
            r.controls@.selected == 0,
            r.controls@.points == Seq::new(CONTROL_COUNT as nat, |i: int| ControlPoint { left: 0, top: 0 }),
    {
        ParametricEQUI { message_consumer, consumer, controls: ControlState::new(CONTROL_COUNT) }
    }

    /// Handles a domain event; `pixel` is the screen offset that the unit mapper
    /// gave for its value (a move does not read it). See `step`.
    pub fn on_event(&mut self, ev: EQEvent, pixel: u32)
        requires
            old(self).controls@.wf(),
        ensures
            final(self).controls@.wf(),
            final(self).controls@ == step(old(self).controls@, ev, pixel),
            final(self).message_consumer == old(self).message_consumer,
            final(self).consumer == old(self).consumer,
    {
        self.controls.apply(ev, pixel)
    }

    /// Takes every pending command from the audio thread, oldest first.
    pub fn take_messages(&mut self) -> (r: Vec<UIHandleMsg>)
        ensures
            r@ == queued(old(self).message_consumer),
            queued(final(self).message_consumer) == Seq::<UIHandleMsg>::empty(),
            queue_capacity(final(self).message_consumer) == queue_capacity(old(self).message_consumer),
            final(self).controls == old(self).controls,
            final(self).consumer == old(self).consumer,
    {
        self.message_consumer.drain_all()
    }

    /// Handles one command from the audio thread. `physical` is its normalized
    /// value converted to Hz or dB, and `pixel` the screen offset for that. The
    /// resulting domain event is applied to the control points and returned, to
    /// be forwarded to the graph; `None` means that the window is to close.
    pub fn on_message(&mut self, msg: UIHandleMsg, physical: u32, pixel: u32) -> (r: Option<EQEvent>)
        requires
            old(self).controls@.wf(),
        ensures
            r == domain_event(msg, physical),
            final(self).controls@.wf(),
            r is None ==> final(self).controls@ == old(self).controls@,
            r is Some ==> final(self).controls@ == step(old(self).controls@, r->Some_0, pixel),
            final(self).message_consumer == old(self).message_consumer,
            final(self).consumer == old(self).consumer,
    {
        let ev = match msg {
            UIHandleMsg::CloseWindow => {
                return None;
            },
            UIHandleMsg::SetGain(i, _) => EQEvent::SetGain(i, physical),
            UIHandleMsg::SetFreq(i, _) => EQEvent::SetFreq(i, physical),
        };
        self.controls.apply(ev, pixel);
        Some(ev)
    }

    /// The newest spectrum snapshot from the audio thread.
    pub fn latest_spectrum(&mut self) -> (r: Vec<u32>)
        ensures
            r@ == newest(old(self).consumer),
            newest(final(self).consumer) == newest(old(self).consumer),
            final(self).controls == old(self).controls,
            final(self).message_consumer == old(self).message_consumer,
    {
        self.consumer.latest()
    }
}

/// Handling the same frequency event twice in a row leaves the control points
/// as handling it once does.
pub proof fn lemma_set_freq_idempotent(v: ControlView, i: usize, value: u32, pixel: u32)
    requires
        v.wf(),
    ensures
        step(step(v, EQEvent::SetFreq(i, value), pixel), EQEvent::SetFreq(i, value), pixel)
            == step(v, EQEvent::SetFreq(i, value), pixel),
{
    let once = step(v, EQEvent::SetFreq(i, value), pixel);
    assert(step(once, EQEvent::SetFreq(i, value), pixel).points =~= once.points);
}

/// Handling the same gain event twice in a row leaves the control points as
/// handling it once does.
pub proof fn lemma_set_gain_idempotent(v: ControlView, i: usize, value: u32, pixel: u32)
    requires
        v.wf(),
    ensures
        step(step(v, EQEvent::SetGain(i, value), pixel), EQEvent::SetGain(i, value), pixel)
            == step(v, EQEvent::SetGain(i, value), pixel),
{
    let once = step(v, EQEvent::SetGain(i, value), pixel);
    assert(step(once, EQEvent::SetGain(i, value), pixel).points =~= once.points);
}

} // verus!
