use vstd::prelude::*;
use crate::event::EQEvent;

verus! {

/// Number of equalizer bands, and so of control points, that the interface shows.
pub const CONTROL_COUNT: usize = 3;

/// Where a control point is drawn: its left and top pixel offsets.
#[derive(Clone, Copy, Debug, PartialEq, Eq, Structural)]
pub struct ControlPoint {
    pub left: u32,
    pub top: u32,
}

/// The control points of the bands, indexed by band, and which of them the
/// user touched last.
pub struct ControlState {
    selected: usize,
    points: Vec<ControlPoint>,
}

/// Mathematical model of a `ControlState`.
pub ghost struct ControlView {
    pub selected: int,
    pub points: Seq<ControlPoint>,
}

impl View for ControlState {
    type V = ControlView;

    closed spec fn view(&self) -> ControlView {
        ControlView { selected: self.selected as int, points: self.points@ }
    }
}

impl ControlView {
    /// The selection names an existing control point.
    pub open spec fn wf(self) -> bool {
        0 <= self.selected < self.points.len()
    }
}

/// The state after `ev`. `pixel` is the screen offset that the unit mapper gave
/// for the event's value; a move does not read it.
///
/// A move selects its point (a move of a point that does not exist changes
/// nothing). A frequency or gain places the *selected* point, whatever band the
/// event names.
pub open spec fn step(v: ControlView, ev: EQEvent, pixel: u32) -> ControlView {
    match ev {
        EQEvent::MovePoint(i, _, _) => if i < v.points.len() {
            ControlView { selected: i as int, points: v.points }
        } else {
            v
        },
        EQEvent::SetFreq(_, _) => ControlView {
            selected: v.selected,
            points: v.points.update(v.selected, ControlPoint { left: pixel, top: v.points[v.selected].top }),
        },
        EQEvent::SetGain(_, _) => ControlView {
            selected: v.selected,
            points: v.points.update(v.selected, ControlPoint { left: v.points[v.selected].left, top: pixel }),
        },
    }
}

impl ControlState {
    /// `count` control points at the origin, the first one selected.
    pub fn new(count: usize) -> (r: Self)
        requires
            count > 0,
        ensures
            r@.wf(),
            r@.selected == 0,
            r@.points == Seq::new(count as nat, |i: int| ControlPoint { left: 0, top: 0 }),
    {
        let mut points: Vec<ControlPoint> = Vec::new();
        let mut k: usize = 0;
        while k < count
            invariant
                k <= count,
                points@ == Seq::new(k as nat, |i: int| ControlPoint { left: 0, top: 0 }),
            decreases count - k,
        {
            points.push(ControlPoint { left: 0, top: 0 });
            k = k + 1;
            assert(points@ =~= Seq::new(k as nat, |i: int| ControlPoint { left: 0, top: 0 }));
        }
        ControlState { selected: 0, points }
    }

    /// Index of the control point that the user touched last.
    pub fn selected_index(&self) -> (r: usize)
        ensures
            r == self@.selected,
    {
        self.selected
    }

    /// Number of control points.
    pub fn len(&self) -> (r: usize)
        ensures
            r == self@.points.len(),
    {
        self.points.len()
    }

    /// Control point `i`.
    pub fn point(&self, i: usize) -> (r: ControlPoint)
        requires
            i < self@.points.len(),
        ensures
            r == self@.points[i as int],
    {
        self.points[i]
    }

    /// Applies a domain event; see `step`.
    pub fn apply(&mut self, ev: EQEvent, pixel: u32)
        requires
            old(self)@.wf(),
        ensures
            final(self)@.wf(),
            final(self)@ == step(old(self)@, ev, pixel),
    {
        match ev {
            EQEvent::MovePoint(i, _, _) => {
                if i < self.points.len() {
                    self.selected = i;
                }
            },
            EQEvent::SetFreq(_, _) => {
                let sel = self.selected;
                let top = self.points[sel].top;
                self.points.set(sel, ControlPoint { left: pixel, top });
            },
            EQEvent::SetGain(_, _) => {
                let sel = self.selected;
                let left = self.points[sel].left;
                self.points.set(sel, ControlPoint { left, top: pixel });
            },
        }
    }
}

} // verus!
