//! What the window asks of the renderer: each event of the window becomes a
//! change of state and a list of commands, or the end of the program.

use vstd::prelude::*;
use crate::command::Command;
use crate::command::PhysicalSize;
use crate::device::lemma_run_concat;
use crate::device::run;
use crate::device::Device;
use crate::device::FrameState;
use crate::device::MappingState;
use crate::surface::lemma_draw_presents_one_frame;
use crate::surface::SurfaceState;

verus! {

/// An event of the window or of its event loop.
#[derive(Clone, Copy, Debug, PartialEq, Eq, Structural)]
pub enum Event {
    /// The user asked to close the window.
    CloseRequested,
    /// The window was destroyed.
    Destroyed,
    /// The event loop is about to end.
    LoopDestroyed,
    /// The window has a new size.
    Resized(PhysicalSize),
    /// The scale factor changed, and the window has the given size with it.
    ScaleFactorChanged(PhysicalSize),
    /// The window has to be drawn again.
    RedrawRequested,
    /// Any other event.
    Other,
}

/// What the event loop does after an event.
#[derive(Debug, PartialEq, Eq)]
pub enum Reaction<F> {
    /// End the program.
    Exit,
    /// Carry out the commands, then wait for the next event.
    Run(Vec<Command<F>>),
}

impl Event {
    /// Whether the event ends the program.
    pub open spec fn is_final(self) -> bool {
        self is CloseRequested || self is Destroyed || self is LoopDestroyed
    }
}

impl SurfaceState {
    /// The state after an event: a new size makes it stale, a redraw brings
    /// it up to date, anything else leaves it as it is.
    pub open spec fn after(self, event: Event) -> SurfaceState {
        match event {
            Event::Resized(size) => self.resized(size),
            Event::ScaleFactorChanged(size) => self.resized(size),
            Event::RedrawRequested => self.reconfigured(),
            _ => self,
        }
    }

    /// The commands that an event leads to: those of a frame for a redraw,
    /// none for anything else.
    pub open spec fn commands_after<F>(self, format: F, event: Event) -> Seq<Command<F>> {
        match event {
            Event::RedrawRequested => self.draw_commands(format),
            _ => Seq::empty(),
        }
    }

    /// The state after the events, in order.
    pub open spec fn after_all(self, events: Seq<Event>) -> SurfaceState
        decreases events.len(),
    {
        if events.len() == 0 {
            self
        } else {
            self.after_all(events.drop_last()).after(events.last())
        }
    }

    /// All the commands that the events lead to, in order.
    pub open spec fn commands_after_all<F>(self, format: F, events: Seq<Event>) -> Seq<Command<F>>
        decreases events.len(),
    {
        if events.len() == 0 {
            Seq::empty()
        } else {
            self.commands_after_all(format, events.drop_last()) + self.after_all(
                events.drop_last(),
            ).commands_after(format, events.last())
        }
    }
}

/// The device at startup: the surface is not configured, the staging buffer
/// is mapped and empty, the uniform buffer is empty, no frame is in flight.
pub open spec fn fresh_device<F>() -> Device<F> {
    Device {
        surface: None,
        configured: 0,
        staging: MappingState::Ready,
        staged: None,
        uniform: None,
        frame: FrameState::Free,
        presented: 0,
    }
}

/// The device at startup is as the state at startup says.
pub proof fn lemma_initial_models_fresh<F>(format: F, size: PhysicalSize)
    ensures
        SurfaceState::initial(size).wf(),
        SurfaceState::initial(size).stale,
        SurfaceState::initial(size).desired_size == size,
        SurfaceState::initial(size).models(format, fresh_device::<F>()),
{
}

/// Whatever events arrive in whatever order, a device that is as the state
/// says carries out all the commands they lead to without a hazard, and is at
/// the end as the state at the end says. In particular no record is written
/// into the staging buffer before the copy of the one before has been waited
/// for.
pub proof fn lemma_events_are_hazard_free<F>(
    s: SurfaceState,
    format: F,
    d: Device<F>,
    events: Seq<Event>,
)
    requires
        s.wf(),
        s.models(format, d),
    ensures
        s.after_all(events).wf(),
        run(d, s.commands_after_all(format, events)) is Some,
        s.after_all(events).models(format, run(d, s.commands_after_all(format, events))->0),
    decreases events.len(),
{
    if events.len() > 0 {
        let earlier = events.drop_last();
        lemma_events_are_hazard_free(s, format, d, earlier);
        let before = s.after_all(earlier);
        let between = run(d, s.commands_after_all(format, earlier))->0;
        lemma_run_concat(
            d,
            s.commands_after_all(format, earlier),
            before.commands_after(format, events.last()),
        );
        match events.last() {
            Event::RedrawRequested => {
                lemma_draw_presents_one_frame(before, format, between);
            },
            _ => {},
        }
    }
}

} // verus!
