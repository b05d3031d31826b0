//! The resize/draw state machine: when the surface is stale, which commands
//! bring it up to date, and what they do to the device.

use vstd::prelude::*;
use crate::command::frame_pass;
use crate::command::surface_configuration;
use crate::command::uniforms_for;
use crate::command::Command;
use crate::command::PhysicalSize;
use crate::command::UNIFORMS_SIZE;
use crate::device::lemma_run_concat;
use crate::device::lemma_run_push;
use crate::device::run;
use crate::device::Device;
use crate::device::MappingState;

verus! {

/// What the library knows of the surface and of the staging buffer.
pub struct SurfaceState {
    /// The size that the window has asked for last.
    pub desired_size: PhysicalSize,
    /// Whether the surface and the uniform buffer are out of date with
    /// respect to `desired_size`.
    pub stale: bool,
    /// The size for which the surface was configured and the uniform buffer
    /// filled last, or `None` before the first time.
    pub configured_size: Option<PhysicalSize>,
    /// Where the staging buffer stands.
    pub staging: MappingState,
}

impl SurfaceState {
    /// A state that is not stale is configured for the desired size; the
    /// staging buffer is mapped, as it was created, until the first
    /// configuration, and is being re-mapped after each.
    pub open spec fn wf(self) -> bool {
        &&& !self.stale ==> self.configured_size == Some(self.desired_size)
        &&& self.configured_size is None ==> self.staging is Ready
        &&& self.configured_size is Some ==> self.staging is Mapping
    }

    /// The state at startup, for a window of the given size.
    pub open spec fn initial(size: PhysicalSize) -> SurfaceState {
        SurfaceState {
            desired_size: size,
            stale: true,
            configured_size: None,
            staging: MappingState::Ready,
        }
    }

    /// The state after the window was resized.
    pub open spec fn resized(self, size: PhysicalSize) -> SurfaceState {
        SurfaceState { desired_size: size, stale: true, ..self }
    }

    /// The state after the surface was brought up to date.
    pub open spec fn reconfigured(self) -> SurfaceState {
        if self.stale {
            SurfaceState {
                stale: false,
                configured_size: Some(self.desired_size),
                staging: MappingState::Mapping,
                ..self
            }
        } else {
            self
        }
    }

    /// The commands that configure the surface for the desired size and
    /// publish the uniforms for it: wait for the staging buffer if its
    /// re-map is pending, configure, write, unmap, copy, ask for the next
    /// re-map.
    pub open spec fn reconfigure_commands<F>(self, format: F) -> Seq<Command<F>> {
        let gate = if self.staging is Mapping {
            seq![Command::AwaitStaging]
        } else {
            Seq::empty()
        };
        gate + seq![
            Command::ConfigureSurface(surface_configuration(format, self.desired_size)),
            Command::WriteStaging(uniforms_for(self.desired_size)),
            Command::UnmapStaging,
            Command::CopyStagingToUniform { size: UNIFORMS_SIZE },
            Command::MapStaging,
        ]
    }

    /// The commands that bring the surface up to date: none unless it is
    /// stale.
    pub open spec fn sync_commands<F>(self, format: F) -> Seq<Command<F>> {
        if self.stale {
            self.reconfigure_commands(format)
        } else {
            Seq::empty()
        }
    }

    /// The commands of one frame: bring the surface up to date, acquire an
    /// image, render the pass, present.
    pub open spec fn draw_commands<F>(self, format: F) -> Seq<Command<F>> {
        self.sync_commands(format) + seq![
            Command::AcquireFrame,
            Command::Render(frame_pass()),
            Command::Present,
        ]
    }

    /// Whether the device is as this state says: the staging buffer stands
    /// where the state has it, the surface and the uniform buffer hold what
    /// belongs to the configured size, and no frame is in flight.
    pub open spec fn models<F>(self, format: F, d: Device<F>) -> bool {
        &&& d.staging == self.staging
        &&& d.frame is Free
        &&& match self.configured_size {
            Some(size) => {
                &&& d.surface == Some(surface_configuration(format, size))
                &&& d.uniform == Some(uniforms_for(size))
            },
            None => d.surface is None && d.uniform is None,
        }
    }
}

/// After a resize the state is stale and the desired size is the new one,
/// whatever the state was before.
pub proof fn lemma_resized_is_stale(s: SurfaceState, size: PhysicalSize)
    ensures
        s.wf() ==> s.resized(size).wf(),
        s.resized(size).stale,
        s.resized(size).desired_size == size,
        s.resized(size).configured_size == s.configured_size,
        s.resized(size).staging == s.staging,
{
}

/// Of resizes that follow one another only the last counts.
pub proof fn lemma_last_resize_wins(s: SurfaceState, first: PhysicalSize, second: PhysicalSize)
    ensures
        s.resized(first).resized(second) == s.resized(second),
{
}

/// A device that is as the state says carries out the commands that bring
/// the surface up to date without a hazard. Afterwards the state is not
/// stale, and the device is as the new state says: the surface is configured
/// with the desired width and height and the uniform buffer holds the record
/// for them. The surface was configured once if the state was stale, and not
/// at all if it was not.
pub proof fn lemma_sync_brings_up_to_date<F>(s: SurfaceState, format: F, d: Device<F>)
    requires
        s.wf(),
        s.models(format, d),
    ensures
        s.reconfigured().wf(),
        !s.reconfigured().stale,
        s.reconfigured().desired_size == s.desired_size,
        s.reconfigured().configured_size == Some(s.desired_size),
        run(d, s.sync_commands(format)) is Some,
        s.reconfigured().models(format, run(d, s.sync_commands(format))->0),
        run(d, s.sync_commands(format))->0.surface == Some(
            surface_configuration(format, s.desired_size),
        ),
        run(d, s.sync_commands(format))->0.uniform == Some(uniforms_for(s.desired_size)),
        run(d, s.sync_commands(format))->0.configured == d.configured + (if s.stale {
            1nat
        } else {
            0nat
        }),
        run(d, s.sync_commands(format))->0.presented == d.presented,
{
    if s.stale {
        let gate: Seq<Command<F>> = if s.staging is Mapping {
            seq![Command::AwaitStaging]
        } else {
            Seq::empty()
        };
        let c0 = Seq::<Command<F>>::empty();
        let c1 = c0.push(Command::ConfigureSurface(surface_configuration(format, s.desired_size)));
        let c2 = c1.push(Command::WriteStaging(uniforms_for(s.desired_size)));
        let c3 = c2.push(Command::UnmapStaging);
        let c4 = c3.push(Command::CopyStagingToUniform { size: UNIFORMS_SIZE });
        let c5 = c4.push(Command::MapStaging);
        assert(s.sync_commands(format) =~= gate + c5);
        let ready = Device { staging: MappingState::Ready, ..d };
        if s.staging is Mapping {
            lemma_run_push(d, Seq::empty(), Command::AwaitStaging);
            assert(gate =~= Seq::<Command<F>>::empty().push(Command::AwaitStaging));
        }
        assert(run(d, gate) == Some(ready));
        lemma_run_push(ready, c0, c1.last());
        lemma_run_push(ready, c1, c2.last());
        lemma_run_push(ready, c2, c3.last());
        lemma_run_push(ready, c3, c4.last());
        lemma_run_push(ready, c4, c5.last());
        lemma_run_concat(d, gate, c5);
    }
}

/// Bringing the surface up to date twice in a row does the work once: after
/// the first time there is no command left, and the state stays as it is.
pub proof fn lemma_sync_is_idempotent<F>(s: SurfaceState, format: F)
    ensures
        s.reconfigured().reconfigured() == s.reconfigured(),
        s.reconfigured().sync_commands(format) == Seq::<Command<F>>::empty(),
{
}

/// A device that is as the state says carries out the commands of a frame
/// without a hazard, presents one frame more, and ends as the state after
/// the frame says.
pub proof fn lemma_draw_presents_one_frame<F>(s: SurfaceState, format: F, d: Device<F>)
    requires
        s.wf(),
        s.models(format, d),
    ensures
        run(d, s.draw_commands(format)) is Some,
        s.reconfigured().models(format, run(d, s.draw_commands(format))->0),
        run(d, s.draw_commands(format))->0.presented == d.presented + 1,
        run(d, s.draw_commands(format))->0.surface == Some(
            surface_configuration(format, s.desired_size),
        ),
        run(d, s.draw_commands(format))->0.uniform == Some(uniforms_for(s.desired_size)),
        run(d, s.draw_commands(format))->0.configured == d.configured + (if s.stale {
            1nat
        } else {
            0nat
        }),
{
    lemma_sync_brings_up_to_date(s, format, d);
    let synced = run(d, s.sync_commands(format))->0;
    let f0 = Seq::<Command<F>>::empty();
    let f1 = f0.push(Command::AcquireFrame);
    let f2 = f1.push(Command::Render(frame_pass()));
    let f3 = f2.push(Command::Present);
    assert(s.draw_commands(format) =~= s.sync_commands(format) + f3);
    lemma_run_push(synced, f0, f1.last());
    lemma_run_push(synced, f1, f2.last());
    lemma_run_push(synced, f2, f3.last());
    lemma_run_concat(d, s.sync_commands(format), f3);
}

} // verus!
