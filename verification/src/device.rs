//! A model of what the commands act on: the surface, the staging buffer, the
//! uniform buffer and the frame in flight. It says in which states a command
//! may be carried out and what it leaves behind, so that a list of commands
//! can be shown to be free of hazards before anything runs.

use vstd::prelude::*;
use crate::command::Command;
use crate::command::SurfaceConfiguration;
use crate::command::Uniforms;
use crate::command::UNIFORMS_SIZE;

verus! {

/// Where the staging buffer stands between two writes.
#[derive(Clone, Copy, Debug, PartialEq, Eq, Structural)]
pub enum MappingState {
    /// Unmapped, with no mapping asked for.
    Idle,
    /// Unmapped, with a mapping asked for that has not completed.
    Mapping,
    /// Mapped for writing.
    Ready,
}

/// Where the image of the surface stands within a frame.
#[derive(Clone, Copy, Debug, PartialEq, Eq, Structural)]
pub enum FrameState {
    /// No image is held.
    Free,
    /// An image was acquired and nothing was drawn on it.
    Acquired,
    /// The pass was submitted for the acquired image.
    Rendered,
}

/// The state of the GPU objects, as far as the commands depend on it.
pub struct Device<F> {
    /// The active configuration of the surface.
    pub surface: Option<SurfaceConfiguration<F>>,
    /// How often the surface was configured.
    pub configured: nat,
    pub staging: MappingState,
    /// What was last written into the staging buffer.
    pub staged: Option<Uniforms>,
    /// What was last copied into the uniform buffer.
    pub uniform: Option<Uniforms>,
    pub frame: FrameState,
    /// How many frames were presented.
    pub presented: nat,
}

/// The device after one command, or `None` where the command must not be
/// carried out in this state: a write to a buffer that is not mapped, a copy
/// from a buffer that is still mapped, a frame acquired from a surface that
/// was never configured, and the like.
pub open spec fn step<F>(d: Device<F>, c: Command<F>) -> Option<Device<F>> {
    match c {
        Command::AwaitStaging => if d.staging is Mapping {
            Some(Device { staging: MappingState::Ready, ..d })
        } else {
            None
        },
        Command::ConfigureSurface(configuration) => if d.frame is Free {
            Some(Device { surface: Some(configuration), configured: d.configured + 1, ..d })
        } else {
            None
        },
        Command::WriteStaging(uniforms) => if d.staging is Ready {
            Some(Device { staged: Some(uniforms), ..d })
        } else {
            None
        },
        Command::UnmapStaging => if d.staging is Ready {
            Some(Device { staging: MappingState::Idle, ..d })
        } else {
            None
        },
        Command::CopyStagingToUniform { size } => if d.staging is Idle && d.staged is Some && size
            == UNIFORMS_SIZE {
            Some(Device { uniform: d.staged, ..d })
        } else {
            None
        },
        Command::MapStaging => if d.staging is Idle {
            Some(Device { staging: MappingState::Mapping, ..d })
        } else {
            None
        },
        Command::AcquireFrame => if d.surface is Some && d.frame is Free {
            Some(Device { frame: FrameState::Acquired, ..d })
        } else {
            None
        },
        Command::Render(_) => if d.frame is Acquired && d.uniform is Some {
            Some(Device { frame: FrameState::Rendered, ..d })
        } else {
            None
        },
        Command::Present => if d.frame is Rendered {
            Some(Device { frame: FrameState::Free, presented: d.presented + 1, ..d })
        } else {
            None
        },
    }
}

/// The device after the commands, carried out in order, or `None` where one
/// of them must not be carried out in the state that it meets.
pub open spec fn run<F>(d: Device<F>, commands: Seq<Command<F>>) -> Option<Device<F>>
    decreases commands.len(),
{
    if commands.len() == 0 {
        Some(d)
    } else {
        match run(d, commands.drop_last()) {
            Some(before) => step(before, commands.last()),
            None => None,
        }
    }
}

/// Running no command leaves the device as it is.
pub proof fn lemma_run_empty<F>(d: Device<F>)
    ensures
        run(d, Seq::<Command<F>>::empty()) == Some(d),
{
}

/// Running a list with one more command at its end is running the list and
/// then the command.
pub proof fn lemma_run_push<F>(d: Device<F>, commands: Seq<Command<F>>, c: Command<F>)
    ensures
        run(d, commands.push(c)) == match run(d, commands) {
            Some(before) => step(before, c),
            None => None,
        },
{
    assert(commands.push(c).drop_last() =~= commands);
}

/// Running two lists one after the other is running the first and then, from
/// where it ends, the second.
pub proof fn lemma_run_concat<F>(d: Device<F>, first: Seq<Command<F>>, second: Seq<Command<F>>)
    ensures
        run(d, first + second) == match run(d, first) {
            Some(between) => run(between, second),
            None => None,
        },
    decreases second.len(),
{
    if second.len() == 0 {
        assert(first + second =~= first);
    } else {
        assert((first + second).drop_last() =~= first + second.drop_last());
        lemma_run_concat(d, first, second.drop_last());
    }
}

} // verus!
