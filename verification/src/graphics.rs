//! The renderer's state and its decisions. What has to happen on the GPU
//! comes back as a list of commands for its owner to carry out, in order.

use vstd::prelude::*;
use crate::command::Color;
use crate::command::Command;
use crate::command::PhysicalSize;
use crate::command::PresentMode;
use crate::command::RenderPass;
use crate::command::SurfaceConfiguration;
use crate::command::TextureUsages;
use crate::command::Uniforms;
use crate::command::FIELD_OF_VIEW;
use crate::command::UNIFORMS_SIZE;
use crate::command::frame_pass;
use crate::command::surface_configuration;
use crate::command::uniforms_for;
use crate::device::MappingState;
use crate::event::Event;
use crate::event::Reaction;
use crate::surface::SurfaceState;

verus! {

/// Why the renderer could not be set up.
#[derive(Clone, Copy, Debug, PartialEq, Eq, Structural)]
pub enum SetupError {
    /// The surface supports no pixel format.
    NoSurfaceFormat,
}

/// The renderer: the pixel format that was fixed at startup, the size that
/// the window wants, and how far the surface and the buffers are behind it.
pub struct Graphics<F> {
    surface_format: F,
    surface_stale: bool,
    desired_size: PhysicalSize,
    configured_size: Option<PhysicalSize>,
    staging: MappingState,
}

/// The configuration of the surface for the given size.
pub fn configure_for<F>(format: F, size: PhysicalSize) -> (configuration: SurfaceConfiguration<F>)
    ensures
        configuration == surface_configuration(format, size),
{
    SurfaceConfiguration {
        usage: TextureUsages {
            copy_src: false,
            copy_dst: false,
            texture_binding: false,
            storage_binding: false,
            render_attachment: true,
        },
        format,
        width: size.width,
        height: size.height,
        present_mode: PresentMode::Mailbox,
    }
}

/// The uniform record for a viewport of the given size.
pub fn uniforms(size: PhysicalSize) -> (record: Uniforms)
    ensures
        record == uniforms_for(size),
{
    Uniforms { dimensions: size, field_of_view: FIELD_OF_VIEW }
}

/// The render pass of every frame.
pub fn render_pass() -> (pass: RenderPass)
    ensures
        pass == frame_pass(),
{
    RenderPass {
        clear: Color { r: 0, g: 0, b: 0, a: 255 },
        store: true,
        dither_group: 0,
        uniform_group: 1,
        vertices: 5,
        instances: 1,
    }
}

impl<F> Graphics<F> {
    /// What the renderer knows of the surface and the staging buffer.
    pub closed spec fn state(&self) -> SurfaceState {
        SurfaceState {
            desired_size: self.desired_size,
            stale: self.surface_stale,
            configured_size: self.configured_size,
            staging: self.staging,
        }
    }

    /// The pixel format of the surface.
    pub closed spec fn format(&self) -> F {
        self.surface_format
    }

    #[verifier::type_invariant]
    spec fn well_formed(&self) -> bool {
        self.state().wf()
    }
}

impl<F: Copy> Graphics<F> {
    /// Sets the renderer up for a surface that supports the given formats,
    /// most preferred first, and a window of the given size. The first
    /// format is taken; nothing is configured yet, so the state is stale.
    pub fn setup(supported_formats: &Vec<F>, size: PhysicalSize) -> (r: Result<Self, SetupError>)
        ensures
            r is Err <==> supported_formats@.len() == 0,
            r matches Err(e) ==> e == SetupError::NoSurfaceFormat,
            r matches Ok(g) ==> g.format() == supported_formats@[0] && g.state()
                == SurfaceState::initial(size),
    {
        if supported_formats.len() == 0 {
            return Err(SetupError::NoSurfaceFormat);
        }
        Ok(
            Graphics {
                surface_format: supported_formats[0],
                surface_stale: true,
                desired_size: size,
                configured_size: None,
                staging: MappingState::Ready,
            },
        )
    }

    /// The pixel format of the surface, fixed at startup.
    pub fn surface_format(&self) -> (format: F)
        ensures
            format == self.format(),
    {
        self.surface_format
    }

    /// The size that the window has asked for last.
    pub fn desired_size(&self) -> (size: PhysicalSize)
        ensures
            size == self.state().desired_size,
    {
        self.desired_size
    }

    /// Whether the surface is out of date with respect to the desired size.
    pub fn is_stale(&self) -> (stale: bool)
        ensures
            stale == self.state().stale,
    {
        self.surface_stale
    }

    /// The size that the surface was configured for last, if it ever was.
    pub fn configured_size(&self) -> (size: Option<PhysicalSize>)
        ensures
            size == self.state().configured_size,
    {
        self.configured_size
    }

    /// Where the staging buffer stands.
    pub fn staging(&self) -> (staging: MappingState)
        ensures
            staging == self.state().staging,
    {
        self.staging
    }

    /// Takes note of a new size of the window. The surface is stale from
    /// now on, whatever it was before.
    pub fn window_resized(&mut self, new_size: PhysicalSize)
        ensures
            final(self).state() == old(self).state().resized(new_size),
            final(self).state().stale,
            final(self).state().desired_size == new_size,
            final(self).state().wf(),
            final(self).format() == old(self).format(),
    {
        proof {
            use_type_invariant(&*self);
        }
        self.surface_stale = true;
        self.desired_size = new_size;
    }

    /// Configures the surface for the desired size and publishes the
    /// uniforms for it through the staging buffer. The write is gated: where
    /// the re-map that the last call asked for is pending, the commands
    /// start by waiting for it.
    fn reconfigure_surface(&mut self) -> (commands: Vec<Command<F>>)
        requires
            old(self).state().stale,
        ensures
            commands@ == old(self).state().reconfigure_commands(old(self).format()),
            final(self).state() == old(self).state().reconfigured(),
            final(self).state().wf(),
            final(self).format() == old(self).format(),
    {
        proof {
            use_type_invariant(&*self);
        }
        let mut commands: Vec<Command<F>> = Vec::new();
        match self.staging {
            MappingState::Mapping => {
                commands.push(Command::AwaitStaging);
            },
            _ => {},
        }
        commands.push(Command::ConfigureSurface(configure_for(self.surface_format, self.desired_size)));
        commands.push(Command::WriteStaging(uniforms(self.desired_size)));
        commands.push(Command::UnmapStaging);
        commands.push(Command::CopyStagingToUniform { size: UNIFORMS_SIZE });
        commands.push(Command::MapStaging);
        assert(commands@ =~= old(self).state().reconfigure_commands(old(self).format()));
        *self = Graphics {
            surface_format: self.surface_format,
            surface_stale: false,
            desired_size: self.desired_size,
            configured_size: Some(self.desired_size),
            staging: MappingState::Mapping,
        };
        commands
    }

    /// Brings the surface up to date if it is stale, and does nothing if it
    /// is not.
    pub fn reconfigure_surface_if_stale(&mut self) -> (commands: Vec<Command<F>>)
        ensures
            commands@ == old(self).state().sync_commands(old(self).format()),
            final(self).state() == old(self).state().reconfigured(),
            !final(self).state().stale,
            final(self).state().configured_size == Some(old(self).state().desired_size),
            final(self).state().wf(),
            final(self).format() == old(self).format(),
    {
        proof {
            use_type_invariant(&*self);
        }
        if self.surface_stale {
            self.reconfigure_surface()
        } else {
            Vec::new()
        }
    }

    /// One frame: brings the surface up to date if it is stale, then
    /// acquires an image, renders the pass on it and presents it.
    pub fn draw(&mut self) -> (commands: Vec<Command<F>>)
        ensures
            commands@ == old(self).state().draw_commands(old(self).format()),
            final(self).state() == old(self).state().reconfigured(),
            !final(self).state().stale,
            final(self).state().configured_size == Some(old(self).state().desired_size),
            final(self).state().wf(),
            final(self).format() == old(self).format(),
    {
        let mut commands = self.reconfigure_surface_if_stale();
        commands.push(Command::AcquireFrame);
        commands.push(Command::Render(render_pass()));
        commands.push(Command::Present);
        assert(commands@ =~= old(self).state().draw_commands(old(self).format()));
        commands
    }

    /// Reacts to an event of the window: ends the program when the window
    /// or its event loop goes away, takes note of a new size, draws a frame
    /// when asked to, and lets everything else pass.
    pub fn handle_event(&mut self, event: Event) -> (reaction: Reaction<F>)
        ensures
            final(self).format() == old(self).format(),
            final(self).state() == old(self).state().after(event),
            final(self).state().wf(),
            reaction is Exit <==> event.is_final(),
            reaction matches Reaction::Run(commands) ==> commands@ == old(
                self,
            ).state().commands_after(old(self).format(), event),
    {
        proof {
            use_type_invariant(&*self);
        }
        match event {
            Event::CloseRequested => Reaction::Exit,
            Event::Destroyed => Reaction::Exit,
            Event::LoopDestroyed => Reaction::Exit,
            Event::Resized(new_size) => {
                self.window_resized(new_size);
                Reaction::Run(Vec::new())
            },
            Event::ScaleFactorChanged(new_size) => {
                self.window_resized(new_size);
                Reaction::Run(Vec::new())
            },
            Event::RedrawRequested => Reaction::Run(self.draw()),
            Event::Other => Reaction::Run(Vec::new()),
        }
    }
}

} // verus!
