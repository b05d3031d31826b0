use pathland::command::Color;
use pathland::command::Command;
use pathland::command::PhysicalSize;
use pathland::command::PresentMode;
use pathland::command::RenderPass;
use pathland::command::SurfaceConfiguration;
use pathland::command::TextureUsages;
use pathland::command::Uniforms;
use pathland::command::FIELD_OF_VIEW;
use pathland::command::UNIFORMS_SIZE;
use pathland::device::MappingState;
use pathland::graphics::configure_for;
use pathland::graphics::render_pass;
use pathland::graphics::uniforms;
use pathland::graphics::Graphics;
use pathland::graphics::SetupError;

fn size(width: u32, height: u32) -> PhysicalSize {
    PhysicalSize { width, height }
}

fn renderer(width: u32, height: u32) -> Graphics<u16> {
    Graphics::setup(&vec![23u16, 44, 18], size(width, height)).unwrap()
}

fn configuration(width: u32, height: u32) -> SurfaceConfiguration<u16> {
    SurfaceConfiguration {
        usage: TextureUsages {
            copy_src: false,
            copy_dst: false,
            texture_binding: false,
            storage_binding: false,
            render_attachment: true,
        },
        format: 23,
        width,
        height,
        present_mode: PresentMode::Mailbox,
    }
}

fn record(width: u32, height: u32) -> Uniforms {
    Uniforms { dimensions: size(width, height), field_of_view: 0x4049_0fdb }
}

fn pass() -> RenderPass {
    RenderPass {
        clear: Color { r: 0, g: 0, b: 0, a: 255 },
        store: true,
        dither_group: 0,
        uniform_group: 1,
        vertices: 5,
        instances: 1,
    }
}

fn reconfiguration(width: u32, height: u32) -> Vec<Command<u16>> {
    vec![
        Command::ConfigureSurface(configuration(width, height)),
        Command::WriteStaging(record(width, height)),
        Command::UnmapStaging,
        Command::CopyStagingToUniform { size: 12 },
        Command::MapStaging,
    ]
}

fn frame() -> Vec<Command<u16>> {
    vec![Command::AcquireFrame, Command::Render(pass()), Command::Present]
}

fn configured_sizes(commands: &Vec<Command<u16>>) -> Vec<(u32, u32)> {
    let mut sizes: Vec<(u32, u32)> = Vec::new();
    for command in commands.iter() {
        if let Command::ConfigureSurface(c) = command {
            sizes.push((c.width, c.height));
        }
    }
    sizes
}

#[test]
fn setup_takes_the_first_format_and_starts_stale() {
    let g: Graphics<u16> = renderer(640, 480);
    assert_eq!(g.surface_format(), 23);
    assert!(g.is_stale());
    assert_eq!(g.desired_size(), size(640, 480));
    assert_eq!(g.configured_size(), None);
    assert_eq!(g.staging(), MappingState::Ready);
}

#[test]
fn setup_fails_without_a_format() {
    let none: Vec<u16> = Vec::new();
    let r = Graphics::setup(&none, size(640, 480));
    assert!(matches!(r, Err(SetupError::NoSurfaceFormat)));
}

#[test]
fn resize_makes_stale_whatever_the_state() {
    let mut g: Graphics<u16> = renderer(640, 480);
    g.window_resized(size(800, 600));
    assert!(g.is_stale());
    assert_eq!(g.desired_size(), size(800, 600));
    g.draw();
    assert!(!g.is_stale());
    g.window_resized(size(1, 2));
    assert!(g.is_stale());
    assert_eq!(g.desired_size(), size(1, 2));
    assert_eq!(g.configured_size(), Some(size(800, 600)));
    assert_eq!(g.surface_format(), 23);
}

#[test]
fn reconfigure_brings_up_to_date() {
    let mut g: Graphics<u16> = renderer(640, 480);
    let commands: Vec<Command<u16>> = g.reconfigure_surface_if_stale();
    assert_eq!(commands, reconfiguration(640, 480));
    assert!(!g.is_stale());
    assert_eq!(g.configured_size(), Some(size(640, 480)));
    assert_eq!(g.desired_size(), size(640, 480));
    assert_eq!(g.staging(), MappingState::Mapping);
}

#[test]
fn reconfigure_twice_works_once() {
    let mut g: Graphics<u16> = renderer(640, 480);
    let first: Vec<Command<u16>> = g.reconfigure_surface_if_stale();
    let second: Vec<Command<u16>> = g.reconfigure_surface_if_stale();
    assert_eq!(configured_sizes(&first), vec![(640, 480)]);
    assert!(second.is_empty());
    assert!(!g.is_stale());
    assert_eq!(g.configured_size(), Some(size(640, 480)));
}

#[test]
fn first_draw_configures_for_the_initial_size_and_renders() {
    let mut g: Graphics<u16> = renderer(1280, 720);
    assert!(g.is_stale());
    let commands: Vec<Command<u16>> = g.draw();
    let mut expected: Vec<Command<u16>> = reconfiguration(1280, 720);
    expected.extend(frame());
    assert_eq!(commands, expected);
    assert!(!g.is_stale());
    assert_eq!(g.configured_size(), Some(size(1280, 720)));
}

#[test]
fn draw_after_resize_writes_the_new_uniforms() {
    let mut g: Graphics<u16> = renderer(640, 480);
    g.window_resized(size(800, 600));
    let commands: Vec<Command<u16>> = g.draw();
    let written: Vec<Uniforms> = commands
        .iter()
        .filter_map(|c| if let Command::WriteStaging(u) = c { Some(*u) } else { None })
        .collect();
    assert_eq!(written, vec![record(800, 600)]);
    let payload: [f32; 3] = [
        written[0].dimensions.width as f32,
        written[0].dimensions.height as f32,
        f32::from_bits(written[0].field_of_view),
    ];
    assert_eq!(payload, [800.0, 600.0, std::f32::consts::PI]);
    assert_eq!(configured_sizes(&commands), vec![(800, 600)]);
}

#[test]
fn of_two_resizes_only_the_last_is_applied() {
    let mut g: Graphics<u16> = renderer(640, 480);
    g.window_resized(size(800, 600));
    g.window_resized(size(1024, 768));
    let commands: Vec<Command<u16>> = g.draw();
    assert_eq!(configured_sizes(&commands), vec![(1024, 768)]);
    assert!(commands.contains(&Command::WriteStaging(record(1024, 768))));
    assert!(!commands.contains(&Command::WriteStaging(record(800, 600))));
    assert_eq!(g.configured_size(), Some(size(1024, 768)));
}

#[test]
fn draw_when_clean_only_renders() {
    let mut g: Graphics<u16> = renderer(640, 480);
    g.draw();
    assert_eq!(g.draw(), frame());
    assert_eq!(g.draw(), frame());
}

#[test]
fn later_reconfigurations_wait_for_the_staging_buffer() {
    let mut g: Graphics<u16> = renderer(640, 480);
    g.draw();
    g.window_resized(size(800, 600));
    let commands: Vec<Command<u16>> = g.draw();
    let mut expected: Vec<Command<u16>> = vec![Command::AwaitStaging];
    expected.extend(reconfiguration(800, 600));
    expected.extend(frame());
    assert_eq!(commands, expected);
    assert_eq!(g.staging(), MappingState::Mapping);
}

#[test]
fn the_parts_of_a_frame() {
    assert_eq!(configure_for(23u16, size(800, 600)), configuration(800, 600));
    assert_eq!(uniforms(size(800, 600)), record(800, 600));
    assert_eq!(render_pass(), pass());
    assert_eq!(FIELD_OF_VIEW, std::f32::consts::PI.to_bits());
    assert_eq!(UNIFORMS_SIZE, 12);
}

/// The staging buffer and the frame as the commands meet them.
struct Model {
    staging: MappingState,
    staged: Option<Uniforms>,
    uniform: Option<Uniforms>,
    surface: Option<(u32, u32)>,
    acquired: bool,
    rendered: bool,
    presented: u32,
}

fn carry_out(model: &mut Model, commands: &Vec<Command<u16>>) {
    for command in commands.iter() {
        match command {
            Command::AwaitStaging => {
                assert_eq!(model.staging, MappingState::Mapping);
                model.staging = MappingState::Ready;
            }
            Command::ConfigureSurface(c) => {
                assert!(!model.acquired);
                model.surface = Some((c.width, c.height));
            }
            Command::WriteStaging(u) => {
                assert_eq!(model.staging, MappingState::Ready);
                model.staged = Some(*u);
            }
            Command::UnmapStaging => {
                assert_eq!(model.staging, MappingState::Ready);
                model.staging = MappingState::Idle;
            }
            Command::CopyStagingToUniform { size } => {
                assert_eq!(model.staging, MappingState::Idle);
                assert_eq!(*size, 12);
                assert!(model.staged.is_some());
                model.uniform = model.staged;
            }
            Command::MapStaging => {
                assert_eq!(model.staging, MappingState::Idle);
                model.staging = MappingState::Mapping;
            }
            Command::AcquireFrame => {
                assert!(model.surface.is_some());
                assert!(!model.acquired);
                model.acquired = true;
            }
            Command::Render(_) => {
                assert!(model.acquired && !model.rendered);
                assert!(model.uniform.is_some());
                model.rendered = true;
            }
            Command::Present => {
                assert!(model.rendered);
                model.acquired = false;
                model.rendered = false;
                model.presented += 1;
            }
        }
    }
}

#[test]
fn commands_never_meet_a_buffer_in_the_wrong_state() {
    let mut g: Graphics<u16> = renderer(640, 480);
    let mut model = Model {
        staging: MappingState::Ready,
        staged: None,
        uniform: None,
        surface: None,
        acquired: false,
        rendered: false,
        presented: 0,
    };
    let mut frames: u32 = 0;
    for round in 0..40u32 {
        if round % 3 == 0 {
            g.window_resized(size(100 + round, 200 + round));
        }
        if round % 7 == 0 {
            g.window_resized(size(300 + round, 400 + round));
        }
        if round % 5 == 1 {
            let commands: Vec<Command<u16>> = g.reconfigure_surface_if_stale();
            carry_out(&mut model, &commands);
        }
        let commands: Vec<Command<u16>> = g.draw();
        carry_out(&mut model, &commands);
        frames += 1;
        assert_eq!(model.presented, frames);
        assert_eq!(model.staging, g.staging());
        let desired: PhysicalSize = g.desired_size();
        assert_eq!(model.surface, Some((desired.width, desired.height)));
        assert_eq!(model.uniform, Some(Uniforms { dimensions: desired, field_of_view: FIELD_OF_VIEW }));
    }
}
