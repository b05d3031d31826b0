use pathland::command::Command;
use pathland::command::PhysicalSize;
use pathland::event::Event;
use pathland::event::Reaction;
use pathland::graphics::Graphics;

fn renderer() -> Graphics<u16> {
    Graphics::setup(&vec![23u16], PhysicalSize { width: 640, height: 480 }).unwrap()
}

#[test]
fn closing_ends_the_program() {
    for event in [Event::CloseRequested, Event::Destroyed, Event::LoopDestroyed] {
        let mut g: Graphics<u16> = renderer();
        assert_eq!(g.handle_event(event), Reaction::Exit);
        assert!(g.is_stale());
        assert_eq!(g.configured_size(), None);
    }
}

#[test]
fn a_new_size_is_noted_and_nothing_is_run() {
    let mut g: Graphics<u16> = renderer();
    g.draw();
    let size = PhysicalSize { width: 800, height: 600 };
    assert_eq!(g.handle_event(Event::Resized(size)), Reaction::Run(Vec::new()));
    assert!(g.is_stale());
    assert_eq!(g.desired_size(), size);
    g.draw();
    let scaled = PhysicalSize { width: 1600, height: 1200 };
    assert_eq!(g.handle_event(Event::ScaleFactorChanged(scaled)), Reaction::Run(Vec::new()));
    assert!(g.is_stale());
    assert_eq!(g.desired_size(), scaled);
}

#[test]
fn a_redraw_runs_a_frame() {
    let mut g: Graphics<u16> = renderer();
    let mut twin: Graphics<u16> = renderer();
    assert_eq!(g.handle_event(Event::RedrawRequested), Reaction::Run(twin.draw()));
    assert!(!g.is_stale());
    let again = g.handle_event(Event::RedrawRequested);
    assert_eq!(again, Reaction::Run(twin.draw()));
    if let Reaction::Run(commands) = again {
        assert_eq!(commands.len(), 3);
        assert_eq!(commands[0], Command::AcquireFrame);
    }
}

#[test]
fn other_events_pass() {
    let mut g: Graphics<u16> = renderer();
    assert_eq!(g.handle_event(Event::Other), Reaction::Run(Vec::new()));
    assert!(g.is_stale());
    g.draw();
    assert_eq!(g.handle_event(Event::Other), Reaction::Run(Vec::new()));
    assert!(!g.is_stale());
}
