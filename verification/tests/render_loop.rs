use fay::{Command, Event, KeyCode, KeyState, LoopState, Projection, Ratio, RenderLoop, Window};

fn drawing(projection: Projection) -> Vec<Command> {
    vec![
        Command::UploadConstants(projection),
        Command::Clear,
        Command::Draw,
        Command::Submit,
        Command::Present,
        Command::Reclaim,
    ]
}

fn escape_press() -> Event {
    Event::KeyboardInput(KeyState::Pressed, Some(KeyCode::Escape))
}

fn count(commands: &[Command], wanted: Command) -> usize {
    commands.iter().filter(|c| **c == wanted).count()
}

#[test]
fn new_loop_runs_with_square_projection() {
    let render_loop = RenderLoop::new();
    assert!(render_loop.is_running());
    assert_eq!(render_loop.state(), LoopState::Running);
    let p = render_loop.projection();
    assert_eq!(p.left, Ratio { num: -1, den: 1 });
    assert_eq!(p.right, Ratio { num: 1, den: 1 });
    assert_eq!(p.bottom, Ratio { num: -1, den: 1 });
    assert_eq!(p.top, Ratio { num: 1, den: 1 });
    assert_eq!(p.near, Ratio { num: -1, den: 1 });
    assert_eq!(p.far, Ratio { num: 8, den: 1 });
}

#[test]
fn resize_then_frame_scales_horizontal_bound() {
    let window = Window::new(800, 600);
    assert_eq!((window.width(), window.height()), (800, 600));
    let mut render_loop = RenderLoop::new();
    let commands = render_loop.run_frame(&vec![Event::Resized(400, 600)]);

    assert!(render_loop.is_running());
    let p = render_loop.projection();
    assert_eq!(p.right, Ratio { num: 400, den: 600 });
    assert_eq!(p.left, Ratio { num: -400, den: 600 });
    let bound = p.right.num as f64 / p.right.den as f64;
    let vertical = p.top.num as f64 / p.top.den as f64;
    assert_eq!(vertical, 1.0);
    assert!((bound - 0.667).abs() < 0.001);
    assert_eq!(bound, vertical * (400.0 / 600.0));

    let mut expected = vec![Command::UpdateViews];
    expected.extend(drawing(p));
    assert_eq!(commands, expected);
}

#[test]
fn escape_press_terminates_and_no_frame_follows() {
    let mut render_loop = RenderLoop::new();
    let commands = render_loop.run_frame(&vec![escape_press()]);
    assert_eq!(commands, Vec::<Command>::new());
    assert!(!render_loop.is_running());
    assert_eq!(render_loop.state(), LoopState::Terminated);

    for _ in 0..5 {
        let later = render_loop.run_frame(&vec![Event::Resized(10, 10), Event::Other]);
        assert_eq!(later, Vec::<Command>::new());
        assert_eq!(render_loop.state(), LoopState::Terminated);
    }
    assert_eq!(render_loop.projection(), Projection::initial());
}

#[test]
fn ten_frames_without_events_all_draw_and_present() {
    let mut render_loop = RenderLoop::new();
    let mut presented = 0;
    for _ in 0..10 {
        let commands = render_loop.run_frame(&Vec::new());
        assert_eq!(commands, drawing(Projection::initial()));
        assert_eq!(count(&commands, Command::Clear), 1);
        assert_eq!(count(&commands, Command::Draw), 1);
        presented += count(&commands, Command::Present);
        assert!(render_loop.is_running());
    }
    assert_eq!(presented, 10);
}

#[test]
fn close_request_terminates() {
    let mut render_loop = RenderLoop::new();
    let commands = render_loop.run_frame(&vec![Event::Other, Event::Closed]);
    assert_eq!(commands, Vec::<Command>::new());
    assert_eq!(render_loop.state(), LoopState::Terminated);
}

#[test]
fn batches_without_quit_event_never_terminate() {
    let harmless = vec![
        Event::Other,
        Event::Resized(640, 480),
        Event::Resized(0, 0),
        Event::KeyboardInput(KeyState::Released, Some(KeyCode::Escape)),
        Event::KeyboardInput(KeyState::Pressed, Some(KeyCode::Other)),
        Event::KeyboardInput(KeyState::Pressed, None),
        Event::KeyboardInput(KeyState::Released, None),
        Event::KeyboardInput(KeyState::Released, Some(KeyCode::Other)),
    ];
    let mut render_loop = RenderLoop::new();
    let commands = render_loop.run_frame(&harmless);
    assert!(render_loop.is_running());
    assert_eq!(count(&commands, Command::Present), 1);

    for event in &harmless {
        assert!(!event.quits());
        let mut single = RenderLoop::new();
        single.run_frame(&vec![*event]);
        assert!(single.is_running());
    }
}

#[test]
fn quit_events_are_close_and_escape_press_only() {
    assert!(Event::Closed.quits());
    assert!(escape_press().quits());
    assert!(!Event::Other.quits());
    assert!(!Event::Resized(1, 1).quits());
    assert!(!Event::KeyboardInput(KeyState::Released, Some(KeyCode::Escape)).quits());
    assert!(!Event::KeyboardInput(KeyState::Pressed, Some(KeyCode::Other)).quits());
    assert!(!Event::KeyboardInput(KeyState::Pressed, None).quits());
}

#[test]
fn quit_anywhere_in_batch_terminates() {
    for position in 0..4 {
        for quit in [Event::Closed, escape_press()] {
            let mut events = vec![Event::Other, Event::Resized(3, 2), Event::Other];
            events.insert(position, quit);
            let mut render_loop = RenderLoop::new();
            let commands = render_loop.run_frame(&events);
            assert_eq!(render_loop.state(), LoopState::Terminated);
            assert_eq!(count(&commands, Command::Draw), 0);
            assert_eq!(count(&commands, Command::Present), 0);
        }
    }
}

#[test]
fn events_after_quit_are_ignored() {
    let mut render_loop = RenderLoop::new();
    let commands = render_loop.run_frame(&vec![
        Event::Resized(300, 100),
        Event::Closed,
        Event::Resized(100, 300),
    ]);
    assert_eq!(commands, vec![Command::UpdateViews]);
    assert_eq!(render_loop.state(), LoopState::Terminated);
    assert_eq!(render_loop.projection().right, Ratio { num: 300, den: 100 });
}

#[test]
fn resize_to_zero_height_keeps_projection_and_updates_views() {
    let mut render_loop = RenderLoop::new();
    render_loop.run_frame(&vec![Event::Resized(1024, 768)]);
    let before = render_loop.projection();
    let commands = render_loop.run_frame(&vec![Event::Resized(1024, 0)]);
    assert_eq!(render_loop.projection(), before);
    let mut expected = vec![Command::UpdateViews];
    expected.extend(drawing(before));
    assert_eq!(commands, expected);
    assert!(render_loop.is_running());

    let mut fresh = RenderLoop::new();
    fresh.run_frame(&vec![Event::Resized(0, 0)]);
    assert_eq!(fresh.projection(), Projection::initial());
    assert!(fresh.projection().right.den > 0);
}

#[test]
fn resize_to_zero_width_gives_flat_projection() {
    let mut render_loop = RenderLoop::new();
    render_loop.run_frame(&vec![Event::Resized(0, 600)]);
    let p = render_loop.projection();
    assert_eq!(p.right, Ratio { num: 0, den: 600 });
    assert_eq!(p.left, Ratio { num: 0, den: 600 });
}

#[test]
fn upload_carries_latest_projection_before_draw() {
    let mut render_loop = RenderLoop::new();
    let commands = render_loop.run_frame(&vec![
        Event::Resized(100, 200),
        Event::Other,
        Event::Resized(1920, 1080),
        Event::Resized(7, 0),
    ]);
    let latest = Projection::for_size(1920, 1080).unwrap();
    assert_eq!(render_loop.projection(), latest);

    let draw_at = commands.iter().position(|c| *c == Command::Draw).unwrap();
    let uploads: Vec<(usize, Projection)> = commands
        .iter()
        .enumerate()
        .filter_map(|(i, c)| match c {
            Command::UploadConstants(p) => Some((i, *p)),
            _ => None,
        })
        .collect();
    assert_eq!(uploads.len(), 1);
    assert!(uploads[0].0 < draw_at);
    assert_eq!(uploads[0].1, latest);
    assert_eq!(
        &commands[..3],
        &[Command::UpdateViews, Command::UpdateViews, Command::UpdateViews]
    );
    assert_eq!(commands[3..].to_vec(), drawing(latest));
}

#[test]
fn upload_repeats_every_frame_with_current_projection() {
    let mut render_loop = RenderLoop::new();
    render_loop.run_frame(&vec![Event::Resized(5, 4)]);
    let current = Projection::for_size(5, 4).unwrap();
    for _ in 0..3 {
        let commands = render_loop.run_frame(&vec![Event::Other]);
        assert_eq!(commands, drawing(current));
    }
}

#[test]
fn handle_event_reports_view_updates_only_for_resizes() {
    let mut render_loop = RenderLoop::new();
    assert_eq!(render_loop.handle_event(&Event::Other), None);
    assert_eq!(
        render_loop.handle_event(&Event::Resized(2, 1)),
        Some(Command::UpdateViews)
    );
    assert_eq!(render_loop.projection().right, Ratio { num: 2, den: 1 });
    assert_eq!(
        render_loop.handle_event(&Event::Resized(2, 0)),
        Some(Command::UpdateViews)
    );
    assert_eq!(render_loop.projection().right, Ratio { num: 2, den: 1 });
    assert_eq!(
        render_loop.handle_event(&Event::KeyboardInput(KeyState::Pressed, Some(KeyCode::Other))),
        None
    );
    assert!(render_loop.is_running());
    assert_eq!(render_loop.handle_event(&escape_press()), None);
    assert!(!render_loop.is_running());
    assert_eq!(render_loop.handle_event(&Event::Resized(9, 9)), None);
    assert_eq!(render_loop.projection().right, Ratio { num: 2, den: 1 });
}

#[test]
fn render_of_terminated_loop_is_empty() {
    let mut render_loop = RenderLoop::new();
    assert_eq!(render_loop.render(), drawing(Projection::initial()));
    render_loop.handle_event(&Event::Closed);
    assert_eq!(render_loop.render(), Vec::<Command>::new());
}

#[test]
fn run_frame_agrees_with_event_by_event_handling() {
    let events = vec![
        Event::Resized(11, 13),
        Event::Other,
        Event::Resized(17, 0),
        Event::KeyboardInput(KeyState::Released, Some(KeyCode::Escape)),
        Event::Resized(19, 23),
    ];
    let mut batch = RenderLoop::new();
    let commands = batch.run_frame(&events);

    let mut single = RenderLoop::new();
    let mut expected = Vec::new();
    for event in &events {
        if let Some(command) = single.handle_event(event) {
            expected.push(command);
        }
    }
    expected.extend(single.render());
    assert_eq!(commands, expected);
    assert_eq!(batch.state(), single.state());
    assert_eq!(batch.projection(), single.projection());
}

#[test]
fn vertex_buffer_is_never_touched() {
    let mut render_loop = RenderLoop::new();
    let uploaded = render_loop.vertices().clone();
    assert_eq!(uploaded, fay::scene::quad_vertices());
    let batches = vec![
        vec![],
        vec![Event::Resized(1, 2), Event::Other],
        vec![Event::Resized(1, 0)],
        vec![Event::KeyboardInput(KeyState::Pressed, Some(KeyCode::Other))],
        vec![escape_press()],
        vec![Event::Closed, Event::Resized(4, 4)],
    ];
    for batch in &batches {
        render_loop.run_frame(batch);
        assert_eq!(render_loop.vertices(), &uploaded);
    }
    for event in [Event::Resized(8, 8), Event::Closed, Event::Other] {
        render_loop.handle_event(&event);
        assert_eq!(render_loop.vertices(), &uploaded);
    }
}
