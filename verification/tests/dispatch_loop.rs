use tui_runtime::action::Action;
use tui_runtime::app::{exit_status, App, AppError, Phase, Report, Status};
use tui_runtime::component::{Component, Frame, InitError, Line, Rect};
use tui_runtime::dispatch::{drain, step, Outcome, CHAIN_LIMIT};
use tui_runtime::event::{Event, KeyCode, Modifiers};
use tui_runtime::home::Home;
use tui_runtime::tui::{Entered, Missing, Restore};

fn entered() -> Entered {
    Entered { raw_mode: true, alternate_screen: true, width: 80, height: 5 }
}

fn key(code: KeyCode) -> Event {
    Event::Key(code, Modifiers::none())
}

fn list_app(items: usize) -> App {
    App::with_home(50, entered(), Home::with_items(items)).unwrap()
}

#[test]
fn new_app_is_running_and_not_yet_drawn() {
    let app = App::new(250, entered()).unwrap();
    assert_eq!(app.phase, Phase::Running);
    assert!(!app.rendered);
    assert!(app.home.initialized);
    assert!(app.home.is_running);
    assert_eq!(app.events.tick_rate_ms, 250);
    assert_eq!(app.events.pending(), 0);
    assert!(app.tui.is_active());
    assert_eq!(app.tui.area, Rect { x: 0, y: 0, width: 80, height: 5 });
}

#[test]
fn setup_failure_aborts_before_anything_is_entered() {
    let refused = Entered { raw_mode: false, alternate_screen: false, width: 80, height: 24 };
    match App::new(50, refused) {
        Err(AppError::Setup(e)) => {
            assert_eq!(e.missing, Missing::RawMode);
            assert!(e.undo.nothing_to_do());
        }
        other => panic!("expected a setup error, got {:?}", other),
    }
}

#[test]
fn half_entered_terminal_is_rolled_back() {
    let half = Entered { raw_mode: true, alternate_screen: false, width: 80, height: 24 };
    match App::new(50, half) {
        Err(AppError::Setup(e)) => {
            assert_eq!(e.missing, Missing::AlternateScreen);
            assert_eq!(e.undo, Restore { leave_alternate_screen: false, disable_raw_mode: true });
        }
        other => panic!("expected a setup error, got {:?}", other),
    }
}

#[test]
fn init_failure_hands_the_terminal_back() {
    let mut home = Home::with_items(3);
    assert_eq!(home.init(), Ok(()));
    match App::with_home(50, entered(), home) {
        Err(AppError::Init(e, undo)) => {
            assert_eq!(e, InitError::AlreadyInitialized);
            assert_eq!(undo, Restore { leave_alternate_screen: true, disable_raw_mode: true });
        }
        other => panic!("expected an init error, got {:?}", other),
    }
}

#[test]
fn renders_are_events_plus_one() {
    let mut app = list_app(10);
    assert!(app.events.push(key(KeyCode::Down)));
    assert!(app.events.push(Event::Tick));
    assert!(app.events.push(Event::Resize(100, 3)));
    assert!(app.events.push(key(KeyCode::Other)));
    let report = app.run();
    assert_eq!(report, Report { events: 4, renders: 5, status: Status::Suspended });
    assert_eq!(report.exit_code(), None);
    assert_eq!(app.phase, Phase::Running);
    assert!(app.rendered);
    assert_eq!(app.events.pending(), 0);
    assert_eq!(app.home.selected, 1);
    assert_eq!(app.home.ticks, 1);
    assert_eq!(app.tui.area, Rect { x: 0, y: 0, width: 100, height: 3 });
}

#[test]
fn run_without_events_draws_once_and_waits() {
    let mut app = list_app(2);
    let first = app.run();
    assert_eq!(first, Report { events: 0, renders: 1, status: Status::Suspended });
    assert_eq!(
        app.tui.frame.lines,
        vec![Line { item: 0, selected: true }, Line { item: 1, selected: false }]
    );
    let second = app.run();
    assert_eq!(second, Report { events: 0, renders: 0, status: Status::Suspended });
}

#[test]
fn resumed_run_draws_once_per_event() {
    let mut app = list_app(10);
    assert_eq!(app.run().renders, 1);
    app.events.push(key(KeyCode::Down));
    app.events.push(key(KeyCode::Down));
    let report = app.run();
    assert_eq!(report, Report { events: 2, renders: 2, status: Status::Suspended });
    assert_eq!(app.home.selected, 2);
}

#[test]
fn quit_event_stops_the_loop_at_once() {
    let mut app = list_app(10);
    app.events.push(key(KeyCode::Down));
    app.events.push(Event::Quit);
    app.events.push(key(KeyCode::Down));
    let report = app.run();
    assert_eq!(report, Report { events: 2, renders: 2, status: Status::Stopped });
    assert_eq!(report.exit_code(), Some(0));
    assert_eq!(app.phase, Phase::Stopped);
    assert_eq!(app.events.pending(), 1);
    assert_eq!(app.home.selected, 1);
    let again = app.run();
    assert_eq!(again, Report { events: 0, renders: 0, status: Status::Stopped });
    assert_eq!(again.exit_code(), Some(0));
    assert_eq!(app.events.pending(), 1);
    assert_eq!(app.home.selected, 1);
}

#[test]
fn quit_key_stops_the_component_and_the_loop() {
    let mut app = list_app(10);
    app.events.push(Event::Key(KeyCode::Char('q'), Modifiers::none()));
    app.events.push(Event::Tick);
    let report = app.run();
    assert_eq!(report, Report { events: 1, renders: 1, status: Status::Stopped });
    assert!(!app.home.is_running);
    assert_eq!(app.home.ticks, 0);
    assert_eq!(app.run().renders, 0);
}

#[test]
fn control_c_quits_but_plain_c_does_not() {
    let home = Home::with_items(1);
    assert_eq!(home.handle_events(Event::Key(KeyCode::Char('c'), Modifiers::control())), Action::Quit);
    assert_eq!(home.handle_events(Event::Key(KeyCode::Char('c'), Modifiers::none())), Action::Noop);
    assert_eq!(home.handle_events(Event::Key(KeyCode::Char('q'), Modifiers::control())), Action::Noop);
}

#[test]
fn closed_stream_ends_the_loop_with_quit() {
    let mut app = list_app(10);
    app.events.push(key(KeyCode::Down));
    app.events.close();
    let report = app.run();
    assert_eq!(report, Report { events: 2, renders: 2, status: Status::Stopped });
    assert_eq!(app.home.selected, 1);
    assert_eq!(app.phase, Phase::Stopped);
}

#[test]
fn select_item_chains_into_scroll_into_view() {
    let mut app = list_app(10);
    app.events.push(Event::Resize(80, 1));
    assert_eq!(app.run(), Report { events: 1, renders: 2, status: Status::Suspended });
    let mut probe = app.home;
    let round = step(&mut probe, key(KeyCode::Down), CHAIN_LIMIT);
    assert_eq!(round.updates, 2);
    assert_eq!(round.outcome, Outcome::Continue);
    app.events.push(key(KeyCode::Down));
    let report = app.run();
    assert_eq!(report, Report { events: 1, renders: 1, status: Status::Suspended });
    assert_eq!(app.home, probe);
    assert_eq!(app.home.selected, 1);
    assert_eq!(app.home.offset, 1);
    assert_eq!(app.tui.frame.lines, vec![Line { item: 1, selected: true }]);
}

#[test]
fn dispatch_yields_the_follow_up_action() {
    let mut home = Home::with_items(4);
    assert_eq!(home.dispatch(Action::SelectItem(2)), Some(Action::ScrollIntoView(2)));
    assert_eq!(home.selected, 2);
    assert_eq!(home.dispatch(Action::ScrollIntoView(2)), None);
    assert_eq!(home.dispatch(Action::SelectItem(4)), None);
    assert_eq!(home.selected, 2);
    assert_eq!(home.dispatch(Action::Resize(10, 2)), Some(Action::ScrollIntoView(2)));
    assert_eq!((home.columns, home.rows), (10, 2));
    assert_eq!(home.dispatch(Action::ScrollIntoView(2)), None);
    assert_eq!(home.offset, 1);
    assert_eq!(home.dispatch(Action::ScrollIntoView(0)), None);
    assert_eq!(home.offset, 0);
    assert_eq!(home.dispatch(Action::Noop), None);
    assert_eq!(home.dispatch(Action::Render), None);
    assert_eq!(home.dispatch(Action::Tick), None);
    assert_eq!(home.ticks, 1);
    assert_eq!(home.dispatch(Action::Quit), None);
    assert!(!home.is_running());
}

#[test]
fn tick_count_stays_at_the_maximum() {
    let mut home = Home::with_items(0);
    home.ticks = u64::MAX;
    assert_eq!(home.dispatch(Action::Tick), None);
    assert_eq!(home.ticks, u64::MAX);
}

#[test]
fn selection_stops_at_both_ends() {
    let mut home = Home::with_items(2);
    assert_eq!(home.handle_events(key(KeyCode::Up)), Action::Noop);
    assert_eq!(home.handle_events(key(KeyCode::Down)), Action::SelectItem(1));
    home.selected = 1;
    assert_eq!(home.handle_events(key(KeyCode::Down)), Action::Noop);
    assert_eq!(home.handle_events(key(KeyCode::Up)), Action::SelectItem(0));
    assert_eq!(home.handle_events(key(KeyCode::Enter)), Action::Noop);
    assert_eq!(home.handle_events(Event::Tick), Action::Tick);
    assert_eq!(home.handle_events(Event::Resize(3, 4)), Action::Resize(3, 4));
    assert_eq!(home.handle_events(Event::Quit), Action::Quit);
}

#[test]
fn drain_is_cut_off_at_the_limit() {
    let mut home = Home::with_items(4);
    let cut = drain(&mut home, Action::SelectItem(1), 1);
    assert_eq!(cut.updates, 1);
    assert!(cut.overflow);
    assert_eq!(home.selected, 1);
    let mut other = Home::with_items(4);
    let whole = drain(&mut other, Action::SelectItem(1), 2);
    assert_eq!(whole.updates, 2);
    assert!(!whole.overflow);
    let none = drain(&mut other, Action::Quit, 0);
    assert_eq!(none.updates, 0);
    assert!(none.overflow);
    assert!(other.is_running);
}

#[test]
fn overflowing_round_is_fatal() {
    let mut home = Home::with_items(4);
    let round = step(&mut home, key(KeyCode::Down), 1);
    assert_eq!(round.updates, 1);
    assert_eq!(round.outcome, Outcome::ChainOverflow);
    let report = Report { events: 1, renders: 1, status: Status::ChainOverflow };
    assert_eq!(report.exit_code(), Some(1));
}

#[test]
fn chain_limit_is_never_reached_by_home() {
    let events = vec![
        Event::Tick,
        key(KeyCode::Down),
        key(KeyCode::Up),
        Event::Resize(1, 1),
        Event::Quit,
    ];
    for event in events {
        let mut home = Home::with_items(3);
        home.selected = 1;
        let round = step(&mut home, event, CHAIN_LIMIT);
        assert!(round.updates >= 1 && round.updates <= 2);
        assert_ne!(round.outcome, Outcome::ChainOverflow);
    }
}

#[test]
fn render_reads_state_into_the_frame() {
    let mut home = Home::with_items(5);
    home.offset = 3;
    home.selected = 4;
    let before = home;
    let mut frame = Frame::new();
    home.render(&mut frame, Rect { x: 0, y: 0, width: 10, height: 10 });
    assert_eq!(frame.lines, vec![Line { item: 3, selected: false }, Line { item: 4, selected: true }]);
    home.render(&mut frame, Rect { x: 0, y: 0, width: 10, height: 1 });
    assert_eq!(frame.lines, vec![Line { item: 3, selected: false }]);
    home.render(&mut frame, Rect { x: 0, y: 0, width: 10, height: 0 });
    assert!(frame.lines.is_empty());
    assert_eq!(home, before);
}

#[test]
fn shutdown_restores_the_terminal_once() {
    let mut app = list_app(1);
    app.run();
    let first = app.shutdown();
    assert_eq!(first, Restore { leave_alternate_screen: true, disable_raw_mode: true });
    assert_eq!(app.phase, Phase::Stopped);
    assert!(app.events.closed);
    assert!(!app.tui.is_active());
    let second = app.shutdown();
    assert!(second.nothing_to_do());
    assert_eq!(app.run(), Report { events: 0, renders: 0, status: Status::Stopped });
}

#[test]
fn keys_between_ticks_keep_their_order() {
    let mut app = list_app(10);
    let a = key(KeyCode::Char('a'));
    let b = key(KeyCode::Char('b'));
    let c = key(KeyCode::Char('c'));
    assert!(app.events.advance(0));
    app.events.push(a);
    assert!(!app.events.advance(10));
    app.events.push(b);
    assert!(!app.events.advance(20));
    app.events.push(c);
    assert!(!app.events.advance(30));
    assert_eq!(app.events.queue, vec![Event::Tick, a, b, c]);
    let report = app.run();
    assert_eq!(report, Report { events: 4, renders: 5, status: Status::Suspended });
    assert_eq!(app.home.ticks, 1);
    assert_eq!(app.events.pending(), 0);
}

#[test]
fn each_key_is_preceded_by_one_render() {
    let mut app = list_app(10);
    let mut renders: usize = 0;
    let mut now: u64 = 0;
    let mut taken: usize = 0;
    for code in [KeyCode::Char('a'), KeyCode::Char('b'), KeyCode::Char('c')] {
        let first = app.run();
        assert_eq!(first.status, Status::Suspended);
        renders += first.renders;
        taken += first.events;
        assert_eq!(renders, taken + 1);
        app.events.advance(now);
        app.events.push(key(code));
        now += 10;
    }
    let last = app.run();
    renders += last.renders;
    taken += last.events;
    assert_eq!(taken, 4);
    assert_eq!(renders, 5);
}

#[test]
fn selection_stays_in_view_after_every_round() {
    let mut app = list_app(20);
    app.events.push(Event::Resize(40, 3));
    let mut n: usize = 0;
    while n < 7 {
        app.events.push(key(KeyCode::Down));
        n += 1;
    }
    app.events.push(Event::Resize(40, 2));
    app.events.push(key(KeyCode::Up));
    let report = app.run();
    assert_eq!(report, Report { events: 10, renders: 11, status: Status::Suspended });
    assert_eq!(app.home.selected, 6);
    assert_eq!(app.home.offset, 6);
    assert_eq!(
        app.tui.frame.lines,
        vec![Line { item: 6, selected: true }, Line { item: 7, selected: false }]
    );
}

#[test]
fn exit_status_is_zero_only_for_a_clean_end() {
    assert_eq!(exit_status(Ok(())), 0);
    assert_eq!(exit_status(Err(AppError::Render)), 1);
    assert_eq!(exit_status(Err(AppError::Teardown)), 1);
    assert_eq!(exit_status(Err(AppError::ChainOverflow)), 1);
    let suspended = Report { events: 0, renders: 1, status: Status::Suspended };
    assert_eq!(suspended.verdict(), None);
    let stopped = Report { events: 1, renders: 1, status: Status::Stopped };
    assert_eq!(stopped.verdict(), Some(Ok(())));
    let overflow = Report { events: 1, renders: 1, status: Status::ChainOverflow };
    assert_eq!(overflow.verdict(), Some(Err(AppError::ChainOverflow)));
}

#[test]
fn typed_bytes_drive_the_loop() {
    let mut app = list_app(3);
    assert_eq!(app.events.push_bytes(&[0x1b, b'[', b'B', 0x1b, b'[', b'B', b'q', b'x']), 4);
    let report = app.run();
    assert_eq!(report, Report { events: 3, renders: 3, status: Status::Stopped });
    assert_eq!(app.home.selected, 2);
    assert_eq!(app.events.pending(), 1);
}
