use render_loop::{Action, App, AppRuntimeInfo, Event, KeyCode, ShouldRender};

const R: ShouldRender = ShouldRender::Render;
const S: ShouldRender = ShouldRender::Skip;

fn nothing() -> Action {
    Action { advance: false, resize: None, advance_timer: false, draw: false }
}

#[test]
fn merge_is_associative_commutative_idempotent() {
    let all = [R, S];
    for a in all {
        assert_eq!(a.or(a), a);
        for b in all {
            assert_eq!(a.or(b), b.or(a));
            for c in all {
                assert_eq!(a.or(b).or(c), a.or(b.or(c)));
            }
        }
    }
    assert_eq!(S.or(S), S);
    assert_eq!(R.or(S), R);
    assert_eq!(S.or(R), R);
    assert!(R.is_render());
    assert!(!S.is_render());
}

#[test]
fn new_app_starts_pending_render() {
    let app = App::new(60, 4);
    assert!(!app.should_quit());
    assert_eq!(app.should_render(), R);
    assert_eq!(app.frame_in_second(), 0);
    assert_eq!(app.runtime_info(), AppRuntimeInfo { fps: 0 });
}

#[test]
fn quit_class_events_terminate() {
    let quitting = [
        Event::Quit,
        Event::Error,
        Event::Key(KeyCode::Esc),
        Event::Key(KeyCode::Char('q')),
        Event::Key(KeyCode::Char('Q')),
    ];
    for e in quitting {
        let mut app = App::new(60, 4);
        assert_eq!(app.handle_event(e, S), nothing());
        assert!(app.should_quit());
    }
    let others = [
        Event::Init,
        Event::Render,
        Event::Tick,
        Event::Timer,
        Event::Resize(10, 10),
        Event::Key(KeyCode::Char('x')),
        Event::Key(KeyCode::Other),
    ];
    let mut app = App::new(60, 4);
    for e in others {
        app.handle_event(e, S);
        assert!(!app.should_quit());
    }
    app.handle_event(Event::Key(KeyCode::Esc), S);
    app.handle_event(Event::Init, S);
    assert!(app.should_quit());
}

#[test]
fn non_render_events_then_render_draw_once() {
    let mut app = App::new(60, 4);
    let events = vec![Event::Init, Event::Tick, Event::Key(KeyCode::Other), Event::Tick, Event::Render];
    let hints = vec![S, S, S, S, S];
    let actions = app.run(&events, &hints);
    assert_eq!(actions.len(), 5);
    assert_eq!(actions.iter().filter(|a| a.draw).count(), 1);
    assert!(actions[4].draw);
    assert_eq!(app.should_render(), S);
    let again = app.handle_event(Event::Render, S);
    assert!(!again.draw);
}

#[test]
fn collapsed_render_advances_once() {
    let mut app = App::new(30, 30);
    assert!(app.advances_on(&Event::Render));
    assert!(app.advances_on(&Event::Tick));
    assert!(!app.advances_on(&Event::Timer));
    let a = app.handle_event(Event::Render, S);
    assert!(a.advance);
    assert!(a.draw);
    assert_eq!(app.frame_in_second(), 1);
    let b = app.handle_event(Event::Render, S);
    assert!(b.advance);
    assert!(!b.draw);
    assert_eq!(app.frame_in_second(), 2);
}

#[test]
fn separate_rates_render_does_not_advance() {
    let mut app = App::new(60, 4);
    assert!(!app.advances_on(&Event::Render));
    let a = app.handle_event(Event::Render, R);
    assert!(!a.advance);
    assert!(a.draw);
    assert_eq!(app.frame_in_second(), 0);
}

#[test]
fn tick_merges_hint() {
    let mut app = App::new(60, 4);
    app.handle_event(Event::Render, S);
    assert_eq!(app.should_render(), S);
    let a = app.handle_event(Event::Tick, S);
    assert_eq!(a, Action { advance: true, ..nothing() });
    assert_eq!(app.should_render(), S);
    app.handle_event(Event::Tick, R);
    assert_eq!(app.should_render(), R);
    assert_eq!(app.frame_in_second(), 2);
}

#[test]
fn timer_folds_frame_counter() {
    let mut app = App::new(60, 4);
    for _ in 0..7 {
        app.handle_event(Event::Tick, S);
    }
    app.handle_event(Event::Render, S);
    let a = app.handle_event(Event::Timer, S);
    assert_eq!(a, Action { advance_timer: true, ..nothing() });
    assert_eq!(app.frame_in_second(), 0);
    assert_eq!(app.runtime_info().fps, 7);
    assert_eq!(app.should_render(), R);
    app.handle_event(Event::Timer, S);
    assert_eq!(app.runtime_info().fps, 0);
}

#[test]
fn resize_forwards_dimensions_and_forces_render() {
    let mut app = App::new(60, 4);
    app.handle_event(Event::Render, S);
    let a = app.handle_event(Event::Resize(80, 24), S);
    assert_eq!(a, Action { resize: Some((80, 24)), ..nothing() });
    assert_eq!(app.should_render(), R);
}

#[test]
fn scenario_separate_rates() {
    let mut app = App::new(60, 4);
    let events = vec![
        Event::Init,
        Event::Resize(80, 24),
        Event::Tick,
        Event::Render,
        Event::Timer,
        Event::Key(KeyCode::Esc),
    ];
    let hints = vec![S; 6];
    let actions = app.run(&events, &hints);
    assert_eq!(actions.len(), 6);
    let drawn: Vec<usize> = (0..6).filter(|&i| actions[i].draw).collect();
    assert_eq!(drawn, vec![3]);
    assert_eq!(app.runtime_info().fps, 1);
    assert!(app.should_quit());

    let mut step = App::new(60, 4);
    for e in &events[..5] {
        step.handle_event(*e, S);
        assert!(!step.should_quit());
    }
    assert_eq!(step.runtime_info().fps, 1);
    step.handle_event(events[5], S);
    assert!(step.should_quit());
}

#[test]
fn scenario_equal_rates_three_renders() {
    let mut app = App::new(10, 10);
    let events = vec![Event::Render, Event::Render, Event::Render];
    let hints = vec![R, R, R];
    let actions = app.run(&events, &hints);
    assert_eq!(actions.len(), 3);
    assert_eq!(actions.iter().filter(|a| a.advance).count(), 3);
    assert_eq!(actions.iter().filter(|a| a.draw).count(), 3);
    assert_eq!(app.frame_in_second(), 3);
}

#[test]
fn run_stops_after_quit() {
    let mut app = App::new(60, 4);
    let events = vec![Event::Tick, Event::Quit, Event::Tick, Event::Render];
    let actions = app.run(&events, &vec![S; 4]);
    assert_eq!(actions.len(), 2);
    assert!(app.should_quit());
    assert_eq!(app.frame_in_second(), 1);
}

#[test]
fn run_on_no_events_changes_nothing() {
    let mut app = App::new(60, 4);
    let actions = app.run(&Vec::new(), &Vec::new());
    assert!(actions.is_empty());
    assert!(!app.should_quit());
    assert_eq!(app.should_render(), R);
}
