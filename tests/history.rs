use snowscape::{Action, Control, History, Replay};

#[test]
fn push_stays_live() {
    let mut history = History::new();
    assert!(history.is_live());

    history.push(1);
    assert_eq!(history.position, 1);
    assert!(history.is_live());

    history.push(2);
    assert_eq!(history.position, 2);
    assert!(history.is_live());
}

#[test]
fn change_position() {
    let mut history = History::new();
    history.push(1);
    history.push(2);
    history.push(3);

    history.change_position(1);
    assert_eq!(history.position, 1);

    history.change_position(5); // Out of bounds
    assert_eq!(history.position, 1); // Position should not change
}

#[test]
fn records_keep_lengths_in_step() {
    let mut history = History::new();
    for i in 0..5 {
        history.push(i);
        assert_eq!(history.traces.len(), history.messages.len());
        assert_eq!(history.messages.len(), history.position);
    }
    assert_eq!(history.traces()[3], "3");
}

#[test]
fn rewind_and_jump_to_present() {
    let mut history = History::new();
    history.push("a");
    history.push("b");
    assert_eq!(history.position, 2);

    let plan = history.time_travel(1);
    assert_eq!(plan, Replay { reboot: true, start: 0, end: 1 });
    let visible: Vec<String> = history.visible_traces().to_vec();
    assert_eq!(visible, vec!["\"a\"".to_string()]);

    let plan = history.jump_to_present();
    assert_eq!(plan, Some(Replay { reboot: false, start: 1, end: 2 }));
    assert_eq!(history.position, 2);
    assert_eq!(history.jump_to_present(), None);
}

#[test]
fn rewind_past_end_keeps_position() {
    let mut history = History::new();
    history.push(10);
    history.push(20);
    history.change_position(1);
    let plan = history.time_travel(3);
    assert_eq!(history.position, 1);
    assert_eq!(plan, Replay { reboot: true, start: 0, end: 1 });
}

#[test]
fn record_is_dropped_while_historical() {
    let mut history = History::new();
    assert!(history.record(1));
    assert!(history.record(2));
    history.change_position(0);
    assert!(!history.record(3));
    assert_eq!(history.messages, vec![1, 2]);
    assert_eq!(history.position, 0);
}

#[test]
fn replay_restores_live_state() {
    let mut history = History::new();
    let step = |state: i64, m: &i64| state * 10 + m;
    let mut state = 0i64;
    for m in [3i64, 1, 4, 1, 5] {
        history.push(m);
        state = step(state, &m);
    }
    let live_state = state;

    let plan = history.time_travel(2);
    let mut shown = if plan.reboot { 0 } else { state };
    for m in &history.messages[plan.start..plan.end] {
        shown = step(shown, m);
    }
    assert_eq!(shown, 31);

    let plan = history.jump_to_present().unwrap();
    for m in &history.messages[plan.start..plan.end] {
        shown = step(shown, m);
    }
    assert_eq!(shown, live_state);
}

#[test]
fn reset_clears_everything() {
    let mut history = History::new();
    history.push(1);
    history.push(2);
    history.change_position(1);
    history.reset();
    assert!(history.is_empty());
    assert_eq!(history.len(), 0);
    assert!(history.traces().is_empty());
    assert_eq!(history.position, 0);
    assert!(history.is_live());
}

#[test]
fn timeline_mirrors_history() {
    let mut history = History::new();
    history.push('x');
    history.push('y');
    history.push('z');
    history.change_position(1);
    let timeline = history.timeline();
    assert_eq!(timeline.position(), 1);
    assert_eq!(timeline.range(), 0..=3);
    assert!(!timeline.is_live());
}

#[test]
fn handle_routes_each_control() {
    let mut history = History::new();
    assert_eq!(history.handle(Control::Component("a")), Action::Apply(0));
    assert_eq!(history.handle(Control::Component("b")), Action::Apply(1));
    assert_eq!(
        history.handle(Control::TimeTravel(1)),
        Action::Replay(Replay { reboot: true, start: 0, end: 1 })
    );
    assert_eq!(history.handle(Control::Component("c")), Action::Nothing);
    assert_eq!(history.messages, vec!["a", "b"]);
    assert_eq!(
        history.handle(Control::TimeTravel(7)),
        Action::Replay(Replay { reboot: true, start: 0, end: 1 })
    );
    assert_eq!(
        history.handle(Control::JumpToPresent),
        Action::Replay(Replay { reboot: false, start: 1, end: 2 })
    );
    assert_eq!(history.handle(Control::JumpToPresent), Action::Nothing);
    assert_eq!(history.handle(Control::ResetPreview), Action::Reboot);
    assert!(history.is_empty());
    assert_eq!(history.position, 0);
}
