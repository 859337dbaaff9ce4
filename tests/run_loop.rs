use ticket_board::run_loop::{command_for, remaining_wait, tick_elapsed, Command, Key, LoopState, RunLoop, TICK_INTERVAL_MS};
use ticket_board::selection::App;

#[test]
fn dispatch_table() {
    assert_eq!(command_for(Key::Char('q')), Command::Quit);
    assert_eq!(command_for(Key::Char('j')), Command::Advance);
    assert_eq!(command_for(Key::Down), Command::Advance);
    assert_eq!(command_for(Key::Char('k')), Command::Retreat);
    assert_eq!(command_for(Key::Up), Command::Retreat);
    assert_eq!(command_for(Key::Char('x')), Command::Ignore);
    assert_eq!(command_for(Key::Char('Q')), Command::Ignore);
    assert_eq!(command_for(Key::Other), Command::Ignore);
}

#[test]
fn j_then_k_then_q() {
    let mut run = RunLoop::new(App::new());
    assert_eq!(run.handle_key(Key::Char('j')), LoopState::Running);
    assert_eq!(run.app().current(), Some(1));
    assert_eq!(run.handle_key(Key::Char('k')), LoopState::Running);
    assert_eq!(run.app().current(), Some(0));
    assert_eq!(run.handle_key(Key::Char('q')), LoopState::Terminated);
    assert!(!run.is_running());
    assert_eq!(run.app().current(), Some(0));
}

#[test]
fn arrows_move_like_j_and_k() {
    let mut run = RunLoop::new(App::new());
    run.handle_key(Key::Up);
    assert_eq!(run.app().current(), Some(3));
    run.handle_key(Key::Down);
    run.handle_key(Key::Down);
    assert_eq!(run.app().current(), Some(1));
}

#[test]
fn unknown_key_changes_nothing() {
    let mut run = RunLoop::new(App::new());
    run.handle_key(Key::Char('j'));
    assert_eq!(run.handle_key(Key::Char('x')), LoopState::Running);
    assert_eq!(run.handle_key(Key::Other), LoopState::Running);
    assert!(run.is_running());
    assert_eq!(run.app().current(), Some(1));
    assert_eq!(run.app().records(), App::new().records());
}

#[test]
fn ended_loop_ignores_keys() {
    let mut run = RunLoop::new(App::new());
    assert_eq!(run.handle_key(Key::Char('q')), LoopState::Terminated);
    assert_eq!(run.handle_key(Key::Char('j')), LoopState::Terminated);
    assert_eq!(run.app().current(), Some(0));
}

#[test]
fn wait_is_what_is_left_of_the_tick() {
    assert_eq!(TICK_INTERVAL_MS, 50);
    assert_eq!(remaining_wait(50_000, 0), 50_000);
    assert_eq!(remaining_wait(50_000, 12_345), 37_655);
    assert_eq!(remaining_wait(50_000, 50_000), 0);
    assert_eq!(remaining_wait(50_000, 80_000), 0);
}

#[test]
fn tick_runs_out_at_the_interval() {
    assert!(!tick_elapsed(50, 49));
    assert!(tick_elapsed(50, 50));
    assert!(tick_elapsed(50, 51));
}
