use pomo::render::update;
use pomo::State;

fn running_state() -> State {
    let mut state = State::default();
    state.start_session(1000);
    state
}

#[test]
fn stopped_session_renders_nothing() {
    let state = State::default();
    assert_eq!(update(&state, 99999), "");
}

#[test]
fn fresh_session_shows_full_work_block() {
    let state = running_state();
    assert_eq!(update(&state, 1000), "Stay Focused: 25:00");
}

#[test]
fn last_second_of_work_is_zero_padded() {
    let state = running_state();
    assert_eq!(update(&state, 1000 + 1499), "Stay Focused: 00:01");
}

#[test]
fn short_break_shows_its_own_label() {
    let state = running_state();
    assert_eq!(update(&state, 1000 + 1500), "Short Break: 05:00");
}

#[test]
fn long_break_shows_its_own_label() {
    let state = running_state();
    assert_eq!(update(&state, 1000 + 90 * 60), "Long Break: 25:00");
}

#[test]
fn minutes_wider_than_two_digits_keep_all_digits() {
    let mut state = State::default();
    state.configure(Some(120), None, None);
    state.start_session(0);
    assert_eq!(update(&state, 0), "Stay Focused: 120:00");
}

#[test]
fn seconds_in_between_render_exactly() {
    let state = running_state();
    // 7 minutes 23 seconds in: 17:37 of the work block remain.
    assert_eq!(update(&state, 1000 + 7 * 60 + 23), "Stay Focused: 17:37");
}

#[test]
fn clock_before_anchor_counts_as_no_elapsed_time() {
    let state = running_state();
    assert_eq!(update(&state, 0), "Stay Focused: 25:00");
}
