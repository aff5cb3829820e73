use dialog::progress::{clear_spinner, start_spinner};
use dialog::spinner::{poll_decision, SpinnerPoll, SpinnerSchedule};

#[test]
fn completion_wins_every_poll() {
    assert_eq!(poll_decision(true, 0, 200), SpinnerPoll::Complete);
    assert_eq!(poll_decision(true, 500, 200), SpinnerPoll::Complete);
}

#[test]
fn the_delay_decides_between_waiting_and_showing() {
    assert_eq!(poll_decision(false, 0, 200), SpinnerPoll::Wait);
    assert_eq!(poll_decision(false, 199, 200), SpinnerPoll::Wait);
    assert_eq!(poll_decision(false, 200, 200), SpinnerPoll::Show);
    assert_eq!(poll_decision(false, 500, 200), SpinnerPoll::Show);
}

#[test]
fn zero_delay_never_waits() {
    assert_eq!(poll_decision(false, 0, 0), SpinnerPoll::Show);
    assert_eq!(poll_decision(true, 0, 0), SpinnerPoll::Complete);
}

#[test]
fn fast_task_renders_no_spinner() {
    // A task of about fifty milliseconds under a two hundred millisecond
    // delay: polls at zero and one hundred milliseconds, the second seeing
    // the task done. The render count stays zero and nothing is cleared.
    let mut schedule = SpinnerSchedule::new(200);
    assert_eq!(schedule.poll(false, 0), SpinnerPoll::Wait);
    assert!(!schedule.is_done());
    assert_eq!(schedule.poll(true, 100), SpinnerPoll::Complete);
    assert!(schedule.is_done());
    assert!(!schedule.was_shown());
    assert!(!schedule.finish());
}

#[test]
fn slow_task_renders_one_spinner_and_clears_it_once() {
    let mut schedule = SpinnerSchedule::new(100);
    assert_eq!(schedule.poll(false, 0), SpinnerPoll::Wait);
    assert_eq!(schedule.poll(false, 100), SpinnerPoll::Show);
    assert!(schedule.is_done());
    assert!(schedule.was_shown());
    assert!(schedule.finish());
}

#[test]
fn zero_delay_shows_on_the_first_poll_of_a_running_task() {
    let mut schedule = SpinnerSchedule::new(0);
    assert_eq!(schedule.poll(false, 0), SpinnerPoll::Show);
    assert!(schedule.was_shown());
    assert!(schedule.finish());
}

#[test]
fn zero_delay_shows_nothing_for_a_task_already_done() {
    let mut schedule = SpinnerSchedule::new(0);
    assert_eq!(schedule.poll(true, 0), SpinnerPoll::Complete);
    assert!(!schedule.was_shown());
    assert!(!schedule.finish());
}

#[test]
fn spinner_goes_up_and_comes_down() {
    let bar = start_spinner("working", Some("hold on"));
    clear_spinner(bar);
    let bare = start_spinner("working", None);
    clear_spinner(bare);
}
