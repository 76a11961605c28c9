use framework_tool_tui::event::{Event, Key, ProducerWake, TickScheduler};
use framework_tool_tui::framework::RefreshSource;

#[test]
fn poll_if_needed_fetches_exactly_when_the_period_elapsed() {
    let mut source = RefreshSource::new(0, 1000);

    assert!(!source.poll_if_needed(500));
    assert_eq!(source.last_poll_ms, 0);

    // The boundary counts: elapsed == period fetches.
    assert!(source.poll_if_needed(1000));
    assert_eq!(source.last_poll_ms, 1000);

    // Immediately again: at most one fetch.
    assert!(!source.poll_if_needed(1000));
    assert_eq!(source.last_poll_ms, 1000);
}

#[test]
fn poll_records_unconditionally() {
    let mut source = RefreshSource::new(0, 1000);
    source.poll(300);
    assert_eq!(source.last_poll_ms, 300);
    assert!(!source.poll_if_needed(800));
    assert!(source.poll_if_needed(1300));
}

#[test]
fn set_period_changes_when_the_next_fetch_is_due() {
    let mut source = RefreshSource::new(0, 1000);
    source.set_period(200);
    assert!(source.poll_if_needed(200));
}

#[test]
fn scheduler_spaces_ticks_at_the_period() {
    let mut scheduler = TickScheduler::new(0, 1000);
    // A fresh timer owes its first tick immediately.
    assert_eq!(scheduler.next_fire_ms, 0);
    scheduler.fire();
    assert_eq!(scheduler.next_fire_ms, 1000);
    scheduler.fire();
    assert_eq!(scheduler.next_fire_ms, 2000);
}

#[test]
fn reconfigure_rebases_the_schedule_at_the_moment_of_change() {
    let mut scheduler = TickScheduler::new(0, 1000);
    scheduler.fire();
    scheduler.reconfigure(1500, 250);
    assert_eq!(scheduler.period_ms, 250);
    assert_eq!(scheduler.next_fire_ms, 1500);
    scheduler.fire();
    assert_eq!(scheduler.next_fire_ms, 1750);
    scheduler.fire();
    assert_eq!(scheduler.next_fire_ms, 2000);
}

#[test]
fn producer_forwards_exactly_one_event_per_wake() {
    let mut scheduler = TickScheduler::new(0, 1000);

    let emitted = framework_tool_tui::event::producer_step(
        &mut scheduler,
        ProducerWake::TimerFired,
        0,
    );
    assert_eq!(emitted, Some(Event::Tick));
    assert_eq!(scheduler.next_fire_ms, 1000);

    let emitted = framework_tool_tui::event::producer_step(
        &mut scheduler,
        ProducerWake::InputReceived(Key::Char('q')),
        400,
    );
    assert_eq!(emitted, Some(Event::Input(Key::Char('q'))));
    assert_eq!(scheduler.next_fire_ms, 1000);

    let emitted = framework_tool_tui::event::producer_step(
        &mut scheduler,
        ProducerWake::IntervalChanged(100),
        700,
    );
    assert_eq!(emitted, None);
    assert_eq!(scheduler.period_ms, 100);
    assert_eq!(scheduler.next_fire_ms, 700);
}
