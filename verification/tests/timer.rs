use rt_caps::Poll;
use rt_caps::Sleep;
use rt_caps::TickTimer;
use rt_caps::Timer;

#[test]
fn sleep_until_resolves_no_earlier_than_its_deadline() {
    let timer = TickTimer::new(10);
    let mut sleep = timer.sleep_until(20);
    assert!(matches!(sleep.poll_elapsed(15), Poll::Pending));
    assert!(matches!(sleep.poll_elapsed(19), Poll::Pending));
    assert!(matches!(sleep.poll_elapsed(20), Poll::Ready(())));
    assert!(matches!(sleep.poll_elapsed(25), Poll::Ready(())));
}

#[test]
fn sleep_measures_from_the_timer_clock() {
    let mut timer = TickTimer::new(100);
    let mut sleep = timer.sleep(7);
    assert!(matches!(sleep.poll_elapsed(106), Poll::Pending));
    assert!(matches!(sleep.poll_elapsed(107), Poll::Ready(())));
    timer.set_now(200);
    let mut later = timer.sleep(7);
    assert!(matches!(later.poll_elapsed(107), Poll::Pending));
    assert!(matches!(later.poll_elapsed(207), Poll::Ready(())));
}

#[test]
fn sleep_deadline_saturates_instead_of_wrapping() {
    let timer = TickTimer::new(u64::MAX - 1);
    let mut sleep = timer.sleep(5);
    assert!(matches!(sleep.poll_elapsed(u64::MAX - 1), Poll::Pending));
    assert!(matches!(sleep.poll_elapsed(u64::MAX), Poll::Ready(())));
}

#[test]
fn reset_to_a_past_deadline_resolves_on_the_next_poll() {
    let timer = TickTimer::new(10);
    let mut sleep = timer.sleep_until(50);
    assert!(matches!(sleep.poll_elapsed(12), Poll::Pending));
    timer.reset(&mut sleep, 5);
    assert!(matches!(sleep.poll_elapsed(12), Poll::Ready(())));
}

#[test]
fn reset_to_a_future_deadline_stays_pending_until_then() {
    let timer = TickTimer::new(10);
    let mut sleep = timer.sleep_until(15);
    assert!(matches!(sleep.poll_elapsed(15), Poll::Ready(())));
    // Re-arming a resolved sleep makes it pending again.
    timer.reset(&mut sleep, 40);
    assert!(matches!(sleep.poll_elapsed(20), Poll::Pending));
    assert!(matches!(sleep.poll_elapsed(39), Poll::Pending));
    assert!(matches!(sleep.poll_elapsed(40), Poll::Ready(())));
}

#[test]
fn dropping_a_pending_sleep_is_quiet() {
    let timer = TickTimer::new(0);
    let mut sleep = timer.sleep_until(1000);
    assert!(matches!(sleep.poll_elapsed(1), Poll::Pending));
    drop(sleep);
    // Nothing fires and nothing panics; a fresh sleep is unaffected.
    let mut other = timer.sleep_until(2);
    assert!(matches!(other.poll_elapsed(2), Poll::Ready(())));
}
