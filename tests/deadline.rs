use hyper_bench::deadline::{settle, Elapsed, Progress, DEADLINE_MILLIS, DEADLINE_SECS};

#[test]
fn deadline_is_sixty_seconds() {
    assert_eq!(DEADLINE_SECS, 60);
    assert_eq!(DEADLINE_MILLIS, DEADLINE_SECS * 1000);
}

#[test]
fn finished_handler_answers() {
    assert_eq!(settle(0, Some(7u8)), Progress::Ready(Ok(7)));
    assert_eq!(settle(59_999, Some(7u8)), Progress::Ready(Ok(7)));
}

#[test]
fn finished_handler_wins_at_the_deadline() {
    assert_eq!(settle(60_000, Some(3u8)), Progress::Ready(Ok(3)));
    assert_eq!(settle(u64::MAX, Some(3u8)), Progress::Ready(Ok(3)));
}

#[test]
fn slow_handler_times_out() {
    assert_eq!(settle::<u8>(60_000, None), Progress::Ready(Err(Elapsed)));
    assert_eq!(settle::<u8>(61_000, None), Progress::Ready(Err(Elapsed)));
    assert_eq!(settle::<u8>(u64::MAX, None), Progress::Ready(Err(Elapsed)));
}

#[test]
fn unfinished_handler_waits_before_the_deadline() {
    assert_eq!(settle::<u8>(0, None), Progress::Pending);
    assert_eq!(settle::<u8>(59_999, None), Progress::Pending);
}
