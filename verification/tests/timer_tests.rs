use loudness_meter::timer::{PublicationTimer, UPDATES_PER_SECOND};

#[test]
fn ten_updates_per_second() {
    assert_eq!(UPDATES_PER_SECOND, 10);
}

#[test]
fn new_timer_is_one_interval_away() {
    let timer = PublicationTimer::new(48000);
    assert_eq!(timer.steps_per_interval(), 48000);
    assert_eq!(timer.steps_left(), 48000);
}

#[test]
fn hundredth_of_a_second_buffers_publish_every_tenth_tick() {
    let mut timer = PublicationTimer::new(48000);
    for round in 0..5 {
        for tick in 1..=10 {
            let due = timer.advance(480);
            assert_eq!(due, tick == 10, "round {round}, tick {tick}");
        }
        assert_eq!(timer.steps_left(), 48000);
    }
}

#[test]
fn tenth_of_a_second_buffers_publish_every_tick() {
    let mut timer = PublicationTimer::new(48000);
    for _ in 0..25 {
        assert!(timer.advance(4800));
        assert_eq!(timer.steps_left(), 48000);
    }
}

#[test]
fn buffers_longer_than_the_interval_publish_once_per_tick() {
    let mut timer = PublicationTimer::new(48000);
    assert!(timer.advance(48000));
    assert_eq!(timer.steps_left(), 48000);
    assert!(timer.advance(12000));
    assert_eq!(timer.steps_left(), 24000);
    assert!(timer.advance(100000));
    // 24000 - 1000000 = -976000; adding 48000 twenty-one times gives 32000.
    assert_eq!(timer.steps_left(), 32000);
}

#[test]
fn uneven_buffers_keep_the_remainder() {
    let mut timer = PublicationTimer::new(44100);
    // 1024 frames last 10240 steps; the interval has 44100.
    assert!(!timer.advance(1024));
    assert_eq!(timer.steps_left(), 33860);
    assert!(!timer.advance(1024));
    assert!(!timer.advance(1024));
    assert!(!timer.advance(1024));
    assert_eq!(timer.steps_left(), 3140);
    assert!(timer.advance(1024));
    assert_eq!(timer.steps_left(), 37000);
}

#[test]
fn publications_count_whole_intervals() {
    let mut timer = PublicationTimer::new(44100);
    let mut published: u64 = 0;
    let mut passed: u64 = 0;
    for tick in 0..1000u32 {
        let frames = 64 + (tick * 37) % 4000;
        if timer.advance(frames) {
            published += 1;
        }
        passed += u64::from(frames) * 10;
        assert_eq!(published, passed / 44100);
        assert_eq!(44100 - timer.steps_left(), passed % 44100);
    }
}

#[test]
fn empty_buffer_changes_nothing() {
    let mut timer = PublicationTimer::new(48000);
    assert!(!timer.advance(0));
    assert_eq!(timer.steps_left(), 48000);
    timer.advance(100);
    assert!(!timer.advance(0));
    assert_eq!(timer.steps_left(), 47000);
}

#[test]
fn largest_buffer_fits() {
    let mut timer = PublicationTimer::new(1);
    assert!(timer.advance(u32::MAX));
    assert_eq!(timer.steps_left(), 1);
    let mut timer = PublicationTimer::new(usize::MAX);
    assert!(!timer.advance(u32::MAX));
    assert_eq!(timer.steps_left(), usize::MAX as u64 - 42949672950);
}

#[test]
fn exactly_used_up_countdown_is_due() {
    let mut timer = PublicationTimer::new(1000);
    assert!(!timer.advance(99));
    assert_eq!(timer.steps_left(), 10);
    assert!(timer.advance(1));
    assert_eq!(timer.steps_left(), 1000);
}
