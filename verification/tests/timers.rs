use san_andreas_unbound::timer::Timer;

fn far_future(scheduler: &timer::Timer) -> timer::Guard {
    scheduler.schedule_with_delay(chrono::Duration::seconds(3600), || {})
}

#[test]
fn new_timer_registry_is_empty() {
    let t = Timer::new();
    assert_eq!(t.len(), 0);
    assert!(!t.is_active(1));
}

#[test]
fn timer_ids_count_up_from_one() {
    let scheduler = timer::Timer::new();
    let mut t = Timer::new();
    let mut seen = Vec::new();
    let a = t.set_timer(
        |id, repeating, duration| {
            seen.push((id, repeating, duration));
            far_future(&scheduler)
        },
        true,
        250,
    );
    let b = t.set_timer(|_, _, _| far_future(&scheduler), false, 1000);
    assert_eq!(a, 1);
    assert_eq!(b, 2);
    assert_eq!(seen, vec![(1, true, 250)]);
    assert!(t.is_active(1) && t.is_active(2));
    assert_eq!(t.len(), 2);
}

#[test]
fn kill_timer_removes_once() {
    let scheduler = timer::Timer::new();
    let mut t = Timer::new();
    let id = t.set_timer(|_, _, _| far_future(&scheduler), false, 1000);
    assert!(t.kill_timer(id));
    assert!(!t.is_active(id));
    assert!(!t.kill_timer(id));
    assert_eq!(t.len(), 0);
}

#[test]
fn kill_unknown_timer_reports_false() {
    let mut t = Timer::new();
    assert!(!t.kill_timer(42));
    assert_eq!(t.len(), 0);
}

#[test]
fn id_after_kill_reuses_the_count() {
    let scheduler = timer::Timer::new();
    let mut t = Timer::new();
    t.set_timer(|_, _, _| far_future(&scheduler), false, 1000);
    t.set_timer(|_, _, _| far_future(&scheduler), false, 1000);
    assert!(t.kill_timer(1));
    // one timer left, so the next id is 2 again and replaces that timer
    let id = t.set_timer(|_, _, _| far_future(&scheduler), false, 1000);
    assert_eq!(id, 2);
    assert_eq!(t.len(), 1);
    assert!(t.is_active(2));
}

#[test]
fn tick_retires_first_one_shot_and_stops() {
    let scheduler = timer::Timer::new();
    let mut t = Timer::new();
    t.set_timer(|_, _, _| far_future(&scheduler), false, 1000);
    t.set_timer(|_, _, _| far_future(&scheduler), false, 1000);
    let fired = vec![(1, true), (9, false), (1, false), (2, false)];
    assert_eq!(t.on_tick(&fired), 3);
    assert!(!t.is_active(1));
    assert!(t.is_active(2));
    let rest = vec![(2, false)];
    assert_eq!(t.on_tick(&rest), 1);
    assert_eq!(t.len(), 0);
}

#[test]
fn tick_without_retiring_handles_everything() {
    let scheduler = timer::Timer::new();
    let mut t = Timer::new();
    t.set_timer(|_, _, _| far_future(&scheduler), false, 1000);
    let fired = vec![(1, true), (1, true), (3, false)];
    assert_eq!(t.on_tick(&fired), 3);
    assert!(t.is_active(1));
    assert_eq!(t.on_tick(&Vec::new()), 0);
}

#[test]
fn contiguous_ids_grow_by_one_and_kill_restores() {
    let scheduler = timer::Timer::new();
    let mut t = Timer::new();
    for expected in 1..=3 {
        let id = t.set_timer(|_, _, _| far_future(&scheduler), false, 1000);
        assert_eq!(id, expected);
        assert_eq!(t.len(), expected);
    }
    let id = t.set_timer(|_, _, _| far_future(&scheduler), false, 1000);
    assert_eq!(id, 4);
    assert!(t.kill_timer(id));
    assert_eq!(t.len(), 3);
    assert!(t.is_active(1) && t.is_active(2) && t.is_active(3) && !t.is_active(4));
}
