use rate_limit_queue::{DequeueResult, RateLimitQueue, Span};

const MS: u128 = 1_000_000;

fn at(millis: u128) -> Span {
    Span::from_nanos(millis * MS)
}

fn filled(quantum: usize, interval: Span, count: u32) -> RateLimitQueue<u32> {
    let mut queue = RateLimitQueue::new(quantum, interval);
    for i in 0..count {
        queue.enqueue(i);
    }
    queue
}

#[test]
fn items_leave_in_the_order_they_joined() {
    let mut queue = filled(3, Span::from_millis(10), 10);
    let mut now: u128 = 0;
    let mut seen = Vec::new();
    loop {
        match queue.try_dequeue_at(Span::from_nanos(now)) {
            DequeueResult::Data(item) => seen.push(item),
            DequeueResult::Limit(rest) => now += rest.as_nanos(),
            DequeueResult::Empty => break,
        }
    }
    assert_eq!(seen, (0..10).collect::<Vec<u32>>());
    assert_eq!(now, 30 * MS);
}

#[test]
fn order_holds_when_items_join_between_attempts() {
    let mut queue = RateLimitQueue::new(1, Span::from_millis(10));
    queue.enqueue('a');
    queue.enqueue('b');
    assert_eq!(queue.try_dequeue_at(at(0)), DequeueResult::Data('a'));
    queue.enqueue('c');
    assert_eq!(queue.try_dequeue_at(at(1)), DequeueResult::Limit(Span::from_millis(9)));
    queue.enqueue('d');
    assert_eq!(queue.try_dequeue_at(at(10)), DequeueResult::Data('b'));
    assert_eq!(queue.try_dequeue_at(at(20)), DequeueResult::Data('c'));
    assert_eq!(queue.try_dequeue_at(at(30)), DequeueResult::Data('d'));
    assert_eq!(queue.try_dequeue_at(at(40)), DequeueResult::Empty);
}

#[test]
fn one_window_lets_out_no_more_than_the_quantum() {
    let mut queue = filled(4, Span::from_millis(100), 20);
    let mut released = 0;
    for millis in 0..100 {
        if queue.try_dequeue_at(at(millis)).is_data() {
            released += 1;
        }
    }
    assert_eq!(released, 4);
    assert_eq!(queue.len(), 16);
}

#[test]
fn limit_tells_the_rest_of_the_window() {
    let mut queue = filled(1, Span::from_millis(100), 3);
    assert_eq!(queue.try_dequeue_at(at(0)), DequeueResult::Data(0));
    assert_eq!(queue.try_dequeue_at(at(0)), DequeueResult::Limit(Span::from_millis(100)));
    assert_eq!(queue.try_dequeue_at(at(1)), DequeueResult::Limit(Span::from_millis(99)));
    assert_eq!(queue.try_dequeue_at(at(40)), DequeueResult::Limit(Span::from_millis(60)));
    assert_eq!(
        queue.try_dequeue_at(Span::from_nanos(100 * MS - 1)),
        DequeueResult::Limit(Span::from_nanos(1))
    );
    assert_eq!(queue.len(), 2);
}

#[test]
fn window_ends_when_the_interval_has_passed_exactly() {
    let mut queue = filled(1, Span::from_millis(100), 3);
    assert_eq!(queue.try_dequeue_at(at(5)), DequeueResult::Data(0));
    assert_eq!(queue.try_dequeue_at(at(99)), DequeueResult::Limit(Span::from_millis(1)));
    assert_eq!(queue.try_dequeue_at(at(100)), DequeueResult::Data(1));
    assert_eq!(queue.try_dequeue_at(at(199)), DequeueResult::Limit(Span::from_millis(1)));
    assert_eq!(queue.try_dequeue_at(at(200)), DequeueResult::Data(2));
}

#[test]
fn new_window_begins_at_the_attempt_that_finds_it_over() {
    let mut queue = filled(1, Span::from_millis(100), 3);
    assert_eq!(queue.try_dequeue_at(at(0)), DequeueResult::Data(0));
    assert_eq!(queue.try_dequeue_at(at(250)), DequeueResult::Data(1));
    assert_eq!(queue.try_dequeue_at(at(300)), DequeueResult::Limit(Span::from_millis(50)));
    assert_eq!(queue.try_dequeue_at(at(349)), DequeueResult::Limit(Span::from_millis(1)));
    assert_eq!(queue.try_dequeue_at(at(350)), DequeueResult::Data(2));
}

#[test]
fn empty_queue_answers_empty_whatever_the_allowance() {
    let mut queue: RateLimitQueue<u32> = RateLimitQueue::new(1, Span::from_millis(100));
    assert_eq!(queue.try_dequeue_at(at(0)), DequeueResult::Empty);
    queue.enqueue(7);
    assert_eq!(queue.try_dequeue_at(at(0)), DequeueResult::Data(7));
    assert_eq!(queue.try_dequeue_at(at(1)), DequeueResult::Empty);
    assert_eq!(queue.try_dequeue_at(at(1000)), DequeueResult::Empty);
    queue.enqueue(8);
    assert_eq!(queue.try_dequeue_at(at(1)), DequeueResult::Limit(Span::from_millis(99)));

    let mut none: RateLimitQueue<u32> = RateLimitQueue::new(0, Span::from_millis(100));
    assert_eq!(none.try_dequeue_at(at(0)), DequeueResult::Empty);
    assert_eq!(none.try_dequeue_at(at(500)), DequeueResult::Empty);
}

#[test]
fn empty_attempt_does_not_begin_a_window() {
    let mut queue: RateLimitQueue<u32> = RateLimitQueue::new(1, Span::from_millis(100));
    queue.enqueue(1);
    assert_eq!(queue.try_dequeue_at(at(0)), DequeueResult::Data(1));
    assert_eq!(queue.try_dequeue_at(at(500)), DequeueResult::Empty);
    queue.enqueue(2);
    queue.enqueue(3);
    assert_eq!(queue.try_dequeue_at(at(501)), DequeueResult::Data(2));
    assert_eq!(queue.try_dequeue_at(at(502)), DequeueResult::Limit(Span::from_millis(99)));
}

#[test]
fn unused_allowance_is_not_carried_over() {
    let quantum = 10;
    let coef = 10;
    let interval = Span::from_millis(100);
    let mut queue = filled(quantum, interval, (coef * quantum) as u32);

    let mut now: u128 = 0;
    let mut waited: u128 = 0;
    let mut n = 0;
    loop {
        match queue.try_dequeue_at(Span::from_nanos(now)) {
            DequeueResult::Data(item) => {
                assert_eq!(item, n);
                n += 1;
            }
            DequeueResult::Limit(rest) => {
                now += rest.as_nanos();
                waited += rest.as_nanos();
            }
            DequeueResult::Empty => break,
        }
    }
    assert_eq!(n, 100);
    assert_eq!(waited, 900 * MS);
}

#[test]
fn idle_windows_bring_no_extra_tokens() {
    let mut queue = filled(2, Span::from_millis(100), 10);
    assert_eq!(queue.try_dequeue_at(at(0)), DequeueResult::Data(0));
    assert_eq!(queue.try_dequeue_at(at(0)), DequeueResult::Data(1));
    assert_eq!(queue.try_dequeue_at(at(1000)), DequeueResult::Data(2));
    assert_eq!(queue.try_dequeue_at(at(1000)), DequeueResult::Data(3));
    assert_eq!(queue.try_dequeue_at(at(1000)), DequeueResult::Limit(Span::from_millis(100)));
    assert_eq!(queue.try_dequeue_at(at(1099)), DequeueResult::Limit(Span::from_millis(1)));
}

#[test]
fn rollover_after_a_long_wait() {
    let quantum = 10;
    let mut queue = filled(quantum, Span::from_millis(100), 20);

    for i in 0..10 {
        assert_eq!(queue.try_dequeue_at(at(0)), DequeueResult::Data(i));
    }
    assert_eq!(queue.try_dequeue_at(at(0)), DequeueResult::Limit(Span::from_millis(100)));

    for i in 10..20 {
        assert_eq!(queue.try_dequeue_at(at(300)), DequeueResult::Data(i));
    }
    assert_eq!(queue.try_dequeue_at(at(300)), DequeueResult::Empty);
}

#[test]
fn waiting_as_long_as_told_is_enough() {
    let mut queue = filled(1, Span::from_millis(100), 2);
    assert_eq!(queue.try_dequeue_at(at(3)), DequeueResult::Data(0));
    let rest = match queue.try_dequeue_at(at(42)) {
        DequeueResult::Limit(rest) => rest,
        other => panic!("{:?}", other),
    };
    assert_eq!(rest, Span::from_millis(58));
    let later = Span::from_nanos(42 * MS + rest.as_nanos());
    assert_eq!(queue.try_dequeue_at(later), DequeueResult::Data(1));
}

#[test]
fn zero_quantum_never_hands_out() {
    let mut queue = filled(0, Span::from_millis(100), 2);
    assert_eq!(queue.try_dequeue_at(at(0)), DequeueResult::Limit(Span::from_millis(100)));
    assert_eq!(queue.try_dequeue_at(at(30)), DequeueResult::Limit(Span::from_millis(70)));
    assert_eq!(queue.try_dequeue_at(at(100)), DequeueResult::Limit(Span::from_millis(100)));
    assert_eq!(queue.try_dequeue_at(at(150)), DequeueResult::Limit(Span::from_millis(50)));
    assert_eq!(queue.try_dequeue_at(at(1000)), DequeueResult::Limit(Span::from_millis(100)));
    assert_eq!(queue.len(), 2);
}

#[test]
fn quantum_lowered_to_zero_takes_effect_at_the_next_window() {
    let mut queue = filled(2, Span::from_millis(100), 5);
    assert_eq!(queue.try_dequeue_at(at(0)), DequeueResult::Data(0));
    queue.set_quantum(0);
    assert_eq!(queue.try_dequeue_at(at(1)), DequeueResult::Data(1));
    assert_eq!(queue.try_dequeue_at(at(2)), DequeueResult::Limit(Span::from_millis(98)));
    assert_eq!(queue.try_dequeue_at(at(100)), DequeueResult::Limit(Span::from_millis(100)));
    assert_eq!(queue.try_dequeue_at(at(120)), DequeueResult::Limit(Span::from_millis(80)));
    queue.set_quantum(1);
    assert_eq!(queue.try_dequeue_at(at(199)), DequeueResult::Limit(Span::from_millis(1)));
    assert_eq!(queue.try_dequeue_at(at(200)), DequeueResult::Data(2));
    assert_eq!(queue.try_dequeue_at(at(201)), DequeueResult::Limit(Span::from_millis(99)));
}

#[test]
fn changed_quantum_counts_from_the_next_window() {
    let mut queue = filled(3, Span::from_millis(100), 10);
    queue.set_quantum(1);
    assert_eq!(queue.iter().len(), 3);
    assert_eq!(queue.try_dequeue_at(at(0)), DequeueResult::Data(0));
    assert_eq!(queue.try_dequeue_at(at(0)), DequeueResult::Data(1));
    assert_eq!(queue.try_dequeue_at(at(0)), DequeueResult::Data(2));
    assert_eq!(queue.try_dequeue_at(at(0)), DequeueResult::Limit(Span::from_millis(100)));
    assert_eq!(queue.try_dequeue_at(at(100)), DequeueResult::Data(3));
    assert_eq!(queue.try_dequeue_at(at(100)), DequeueResult::Limit(Span::from_millis(100)));
    queue.set_quantum(2);
    assert_eq!(queue.try_dequeue_at(at(150)), DequeueResult::Limit(Span::from_millis(50)));
    assert_eq!(queue.try_dequeue_at(at(200)), DequeueResult::Data(4));
    assert_eq!(queue.try_dequeue_at(at(200)), DequeueResult::Data(5));
    assert_eq!(queue.try_dequeue_at(at(200)), DequeueResult::Limit(Span::from_millis(100)));
}

#[test]
fn changed_interval_judges_the_running_window() {
    let mut queue = filled(1, Span::from_millis(100), 4);
    assert_eq!(queue.try_dequeue_at(at(0)), DequeueResult::Data(0));
    assert_eq!(queue.try_dequeue_at(at(50)), DequeueResult::Limit(Span::from_millis(50)));
    queue.set_interval(Span::from_millis(60));
    assert_eq!(queue.try_dequeue_at(at(50)), DequeueResult::Limit(Span::from_millis(10)));
    queue.set_interval(Span::from_millis(40));
    assert_eq!(queue.try_dequeue_at(at(50)), DequeueResult::Data(1));
    assert_eq!(queue.try_dequeue_at(at(60)), DequeueResult::Limit(Span::from_millis(30)));
    queue.set_interval(Span::from_secs(1));
    assert_eq!(queue.try_dequeue_at(at(60)), DequeueResult::Limit(Span::from_millis(990)));
}

#[test]
fn zero_interval_never_limits_a_positive_quantum() {
    let mut queue = filled(1, Span::from_nanos(0), 3);
    assert_eq!(queue.try_dequeue_at(at(0)), DequeueResult::Data(0));
    assert_eq!(queue.try_dequeue_at(at(0)), DequeueResult::Data(1));
    assert_eq!(queue.try_dequeue_at(at(0)), DequeueResult::Data(2));
    assert_eq!(queue.try_dequeue_at(at(0)), DequeueResult::Empty);
}

#[test]
fn zero_interval_and_zero_quantum_limit_for_no_time() {
    let mut queue = filled(0, Span::from_nanos(0), 1);
    assert_eq!(queue.try_dequeue_at(at(0)), DequeueResult::Limit(Span::from_nanos(0)));
    assert_eq!(queue.try_dequeue_at(at(5)), DequeueResult::Limit(Span::from_nanos(0)));
    assert_eq!(queue.len(), 1);
}

#[test]
fn reading_before_the_window_counts_as_no_time() {
    let mut queue = filled(1, Span::from_millis(100), 3);
    assert_eq!(queue.try_dequeue_at(at(0)), DequeueResult::Data(0));
    assert_eq!(queue.try_dequeue_at(at(500)), DequeueResult::Data(1));
    assert_eq!(queue.try_dequeue_at(at(400)), DequeueResult::Limit(Span::from_millis(100)));
    assert_eq!(queue.try_dequeue_at(at(599)), DequeueResult::Limit(Span::from_millis(1)));
    assert_eq!(queue.try_dequeue_at(at(600)), DequeueResult::Data(2));
}

#[test]
fn far_readings_do_not_overflow() {
    let mut queue = filled(1, Span::from_nanos(u128::MAX), 3);
    assert_eq!(queue.try_dequeue_at(Span::from_nanos(u128::MAX)), DequeueResult::Data(0));
    assert_eq!(
        queue.try_dequeue_at(Span::from_nanos(u128::MAX - 1)),
        DequeueResult::Limit(Span::from_nanos(1))
    );
    assert_eq!(queue.try_dequeue_at(Span::from_nanos(u128::MAX)), DequeueResult::Data(1));
    assert_eq!(
        queue.try_dequeue_at(Span::from_nanos(u128::MAX)),
        DequeueResult::Limit(Span::from_nanos(u128::MAX))
    );
}
