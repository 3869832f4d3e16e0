use tokio_examples::signal::{CyclicSignal, Pull};

#[test]
fn empty_then_push_wakes_and_cycles() {
    let mut s: CyclicSignal<i32, u32> = CyclicSignal::new();
    assert_eq!(s.next(1), Pull::NotYet);
    assert!(s.is_waiting());
    assert_eq!(s.push(7), Some(1));
    assert!(!s.is_waiting());
    assert_eq!(s.next(2), Pull::Ready(7));
    assert_eq!(s.cursor(), 1);
    assert_eq!(s.push(9), None);
    assert_eq!(s.next(3), Pull::Ready(9));
    assert_eq!(s.cursor(), 2);
    assert_eq!(s.len(), 2);
    assert_eq!(s.next(4), Pull::Ready(7));
    assert_eq!(s.cursor(), 1);
}

#[test]
fn five_polls_over_three_values() {
    let mut s: CyclicSignal<i32, u32> = CyclicSignal::new();
    s.push(1);
    s.push(2);
    s.push(3);
    let got: Vec<Pull<i32>> = (0..5).map(|_| s.next(0)).collect();
    assert_eq!(
        got,
        vec![Pull::Ready(1), Pull::Ready(2), Pull::Ready(3), Pull::Ready(1), Pull::Ready(2)]
    );
}

#[test]
fn cursor_at_end_wraps_to_front() {
    let mut s: CyclicSignal<i32, u32> = CyclicSignal::new();
    s.push(4);
    s.push(5);
    assert_eq!(s.next(0), Pull::Ready(4));
    assert_eq!(s.next(0), Pull::Ready(5));
    assert_eq!(s.cursor(), s.len());
    assert_eq!(s.next(0), Pull::Ready(4));
    assert_eq!(s.cursor(), 1);
}

#[test]
fn single_push_after_not_yet_gives_a_value() {
    let mut s: CyclicSignal<i32, u32> = CyclicSignal::new();
    assert_eq!(s.next(11), Pull::NotYet);
    assert_eq!(s.push(42), Some(11));
    assert_eq!(s.next(12), Pull::Ready(42));
    assert!(!s.is_waiting());
}

#[test]
fn clear_then_poll_is_not_yet() {
    let mut s: CyclicSignal<i32, u32> = CyclicSignal::new();
    s.push(1);
    s.push(2);
    assert_eq!(s.next(0), Pull::Ready(1));
    s.clear();
    assert_eq!(s.len(), 0);
    assert_eq!(s.cursor(), 0);
    assert_eq!(s.next(5), Pull::NotYet);
    assert!(s.is_waiting());
    assert_eq!(s.push(3), Some(5));
    assert_eq!(s.next(0), Pull::Ready(3));
}

#[test]
fn clear_keeps_a_registered_handle() {
    let mut s: CyclicSignal<i32, u32> = CyclicSignal::new();
    assert_eq!(s.next(8), Pull::NotYet);
    s.clear();
    assert!(s.is_waiting());
    assert_eq!(s.push(1), Some(8));
}

#[test]
fn a_new_handle_replaces_the_old() {
    let mut s: CyclicSignal<i32, u32> = CyclicSignal::new();
    assert_eq!(s.next(1), Pull::NotYet);
    assert_eq!(s.next(2), Pull::NotYet);
    assert_eq!(s.push(6), Some(2));
    assert_eq!(s.push(7), None);
}

#[test]
fn interleaved_pushes_are_read_in_push_order() {
    let mut s: CyclicSignal<i32, u32> = CyclicSignal::new();
    s.push(10);
    assert_eq!(s.next(0), Pull::Ready(10));
    // The cursor stands at the end; a value pushed now is read before the wrap.
    s.push(20);
    assert_eq!(s.next(0), Pull::Ready(20));
    s.push(30);
    assert_eq!(s.next(0), Pull::Ready(30));
    assert_eq!(s.next(0), Pull::Ready(10));
    s.push(40);
    assert_eq!(s.next(0), Pull::Ready(20));
    assert_eq!(s.next(0), Pull::Ready(30));
    assert_eq!(s.next(0), Pull::Ready(40));
    assert_eq!(s.next(0), Pull::Ready(10));
}
