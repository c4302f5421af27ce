use etherdream::circular_buffer::CircularBuffer;

// One buffer serves as both the writing and the reading end of the queue, so
// each observation is made twice, once for each end.
#[test]
fn circular_buffer_tests_buffer_push_and_pop_test() {
    let mut buffer = CircularBuffer::<&str>::new(2);

    // The buffer is empty
    assert_eq!(buffer.capacity(), 2);
    assert_eq!(buffer.is_empty(), true);
    assert_eq!(buffer.is_full(), false);
    assert_eq!(buffer.len(), 0);
    assert_eq!(buffer.remaining(), 2);

    assert_eq!(buffer.capacity(), 2);
    assert_eq!(buffer.is_empty(), true);
    assert_eq!(buffer.is_full(), false);
    assert_eq!(buffer.len(), 0);
    assert_eq!(buffer.remaining(), 2);

    // The buffer has a single item
    let _ = buffer.push("a");

    assert_eq!(buffer.is_empty(), false);
    assert_eq!(buffer.is_full(), false);
    assert_eq!(buffer.len(), 1);
    assert_eq!(buffer.remaining(), 1);

    assert_eq!(buffer.is_empty(), false);
    assert_eq!(buffer.is_full(), false);
    assert_eq!(buffer.len(), 1);
    assert_eq!(buffer.remaining(), 1);

    // The buffer is at capacity
    let _ = buffer.push("b");

    assert_eq!(buffer.is_empty(), false);
    assert_eq!(buffer.is_full(), true);
    assert_eq!(buffer.len(), 2);
    assert_eq!(buffer.remaining(), 0);

    assert_eq!(buffer.is_empty(), false);
    assert_eq!(buffer.is_full(), true);
    assert_eq!(buffer.len(), 2);
    assert_eq!(buffer.remaining(), 0);

    // Will return an insufficient capacity error if we attempt to push again
    assert_eq!(buffer.push("c"), Some("c"));

    // The caller has consumed a single item
    assert_eq!("a", buffer.pop().unwrap());

    assert_eq!(buffer.is_empty(), false);
    assert_eq!(buffer.is_full(), false);
    assert_eq!(buffer.len(), 1);

    assert_eq!(buffer.is_empty(), false);
    assert_eq!(buffer.is_full(), false);
    assert_eq!(buffer.len(), 1);

    // The caller has consumed all items
    assert_eq!("b", buffer.pop().unwrap());

    assert_eq!(buffer.is_empty(), true);
    assert_eq!(buffer.is_full(), false);
    assert_eq!(buffer.len(), 0);

    assert_eq!(buffer.is_empty(), true);
    assert_eq!(buffer.is_full(), false);
    assert_eq!(buffer.len(), 0);

    // The buffer will return None since all items have been consumed
    assert!(buffer.pop().is_none());
}

#[test]
fn buffer_will_handle_rollover_test() {
    let mut buffer = CircularBuffer::<&str>::new(3);

    let _ = buffer.push("a");
    let _ = buffer.push("b");
    let _ = buffer.pop();
    let _ = buffer.push("c");

    assert_eq!(buffer.is_empty(), false);
    assert_eq!(buffer.is_full(), false);
    assert_eq!(buffer.len(), 2);

    let _ = buffer.push("d");
    assert_eq!(buffer.is_empty(), false);
    assert_eq!(buffer.is_full(), true);
    assert_eq!(buffer.len(), 3);
}

#[test]
fn buffer_pops_in_push_order_across_rollover() {
    let mut buffer = CircularBuffer::<u32>::new(3);
    for round in 0..5u32 {
        assert_eq!(buffer.push(round * 10), None);
        assert_eq!(buffer.push(round * 10 + 1), None);
        assert_eq!(buffer.pop(), Some(round * 10));
        assert_eq!(buffer.pop(), Some(round * 10 + 1));
        assert!(buffer.is_empty());
    }
    assert_eq!(buffer.push(7), None);
    assert_eq!(buffer.push(8), None);
    assert_eq!(buffer.push(9), None);
    assert_eq!(buffer.push(10), Some(10));
    assert_eq!(buffer.pop(), Some(7));
    assert_eq!(buffer.pop(), Some(8));
    assert_eq!(buffer.pop(), Some(9));
    assert_eq!(buffer.pop(), None);
}

#[test]
fn buffer_of_no_capacity_refuses_every_item() {
    let mut buffer = CircularBuffer::<u8>::new(0);
    assert!(buffer.is_empty());
    assert!(buffer.is_full());
    assert_eq!(buffer.remaining(), 0);
    assert_eq!(buffer.push(1), Some(1));
    assert_eq!(buffer.pop(), None);
}
