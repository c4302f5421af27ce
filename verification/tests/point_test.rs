use etherdream::point::{Point, PointBuffer, PointBufferError};

#[test]
fn point_test_buffer_push_and_pop_test() {
    let mut buffer = PointBuffer::<2>::new();
    let point = Point::new(1, 1, u16::MAX, 0, 0);

    // The buffer is empty
    assert_eq!(buffer.count(), 0);
    assert_eq!(buffer.is_empty(), true);
    assert_eq!(buffer.is_full(), false);
    assert_eq!(buffer.capacity(), 2);

    // The buffer has a single point
    buffer.push(point);

    assert_eq!(buffer.is_empty(), false);
    assert_eq!(buffer.is_full(), false);
    assert_eq!(buffer.count(), 1);
    assert_eq!(buffer.capacity(), 1);

    // Thue buffer is at capacity
    buffer.push(point);

    assert_eq!(buffer.is_empty(), false);
    assert_eq!(buffer.is_full(), true);
    assert_eq!(buffer.count(), 2);
    assert_eq!(buffer.capacity(), 0);

    // The caller has consumed a single point
    let _point = buffer.pop().unwrap();

    assert_eq!(buffer.is_empty(), false);
    assert_eq!(buffer.is_full(), false);
    assert_eq!(buffer.count(), 1);
    assert_eq!(buffer.capacity(), 1);

    // The caller has consumed all points
    let _point = buffer.pop().unwrap();

    assert_eq!(buffer.is_empty(), true);
    assert_eq!(buffer.is_full(), false);
    assert_eq!(buffer.count(), 0);
    assert_eq!(buffer.capacity(), 2);

    // The buffer will return None since all points have been consumed
    assert!(buffer.pop().is_none());
}

#[test]
fn a_full_point_buffer_refuses_a_point() {
    let mut buffer = PointBuffer::<1>::new();
    assert!(buffer.push(Point::new(0, 0, 0, 0, 0)));
    assert!(!buffer.push(Point::new(1, 0, 0, 0, 0)));
    assert_eq!(buffer.count(), 1);
}

#[test]
fn points_come_out_in_the_order_they_went_in() {
    let mut buffer = PointBuffer::<4>::new();
    let points = [Point::new(1, 2, 3, 4, 5), Point::new(-1, -2, 6, 7, 8), Point::new(9, 9, 9, 9, 9)];
    assert!(matches!(buffer.push_from_slice(&points), Ok(3)));
    assert_eq!(buffer.count(), 3);
    for p in points.iter() {
        let out = buffer.pop().unwrap();
        assert_eq!(format!("{:?}", out), format!("{:?}", p));
    }
    assert!(buffer.pop().is_none());
}

#[test]
fn a_slice_that_does_not_fit_is_refused_whole() {
    let mut buffer = PointBuffer::<3>::new();
    assert!(buffer.push(Point::default()));
    let points = [Point::new(1, 1, 1, 1, 1); 3];
    assert!(matches!(buffer.push_from_slice(&points), Err(PointBufferError::InsufficientCapacity)));
    assert_eq!(buffer.count(), 1);
    assert!(matches!(buffer.push_from_slice(&points[..2]), Ok(2)));
    assert!(buffer.is_full());
}

#[test]
fn popping_into_a_slice_leaves_both_as_they_are() {
    let mut buffer = PointBuffer::<2>::new();
    assert!(buffer.push(Point::new(5, 5, 5, 5, 5)));
    let mut out = [Point::default(); 2];
    buffer.pop_into_slice(&mut out);
    assert_eq!(buffer.count(), 1);
    assert_eq!(format!("{:?}", out[0]), format!("{:?}", Point::default()));
}
