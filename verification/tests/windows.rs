use mypitch::window::SlidingWindow;

#[test]
fn new_window_is_empty() {
    let w: SlidingWindow<u8> = SlidingWindow::new(4);
    assert_eq!(w.len(), 0);
    assert_eq!(w.capacity(), 4);
    assert_eq!(w.latest(10), Vec::<u8>::new());
    assert_eq!(w.oldest(10), Vec::<u8>::new());
}

#[test]
fn window_keeps_the_newest_samples() {
    let mut w: SlidingWindow<i32> = SlidingWindow::new(5);
    w.extend(&[1, 2, 3]);
    assert_eq!(w.latest(5), vec![1, 2, 3]);
    w.extend(&[4, 5, 6, 7]);
    assert_eq!(w.len(), 5);
    assert_eq!(w.latest(5), vec![3, 4, 5, 6, 7]);
    assert_eq!(w.latest(2), vec![6, 7]);
    assert_eq!(w.oldest(2), vec![3, 4]);
}

#[test]
fn chunk_larger_than_capacity_leaves_its_tail() {
    let mut w: SlidingWindow<i32> = SlidingWindow::new(3);
    w.extend(&[9]);
    w.extend(&[1, 2, 3, 4, 5, 6, 7, 8]);
    assert_eq!(w.latest(3), vec![6, 7, 8]);
    assert_eq!(w.len(), 3);
}

#[test]
fn window_of_no_capacity_holds_nothing() {
    let mut w: SlidingWindow<i32> = SlidingWindow::new(0);
    w.extend(&[1, 2, 3]);
    assert_eq!(w.len(), 0);
}

#[test]
fn empty_chunk_changes_nothing() {
    let mut w: SlidingWindow<i32> = SlidingWindow::new(3);
    w.extend(&[1, 2]);
    w.extend(&[]);
    assert_eq!(w.latest(3), vec![1, 2]);
}

#[test]
fn capacity_is_never_exceeded() {
    let mut w: SlidingWindow<u32> = SlidingWindow::new(37);
    let mut next: u32 = 0;
    let sizes = [0usize, 1, 5, 36, 37, 38, 100, 2, 0, 74, 3, 1000, 1];
    for round in 0..5 {
        for size in sizes {
            let chunk: Vec<u32> = (0..size as u32).map(|i| next + i).collect();
            next += size as u32;
            w.extend(&chunk);
            assert!(w.len() <= w.capacity(), "round {} size {}", round, size);
            let held = w.latest(37);
            let expect_len = (next as usize).min(37);
            assert_eq!(held.len(), expect_len);
            for (k, v) in held.iter().enumerate() {
                assert_eq!(*v, next - expect_len as u32 + k as u32);
            }
        }
    }
}

#[test]
fn trimming_on_every_arrival_equals_trimming_once() {
    let chunks: [&[i32]; 4] = [&[1, 2, 3], &[4], &[5, 6, 7, 8, 9], &[10, 11]];
    let mut each: SlidingWindow<i32> = SlidingWindow::new(4);
    let mut joined: Vec<i32> = Vec::new();
    for c in chunks {
        each.extend(c);
        joined.extend_from_slice(c);
    }
    let mut once: SlidingWindow<i32> = SlidingWindow::new(4);
    once.extend(&joined);
    assert_eq!(each.latest(4), once.latest(4));
    assert_eq!(each.latest(4), vec![8, 9, 10, 11]);
}

#[test]
fn advance_forgets_the_oldest() {
    let mut w: SlidingWindow<i32> = SlidingWindow::new(10);
    w.extend(&[1, 2, 3, 4, 5]);
    w.advance(2);
    assert_eq!(w.latest(10), vec![3, 4, 5]);
    w.advance(0);
    assert_eq!(w.latest(10), vec![3, 4, 5]);
    w.advance(7);
    assert_eq!(w.len(), 0);
    assert_eq!(w.capacity(), 10);
}

#[test]
fn windows_carry_floating_point_samples() {
    let mut w: SlidingWindow<f32> = SlidingWindow::new(2);
    w.extend(&[0.5, -0.25, 1.0]);
    assert_eq!(w.latest(2), vec![-0.25, 1.0]);
}
