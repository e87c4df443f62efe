use microphone::pcm::{capture_channels, samples_in_buffer, SampleQueue};

#[test]
fn an_empty_queue_reads_nothing() {
    let mut queue = SampleQueue::new();
    assert_eq!(queue.read(16), Vec::<i16>::new());
    assert_eq!(queue.read(0), Vec::<i16>::new());
}

#[test]
fn a_read_keeps_the_remainder() {
    let mut queue = SampleQueue::new();
    queue.append(&[1, 2, 3, 4, 5]);
    assert_eq!(queue.read(2), vec![1, 2]);
    assert_eq!(queue.read(0), Vec::<i16>::new());
    queue.append(&[6, 7]);
    assert_eq!(queue.read(3), vec![3, 4, 5]);
    assert_eq!(queue.read(100), vec![6, 7]);
    assert_eq!(queue.read(100), Vec::<i16>::new());
}

#[test]
fn a_read_of_exactly_what_waits_empties_the_queue() {
    let mut queue = SampleQueue::new();
    queue.append(&[-1, -2, -3]);
    assert_eq!(queue.read(3), vec![-1, -2, -3]);
    assert_eq!(queue.read(3), Vec::<i16>::new());
}

#[test]
fn what_is_read_is_what_was_captured() {
    let mut queue = SampleQueue::new();
    let mut captured: Vec<i16> = Vec::new();
    let mut delivered: Vec<i16> = Vec::new();
    for round in 0..50i16 {
        let chunk: Vec<i16> = (0..round % 7).map(|i| round * 10 + i).collect();
        captured.extend_from_slice(&chunk);
        queue.append(&chunk);
        delivered.extend(queue.read((round % 4) as usize));
    }
    delivered.extend(queue.read(usize::MAX));
    assert_eq!(delivered, captured);
}

#[test]
fn two_reads_join_to_one() {
    let mut apart = SampleQueue::new();
    let mut joined = SampleQueue::new();
    apart.append(&[1, 2, 3, 4, 5]);
    joined.append(&[1, 2, 3, 4, 5]);
    let mut parts = apart.read(1);
    parts.extend(apart.read(3));
    assert_eq!(parts, joined.read(4));
    assert_eq!(apart.read(9), joined.read(9));
}

#[test]
fn a_buffer_holds_one_sample_for_two_bytes() {
    assert_eq!(samples_in_buffer(0, false), None);
    assert_eq!(samples_in_buffer(1, false), None);
    assert_eq!(samples_in_buffer(2, false), Some(1));
    assert_eq!(samples_in_buffer(4097, false), Some(2048));
    assert_eq!(samples_in_buffer(4096, true), None);
}

#[test]
fn at_least_one_channel_is_captured() {
    assert_eq!(capture_channels(0), 1);
    assert_eq!(capture_channels(1), 1);
    assert_eq!(capture_channels(6), 6);
}

#[test]
fn a_closed_queue_takes_nothing_in() {
    let mut queue = SampleQueue::new();
    queue.append(&[1, 2]);
    queue.close();
    queue.append(&[3]);
    assert_eq!(queue.read(1), vec![1]);
    queue.close();
    queue.append(&[4]);
    assert_eq!(queue.read(9), vec![2]);
    assert_eq!(queue.read(9), Vec::<i16>::new());
}
