use microphone::pcm::SampleQueue;
use microphone::reader::{queue_frames, read_buffer_len, ReaderRequest, ReaderThread};

#[test]
fn a_thread_told_to_stop_stops_closes_and_exits() {
    let mut thread = ReaderThread::new();
    let mut seen = Vec::new();
    for (stop, n) in [(false, 512), (false, 0), (true, 0), (true, 0), (true, 0), (true, 0)] {
        seen.push(thread.request(stop));
        thread.done(stop, n);
    }
    assert_eq!(
        seen,
        vec![
            ReaderRequest::Read,
            ReaderRequest::Read,
            ReaderRequest::Stop,
            ReaderRequest::Close,
            ReaderRequest::Exit,
            ReaderRequest::Exit,
        ]
    );
}

#[test]
fn a_failed_read_ends_the_thread() {
    let mut thread = ReaderThread::new();
    let mut seen = Vec::new();
    for n in [1024, -32, 1024, 1024, 1024] {
        seen.push(thread.request(false));
        thread.done(false, n);
    }
    assert_eq!(
        seen,
        vec![
            ReaderRequest::Read,
            ReaderRequest::Read,
            ReaderRequest::Stop,
            ReaderRequest::Close,
            ReaderRequest::Exit,
        ]
    );
}

#[test]
fn a_read_buffer_holds_1024_frames() {
    assert_eq!(read_buffer_len(0), 0);
    assert_eq!(read_buffer_len(1), 1024);
    assert_eq!(read_buffer_len(2), 2048);
}

#[test]
fn only_the_frames_read_are_queued() {
    let mut queue = SampleQueue::new();
    let buffer = [1i16, 2, 3, 4, 5, 6];
    queue_frames(&mut queue, &buffer, 2, 2);
    queue_frames(&mut queue, &buffer, 0, 2);
    queue_frames(&mut queue, &buffer, -5, 2);
    queue_frames(&mut queue, &buffer, 100, 0);
    assert_eq!(queue.read(100), vec![1, 2, 3, 4]);
}

#[test]
fn a_run_hands_on_every_read() {
    let reads: [(i64, [i16; 2]); 5] = [(2, [1, 2]), (0, [9, 9]), (1, [3, 9]), (-1, [9, 9]), (2, [9, 9])];
    let mut thread = ReaderThread::new();
    let mut queue = SampleQueue::new();
    for (n, buffer) in reads {
        if thread.request(false) == ReaderRequest::Read {
            queue_frames(&mut queue, &buffer, n, 1);
        }
        thread.done(false, n);
    }
    assert_eq!(queue.read(100), vec![1, 2, 3]);
}
