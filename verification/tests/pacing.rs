//! The pacing adapter: waits, elapsed times, completion.

use bitwhip::{Output, PollSource, PollState, Rational, RawFrame, ScriptStep, ScriptedSource, Source, StreamError};
use bitwhip::rational::frame_interval_ms;

fn rate(num: i32, den: i32) -> Rational {
    Rational::new(num, den)
}

#[test]
fn frame_interval_of_common_rates() {
    assert_eq!(frame_interval_ms(&rate(30, 1)), 33);
    assert_eq!(frame_interval_ms(&rate(25, 1)), 40);
    assert_eq!(frame_interval_ms(&rate(60, 1)), 16);
    assert_eq!(frame_interval_ms(&rate(30000, 1001)), 33);
    assert_eq!(frame_interval_ms(&rate(1, 1)), 1000);
}

#[test]
fn rational_invert_swaps() {
    let r = rate(30, 1).invert();
    assert_eq!(r.num, 1);
    assert_eq!(r.den, 30);
}

#[test]
fn pending_wait_is_default_before_any_frame() {
    let mut s = PollState::new(rate(30, 1), 0);
    // several retries before the first frame: always the fixed 5 ms default
    for now in [0u64, 3, 9, 100] {
        match s.poll(now, Err(StreamError::WouldRetry)) {
            Output::Pending(w) => assert_eq!(w, 5),
            _ => panic!("retry must pace as Pending"),
        }
    }
}

#[test]
fn pending_wait_tracks_deadline_after_a_frame() {
    let mut s = PollState::new(rate(30, 1), 0);
    match s.poll(10, Ok(())) {
        Output::Item(Ok(()), d) => assert_eq!(d, 10),
        _ => panic!("a frame must come out as an item"),
    }
    // next expected instant is 10 + 33 = 43
    match s.poll(20, Err(StreamError::WouldRetry)) {
        Output::Pending(w) => assert_eq!(w, 23),
        _ => panic!("retry must pace as Pending"),
    }
    match s.poll(43, Err(StreamError::WouldRetry)) {
        Output::Pending(w) => assert_eq!(w, 0),
        _ => panic!("retry must pace as Pending"),
    }
    // the deadline has passed: the wait clamps at zero, never underflows
    match s.poll(90, Err(StreamError::WouldRetry)) {
        Output::Pending(w) => assert_eq!(w, 0),
        _ => panic!("retry must pace as Pending"),
    }
}

#[test]
fn elapsed_is_monotonic_across_successful_polls() {
    let mut s = PollState::new(rate(60, 1), 5);
    let mut last: u64 = 0;
    for now in [5u64, 21, 37, 37, 120, 4000] {
        match s.poll(now, Ok(())) {
            Output::Item(Ok(()), d) => {
                assert!(d >= last);
                assert_eq!(d, now - 5);
                last = d;
            },
            _ => panic!("a frame must come out as an item"),
        }
    }
}

#[test]
fn device_error_propagates_with_elapsed() {
    let mut s = PollState::new(rate(30, 1), 100);
    match s.poll(250, Err(StreamError::DeviceError(-5))) {
        Output::Item(Err(StreamError::DeviceError(code)), d) => {
            assert_eq!(code, -5);
            assert_eq!(d, 150);
        },
        _ => panic!("a device error must propagate as an error item"),
    }
}

#[test]
fn end_of_stream_completes_for_good() {
    let mut s = PollState::new(rate(30, 1), 0);
    assert!(matches!(s.poll(7, Err(StreamError::EndOfStream)), Output::Complete));
    // complete is terminal: whatever the backend would say, no item ever again
    assert!(matches!(s.poll(8, Ok(())), Output::Complete));
    assert!(matches!(s.poll(9, Err(StreamError::WouldRetry)), Output::Complete));
    assert!(matches!(s.poll(10, Err(StreamError::DeviceError(1))), Output::Complete));
}

#[test]
fn script_exhaustion_is_end_of_stream() {
    let mut src = ScriptedSource::new(320, 200, vec![ScriptStep::Frame { pts: 0, duration: 1 }]);
    let mut ps = PollSource::new(src, rate(30, 1), 0);
    let mut frame = RawFrame::empty();
    assert!(matches!(ps.next(0, &mut frame), Output::Item(Ok(()), 0)));
    // the script has run out: the backend answers EndOfStream, the adapter completes
    assert!(matches!(ps.next(40, &mut frame), Output::Complete));
    src = ps.source;
    let mut direct = RawFrame::empty();
    assert_eq!(src.next_frame(&mut direct), Err(StreamError::EndOfStream));
}

#[test]
fn poll_source_paces_a_scripted_backend() {
    let steps = vec![
        ScriptStep::Retry,
        ScriptStep::Frame { pts: 0, duration: 1 },
        ScriptStep::Retry,
        ScriptStep::Eof,
    ];
    let src = ScriptedSource::new(320, 200, steps);
    let mut ps = PollSource::new(src, rate(30, 1), 0);
    let mut frame = RawFrame::empty();

    assert!(matches!(ps.next(0, &mut frame), Output::Pending(5)));
    match ps.next(5, &mut frame) {
        Output::Item(Ok(()), d) => assert_eq!(d, 5),
        _ => panic!("the scripted frame must come out as an item"),
    }
    assert_eq!(frame.width, 320);
    assert_eq!(frame.height, 200);
    // deadline 5 + 33 = 38
    assert!(matches!(ps.next(20, &mut frame), Output::Pending(18)));
    assert!(matches!(ps.next(38, &mut frame), Output::Complete));
    // terminal: the backend is not pulled again
    let pulled = ps.source.pos;
    assert!(matches!(ps.next(40, &mut frame), Output::Complete));
    assert_eq!(ps.source.pos, pulled);
}
