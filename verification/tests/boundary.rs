use rsdemux::buffer::Buffer;
use rsdemux::flow::{ErrorMessage, FlowError, FlowReturn};
use rsdemux::recording::{HostCall, RecordingHost};
use rsdemux::scripted::ScriptedDemux;
use rsdemux::sentinel::{option_from_sentinel, sentinel_from_option};
use rsdemux::sillydemux::SillyDemux;
use rsdemux::stream::Stream;
use rsdemux::wrapper::{
    demuxer_drop, demuxer_end_of_stream, demuxer_get_duration, demuxer_get_position,
    demuxer_handle_buffer, demuxer_is_seekable, demuxer_new, demuxer_seek, demuxer_start,
    demuxer_stop,
};

#[test]
fn new_wrapper_is_clean() {
    let w = demuxer_new(RecordingHost::new(), ScriptedDemux::new());
    assert!(!w.poisoned);
    assert!(w.host.calls.is_empty());
    demuxer_drop(w);
}

#[test]
fn poisoning_is_sticky_for_every_entry_point() {
    let mut w = demuxer_new(RecordingHost::new(), ScriptedDemux::new());
    w.demuxer.cur_position = Some(42);
    w.demuxer.cur_duration = Some(99);
    w.demuxer.can_seek = true;
    w.poison();
    assert!(w.poisoned);

    assert!(!demuxer_start(&mut w, u64::MAX, false));
    assert!(!demuxer_stop(&mut w));
    assert!(!demuxer_is_seekable(&w));

    let mut position: u64 = 7;
    assert!(!demuxer_get_position(&w, &mut position));
    assert_eq!(position, 7);

    let mut duration: u64 = 8;
    assert!(!demuxer_get_duration(&w, &mut duration));
    assert_eq!(duration, 8);

    let mut offset: u64 = 9;
    assert!(!demuxer_seek(&mut w, 0, u64::MAX, &mut offset));
    assert_eq!(offset, 9);

    assert_eq!(
        demuxer_handle_buffer(&mut w, Buffer::new(1, 16)),
        FlowReturn::Error
    );
    demuxer_end_of_stream(&mut w);

    // the wrapped implementation was never invoked and no callback fired
    assert!(w.host.calls.is_empty());
    assert!(!w.demuxer.started);
    assert!(w.poisoned);
}

#[test]
fn start_succeeds_then_refuses_a_second_time() {
    let mut w = demuxer_new(RecordingHost::new(), ScriptedDemux::new());
    assert!(demuxer_start(&mut w, u64::MAX, false));
    assert!(w.demuxer.started);
    assert!(w.host.calls.is_empty());

    assert!(!demuxer_start(&mut w, 4096, true));
    assert_eq!(
        w.host.calls,
        vec![HostCall::MessagePosted("demuxer already started".to_string())]
    );
}

#[test]
fn stop_succeeds_and_is_safe_after_failed_start() {
    let mut w = demuxer_new(RecordingHost::new(), SillyDemux::new());
    assert!(!demuxer_start(&mut w, u64::MAX, false));
    assert!(demuxer_stop(&mut w));
    assert!(demuxer_stop(&mut w));
}

#[test]
fn position_and_duration_round_trip_the_sentinel() {
    let mut w = demuxer_new(RecordingHost::new(), ScriptedDemux::new());

    let mut position: u64 = 1;
    assert!(!demuxer_get_position(&w, &mut position));
    assert_eq!(position, u64::MAX);

    let mut duration: u64 = 1;
    assert!(!demuxer_get_duration(&w, &mut duration));
    assert_eq!(duration, u64::MAX);

    w.demuxer.cur_position = Some(1234);
    w.demuxer.cur_duration = Some(5678);

    assert!(demuxer_get_position(&w, &mut position));
    assert_eq!(position, 1234);
    assert!(demuxer_get_duration(&w, &mut duration));
    assert_eq!(duration, 5678);
}

#[test]
fn is_seekable_reflects_the_parser() {
    let mut w = demuxer_new(RecordingHost::new(), ScriptedDemux::new());
    assert!(!demuxer_is_seekable(&w));
    w.demuxer.can_seek = true;
    assert!(demuxer_is_seekable(&w));
}

#[test]
fn sentinel_decoding_and_encoding() {
    assert_eq!(option_from_sentinel(u64::MAX), None);
    assert_eq!(option_from_sentinel(0), Some(0));
    assert_eq!(option_from_sentinel(12345), Some(12345));
    assert_eq!(option_from_sentinel(u64::MAX - 1), Some(u64::MAX - 1));

    assert_eq!(sentinel_from_option(None), u64::MAX);
    assert_eq!(sentinel_from_option(Some(0)), 0);
    assert_eq!(sentinel_from_option(Some(u64::MAX - 1)), u64::MAX - 1);

    assert_eq!(sentinel_from_option(option_from_sentinel(777)), 777);
    assert_eq!(sentinel_from_option(option_from_sentinel(u64::MAX)), u64::MAX);
    assert_eq!(option_from_sentinel(sentinel_from_option(Some(3))), Some(3));
    assert_eq!(option_from_sentinel(sentinel_from_option(None)), None);
}

#[test]
fn silly_demux_fails_every_parsing_operation() {
    let mut w = demuxer_new(RecordingHost::new(), SillyDemux::new());

    assert!(!demuxer_start(&mut w, u64::MAX, true));
    assert_eq!(
        w.host.calls,
        vec![HostCall::MessagePosted("no container format is supported".to_string())]
    );

    assert_eq!(
        demuxer_handle_buffer(&mut w, Buffer::new(2, 64)),
        FlowReturn::Error
    );
    assert_eq!(w.host.calls.len(), 2);
    assert_eq!(
        w.host.calls[1],
        HostCall::MessagePosted("no container format is supported".to_string())
    );

    let mut offset: u64 = 5;
    assert!(!demuxer_seek(&mut w, 0, u64::MAX, &mut offset));
    assert_eq!(offset, 5);

    demuxer_end_of_stream(&mut w);
    assert_eq!(w.host.calls.len(), 4);

    assert!(!demuxer_is_seekable(&w));
    let mut out: u64 = 0;
    assert!(!demuxer_get_position(&w, &mut out));
    assert_eq!(out, u64::MAX);
    assert!(!demuxer_get_duration(&w, &mut out));
    assert_eq!(out, u64::MAX);
    assert!(!w.poisoned);
}

#[test]
fn end_of_stream_is_silent_on_success() {
    let mut w = demuxer_new(RecordingHost::new(), ScriptedDemux::new());
    demuxer_end_of_stream(&mut w);
    assert!(w.host.calls.is_empty());
}

#[test]
fn flow_error_maps_to_its_native_status() {
    assert_eq!(FlowError::NotLinked.to_native(), FlowReturn::NotLinked);
    assert_eq!(FlowError::Flushing.to_native(), FlowReturn::Flushing);
    assert_eq!(
        FlowError::NotNegotiated(ErrorMessage::new("a".to_string())).to_native(),
        FlowReturn::NotNegotiated
    );
    assert_eq!(
        FlowError::Error(ErrorMessage::new("b".to_string())).to_native(),
        FlowReturn::Error
    );
}

#[test]
fn constructors_keep_their_fields() {
    let b = Buffer::new(77, 4096);
    assert_eq!(b.handle, 77);
    assert_eq!(b.size, 4096);

    let s = Stream::new(3, "video/x-test".to_string(), "stream-3".to_string());
    assert_eq!(s.index, 3);
    assert_eq!(s.format, "video/x-test");
    assert_eq!(s.stream_id, "stream-3");

    let m = ErrorMessage::new("broken".to_string());
    assert_eq!(m.message, "broken");
}
