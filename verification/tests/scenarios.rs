use rsdemux::buffer::Buffer;
use rsdemux::demuxer::HandleBufferResult;
use rsdemux::flow::{ErrorMessage, FlowError, FlowReturn};
use rsdemux::recording::{HostCall, RecordingHost};
use rsdemux::scripted::{ScriptStep, ScriptedDemux};
use rsdemux::stream::Stream;
use rsdemux::wrapper::{demuxer_handle_buffer, demuxer_new, demuxer_seek, demuxer_start};

fn stream(index: u32) -> Stream {
    Stream::new(
        index,
        format!("audio/x-test-{}", index),
        format!("stream-{}", index),
    )
}

fn add_stream_call(index: u32) -> HostCall {
    HostCall::AddStream(
        index,
        format!("audio/x-test-{}", index),
        format!("stream-{}", index),
    )
}

#[test]
fn streams_changed_then_need_more_data() {
    let mut d = ScriptedDemux::new();
    d.streams = vec![stream(0)];
    d.script = vec![
        ScriptStep::Emit(HandleBufferResult::StreamsChanged),
        ScriptStep::Emit(HandleBufferResult::NeedMoreData),
    ];
    let mut w = demuxer_new(RecordingHost::new(), d);

    assert!(demuxer_start(&mut w, u64::MAX, false));
    let ret = demuxer_handle_buffer(&mut w, Buffer::new(1, 4096));
    assert_eq!(ret, FlowReturn::Okay);
    assert_eq!(
        w.host.calls,
        vec![
            HostCall::RemoveAllStreams,
            add_stream_call(0),
            HostCall::AddedAllStreams,
        ]
    );
}

#[test]
fn payload_then_all_eos() {
    let mut d = ScriptedDemux::new();
    d.streams = vec![stream(0)];
    d.script = vec![
        ScriptStep::Emit(HandleBufferResult::HaveBufferForStream(0, Buffer::new(7, 16))),
        ScriptStep::Emit(HandleBufferResult::AllEos),
    ];
    let mut w = demuxer_new(RecordingHost::new(), d);

    let ret = demuxer_handle_buffer(&mut w, Buffer::new(1, 4096));
    assert_eq!(ret, FlowReturn::Eos);
    assert_eq!(
        w.host.calls,
        vec![
            HostCall::BufferPushed(0, Buffer::new(7, 16), FlowReturn::Okay),
            HostCall::StreamEos(0),
        ]
    );
}

#[test]
fn seek_beyond_duration_signals_eos_everywhere() {
    let mut d = ScriptedDemux::new();
    d.streams = vec![stream(0), stream(1)];
    d.cur_duration = Some(500);
    let mut w = demuxer_new(RecordingHost::new(), d);
    assert!(demuxer_start(&mut w, u64::MAX, false));

    let mut offset: u64 = 0;
    assert!(demuxer_seek(&mut w, 1000, u64::MAX, &mut offset));
    assert_eq!(offset, u64::MAX);
    assert_eq!(
        w.host.calls,
        vec![HostCall::StreamEos(0), HostCall::StreamEos(1)]
    );
    // the open-ended stop bound arrived as "no bound"
    assert_eq!(w.demuxer.last_seek, Some((1000, None)));
}

#[test]
fn push_refusal_stops_the_loop_at_once() {
    let mut d = ScriptedDemux::new();
    d.streams = vec![stream(0)];
    d.script = vec![
        ScriptStep::Emit(HandleBufferResult::HaveBufferForStream(0, Buffer::new(3, 8))),
        ScriptStep::Emit(HandleBufferResult::NeedMoreData),
    ];
    let mut w = demuxer_new(RecordingHost::new(), d);
    w.host.queue_push_result(FlowReturn::NotLinked);

    let ret = demuxer_handle_buffer(&mut w, Buffer::new(1, 4096));
    assert_eq!(ret, FlowReturn::NotLinked);
    // exactly one callback, and the rest of the script was never consumed
    assert_eq!(
        w.host.calls,
        vec![HostCall::BufferPushed(0, Buffer::new(3, 8), FlowReturn::NotLinked)]
    );
    assert_eq!(w.demuxer.script.len(), 1);
}

#[test]
fn push_eos_status_ends_the_call_with_eos() {
    let mut d = ScriptedDemux::new();
    d.streams = vec![stream(0)];
    d.script = vec![
        ScriptStep::Emit(HandleBufferResult::HaveBufferForStream(0, Buffer::new(4, 8))),
        ScriptStep::Emit(HandleBufferResult::NeedMoreData),
    ];
    let mut w = demuxer_new(RecordingHost::new(), d);
    w.host.queue_push_result(FlowReturn::Eos);

    assert_eq!(demuxer_handle_buffer(&mut w, Buffer::new(1, 64)), FlowReturn::Eos);
    assert_eq!(
        w.host.calls,
        vec![HostCall::BufferPushed(0, Buffer::new(4, 8), FlowReturn::Eos)]
    );
}

#[test]
fn format_change_follows_the_announcement() {
    let mut d = ScriptedDemux::new();
    d.streams = vec![stream(0)];
    d.script = vec![
        ScriptStep::Emit(HandleBufferResult::StreamsChanged),
        ScriptStep::Emit(HandleBufferResult::StreamChanged(0)),
        ScriptStep::Emit(HandleBufferResult::NeedMoreData),
    ];
    let mut w = demuxer_new(RecordingHost::new(), d);

    assert_eq!(demuxer_handle_buffer(&mut w, Buffer::new(1, 64)), FlowReturn::Okay);
    assert_eq!(
        w.host.calls,
        vec![
            HostCall::RemoveAllStreams,
            add_stream_call(0),
            HostCall::AddedAllStreams,
            HostCall::StreamFormatChanged(0, "audio/x-test-0".to_string()),
        ]
    );
}

#[test]
fn format_change_names_the_stream_by_index_not_position() {
    // registry in creation order, which differs from the index order
    let mut d = ScriptedDemux::new();
    d.streams = vec![
        Stream::new(1, "audio/x-first-created".to_string(), "stream-a".to_string()),
        Stream::new(0, "video/x-second-created".to_string(), "stream-b".to_string()),
    ];
    d.script = vec![
        ScriptStep::Emit(HandleBufferResult::StreamChanged(0)),
        ScriptStep::Emit(HandleBufferResult::NeedMoreData),
    ];
    let mut w = demuxer_new(RecordingHost::new(), d);

    assert_eq!(demuxer_handle_buffer(&mut w, Buffer::new(1, 64)), FlowReturn::Okay);
    // the announced format belongs to the stream whose index is 0, which
    // sits at registry position 1
    assert_eq!(
        w.host.calls,
        vec![HostCall::StreamFormatChanged(
            0,
            "video/x-second-created".to_string()
        )]
    );
}

#[test]
fn single_stream_eos_keeps_the_loop_running() {
    let mut d = ScriptedDemux::new();
    d.streams = vec![stream(0), stream(1)];
    d.script = vec![
        ScriptStep::Emit(HandleBufferResult::Eos(0)),
        ScriptStep::Emit(HandleBufferResult::NeedMoreData),
    ];
    let mut w = demuxer_new(RecordingHost::new(), d);

    assert_eq!(demuxer_handle_buffer(&mut w, Buffer::new(1, 64)), FlowReturn::Okay);
    assert_eq!(w.host.calls, vec![HostCall::StreamEos(0)]);
}

#[test]
fn a_full_session_announces_pushes_and_winds_down() {
    let mut d = ScriptedDemux::new();
    d.streams = vec![stream(0), stream(1)];
    d.script = vec![
        ScriptStep::Emit(HandleBufferResult::StreamsChanged),
        ScriptStep::Emit(HandleBufferResult::HaveBufferForStream(0, Buffer::new(10, 100))),
        ScriptStep::Emit(HandleBufferResult::HaveBufferForStream(1, Buffer::new(11, 100))),
        ScriptStep::Emit(HandleBufferResult::Eos(0)),
        ScriptStep::Emit(HandleBufferResult::AllEos),
    ];
    let mut w = demuxer_new(RecordingHost::new(), d);

    assert_eq!(demuxer_handle_buffer(&mut w, Buffer::new(1, 64)), FlowReturn::Eos);
    assert_eq!(
        w.host.calls,
        vec![
            HostCall::RemoveAllStreams,
            add_stream_call(0),
            add_stream_call(1),
            HostCall::AddedAllStreams,
            HostCall::BufferPushed(0, Buffer::new(10, 100), FlowReturn::Okay),
            HostCall::BufferPushed(1, Buffer::new(11, 100), FlowReturn::Okay),
            HostCall::StreamEos(0),
            HostCall::StreamEos(0),
            HostCall::StreamEos(1),
        ]
    );
}

#[test]
fn seek_too_early_reports_failure_silently() {
    let mut d = ScriptedDemux::new();
    d.streams = vec![stream(0)];
    let mut w = demuxer_new(RecordingHost::new(), d);
    assert!(demuxer_start(&mut w, u64::MAX, false));

    let mut offset: u64 = 11;
    assert!(!demuxer_seek(&mut w, 10, u64::MAX, &mut offset));
    assert_eq!(offset, 11);
    assert!(w.host.calls.is_empty());
}

#[test]
fn seek_inside_the_data_returns_the_offset() {
    let mut d = ScriptedDemux::new();
    d.cur_duration = Some(500);
    let mut w = demuxer_new(RecordingHost::new(), d);
    assert!(demuxer_start(&mut w, u64::MAX, false));

    let mut offset: u64 = 0;
    assert!(demuxer_seek(&mut w, 100, 200, &mut offset));
    assert_eq!(offset, 100);
    assert!(w.host.calls.is_empty());
    // a bounded stop survives the boundary undisturbed
    assert_eq!(w.demuxer.last_seek, Some((100, Some(200))));
}

#[test]
fn seek_failure_posts_the_message() {
    let d = ScriptedDemux::new();
    let mut w = demuxer_new(RecordingHost::new(), d);

    let mut offset: u64 = 21;
    assert!(!demuxer_seek(&mut w, 10, u64::MAX, &mut offset));
    assert_eq!(offset, 21);
    assert_eq!(
        w.host.calls,
        vec![HostCall::MessagePosted("seek before start".to_string())]
    );
}

#[test]
fn first_step_failure_with_message_is_posted() {
    let mut d = ScriptedDemux::new();
    d.script = vec![ScriptStep::Fail(FlowError::NotNegotiated(ErrorMessage::new(
        "caps refused".to_string(),
    )))];
    let mut w = demuxer_new(RecordingHost::new(), d);

    assert_eq!(
        demuxer_handle_buffer(&mut w, Buffer::new(1, 64)),
        FlowReturn::NotNegotiated
    );
    assert_eq!(
        w.host.calls,
        vec![HostCall::MessagePosted("caps refused".to_string())]
    );
}

#[test]
fn drain_step_failure_without_message_is_silent() {
    let mut d = ScriptedDemux::new();
    d.streams = vec![stream(0)];
    d.script = vec![
        ScriptStep::Emit(HandleBufferResult::Eos(0)),
        ScriptStep::Fail(FlowError::NotLinked),
    ];
    let mut w = demuxer_new(RecordingHost::new(), d);

    assert_eq!(demuxer_handle_buffer(&mut w, Buffer::new(1, 64)), FlowReturn::NotLinked);
    assert_eq!(w.host.calls, vec![HostCall::StreamEos(0)]);
}

#[test]
fn flushing_failure_keeps_its_status() {
    let mut d = ScriptedDemux::new();
    d.script = vec![ScriptStep::Fail(FlowError::Flushing)];
    let mut w = demuxer_new(RecordingHost::new(), d);

    assert_eq!(demuxer_handle_buffer(&mut w, Buffer::new(1, 64)), FlowReturn::Flushing);
    assert!(w.host.calls.is_empty());
}

#[test]
fn error_failure_posts_and_returns_error() {
    let mut d = ScriptedDemux::new();
    d.script = vec![ScriptStep::Fail(FlowError::Error(ErrorMessage::new(
        "torn stream".to_string(),
    )))];
    let mut w = demuxer_new(RecordingHost::new(), d);

    assert_eq!(demuxer_handle_buffer(&mut w, Buffer::new(1, 64)), FlowReturn::Error);
    assert_eq!(
        w.host.calls,
        vec![HostCall::MessagePosted("torn stream".to_string())]
    );
}

#[test]
fn empty_script_asks_for_more_data() {
    let d = ScriptedDemux::new();
    let mut w = demuxer_new(RecordingHost::new(), d);

    assert_eq!(demuxer_handle_buffer(&mut w, Buffer::new(1, 64)), FlowReturn::Okay);
    assert!(w.host.calls.is_empty());
}

#[test]
fn all_eos_with_empty_registry_still_ends_in_eos() {
    let mut d = ScriptedDemux::new();
    d.script = vec![ScriptStep::Emit(HandleBufferResult::AllEos)];
    let mut w = demuxer_new(RecordingHost::new(), d);

    assert_eq!(demuxer_handle_buffer(&mut w, Buffer::new(1, 64)), FlowReturn::Eos);
    assert!(w.host.calls.is_empty());
}

#[test]
fn script_naming_an_unknown_stream_is_refused() {
    let mut d = ScriptedDemux::new();
    d.script = vec![
        ScriptStep::Emit(HandleBufferResult::StreamChanged(3)),
        ScriptStep::Emit(HandleBufferResult::NeedMoreData),
    ];
    let mut w = demuxer_new(RecordingHost::new(), d);

    assert_eq!(demuxer_handle_buffer(&mut w, Buffer::new(1, 64)), FlowReturn::Error);
    assert_eq!(
        w.host.calls,
        vec![HostCall::MessagePosted("script names an unknown stream".to_string())]
    );
}

#[test]
fn script_ending_without_terminal_outcome_is_refused() {
    let mut d = ScriptedDemux::new();
    d.streams = vec![stream(0)];
    d.script = vec![ScriptStep::Emit(HandleBufferResult::Eos(0))];
    let mut w = demuxer_new(RecordingHost::new(), d);

    assert_eq!(demuxer_handle_buffer(&mut w, Buffer::new(1, 64)), FlowReturn::Error);
    assert_eq!(
        w.host.calls,
        vec![HostCall::MessagePosted(
            "script ends without a terminal outcome".to_string()
        )]
    );
}
