use vstd::prelude::*;

use crate::buffer::Buffer;
use crate::flow::{ErrorMessage, FlowReturn};
use crate::stream::StreamIndex;

verus! {

/// One observable callback invocation on the host, as recorded in the ghost
/// history that every [`Host`] implementation maintains.  The wrapper's
/// contracts are stated over sequences of these events.
pub enum HostEvent {
    RemoveAllStreams,
    AddStream { index: StreamIndex, format: Seq<char>, stream_id: Seq<char> },
    AddedAllStreams,
    StreamFormatChanged { index: StreamIndex, format: Seq<char> },
    /// A payload was transferred to the host for `index`; `ret` is the flow
    /// status the host reported back for it.
    BufferPushed { index: StreamIndex, buffer: Buffer, ret: FlowReturn },
    StreamEos { index: StreamIndex },
    /// A fatal diagnostic was posted to the host's message path.
    MessagePosted { message: Seq<char> },
}

/// The callback surface the wrapper invokes on the host-side object.
///
/// Each method appends exactly one event to the ghost history `events()`,
/// and nothing else an implementation does may touch that history; the
/// wrapper's contracts describe every entry point's effect as a suffix of
/// events.  Only `stream_push_buffer` reports anything back: the flow status
/// of the pushed payload, which the flow-control loop propagates on
/// non-success.
pub trait Host: Sized {
    /// Ghost history of all callbacks invoked so far, oldest first.
    spec fn events(&self) -> Seq<HostEvent>;

    /// The host must clear its stream set; a full re-announcement follows.
    fn remove_all_streams(&mut self)
        ensures
            final(self).events() == old(self).events().push(HostEvent::RemoveAllStreams),
    ;

    /// Announces one stream of the current generation.
    fn add_stream(&mut self, index: StreamIndex, format: &str, stream_id: &str)
        ensures
            final(self).events() == old(self).events().push(
                HostEvent::AddStream { index, format: format@, stream_id: stream_id@ },
            ),
    ;

    /// The whole current generation has been announced; payloads may flow.
    fn added_all_streams(&mut self)
        ensures
            final(self).events() == old(self).events().push(HostEvent::AddedAllStreams),
    ;

    /// Announces a format change of a single stream.
    fn stream_format_changed(&mut self, index: StreamIndex, format: &str)
        ensures
            final(self).events() == old(self).events().push(
                HostEvent::StreamFormatChanged { index, format: format@ },
            ),
    ;

    /// Transfers ownership of `buffer` to the host as a payload for stream
    /// `index`; the host answers with the payload's flow status.
    fn stream_push_buffer(&mut self, index: StreamIndex, buffer: Buffer) -> (ret: FlowReturn)
        ensures
            final(self).events() == old(self).events().push(
                HostEvent::BufferPushed { index, buffer, ret },
            ),
    ;

    /// Signals end-of-stream for a single stream.
    fn stream_eos(&mut self, index: StreamIndex)
        ensures
            final(self).events() == old(self).events().push(HostEvent::StreamEos { index }),
    ;

    /// Posts a fatal diagnostic to the host's message path.
    fn post_message(&mut self, msg: &ErrorMessage)
        ensures
            final(self).events() == old(self).events().push(
                HostEvent::MessagePosted { message: msg.message@ },
            ),
    ;
}

} // verus!
