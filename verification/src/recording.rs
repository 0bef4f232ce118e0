use vstd::prelude::*;
use vstd::string::StringExecFns;

use crate::buffer::Buffer;
use crate::flow::{ErrorMessage, FlowReturn};
use crate::host::{Host, HostEvent};
use crate::stream::StreamIndex;

verus! {

/// One recorded callback invocation: the executable mirror of
/// [`HostEvent`], with owned strings in place of character sequences.
#[derive(Debug, PartialEq)]
pub enum HostCall {
    RemoveAllStreams,
    AddStream(StreamIndex, String, String),
    AddedAllStreams,
    StreamFormatChanged(StreamIndex, String),
    BufferPushed(StreamIndex, Buffer, FlowReturn),
    StreamEos(StreamIndex),
    MessagePosted(String),
}

impl View for HostCall {
    type V = HostEvent;

    open spec fn view(&self) -> HostEvent {
        match self {
            HostCall::RemoveAllStreams => HostEvent::RemoveAllStreams,
            HostCall::AddStream(i, f, s) => HostEvent::AddStream {
                index: *i,
                format: f@,
                stream_id: s@,
            },
            HostCall::AddedAllStreams => HostEvent::AddedAllStreams,
            HostCall::StreamFormatChanged(i, f) => HostEvent::StreamFormatChanged {
                index: *i,
                format: f@,
            },
            HostCall::BufferPushed(i, b, r) => HostEvent::BufferPushed {
                index: *i,
                buffer: *b,
                ret: *r,
            },
            HostCall::StreamEos(i) => HostEvent::StreamEos { index: *i },
            HostCall::MessagePosted(m) => HostEvent::MessagePosted { message: m@ },
        }
    }
}

/// The ghost image of a recorded call log.
pub open spec fn call_views(calls: Seq<HostCall>) -> Seq<HostEvent> {
    calls.map_values(|c: HostCall| c@)
}

/// Recording one more call appends its image to the log's ghost history.
proof fn lemma_call_views_push(calls: Seq<HostCall>, c: HostCall)
    ensures
        call_views(calls.push(c)) == call_views(calls).push(c@),
{
    assert(call_views(calls.push(c)) =~= call_views(calls).push(c@));
}

/// A host that records every callback it receives, in order, and answers
/// each pushed payload with the next queued flow status (success once the
/// queue is exhausted).  It is the crate's own implementation of the
/// callback surface, used to observe and check a wrapper's behaviour.
#[derive(Debug)]
pub struct RecordingHost {
    /// Every callback received so far, oldest first.
    pub calls: Vec<HostCall>,
    /// Statuses to answer successive pushed payloads with.
    pub push_results: Vec<FlowReturn>,
    /// How many queued statuses have been consumed.
    pub next_push: usize,
}

impl RecordingHost {
    pub fn new() -> (h: RecordingHost)
        ensures
            h.calls@.len() == 0,
            h.push_results@.len() == 0,
            h.next_push == 0,
    {
        RecordingHost { calls: Vec::new(), push_results: Vec::new(), next_push: 0 }
    }

    /// Queues the status the host will report for the next unanswered
    /// payload push.
    pub fn queue_push_result(&mut self, ret: FlowReturn)
        ensures
            final(self).calls == old(self).calls,
            final(self).push_results@ == old(self).push_results@.push(ret),
            final(self).next_push == old(self).next_push,
    {
        self.push_results.push(ret);
    }
}

impl Host for RecordingHost {
    open spec fn events(&self) -> Seq<HostEvent> {
        call_views(self.calls@)
    }

    fn remove_all_streams(&mut self) {
        proof {
            lemma_call_views_push(self.calls@, HostCall::RemoveAllStreams);
        }
        self.calls.push(HostCall::RemoveAllStreams);
    }

    fn add_stream(&mut self, index: StreamIndex, format: &str, stream_id: &str) {
        let call = HostCall::AddStream(
            index,
            String::from_str(format),
            String::from_str(stream_id),
        );
        proof {
            lemma_call_views_push(self.calls@, call);
        }
        self.calls.push(call);
    }

    fn added_all_streams(&mut self) {
        proof {
            lemma_call_views_push(self.calls@, HostCall::AddedAllStreams);
        }
        self.calls.push(HostCall::AddedAllStreams);
    }

    fn stream_format_changed(&mut self, index: StreamIndex, format: &str) {
        let call = HostCall::StreamFormatChanged(index, String::from_str(format));
        proof {
            lemma_call_views_push(self.calls@, call);
        }
        self.calls.push(call);
    }

    fn stream_push_buffer(&mut self, index: StreamIndex, buffer: Buffer) -> (ret: FlowReturn) {
        let ret = if self.next_push < self.push_results.len() {
            let r = self.push_results[self.next_push];
            self.next_push = self.next_push + 1;
            r
        } else {
            FlowReturn::Okay
        };
        let call = HostCall::BufferPushed(index, buffer, ret);
        proof {
            lemma_call_views_push(self.calls@, call);
        }
        self.calls.push(call);
        ret
    }

    fn stream_eos(&mut self, index: StreamIndex) {
        proof {
            lemma_call_views_push(self.calls@, HostCall::StreamEos(index));
        }
        self.calls.push(HostCall::StreamEos(index));
    }

    fn post_message(&mut self, msg: &ErrorMessage) {
        let call = HostCall::MessagePosted(String::from_str(msg.message.as_str()));
        proof {
            lemma_call_views_push(self.calls@, call);
        }
        self.calls.push(call);
    }
}

} // verus!
