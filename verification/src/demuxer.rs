use vstd::prelude::*;

use crate::buffer::Buffer;
use crate::flow::{ErrorMessage, FlowError};
use crate::stream::{has_stream_with_index, Stream, StreamIndex, StreamModel};

verus! {

/// Tri-state outcome of resolving a seek request.
///
/// `TooEarly`: the requested position cannot yet be resolved from the data
/// seen so far.  `Offset(o)`: the host must reposition its upstream read
/// cursor to byte `o` and resume feeding.  `Eos`: the requested position lies
/// beyond all available data; every stream must be signalled end-of-stream
/// at once.
#[derive(Debug, PartialEq, Eq, Structural)]
pub enum SeekResult {
    TooEarly,
    Offset(u64),
    Eos,
}

/// Outcome of one incremental buffer-handling step.
#[derive(Debug)]
pub enum HandleBufferResult {
    /// Stop the flow-control loop; the host must supply another buffer.
    NeedMoreData,
    /// The stream set was (re)established; the full set must be re-announced.
    StreamsChanged,
    /// A single stream's format changed.
    StreamChanged(StreamIndex),
    /// A payload buffer is ready for the given stream.
    HaveBufferForStream(StreamIndex, Buffer),
    /// A single stream ended; others may still be active.
    Eos(StreamIndex),
    /// Every stream ended; terminal for the whole demuxer.
    AllEos,
}

/// The two outcomes on which a drain sequence stops asking the parser for
/// more: the loop either waits for new input or winds the whole instance
/// down.
pub open spec fn is_drain_terminal(r: HandleBufferResult) -> bool {
    match r {
        HandleBufferResult::NeedMoreData => true,
        HandleBufferResult::AllEos => true,
        _ => false,
    }
}

/// The capability set a concrete container parser implements.
///
/// Data arrives by push: the host feeds opaque byte chunks into
/// `handle_buffer`, and the parser answers with one [`HandleBufferResult`]
/// per step.  A call with `None` asks the parser to drain output it has
/// already buffered, without new input; the parser must never block waiting
/// for data.
///
/// Besides the stream registry and the pure queries, every implementation
/// exposes one ghost quantity, `drain_budget`: an upper bound on the number
/// of drain steps (`handle_buffer(None)` calls) it can still answer before
/// it must report a terminal outcome.  Each drain step consumes budget, and
/// a non-terminal answer promises that budget remains, so the flow-control
/// loop provably terminates.
pub trait Demuxer: Sized {
    /// Current authoritative stream set, in registry (creation) order.
    spec fn streams(&self) -> Seq<StreamModel>;

    /// Upper bound on the drain steps still answerable; see the trait
    /// documentation.
    spec fn drain_budget(&self) -> nat;

    /// Whether seeking is currently possible.
    spec fn seekable(&self) -> bool;

    /// Current playback position, `None` while unknown.
    spec fn position(&self) -> Option<u64>;

    /// Total duration, `None` while unknown.
    spec fn duration(&self) -> Option<u64>;

    /// Initialises parsing state.  `upstream_size` is `None` when the total
    /// input size is unknown; `random_access` says whether the host can
    /// satisfy arbitrary-offset reads.  Fails with a fatal message if the
    /// required headers cannot be established synchronously from no data.
    fn start(&mut self, upstream_size: Option<u64>, random_access: bool) -> Result<
        (),
        ErrorMessage,
    >;

    /// Releases parsing state; safe to call after a failed `start`.
    fn stop(&mut self) -> Result<(), ErrorMessage>;

    /// Resolves a requested position into a concrete action; performs no
    /// input itself.  `stop = None` means "play to end".
    fn seek(&mut self, start: u64, stop: Option<u64>) -> Result<SeekResult, ErrorMessage>;

    /// The central incremental-parsing step.  `Some(buffer)` hands new input
    /// over; `None` asks the parser to drain already-buffered output, which
    /// is only meaningful while drain budget remains.
    ///
    /// Every successful answer keeps three promises the flow-control loop
    /// builds on: a `StreamChanged` names the stable index of a currently
    /// registered stream; a non-terminal answer leaves drain budget behind;
    /// and a drain step strictly consumes budget.
    fn handle_buffer(&mut self, buffer: Option<Buffer>) -> (res: Result<
        HandleBufferResult,
        FlowError,
    >)
        requires
            buffer is None ==> old(self).drain_budget() > 0,
        ensures
            match res {
                Result::Ok(outcome) => {
                    &&& (outcome matches HandleBufferResult::StreamChanged(i)
                        ==> has_stream_with_index(final(self).streams(), i))
                    &&& (!is_drain_terminal(outcome) ==> final(self).drain_budget() > 0)
                    &&& (buffer is None ==> final(self).drain_budget() < old(self).drain_budget())
                },
                Result::Err(_) => true,
            },
    ;

    /// Upstream input has ended; the parser must flush remaining complete
    /// units and eventually report `AllEos` through subsequent drain steps.
    fn end_of_stream(&mut self) -> Result<(), ErrorMessage>;

    fn is_seekable(&self) -> (r: bool)
        ensures
            r == self.seekable(),
    ;

    fn get_position(&self) -> (r: Option<u64>)
        ensures
            r == self.position(),
    ;

    fn get_duration(&self) -> (r: Option<u64>)
        ensures
            r == self.duration(),
    ;

    /// The registry behind [`Demuxer::streams`], in the same order.
    fn get_streams(&self) -> (r: &Vec<Stream>)
        ensures
            r@.map_values(|s: Stream| s@) == self.streams(),
    ;
}

} // verus!
