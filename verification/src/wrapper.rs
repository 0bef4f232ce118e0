use vstd::prelude::*;

use crate::buffer::Buffer;
use crate::demuxer::{is_drain_terminal, Demuxer, HandleBufferResult, SeekResult};
use crate::emission::{
    add_stream_events, announce_block, boundary_emission, eos_all_block, is_interior_block,
    interior_emission, lemma_interior_append_block, terminal_tail,
};
use crate::flow::{FlowError, FlowReturn};
use crate::host::{Host, HostEvent};
use crate::sentinel::option_from_sentinel;
use crate::stream::{has_stream_with_index, Stream};

verus! {

/// Process-resident state the boundary keeps per demuxer instance: the
/// wrapped parser, the host-side callback object, and the poisoned flag.
///
/// Exclusive access is the boundary's discipline: every entry point takes
/// the wrapper by (shared or exclusive) reference, so calls arriving from
/// different host threads must be serialised by the embedding layer before
/// they reach this type — exactly one caller holds it at a time.
///
/// `poisoned` records that the parser once terminated abnormally instead of
/// returning.  The interception itself happens in the unverified embedding
/// (stack unwinding cannot cross the foreign boundary); it reports the event
/// through [`DemuxerWrapper::poison`].  From then on every entry point
/// short-circuits to its failure value without touching the parser again —
/// permanently, since nothing ever clears the flag.
pub struct DemuxerWrapper<D: Demuxer, H: Host> {
    pub demuxer: D,
    pub host: H,
    pub poisoned: bool,
}

impl<D: Demuxer, H: Host> DemuxerWrapper<D, H> {
    pub fn new(host: H, demuxer: D) -> (w: DemuxerWrapper<D, H>)
        ensures
            w.host == host,
            w.demuxer == demuxer,
            !w.poisoned,
    {
        DemuxerWrapper { demuxer, host, poisoned: false }
    }

    /// Records that the parser terminated abnormally inside some entry
    /// point.  Poisoning is permanent for the instance's remaining lifetime.
    pub fn poison(&mut self)
        ensures
            final(self).poisoned,
            final(self).demuxer == old(self).demuxer,
            final(self).host == old(self).host,
    {
        self.poisoned = true;
    }
}

/// Creates the boundary instance for a freshly constructed parser.
pub fn demuxer_new<D: Demuxer, H: Host>(host: H, demuxer: D) -> (w: DemuxerWrapper<D, H>)
    ensures
        w.host == host,
        w.demuxer == demuxer,
        !w.poisoned,
{
    DemuxerWrapper::new(host, demuxer)
}

/// Destroys the boundary instance.  Ownership makes the contract: the value
/// is consumed here, so no further entry point can ever be called on it.
pub fn demuxer_drop<D: Demuxer, H: Host>(wrap: DemuxerWrapper<D, H>) {
    let _ = wrap;
}

/// Initialises the parser.  `upstream_size` carries the sentinel encoding
/// ("unknown" as the maximum value); a fatal message from the parser is
/// posted to the host and the call reports failure.
pub fn demuxer_start<D: Demuxer, H: Host>(
    wrap: &mut DemuxerWrapper<D, H>,
    upstream_size: u64,
    random_access: bool,
) -> (ret: bool)
    ensures
        final(wrap).poisoned == old(wrap).poisoned,
        old(wrap).poisoned ==> !ret && *final(wrap) == *old(wrap),
        !old(wrap).poisoned ==> {
            ||| (ret && final(wrap).host.events() == old(wrap).host.events())
            ||| (!ret && (exists|m: Seq<char>|
                final(wrap).host.events() == old(wrap).host.events().push(
                    HostEvent::MessagePosted { message: m },
                )))
        },
{
    if wrap.poisoned {
        return false;
    }
    let upstream_size = option_from_sentinel(upstream_size);
    match wrap.demuxer.start(upstream_size, random_access) {
        Result::Ok(_) => true,
        Result::Err(msg) => {
            wrap.host.post_message(&msg);
            false
        },
    }
}

/// Releases the parser's state; a fatal message is posted and the call
/// reports failure.
pub fn demuxer_stop<D: Demuxer, H: Host>(wrap: &mut DemuxerWrapper<D, H>) -> (ret: bool)
    ensures
        final(wrap).poisoned == old(wrap).poisoned,
        old(wrap).poisoned ==> !ret && *final(wrap) == *old(wrap),
        !old(wrap).poisoned ==> {
            ||| (ret && final(wrap).host.events() == old(wrap).host.events())
            ||| (!ret && (exists|m: Seq<char>|
                final(wrap).host.events() == old(wrap).host.events().push(
                    HostEvent::MessagePosted { message: m },
                )))
        },
{
    if wrap.poisoned {
        return false;
    }
    match wrap.demuxer.stop() {
        Result::Ok(_) => true,
        Result::Err(msg) => {
            wrap.host.post_message(&msg);
            false
        },
    }
}

/// Signals that upstream input has ended.  The entry point returns nothing;
/// a fatal message from the parser is posted to the host.
pub fn demuxer_end_of_stream<D: Demuxer, H: Host>(wrap: &mut DemuxerWrapper<D, H>)
    ensures
        final(wrap).poisoned == old(wrap).poisoned,
        old(wrap).poisoned ==> *final(wrap) == *old(wrap),
        !old(wrap).poisoned ==> {
            ||| final(wrap).host.events() == old(wrap).host.events()
            ||| (exists|m: Seq<char>|
                final(wrap).host.events() == old(wrap).host.events().push(
                    HostEvent::MessagePosted { message: m },
                ))
        },
{
    if wrap.poisoned {
        return;
    }
    match wrap.demuxer.end_of_stream() {
        Result::Ok(_) => (),
        Result::Err(msg) => {
            wrap.host.post_message(&msg);
        },
    }
}

/// What the flow-control loop does after mapping one parsing outcome to its
/// callbacks: ask the parser to drain further, or end the boundary call
/// with the given flow status.
#[derive(Clone, Copy, Debug, PartialEq, Eq, Structural)]
pub enum LoopStep {
    Continue,
    Done(FlowReturn),
}

/// Signals end-of-stream for every registered stream, in registry order:
/// the shared expansion of an `AllEos` outcome and of a seek that resolved
/// to end-of-stream.
fn signal_eos_all<D: Demuxer, H: Host>(demuxer: &D, host: &mut H)
    ensures
        final(host).events() == old(host).events() + eos_all_block(demuxer.streams()),
{
    let ghost pre = host.events();
    let streams = demuxer.get_streams();
    let mut idx: usize = 0;
    while idx < streams.len()
        invariant
            idx <= streams.len(),
            streams@.map_values(|s: Stream| s@) == demuxer.streams(),
            host.events() == pre + eos_all_block(demuxer.streams().take(idx as int)),
        decreases streams.len() - idx,
    {
        let index = streams[idx].index;
        host.stream_eos(index);
        proof {
            let ss = demuxer.streams();
            assert(ss[idx as int] == streams@[idx as int]@);
            assert(eos_all_block(ss.take(idx as int + 1)) =~= eos_all_block(
                ss.take(idx as int),
            ).push(HostEvent::StreamEos { index: ss[idx as int].index }));
            assert(host.events() =~= pre + eos_all_block(ss.take(idx as int + 1)));
        }
        idx += 1;
    }
    proof {
        assert(demuxer.streams().take(demuxer.streams().len() as int) =~= demuxer.streams());
    }
}

/// Maps one parsing outcome to its complete run of host callbacks and says
/// how the flow-control loop goes on.
///
/// `NeedMoreData` invokes nothing and ends the call with "ok, continue
/// feeding".  `StreamsChanged` performs the mandatory three-phase
/// announcement.  `StreamChanged` announces one format change.
/// `HaveBufferForStream` transfers the payload; a non-success status from
/// the host ends the call with exactly that status.  `Eos` signals one
/// stream's end and the loop continues.  `AllEos` signals end-of-stream for
/// every registered stream and ends the call with the end-of-stream status.
pub fn process_outcome<D: Demuxer, H: Host>(
    demuxer: &D,
    host: &mut H,
    outcome: HandleBufferResult,
) -> (step: LoopStep)
    requires
        outcome matches HandleBufferResult::StreamChanged(i) ==> has_stream_with_index(
            demuxer.streams(),
            i,
        ),
    ensures
        match outcome {
            HandleBufferResult::NeedMoreData => step == LoopStep::Done(FlowReturn::Okay) && final(host).events() == old(host).events(),
            HandleBufferResult::StreamsChanged => step == LoopStep::Continue && final(host).events() == old(host).events() + announce_block(demuxer.streams()),
            HandleBufferResult::StreamChanged(i) => step == LoopStep::Continue && (exists|j: int|
                0 <= j < demuxer.streams().len() && demuxer.streams()[j].index == i && final(host).events() == old(host).events().push(
                    HostEvent::StreamFormatChanged {
                        index: i,
                        format: demuxer.streams()[j].format,
                    },
                )),
            HandleBufferResult::HaveBufferForStream(i, b) => match step {
                LoopStep::Continue => final(host).events() == old(host).events().push(
                    HostEvent::BufferPushed { index: i, buffer: b, ret: FlowReturn::Okay },
                ),
                LoopStep::Done(f) => f != FlowReturn::Okay && final(host).events() == old(host).events().push(HostEvent::BufferPushed { index: i, buffer: b, ret: f }),
            },
            HandleBufferResult::Eos(i) => step == LoopStep::Continue && final(host).events() == old(host).events().push(HostEvent::StreamEos { index: i }),
            HandleBufferResult::AllEos => step == LoopStep::Done(FlowReturn::Eos) && final(host).events() == old(host).events() + eos_all_block(demuxer.streams()),
        },
{
    match outcome {
        HandleBufferResult::NeedMoreData => LoopStep::Done(FlowReturn::Okay),
        HandleBufferResult::StreamsChanged => {
            let ghost pre = host.events();
            host.remove_all_streams();
            let streams = demuxer.get_streams();
            let ghost announced = pre.push(HostEvent::RemoveAllStreams);
            let mut idx: usize = 0;
            while idx < streams.len()
                invariant
                    idx <= streams.len(),
                    streams@.map_values(|s: Stream| s@) == demuxer.streams(),
                    host.events() == announced + add_stream_events(
                        demuxer.streams().take(idx as int),
                    ),
                decreases streams.len() - idx,
            {
                let s = &streams[idx];
                host.add_stream(s.index, s.format.as_str(), s.stream_id.as_str());
                proof {
                    let ss = demuxer.streams();
                    assert(ss[idx as int] == streams@[idx as int]@);
                    assert(add_stream_events(ss.take(idx as int + 1)) =~= add_stream_events(
                        ss.take(idx as int),
                    ).push(
                        HostEvent::AddStream {
                            index: ss[idx as int].index,
                            format: ss[idx as int].format,
                            stream_id: ss[idx as int].stream_id,
                        },
                    ));
                    assert(host.events() =~= announced + add_stream_events(
                        ss.take(idx as int + 1),
                    ));
                }
                idx += 1;
            }
            host.added_all_streams();
            proof {
                let ss = demuxer.streams();
                assert(ss.take(ss.len() as int) =~= ss);
                assert(host.events() =~= pre + announce_block(ss));
            }
            LoopStep::Continue
        },
        HandleBufferResult::StreamChanged(i) => {
            // the registry is ordered by creation, not by index, so the
            // stream named by the outcome is found by its index field
            let streams = demuxer.get_streams();
            let mut idx: usize = 0;
            while idx < streams.len()
                invariant
                    outcome == HandleBufferResult::StreamChanged(i),
                    idx <= streams.len(),
                    streams@.map_values(|s: Stream| s@) == demuxer.streams(),
                    has_stream_with_index(demuxer.streams(), i),
                    forall|j: int| 0 <= j < idx ==> demuxer.streams()[j].index != i,
                    host.events() == old(host).events(),
                decreases streams.len() - idx,
            {
                if streams[idx].index == i {
                    let s = &streams[idx];
                    host.stream_format_changed(i, s.format.as_str());
                    proof {
                        let ss = demuxer.streams();
                        assert(ss[idx as int] == streams@[idx as int]@);
                        assert(0 <= (idx as int) < ss.len() && ss[idx as int].index == i && host
                            .events() == old(host).events().push(
                            HostEvent::StreamFormatChanged {
                                index: i,
                                format: ss[idx as int].format,
                            },
                        ));
                    }
                    return LoopStep::Continue;
                }
                idx += 1;
            }
            proof {
                let j = choose|j: int|
                    0 <= j < demuxer.streams().len() && demuxer.streams()[j].index == i;
                assert(false);
            }
            LoopStep::Continue
        },
        HandleBufferResult::HaveBufferForStream(i, b) => {
            let ret = host.stream_push_buffer(i, b);
            if ret == FlowReturn::Okay {
                LoopStep::Continue
            } else {
                LoopStep::Done(ret)
            }
        },
        HandleBufferResult::Eos(i) => {
            host.stream_eos(i);
            LoopStep::Continue
        },
        HandleBufferResult::AllEos => {
            signal_eos_all(demuxer, host);
            LoopStep::Done(FlowReturn::Eos)
        },
    }
}

/// Expands a resolved seek into its boundary effect: `TooEarly` reports
/// failure and touches nothing; `Offset(o)` writes the byte offset the host
/// must reposition to and reports success; `Eos` writes the sentinel and
/// signals end-of-stream for every registered stream, in registry order.
pub fn apply_seek_result<D: Demuxer, H: Host>(
    demuxer: &D,
    host: &mut H,
    res: SeekResult,
    offset: &mut u64,
) -> (ret: bool)
    ensures
        match res {
            SeekResult::TooEarly => !ret && *final(offset) == *old(offset) && final(host).events()
                == old(host).events(),
            SeekResult::Offset(o) => ret && *final(offset) == o && final(host).events() == old(host).events(),
            SeekResult::Eos => ret && *final(offset) == u64::MAX && final(host).events() == old(host).events() + eos_all_block(demuxer.streams()),
        },
{
    match res {
        SeekResult::TooEarly => false,
        SeekResult::Offset(o) => {
            *offset = o;
            true
        },
        SeekResult::Eos => {
            *offset = u64::MAX;
            signal_eos_all(demuxer, host);
            true
        },
    }
}

/// Resolves a seek request at the boundary.  `stop` carries the sentinel
/// encoding (the maximum value for "play to end"); the out-parameter
/// receives the byte offset to reposition to, or the sentinel when the seek
/// resolved to end-of-stream.  A fatal message from the parser is posted
/// and the call reports failure, leaving the out-parameter alone — as does
/// a seek the parser cannot resolve yet.
pub fn demuxer_seek<D: Demuxer, H: Host>(
    wrap: &mut DemuxerWrapper<D, H>,
    start: u64,
    stop: u64,
    offset: &mut u64,
) -> (ret: bool)
    ensures
        final(wrap).poisoned == old(wrap).poisoned,
        old(wrap).poisoned ==> !ret && *final(wrap) == *old(wrap) && *final(offset) == *old(
            offset,
        ),
        !old(wrap).poisoned ==> {
            ||| (!ret && *final(offset) == *old(offset) && final(wrap).host.events() == old(wrap).host.events())
            ||| (!ret && *final(offset) == *old(offset) && (exists|m: Seq<char>|
                final(wrap).host.events() == old(wrap).host.events().push(
                    HostEvent::MessagePosted { message: m },
                )))
            ||| (ret && final(wrap).host.events() == old(wrap).host.events())
            ||| (ret && *final(offset) == u64::MAX && final(wrap).host.events() == old(wrap).host.events() + eos_all_block(final(wrap).demuxer.streams()))
        },
{
    if wrap.poisoned {
        return false;
    }
    let stop = option_from_sentinel(stop);
    match wrap.demuxer.seek(start, stop) {
        Result::Err(msg) => {
            wrap.host.post_message(&msg);
            false
        },
        Result::Ok(res) => apply_seek_result(&wrap.demuxer, &mut wrap.host, res, offset),
    }
}

/// Forwards a buffer-handling failure to the boundary: posts the
/// diagnostic when the failure carries one, and maps the failure to its
/// native flow status.
fn report_flow_error<H: Host>(host: &mut H, err: FlowError) -> (ret: FlowReturn)
    ensures
        ret == err.native(),
        ret != FlowReturn::Okay,
        ret != FlowReturn::Eos,
        match err {
            FlowError::NotNegotiated(m) => final(host).events() == old(host).events().push(
                HostEvent::MessagePosted { message: m.message@ },
            ),
            FlowError::Error(m) => final(host).events() == old(host).events().push(
                HostEvent::MessagePosted { message: m.message@ },
            ),
            FlowError::NotLinked => final(host).events() == old(host).events(),
            FlowError::Flushing => final(host).events() == old(host).events(),
        },
{
    match err {
        FlowError::NotLinked => FlowReturn::NotLinked,
        FlowError::Flushing => FlowReturn::Flushing,
        FlowError::NotNegotiated(msg) => {
            host.post_message(&msg);
            FlowReturn::NotNegotiated
        },
        FlowError::Error(msg) => {
            host.post_message(&msg);
            FlowReturn::Error
        },
    }
}

/// The events since `pre` decompose into the interior blocks `emitted`
/// followed by the terminal tail of a non-`Okay` status: the shape of every
/// buffer-handling call that does not end with "continue feeding".
proof fn lemma_boundary_tail(
    pre: Seq<HostEvent>,
    emitted: Seq<HostEvent>,
    tail: Seq<HostEvent>,
    post: Seq<HostEvent>,
    ret: FlowReturn,
)
    requires
        interior_emission(emitted),
        post == (pre + emitted) + tail,
        terminal_tail(tail, ret),
        ret != FlowReturn::Okay,
    ensures
        pre.is_prefix_of(post),
        boundary_emission(post.skip(pre.len() as int), ret),
{
    assert(post.take(pre.len() as int) =~= pre);
    let suffix = post.skip(pre.len() as int);
    assert(suffix =~= emitted + tail);
    let p = emitted.len() as int;
    assert(suffix.take(p) =~= emitted);
    assert(suffix.skip(p) =~= tail);
    assert(0 <= p <= suffix.len() && interior_emission(suffix.take(p)) && terminal_tail(
        suffix.skip(p),
        ret,
    ));
}

/// What [`report_flow_error`] appended is a terminal tail for the status it
/// returned.
proof fn lemma_report_tail(
    err: FlowError,
    pre: Seq<HostEvent>,
    post: Seq<HostEvent>,
    ret: FlowReturn,
)
    requires
        ret == err.native(),
        match err {
            FlowError::NotNegotiated(m) => post == pre.push(
                HostEvent::MessagePosted { message: m.message@ },
            ),
            FlowError::Error(m) => post == pre.push(
                HostEvent::MessagePosted { message: m.message@ },
            ),
            FlowError::NotLinked => post == pre,
            FlowError::Flushing => post == pre,
        },
    ensures
        terminal_tail(post.skip(pre.len() as int), ret),
        post == pre + post.skip(pre.len() as int),
{
    let tail = post.skip(pre.len() as int);
    match err {
        FlowError::NotLinked => {
            assert(tail =~= Seq::<HostEvent>::empty());
        },
        FlowError::Flushing => {
            assert(tail =~= Seq::<HostEvent>::empty());
        },
        FlowError::NotNegotiated(m) => {
            assert(tail =~= seq![HostEvent::MessagePosted { message: m.message@ }]);
        },
        FlowError::Error(m) => {
            assert(tail =~= seq![HostEvent::MessagePosted { message: m.message@ }]);
        },
    }
    assert(post =~= pre + tail);
}

/// The shape of a buffer-handling call that ends with "continue feeding":
/// the events since `pre` are interior blocks and nothing else.
proof fn lemma_boundary_ok(pre: Seq<HostEvent>, emitted: Seq<HostEvent>, post: Seq<HostEvent>)
    requires
        interior_emission(emitted),
        post == pre + emitted,
    ensures
        pre.is_prefix_of(post),
        boundary_emission(post.skip(pre.len() as int), FlowReturn::Okay),
{
    assert(post.take(pre.len() as int) =~= pre);
    assert(post.skip(pre.len() as int) =~= emitted);
}

/// The central entry point: hands the newly delivered buffer to the parser,
/// then drives the flow-control loop — repeated drain steps, each outcome
/// expanded by [`process_outcome`] — until a call-terminating outcome is
/// reached.
///
/// The contract states the whole protocol: the host's event history only
/// grows, and the suffix this call appends, together with the returned flow
/// status, satisfies [`boundary_emission`] — interior blocks throughout,
/// and a terminal tail exactly when the status is not "ok, continue
/// feeding".  The loop provably terminates (each drain step consumes the
/// parser's drain budget), and it terminates only on `NeedMoreData`, on a
/// flow failure, or on end-of-stream.
pub fn demuxer_handle_buffer<D: Demuxer, H: Host>(
    wrap: &mut DemuxerWrapper<D, H>,
    buffer: Buffer,
) -> (ret: FlowReturn)
    ensures
        final(wrap).poisoned == old(wrap).poisoned,
        old(wrap).poisoned ==> ret == FlowReturn::Error && *final(wrap) == *old(wrap),
        !old(wrap).poisoned ==> old(wrap).host.events().is_prefix_of(final(wrap).host.events())
            && boundary_emission(
            final(wrap).host.events().skip(old(wrap).host.events().len() as int),
            ret,
        ),
{
    if wrap.poisoned {
        return FlowReturn::Error;
    }
    let ghost pre = wrap.host.events();
    let mut outcome = match wrap.demuxer.handle_buffer(Some(buffer)) {
        Result::Ok(o) => o,
        Result::Err(err) => {
            let ghost gerr = err;
            let ret = report_flow_error(&mut wrap.host, err);
            proof {
                lemma_report_tail(gerr, pre, wrap.host.events(), ret);
                let tail = wrap.host.events().skip(pre.len() as int);
                assert(wrap.host.events() =~= (pre + Seq::<HostEvent>::empty()) + tail);
                lemma_boundary_tail(pre, Seq::empty(), tail, wrap.host.events(), ret);
            }
            return ret;
        },
    };
    let ghost mut emitted: Seq<HostEvent> = Seq::empty();
    proof {
        assert(wrap.host.events() =~= pre + emitted);
    }
    loop
        invariant
            !old(wrap).poisoned,
            !wrap.poisoned,
            pre == old(wrap).host.events(),
            wrap.host.events() == pre + emitted,
            interior_emission(emitted),
            !is_drain_terminal(outcome) ==> wrap.demuxer.drain_budget() > 0,
            outcome matches HandleBufferResult::StreamChanged(i) ==> has_stream_with_index(
                wrap.demuxer.streams(),
                i,
            ),
        decreases wrap.demuxer.drain_budget(),
    {
        let ghost go = outcome;
        let ghost events_before = wrap.host.events();
        let step = process_outcome(&wrap.demuxer, &mut wrap.host, outcome);
        match step {
            LoopStep::Done(f) => {
                proof {
                    match go {
                        HandleBufferResult::NeedMoreData => {
                            lemma_boundary_ok(pre, emitted, wrap.host.events());
                        },
                        HandleBufferResult::AllEos => {
                            let tail = eos_all_block(wrap.demuxer.streams());
                            assert(wrap.host.events() =~= (pre + emitted) + tail);
                            lemma_boundary_tail(pre, emitted, tail, wrap.host.events(), f);
                        },
                        HandleBufferResult::HaveBufferForStream(i, b) => {
                            let tail = seq![
                                HostEvent::BufferPushed { index: i, buffer: b, ret: f },
                            ];
                            assert(wrap.host.events() =~= (pre + emitted) + tail);
                            lemma_boundary_tail(pre, emitted, tail, wrap.host.events(), f);
                        },
                        _ => {
                            assert(false);
                        },
                    }
                }
                return f;
            },
            LoopStep::Continue => {},
        }
        proof {
            let blk: Seq<HostEvent> = match go {
                HandleBufferResult::StreamsChanged => announce_block(wrap.demuxer.streams()),
                HandleBufferResult::StreamChanged(i) => {
                    let j = choose|j: int|
                        0 <= j < wrap.demuxer.streams().len() && wrap.demuxer.streams()[j].index
                            == i && wrap.host.events() == events_before.push(
                            HostEvent::StreamFormatChanged {
                                index: i,
                                format: wrap.demuxer.streams()[j].format,
                            },
                        );
                    seq![
                        HostEvent::StreamFormatChanged {
                            index: i,
                            format: wrap.demuxer.streams()[j].format,
                        },
                    ]
                },
                HandleBufferResult::HaveBufferForStream(i, b) => seq![
                    HostEvent::BufferPushed { index: i, buffer: b, ret: FlowReturn::Okay },
                ],
                HandleBufferResult::Eos(i) => seq![HostEvent::StreamEos { index: i }],
                _ => Seq::empty(),
            };
            assert(is_interior_block(blk));
            assert(wrap.host.events() =~= events_before + blk);
            lemma_interior_append_block(emitted, blk);
            emitted = emitted + blk;
            assert(wrap.host.events() =~= pre + emitted);
        }
        outcome = match wrap.demuxer.handle_buffer(None) {
            Result::Ok(o) => o,
            Result::Err(err) => {
                let ghost gerr = err;
                let ret = report_flow_error(&mut wrap.host, err);
                proof {
                    lemma_report_tail(gerr, pre + emitted, wrap.host.events(), ret);
                    let tail = wrap.host.events().skip((pre + emitted).len() as int);
                    lemma_boundary_tail(pre, emitted, tail, wrap.host.events(), ret);
                }
                return ret;
            },
        };
    }
}

/// Pure query: whether seeking is currently possible.  A poisoned instance
/// answers its failure value, `false`.
pub fn demuxer_is_seekable<D: Demuxer, H: Host>(wrap: &DemuxerWrapper<D, H>) -> (ret: bool)
    ensures
        ret == (!wrap.poisoned && wrap.demuxer.seekable()),
{
    if wrap.poisoned {
        return false;
    }
    wrap.demuxer.is_seekable()
}

/// Pure query: current position.  The out-parameter carries the sentinel
/// encoding — the maximum value while the position is unknown — and the
/// returned flag says whether it is known.  A poisoned instance reports
/// failure and leaves the out-parameter alone.
pub fn demuxer_get_position<D: Demuxer, H: Host>(
    wrap: &DemuxerWrapper<D, H>,
    position: &mut u64,
) -> (known: bool)
    ensures
        wrap.poisoned ==> !known && *final(position) == *old(position),
        !wrap.poisoned ==> match wrap.demuxer.position() {
            None => !known && *final(position) == u64::MAX,
            Some(p) => known && *final(position) == p,
        },
{
    if wrap.poisoned {
        return false;
    }
    match wrap.demuxer.get_position() {
        None => {
            *position = u64::MAX;
            false
        },
        Some(p) => {
            *position = p;
            true
        },
    }
}

/// Pure query: total duration, with the same conventions as
/// [`demuxer_get_position`].
pub fn demuxer_get_duration<D: Demuxer, H: Host>(
    wrap: &DemuxerWrapper<D, H>,
    duration: &mut u64,
) -> (known: bool)
    ensures
        wrap.poisoned ==> !known && *final(duration) == *old(duration),
        !wrap.poisoned ==> match wrap.demuxer.duration() {
            None => !known && *final(duration) == u64::MAX,
            Some(d) => known && *final(duration) == d,
        },
{
    if wrap.poisoned {
        return false;
    }
    match wrap.demuxer.get_duration() {
        None => {
            *duration = u64::MAX;
            false
        },
        Some(d) => {
            *duration = d;
            true
        },
    }
}

} // verus!
