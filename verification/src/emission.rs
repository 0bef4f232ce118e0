use vstd::prelude::*;

use crate::buffer::Buffer;
use crate::flow::FlowReturn;
use crate::host::HostEvent;
use crate::stream::{StreamIndex, StreamModel};

verus! {

/// One `AddStream` event per stream, in registry order.
pub open spec fn add_stream_events(streams: Seq<StreamModel>) -> Seq<HostEvent> {
    streams.map_values(
        |s: StreamModel| HostEvent::AddStream {
            index: s.index,
            format: s.format,
            stream_id: s.stream_id,
        },
    )
}

/// The mandatory three-phase expansion of a `StreamsChanged` outcome: clear
/// the host's stream set, announce every current stream in registry order,
/// then signal that the whole generation has been announced.
pub open spec fn announce_block(streams: Seq<StreamModel>) -> Seq<HostEvent> {
    seq![HostEvent::RemoveAllStreams] + add_stream_events(streams) + seq![
        HostEvent::AddedAllStreams,
    ]
}

/// The expansion of an `AllEos` outcome (and of a seek that resolves to
/// end-of-stream): one end-of-stream signal per registered stream, in
/// registry order.
pub open spec fn eos_all_block(streams: Seq<StreamModel>) -> Seq<HostEvent> {
    streams.map_values(|s: StreamModel| HostEvent::StreamEos { index: s.index })
}

/// The callback runs a single non-terminating outcome may expand to: a full
/// announcement, a single format change, a single successfully pushed
/// payload, or a single per-stream end-of-stream signal.
pub open spec fn is_interior_block(b: Seq<HostEvent>) -> bool {
    ||| (exists|ss: Seq<StreamModel>| b == announce_block(ss))
    ||| (exists|i: StreamIndex, f: Seq<char>|
        b == seq![HostEvent::StreamFormatChanged { index: i, format: f }])
    ||| (exists|i: StreamIndex, buf: Buffer|
        b == seq![HostEvent::BufferPushed { index: i, buffer: buf, ret: FlowReturn::Okay }])
    ||| (exists|i: StreamIndex| b == seq![HostEvent::StreamEos { index: i }])
}

/// An event sequence a flow-control loop may emit without yet terminating:
/// a concatenation of interior blocks.  Every outcome the parser reported is
/// fully mapped to callbacks before the next one is requested, so nothing
/// between blocks, and nothing partial, can appear.
pub open spec fn interior_emission(evs: Seq<HostEvent>) -> bool
    decreases evs.len(),
{
    evs.len() == 0 || (exists|k: int|
        0 < k <= evs.len() && is_interior_block(#[trigger] evs.take(k)) && interior_emission(
            evs.skip(k),
        ))
}

/// How a buffer-handling call may end, as the tail of its event suffix:
/// with the end-of-stream expansion (status `Eos`), with a payload push the
/// host answered with a non-success status (that status), with a posted
/// diagnostic (`NotNegotiated` or `Error`), or silently (the transient
/// `NotLinked` / `Flushing`).  A call that ends in `Okay` — the parser asked
/// for more data — adds no tail at all and so has no case here.
pub open spec fn terminal_tail(tail: Seq<HostEvent>, ret: FlowReturn) -> bool {
    ||| (ret == FlowReturn::Eos && (exists|ss: Seq<StreamModel>| tail == eos_all_block(ss)))
    ||| (ret != FlowReturn::Okay && (exists|i: StreamIndex, buf: Buffer|
        tail == seq![HostEvent::BufferPushed { index: i, buffer: buf, ret }]))
    ||| ((ret == FlowReturn::NotNegotiated || ret == FlowReturn::Error) && (exists|m: Seq<char>|
        tail == seq![HostEvent::MessagePosted { message: m }]))
    ||| ((ret == FlowReturn::NotLinked || ret == FlowReturn::Flushing) && tail.len() == 0)
}

/// The complete shape of what one buffer-handling boundary call emits,
/// related to the flow status it returns: interior blocks throughout, and —
/// unless the call ends with "ok, continue feeding" — one terminal tail that
/// matches the returned status.
pub open spec fn boundary_emission(suffix: Seq<HostEvent>, ret: FlowReturn) -> bool {
    if ret == FlowReturn::Okay {
        interior_emission(suffix)
    } else {
        exists|p: int|
            0 <= p <= suffix.len() && interior_emission(#[trigger] suffix.take(p)) && terminal_tail(
                suffix.skip(p),
                ret,
            )
    }
}

/// Positions `j` and `k` bracket a completed announcement inside `evs`:
/// `k` carries the closing `AddedAllStreams`, and everything strictly
/// between the two is an `AddStream`.
pub open spec fn announce_completed(evs: Seq<HostEvent>, j: int, k: int) -> bool {
    j < k < evs.len() && evs[k] == HostEvent::AddedAllStreams && (forall|m: int|
        j < m < k ==> (#[trigger] evs[m]) is AddStream)
}

/// Announcements are atomic in every interior emission: wherever the host
/// was told to clear its stream set, the very next callbacks announce the
/// new generation — only `AddStream`s up to a closing `AddedAllStreams` —
/// so no payload, format change or end-of-stream signal is ever delivered
/// between the clearing of the set and the completion of its announcement.
pub proof fn lemma_announce_atomic(evs: Seq<HostEvent>, j: int)
    requires
        interior_emission(evs),
        0 <= j < evs.len(),
        evs[j] == HostEvent::RemoveAllStreams,
    ensures
        exists|k: int| #[trigger] announce_completed(evs, j, k),
    decreases evs.len(),
{
    let kb = choose|kb: int|
        0 < kb <= evs.len() && is_interior_block(#[trigger] evs.take(kb)) && interior_emission(
            evs.skip(kb),
        );
    let blk = evs.take(kb);
    if j < kb {
        assert(blk[j] == evs[j]);
        if exists|ss: Seq<StreamModel>| blk == announce_block(ss) {
            let ss = choose|ss: Seq<StreamModel>| blk == announce_block(ss);
            assert(blk.len() == ss.len() + 2);
            if 1 <= j <= ss.len() {
                assert(blk[j] == add_stream_events(ss)[j - 1]);
                assert(false);
            }
            if j == ss.len() + 1 {
                assert(false);
            }
            let k = kb - 1;
            assert(evs[k] == blk[k]);
            assert forall|m: int| j < m < k implies (#[trigger] evs[m]) is AddStream by {
                assert(evs[m] == blk[m]);
                assert(blk[m] == add_stream_events(ss)[m - 1]);
            }
            assert(announce_completed(evs, j, k));
        } else {
            assert(blk.len() == 1);
            assert(false);
        }
    } else {
        let s = evs.skip(kb);
        lemma_announce_atomic(s, j - kb);
        let k2 = choose|k: int| #[trigger] announce_completed(s, j - kb, k);
        let k = k2 + kb;
        assert(evs[k] == s[k2]);
        assert forall|m: int| j < m < k implies (#[trigger] evs[m]) is AddStream by {
            assert(evs[m] == s[m - kb]);
            assert(j - kb < m - kb < k2);
        }
        assert(announce_completed(evs, j, k));
    }
}

/// The same atomicity holds across everything one buffer-handling boundary
/// call emits, whatever its flow status: a terminal tail never clears the
/// stream set, so every `RemoveAllStreams` in the call's suffix is followed
/// by its complete announcement before any other callback.
pub proof fn lemma_announce_atomic_boundary(suffix: Seq<HostEvent>, ret: FlowReturn, j: int)
    requires
        boundary_emission(suffix, ret),
        0 <= j < suffix.len(),
        suffix[j] == HostEvent::RemoveAllStreams,
    ensures
        exists|k: int| #[trigger] announce_completed(suffix, j, k),
{
    if ret == FlowReturn::Okay {
        lemma_announce_atomic(suffix, j);
    } else {
        let p = choose|p: int|
            0 <= p <= suffix.len() && interior_emission(#[trigger] suffix.take(p))
                && terminal_tail(suffix.skip(p), ret);
        let tail = suffix.skip(p);
        if j < p {
            let head = suffix.take(p);
            assert(head[j] == suffix[j]);
            lemma_announce_atomic(head, j);
            let k = choose|k: int| #[trigger] announce_completed(head, j, k);
            assert forall|m: int| j < m < k implies (#[trigger] suffix[m]) is AddStream by {
                assert(suffix[m] == head[m]);
            }
            assert(suffix[k] == head[k]);
            assert(announce_completed(suffix, j, k));
        } else {
            // no terminal tail holds a RemoveAllStreams
            assert(tail[j - p] == suffix[j]);
            if exists|ss: Seq<StreamModel>| tail == eos_all_block(ss) {
                let ss = choose|ss: Seq<StreamModel>| tail == eos_all_block(ss);
                let idx = j - p;
                assert(eos_all_block(ss).len() == ss.len());
                assert(0 <= idx < ss.len());
                assert(eos_all_block(ss)[idx] == HostEvent::StreamEos { index: ss[idx].index });
            } else if exists|i: StreamIndex, buf: Buffer|
                tail == seq![HostEvent::BufferPushed { index: i, buffer: buf, ret }] {
                let (i, buf) = choose|i: StreamIndex, buf: Buffer|
                    tail == seq![HostEvent::BufferPushed { index: i, buffer: buf, ret }];
                assert(tail.len() == 1);
                assert(j - p == 0);
                assert(tail[0] == HostEvent::BufferPushed { index: i, buffer: buf, ret });
            } else if exists|m: Seq<char>| tail == seq![HostEvent::MessagePosted { message: m }] {
                let m = choose|m: Seq<char>| tail == seq![HostEvent::MessagePosted { message: m }];
                assert(tail.len() == 1);
                assert(j - p == 0);
                assert(tail[0] == HostEvent::MessagePosted { message: m });
            } else {
                assert(tail.len() == 0);
            }
            assert(false);
        }
    }
}

/// Interior blocks are never empty.
pub proof fn lemma_interior_block_nonempty(b: Seq<HostEvent>)
    requires
        is_interior_block(b),
    ensures
        b.len() > 0,
{
    if exists|ss: Seq<StreamModel>| b == announce_block(ss) {
        let ss = choose|ss: Seq<StreamModel>| b == announce_block(ss);
        assert(b.len() == 2 + ss.len());
    }
}

/// Appending one more interior block keeps an emission interior.
pub proof fn lemma_interior_append_block(a: Seq<HostEvent>, b: Seq<HostEvent>)
    requires
        interior_emission(a),
        is_interior_block(b),
    ensures
        interior_emission(a + b),
    decreases a.len(),
{
    lemma_interior_block_nonempty(b);
    if a.len() == 0 {
        assert(a + b =~= b);
        let k = b.len() as int;
        assert(b.take(k) =~= b);
        assert(b.skip(k) =~= Seq::<HostEvent>::empty());
        assert(0 < k <= b.len() && is_interior_block(b.take(k)) && interior_emission(b.skip(k)));
    } else {
        let k = choose|k: int|
            0 < k <= a.len() && is_interior_block(#[trigger] a.take(k)) && interior_emission(
                a.skip(k),
            );
        lemma_interior_append_block(a.skip(k), b);
        assert((a + b).take(k) =~= a.take(k));
        assert((a + b).skip(k) =~= a.skip(k) + b);
        assert(0 < k <= (a + b).len() && is_interior_block((a + b).take(k)) && interior_emission(
            (a + b).skip(k),
        ));
    }
}

} // verus!
