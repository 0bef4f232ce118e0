use vstd::prelude::*;

verus! {

/// Dense, stable index the parser assigns to each elementary stream.
pub type StreamIndex = u32;

/// Mathematical image of a [`Stream`]: the same three components with the
/// string identifiers abstracted to character sequences.  Contracts and host
/// events speak in terms of this model.
pub struct StreamModel {
    pub index: StreamIndex,
    pub format: Seq<char>,
    pub stream_id: Seq<char>,
}

/// Descriptor of one elementary stream: its stable index, a string
/// identifier of its encoding, and a globally stable stream identifier.
#[derive(Debug)]
pub struct Stream {
    pub index: StreamIndex,
    pub format: String,
    pub stream_id: String,
}

impl View for Stream {
    type V = StreamModel;

    open spec fn view(&self) -> StreamModel {
        StreamModel { index: self.index, format: self.format@, stream_id: self.stream_id@ }
    }
}

impl Stream {
    pub fn new(index: StreamIndex, format: String, stream_id: String) -> (s: Stream)
        ensures
            s@ == (StreamModel { index, format: format@, stream_id: stream_id@ }),
    {
        Stream { index, format, stream_id }
    }
}

/// Whether some stream of the registry carries the stable index `i`.  The
/// registry is ordered by creation, not necessarily by index, so naming a
/// stream always means searching for its `index` field, never positional
/// lookup.
pub open spec fn has_stream_with_index(streams: Seq<StreamModel>, i: StreamIndex) -> bool {
    exists|j: int| 0 <= j < streams.len() && streams[j].index == i
}

/// Registry search: whether any registered stream carries index `i`.
pub fn stream_index_exists(streams: &Vec<Stream>, i: StreamIndex) -> (r: bool)
    ensures
        r == has_stream_with_index(streams@.map_values(|s: Stream| s@), i),
{
    let ghost model = streams@.map_values(|s: Stream| s@);
    let mut idx: usize = 0;
    while idx < streams.len()
        invariant
            idx <= streams.len(),
            model == streams@.map_values(|s: Stream| s@),
            forall|j: int| 0 <= j < idx ==> model[j].index != i,
        decreases streams.len() - idx,
    {
        if streams[idx].index == i {
            proof {
                assert(model[idx as int].index == i);
            }
            return true;
        }
        idx += 1;
    }
    false
}

} // verus!
