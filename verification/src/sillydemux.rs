use vstd::prelude::*;
use vstd::string::StringExecFns;

use crate::buffer::Buffer;
use crate::demuxer::{Demuxer, HandleBufferResult, SeekResult};
use crate::flow::{ErrorMessage, FlowError};
use crate::stream::{Stream, StreamModel};

verus! {

/// The placeholder parser: it recognises no container format at all.
///
/// Starting it fails at once — no headers can ever be established — and so
/// do seeking, buffer handling and the end-of-stream signal; stopping is
/// the one lifecycle operation that succeeds, since it must be safe to call
/// after a failed start.  Its registry is forever empty.  A deployment
/// replaces it with a real parser; until then it makes every entry point of
/// the boundary exercisable.
#[derive(Debug)]
pub struct SillyDemux {
    pub streams: Vec<Stream>,
}

impl SillyDemux {
    pub fn new() -> (d: SillyDemux)
        ensures
            d.streams@.len() == 0,
    {
        SillyDemux { streams: Vec::new() }
    }

    pub fn new_boxed() -> (b: Box<SillyDemux>)
        ensures
            b.streams@.len() == 0,
    {
        Box::new(SillyDemux::new())
    }
}

impl Demuxer for SillyDemux {
    open spec fn streams(&self) -> Seq<StreamModel> {
        self.streams@.map_values(|s: Stream| s@)
    }

    open spec fn drain_budget(&self) -> nat {
        0
    }

    open spec fn seekable(&self) -> bool {
        false
    }

    open spec fn position(&self) -> Option<u64> {
        None
    }

    open spec fn duration(&self) -> Option<u64> {
        None
    }

    fn start(&mut self, _upstream_size: Option<u64>, _random_access: bool) -> Result<
        (),
        ErrorMessage,
    > {
        Result::Err(ErrorMessage::new(String::from_str("no container format is supported")))
    }

    fn stop(&mut self) -> Result<(), ErrorMessage> {
        Result::Ok(())
    }

    fn seek(&mut self, _start: u64, _stop: Option<u64>) -> Result<SeekResult, ErrorMessage> {
        Result::Err(ErrorMessage::new(String::from_str("no container format is supported")))
    }

    fn handle_buffer(&mut self, _buffer: Option<Buffer>) -> (res: Result<
        HandleBufferResult,
        FlowError,
    >) {
        Result::Err(
            FlowError::Error(ErrorMessage::new(String::from_str("no container format is supported"))),
        )
    }

    fn end_of_stream(&mut self) -> Result<(), ErrorMessage> {
        Result::Err(ErrorMessage::new(String::from_str("no container format is supported")))
    }

    fn is_seekable(&self) -> (r: bool) {
        false
    }

    fn get_position(&self) -> (r: Option<u64>) {
        None
    }

    fn get_duration(&self) -> (r: Option<u64>) {
        None
    }

    fn get_streams(&self) -> (r: &Vec<Stream>) {
        &self.streams
    }
}

} // verus!
