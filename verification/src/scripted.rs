use vstd::prelude::*;
use vstd::string::StringExecFns;

use crate::buffer::Buffer;
use crate::demuxer::{Demuxer, HandleBufferResult, SeekResult};
use crate::flow::{ErrorMessage, FlowError};
use crate::stream::{stream_index_exists, Stream, StreamModel};

verus! {

/// One step of a scripted parsing session: the outcome the parser reports,
/// or the failure it raises.
#[derive(Debug)]
pub enum ScriptStep {
    Emit(HandleBufferResult),
    Fail(FlowError),
}

/// A parser that answers from a prepared script instead of reading real
/// container data: each buffer-handling call consumes the next scripted
/// step, the stream registry is fixed up front, and seeks resolve against a
/// configured duration.  It exercises the boundary wrapper and the
/// flow-control loop with any session one cares to stage.
///
/// A script must respect the parser protocol — a `StreamChanged` must name
/// a registered stream, and a non-terminal outcome must not be the last
/// step.  A script that breaks either rule is refused at the offending step
/// with a fatal flow failure rather than ever breaking the promises of
/// [`Demuxer::handle_buffer`].
#[derive(Debug)]
pub struct ScriptedDemux {
    pub started: bool,
    pub can_seek: bool,
    pub cur_position: Option<u64>,
    pub cur_duration: Option<u64>,
    /// The arguments of the most recent seek request, exactly as the
    /// implementation received them.
    pub last_seek: Option<(u64, Option<u64>)>,
    pub streams: Vec<Stream>,
    /// Remaining steps, next first.
    pub script: Vec<ScriptStep>,
}

impl ScriptedDemux {
    pub fn new() -> (d: ScriptedDemux)
        ensures
            !d.started,
            !d.can_seek,
            d.cur_position is None,
            d.cur_duration is None,
            d.last_seek is None,
            d.streams@.len() == 0,
            d.script@.len() == 0,
    {
        ScriptedDemux {
            started: false,
            can_seek: false,
            cur_position: None,
            cur_duration: None,
            last_seek: None,
            streams: Vec::new(),
            script: Vec::new(),
        }
    }
}

impl Demuxer for ScriptedDemux {
    open spec fn streams(&self) -> Seq<StreamModel> {
        self.streams@.map_values(|s: Stream| s@)
    }

    open spec fn drain_budget(&self) -> nat {
        self.script@.len()
    }

    open spec fn seekable(&self) -> bool {
        self.can_seek
    }

    open spec fn position(&self) -> Option<u64> {
        self.cur_position
    }

    open spec fn duration(&self) -> Option<u64> {
        self.cur_duration
    }

    fn start(&mut self, _upstream_size: Option<u64>, _random_access: bool) -> Result<
        (),
        ErrorMessage,
    > {
        if self.started {
            Result::Err(ErrorMessage::new(String::from_str("demuxer already started")))
        } else {
            self.started = true;
            Result::Ok(())
        }
    }

    fn stop(&mut self) -> Result<(), ErrorMessage> {
        self.started = false;
        Result::Ok(())
    }

    fn seek(&mut self, start: u64, stop: Option<u64>) -> Result<SeekResult, ErrorMessage> {
        self.last_seek = Some((start, stop));
        if !self.started {
            return Result::Err(ErrorMessage::new(String::from_str("seek before start")));
        }
        match self.cur_duration {
            None => Result::Ok(SeekResult::TooEarly),
            Some(d) => {
                if start >= d {
                    Result::Ok(SeekResult::Eos)
                } else {
                    Result::Ok(SeekResult::Offset(start))
                }
            },
        }
    }

    fn handle_buffer(&mut self, _buffer: Option<Buffer>) -> (res: Result<
        HandleBufferResult,
        FlowError,
    >) {
        if self.script.len() == 0 {
            return Result::Ok(HandleBufferResult::NeedMoreData);
        }
        let step = self.script.remove(0);
        match step {
            ScriptStep::Fail(e) => Result::Err(e),
            ScriptStep::Emit(outcome) => {
                match &outcome {
                    HandleBufferResult::StreamChanged(i) => {
                        if !stream_index_exists(&self.streams, *i) {
                            return Result::Err(
                                FlowError::Error(
                                    ErrorMessage::new(
                                        String::from_str("script names an unknown stream"),
                                    ),
                                ),
                            );
                        }
                    },
                    _ => {},
                }
                let terminal = matches!(
                    outcome,
                    HandleBufferResult::NeedMoreData | HandleBufferResult::AllEos
                );
                if !terminal && self.script.len() == 0 {
                    return Result::Err(
                        FlowError::Error(
                            ErrorMessage::new(
                                String::from_str("script ends without a terminal outcome"),
                            ),
                        ),
                    );
                }
                Result::Ok(outcome)
            },
        }
    }

    fn end_of_stream(&mut self) -> Result<(), ErrorMessage> {
        Result::Ok(())
    }

    fn is_seekable(&self) -> (r: bool) {
        self.can_seek
    }

    fn get_position(&self) -> (r: Option<u64>) {
        self.cur_position
    }

    fn get_duration(&self) -> (r: Option<u64>) {
        self.cur_duration
    }

    fn get_streams(&self) -> (r: &Vec<Stream>) {
        &self.streams
    }
}

} // verus!
