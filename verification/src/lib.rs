//! A host-embeddable container demultiplexing engine.
//!
//! The crate models the protocol between a media-pipeline host and a
//! pluggable container parser: the parser implements the [`demuxer::Demuxer`]
//! capability set, the host exposes the callback surface of [`host::Host`],
//! and [`wrapper::DemuxerWrapper`] sits between the two.  The wrapper
//! serialises every entry point on exclusive access to the parser, expands
//! each parsing outcome into the mandated sequence of host callbacks, and
//! refuses all further delegation once the parser has been marked poisoned
//! after an abnormal termination.

pub mod buffer;
pub mod demuxer;
pub mod emission;
pub mod flow;
pub mod host;
pub mod recording;
pub mod scripted;
pub mod sentinel;
pub mod sillydemux;
pub mod stream;
pub mod wrapper;
