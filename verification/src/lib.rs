//! Ranking of video codec backends, and the pure arithmetic of the
//! benchmark that exercises them.
//!
//! * [`ffmpeg`] holds the capability model and the selection of the best
//!   backend per codec family.
//! * [`layout`] turns the raw answer of the native plane-layout query into
//!   line sizes, offsets and a total length.
//! * [`bench`] holds what the benchmark computes: the synthetic frames, the
//!   mark of the selected best, and how a run is reported.
//! * [`harness`] is the benchmark's course as a state machine: it says which
//!   session work comes next and takes the outcome of that work.

pub mod ffmpeg;
pub mod layout;
pub mod bench;
pub mod harness;
