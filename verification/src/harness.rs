//! The course of a benchmark as a state machine.
//!
//! The machine never touches a codec session. It names the work that comes
//! next ([`Harness::action`]); its caller does that work and reports how it
//! went ([`Harness::advance`]). The course is linear: every encoder is timed
//! in the order of its enumeration, the reference streams are produced by the
//! selected encoders, the decoders are enumerated, and every decoder whose
//! reference stream is complete is timed. The first failure ends the run.

use crate::bench::marks;
use crate::ffmpeg::{CodecInfo, CodecInfos, DataFormat};
use vstd::prelude::*;

verus! {

/// Where a benchmark stands.
#[derive(Debug, Eq, PartialEq, Clone, Copy, Structural)]
pub enum Phase {
    /// An encoder is being timed.
    TimeEncoders,
    /// The selected H264 encoder is producing its reference stream.
    EncodeH264,
    /// The selected H265 encoder is producing its reference stream.
    EncodeH265,
    /// The decoders are being enumerated.
    ListDecoders,
    /// A decoder is being timed.
    TimeDecoders,
    /// Everything was done.
    Finished,
    /// A session failed; nothing more is done.
    Aborted,
}

/// The work the caller is asked to do next.
#[derive(Debug, Eq, PartialEq, Clone, Copy, Structural)]
pub enum Action {
    /// Push every frame through encoder number `index` and report its
    /// average time, marked where `marked` is set.
    TimeEncoder { index: usize, marked: bool },
    /// Push every frame through the encoder selected for `format` and hand
    /// back the chunks it emitted, in order.
    Encode { format: DataFormat },
    /// Enumerate the decoders.
    ListDecoders,
    /// Push the reference stream of `format` through decoder number `index`
    /// and report its average time, marked where `marked` is set.
    TimeDecoder { index: usize, format: DataFormat, marked: bool },
    /// The benchmark is complete.
    Finish,
    /// The benchmark was given up.
    Abort,
}

/// How the work that was asked for went.
#[derive(Debug)]
pub enum Event {
    /// A timing run went through.
    Timed,
    /// A reference stream was produced: its chunks in emission order.
    Encoded(Vec<Vec<u8>>),
    /// The decoders were enumerated.
    Listed(Vec<CodecInfo>),
    /// A session could not be built, or a call into it failed.
    Failed,
}

/// State of a benchmark.
#[derive(Debug)]
pub struct Harness {
    pub phase: Phase,
    /// Number of synthesized frames.
    pub count: usize,
    pub encoders: Vec<CodecInfo>,
    pub best_encoders: CodecInfos,
    /// Reference stream of each family; empty until it is produced.
    pub h264s: Vec<Vec<u8>>,
    pub h265s: Vec<Vec<u8>>,
    pub decoders: Vec<CodecInfo>,
    pub best_decoders: CodecInfos,
    /// Number of the backend that is being timed.
    pub cursor: usize,
}

/// A decoder of family `format` is timed only on a stream of its family with
/// one chunk per frame.
pub open spec fn stream_is_full(format: DataFormat, len264: int, len265: int, count: int) -> bool {
    match format {
        DataFormat::H264 => len264 == count,
        DataFormat::H265 => len265 == count,
    }
}

/// The first decoder from position `from` on that is timed, or the number of
/// decoders where there is none.
pub open spec fn next_timed(
    decoders: Seq<CodecInfo>,
    len264: int,
    len265: int,
    count: int,
    from: int,
) -> int
    decreases decoders.len() - from,
{
    if from < 0 || from >= decoders.len() {
        decoders.len() as int
    } else if stream_is_full(decoders[from].format, len264, len265, count) {
        from
    } else {
        next_timed(decoders, len264, len265, count, from + 1)
    }
}

/// `next_timed` skips exactly the decoders whose stream is incomplete.
pub proof fn lemma_next_timed(
    decoders: Seq<CodecInfo>,
    len264: int,
    len265: int,
    count: int,
    from: int,
)
    requires
        0 <= from <= decoders.len(),
    ensures
        ({
            let r = next_timed(decoders, len264, len265, count, from);
            &&& from <= r <= decoders.len()
            &&& r < decoders.len() ==> stream_is_full(decoders[r].format, len264, len265, count)
            &&& forall|i: int|
                from <= i < r ==> !stream_is_full(
                    (#[trigger] decoders[i]).format,
                    len264,
                    len265,
                    count,
                )
        }),
    decreases decoders.len() - from,
{
    if from < decoders.len() && !stream_is_full(decoders[from].format, len264, len265, count) {
        lemma_next_timed(decoders, len264, len265, count, from + 1);
    }
}

impl Harness {
    /// The state is consistent: the best backends are the selection from the
    /// lists held, and a phase that works on a backend has one to work on.
    pub open spec fn wf(&self) -> bool {
        &&& self.best_encoders.is_selection_of(self.encoders@)
        &&& self.best_decoders.is_selection_of(self.decoders@)
        &&& self.phase == Phase::TimeEncoders ==> self.cursor < self.encoders.len()
        &&& self.phase == Phase::EncodeH264 ==> self.best_encoders.h264 is Some
        &&& self.phase == Phase::EncodeH265 ==> self.best_encoders.h265 is Some
        &&& self.phase == Phase::TimeDecoders ==> self.cursor < self.decoders.len()
            && stream_is_full(
            self.decoders[self.cursor as int].format,
            self.h264s.len() as int,
            self.h265s.len() as int,
            self.count as int,
        )
    }

    /// The phase that follows the timing of the encoders, and the one that
    /// follows the H264 reference stream: a reference stream is produced
    /// only for a family that has a selected encoder.
    pub open spec fn phase_after(&self, h264_done: bool) -> Phase {
        if !h264_done && self.best_encoders.h264 is Some {
            Phase::EncodeH264
        } else if self.best_encoders.h265 is Some {
            Phase::EncodeH265
        } else {
            Phase::ListDecoders
        }
    }

    /// Phase and cursor once the decoders before `from` are dealt with.
    pub open spec fn decoders_from(&self, from: int) -> (Phase, int) {
        let r = next_timed(
            self.decoders@,
            self.h264s.len() as int,
            self.h265s.len() as int,
            self.count as int,
            from,
        );
        if r < self.decoders.len() {
            (Phase::TimeDecoders, r)
        } else {
            (Phase::Finished, 0)
        }
    }

    /// The work that is pending in this state.
    pub open spec fn pending(&self) -> Action {
        match self.phase {
            Phase::TimeEncoders => Action::TimeEncoder {
                index: self.cursor,
                marked: marks(self.best_encoders@, self.encoders[self.cursor as int]@),
            },
            Phase::EncodeH264 => Action::Encode { format: DataFormat::H264 },
            Phase::EncodeH265 => Action::Encode { format: DataFormat::H265 },
            Phase::ListDecoders => Action::ListDecoders,
            Phase::TimeDecoders => Action::TimeDecoder {
                index: self.cursor,
                format: self.decoders[self.cursor as int].format,
                marked: marks(self.best_decoders@, self.decoders[self.cursor as int]@),
            },
            Phase::Finished => Action::Finish,
            Phase::Aborted => Action::Abort,
        }
    }

    /// Whether `event` is the answer that the pending work can give.
    pub open spec fn accepts(&self, event: Event) -> bool {
        match (self.phase, event) {
            (Phase::TimeEncoders, Event::Timed) => true,
            (Phase::EncodeH264, Event::Encoded(_)) => true,
            (Phase::EncodeH265, Event::Encoded(_)) => true,
            (Phase::ListDecoders, Event::Listed(_)) => true,
            (Phase::TimeDecoders, Event::Timed) => true,
            _ => false,
        }
    }

    /// `post` is the state that follows `self` on `event`.
    ///
    /// A finished or aborted benchmark stays as it is. A failure, or an
    /// answer that the pending work cannot give, aborts it. Otherwise the
    /// answer is stored and the next work is chosen: the next encoder, the
    /// reference stream of the next family that has a selected encoder, the
    /// enumeration of the decoders, the next decoder whose stream is
    /// complete, or the end.
    pub open spec fn leads_to(&self, event: Event, post: Harness) -> bool {
        let live = self.phase != Phase::Finished && self.phase != Phase::Aborted;
        &&& post.count == self.count
        &&& post.encoders == self.encoders
        &&& post.best_encoders == self.best_encoders
        &&& post.h264s == match (self.phase, event) {
            (Phase::EncodeH264, Event::Encoded(chunks)) => chunks,
            _ => self.h264s,
        }
        &&& post.h265s == match (self.phase, event) {
            (Phase::EncodeH265, Event::Encoded(chunks)) => chunks,
            _ => self.h265s,
        }
        &&& match (self.phase, event) {
            (Phase::ListDecoders, Event::Listed(list)) => post.decoders == list
                && post.best_decoders.is_selection_of(list@),
            _ => post.decoders == self.decoders && post.best_decoders == self.best_decoders,
        }
        &&& (post.phase, post.cursor as int) == if !live {
            (self.phase, self.cursor as int)
        } else if !self.accepts(event) {
            (Phase::Aborted, self.cursor as int)
        } else {
            match self.phase {
                Phase::TimeEncoders => if self.cursor + 1 < self.encoders.len() {
                    (Phase::TimeEncoders, self.cursor + 1)
                } else {
                    (self.phase_after(false), 0)
                },
                Phase::EncodeH264 => (self.phase_after(true), 0),
                Phase::EncodeH265 => (Phase::ListDecoders, 0),
                Phase::ListDecoders => post.decoders_from(0),
                _ => self.decoders_from(self.cursor + 1),
            }
        }
    }

    /// The failure policy: a failure aborts a benchmark that is under way,
    /// and a benchmark that was aborted or has finished stays so whatever is
    /// reported to it.
    pub proof fn lemma_failure_is_final(&self, event: Event, post: Harness)
        requires
            self.leads_to(event, post),
        ensures
            self.phase == Phase::Aborted ==> post.phase == Phase::Aborted,
            self.phase == Phase::Finished ==> post.phase == Phase::Finished,
            event is Failed && self.phase != Phase::Finished ==> post.phase == Phase::Aborted,
            post.phase == Phase::Aborted ==> post.encoders == self.encoders && post.decoders
                == self.decoders && post.h264s == self.h264s && post.h265s == self.h265s,
    {
    }

    /// The state once the encoders are enumerated: the first encoder is to be
    /// timed, or, where there is none, the decoders are to be enumerated.
    pub fn start(encoders: Vec<CodecInfo>, count: usize) -> (res: Harness)
        ensures
            res.wf(),
            res.count == count,
            res.encoders == encoders,
            res.h264s@.len() == 0,
            res.h265s@.len() == 0,
            res.decoders@.len() == 0,
            res.cursor == 0,
            res.phase == if encoders.len() > 0 {
                Phase::TimeEncoders
            } else {
                Phase::ListDecoders
            },
    {
        let best_encoders = CodecInfo::select(&encoders);
        let decoders: Vec<CodecInfo> = Vec::new();
        let best_decoders = CodecInfo::select(&decoders);
        let phase = if encoders.len() > 0 {
            Phase::TimeEncoders
        } else {
            Phase::ListDecoders
        };
        Harness {
            phase,
            count,
            encoders,
            best_encoders,
            h264s: Vec::new(),
            h265s: Vec::new(),
            decoders,
            best_decoders,
            cursor: 0,
        }
    }

    /// Whether the state is consistent, for a caller that cannot know it.
    pub fn is_consistent(&self) -> (ok: bool)
        ensures
            ok == self.wf(),
    {
        let encoders_ok = CodecInfo::select(&self.encoders) == self.best_encoders;
        let decoders_ok = CodecInfo::select(&self.decoders) == self.best_decoders;
        let phase_ok = match self.phase {
            Phase::TimeEncoders => self.cursor < self.encoders.len(),
            Phase::EncodeH264 => self.best_encoders.h264.is_some(),
            Phase::EncodeH265 => self.best_encoders.h265.is_some(),
            Phase::TimeDecoders => self.cursor < self.decoders.len() && self.stream(
                self.decoders[self.cursor].format,
            ).len() == self.count,
            _ => true,
        };
        encoders_ok && decoders_ok && phase_ok
    }

    /// The reference stream of a family.
    pub fn stream(&self, format: DataFormat) -> (res: &Vec<Vec<u8>>)
        ensures
            *res == match format {
                DataFormat::H264 => self.h264s,
                DataFormat::H265 => self.h265s,
            },
    {
        match format {
            DataFormat::H264 => &self.h264s,
            DataFormat::H265 => &self.h265s,
        }
    }

    /// The work to do next.
    pub fn action(&self) -> (res: Action)
        requires
            self.wf(),
        ensures
            res == self.pending(),
    {
        match self.phase {
            Phase::TimeEncoders => Action::TimeEncoder {
                index: self.cursor,
                marked: crate::bench::is_best(&self.best_encoders, &self.encoders[self.cursor]),
            },
            Phase::EncodeH264 => Action::Encode { format: DataFormat::H264 },
            Phase::EncodeH265 => Action::Encode { format: DataFormat::H265 },
            Phase::ListDecoders => Action::ListDecoders,
            Phase::TimeDecoders => Action::TimeDecoder {
                index: self.cursor,
                format: self.decoders[self.cursor].format,
                marked: crate::bench::is_best(&self.best_decoders, &self.decoders[self.cursor]),
            },
            Phase::Finished => Action::Finish,
            Phase::Aborted => Action::Abort,
        }
    }

    /// Moves to the first decoder from `from` on whose stream is complete, or
    /// to the end.
    fn seek_decoder(&mut self, from: usize)
        requires
            from <= old(self).decoders.len(),
            old(self).best_encoders.is_selection_of(old(self).encoders@),
            old(self).best_decoders.is_selection_of(old(self).decoders@),
        ensures
            final(self).wf(),
            final(self).count == old(self).count,
            final(self).encoders == old(self).encoders,
            final(self).best_encoders == old(self).best_encoders,
            final(self).h264s == old(self).h264s,
            final(self).h265s == old(self).h265s,
            final(self).decoders == old(self).decoders,
            final(self).best_decoders == old(self).best_decoders,
            (final(self).phase, final(self).cursor as int) == old(self).decoders_from(from as int),
    {
        let mut i: usize = from;
        while i < self.decoders.len()
            invariant
                from <= i <= self.decoders.len(),
                self.count == old(self).count,
                self.encoders == old(self).encoders,
                self.best_encoders == old(self).best_encoders,
                self.h264s == old(self).h264s,
                self.h265s == old(self).h265s,
                self.decoders == old(self).decoders,
                self.best_decoders == old(self).best_decoders,
                self.best_encoders.is_selection_of(self.encoders@),
                self.best_decoders.is_selection_of(self.decoders@),
                old(self).decoders_from(from as int) == old(self).decoders_from(i as int),
            decreases self.decoders.len() - i,
        {
            let full = match self.decoders[i].format {
                DataFormat::H264 => self.h264s.len() == self.count,
                DataFormat::H265 => self.h265s.len() == self.count,
            };
            if full {
                self.phase = Phase::TimeDecoders;
                self.cursor = i;
                return ;
            }
            i = i + 1;
        }
        self.phase = Phase::Finished;
        self.cursor = 0;
    }

    /// Takes the outcome of the pending work and chooses what comes next.
    pub fn advance(&mut self, event: Event)
        requires
            old(self).wf(),
        ensures
            final(self).wf(),
            old(self).leads_to(event, *final(self)),
    {
        match self.phase {
            Phase::Finished => {},
            Phase::Aborted => {},
            Phase::TimeEncoders => match event {
                Event::Timed => {
                    if self.cursor + 1 < self.encoders.len() {
                        self.cursor = self.cursor + 1;
                    } else {
                        self.cursor = 0;
                        self.phase = if self.best_encoders.h264.is_some() {
                            Phase::EncodeH264
                        } else if self.best_encoders.h265.is_some() {
                            Phase::EncodeH265
                        } else {
                            Phase::ListDecoders
                        };
                    }
                },
                _ => {
                    self.phase = Phase::Aborted;
                },
            },
            Phase::EncodeH264 => match event {
                Event::Encoded(chunks) => {
                    self.h264s = chunks;
                    self.cursor = 0;
                    self.phase = if self.best_encoders.h265.is_some() {
                        Phase::EncodeH265
                    } else {
                        Phase::ListDecoders
                    };
                },
                _ => {
                    self.phase = Phase::Aborted;
                },
            },
            Phase::EncodeH265 => match event {
                Event::Encoded(chunks) => {
                    self.h265s = chunks;
                    self.cursor = 0;
                    self.phase = Phase::ListDecoders;
                },
                _ => {
                    self.phase = Phase::Aborted;
                },
            },
            Phase::ListDecoders => match event {
                Event::Listed(list) => {
                    self.best_decoders = CodecInfo::select(&list);
                    self.decoders = list;
                    self.seek_decoder(0);
                },
                _ => {
                    self.phase = Phase::Aborted;
                },
            },
            Phase::TimeDecoders => match event {
                Event::Timed => {
                    let from = self.cursor + 1;
                    self.seek_decoder(from);
                },
                _ => {
                    self.phase = Phase::Aborted;
                },
            },
        }
    }
}

} // verus!
