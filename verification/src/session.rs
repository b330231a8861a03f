use vstd::prelude::*;

use crate::errors::EnginePhase;
use crate::errors::SyroError;

verus! {

/// Outcome of one engine operation, as this core models it: the engine's
/// status values form a closed set with one success value and an open set of
/// failure codes, treated uniformly.  A failure carries the raw engine code.
#[derive(Clone, Copy, Debug, PartialEq, Eq, Structural)]
pub enum EngineStatus {
    Success,
    Failure(u32),
}

/// One in-flight encode session: the frame count the engine reported at
/// initialization, how many frames have been pulled so far, and the
/// accumulated interleaved stereo output.
///
/// The session walks the protocol `Idle -> Initialized -> Streaming ->
/// Finalized`: it is created by [`EncodeSession::start`], fed one engine
/// result per pulled frame by [`EncodeSession::push_frame`], and closed by
/// [`EncodeSession::finish`].  Every transition consumes the session, so a
/// failed transition destroys the partial output; an error result never
/// carries a buffer.  The engine operations themselves (foreign calls) are
/// performed by the caller, which hands each status and frame in.
#[derive(Debug)]
pub struct EncodeSession {
    /// Total number of stereo frames the engine reported it will produce.
    pub frames_total: u32,
    /// Number of frames pulled and appended so far.
    pub frames_done: u32,
    /// Output assembled so far: interleaved stereo, left sample first.
    pub output: Vec<i16>,
}

impl EncodeSession {
    /// Session invariant: never more frames pulled than announced, and two
    /// output samples per pulled frame.
    pub open spec fn wf(self) -> bool {
        &&& self.frames_done <= self.frames_total
        &&& self.output@.len() == 2 * self.frames_done
    }

    /// `Idle -> Initialized`: interprets the result of the engine's
    /// initialize operation.  `status` is the operation's status and
    /// `frame_count` the total frame count it reported.  On success the
    /// session starts empty; on failure no session exists and the error
    /// names the phase and carries the raw code.
    pub fn start(status: EngineStatus, frame_count: u32) -> (result: Result<
        EncodeSession,
        SyroError,
    >)
        ensures
            result is Ok <==> status is Success,
            result matches Ok(s) ==> ({
                &&& s.wf()
                &&& s.frames_total == frame_count
                &&& s.frames_done == 0
                &&& s.output@ == Seq::<i16>::empty()
            }),
            status matches EngineStatus::Failure(code) ==> result == Err::<
                EncodeSession,
                SyroError,
            >(SyroError::VolcaSampleOp(EnginePhase::Start, code)),
    {
        match status {
            EngineStatus::Success => Ok(
                EncodeSession { frames_total: frame_count, frames_done: 0, output: Vec::new() },
            ),
            EngineStatus::Failure(code) => Err(
                SyroError::VolcaSampleOp(EnginePhase::Start, code),
            ),
        }
    }

    /// Whether the pull loop still owes the engine a pull: true until
    /// exactly `frames_total` frames have been pushed.
    pub fn needs_frame(&self) -> (r: bool)
        ensures
            r <==> self.frames_done < self.frames_total,
    {
        self.frames_done < self.frames_total
    }

    /// `Streaming`: interprets the result of one pull-frame operation.  On
    /// success the frame's two samples are appended, left first.  On failure
    /// the session is destroyed — the partial output is discarded, never
    /// returned — and the error names the phase and carries the raw code.
    pub fn push_frame(self, status: EngineStatus, left: i16, right: i16) -> (result: Result<
        EncodeSession,
        SyroError,
    >)
        requires
            self.wf(),
            self.frames_done < self.frames_total,
        ensures
            result is Ok <==> status is Success,
            result matches Ok(s) ==> ({
                &&& s.wf()
                &&& s.frames_total == self.frames_total
                &&& s.frames_done == self.frames_done + 1
                &&& s.output@ == self.output@ + seq![left, right]
            }),
            status matches EngineStatus::Failure(code) ==> result == Err::<
                EncodeSession,
                SyroError,
            >(SyroError::VolcaSampleOp(EnginePhase::GetSample, code)),
    {
        match status {
            EngineStatus::Success => {
                let mut s = self;
                s.output.push(left);
                s.output.push(right);
                s.frames_done = s.frames_done + 1;
                proof {
                    assert(s.output@ =~= self.output@ + seq![left, right]);
                }
                Ok(s)
            },
            EngineStatus::Failure(code) => Err(
                SyroError::VolcaSampleOp(EnginePhase::GetSample, code),
            ),
        }
    }

    /// `Streaming -> Finalized`: interprets the result of the engine's
    /// finalize operation, callable only once every announced frame has been
    /// pulled.  On success the caller receives the complete output stream,
    /// exactly two samples per announced frame.  On failure the output is
    /// withheld — a stream from a session the engine reports as improperly
    /// closed is never handed out — and the error names the phase and
    /// carries the raw code.
    pub fn finish(self, status: EngineStatus) -> (result: Result<Vec<i16>, SyroError>)
        requires
            self.wf(),
            self.frames_done == self.frames_total,
        ensures
            result is Ok <==> status is Success,
            result matches Ok(out) ==> ({
                &&& out@ == self.output@
                &&& out@.len() == 2 * self.frames_total
            }),
            status matches EngineStatus::Failure(code) ==> result == Err::<
                Vec<i16>,
                SyroError,
            >(SyroError::VolcaSampleOp(EnginePhase::End, code)),
    {
        match status {
            EngineStatus::Success => Ok(self.output),
            EngineStatus::Failure(code) => Err(SyroError::VolcaSampleOp(EnginePhase::End, code)),
        }
    }
}

} // verus!
