use vstd::prelude::*;

use crate::errors::StageError;
use crate::inference::build_request;
use crate::inference::InferenceRequest;
use crate::inference::PipelineConfig;
use crate::pixel::convert_frame;
use crate::pixel::spec_convert;
use crate::pixel::RawFrame;
use crate::png::png_bytes_of;
use crate::time::now_local;
use crate::time::snapshot_rel_path;
use crate::time::spec_rel_path;
use crate::time::LocalTime;

verus! {

/// The screen rectangle requested for a capture. The origin may be
/// negative when the capture spans a multi-monitor coordinate space;
/// whether the region lies within the available screens is the capture
/// source's to reject.
#[derive(Clone, Copy, Debug, PartialEq, Eq, Structural)]
pub struct CaptureRegion {
    pub x: i32,
    pub y: i32,
    pub width: u32,
    pub height: u32,
}

impl CaptureRegion {
    /// A region must span at least one pixel each way.
    pub open spec fn wf(self) -> bool {
        self.width > 0 && self.height > 0
    }

    /// Whether the region spans at least one pixel each way.
    pub fn is_valid(&self) -> (r: bool)
        ensures
            r == self.wf(),
    {
        self.width > 0 && self.height > 0
    }
}

/// What one invocation delivers. The full pipeline runs OCR and
/// inference after persisting and returns the backend's answer; the
/// reduced variant only captures and persists, and returns nothing. The
/// two are configuration: one machine runs one of them.
#[derive(Clone, Copy, Debug, PartialEq, Eq, Structural)]
pub enum OutputMode {
    RespondWithAnswer,
    CaptureOnly,
}

/// Where one capture invocation stands. Every stage failure moves to
/// `Failed`, which is terminal for that invocation, as `Done` is.
pub enum PipelineState {
    Idle,
    Capturing { region: CaptureRegion },
    Converting { frame: RawFrame },
    Persisting { rel_path: String },
    Extracting,
    Inferring,
    Done { response: String },
    Failed { error: StageError },
}

/// What the host reports back to the pipeline: the start trigger, or the
/// outcome of the action it was asked to perform. `Advance` drives the
/// stages the pipeline computes itself.
#[allow(inconsistent_fields)]
pub enum PipelineEvent {
    Start { region: CaptureRegion },
    FrameCaptured { result: Result<RawFrame, StageError> },
    Advance,
    Persisted { result: Result<(), StageError> },
    TextExtracted { result: Result<String, StageError> },
    InferenceDone { result: Result<String, StageError> },
}

/// What the host must do next. `Persist` hands over the encoded PNG and
/// the path, relative to the application's data directory, to write it
/// at; `Extract` names the file to run OCR on; `Infer` carries the full
/// request for the inference backend. `Stop` ends the invocation.
pub enum PipelineAction {
    Capture { region: CaptureRegion },
    Advance,
    Persist { png: Vec<u8>, rel_path: String },
    Extract { rel_path: String },
    Infer { request: InferenceRequest },
    Stop,
}

/// The outcome of one `Advance` in the `Converting` state, which runs the
/// two computing stages: convert the frame, then encode the image and
/// name it by the wall-clock reading `t`. A short frame fails with
/// `BufferTooSmall`; a frame the PNG encoder rejects (a zero dimension,
/// or pixel data over the encoder's chunk limit) fails with
/// `EncodeOrWriteFailed`; encoding is owed success everywhere else.
pub open spec fn converts_to(
    frame: RawFrame,
    t: LocalTime,
    s2: PipelineState,
    a: PipelineAction,
) -> bool {
    if !frame.covers_pixels() {
        &&& s2 == (PipelineState::Failed { error: StageError::BufferTooSmall })
        &&& a == (PipelineAction::Stop)
    } else {
        let w = frame.width;
        let h = frame.height;
        let encoded = {
            &&& s2 matches PipelineState::Persisting { rel_path } && rel_path@ == spec_rel_path(t)
            &&& a matches PipelineAction::Persist { png, rel_path } && png@ == png_bytes_of(
                w as nat,
                h as nat,
                spec_convert(frame),
            ) && rel_path@ == spec_rel_path(t)
        };
        let rejected = {
            &&& s2 == (PipelineState::Failed { error: StageError::EncodeOrWriteFailed })
            &&& a == (PipelineAction::Stop)
        };
        if w > 0 && h > 0 && w * h * 3 <= 0x7fffffff {
            encoded
        } else if w == 0 || h == 0 {
            rejected
        } else {
            encoded || rejected
        }
    }
}

/// The pipeline's transition relation: in state `s`, on event `e`, under
/// configuration `cfg` and mode `mode`, and with `t` the wall-clock
/// reading taken while entering the persisting stage, the machine moves
/// to `s2` and asks the host to perform `a`. The stages run in strict
/// sequence; the first failure moves to `Failed` and aborts the rest; an
/// event that does not belong to the state leaves the state unchanged
/// and asks for nothing.
pub open spec fn step_rel(
    cfg: PipelineConfig,
    mode: OutputMode,
    s: PipelineState,
    e: PipelineEvent,
    t: LocalTime,
    s2: PipelineState,
    a: PipelineAction,
) -> bool {
    match (s, e) {
        (PipelineState::Idle, PipelineEvent::Start { region }) => {
            &&& s2 == (PipelineState::Capturing { region })
            &&& a == (PipelineAction::Capture { region })
        },
        (PipelineState::Capturing { .. }, PipelineEvent::FrameCaptured { result }) => match result {
            Ok(frame) => {
                &&& s2 == (PipelineState::Converting { frame })
                &&& a == (PipelineAction::Advance)
            },
            Err(error) => {
                &&& s2 == (PipelineState::Failed { error })
                &&& a == (PipelineAction::Stop)
            },
        },
        (PipelineState::Converting { frame }, PipelineEvent::Advance) => converts_to(
            frame,
            t,
            s2,
            a,
        ),
        (PipelineState::Persisting { rel_path }, PipelineEvent::Persisted { result }) => match result {
            Ok(_) => match mode {
                OutputMode::RespondWithAnswer => {
                    &&& s2 == (PipelineState::Extracting)
                    &&& a matches PipelineAction::Extract { rel_path: p } && p == rel_path
                },
                OutputMode::CaptureOnly => {
                    &&& s2 matches PipelineState::Done { response } && response@ == Seq::<
                        char,
                    >::empty()
                    &&& a == (PipelineAction::Stop)
                },
            },
            Err(error) => {
                &&& s2 == (PipelineState::Failed { error })
                &&& a == (PipelineAction::Stop)
            },
        },
        (PipelineState::Extracting, PipelineEvent::TextExtracted { result }) => match result {
            Ok(text) => {
                &&& s2 == (PipelineState::Inferring)
                &&& a matches PipelineAction::Infer { request } && request.model@ == cfg.model_id@
                    && request.system@ == cfg.system_prompt@ && request.prompt@ == text@
            },
            Err(error) => {
                &&& s2 == (PipelineState::Failed { error })
                &&& a == (PipelineAction::Stop)
            },
        },
        (PipelineState::Inferring, PipelineEvent::InferenceDone { result }) => match result {
            Ok(response) => {
                &&& s2 == (PipelineState::Done { response })
                &&& a == (PipelineAction::Stop)
            },
            Err(error) => {
                &&& s2 == (PipelineState::Failed { error })
                &&& a == (PipelineAction::Stop)
            },
        },
        _ => s2 == s && a == (PipelineAction::Stop),
    }
}

/// One capture invocation: the fixed configuration, the configured
/// output variant, and where the invocation stands. The pipeline holds
/// no state across invocations; a fresh machine starts `Idle`.
pub struct CapturePipeline {
    pub config: PipelineConfig,
    pub mode: OutputMode,
    pub state: PipelineState,
}

impl CapturePipeline {
    /// A fresh, idle pipeline under `config`, delivering what `mode`
    /// says.
    pub fn new(config: PipelineConfig, mode: OutputMode) -> (r: CapturePipeline)
        ensures
            r.state is Idle,
            r.config == config,
            r.mode == mode,
    {
        CapturePipeline { config, mode, state: PipelineState::Idle }
    }

    /// Feeds one event to the machine and returns what the host must do
    /// next. The step follows the transition relation for some valid
    /// wall-clock reading — which reading is the clock's choice, not the
    /// caller's.
    pub fn step(&mut self, event: PipelineEvent) -> (a: PipelineAction)
        ensures
            final(self).config == old(self).config,
            final(self).mode == old(self).mode,
            exists|t: LocalTime|
                t.wf() && #[trigger] step_rel(
                    old(self).config,
                    old(self).mode,
                    old(self).state,
                    event,
                    t,
                    final(self).state,
                    a,
                ),
    {
        let mut taken = PipelineState::Idle;
        core::mem::swap(&mut self.state, &mut taken);
        let ghost prev = taken;
        let ghost mut clock: LocalTime = LocalTime {
            year: 0,
            month: 1,
            day: 1,
            hour: 0,
            minute: 0,
            second: 0,
        };
        let (next, action): (PipelineState, PipelineAction) = match (taken, event) {
            (PipelineState::Idle, PipelineEvent::Start { region }) => (
                PipelineState::Capturing { region },
                PipelineAction::Capture { region },
            ),
            (PipelineState::Capturing { .. }, PipelineEvent::FrameCaptured { result }) => match result {
                Ok(frame) => (PipelineState::Converting { frame }, PipelineAction::Advance),
                Err(error) => (PipelineState::Failed { error }, PipelineAction::Stop),
            },
            (PipelineState::Converting { frame }, PipelineEvent::Advance) => match convert_frame(
                &frame,
            ) {
                Err(error) => (PipelineState::Failed { error }, PipelineAction::Stop),
                Ok(img) => {
                    let t = now_local();
                    proof {
                        clock = t;
                    }
                    let rel_path = snapshot_rel_path(&t);
                    match img.to_png() {
                        None => (
                            PipelineState::Failed { error: StageError::EncodeOrWriteFailed },
                            PipelineAction::Stop,
                        ),
                        Some(png) => {
                            let state_path = rel_path.clone();
                            (
                                PipelineState::Persisting { rel_path: state_path },
                                PipelineAction::Persist { png, rel_path },
                            )
                        },
                    }
                },
            },
            (PipelineState::Persisting { rel_path }, PipelineEvent::Persisted { result }) => match result {
                Ok(_) => match self.mode {
                    OutputMode::RespondWithAnswer => (
                        PipelineState::Extracting,
                        PipelineAction::Extract { rel_path },
                    ),
                    OutputMode::CaptureOnly => (
                        PipelineState::Done { response: String::new() },
                        PipelineAction::Stop,
                    ),
                },
                Err(error) => (PipelineState::Failed { error }, PipelineAction::Stop),
            },
            (PipelineState::Extracting, PipelineEvent::TextExtracted { result }) => match result {
                Ok(text) => {
                    let request = build_request(&self.config, text);
                    (PipelineState::Inferring, PipelineAction::Infer { request })
                },
                Err(error) => (PipelineState::Failed { error }, PipelineAction::Stop),
            },
            (PipelineState::Inferring, PipelineEvent::InferenceDone { result }) => match result {
                Ok(response) => (PipelineState::Done { response }, PipelineAction::Stop),
                Err(error) => (PipelineState::Failed { error }, PipelineAction::Stop),
            },
            (other, _) => (other, PipelineAction::Stop),
        };
        self.state = next;
        proof {
            assert(clock.wf());
            assert(step_rel(old(self).config, old(self).mode, prev, event, clock, self.state, action));
        }
        action
    }
}

/// Fail-fast propagation. The inference stage is entered only through a
/// successful extraction: a step enters `Inferring` — and asks for an
/// `Infer` — only from `Extracting` on `Ok` text, so a failed OCR stage
/// never invokes inference. `Failed` and `Done` are terminal: every
/// later step leaves them unchanged and asks for nothing. And the
/// capture-only variant never enters the extraction stage, so it asks
/// for neither OCR nor inference.
pub proof fn lemma_failure_propagation(
    cfg: PipelineConfig,
    mode: OutputMode,
    s: PipelineState,
    e: PipelineEvent,
    t: LocalTime,
    s2: PipelineState,
    a: PipelineAction,
)
    requires
        step_rel(cfg, mode, s, e, t, s2, a),
    ensures
        !(s is Inferring) && s2 is Inferring ==> s is Extracting
            && (e matches PipelineEvent::TextExtracted { result: Ok(_) }),
        (a matches PipelineAction::Infer { .. }) ==> s is Extracting
            && (e matches PipelineEvent::TextExtracted { result: Ok(_) }),
        s is Failed ==> s2 == s && a == (PipelineAction::Stop),
        s is Done ==> s2 == s && a == (PipelineAction::Stop),
        mode is CaptureOnly && !(s is Extracting) ==> !(s2 is Extracting),
        (a matches PipelineAction::Extract { .. }) ==> mode is RespondWithAnswer
            && s is Persisting,
{
}

/// The happy path, end to end: from `Idle`, a capture whose frame is
/// well-formed and encodable runs Capture, Convert, Persist, Extract and
/// Infer in strict sequence, and the invocation ends `Done` with exactly
/// the backend's response.
pub proof fn lemma_happy_path(
    cfg: PipelineConfig,
    region: CaptureRegion,
    frame: RawFrame,
    text: String,
    answer: String,
    t1: LocalTime,
    t2: LocalTime,
    t3: LocalTime,
    t4: LocalTime,
    t5: LocalTime,
    t6: LocalTime,
    s1: PipelineState,
    s2: PipelineState,
    s3: PipelineState,
    s4: PipelineState,
    s5: PipelineState,
    s6: PipelineState,
    a1: PipelineAction,
    a2: PipelineAction,
    a3: PipelineAction,
    a4: PipelineAction,
    a5: PipelineAction,
    a6: PipelineAction,
)
    requires
        frame.covers_pixels(),
        0 < frame.width,
        0 < frame.height,
        frame.width * frame.height * 3 <= 0x7fffffff,
        step_rel(
            cfg,
            OutputMode::RespondWithAnswer,
            PipelineState::Idle,
            PipelineEvent::Start { region },
            t1,
            s1,
            a1,
        ),
        step_rel(
            cfg,
            OutputMode::RespondWithAnswer,
            s1,
            PipelineEvent::FrameCaptured { result: Ok(frame) },
            t2,
            s2,
            a2,
        ),
        step_rel(cfg, OutputMode::RespondWithAnswer, s2, PipelineEvent::Advance, t3, s3, a3),
        step_rel(
            cfg,
            OutputMode::RespondWithAnswer,
            s3,
            PipelineEvent::Persisted { result: Ok(()) },
            t4,
            s4,
            a4,
        ),
        step_rel(
            cfg,
            OutputMode::RespondWithAnswer,
            s4,
            PipelineEvent::TextExtracted { result: Ok(text) },
            t5,
            s5,
            a5,
        ),
        step_rel(
            cfg,
            OutputMode::RespondWithAnswer,
            s5,
            PipelineEvent::InferenceDone { result: Ok(answer) },
            t6,
            s6,
            a6,
        ),
    ensures
        s6 == (PipelineState::Done { response: answer }),
        a1 == (PipelineAction::Capture { region }),
        a3 matches PipelineAction::Persist { png, rel_path } && png@ == png_bytes_of(
            frame.width as nat,
            frame.height as nat,
            spec_convert(frame),
        ) && rel_path@ == spec_rel_path(t3),
        a5 matches PipelineAction::Infer { request } && request.prompt@ == text@
            && request.system@ == cfg.system_prompt@ && request.model@ == cfg.model_id@,
{
}

/// The reduced variant, end to end: from `Idle`, a capture-only
/// invocation persists the snapshot and ends `Done` with an empty
/// response, never asking for OCR or inference.
pub proof fn lemma_capture_only_path(
    cfg: PipelineConfig,
    region: CaptureRegion,
    frame: RawFrame,
    t1: LocalTime,
    t2: LocalTime,
    t3: LocalTime,
    t4: LocalTime,
    s1: PipelineState,
    s2: PipelineState,
    s3: PipelineState,
    s4: PipelineState,
    a1: PipelineAction,
    a2: PipelineAction,
    a3: PipelineAction,
    a4: PipelineAction,
)
    requires
        frame.covers_pixels(),
        0 < frame.width,
        0 < frame.height,
        frame.width * frame.height * 3 <= 0x7fffffff,
        step_rel(
            cfg,
            OutputMode::CaptureOnly,
            PipelineState::Idle,
            PipelineEvent::Start { region },
            t1,
            s1,
            a1,
        ),
        step_rel(
            cfg,
            OutputMode::CaptureOnly,
            s1,
            PipelineEvent::FrameCaptured { result: Ok(frame) },
            t2,
            s2,
            a2,
        ),
        step_rel(cfg, OutputMode::CaptureOnly, s2, PipelineEvent::Advance, t3, s3, a3),
        step_rel(
            cfg,
            OutputMode::CaptureOnly,
            s3,
            PipelineEvent::Persisted { result: Ok(()) },
            t4,
            s4,
            a4,
        ),
    ensures
        s4 matches PipelineState::Done { response } && response@ == Seq::<char>::empty(),
        a3 matches PipelineAction::Persist { png, rel_path } && png@ == png_bytes_of(
            frame.width as nat,
            frame.height as nat,
            spec_convert(frame),
        ) && rel_path@ == spec_rel_path(t3),
        a4 == (PipelineAction::Stop),
        !(a1 matches PipelineAction::Extract { .. }) && !(a1 matches PipelineAction::Infer {
            ..
        }),
        !(a2 matches PipelineAction::Extract { .. }) && !(a2 matches PipelineAction::Infer {
            ..
        }),
        !(a3 matches PipelineAction::Extract { .. }) && !(a3 matches PipelineAction::Infer {
            ..
        }),
{
}

} // verus!
