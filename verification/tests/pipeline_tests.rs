use capture_ai::errors::StageError;
use capture_ai::inference::default_config;
use capture_ai::pipeline::CapturePipeline;
use capture_ai::pipeline::OutputMode;
use capture_ai::pipeline::CaptureRegion;
use capture_ai::pipeline::PipelineAction;
use capture_ai::pipeline::PipelineEvent;
use capture_ai::pipeline::PipelineState;
use capture_ai::pixel::Image;
use capture_ai::pixel::RawFrame;

fn region_100x50() -> CaptureRegion {
    CaptureRegion { x: 0, y: 0, width: 100, height: 50 }
}

fn frame_100x50() -> RawFrame {
    let mut data = Vec::with_capacity(100 * 50 * 4);
    for k in 0..100 * 50usize {
        data.push((k % 256) as u8); // blue
        data.push((k % 251) as u8); // green
        data.push((k % 239) as u8); // red
        data.push(255); // alpha
    }
    RawFrame { width: 100, height: 50, data }
}

#[test]
fn pipeline_end_to_end_stub() {
    let mut p = CapturePipeline::new(default_config(), OutputMode::RespondWithAnswer);
    let a1 = p.step(PipelineEvent::Start { region: region_100x50() });
    match a1 {
        PipelineAction::Capture { region } => assert_eq!(region, region_100x50()),
        _ => panic!("expected a capture action"),
    }
    let a2 = p.step(PipelineEvent::FrameCaptured { result: Ok(frame_100x50()) });
    assert!(matches!(a2, PipelineAction::Advance));
    let a3 = p.step(PipelineEvent::Advance);
    let (png, rel_path) = match a3 {
        PipelineAction::Persist { png, rel_path } => (png, rel_path),
        _ => panic!("expected a persist action"),
    };
    assert!(rel_path.starts_with("screenshot/"));
    assert!(rel_path.ends_with(".png"));
    // the persisted bytes decode back to the converted frame
    let img = Image::from_png(&png).unwrap();
    assert_eq!(img.width, 100);
    assert_eq!(img.height, 50);
    // output pixel k is (red, green, blue) of frame pixel k
    for k in [0usize, 1, 777, 4999] {
        assert_eq!(img.data[k * 3], (k % 239) as u8);
        assert_eq!(img.data[k * 3 + 1], (k % 251) as u8);
        assert_eq!(img.data[k * 3 + 2], (k % 256) as u8);
    }
    let a4 = p.step(PipelineEvent::Persisted { result: Ok(()) });
    match a4 {
        PipelineAction::Extract { rel_path: path } => assert_eq!(path, rel_path),
        _ => panic!("expected an extract action"),
    }
    let a5 = p.step(PipelineEvent::TextExtracted { result: Ok(String::from("HELLO")) });
    match a5 {
        PipelineAction::Infer { request } => {
            assert_eq!(request.prompt, "HELLO");
            assert_eq!(request.model, "mistral:latest");
            assert!(request.system.starts_with("You are a personal assistant"));
        },
        _ => panic!("expected an infer action"),
    }
    let a6 = p.step(PipelineEvent::InferenceDone { result: Ok(String::from("the stub answer")) });
    assert!(matches!(a6, PipelineAction::Stop));
    match p.state {
        PipelineState::Done { response } => assert_eq!(response, "the stub answer"),
        _ => panic!("expected the pipeline to be done"),
    }
}

#[test]
fn ocr_failure_never_invokes_inference() {
    let mut p = CapturePipeline::new(default_config(), OutputMode::RespondWithAnswer);
    let mut infer_count = 0usize;
    let events = vec![
        PipelineEvent::Start { region: region_100x50() },
        PipelineEvent::FrameCaptured { result: Ok(frame_100x50()) },
        PipelineEvent::Advance,
        PipelineEvent::Persisted { result: Ok(()) },
        PipelineEvent::TextExtracted { result: Err(StageError::RecognitionFailed) },
        // the host keeps reporting; the failed pipeline must stay failed
        PipelineEvent::InferenceDone { result: Ok(String::from("never")) },
        PipelineEvent::Advance,
    ];
    for e in events {
        let a = p.step(e);
        if matches!(a, PipelineAction::Infer { .. }) {
            infer_count += 1;
        }
    }
    assert_eq!(infer_count, 0);
    assert!(matches!(
        p.state,
        PipelineState::Failed { error: StageError::RecognitionFailed }
    ));
}

#[test]
fn capture_failure_aborts() {
    let mut p = CapturePipeline::new(default_config(), OutputMode::RespondWithAnswer);
    p.step(PipelineEvent::Start { region: region_100x50() });
    let a = p.step(PipelineEvent::FrameCaptured {
        result: Err(StageError::CaptureSourceError),
    });
    assert!(matches!(a, PipelineAction::Stop));
    assert!(matches!(
        p.state,
        PipelineState::Failed { error: StageError::CaptureSourceError }
    ));
}

#[test]
fn short_frame_fails_while_converting() {
    let mut p = CapturePipeline::new(default_config(), OutputMode::RespondWithAnswer);
    p.step(PipelineEvent::Start { region: region_100x50() });
    let mut frame = frame_100x50();
    frame.data.truncate(1000);
    p.step(PipelineEvent::FrameCaptured { result: Ok(frame) });
    let a = p.step(PipelineEvent::Advance);
    assert!(matches!(a, PipelineAction::Stop));
    assert!(matches!(
        p.state,
        PipelineState::Failed { error: StageError::BufferTooSmall }
    ));
}

#[test]
fn persist_failure_aborts() {
    let mut p = CapturePipeline::new(default_config(), OutputMode::RespondWithAnswer);
    p.step(PipelineEvent::Start { region: region_100x50() });
    p.step(PipelineEvent::FrameCaptured { result: Ok(frame_100x50()) });
    p.step(PipelineEvent::Advance);
    let a = p.step(PipelineEvent::Persisted {
        result: Err(StageError::DirectoryCreateFailed),
    });
    assert!(matches!(a, PipelineAction::Stop));
    assert!(matches!(
        p.state,
        PipelineState::Failed { error: StageError::DirectoryCreateFailed }
    ));
}

#[test]
fn inference_failure_aborts() {
    let mut p = CapturePipeline::new(default_config(), OutputMode::RespondWithAnswer);
    p.step(PipelineEvent::Start { region: region_100x50() });
    p.step(PipelineEvent::FrameCaptured { result: Ok(frame_100x50()) });
    p.step(PipelineEvent::Advance);
    p.step(PipelineEvent::Persisted { result: Ok(()) });
    p.step(PipelineEvent::TextExtracted { result: Ok(String::from("HELLO")) });
    let a = p.step(PipelineEvent::InferenceDone {
        result: Err(StageError::InferenceUnavailable),
    });
    assert!(matches!(a, PipelineAction::Stop));
    assert!(matches!(
        p.state,
        PipelineState::Failed { error: StageError::InferenceUnavailable }
    ));
}

#[test]
fn capture_only_persists_and_stops() {
    let mut p = CapturePipeline::new(default_config(), OutputMode::CaptureOnly);
    let mut actions = Vec::new();
    actions.push(p.step(PipelineEvent::Start { region: region_100x50() }));
    actions.push(p.step(PipelineEvent::FrameCaptured { result: Ok(frame_100x50()) }));
    actions.push(p.step(PipelineEvent::Advance));
    actions.push(p.step(PipelineEvent::Persisted { result: Ok(()) }));
    for a in &actions {
        assert!(!matches!(a, PipelineAction::Extract { .. }));
        assert!(!matches!(a, PipelineAction::Infer { .. }));
    }
    assert!(matches!(actions[2], PipelineAction::Persist { .. }));
    assert!(matches!(actions[3], PipelineAction::Stop));
    match p.state {
        PipelineState::Done { response } => assert_eq!(response, ""),
        _ => panic!("expected the pipeline to be done"),
    }
}

#[test]
fn mismatched_event_leaves_state_alone() {
    let mut p = CapturePipeline::new(default_config(), OutputMode::RespondWithAnswer);
    let a = p.step(PipelineEvent::Persisted { result: Ok(()) });
    assert!(matches!(a, PipelineAction::Stop));
    assert!(matches!(p.state, PipelineState::Idle));
}
