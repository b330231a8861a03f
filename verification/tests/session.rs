use volca_syro::prepare_syrodata;
use volca_syro::EncodeSession;
use volca_syro::EnginePhase;
use volca_syro::EngineStatus;
use volca_syro::SyroError;

/// Drives a whole session over a scripted list of engine frame results,
/// the way an unverified caller would drive it against the real engine.
fn run_scripted(
    frame_count: u32,
    frames: &[(EngineStatus, i16, i16)],
    end_status: EngineStatus,
) -> Result<Vec<i16>, SyroError> {
    let mut session = EncodeSession::start(EngineStatus::Success, frame_count)?;
    let mut next: usize = 0;
    while session.needs_frame() {
        let (status, left, right) = frames[next];
        next += 1;
        session = session.push_frame(status, left, right)?;
    }
    session.finish(end_status)
}

#[test]
fn full_session_produces_interleaved_output() {
    let frames = [
        (EngineStatus::Success, 1, -1),
        (EngineStatus::Success, 2, -2),
        (EngineStatus::Success, 3, -3),
    ];
    let output = run_scripted(3, &frames, EngineStatus::Success).unwrap();
    assert_eq!(output, vec![1, -1, 2, -2, 3, -3]);
    assert_eq!(output.len(), 2 * 3);
}

#[test]
fn start_failure_reports_phase_and_status() {
    let result = EncodeSession::start(EngineStatus::Failure(7), 5);
    assert_eq!(
        result.unwrap_err(),
        SyroError::VolcaSampleOp(EnginePhase::Start, 7)
    );
}

#[test]
fn pull_failure_aborts_without_partial_output() {
    let frames = [
        (EngineStatus::Success, 1, -1),
        (EngineStatus::Failure(42), 0, 0),
        (EngineStatus::Success, 3, -3),
    ];
    let result = run_scripted(3, &frames, EngineStatus::Success);
    assert_eq!(
        result.unwrap_err(),
        SyroError::VolcaSampleOp(EnginePhase::GetSample, 42)
    );
}

#[test]
fn finish_failure_withholds_the_output() {
    let frames = [(EngineStatus::Success, 9, 9)];
    let result = run_scripted(1, &frames, EngineStatus::Failure(3));
    assert_eq!(
        result.unwrap_err(),
        SyroError::VolcaSampleOp(EnginePhase::End, 3)
    );
}

#[test]
fn zero_frame_session_yields_empty_output() {
    let output = run_scripted(0, &[], EngineStatus::Success).unwrap();
    assert!(output.is_empty());
}

#[test]
fn needs_frame_counts_down_to_completion() {
    let mut session = EncodeSession::start(EngineStatus::Success, 2).unwrap();
    assert!(session.needs_frame());
    session = session.push_frame(EngineStatus::Success, 0, 0).unwrap();
    assert!(session.needs_frame());
    session = session.push_frame(EngineStatus::Success, 0, 0).unwrap();
    assert!(!session.needs_frame());
    assert!(session.finish(EngineStatus::Success).is_ok());
}

#[test]
fn identical_runs_are_deterministic() {
    let audio: [i16; 4] = [10, -20, 30, -40];
    let frames = [
        (EngineStatus::Success, 5, 6),
        (EngineStatus::Success, -7, 8),
    ];
    let descriptor_a = prepare_syrodata(&audio, 44100, 0).unwrap();
    let descriptor_b = prepare_syrodata(&audio, 44100, 0).unwrap();
    assert_eq!(descriptor_a.data, descriptor_b.data);
    let output_a = run_scripted(2, &frames, EngineStatus::Success).unwrap();
    let output_b = run_scripted(2, &frames, EngineStatus::Success).unwrap();
    assert_eq!(output_a, output_b);
}
