use audio_engine::engine::{EngineError, PianoEngine, TransportRequest, TransportState};
use audio_engine::envelope::{is_valid_frequency, ControlPoint, Interp};
use audio_engine::note::{on_failure, Command, Note, NoteError, OnFailure, Submission};

fn point(time: u64, level: u32, interp: Interp) -> ControlPoint {
    ControlPoint { time, level, interp }
}

fn engine() -> PianoEngine {
    PianoEngine::new(true).unwrap()
}

fn note_at(freq: f32, t0: u64) -> Note {
    engine().play(freq.to_bits(), t0).unwrap()
}

#[test]
fn play_programs_attack_and_decay() {
    let t0: u64 = 1_500_000;
    let mut note = note_at(440.0, t0);
    assert_eq!(f32::from_bits(note.frequency_bits()), 440.0);
    assert_eq!(
        note.schedule(),
        vec![
            point(1_500_000, 0, Interp::Step),
            point(1_520_000, 600_000, Interp::Linear),
            point(1_700_000, 400_000, Interp::Linear),
        ]
    );
    assert_eq!(note.halt_at(), None);
    assert!(!note.is_released());
    assert!(!note.is_disconnected());
    assert_eq!(
        note.take_commands(),
        vec![
            Command::Schedule { point: point(1_500_000, 0, Interp::Step) },
            Command::Schedule { point: point(1_520_000, 600_000, Interp::Linear) },
            Command::Schedule { point: point(1_700_000, 400_000, Interp::Linear) },
            Command::StartSource,
        ]
    );
    assert_eq!(note.take_commands(), vec![]);
    assert_eq!(note.schedule().len(), 3);
}

#[test]
fn play_keeps_any_positive_finite_frequency() {
    for freq in [27.5f32, 880.0, 1.0e-40, f32::MIN_POSITIVE, f32::MAX] {
        let note = note_at(freq, 0);
        assert_eq!(note.frequency_bits(), freq.to_bits());
    }
}

#[test]
fn play_rejects_non_positive_or_non_finite_frequency() {
    let e = engine();
    for freq in [-1.0f32, 0.0, -0.0, f32::NAN, f32::INFINITY, f32::NEG_INFINITY, -f32::MIN_POSITIVE] {
        assert!(!is_valid_frequency(freq.to_bits()));
        assert!(matches!(e.play(freq.to_bits(), 10), Err(EngineError::InvalidFrequency)));
    }
    assert!(!is_valid_frequency(0x7FC0_0001));
    assert!(is_valid_frequency(1));
    assert!(is_valid_frequency(0x7F7F_FFFF));
}

#[test]
fn disconnect_twice_equals_once() {
    let mut note = note_at(440.0, 0);
    note.take_commands();
    note.disconnect();
    assert!(note.is_disconnected());
    assert_eq!(note.take_commands(), vec![Command::DetachGain, Command::DetachSource]);
    let schedule = note.schedule();
    note.disconnect();
    assert!(note.is_disconnected());
    assert_eq!(note.take_commands(), vec![]);
    assert_eq!(note.schedule(), schedule);
}

#[test]
fn stop_mid_decay_drops_sustain_target() {
    let mut note = note_at(440.0, 0);
    note.stop(100_000, 500_000);
    let schedule = note.schedule();
    assert_eq!(
        schedule,
        vec![
            point(0, 0, Interp::Step),
            point(20_000, 600_000, Interp::Linear),
            point(100_000, 500_000, Interp::Step),
            point(300_000, 1_000, Interp::Exponential),
        ]
    );
    assert!(!schedule.contains(&point(200_000, 400_000, Interp::Linear)));
    for p in schedule.iter().filter(|p| p.time > 100_000) {
        assert_eq!(*p, point(300_000, 1_000, Interp::Exponential));
    }
}

#[test]
fn stop_cancels_point_at_its_own_time() {
    let mut note = note_at(440.0, 0);
    note.stop(20_000, 600_000);
    assert_eq!(
        note.schedule(),
        vec![
            point(0, 0, Interp::Step),
            point(20_000, 600_000, Interp::Step),
            point(220_000, 1_000, Interp::Exponential),
        ]
    );
}

#[test]
fn stop_queues_exact_release() {
    let mut note = note_at(220.0, 1_000);
    note.take_commands();
    note.stop(5_000_000, 400_000);
    assert!(note.is_released());
    assert_eq!(note.halt_at(), Some(5_200_000));
    assert_eq!(
        note.take_commands(),
        vec![
            Command::CancelFrom { time: 5_000_000 },
            Command::Schedule { point: point(5_000_000, 400_000, Interp::Step) },
            Command::Schedule { point: point(5_200_000, 1_000, Interp::Exponential) },
            Command::HaltSourceAt { time: 5_200_000 },
        ]
    );
    assert_eq!(
        note.schedule(),
        vec![
            point(1_000, 0, Interp::Step),
            point(21_000, 600_000, Interp::Linear),
            point(201_000, 400_000, Interp::Linear),
            point(5_000_000, 400_000, Interp::Step),
            point(5_200_000, 1_000, Interp::Exponential),
        ]
    );
}

#[test]
fn second_stop_releases_again_from_current_level() {
    let mut note = note_at(440.0, 0);
    note.stop(1_000_000, 400_000);
    note.stop(1_100_000, 20_000);
    assert_eq!(note.halt_at(), Some(1_300_000));
    assert_eq!(
        note.schedule(),
        vec![
            point(0, 0, Interp::Step),
            point(20_000, 600_000, Interp::Linear),
            point(200_000, 400_000, Interp::Linear),
            point(1_000_000, 400_000, Interp::Step),
            point(1_100_000, 20_000, Interp::Step),
            point(1_300_000, 1_000, Interp::Exponential),
        ]
    );
}

#[test]
fn failure_policy_of_each_command() {
    assert_eq!(on_failure(&Command::CancelFrom { time: 3 }), OnFailure::Abort);
    assert_eq!(on_failure(&Command::DetachSource), OnFailure::Ignore);
    assert_eq!(on_failure(&Command::DetachGain), OnFailure::Report);
    assert_eq!(on_failure(&Command::StartSource), OnFailure::Abort);
    assert_eq!(on_failure(&Command::HaltSourceAt { time: 3 }), OnFailure::Abort);
    assert_eq!(
        on_failure(&Command::Schedule { point: point(3, 0, Interp::Step) }),
        OnFailure::Abort
    );
}

#[test]
fn scenario_play_stop_then_disconnect() {
    let e = engine();
    let t0: u64 = 2_000_000;
    let mut note = e.play(440.0f32.to_bits(), t0).unwrap();
    assert_eq!(note.take_commands().len(), 4);
    note.stop(t0, 0);
    assert_eq!(note.halt_at(), Some(t0 + 200_000));
    assert_eq!(note.take_commands().len(), 4);
    note.disconnect();
    assert_eq!(note.take_commands(), vec![Command::DetachGain, Command::DetachSource]);
    assert!(note.is_disconnected());
    assert_eq!(
        note.schedule(),
        vec![
            point(t0, 0, Interp::Step),
            point(t0 + 200_000, 1_000, Interp::Exponential),
        ]
    );
}

#[test]
fn scenario_invalid_then_valid_play() {
    let e = engine();
    assert!(matches!(e.play((-1.0f32).to_bits(), 0), Err(EngineError::InvalidFrequency)));
    let note = e.play(880.0f32.to_bits(), 0).unwrap();
    assert_eq!(f32::from_bits(note.frequency_bits()), 880.0);
    assert!(!e.is_closed());
}

#[test]
fn scenario_resume_running_context() {
    let e = engine();
    assert_eq!(e.resume(TransportState::Running), None);
    assert!(!e.is_closed());
}

#[test]
fn resume_suspended_context() {
    let mut e = engine();
    assert_eq!(e.resume(TransportState::Suspended), Some(TransportRequest::Resume));
    assert_eq!(e.resume(TransportState::Closed), None);
    assert_eq!(e.complete(TransportRequest::Resume, true), Ok(()));
    assert!(!e.is_closed());
}

#[test]
fn new_without_context_fails() {
    assert!(matches!(PianoEngine::new(false), Err(EngineError::ContextUnavailable)));
    assert!(!PianoEngine::new(true).unwrap().is_closed());
}

#[test]
fn refused_transport_request_is_reported() {
    let mut e = engine();
    let request = e.close();
    assert_eq!(request, TransportRequest::Close);
    assert_eq!(e.complete(request, false), Err(EngineError::TransportFailure));
    assert!(!e.is_closed());
    assert_eq!(e.complete(TransportRequest::Resume, false), Err(EngineError::TransportFailure));
    assert_eq!(e.complete(request, true), Ok(()));
    assert!(e.is_closed());
}

#[test]
fn set_volume_changes_nothing() {
    let e = engine();
    e.set_volume(250_000);
    assert!(!e.is_closed());
    let note = e.play(440.0f32.to_bits(), 0).unwrap();
    assert_eq!(note.schedule()[1].level, 600_000);
}

fn run(commands: &[Command], answers: &[bool]) -> (Result<(), audio_engine::note::NoteError>, usize) {
    let mut submission = Submission::new();
    let mut submitted = 0;
    for (command, accepted) in commands.iter().zip(answers) {
        if !submission.proceeds() {
            break;
        }
        submitted += 1;
        submission.record(command, *accepted);
    }
    (submission.result(), submitted)
}

#[test]
fn refused_gain_disconnect_still_detaches_source() {
    let cmds = [Command::DetachGain, Command::DetachSource];
    assert_eq!(run(&cmds, &[false, true]), (Err(NoteError::SchedulingFailure), 2));
    assert_eq!(run(&cmds, &[false, false]), (Err(NoteError::SchedulingFailure), 2));
    assert_eq!(run(&cmds, &[true, false]), (Ok(()), 2));
    assert_eq!(run(&cmds, &[true, true]), (Ok(()), 2));
}

#[test]
fn refused_schedule_stops_release() {
    let mut note = note_at(440.0, 0);
    note.take_commands();
    note.stop(50_000, 300_000);
    let cmds = note.take_commands();
    assert_eq!(run(&cmds, &[false, true, true, true]), (Err(NoteError::SchedulingFailure), 1));
    assert_eq!(run(&cmds, &[true, true, true, true]), (Ok(()), 4));
    assert_eq!(run(&cmds, &[true, false, true, true]), (Err(NoteError::SchedulingFailure), 2));
    assert_eq!(run(&cmds, &[true, true, true, false]), (Err(NoteError::SchedulingFailure), 4));
}

#[test]
fn refused_start_instruction_fails_play() {
    let mut note = note_at(440.0, 0);
    let cmds = note.take_commands();
    assert_eq!(run(&cmds, &[true, true, true, true]), (Ok(()), 4));
    assert_eq!(run(&cmds, &[false, true, true, true]), (Err(NoteError::SchedulingFailure), 1));
    assert_eq!(run(&cmds, &[true, true, true, false]), (Err(NoteError::SchedulingFailure), 4));
}
