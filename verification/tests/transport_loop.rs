use redgear_a15::template::template;
use redgear_a15::transport::run_with_outcomes;
use redgear_a15::transport::TransportLoop;
use redgear_a15::transport::TransportPhase;
use redgear_a15::transport::TransportStatus;

#[test]
fn clean_run_completes_without_warnings() {
    let frames = template();
    let write_ok = vec![true; 48];
    let read_ok = vec![true; 48];
    let report = run_with_outcomes(frames, &write_ok, &read_ok);
    assert_eq!(report.frames_attempted, 48);
    assert!(report.write_failures.is_empty());
    assert!(report.read_failures.is_empty());
    assert_eq!(report.status, TransportStatus::Completed);
}

#[test]
fn write_failure_continues_with_the_rest() {
    let frames = template();
    let mut write_ok = vec![true; 48];
    write_ok[2] = false;
    let read_ok = vec![true; 48];
    let report = run_with_outcomes(frames, &write_ok, &read_ok);
    assert_eq!(report.frames_attempted, 48);
    assert_eq!(report.write_failures, vec![2]);
    assert!(report.read_failures.is_empty());
    assert_eq!(report.status, TransportStatus::CompletedWithWarnings);
}

#[test]
fn read_failure_is_recorded_but_never_fatal() {
    let frames = template();
    let write_ok = vec![true; 48];
    let mut read_ok = vec![true; 48];
    read_ok[5] = false;
    let report = run_with_outcomes(frames, &write_ok, &read_ok);
    assert_eq!(report.frames_attempted, 48);
    assert!(report.write_failures.is_empty());
    assert_eq!(report.read_failures, vec![5]);
    assert_eq!(report.status, TransportStatus::CompletedWithWarnings);
}

#[test]
fn failed_write_skips_that_frames_read_back() {
    let frames = template();
    let mut write_ok = vec![true; 48];
    write_ok[2] = false;
    let mut read_ok = vec![true; 48];
    read_ok[2] = false;
    let report = run_with_outcomes(frames, &write_ok, &read_ok);
    assert_eq!(report.write_failures, vec![2]);
    assert!(report.read_failures.is_empty());
}

#[test]
fn several_failures_are_all_recorded_in_order() {
    let frames = template();
    let mut write_ok = vec![true; 48];
    write_ok[0] = false;
    write_ok[40] = false;
    let mut read_ok = vec![true; 48];
    read_ok[1] = false;
    read_ok[47] = false;
    let report = run_with_outcomes(frames, &write_ok, &read_ok);
    assert_eq!(report.frames_attempted, 48);
    assert_eq!(report.write_failures, vec![0, 40]);
    assert_eq!(report.read_failures, vec![1, 47]);
    assert_eq!(report.status, TransportStatus::CompletedWithWarnings);
}

#[test]
fn machine_walks_send_settle_read_for_each_frame() {
    let frames = template();
    let mut machine = TransportLoop::new(frames);
    assert_eq!(machine.phase, TransportPhase::Sending);
    assert_eq!(machine.current_frame().bytes[0], 0x04);
    machine.on_write_result(true);
    assert_eq!(machine.phase, TransportPhase::Settling);
    machine.on_settled();
    assert_eq!(machine.phase, TransportPhase::ReadingBack);
    machine.on_read_result(true);
    assert_eq!(machine.phase, TransportPhase::Sending);
    assert_eq!(machine.pos, 1);
    machine.on_write_result(false);
    assert_eq!(machine.phase, TransportPhase::Sending);
    assert_eq!(machine.pos, 2);
    assert_eq!(machine.write_failures, vec![1]);
}

#[test]
fn empty_sequence_is_done_at_once() {
    let frames = redgear_a15::frame::FrameSequence { frames: Vec::new() };
    let machine = TransportLoop::new(frames);
    assert_eq!(machine.phase, TransportPhase::Done);
    let report = machine.report();
    assert_eq!(report.frames_attempted, 0);
    assert_eq!(report.status, TransportStatus::Completed);
}
