use boxupdater::drive::DriveHandle;
use boxupdater::flash::{
    FlashError, FlashEvent, FlashMode, FlashOrchestrator, FlashState, Image, Next, Step,
    DISCONNECT_PAUSE_MILLIS, DISCONNECT_POLL_LIMIT, RECONNECT_PAUSE_MILLIS, RECONNECT_POLL_LIMIT,
    SETTLE_MILLIS,
};

fn present() -> FlashEvent {
    FlashEvent::Probed(Some(DriveHandle { path: "/media/kim/RPI-RP2".to_string() }))
}

fn absent() -> FlashEvent {
    FlashEvent::Probed(None)
}

fn written() -> FlashEvent {
    FlashEvent::Written(Ok(()))
}

fn probe_after(pause_millis: u64) -> Step {
    Step { pause_millis, action: Next::Probe }
}

fn finish_after(pause_millis: u64, result: Result<(), FlashError>) -> Step {
    Step { pause_millis, action: Next::Finish(result) }
}

/// Feeds `events` to a new operation and returns every instruction given,
/// the first one included.
fn run(mode: FlashMode, events: Vec<FlashEvent>) -> (FlashOrchestrator, Vec<Step>) {
    let (mut flash, first) = FlashOrchestrator::begin(mode);
    let mut steps = vec![first];
    for event in events {
        assert!(flash.accepts(&event));
        steps.push(flash.advance(event));
    }
    (flash, steps)
}

fn writes(steps: &[Step]) -> usize {
    steps.iter().filter(|s| matches!(s.action, Next::Write { .. })).count()
}

fn total_pause(steps: &[Step]) -> u64 {
    steps.iter().map(|s| s.pause_millis).sum()
}

#[test]
fn limits_and_pauses() {
    assert_eq!(DISCONNECT_PAUSE_MILLIS, 500);
    assert_eq!(DISCONNECT_POLL_LIMIT, 20);
    assert_eq!(RECONNECT_PAUSE_MILLIS, 100);
    assert_eq!(RECONNECT_POLL_LIMIT, 100);
    assert_eq!(SETTLE_MILLIS, 500);
}

#[test]
fn request_selects_the_operation() {
    assert_eq!(FlashMode::select(true, true), Some(FlashMode::Erase));
    assert_eq!(FlashMode::select(true, false), Some(FlashMode::Erase));
    assert_eq!(FlashMode::select(false, true), Some(FlashMode::Install));
    assert_eq!(FlashMode::select(false, false), None);
}

#[test]
fn each_operation_writes_its_own_file() {
    assert_eq!(FlashMode::Erase.image(), Image::Nuke);
    assert_eq!(FlashMode::Install.image(), Image::Firmware);
    assert_eq!(Image::Nuke.file_name(), "flash_nuke.uf2");
    assert_eq!(Image::Firmware.file_name(), "firmware.uf2");
}

#[test]
fn operation_begins_with_a_probe() {
    let (flash, first) = FlashOrchestrator::begin(FlashMode::Install);
    assert_eq!(flash.state, FlashState::Locating);
    assert_eq!(flash.mode, FlashMode::Install);
    assert_eq!(first, probe_after(0));
    assert!(!flash.is_done());
}

#[test]
fn install_without_a_volume_fails_unwritten() {
    let (flash, steps) = run(FlashMode::Install, vec![absent()]);
    assert_eq!(steps, vec![probe_after(0), finish_after(0, Err(FlashError::DeviceNotFound))]);
    assert_eq!(writes(&steps), 0);
    assert!(flash.is_done());
}

#[test]
fn erase_without_a_volume_fails_unwritten() {
    let (flash, steps) = run(FlashMode::Erase, vec![absent()]);
    assert_eq!(steps.last(), Some(&finish_after(0, Err(FlashError::DeviceNotFound))));
    assert_eq!(writes(&steps), 0);
    assert!(flash.is_done());
}

#[test]
fn write_goes_to_the_volume_that_was_found() {
    let (flash, steps) = run(
        FlashMode::Install,
        vec![FlashEvent::Probed(Some(DriveHandle { path: "F:\\".to_string() }))],
    );
    assert_eq!(
        steps[1],
        Step {
            pause_millis: 0,
            action: Next::Write {
                volume: DriveHandle { path: "F:\\".to_string() },
                image: Image::Firmware
            }
        }
    );
    assert_eq!(flash.state, FlashState::Writing);
    let (_, erase_steps) = run(FlashMode::Erase, vec![present()]);
    assert!(matches!(erase_steps[1].action, Next::Write { image: Image::Nuke, .. }));
}

#[test]
fn failed_write_ends_the_operation() {
    let (flash, steps) =
        run(FlashMode::Install, vec![present(), FlashEvent::Written(Err("disk full".to_string()))]);
    let expected =
        FlashError::WriteFailed { image: Image::Firmware, detail: "disk full".to_string() };
    assert_eq!(steps.last(), Some(&finish_after(0, Err(expected))));
    assert!(flash.is_done());
    assert_eq!(steps.len(), 3);
}

#[test]
fn install_ends_when_the_volume_is_gone() {
    let (flash, steps) = run(FlashMode::Install, vec![present(), written(), absent()]);
    assert_eq!(steps[2], probe_after(0));
    assert_eq!(steps[3], finish_after(0, Ok(())));
    assert!(flash.is_done());
    assert_eq!(total_pause(&steps), 0);
}

#[test]
fn install_waits_while_the_volume_stays() {
    let (flash, steps) =
        run(FlashMode::Install, vec![present(), written(), present(), present(), present(), absent()]);
    assert_eq!(&steps[3..6], &[probe_after(500), probe_after(500), probe_after(500)]);
    assert_eq!(steps[6], finish_after(0, Ok(())));
    assert!(flash.is_done());
    assert_eq!(total_pause(&steps), 1_500);
}

#[test]
fn volume_that_stays_for_twenty_probes_times_out() {
    for mode in [FlashMode::Install, FlashMode::Erase] {
        let mut events = vec![present(), written()];
        events.extend((0..20).map(|_| present()));
        let (flash, steps) = run(mode, events);
        assert!(flash.is_done());
        assert_eq!(steps.len(), 23);
        for step in &steps[3..22] {
            assert_eq!(*step, probe_after(500));
        }
        assert_eq!(steps[22], finish_after(500, Err(FlashError::DeviceDidNotDisconnect)));
        assert_eq!(total_pause(&steps), 10_000);
        assert_eq!(writes(&steps), 1);
    }
}

#[test]
fn volume_that_leaves_at_the_last_probe_is_in_time() {
    let mut events = vec![present(), written()];
    events.extend((0..19).map(|_| present()));
    events.push(absent());
    let (flash, steps) = run(FlashMode::Install, events);
    assert!(flash.is_done());
    assert_eq!(steps.last(), Some(&finish_after(0, Ok(()))));
    assert_eq!(total_pause(&steps), 9_500);
}

#[test]
fn waiting_state_counts_the_probes() {
    let (flash, _) = run(FlashMode::Erase, vec![present(), written(), present(), present()]);
    assert_eq!(flash.state, FlashState::AwaitingDisconnect { polls: 2 });
    assert_eq!(flash.mode, FlashMode::Erase);
}

#[test]
fn erase_waits_for_the_volume_to_return() {
    let events = vec![present(), written(), present(), absent(), absent(), absent(), absent(), present()];
    let (flash, steps) = run(FlashMode::Erase, events);
    assert_eq!(
        steps,
        vec![
            probe_after(0),
            Step {
                pause_millis: 0,
                action: Next::Write {
                    volume: DriveHandle { path: "/media/kim/RPI-RP2".to_string() },
                    image: Image::Nuke
                }
            },
            probe_after(0),
            probe_after(500),
            probe_after(0),
            probe_after(0),
            probe_after(100),
            probe_after(100),
            finish_after(500, Ok(())),
        ]
    );
    assert!(flash.is_done());
}

#[test]
fn erase_makes_sure_the_volume_is_gone_first() {
    let events = vec![present(), written(), absent(), present(), present(), absent(), present()];
    let (flash, steps) = run(FlashMode::Erase, events);
    assert_eq!(steps[3], probe_after(0));
    assert_eq!(steps[4], probe_after(100));
    assert_eq!(steps[5], probe_after(100));
    assert_eq!(steps[6], probe_after(0));
    assert_eq!(steps[7], finish_after(500, Ok(())));
    assert!(flash.is_done());
}

#[test]
fn volume_that_misses_a_hundred_probes_times_out() {
    let mut events = vec![present(), written(), absent(), absent()];
    events.extend((0..100).map(|_| absent()));
    let (flash, steps) = run(FlashMode::Erase, events);
    assert!(flash.is_done());
    assert_eq!(steps.len(), 105);
    for step in &steps[5..104] {
        assert_eq!(*step, probe_after(100));
    }
    assert_eq!(steps[104], finish_after(100, Err(FlashError::DeviceDidNotReconnect)));
    assert_eq!(total_pause(&steps), 10_000);
}

#[test]
fn volume_that_returns_at_the_last_probe_is_in_time() {
    let mut events = vec![present(), written(), absent(), absent()];
    events.extend((0..99).map(|_| absent()));
    events.push(present());
    let (flash, steps) = run(FlashMode::Erase, events);
    assert!(flash.is_done());
    assert_eq!(steps.last(), Some(&finish_after(500, Ok(()))));
    assert_eq!(total_pause(&steps), 9_900 + 500);
}

#[test]
fn each_state_waits_for_its_own_report() {
    let (flash, _) = run(FlashMode::Install, vec![]);
    assert!(flash.accepts(&present()));
    assert!(flash.accepts(&absent()));
    assert!(!flash.accepts(&written()));
    let (flash, _) = run(FlashMode::Install, vec![present()]);
    assert!(flash.accepts(&written()));
    assert!(flash.accepts(&FlashEvent::Written(Err("x".to_string()))));
    assert!(!flash.accepts(&present()));
    let (flash, _) = run(FlashMode::Install, vec![present(), written()]);
    assert!(flash.accepts(&absent()));
    assert!(!flash.accepts(&written()));
    let (flash, _) = run(FlashMode::Install, vec![absent()]);
    assert!(!flash.accepts(&absent()));
    assert!(!flash.accepts(&written()));
}

#[test]
fn flash_error_messages() {
    assert_eq!(FlashError::DeviceNotFound.message(), "RPI-RP2 drive not found");
    assert_eq!(
        FlashError::WriteFailed { image: Image::Nuke, detail: "denied".to_string() }.message(),
        "Failed to write flash_nuke.uf2: denied"
    );
    assert_eq!(
        FlashError::WriteFailed { image: Image::Firmware, detail: "denied".to_string() }.message(),
        "Failed to write firmware: denied"
    );
    assert_eq!(
        FlashError::DeviceDidNotDisconnect.message(),
        "Device did not disconnect after flashing"
    );
    assert_eq!(
        FlashError::DeviceDidNotReconnect.message(),
        "Timeout waiting for device to reconnect"
    );
}
