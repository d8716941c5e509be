use fusion_kbd::codes::{Color, Preset};
use fusion_kbd::protocol::{
    apply_preset_cmds, activate_custom_cmds, assemble_chunks, close_steps, download_custom_cmds,
    open_steps, poll_key_cmd, poll_key_decide, upload_custom_cmds, HandleStep, KbdError,
    TransferCmd,
};

fn sample_config() -> Vec<u8> {
    let mut data: Vec<u8> = Vec::new();
    let mut i: usize = 0;
    while i < 512 {
        data.push(((i * 7 + 3) % 256) as u8);
        i += 1;
    }
    data
}

#[test]
fn apply_preset_wave_exact_header() {
    let cmds = apply_preset_cmds(Preset::Wave, 5, 20, Color::Blue);
    assert_eq!(cmds.len(), 1);
    match &cmds[0] {
        TransferCmd::ControlOut { request_type, request, value, index, data, timeout_ms } => {
            assert_eq!(*request_type, 0x21);
            assert_eq!(*request, 0x09);
            assert_eq!(*value, 0x0300);
            assert_eq!(*index, 0x0003);
            assert_eq!(*timeout_ms, 0);
            assert_eq!(data, &vec![0x08, 0, 0x03, 5, 20, 4, 0, 215]);
        }
        other => panic!("expected a control write, got {:?}", other),
    }
}

#[test]
fn request_type_byte_matches_transport() {
    let cmds = apply_preset_cmds(Preset::Static, 0, 0, Color::Rand);
    let rt = match &cmds[0] {
        TransferCmd::ControlOut { request_type, .. } => *request_type,
        other => panic!("expected a control write, got {:?}", other),
    };
    let expected = rusb::request_type(
        rusb::Direction::Out,
        rusb::RequestType::Class,
        rusb::Recipient::Interface,
    );
    assert_eq!(rt, expected);

    let cmds = download_custom_cmds(0).unwrap();
    let rt_in = match &cmds[1] {
        TransferCmd::ControlIn { request_type, .. } => *request_type,
        other => panic!("expected a control read, got {:?}", other),
    };
    let expected_in = rusb::request_type(
        rusb::Direction::In,
        rusb::RequestType::Class,
        rusb::Recipient::Interface,
    );
    assert_eq!(rt_in, expected_in);
}

#[test]
fn activate_custom_slot_two_header() {
    let cmds = activate_custom_cmds(2, 30).unwrap();
    assert_eq!(cmds.len(), 1);
    match &cmds[0] {
        TransferCmd::ControlOut { data, .. } => {
            assert_eq!(data[2], 0x33 + 2);
            assert_eq!(data, &vec![0x08, 0, 0x35, 0, 30, 0, 0, 164]);
        }
        other => panic!("expected a control write, got {:?}", other),
    }
}

#[test]
fn out_of_range_slots_rejected() {
    let data = sample_config();
    assert_eq!(upload_custom_cmds(5, &data).unwrap_err(), KbdError::PreconditionViolation);
    assert_eq!(upload_custom_cmds(255, &data).unwrap_err(), KbdError::PreconditionViolation);
    assert_eq!(download_custom_cmds(5).unwrap_err(), KbdError::PreconditionViolation);
    assert_eq!(download_custom_cmds(9).unwrap_err(), KbdError::PreconditionViolation);
    assert_eq!(activate_custom_cmds(5, 10).unwrap_err(), KbdError::PreconditionViolation);
    assert!(activate_custom_cmds(4, 10).is_ok());
    assert!(download_custom_cmds(4).is_ok());
    assert!(upload_custom_cmds(4, &data).is_ok());
}

#[test]
fn upload_plan_shape() {
    let data = sample_config();
    let cmds = upload_custom_cmds(1, &data).unwrap();
    assert_eq!(cmds.len(), 9);
    match &cmds[0] {
        TransferCmd::ControlOut { data: header, .. } => {
            assert_eq!(header, &vec![0x12, 0, 1, 8, 0, 0, 0, 228]);
        }
        other => panic!("expected a control write, got {:?}", other),
    }
    for i in 0..8 {
        match &cmds[i + 1] {
            TransferCmd::InterruptOut { endpoint, data: chunk, timeout_ms } => {
                assert_eq!(*endpoint, 0x06);
                assert_eq!(*timeout_ms, 0);
                assert_eq!(chunk.len(), 64);
                assert_eq!(&chunk[..], &data[i * 64..(i + 1) * 64]);
            }
            other => panic!("expected an interrupt write, got {:?}", other),
        }
    }
}

#[test]
fn download_plan_shape() {
    let cmds = download_custom_cmds(0).unwrap();
    assert_eq!(cmds.len(), 10);
    match &cmds[0] {
        TransferCmd::ControlOut { data: header, .. } => {
            assert_eq!(header, &vec![0x92, 0, 0, 0, 0, 0, 0, 109]);
        }
        other => panic!("expected a control write, got {:?}", other),
    }
    match &cmds[1] {
        TransferCmd::ControlIn { request, value, index, len, timeout_ms, .. } => {
            assert_eq!(*request, 0x01);
            assert_eq!(*value, 0x0300);
            assert_eq!(*index, 0x0003);
            assert_eq!(*len, 8);
            assert_eq!(*timeout_ms, 0);
        }
        other => panic!("expected a control read, got {:?}", other),
    }
    for cmd in &cmds[2..] {
        match cmd {
            TransferCmd::InterruptIn { endpoint, len, timeout_ms } => {
                assert_eq!(*endpoint, 0x85);
                assert_eq!(*len, 64);
                assert_eq!(*timeout_ms, 0);
            }
            other => panic!("expected an interrupt read, got {:?}", other),
        }
    }
}

#[test]
fn upload_then_download_round_trips() {
    // A transport that records the uploaded chunks and replays them as the
    // download reads hands back exactly the uploaded configuration.
    let data = sample_config();
    let cmds = upload_custom_cmds(3, &data).unwrap();
    let mut recorded: Vec<Vec<u8>> = Vec::new();
    for cmd in &cmds[1..] {
        match cmd {
            TransferCmd::InterruptOut { data: chunk, .. } => recorded.push(chunk.clone()),
            other => panic!("expected an interrupt write, got {:?}", other),
        }
    }
    assert_eq!(recorded.len(), 8);
    let out = assemble_chunks(&recorded);
    assert_eq!(out, data);
}

#[test]
fn poll_key_transfer_shape() {
    match poll_key_cmd() {
        TransferCmd::InterruptIn { endpoint, len, timeout_ms } => {
            assert_eq!(endpoint, 0x81);
            assert_eq!(len, 8);
            assert_eq!(timeout_ms, 10);
        }
        other => panic!("expected an interrupt read, got {:?}", other),
    }
}

#[test]
fn poll_key_error_means_no_key() {
    // A timed-out or failed transfer leaves the zeroed buffer untouched and
    // is reported as "no key pressed", never as a failure.
    let buf = vec![0u8; 8];
    assert_eq!(poll_key_decide(false, &buf), None);
    let mut nonzero = vec![0u8; 8];
    nonzero[2] = 0x04;
    assert_eq!(poll_key_decide(false, &nonzero), None);
}

#[test]
fn poll_key_reads_byte_two() {
    let mut buf = vec![0u8; 8];
    assert_eq!(poll_key_decide(true, &buf), None);
    buf[2] = 0x1e;
    assert_eq!(poll_key_decide(true, &buf), Some('a'));
}

#[test]
fn teardown_releases_three_before_zero_then_reattaches() {
    let steps = close_steps();
    assert_eq!(
        steps,
        vec![
            HandleStep::ReleaseInterface(3),
            HandleStep::ReleaseInterface(0),
            HandleStep::AttachDriver(0),
            HandleStep::AttachDriver(3),
        ]
    );
}

#[test]
fn open_detaches_only_bound_drivers() {
    assert_eq!(
        open_steps(true, true),
        vec![
            HandleStep::DetachDriver(0),
            HandleStep::ClaimInterface(0),
            HandleStep::DetachDriver(3),
            HandleStep::ClaimInterface(3),
        ]
    );
    assert_eq!(
        open_steps(false, false),
        vec![HandleStep::ClaimInterface(0), HandleStep::ClaimInterface(3)]
    );
    assert_eq!(
        open_steps(false, true),
        vec![
            HandleStep::ClaimInterface(0),
            HandleStep::DetachDriver(3),
            HandleStep::ClaimInterface(3),
        ]
    );
}
