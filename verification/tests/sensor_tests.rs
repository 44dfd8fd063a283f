use aqi_monitor::{sleep_command, sync_step, to_command, wake_command, PmsReading, SyncState, SyncStep, MAGIC1, MAGIC2};

#[test]
fn sleep_command_bytes() {
    assert_eq!(sleep_command(), [0x42, 0x4D, 0xE4, 0x00, 0x00, 0x01, 0x73]);
}

#[test]
fn wake_command_bytes() {
    assert_eq!(wake_command(), [0x42, 0x4D, 0xE4, 0x00, 0x01, 0x01, 0x74]);
}

#[test]
fn command_checksum_is_sum_of_first_five_bytes() {
    let frame = to_command(0xe2, 0xABCD);
    assert_eq!(&frame[..5], &[0x42, 0x4D, 0xE2, 0xAB, 0xCD]);
    let sum: u16 = frame[..5].iter().map(|b| *b as u16).sum();
    assert_eq!(sum, 0x42 + 0x4D + 0xE2 + 0xAB + 0xCD);
    assert_eq!(u16::from_be_bytes([frame[5], frame[6]]), sum);
}

#[test]
fn payload_decodes_atmospheric_values() {
    let mut payload = [0u8; 30];
    payload[2] = 0xFF; // standard-particle values are not the atmospheric ones
    payload[8] = 0x00;
    payload[9] = 0x07;
    payload[10] = 0x01;
    payload[11] = 0x2C;
    payload[12] = 0xAB;
    payload[13] = 0xCD;
    let r = PmsReading::from_payload(&payload);
    assert_eq!(r, PmsReading { pm1_0_atm: 7, pm2_5_atm: 300, pm10_0_atm: 0xABCD });
}

fn run(bytes: &[Option<u8>]) -> Vec<SyncStep> {
    let mut state = SyncState::Searching;
    let mut out = Vec::new();
    for b in bytes {
        let step = sync_step(state, *b);
        out.push(step);
        if let SyncStep::Continue(s) = step {
            state = s;
        } else {
            state = SyncState::Searching;
        }
    }
    out
}

#[test]
fn sync_finds_start_bytes_after_noise() {
    let steps = run(&[Some(0x00), Some(MAGIC1), Some(MAGIC2)]);
    assert_eq!(steps[2], SyncStep::Synced);
    assert_eq!(steps[1], SyncStep::Continue(SyncState::SawMagic1));
}

#[test]
fn sync_restarts_on_failed_read() {
    let steps = run(&[Some(MAGIC1), None, Some(MAGIC2)]);
    assert_eq!(steps[1], SyncStep::Continue(SyncState::Searching));
    assert_eq!(steps[2], SyncStep::Continue(SyncState::Searching));
}

#[test]
fn sync_repeated_first_byte_starts_over() {
    let steps = run(&[Some(MAGIC1), Some(MAGIC1), Some(MAGIC2)]);
    assert_eq!(steps[1], SyncStep::Continue(SyncState::Searching));
    assert_eq!(steps[2], SyncStep::Continue(SyncState::Searching));
}

#[test]
fn sync_skips_noise_without_first_start_byte() {
    let noise: Vec<Option<u8>> = (0u8..=255).filter(|b| *b != MAGIC1).map(Some).collect();
    let mut bytes = noise.clone();
    bytes.push(Some(MAGIC1));
    bytes.push(Some(MAGIC2));
    let steps = run(&bytes);
    let first_sync = steps.iter().position(|s| *s == SyncStep::Synced).unwrap();
    assert_eq!(first_sync, noise.len() + 1);
}
