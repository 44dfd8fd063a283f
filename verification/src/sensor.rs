use vstd::prelude::*;

verus! {

/// First start byte of every PMS5003 frame, in both directions.
pub const MAGIC1: u8 = 0x42;
/// Second start byte of every PMS5003 frame.
pub const MAGIC2: u8 = 0x4D;
/// Length of a host-to-sensor command frame.
pub const COMMAND_SIZE: usize = 7;
/// Length of the trailing checksum of a command frame.
pub const CHECKSUM_SIZE: usize = 2;
/// Number of bytes the sensor sends after the two start bytes.
pub const PAYLOAD_SIZE: usize = 30;
/// Command byte that switches the sensor between sleep and wake-up.
pub const CMD_SLEEP_WAKE: u8 = 0xe4;

/// The three atmospheric-environment concentrations of one sensor frame, in µg/m³.
#[derive(Copy, Clone, Debug, Default, PartialEq, Eq)]
pub struct PmsReading {
    pub pm1_0_atm: u16,
    pub pm2_5_atm: u16,
    pub pm10_0_atm: u16,
}

/// The big-endian 16-bit value of two bytes.
pub open spec fn be_u16(hi: u8, lo: u8) -> u16 {
    (hi as int * 256 + lo as int) as u16
}

/// The reading that a payload (the bytes after the start bytes) carries.
pub open spec fn spec_reading(payload: Seq<u8>) -> PmsReading {
    PmsReading {
        pm1_0_atm: be_u16(payload[8], payload[9]),
        pm2_5_atm: be_u16(payload[10], payload[11]),
        pm10_0_atm: be_u16(payload[12], payload[13]),
    }
}

impl PmsReading {
    /// Decodes the atmospheric concentrations from a frame payload.
    pub fn from_payload(payload: &[u8; PAYLOAD_SIZE]) -> (r: PmsReading)
        ensures
            r == spec_reading(payload@),
    {
        PmsReading {
            pm1_0_atm: payload[8] as u16 * 256 + payload[9] as u16,
            pm2_5_atm: payload[10] as u16 * 256 + payload[11] as u16,
            pm10_0_atm: payload[12] as u16 * 256 + payload[13] as u16,
        }
    }
}

/// The command frame for `cmd` with argument `data`: start bytes, command,
/// the argument big-endian, and the big-endian sum of the first five bytes.
pub open spec fn spec_command(cmd: u8, data: u16) -> Seq<u8> {
    let hi = (data / 256) as u8;
    let lo = (data % 256) as u8;
    let sum = MAGIC1 as int + MAGIC2 as int + cmd as int + hi as int + lo as int;
    seq![MAGIC1, MAGIC2, cmd, hi, lo, (sum / 256) as u8, (sum % 256) as u8]
}

/// The sum of the `COMMAND_SIZE - CHECKSUM_SIZE` bytes before the checksum,
/// as the sensor checks it.
pub open spec fn command_checksum(frame: Seq<u8>) -> int
    decreases frame.len(),
{
    if frame.len() == 0 {
        0
    } else if frame.len() > (COMMAND_SIZE - CHECKSUM_SIZE) {
        command_checksum(frame.take((COMMAND_SIZE - CHECKSUM_SIZE) as int))
    } else {
        command_checksum(frame.drop_last()) + frame.last() as int
    }
}

/// Builds the command frame that the sensor expects for `cmd` with `data`.
pub fn to_command(cmd: u8, data: u16) -> (frame: [u8; COMMAND_SIZE])
    ensures
        frame@ == spec_command(cmd, data),
        frame@[5] as int * 256 + frame@[6] as int == command_checksum(frame@),
        frame@[3] as int * 256 + frame@[4] as int == data as int,
{
    let hi: u8 = (data / 256) as u8;
    let lo: u8 = (data % 256) as u8;
    let checksum: u16 = MAGIC1 as u16 + MAGIC2 as u16 + cmd as u16 + hi as u16 + lo as u16;
    let frame: [u8; COMMAND_SIZE] = [MAGIC1, MAGIC2, cmd, hi, lo, (checksum / 256) as u8, (checksum % 256) as u8];
    assert(frame@ =~= spec_command(cmd, data));
    proof {
        let f = frame@;
        reveal_with_fuel(command_checksum, 7);
        assert(f.take(5).drop_last() =~= f.take(4));
        assert(f.take(4).drop_last() =~= f.take(3));
        assert(f.take(3).drop_last() =~= f.take(2));
        assert(f.take(2).drop_last() =~= f.take(1));
        assert(f.take(1).drop_last() =~= f.take(0));
        assert(command_checksum(f) == f[0] as int + f[1] as int + f[2] as int + f[3] as int + f[4] as int);
    }
    frame
}

/// The frame that puts the sensor to sleep.
pub fn sleep_command() -> (frame: [u8; COMMAND_SIZE])
    ensures
        frame@ == spec_command(CMD_SLEEP_WAKE, 0),
{
    to_command(CMD_SLEEP_WAKE, 0)
}

/// The frame that wakes the sensor up.
pub fn wake_command() -> (frame: [u8; COMMAND_SIZE])
    ensures
        frame@ == spec_command(CMD_SLEEP_WAKE, 1),
{
    to_command(CMD_SLEEP_WAKE, 1)
}

/// Where the search for a frame start stands.
#[derive(Copy, Clone, Debug, PartialEq, Eq)]
pub enum SyncState {
    /// Looking for the first start byte.
    Searching,
    /// The last byte read was the first start byte.
    SawMagic1,
}

/// What one byte (or a failed read) does to the search for a frame start.
#[derive(Copy, Clone, Debug, PartialEq, Eq)]
pub enum SyncStep {
    /// Go on in the given state.
    Continue(SyncState),
    /// Both start bytes were read: the payload follows.
    Synced,
}

/// The step that `byte` (`None` for a failed read) makes from `state`.
pub open spec fn spec_sync_step(state: SyncState, byte: Option<u8>) -> SyncStep {
    match (state, byte) {
        (SyncState::Searching, Some(b)) =>
            if b == MAGIC1 { SyncStep::Continue(SyncState::SawMagic1) } else { SyncStep::Continue(SyncState::Searching) },
        (SyncState::SawMagic1, Some(b)) =>
            if b == MAGIC2 { SyncStep::Synced } else { SyncStep::Continue(SyncState::Searching) },
        (_, None) => SyncStep::Continue(SyncState::Searching),
    }
}

/// One step of the start-byte search: `byte` is `None` when the read failed.
/// A failed read or an unexpected byte starts the search over; a first start
/// byte read where the second was expected starts it over too.
pub fn sync_step(state: SyncState, byte: Option<u8>) -> (step: SyncStep)
    ensures
        step == spec_sync_step(state, byte),
{
    match (state, byte) {
        (SyncState::Searching, Some(b)) => {
            if b == MAGIC1 {
                SyncStep::Continue(SyncState::SawMagic1)
            } else {
                SyncStep::Continue(SyncState::Searching)
            }
        },
        (SyncState::SawMagic1, Some(b)) => {
            if b == MAGIC2 {
                SyncStep::Synced
            } else {
                SyncStep::Continue(SyncState::Searching)
            }
        },
        (_, None) => SyncStep::Continue(SyncState::Searching),
    }
}


/// A first start byte read while searching, followed by the second start
/// byte, is recognized as a frame start.
pub proof fn lemma_sync_recognizes_start_bytes()
    ensures
        spec_sync_step(SyncState::Searching, Some(MAGIC1)) == SyncStep::Continue(SyncState::SawMagic1),
        spec_sync_step(SyncState::SawMagic1, Some(MAGIC2)) == SyncStep::Synced,
{
}

/// A frame start is only ever recognized right after the two start bytes:
/// the search is in `SawMagic1` only after reading `MAGIC1`, and it syncs
/// only from `SawMagic1` on reading `MAGIC2`.
pub proof fn lemma_sync_sound(state: SyncState, byte: Option<u8>)
    ensures
        spec_sync_step(state, byte) == SyncStep::Synced ==> state == SyncState::SawMagic1 && byte == Some(MAGIC2),
        spec_sync_step(state, byte) == SyncStep::Continue(SyncState::SawMagic1) ==> byte == Some(MAGIC1),
{
}


/// Where the search stands after reading `bytes` from `state`; once synced it
/// stays synced (the reader stops there).
pub open spec fn search_after(state: SyncState, bytes: Seq<u8>) -> SyncStep
    decreases bytes.len(),
{
    if bytes.len() == 0 {
        SyncStep::Continue(state)
    } else {
        match search_after(state, bytes.drop_last()) {
            SyncStep::Synced => SyncStep::Synced,
            SyncStep::Continue(s) => spec_sync_step(s, Some(bytes.last())),
        }
    }
}

/// Bytes that hold no first start byte leave a fresh search where it began.
pub proof fn lemma_noise_keeps_searching(noise: Seq<u8>)
    requires
        forall|i: int| 0 <= i < noise.len() ==> noise[i] != MAGIC1,
    ensures
        search_after(SyncState::Searching, noise) == SyncStep::Continue(SyncState::Searching),
    decreases noise.len(),
{
    if noise.len() > 0 {
        lemma_noise_keeps_searching(noise.drop_last());
    }
}

/// After noise without a first start byte, the search syncs exactly on the
/// two start bytes that follow it, and not one byte earlier: the payload read
/// next is the one after them, whatever the noise was.
pub proof fn lemma_sync_after_noise(noise: Seq<u8>)
    requires
        forall|i: int| 0 <= i < noise.len() ==> noise[i] != MAGIC1,
    ensures
        search_after(SyncState::Searching, noise.push(MAGIC1).push(MAGIC2)) == SyncStep::Synced,
        forall|k: int| 0 <= k <= noise.len() + 1 ==>
            search_after(SyncState::Searching, #[trigger] noise.push(MAGIC1).push(MAGIC2).take(k)) != SyncStep::Synced,
{
    let all = noise.push(MAGIC1).push(MAGIC2);
    lemma_noise_keeps_searching(noise);
    assert(all.drop_last() =~= noise.push(MAGIC1));
    assert(noise.push(MAGIC1).drop_last() =~= noise);
    assert forall|k: int| 0 <= k <= noise.len() + 1 implies
        search_after(SyncState::Searching, #[trigger] all.take(k)) != SyncStep::Synced by {
        if k == noise.len() + 1 {
            assert(all.take(k) =~= noise.push(MAGIC1));
        } else {
            let prefix = noise.take(k);
            assert(all.take(k) =~= prefix);
            lemma_noise_keeps_searching(prefix);
        }
    }
}

} // verus!
