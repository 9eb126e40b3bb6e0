//! The sensor acquisition protocol: the fixed 8-byte command frames, the
//! firmware handshake, validity checking of sample buffers, and decoding of
//! the signed big-endian fixed-point temperature samples.

use vstd::prelude::*;

verus! {

broadcast use vstd::array::group_array_axioms;

/// Centi-degrees Celsius encoded by two bytes, high byte first, as a
/// two's-complement signed 16-bit value.
pub open spec fn temp_centi(b2: u8, b3: u8) -> int {
    if b2 >= 0x80 {
        (b2 as int) * 256 + (b3 as int) - 0x10000
    } else {
        (b2 as int) * 256 + (b3 as int)
    }
}

/// Decodes one temperature sample from the two payload bytes of a response
/// buffer: a signed 16-bit big-endian integer counting centi-degrees Celsius.
/// The sign bit is preserved, so sub-zero readings decode correctly.
pub fn decode_centi(b2: u8, b3: u8) -> (t: i16)
    ensures
        t as int == temp_centi(b2, b3),
{
    let word: u16 = (b2 as u16) * 256 + (b3 as u16);
    if word >= 0x8000 {
        let mag: u16 = 0xffff - word;
        -(mag as i16) - 1
    } else {
        word as i16
    }
}

/// A response buffer carries a usable sample exactly when its status byte is
/// 0x80 and its payload bytes are not the disconnected-probe sentinel.
pub open spec fn sample_ok(buf: Seq<u8>) -> bool {
    &&& buf[0] == 0x80
    &&& !(buf[2] == 0x4e && buf[3] == 0x20)
}

/// Validity check for one sample buffer: rejects a bad status byte and the
/// device-defined disconnected-probe sentinel pattern.
pub fn sample_valid(buf: &[u8; 8]) -> (ok: bool)
    ensures
        ok == sample_ok(buf@),
{
    buf[0] == 0x80 && !(buf[2] == 0x4e && buf[3] == 0x20)
}

/// The firmware tag the device must report: the eight ASCII bytes of
/// `TEMPer2_`.
pub open spec fn expected_firmware() -> Seq<u8> {
    seq![0x54u8, 0x45u8, 0x4du8, 0x50u8, 0x65u8, 0x72u8, 0x32u8, 0x5fu8]
}

/// Exact byte-for-byte comparison of a firmware response against the
/// expected tag; case and whitespace both count.
pub fn firmware_matches(buf: &[u8; 8]) -> (ok: bool)
    ensures
        ok == (buf@ == expected_firmware()),
{
    let ok = buf[0] == 0x54 && buf[1] == 0x45 && buf[2] == 0x4d && buf[3] == 0x50
        && buf[4] == 0x65 && buf[5] == 0x72 && buf[6] == 0x32 && buf[7] == 0x5f;
    proof {
        if ok {
            assert(buf@ =~= expected_firmware());
        }
    }
    ok
}

/// The command frame that asks the device for its firmware tag.
pub open spec fn firmware_query_frame() -> Seq<u8> {
    seq![0x01u8, 0x86u8, 0xffu8, 0x01u8, 0u8, 0u8, 0u8, 0u8]
}

/// The command frame that triggers a sample read.
pub open spec fn sample_trigger_frame() -> Seq<u8> {
    seq![0x01u8, 0x80u8, 0x33u8, 0x01u8, 0u8, 0u8, 0u8, 0u8]
}

/// Builds the firmware-query command frame.
pub fn firmware_query_command() -> (c: [u8; 8])
    ensures
        c@ == firmware_query_frame(),
{
    let c: [u8; 8] = [0x01, 0x86, 0xff, 0x01, 0, 0, 0, 0];
    proof {
        assert(c@ =~= firmware_query_frame());
    }
    c
}

/// Builds the sample-trigger command frame.
pub fn sample_trigger_command() -> (c: [u8; 8])
    ensures
        c@ == sample_trigger_frame(),
{
    let c: [u8; 8] = [0x01, 0x80, 0x33, 0x01, 0, 0, 0, 0];
    proof {
        assert(c@ =~= sample_trigger_frame());
    }
    c
}

/// One successful acquisition: both probes' samples in centi-degrees
/// Celsius. Produced fresh each poll cycle; nothing is kept across cycles.
#[derive(Clone, Copy, Debug, PartialEq, Eq, Structural)]
pub struct TemperaturePair {
    /// The aquarium ("inside") probe, centi-degrees Celsius.
    pub inside_centi: i16,
    /// The room ("outside") probe, centi-degrees Celsius.
    pub outside_centi: i16,
}

/// Everything one acquisition can fail with. All variants are per-cycle
/// conditions: the next poll retries the full sequence from scratch.
#[derive(Clone, Copy, Debug, PartialEq, Eq)]
pub enum SensorError {
    /// No attached device matched the fixed identity.
    DeviceNotFound,
    /// A device matched but could not be opened.
    DeviceOpenFailed,
    /// The handshake returned a tag other than the expected one; carries the
    /// eight bytes the device actually reported.
    UnsupportedFirmware([u8; 8]),
    /// The inside-probe buffer failed the validity check.
    InsideReadInvalid,
    /// The outside-probe buffer failed the validity check.
    OutsideReadInvalid,
}

/// Where a protocol session stands: which response the device owes next.
#[derive(Clone, Copy, Debug)]
pub enum SessionState {
    /// The firmware-query frame is owed; its response is checked next.
    AwaitFirmware,
    /// The first post-handshake read is owed; its contents are discarded.
    AwaitWarmup,
    /// The first real sample read is owed: the inside probe.
    AwaitInside,
    /// The second real sample read is owed: the outside probe; the inside
    /// sample is already decoded.
    AwaitOutside { inside_centi: i16 },
}

/// What one protocol step tells the driver to do next.
#[derive(Clone, Copy, Debug)]
pub enum StepResult {
    /// Keep going: write the next command (if any) and read again.
    Continue,
    /// The session is complete with a decoded pair.
    Done(TemperaturePair),
    /// The session failed; the whole sequence starts over next cycle.
    Fail(SensorError),
}

/// The handshake with one opened device, as a state machine over the bytes
/// read from it. The driver writes the frame `next_command` gives, reads
/// eight bytes, and hands them to `on_read`; it owns no handle and keeps no
/// state beyond the current protocol position.
pub struct SensorLink {
    /// The protocol position; advanced by `on_read`.
    pub state: SessionState,
}

impl SensorLink {
    /// A fresh session, positioned before the firmware handshake.
    pub fn new() -> (link: SensorLink)
        ensures
            link.state is AwaitFirmware,
    {
        SensorLink { state: SessionState::AwaitFirmware }
    }

    /// The command frame to write before the next read, if one is owed.
    /// The firmware query opens the handshake; the sample trigger is written
    /// once for the warm-up read and once more for the two real reads (the
    /// outside sample follows the inside one with no further write).
    pub fn next_command(&self) -> (c: Option<[u8; 8]>)
        ensures
            match self.state {
                SessionState::AwaitFirmware => (c matches Some(f)
                    && f@ == firmware_query_frame()),
                SessionState::AwaitWarmup => (c matches Some(f)
                    && f@ == sample_trigger_frame()),
                SessionState::AwaitInside => (c matches Some(f)
                    && f@ == sample_trigger_frame()),
                SessionState::AwaitOutside { .. } => c is None,
            },
    {
        match self.state {
            SessionState::AwaitFirmware => Some(firmware_query_command()),
            SessionState::AwaitWarmup => Some(sample_trigger_command()),
            SessionState::AwaitInside => Some(sample_trigger_command()),
            SessionState::AwaitOutside { .. } => None,
        }
    }

    /// Advances the session with the eight bytes just read. A firmware
    /// mismatch or an invalid sample buffer fails the session; the warm-up
    /// response is discarded whatever it holds. After `Done` or `Fail` the
    /// session stands where a fresh one starts.
    pub fn on_read(&mut self, buf: &[u8; 8]) -> (r: StepResult)
        ensures
            match old(self).state {
                SessionState::AwaitFirmware => {
                    if buf@ == expected_firmware() {
                        r is Continue && final(self).state is AwaitWarmup
                    } else {
                        r == StepResult::Fail(SensorError::UnsupportedFirmware(*buf))
                            && final(self).state is AwaitFirmware
                    }
                },
                SessionState::AwaitWarmup => r is Continue && final(self).state is AwaitInside,
                SessionState::AwaitInside => {
                    if sample_ok(buf@) {
                        r is Continue
                            && (final(self).state matches SessionState::AwaitOutside {
                                inside_centi,
                            } && inside_centi as int == temp_centi(buf@[2], buf@[3]))
                    } else {
                        r == StepResult::Fail(SensorError::InsideReadInvalid)
                            && final(self).state is AwaitFirmware
                    }
                },
                SessionState::AwaitOutside { inside_centi } => {
                    if sample_ok(buf@) {
                        (r matches StepResult::Done(p) && p.inside_centi == inside_centi
                            && p.outside_centi as int == temp_centi(buf@[2], buf@[3]))
                            && final(self).state is AwaitFirmware
                    } else {
                        r == StepResult::Fail(SensorError::OutsideReadInvalid)
                            && final(self).state is AwaitFirmware
                    }
                },
            },
    {
        match self.state {
            SessionState::AwaitFirmware => {
                if firmware_matches(buf) {
                    self.state = SessionState::AwaitWarmup;
                    StepResult::Continue
                } else {
                    self.state = SessionState::AwaitFirmware;
                    StepResult::Fail(SensorError::UnsupportedFirmware(*buf))
                }
            },
            SessionState::AwaitWarmup => {
                self.state = SessionState::AwaitInside;
                StepResult::Continue
            },
            SessionState::AwaitInside => {
                if sample_valid(buf) {
                    let inside_centi = decode_centi(buf[2], buf[3]);
                    self.state = SessionState::AwaitOutside { inside_centi };
                    StepResult::Continue
                } else {
                    self.state = SessionState::AwaitFirmware;
                    StepResult::Fail(SensorError::InsideReadInvalid)
                }
            },
            SessionState::AwaitOutside { inside_centi } => {
                self.state = SessionState::AwaitFirmware;
                if sample_valid(buf) {
                    let outside_centi = decode_centi(buf[2], buf[3]);
                    StepResult::Done(TemperaturePair { inside_centi, outside_centi })
                } else {
                    StepResult::Fail(SensorError::OutsideReadInvalid)
                }
            },
        }
    }
}

/// The four responses one full poll cycle reads from the device, in order:
/// firmware tag, warm-up sample, inside sample, outside sample.
#[derive(Clone, Copy, Debug)]
pub struct CycleResponses {
    pub firmware: [u8; 8],
    pub warmup: [u8; 8],
    pub inside: [u8; 8],
    pub outside: [u8; 8],
}

/// What one full session over the given responses must come to: the first
/// failing check decides the error, otherwise both samples decode. The
/// warm-up response takes part in no check and no decode.
pub open spec fn session_outcome(c: CycleResponses) -> Result<(int, int), SensorError> {
    if c.firmware@ != expected_firmware() {
        Err(SensorError::UnsupportedFirmware(c.firmware))
    } else if !sample_ok(c.inside@) {
        Err(SensorError::InsideReadInvalid)
    } else if !sample_ok(c.outside@) {
        Err(SensorError::OutsideReadInvalid)
    } else {
        Ok(
            (
                temp_centi(c.inside@[2], c.inside@[3]),
                temp_centi(c.outside@[2], c.outside@[3]),
            ),
        )
    }
}

/// Runs one whole session over canned responses by driving a fresh
/// `SensorLink` through its four reads, exactly as a live driver would.
pub fn run_session(c: &CycleResponses) -> (r: Result<TemperaturePair, SensorError>)
    ensures
        match session_outcome(*c) {
            Ok(t) => (r matches Ok(p) && p.inside_centi as int == t.0 && p.outside_centi as int
                == t.1),
            Err(e) => r == Result::<TemperaturePair, SensorError>::Err(e),
        },
{
    let mut link = SensorLink::new();
    let step = link.on_read(&c.firmware);
    if let StepResult::Fail(e) = step {
        return Err(e);
    }
    let _ = link.on_read(&c.warmup);
    let step = link.on_read(&c.inside);
    if let StepResult::Fail(e) = step {
        return Err(e);
    }
    let step = link.on_read(&c.outside);
    match step {
        StepResult::Done(p) => Ok(p),
        StepResult::Fail(e) => Err(e),
        StepResult::Continue => vstd::pervasive::unreached(),
    }
}

/// The warm-up read is discarded unconditionally: two cycles whose other
/// three responses agree have the same outcome whatever their warm-up
/// buffers held, so the warm-up value is never present in a returned pair.
pub proof fn lemma_warmup_discarded(a: CycleResponses, b: CycleResponses)
    requires
        a.firmware == b.firmware,
        a.inside == b.inside,
        a.outside == b.outside,
    ensures
        session_outcome(a) == session_outcome(b),
{
}

/// Firmware acceptance is exact-match on all eight bytes: any difference
/// from the expected tag fails the session with `UnsupportedFirmware`
/// carrying the actual tag, and never yields a decoded pair; a matching tag
/// never produces that error.
pub proof fn lemma_firmware_exact(c: CycleResponses)
    ensures
        c.firmware@ != expected_firmware() ==> session_outcome(c) == Result::<
            (int, int),
            SensorError,
        >::Err(SensorError::UnsupportedFirmware(c.firmware)),
        c.firmware@ == expected_firmware() ==> !(session_outcome(c) matches Err(e)
            && e is UnsupportedFirmware),
{
}

/// Sentinel detection: the disconnected-probe pattern (byte 2 = 0x4E,
/// byte 3 = 0x20) invalidates a buffer whatever its status byte, and a
/// status byte other than 0x80 invalidates it whatever bytes 2 and 3 hold.
pub proof fn lemma_sentinel_rejected(buf: [u8; 8])
    ensures
        buf@[2] == 0x4e && buf@[3] == 0x20 ==> !sample_ok(buf@),
        buf@[0] != 0x80 ==> !sample_ok(buf@),
{
}

/// The outcomes of two consecutive poll cycles, each over its own responses.
pub open spec fn two_cycle_outcomes(first: CycleResponses, second: CycleResponses) -> (
    Result<(int, int), SensorError>,
    Result<(int, int), SensorError>,
) {
    (session_outcome(first), session_outcome(second))
}

/// Cycle independence: the second of two consecutive cycles comes to the
/// same outcome whatever the first cycle read or returned — in particular a
/// failing cycle is followed by a normal attempt with nothing carried over.
pub proof fn lemma_cycle_independence(
    first: CycleResponses,
    other_first: CycleResponses,
    second: CycleResponses,
)
    ensures
        two_cycle_outcomes(first, second).1 == two_cycle_outcomes(other_first, second).1,
{
}

} // verus!
