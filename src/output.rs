use vstd::prelude::*;

verus! {

/// Length in bytes of the output report.
pub const OUTPUT_REPORT_LEN: usize = 48;

/// Ticks in one flash cycle of the light bar: dark, then flashing.
pub const FLASH_PERIOD: u64 = 50;

/// Ticks after which the motor oscillator starts its phase over.
pub const WAVE_PERIOD: u64 = 10000;

/// Offset of the first byte of the flash region (its enable flag).
pub const FLASH_START: usize = 22;

/// Offset of the player indicator byte.
pub const PLAYER_LED: usize = 43;

/// The light bar flashes in the second half of each cycle, strictly after
/// its midpoint.
pub open spec fn is_flashing(tick: u64) -> bool {
    tick % FLASH_PERIOD > 25
}

/// Byte `i` of the output report for a tick, a motor level and six color bytes.
pub open spec fn report_byte(tick: u64, wave: u8, colors: Seq<u8>, i: int) -> u8 {
    if i == 0 {
        0x02
    } else if i == 1 {
        0xff
    } else if i == 2 {
        0xf7
    } else if i == 3 || i == 4 {
        wave
    } else if i == 22 {
        if is_flashing(tick) { 0xfd } else { 0 }
    } else if 23 <= i < 29 {
        if is_flashing(tick) { colors[i - 23] } else { 0 }
    } else if i == 43 {
        (tick % 255) as u8
    } else if i == 45 {
        0xff
    } else {
        0
    }
}

/// The whole output report for a tick.
pub open spec fn output_bytes(tick: u64, wave: u8, colors: Seq<u8>) -> Seq<u8> {
    Seq::new(OUTPUT_REPORT_LEN as nat, |i: int| report_byte(tick, wave, colors, i))
}

/// The outbound control buffer of one tick.
#[derive(Debug, Clone, Copy, PartialEq, Eq)]
pub struct OutputReport {
    pub bytes: [u8; 48],
}

/// The phase of the motor oscillator at a tick.
pub fn oscillator_phase(tick: u64) -> (r: u64)
    ensures
        r == tick % WAVE_PERIOD,
{
    tick % WAVE_PERIOD
}

/// Whether the light bar flashes at a tick.
pub fn flashing(tick: u64) -> (r: bool)
    ensures
        r == is_flashing(tick),
{
    tick % FLASH_PERIOD > 25
}

/// Builds the report of a tick from the motor level and the six color bytes
/// of the flash region; the colors are used only while flashing.
pub fn build(tick: u64, wave: u8, colors: [u8; 6]) -> (r: OutputReport)
    ensures
        r.bytes@ == output_bytes(tick, wave, colors@),
{
    let flash = flashing(tick);
    let enable: u8 = if flash { 0xfd } else { 0 };
    let c: [u8; 6] = if flash { colors } else { [0u8; 6] };
    let led = (tick % 255) as u8;
    let bytes: [u8; 48] = [
        0x02, 0xff, 0xf7, wave, wave, 0, 0, 0, 0, 0, 0, 0, 0, 0, 0, 0,
        0, 0, 0, 0, 0, 0, enable, c[0], c[1], c[2], c[3], c[4], c[5], 0, 0, 0,
        0, 0, 0, 0, 0, 0, 0, 0, 0, 0, 0, led, 0, 0xff, 0, 0,
    ];
    assert(bytes@ =~= output_bytes(tick, wave, colors@));
    OutputReport { bytes }
}

/// Relies on `rand::random::<u8>`: one byte drawn from the thread-local
/// generator (`thread_rng().gen()`). Any value may come back; nothing is
/// promised of it.
#[verifier::external_body]
fn random_byte() -> (r: u8) {
    rand::random::<u8>()
}

/// Builds the report of a tick with fresh random colors in the flash region.
/// Every byte but the six colors is fixed by the tick and the motor level;
/// while the light bar is dark the colors are zero.
pub fn build_with_random_colors(tick: u64, wave: u8) -> (r: OutputReport)
    ensures
        r.bytes@ == output_bytes(tick, wave, r.bytes@.subrange(23, 29)),
{
    let colors: [u8; 6] = if flashing(tick) {
        [random_byte(), random_byte(), random_byte(), random_byte(), random_byte(), random_byte()]
    } else {
        [0u8; 6]
    };
    let r = build(tick, wave, colors);
    assert(output_bytes(tick, wave, colors@) =~= output_bytes(tick, wave, r.bytes@.subrange(23, 29)));
    r
}

/// The report of a tick depends on the colors in the six color bytes of the
/// flash region alone: reports built with any two color draws agree on every
/// other byte, and agree entirely while the light bar is dark.
pub proof fn report_fixed_but_for_colors(tick: u64, wave: u8, a: Seq<u8>, b: Seq<u8>)
    requires
        a.len() == 6,
        b.len() == 6,
    ensures
        output_bytes(tick, wave, a).len() == OUTPUT_REPORT_LEN,
        forall|i: int| 0 <= i < OUTPUT_REPORT_LEN && !(23 <= i < 29)
            ==> #[trigger] output_bytes(tick, wave, a)[i] == output_bytes(tick, wave, b)[i],
        !is_flashing(tick) ==> output_bytes(tick, wave, a) == output_bytes(tick, wave, b),
{
    if !is_flashing(tick) {
        assert(output_bytes(tick, wave, a) =~= output_bytes(tick, wave, b));
    }
}

/// The flash boundary lies strictly after the midpoint of the cycle: at
/// residue 25 the flash region is dark and zero, at residue 26 it is enabled
/// and carries the colors.
pub proof fn flash_boundary(tick: u64, wave: u8, colors: Seq<u8>)
    requires
        colors.len() == 6,
    ensures
        tick % FLASH_PERIOD == 25 ==> output_bytes(tick, wave, colors)[FLASH_START as int] == 0
            && output_bytes(tick, wave, colors).subrange(23, 29) == seq![0u8, 0u8, 0u8, 0u8, 0u8, 0u8],
        tick % FLASH_PERIOD == 26 ==> output_bytes(tick, wave, colors)[FLASH_START as int] == 0xfd
            && output_bytes(tick, wave, colors).subrange(23, 29) == colors,
{
    assert(output_bytes(tick, wave, colors).subrange(23, 29) =~= (if is_flashing(tick) { colors } else { seq![0u8, 0u8, 0u8, 0u8, 0u8, 0u8] }));
}

/// The player indicator counts the ticks modulo 255: it advances by one each
/// tick and wraps to zero after 254.
pub proof fn player_led_cycles(tick: u64, wave: u8, colors: Seq<u8>)
    ensures
        output_bytes(tick, wave, colors)[PLAYER_LED as int] == tick % 255,
        tick < u64::MAX ==> output_bytes((tick + 1) as u64, wave, colors)[PLAYER_LED as int]
            == (if tick % 255 == 254 { 0 } else { tick % 255 + 1 }),
{
}

impl OutputReport {
    /// The player indicator byte.
    pub fn player_led(&self) -> (r: u8)
        ensures
            r == self.bytes@[PLAYER_LED as int],
    {
        self.bytes[PLAYER_LED]
    }

    /// The left and right motor levels.
    pub fn motors(&self) -> (r: (u8, u8))
        ensures
            r == (self.bytes@[3], self.bytes@[4]),
    {
        (self.bytes[3], self.bytes[4])
    }

    /// The enable flag of the flash region, nonzero while flashing.
    pub fn flash_enable(&self) -> (r: u8)
        ensures
            r == self.bytes@[FLASH_START as int],
    {
        self.bytes[FLASH_START]
    }

    /// The six color bytes of the flash region.
    pub fn colors(&self) -> (r: [u8; 6])
        ensures
            r@ == self.bytes@.subrange(23, 29),
    {
        let r: [u8; 6] = [self.bytes[23], self.bytes[24], self.bytes[25], self.bytes[26], self.bytes[27], self.bytes[28]];
        assert(r@ =~= self.bytes@.subrange(23, 29));
        r
    }
}

} // verus!
