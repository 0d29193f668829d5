//! The signal encoder of the status LED: a colour becomes the 24 timed pulse
//! pairs that a single-wire addressable LED shifts in, and each health state
//! of the node has its fixed colour.

use vstd::prelude::*;

verus! {

/// High phase of a 0 bit, in nanoseconds.
pub const T0H_NS: u64 = 350;

/// Low phase of a 0 bit, in nanoseconds.
pub const T0L_NS: u64 = 800;

/// High phase of a 1 bit, in nanoseconds.
pub const T1H_NS: u64 = 700;

/// Low phase of a 1 bit, in nanoseconds.
pub const T1L_NS: u64 = 600;

/// The largest tick count of one pulse: 15 bits.
pub const MAX_TICKS: u16 = 32767;

/// Number of pulse pairs of one colour: one per bit of the packed word.
pub const SIGNAL_LEN: usize = 24;

/// A colour of three 8-bit channels.
#[derive(Clone, Copy, Debug, PartialEq, Eq, Structural)]
pub struct Color {
    pub r: u8,
    pub g: u8,
    pub b: u8,
}

impl Color {
    /// A colour from its red, green and blue channels.
    pub fn new(r: u8, g: u8, b: u8) -> (color: Color)
        ensures
            color == (Color { r, g, b }),
    {
        Color { r, g, b }
    }
}

/// Logic level of the output pin during a pulse.
#[derive(Clone, Copy, Debug, PartialEq, Eq, Structural)]
pub enum PinState {
    Low,
    High,
}

/// Why a waveform could not be built.
#[derive(Clone, Copy, Debug, PartialEq, Eq, Structural)]
pub enum EncodeError {
    /// A duration spans more ticks than 16 bits can count.
    Overflow,
    /// A tick count fits 16 bits but not the 15 bits of a pulse.
    OutOfRange,
}

/// One segment of the waveform: a level held for a number of clock ticks.
#[derive(Clone, Copy, Debug, PartialEq, Eq, Structural)]
pub struct Pulse {
    pub ticks: u16,
    pub pin_state: PinState,
}

/// The number of whole ticks of a clock of `ticks_hz` within `duration_ns`.
pub open spec fn ticks_in(ticks_hz: u32, duration_ns: u64) -> nat {
    (duration_ns as nat * ticks_hz as nat) / 1_000_000_000
}

/// The pulse of a level and a tick count, where the count is in range.
pub open spec fn pulse_of_ticks(pin_state: PinState, ticks: nat) -> Result<Pulse, EncodeError> {
    if ticks > u16::MAX {
        Err(EncodeError::Overflow)
    } else if ticks > MAX_TICKS {
        Err(EncodeError::OutOfRange)
    } else {
        Ok(Pulse { ticks: ticks as u16, pin_state })
    }
}

impl Pulse {
    /// A pulse can be transmitted when its tick count fits 15 bits.
    pub open spec fn wf(self) -> bool {
        self.ticks <= MAX_TICKS
    }

    /// A pulse of `ticks` ticks at the given level.
    pub fn new(pin_state: PinState, ticks: u16) -> (result: Result<Pulse, EncodeError>)
        ensures
            result == pulse_of_ticks(pin_state, ticks as nat),
            result matches Ok(pulse) ==> pulse.wf(),
    {
        if ticks > MAX_TICKS {
            Err(EncodeError::OutOfRange)
        } else {
            Ok(Pulse { ticks, pin_state })
        }
    }

    /// A pulse that holds the level for `duration_ns` on a clock of
    /// `ticks_hz`, rounded down to whole ticks.
    pub fn new_with_duration(ticks_hz: u32, pin_state: PinState, duration_ns: u64) -> (result:
        Result<Pulse, EncodeError>)
        ensures
            result == pulse_of_ticks(pin_state, ticks_in(ticks_hz, duration_ns)),
            result matches Ok(pulse) ==> pulse.wf(),
    {
        assert(duration_ns * ticks_hz <= 0xffff_ffff_ffff_ffff * 0xffff_ffff) by (nonlinear_arith)
            requires
                0 <= duration_ns <= 0xffff_ffff_ffff_ffff,
                0 <= ticks_hz <= 0xffff_ffff,
        ;
        let product: u128 = (duration_ns as u128) * (ticks_hz as u128);
        let ticks: u128 = product / 1_000_000_000;
        if ticks > 0xffff {
            Err(EncodeError::Overflow)
        } else {
            Pulse::new(pin_state, ticks as u16)
        }
    }
}

/// The four pulses of the wire protocol on one clock: the high and low
/// phases of a 0 bit and of a 1 bit.
#[derive(Clone, Copy, Debug, PartialEq, Eq, Structural)]
pub struct BitPulses {
    pub t0h: Pulse,
    pub t0l: Pulse,
    pub t1h: Pulse,
    pub t1l: Pulse,
}

impl BitPulses {
    /// All four pulses can be transmitted.
    pub open spec fn wf(self) -> bool {
        self.t0h.wf() && self.t0l.wf() && self.t1h.wf() && self.t1l.wf()
    }

    /// The pair of pulses that stands for one bit.
    pub open spec fn pair(self, bit: bool) -> (Pulse, Pulse) {
        if bit {
            (self.t1h, self.t1l)
        } else {
            (self.t0h, self.t0l)
        }
    }
}

/// A protocol pulse on a clock of `ticks_hz`.
pub open spec fn protocol_pulse(ticks_hz: u32, pin_state: PinState, duration_ns: u64) -> Result<
    Pulse,
    EncodeError,
> {
    pulse_of_ticks(pin_state, ticks_in(ticks_hz, duration_ns))
}

/// The four protocol pulses on a clock of `ticks_hz`, or the error of the
/// first of them that cannot be built.
pub open spec fn bit_pulses_spec(ticks_hz: u32) -> Result<BitPulses, EncodeError> {
    match protocol_pulse(ticks_hz, PinState::High, T0H_NS) {
        Err(e) => Err(e),
        Ok(t0h) => match protocol_pulse(ticks_hz, PinState::Low, T0L_NS) {
            Err(e) => Err(e),
            Ok(t0l) => match protocol_pulse(ticks_hz, PinState::High, T1H_NS) {
                Err(e) => Err(e),
                Ok(t1h) => match protocol_pulse(ticks_hz, PinState::Low, T1L_NS) {
                    Err(e) => Err(e),
                    Ok(t1l) => Ok(BitPulses { t0h, t0l, t1h, t1l }),
                },
            },
        },
    }
}

/// Whether a duration is that of one of the four protocol phases.
pub open spec fn is_protocol_duration(duration_ns: u64) -> bool {
    duration_ns == T0H_NS || duration_ns == T0L_NS || duration_ns == T1H_NS || duration_ns
        == T1L_NS
}

/// On any clock whose rate fits 32 bits, each protocol phase lasts fewer
/// ticks than a pulse can hold.
pub proof fn lemma_protocol_ticks_in_range(ticks_hz: u32, duration_ns: u64)
    requires
        is_protocol_duration(duration_ns),
    ensures
        ticks_in(ticks_hz, duration_ns) <= MAX_TICKS,
{
    let product = duration_ns as nat * ticks_hz as nat;
    assert(product <= 800 * 0xffff_ffff) by (nonlinear_arith)
        requires
            product == duration_ns as nat * ticks_hz as nat,
            duration_ns <= 800,
            ticks_hz <= 0xffff_ffff,
    ;
}

/// Every clock rate that fits 32 bits yields the four protocol pulses.
pub proof fn lemma_bit_pulses_exist(ticks_hz: u32)
    ensures
        bit_pulses_spec(ticks_hz) is Ok,
        bit_pulses_spec(ticks_hz)->Ok_0.wf(),
{
    lemma_protocol_ticks_in_range(ticks_hz, T0H_NS);
    lemma_protocol_ticks_in_range(ticks_hz, T0L_NS);
    lemma_protocol_ticks_in_range(ticks_hz, T1H_NS);
    lemma_protocol_ticks_in_range(ticks_hz, T1L_NS);
}

/// Computes the four protocol pulses for the current clock rate.
pub fn bit_pulses(ticks_hz: u32) -> (result: Result<BitPulses, EncodeError>)
    ensures
        result == bit_pulses_spec(ticks_hz),
        result is Ok,
        result matches Ok(pulses) ==> pulses.wf(),
{
    proof {
        lemma_bit_pulses_exist(ticks_hz);
    }
    let t0h = match Pulse::new_with_duration(ticks_hz, PinState::High, T0H_NS) {
        Ok(pulse) => pulse,
        Err(e) => { return Err(e); },
    };
    let t0l = match Pulse::new_with_duration(ticks_hz, PinState::Low, T0L_NS) {
        Ok(pulse) => pulse,
        Err(e) => { return Err(e); },
    };
    let t1h = match Pulse::new_with_duration(ticks_hz, PinState::High, T1H_NS) {
        Ok(pulse) => pulse,
        Err(e) => { return Err(e); },
    };
    let t1l = match Pulse::new_with_duration(ticks_hz, PinState::Low, T1L_NS) {
        Ok(pulse) => pulse,
        Err(e) => { return Err(e); },
    };
    Ok(BitPulses { t0h, t0l, t1h, t1l })
}

/// The 24-bit word in which a colour travels: green in bits 23 to 16, red in
/// bits 15 to 8, blue in bits 7 to 0.
pub open spec fn packed_word(color: Color) -> u32 {
    ((color.g as u32) << 16) | ((color.r as u32) << 8) | (color.b as u32)
}

/// Whether bit `bit` of `word` is set; bit 0 is the least significant.
pub open spec fn bit_is_set(word: u32, bit: int) -> bool {
    word & (1u32 << (bit as u32)) != 0
}

/// Packs a colour into its 24-bit word.
pub fn pack(color: Color) -> (word: u32)
    ensures
        word == packed_word(color),
        word == color.g * 0x1_0000 + color.r * 0x100 + color.b,
{
    let g: u32 = color.g as u32;
    let r: u32 = color.r as u32;
    let b: u32 = color.b as u32;
    assert(((g << 16) | (r << 8) | b) == g * 0x1_0000 + r * 0x100 + b) by (bit_vector)
        requires
            g < 0x100,
            r < 0x100,
            b < 0x100,
    ;
    (g << 16) | (r << 8) | b
}

/// An ordered sequence of exactly 24 pulse pairs, one per bit of the packed
/// word, first sent first.
#[derive(Debug, PartialEq, Eq)]
pub struct Signal {
    pub pairs: [(Pulse, Pulse); SIGNAL_LEN],
}

impl View for Signal {
    type V = Seq<(Pulse, Pulse)>;

    open spec fn view(&self) -> Seq<(Pulse, Pulse)> {
        self.pairs@
    }
}

impl Signal {
    /// Every pulse of the signal can be transmitted.
    pub open spec fn wf(self) -> bool {
        forall|k: int| 0 <= k < self@.len() ==> (#[trigger] self@[k]).0.wf() && self@[k].1.wf()
    }
}

/// The waveform of a colour: the pair at index `k` stands for bit `23 - k` of
/// the packed word, so the most significant bit leaves first.
pub open spec fn waveform(color: Color, pulses: BitPulses) -> Seq<(Pulse, Pulse)> {
    Seq::new(SIGNAL_LEN as nat, |k: int| pulses.pair(bit_is_set(packed_word(color), 23 - k)))
}

/// The result of encoding a colour on a clock of `ticks_hz`.
pub open spec fn encode_spec(color: Color, ticks_hz: u32) -> Result<
    Seq<(Pulse, Pulse)>,
    EncodeError,
> {
    match bit_pulses_spec(ticks_hz) {
        Ok(pulses) => Ok(waveform(color, pulses)),
        Err(e) => Err(e),
    }
}

/// Whether `result` is what encoding `color` on a clock of `ticks_hz` gives.
pub open spec fn is_encoding(color: Color, ticks_hz: u32, result: Result<Signal, EncodeError>) -> bool {
    match result {
        Ok(signal) => encode_spec(color, ticks_hz) == Ok::<Seq<(Pulse, Pulse)>, EncodeError>(
            signal@,
        ),
        Err(e) => encode_spec(color, ticks_hz) == Err::<Seq<(Pulse, Pulse)>, EncodeError>(e),
    }
}

/// Encodes a colour as the waveform that shows it.
///
/// The four protocol pulses are computed from `ticks_hz` on every call. The
/// colour is packed green, red, blue, and each of the 24 bits of the word
/// selects the pulse pair of a 1 or of a 0, most significant bit first.
pub fn encode(color: Color, ticks_hz: u32) -> (result: Result<Signal, EncodeError>)
    ensures
        is_encoding(color, ticks_hz, result),
        result is Ok,
        result matches Ok(signal) ==> signal@.len() == 24 && signal.wf() && signal@[0]
            == bit_pulses_spec(ticks_hz)->Ok_0.pair(bit_is_set(packed_word(color), 23)),
{
    let word = pack(color);
    let pulses = match bit_pulses(ticks_hz) {
        Ok(pulses) => pulses,
        Err(e) => { return Err(e); },
    };
    let zero = (pulses.t0h, pulses.t0l);
    let one = (pulses.t1h, pulses.t1l);
    let mut pairs: [(Pulse, Pulse); SIGNAL_LEN] = [zero; SIGNAL_LEN];
    let mut i: u32 = 24;
    while i > 0
        invariant
            0 <= i <= 24,
            word == packed_word(color),
            pulses.wf(),
            zero == pulses.pair(false),
            one == pulses.pair(true),
            pairs@.len() == 24,
            forall|k: int| 0 <= k < 24 ==> (#[trigger] pairs@[k]).0.wf() && pairs@[k].1.wf(),
            forall|k: int|
                0 <= k < 24 - i ==> #[trigger] pairs@[k] == pulses.pair(
                    bit_is_set(word, 23 - k),
                ),
        decreases i,
    {
        i = i - 1;
        let bit = word & (1u32 << i) != 0;
        let index: usize = (23 - i) as usize;
        pairs[index] = if bit { one } else { zero };
    }
    let signal = Signal { pairs };
    assert(signal@ =~= waveform(color, pulses));
    Ok(signal)
}

/// Encoding is a function of the colour and the clock rate alone: whatever
/// two calls with the same inputs return, it is the same pulses in the same
/// order, or the same error.
pub proof fn lemma_encode_deterministic(
    color: Color,
    ticks_hz: u32,
    first: Result<Signal, EncodeError>,
    second: Result<Signal, EncodeError>,
)
    requires
        is_encoding(color, ticks_hz, first),
        is_encoding(color, ticks_hz, second),
    ensures
        first == second,
        first is Ok,
{
    lemma_bit_pulses_exist(ticks_hz);
    assert(first->Ok_0.pairs =~= second->Ok_0.pairs);
}

/// Whether bit `bit` of a channel is set; bit 0 is the least significant.
pub open spec fn channel_bit(channel: u8, bit: int) -> bool {
    channel & (1u8 << (bit as u8)) != 0
}

/// The wire order of a colour is green, red, blue, each channel most
/// significant bit first: pairs 0 to 7 stand for the bits of green, pairs 8
/// to 15 for those of red and pairs 16 to 23 for those of blue.
pub proof fn lemma_waveform_channel_order(color: Color, pulses: BitPulses, k: int)
    requires
        0 <= k < 24,
    ensures
        0 <= k < 8 ==> waveform(color, pulses)[k] == pulses.pair(channel_bit(color.g, 7 - k)),
        8 <= k < 16 ==> waveform(color, pulses)[k] == pulses.pair(channel_bit(color.r, 15 - k)),
        16 <= k < 24 ==> waveform(color, pulses)[k] == pulses.pair(channel_bit(color.b, 23 - k)),
{
    let g = color.g;
    let r = color.r;
    let b = color.b;
    let word = packed_word(color);
    let j = (23 - k) as u32;
    assert(word == ((g as u32) << 16) | ((r as u32) << 8) | (b as u32));
    if k < 8 {
        let bit = (j - 16) as u8;
        assert((word & (1u32 << j) != 0) == (g & (1u8 << bit) != 0)) by (bit_vector)
            requires
                word == ((g as u32) << 16) | ((r as u32) << 8) | (b as u32),
                16 <= j < 24,
                bit == (j - 16) as u8,
        ;
    } else if k < 16 {
        let bit = (j - 8) as u8;
        assert((word & (1u32 << j) != 0) == (r & (1u8 << bit) != 0)) by (bit_vector)
            requires
                word == ((g as u32) << 16) | ((r as u32) << 8) | (b as u32),
                8 <= j < 16,
                bit == (j - 8) as u8,
        ;
    } else {
        let bit = j as u8;
        assert((word & (1u32 << j) != 0) == (b & (1u8 << bit) != 0)) by (bit_vector)
            requires
                word == ((g as u32) << 16) | ((r as u32) << 8) | (b as u32),
                j < 8,
                bit == j as u8,
        ;
    }
}

/// What the status LED can tell: the node is connected, it has met an error,
/// or it is idle.
#[derive(Clone, Copy, Debug, PartialEq, Eq, Structural)]
pub enum Indication {
    Connected,
    Error,
    Idle,
}

impl Indication {
    /// The fixed colour of an indication: dim green, dim red, or dark.
    pub open spec fn color_spec(self) -> Color {
        match self {
            Indication::Connected => Color { r: 0, g: 10, b: 0 },
            Indication::Error => Color { r: 10, g: 0, b: 0 },
            Indication::Idle => Color { r: 0, g: 0, b: 0 },
        }
    }

    /// The colour in which the LED shows this indication.
    pub fn color(self) -> (color: Color)
        ensures
            color == self.color_spec(),
    {
        match self {
            Indication::Connected => Color::new(0, 10, 0),
            Indication::Error => Color::new(10, 0, 0),
            Indication::Idle => Color::new(0, 0, 0),
        }
    }
}

/// The waveform that shows an indication on a clock of `ticks_hz`.
pub fn indicate(indication: Indication, ticks_hz: u32) -> (result: Result<Signal, EncodeError>)
    ensures
        is_encoding(indication.color_spec(), ticks_hz, result),
        result is Ok,
        result matches Ok(signal) ==> signal.wf(),
{
    encode(indication.color(), ticks_hz)
}

/// The waveform that sets the LED to green: the node is connected.
pub fn led_green(ticks_hz: u32) -> (result: Result<Signal, EncodeError>)
    ensures
        is_encoding(Color { r: 0, g: 10, b: 0 }, ticks_hz, result),
        result is Ok,
        result matches Ok(signal) ==> signal.wf(),
{
    indicate(Indication::Connected, ticks_hz)
}

/// The waveform that sets the LED to red: the node has met an error.
pub fn led_red(ticks_hz: u32) -> (result: Result<Signal, EncodeError>)
    ensures
        is_encoding(Color { r: 10, g: 0, b: 0 }, ticks_hz, result),
        result is Ok,
        result matches Ok(signal) ==> signal.wf(),
{
    indicate(Indication::Error, ticks_hz)
}

/// The waveform that turns the LED off: the node is idle.
pub fn led_off(ticks_hz: u32) -> (result: Result<Signal, EncodeError>)
    ensures
        is_encoding(Color { r: 0, g: 0, b: 0 }, ticks_hz, result),
        result is Ok,
        result matches Ok(signal) ==> signal.wf(),
{
    indicate(Indication::Idle, ticks_hz)
}

} // verus!
