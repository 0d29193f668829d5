//! What the node exchanges with its broker: the publish decision, a two-state
//! gate with a hysteresis margin around the threshold; the wire form of a
//! reported reading; and the reading of inbound threshold updates.

use vstd::prelude::*;
use vstd::utf8::encode_utf8_decode_utf8;

verus! {

/// Margin between the threshold and the trip points of the publish gate.
pub const HYSTERESIS: u32 = 2;

/// Memory of the publish gate between two readings.
#[derive(Clone, Copy, Debug, PartialEq, Eq, Structural)]
pub enum GateState {
    /// No reading has yet risen above the upper trip point.
    Below,
    /// A reading has risen above the upper trip point.
    Above,
}

impl Default for GateState {
    fn default() -> (state: Self)
        ensures
            state == GateState::Below,
    {
        GateState::Below
    }
}

/// Outcome of one evaluation of the publish gate.
#[derive(Clone, Copy, Debug, PartialEq, Eq, Structural)]
pub struct Decision {
    /// Whether the reading is to be reported.
    pub should_publish: bool,
    /// The state the publish gate is in after the reading.
    pub new_state: GateState,
}

/// The value a reading must exceed to be the first that is reported.
pub open spec fn upper_trip(threshold: u32) -> int {
    threshold + HYSTERESIS
}

/// The value below which a reading is held back in state `Above`. Negative
/// for thresholds under the margin, so that no reading is below it.
pub open spec fn lower_trip(threshold: u32) -> int {
    threshold - HYSTERESIS
}

/// The transition function of the publish gate over unbounded integers.
pub open spec fn decide_spec(reading: u32, threshold: u32, state: GateState) -> Decision {
    match state {
        GateState::Below => if reading > upper_trip(threshold) {
            Decision { should_publish: true, new_state: GateState::Above }
        } else {
            Decision { should_publish: false, new_state: GateState::Below }
        },
        GateState::Above => Decision {
            should_publish: reading >= lower_trip(threshold),
            new_state: GateState::Above,
        },
    }
}

/// The state after a run of readings, each paired with the threshold in
/// force when it was taken, oldest first.
pub open spec fn state_after(state: GateState, readings: Seq<(u32, u32)>) -> GateState
    decreases readings.len(),
{
    if readings.len() == 0 {
        state
    } else {
        decide_spec(
            readings.last().0,
            readings.last().1,
            state_after(state, readings.drop_last()),
        ).new_state
    }
}

/// Once `Above`, always `Above`: no run of readings and thresholds brings the
/// state back to `Below`.
pub proof fn lemma_above_is_final(readings: Seq<(u32, u32)>)
    ensures
        state_after(GateState::Above, readings) == GateState::Above,
    decreases readings.len(),
{
    if readings.len() > 0 {
        lemma_above_is_final(readings.drop_last());
    }
}

/// A run that began `Below` ends `Above` exactly when one of its readings
/// exceeded the upper trip point of its threshold.
pub proof fn lemma_above_iff_tripped(readings: Seq<(u32, u32)>)
    ensures
        state_after(GateState::Below, readings) == GateState::Above <==> exists|k: int|
            0 <= k < readings.len() && (#[trigger] readings[k]).0 > upper_trip(readings[k].1),
    decreases readings.len(),
{
    if readings.len() > 0 {
        let earlier = readings.drop_last();
        let n = readings.len() - 1;
        lemma_above_iff_tripped(earlier);
        if state_after(GateState::Below, earlier) == GateState::Above {
            let k = choose|k: int|
                0 <= k < earlier.len() && (#[trigger] earlier[k]).0 > upper_trip(earlier[k].1);
            assert(readings[k] == earlier[k]);
        } else if readings.last().0 > upper_trip(readings.last().1) {
            assert(readings[n] == readings.last());
        } else {
            assert forall|k: int| 0 <= k < readings.len() implies !((#[trigger] readings[k]).0
                > upper_trip(readings[k].1)) by {
                if k < n {
                    assert(earlier[k] == readings[k]);
                }
            }
        }
    }
}

/// Evaluates the publish gate for one reading.
///
/// A closed gate opens, and reports, exactly when the reading exceeds the
/// threshold by more than the margin. An open gate never closes again: it
/// reports every reading that is not below the threshold by more than the
/// margin and holds the others back.
pub fn decide(reading: u32, threshold: u32, state: GateState) -> (d: Decision)
    ensures
        d == decide_spec(reading, threshold, state),
        state == GateState::Below ==> (d.should_publish <==> reading > threshold + HYSTERESIS),
        state == GateState::Below ==> (d.new_state == GateState::Above <==> d.should_publish),
        state == GateState::Above && reading < threshold - HYSTERESIS ==> !d.should_publish
            && d.new_state == GateState::Above,
        state == GateState::Above && reading >= threshold - HYSTERESIS ==> d.should_publish
            && d.new_state == GateState::Above,
{
    let r: u64 = reading as u64;
    let t: u64 = threshold as u64;
    let h: u64 = HYSTERESIS as u64;
    match state {
        GateState::Below => {
            if r > t + h {
                Decision { should_publish: true, new_state: GateState::Above }
            } else {
                Decision { should_publish: false, new_state: GateState::Below }
            }
        },
        GateState::Above => {
            Decision { should_publish: r + h >= t, new_state: GateState::Above }
        },
    }
}

/// The value that four bytes denote when read most significant byte first.
pub open spec fn be_value(bytes: Seq<u8>) -> int
    recommends
        bytes.len() == 4,
{
    bytes[0] * 0x100_0000 + bytes[1] * 0x1_0000 + bytes[2] * 0x100 + bytes[3]
}

/// Serialises a reading as four bytes, most significant first.
pub fn reading_to_bytes(reading: u32) -> (bytes: [u8; 4])
    ensures
        be_value(bytes@) == reading,
{
    let b0: u8 = (reading >> 24) as u8;
    let b1: u8 = ((reading >> 16) & 0xff) as u8;
    let b2: u8 = ((reading >> 8) & 0xff) as u8;
    let b3: u8 = (reading & 0xff) as u8;
    assert(b0 * 0x100_0000 + b1 * 0x1_0000 + b2 * 0x100 + b3 == reading) by (bit_vector)
        requires
            b0 == (reading >> 24) as u8,
            b1 == ((reading >> 16) & 0xff) as u8,
            b2 == ((reading >> 8) & 0xff) as u8,
            b3 == (reading & 0xff) as u8,
    ;
    [b0, b1, b2, b3]
}

/// What one reading asks of the transport, and the state to carry on to the
/// next reading.
#[derive(Clone, Copy, Debug, PartialEq, Eq)]
pub struct Publication {
    /// The state of the publish gate after the reading.
    pub new_state: GateState,
    /// The bytes to enqueue for delivery, if the reading is to be reported.
    pub payload: Option<[u8; 4]>,
}

/// Runs a reading through the publish gate and, where it passes, prepares
/// its four-byte wire form for the outbound transport.
pub fn publish_to_topic(payload: u32, threshold: u32, state: GateState) -> (out: Publication)
    ensures
        out.new_state == decide_spec(payload, threshold, state).new_state,
        decide_spec(payload, threshold, state).should_publish ==> out.payload is Some
            && be_value(out.payload->0@) == payload,
        !decide_spec(payload, threshold, state).should_publish ==> out.payload is None,
{
    let d = decide(payload, threshold, state);
    if d.should_publish {
        Publication { new_state: d.new_state, payload: Some(reading_to_bytes(payload)) }
    } else {
        Publication { new_state: d.new_state, payload: None }
    }
}

/// Why an inbound threshold payload was refused.
#[derive(Clone, Copy, Debug, PartialEq, Eq, Structural)]
pub enum ParseError {
    /// The payload holds no bytes.
    Empty,
    /// A byte is not a decimal digit, or a sign stands alone.
    InvalidDigit,
    /// The digits denote a value above `u32::MAX`.
    Overflow,
}

/// Whether a byte is an ASCII decimal digit.
pub open spec fn is_digit(b: u8) -> bool {
    0x30 <= b <= 0x39
}

/// Whether every byte of the sequence is an ASCII decimal digit.
pub open spec fn all_digits(s: Seq<u8>) -> bool {
    forall|i: int| 0 <= i < s.len() ==> is_digit(#[trigger] s[i])
}

/// The number that a sequence of decimal digits denotes, most significant
/// digit first.
pub open spec fn decimal_value(s: Seq<u8>) -> nat
    decreases s.len(),
{
    if s.len() == 0 {
        0
    } else {
        decimal_value(s.drop_last()) * 10 + (s.last() - 0x30) as nat
    }
}

/// The payload without its optional leading plus sign.
pub open spec fn unsigned_part(payload: Seq<u8>) -> Seq<u8> {
    if payload.len() > 0 && payload[0] == 0x2b {
        payload.skip(1)
    } else {
        payload
    }
}

/// The threshold that a payload denotes: an optional plus sign followed by one
/// or more decimal digits whose value fits in 32 bits.
pub open spec fn parse_threshold_spec(payload: Seq<u8>) -> Result<u32, ParseError> {
    let digits = unsigned_part(payload);
    if payload.len() == 0 {
        Err(ParseError::Empty)
    } else if digits.len() == 0 || !all_digits(digits) {
        Err(ParseError::InvalidDigit)
    } else if decimal_value(digits) > u32::MAX {
        Err(ParseError::Overflow)
    } else {
        Ok(decimal_value(digits) as u32)
    }
}

/// A prefix of a digit sequence denotes no more than the whole sequence.
proof fn lemma_decimal_value_prefix(s: Seq<u8>, k: int)
    requires
        0 <= k <= s.len(),
    ensures
        decimal_value(s.take(k)) <= decimal_value(s),
    decreases s.len(),
{
    if k == s.len() {
        assert(s.take(k) =~= s);
    } else {
        lemma_decimal_value_prefix(s.drop_last(), k);
        assert(s.drop_last().take(k) =~= s.take(k));
    }
}

/// Reads the decimal digits `payload[from..]` into a number.
fn accumulate_digits(payload: &[u8], from: usize) -> (result: Result<u32, ParseError>)
    requires
        from <= payload@.len(),
        all_digits(payload@.skip(from as int)),
    ensures
        decimal_value(payload@.skip(from as int)) > u32::MAX ==> result == Err::<u32, ParseError>(
            ParseError::Overflow,
        ),
        decimal_value(payload@.skip(from as int)) <= u32::MAX ==> result == Ok::<u32, ParseError>(
            decimal_value(payload@.skip(from as int)) as u32,
        ),
{
    let ghost digits = payload@.skip(from as int);
    let n = payload.len();
    let mut acc: u64 = 0;
    let mut k: usize = from;
    proof {
        assert(digits.take(0) =~= Seq::<u8>::empty());
    }
    while k < n
        invariant
            from <= k <= n,
            n == payload@.len(),
            digits == payload@.skip(from as int),
            all_digits(digits),
            acc == decimal_value(digits.take(k - from)),
            acc <= u32::MAX,
        decreases n - k,
    {
        let byte = payload[k];
        proof {
            let next = digits.take(k - from + 1);
            assert(digits[k - from] == byte);
            assert(is_digit(digits[k - from]));
            assert(next.drop_last() =~= digits.take(k - from));
            assert(next.last() == byte);
        }
        acc = acc * 10 + (byte - 0x30) as u64;
        if acc > 0xffff_ffff {
            proof {
                lemma_decimal_value_prefix(digits, k - from + 1);
            }
            return Err(ParseError::Overflow);
        }
        k = k + 1;
    }
    proof {
        assert(digits.take(k - from) =~= digits);
    }
    Ok(acc as u32)
}

/// Parses an inbound threshold payload.
///
/// The payload is decimal text: an optional `+`, then at least one digit and
/// nothing else. Leading zeros are allowed. Anything else is refused, and so
/// is a value that does not fit in 32 bits.
pub fn parse_threshold(payload: &[u8]) -> (result: Result<u32, ParseError>)
    ensures
        result == parse_threshold_spec(payload@),
{
    let n = payload.len();
    if n == 0 {
        return Err(ParseError::Empty);
    }
    let start: usize = if payload[0] == 0x2b { 1 } else { 0 };
    let ghost digits = unsigned_part(payload@);
    assert(digits == payload@.skip(start as int));
    if start == n {
        return Err(ParseError::InvalidDigit);
    }
    let mut i: usize = start;
    while i < n
        invariant
            start <= i <= n,
            n == payload@.len(),
            digits == payload@.skip(start as int),
            digits == unsigned_part(payload@),
            forall|j: int| 0 <= j < i - start ==> is_digit(#[trigger] digits[j]),
        decreases n - i,
    {
        let byte = payload[i];
        if byte < 0x30 || byte > 0x39 {
            assert(digits[i - start] == byte);
            assert(!all_digits(digits));
            return Err(ParseError::InvalidDigit);
        }
        i = i + 1;
    }
    accumulate_digits(payload, start)
}

/// The topic on which the broker sends threshold updates.
pub const THRESHOLD_TOPIC: &'static str = "threshold";

/// The characters of the threshold-update topic.
pub open spec fn threshold_topic() -> Seq<char> {
    "threshold"@
}

/// Whether two byte strings hold the same bytes.
fn same_bytes(a: &[u8], b: &[u8]) -> (same: bool)
    ensures
        same == (a@ == b@),
{
    if a.len() != b.len() {
        return false;
    }
    let mut i: usize = 0;
    while i < a.len()
        invariant
            a@.len() == b@.len(),
            0 <= i <= a@.len(),
            forall|j: int| 0 <= j < i ==> a@[j] == b@[j],
        decreases a@.len() - i,
    {
        if a[i] != b[i] {
            return false;
        }
        i = i + 1;
    }
    assert(a@ =~= b@);
    true
}

/// Whether a message topic is the threshold-update topic.
pub fn is_threshold_topic(topic: &str) -> (is_it: bool)
    ensures
        is_it == (topic@ == threshold_topic()),
{
    let same = same_bytes(topic.as_bytes(), THRESHOLD_TOPIC.as_bytes());
    proof {
        encode_utf8_decode_utf8(topic@);
        encode_utf8_decode_utf8(threshold_topic());
    }
    same
}

/// What an inbound message means for the threshold: the new value when the
/// message is a well-formed update, nothing when it is on another topic or
/// has none.
pub open spec fn threshold_update_spec(topic: Option<Seq<char>>, payload: Seq<u8>) -> Result<
    Option<u32>,
    ParseError,
> {
    if topic == Some(threshold_topic()) {
        match parse_threshold_spec(payload) {
            Ok(value) => Ok(Some(value)),
            Err(e) => Err(e),
        }
    } else {
        Ok(None)
    }
}

/// The topic of a message as a sequence of characters, where it has one.
pub open spec fn topic_view(topic: Option<&str>) -> Option<Seq<char>> {
    match topic {
        Some(t) => Some(t@),
        None => None,
    }
}

/// Interprets one inbound broker message.
///
/// Messages on other topics, and messages without a topic, are ignored
/// whatever they carry. A message on the threshold topic yields the new
/// threshold, or the reason its payload was refused.
pub fn threshold_update(topic: Option<&str>, payload: &[u8]) -> (result: Result<
    Option<u32>,
    ParseError,
>)
    ensures
        result == threshold_update_spec(topic_view(topic), payload@),
{
    match topic {
        Some(t) => {
            if is_threshold_topic(t) {
                match parse_threshold(payload) {
                    Ok(value) => Ok(Some(value)),
                    Err(e) => Err(e),
                }
            } else {
                Ok(None)
            }
        },
        None => Ok(None),
    }
}

/// Terminates certificate bytes with a NUL, as the TLS layer expects of PEM
/// data.
pub fn convert_certificate(certificate_bytes: Vec<u8>) -> (terminated: Vec<u8>)
    ensures
        terminated@ == certificate_bytes@.push(0u8),
{
    let mut terminated = certificate_bytes;
    terminated.push(0);
    terminated
}

} // verus!
