//! The decisions around the System Management Controller: key names, how a
//! reading is taken as a fan mode, how a target speed is encoded, and when
//! manual fan control is ready.
use vstd::prelude::*;
use vstd::string::StringSliceAdditionalSpecFns;
use crate::text::{decimal, push_decimal};

verus! {

/// A decoded controller value, as far as the decisions here need it: the
/// integer payloads, and only the type of the others.
#[derive(Clone, Copy, Debug, PartialEq, Eq, Structural)]
pub enum SmcNumber {
    F32,
    U8(u8),
    I8(i8),
    I16(i16),
    U16(u16),
    U32(u32),
    I32(i32),
    I64(i64),
    U64(u64),
    Bool(bool),
    Chars,
    Ioft48_16(u64),
}

/// Why a controller key or value cannot be used.
pub enum SmcError {
    /// A key name is not exactly 4 bytes long.
    KeyLength { key: String },
    /// The value has a type that the operation does not know.
    UnsupportedType,
    /// The value is a number, but not one that fits the operation.
    UnsupportedNumeric(SmcNumber),
    /// The value does not fit in 8 bits.
    NotEightBit(SmcNumber),
    /// A target speed outside 0..=20000.
    RpmOutOfRange { rpm: u32 },
}

/// The name of a per-fan key: `F`, the fan's index, then the suffix.
pub fn fan_key(index: usize, suffix: &str) -> (r: String)
    ensures
        r@ == "F"@ + decimal(index as nat) + suffix@,
{
    let mut s = "F".to_owned();
    push_decimal(&mut s, index);
    s.append(suffix);
    s
}

/// The 4 bytes of a key name.
pub fn key_bytes(key: &str) -> (r: Result<[u8; 4], SmcError>)
    ensures
        key.spec_bytes().len() == 4 ==> (r matches Ok(a) && a@ == key.spec_bytes()),
        key.spec_bytes().len() != 4 ==> (r matches Err(SmcError::KeyLength { key: k }) && k@ == key@),
{
    let bytes = key.as_bytes();
    if bytes.len() != 4 {
        return Err(SmcError::KeyLength { key: key.to_owned() });
    }
    let a = [bytes[0], bytes[1], bytes[2], bytes[3]];
    assert(a@ =~= key.spec_bytes());
    Ok(a)
}

impl SmcError {
    /// The message for a key of the wrong length.
    pub fn key_length_message(key: &str) -> (r: String)
        ensures
            r@ == "SMC key `"@ + key@ + "` must be exactly 4 ASCII characters"@,
    {
        let mut s = "SMC key `".to_owned();
        s.append(key);
        s.append("` must be exactly 4 ASCII characters");
        s
    }
}

pub open spec fn fan_mode_text(mode: u8) -> Seq<char> {
    if mode == 0 {
        "auto"@
    } else if mode == 1 {
        "manual"@
    } else if mode == 3 {
        "system"@
    } else {
        "unknown"@
    }
}

/// A fan mode value in words.
pub fn fan_mode_label(mode: u8) -> (r: &'static str)
    ensures
        r@ == fan_mode_text(mode),
{
    match mode {
        0 => "auto",
        1 => "manual",
        3 => "system",
        _ => "unknown",
    }
}

/// The target speed clamped to the fan's range: at least `min_rpm`, at most
/// `max_rpm` or `min_rpm`, whichever is larger.
pub open spec fn clamp_spec(rpm: u32, min_rpm: u32, max_rpm: u32) -> u32 {
    let hi = if max_rpm >= min_rpm { max_rpm } else { min_rpm };
    if rpm < min_rpm {
        min_rpm
    } else if rpm > hi {
        hi
    } else {
        rpm
    }
}

pub fn clamp_target_rpm(rpm: u32, min_rpm: u32, max_rpm: u32) -> (r: u32)
    ensures
        r == clamp_spec(rpm, min_rpm, max_rpm),
        min_rpm <= r,
        r <= max_rpm || r == min_rpm,
        min_rpm <= rpm && (rpm <= max_rpm || rpm == min_rpm) ==> r == rpm,
        rpm < min_rpm ==> r == min_rpm,
        rpm > max_rpm && rpm > min_rpm ==> r == (if max_rpm >= min_rpm { max_rpm } else { min_rpm }),
{
    let hi = if max_rpm >= min_rpm { max_rpm } else { min_rpm };
    if rpm < min_rpm {
        min_rpm
    } else if rpm > hi {
        hi
    } else {
        rpm
    }
}

/// Clamping keeps a speed that is already in the fan's range, raises one below
/// the minimum to the minimum and lowers one above the range to its top, where
/// the top is the maximum or, when the maximum is below the minimum, the
/// minimum.
pub proof fn lemma_clamp_keeps_range(rpm: u32, min_rpm: u32, max_rpm: u32)
    ensures
        min_rpm <= rpm && (rpm <= max_rpm || rpm == min_rpm) ==> clamp_spec(rpm, min_rpm, max_rpm)
            == rpm,
        rpm < min_rpm ==> clamp_spec(rpm, min_rpm, max_rpm) == min_rpm,
        rpm > max_rpm && max_rpm >= min_rpm ==> clamp_spec(rpm, min_rpm, max_rpm) == max_rpm,
        rpm > min_rpm && max_rpm < min_rpm ==> clamp_spec(rpm, min_rpm, max_rpm) == min_rpm,
        min_rpm <= clamp_spec(rpm, min_rpm, max_rpm),
        clamp_spec(rpm, min_rpm, max_rpm) <= max_rpm || clamp_spec(rpm, min_rpm, max_rpm)
            == min_rpm,
{
}

/// A reading taken as an 8-bit value: unsigned bytes, non-negative signed
/// bytes, flags, and 16-bit values in 0..=255.
pub open spec fn u8_like_spec(value: Option<SmcNumber>) -> Result<u8, SmcError> {
    match value {
        None => Err(SmcError::UnsupportedType),
        Some(v) => match v {
            SmcNumber::U8(x) => Ok(x),
            SmcNumber::I8(x) => if x >= 0 {
                Ok(x as u8)
            } else {
                Err(SmcError::NotEightBit(v))
            },
            SmcNumber::Bool(b) => Ok(if b { 1u8 } else { 0u8 }),
            SmcNumber::U16(x) => if x <= 255 {
                Ok(x as u8)
            } else {
                Err(SmcError::NotEightBit(v))
            },
            SmcNumber::I16(x) => if 0 <= x <= 255 {
                Ok(x as u8)
            } else {
                Err(SmcError::NotEightBit(v))
            },
            _ => Err(SmcError::NotEightBit(v)),
        },
    }
}

pub fn u8_like(value: Option<SmcNumber>) -> (r: Result<u8, SmcError>)
    ensures
        r == u8_like_spec(value),
{
    match value {
        None => Err(SmcError::UnsupportedType),
        Some(v) => match v {
            SmcNumber::U8(x) => Ok(x),
            SmcNumber::I8(x) => if x >= 0 {
                Ok(x as u8)
            } else {
                Err(SmcError::NotEightBit(v))
            },
            SmcNumber::Bool(b) => Ok(if b { 1u8 } else { 0u8 }),
            SmcNumber::U16(x) => if x <= 255 {
                Ok(x as u8)
            } else {
                Err(SmcError::NotEightBit(v))
            },
            SmcNumber::I16(x) => if 0 <= x && x <= 255 {
                Ok(x as u8)
            } else {
                Err(SmcError::NotEightBit(v))
            },
            _ => Err(SmcError::NotEightBit(v)),
        },
    }
}

/// How a target speed is written.
pub enum RpmEncoding {
    /// As a 32-bit float, in the byte order the current value uses.
    Float32,
    /// As these little-endian bytes.
    Bytes(Vec<u8>),
}

/// The little-endian bytes of `v` in `width` bytes.
pub open spec fn le_bytes(v: nat, width: nat) -> Seq<u8>
    decreases width,
{
    if width == 0 {
        Seq::empty()
    } else {
        seq![(v % 256) as u8] + le_bytes(v / 256, (width - 1) as nat)
    }
}

/// The encoding of a target speed for a key whose current value is `value`:
/// the key's type must be known, the speed at most 20000, and the type a
/// float or a 16- or 32-bit integer.
pub fn encode_target_rpm(value: Option<SmcNumber>, rpm: u32) -> (r: Result<RpmEncoding, SmcError>)
    ensures
        value is None ==> r matches Err(SmcError::UnsupportedType),
        value is Some && rpm > 20000 ==> (r matches Err(SmcError::RpmOutOfRange { rpm: x }) && x
            == rpm),
        value is Some && rpm <= 20000 ==> match value.unwrap() {
            SmcNumber::F32 => r matches Ok(RpmEncoding::Float32),
            SmcNumber::U16(_) | SmcNumber::I16(_) => r matches Ok(RpmEncoding::Bytes(b)) && b@
                == le_bytes(rpm as nat, 2),
            SmcNumber::U32(_) | SmcNumber::I32(_) => r matches Ok(RpmEncoding::Bytes(b)) && b@
                == le_bytes(rpm as nat, 4),
            other => r matches Err(SmcError::UnsupportedNumeric(o)) && o == other,
        },
{
    let v = match value {
        Some(v) => v,
        None => {
            return Err(SmcError::UnsupportedType);
        },
    };
    if rpm > 20000 {
        return Err(SmcError::RpmOutOfRange { rpm });
    }
    let lo = (rpm % 256) as u8;
    let hi = (rpm / 256) as u8;
    proof {
        reveal_with_fuel(le_bytes, 5);
        assert(rpm / 256 < 256);
        assert((rpm / 256) % 256 == rpm / 256);
        assert(rpm / 256 / 256 == 0);
    }
    match v {
        SmcNumber::F32 => Ok(RpmEncoding::Float32),
        SmcNumber::U16(_) | SmcNumber::I16(_) => {
            let b = vec![lo, hi];
            assert(b@ =~= le_bytes(rpm as nat, 2));
            Ok(RpmEncoding::Bytes(b))
        },
        SmcNumber::U32(_) | SmcNumber::I32(_) => {
            let b = vec![lo, hi, 0u8, 0u8];
            assert(b@ =~= le_bytes(rpm as nat, 4));
            Ok(RpmEncoding::Bytes(b))
        },
        other => Err(SmcError::UnsupportedNumeric(other)),
    }
}

/// A fan mode reading that allows manual control (auto or already manual).
pub open spec fn mode_ready(mode: Option<u8>) -> bool {
    mode == Some(0u8) || mode == Some(1u8)
}

/// Manual control can be taken once every fan reads as auto or manual.
pub fn fans_ready_for_manual(modes: &[Option<u8>]) -> (r: bool)
    ensures
        r == forall|i: int| 0 <= i < modes@.len() ==> mode_ready(#[trigger] modes@[i]),
{
    let mut i: usize = 0;
    while i < modes.len()
        invariant
            i <= modes.len(),
            forall|k: int| 0 <= k < i ==> mode_ready(#[trigger] modes@[k]),
        decreases modes.len() - i,
    {
        let ready = match modes[i] {
            Some(m) => m == 0 || m == 1,
            None => false,
        };
        if !ready {
            return false;
        }
        i = i + 1;
    }
    true
}

/// `fan:mode` for one fan; a mode that could not be read shows as 255.
pub open spec fn fan_mode_entry(fan: usize, mode: Option<u8>) -> Seq<char> {
    decimal(fan as nat) + ":"@ + decimal(
        match mode {
            Some(m) => m as nat,
            None => 255,
        },
    )
}

/// The entries of all fans, separated by `, `.
pub open spec fn fan_mode_entries(fans: Seq<usize>, modes: Seq<Option<u8>>) -> Seq<char>
    decreases fans.len(),
{
    if fans.len() == 0 {
        Seq::empty()
    } else if fans.len() == 1 {
        fan_mode_entry(fans[0], modes[0])
    } else {
        fan_mode_entries(fans.drop_last(), modes.drop_last()) + ", "@ + fan_mode_entry(
            fans.last(),
            modes.last(),
        )
    }
}

/// The message when manual control could not be taken in time.
pub fn unlock_timeout_message(fans: &[usize], modes: &[Option<u8>]) -> (r: String)
    requires
        fans@.len() == modes@.len(),
    ensures
        r@ == "manual fan control unlock timed out; fan modes remained ["@ + fan_mode_entries(
            fans@,
            modes@,
        ) + "]"@,
{
    let mut s = "manual fan control unlock timed out; fan modes remained [".to_owned();
    let ghost start = s@;
    let mut i: usize = 0;
    while i < fans.len()
        invariant
            i <= fans.len(),
            fans@.len() == modes@.len(),
            s@ == start + fan_mode_entries(fans@.take(i as int), modes@.take(i as int)),
        decreases fans.len() - i,
    {
        let ghost prev = s@;
        assert(fans@.take(i + 1).drop_last() == fans@.take(i as int));
        assert(modes@.take(i + 1).drop_last() == modes@.take(i as int));
        if i > 0 {
            s.append(", ");
        }
        push_decimal(&mut s, fans[i]);
        s.append(":");
        let m: usize = match modes[i] {
            Some(m) => m as usize,
            None => 255,
        };
        push_decimal(&mut s, m);
        assert(s@ == start + fan_mode_entries(fans@.take(i + 1), modes@.take(i + 1)));
        i = i + 1;
    }
    assert(fans@.take(fans.len() as int) == fans@);
    assert(modes@.take(modes.len() as int) == modes@);
    s.append("]");
    s
}


/// The value of little-endian bytes.
pub open spec fn le_value(b: Seq<u8>) -> nat
    decreases b.len(),
{
    if b.len() == 0 {
        0
    } else {
        b[0] as nat + 256 * le_value(b.drop_first())
    }
}

/// Writing a value in little-endian bytes and reading them back gives the
/// value, when it fits in the width.
pub proof fn lemma_le_bytes_round_trip(v: nat, width: nat)
    requires
        v < vstd::arithmetic::power::pow(256, width),
    ensures
        le_bytes(v, width).len() == width,
        le_value(le_bytes(v, width)) == v,
    decreases width,
{
    if width == 0 {
        vstd::arithmetic::power::lemma_pow0(256);
    } else {
        vstd::arithmetic::power::lemma_pow_adds(256, 1, (width - 1) as nat);
        vstd::arithmetic::power::lemma_pow1(256);
        let rest = vstd::arithmetic::power::pow(256, (width - 1) as nat);
        assert(v / 256 < rest) by (nonlinear_arith)
            requires
                v < 256 * rest,
        ;
        lemma_le_bytes_round_trip(v / 256, (width - 1) as nat);
        let b = le_bytes(v, width);
        assert(b.drop_first() == le_bytes(v / 256, (width - 1) as nat));
        assert(b[0] as nat == v % 256);
        assert(v == v % 256 + 256 * (v / 256)) by (nonlinear_arith);
    }
}

/// What to do while waiting for manual control: give up once the deadline has
/// passed, go on once every fan is ready, and otherwise wait and look again.
#[derive(Clone, Copy, Debug, PartialEq, Eq, Structural)]
pub enum UnlockDecision {
    Proceed,
    Wait,
    GiveUp,
}

pub fn unlock_decision(modes: &[Option<u8>], deadline_passed: bool) -> (r: UnlockDecision)
    ensures
        deadline_passed ==> r == UnlockDecision::GiveUp,
        !deadline_passed && (forall|i: int| 0 <= i < modes@.len() ==> mode_ready(#[trigger] modes@[i]))
            ==> r == UnlockDecision::Proceed,
        !deadline_passed && !(forall|i: int| 0 <= i < modes@.len() ==> mode_ready(#[trigger] modes@[i]))
            ==> r == UnlockDecision::Wait,
{
    if deadline_passed {
        UnlockDecision::GiveUp
    } else if fans_ready_for_manual(modes) {
        UnlockDecision::Proceed
    } else {
        UnlockDecision::Wait
    }
}

/// Per-fan keys of the fans 0 to 9 with a two-character ASCII suffix are
/// 4-byte controller keys, as `key_bytes` needs.
pub proof fn lemma_single_digit_fan_key_fits(index: usize, suffix: Seq<char>)
    requires
        index < 10,
        suffix.len() == 2,
        vstd::utf8::is_ascii_chars(suffix),
    ensures
        vstd::utf8::encode_utf8("F"@ + decimal(index as nat) + suffix).len() == 4,
{
    reveal_strlit("F");
    let s = "F"@ + decimal(index as nat) + suffix;
    assert(decimal(index as nat).len() == 1);
    assert(vstd::utf8::is_ascii_chars(s)) by {
        assert forall|i: int| 0 <= i < s.len() implies '\0' <= #[trigger] s[i] <= '\u{7f}' by {
            if i >= 2 {
                assert(s[i] == suffix[i - 2]);
            }
        }
    }
    vstd::utf8::is_ascii_chars_encode_utf8(s);
}

} // verus!
