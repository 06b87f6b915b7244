//! Communication Protocols
//!
//! CAT (Computer Aided Transceiver) command parsing and responses,
//! Kenwood TS-2000 style: two-letter commands ended by `;`.

use vstd::prelude::*;
use crate::radio::state::RadioEvent;
use crate::types::{Frequency, Mode, PowerLevel, freq_in_range};

verus! {

/// Maximum command length
pub const MAX_CMD_LEN: usize = 64;

/// ASCII codes of the characters the CAT protocol uses.
pub const CH_PLUS: u8 = 43;
pub const CH_0: u8 = 48;
pub const CH_1: u8 = 49;
pub const CH_2: u8 = 50;
pub const CH_3: u8 = 51;
pub const CH_4: u8 = 52;
pub const CH_5: u8 = 53;
pub const CH_7: u8 = 55;
pub const CH_9: u8 = 57;
pub const CH_A: u8 = 65;
pub const CH_B: u8 = 66;
pub const CH_C: u8 = 67;
pub const CH_D: u8 = 68;
pub const CH_F: u8 = 70;
pub const CH_G: u8 = 71;
pub const CH_H: u8 = 72;
pub const CH_I: u8 = 73;
pub const CH_L: u8 = 76;
pub const CH_M: u8 = 77;
pub const CH_N: u8 = 78;
pub const CH_P: u8 = 80;
pub const CH_R: u8 = 82;
pub const CH_S: u8 = 83;
pub const CH_T: u8 = 84;
pub const CH_U: u8 = 85;
pub const CH_V: u8 = 86;
pub const CH_X: u8 = 88;

/// Longest tag kept for an unrecognised command, in bytes.
pub const MAX_TAG_LEN: usize = 4;

#[verifier::external_type_specification]
#[verifier::external_body]
#[verifier::reject_recursive_types(T)]
pub struct ExHeaplessVec<T, const N: usize>(heapless::Vec<T, N>);

#[verifier::external_type_specification]
#[verifier::external_body]
pub struct ExHeaplessString<const N: usize>(heapless::String<N>);

/// The UTF-8 bytes of a string slice.
pub open spec fn str_bytes(text: &str) -> Seq<u8> {
    vstd::string::StringSliceAdditionalSpecFns::spec_bytes(text)
}

/// The bytes held by a 64-byte `heapless::Vec` (a CAT command being
/// assembled, or a received line).
pub uninterp spec fn command_bytes(buffer: heapless::Vec<u8, MAX_CMD_LEN>) -> Seq<u8>;

/// The bytes of a response string.
pub uninterp spec fn response_bytes(text: heapless::String<MAX_CMD_LEN>) -> Seq<u8>;

/// The bytes of an unrecognised command's tag.
pub uninterp spec fn tag_bytes(tag: heapless::String<MAX_TAG_LEN>) -> Seq<u8>;

/// `heapless::Vec::new`: an empty buffer.
#[verifier::external_body]
pub(crate) fn command_buffer_new() -> (r: heapless::Vec<u8, MAX_CMD_LEN>)
    ensures
        command_bytes(r) == Seq::<u8>::empty(),
{
    heapless::Vec::new()
}

/// `heapless::Vec::push`: appends the byte when the buffer is below its
/// capacity; otherwise refuses and leaves the buffer as it was.
#[verifier::external_body]
pub(crate) fn command_buffer_push(buffer: &mut heapless::Vec<u8, MAX_CMD_LEN>, byte: u8) -> (pushed: bool)
    ensures
        pushed <==> command_bytes(*old(buffer)).len() < MAX_CMD_LEN,
        pushed ==> command_bytes(*final(buffer)) == command_bytes(*old(buffer)).push(byte),
        !pushed ==> command_bytes(*final(buffer)) == command_bytes(*old(buffer)),
{
    buffer.push(byte).is_ok()
}

/// `heapless::Vec::clear`: empties the buffer.
#[verifier::external_body]
fn command_buffer_clear(buffer: &mut heapless::Vec<u8, MAX_CMD_LEN>)
    ensures
        command_bytes(*final(buffer)) == Seq::<u8>::empty(),
{
    buffer.clear()
}

/// `heapless::Vec::as_slice`: the bytes held, in order.
#[verifier::external_body]
fn command_buffer_slice(buffer: &heapless::Vec<u8, MAX_CMD_LEN>) -> (r: &[u8])
    ensures
        r@ == command_bytes(*buffer),
{
    buffer.as_slice()
}

/// `heapless::String::new`: an empty string.
#[verifier::external_body]
fn response_new() -> (r: heapless::String<MAX_CMD_LEN>)
    ensures
        response_bytes(r) == Seq::<u8>::empty(),
{
    heapless::String::new()
}

/// `heapless::String::clear`: empties the string.
#[verifier::external_body]
fn response_clear(text: &mut heapless::String<MAX_CMD_LEN>)
    ensures
        response_bytes(*final(text)) == Seq::<u8>::empty(),
{
    text.clear()
}

/// `heapless::String::push` of an ASCII character: appends its single byte
/// when the string is below its capacity; otherwise refuses and leaves the
/// string as it was.
#[verifier::external_body]
fn response_push_ascii(text: &mut heapless::String<MAX_CMD_LEN>, byte: u8) -> (pushed: bool)
    requires
        byte < 128,
    ensures
        pushed <==> response_bytes(*old(text)).len() < MAX_CMD_LEN,
        pushed ==> response_bytes(*final(text)) == response_bytes(*old(text)).push(byte),
        !pushed ==> response_bytes(*final(text)) == response_bytes(*old(text)),
{
    text.push(byte as char).is_ok()
}

/// `heapless::String::as_str`: the string's text.
#[verifier::external_body]
fn response_str(text: &heapless::String<MAX_CMD_LEN>) -> (r: &str)
    ensures
        str_bytes(r) == response_bytes(*text),
{
    text.as_str()
}

/// `heapless::String::try_from(&str)`: a copy of the text, which fits.
#[verifier::external_body]
fn tag_from_str(text: &str) -> (r: heapless::String<MAX_TAG_LEN>)
    requires
        str_bytes(text).len() <= MAX_TAG_LEN,
    ensures
        tag_bytes(r) == str_bytes(text),
{
    match heapless::String::try_from(text) {
        Ok(tag) => tag,
        Err(_) => heapless::String::new(),
    }
}

/// `Clone::clone` of a `heapless::String`: a copy of the string. Nothing
/// is stated of the copy; it is only made when a command is cloned.
pub assume_specification<const N: usize>[ <heapless::String<N> as Clone>::clone ](
    s: &heapless::String<N>,
) -> heapless::String<N>;

/// `core::str::from_utf8`: the bytes as text when they are valid UTF-8.
#[verifier::external_body]
fn utf8_str(bytes: &[u8]) -> (r: Option<&str>)
    ensures
        r is Some <==> vstd::utf8::valid_utf8(bytes@),
        r matches Some(text) ==> str_bytes(text) == bytes@,
{
    core::str::from_utf8(bytes).ok()
}

/// What a CAT command asks for, as plain values.
pub enum CatRequest {
    ReadFrequency(bool),
    SetFrequency(u32, bool),
    ReadMode,
    SetMode(Mode),
    ReadStatus,
    ReadId,
    ReadPowerSwitch,
    SetPowerSwitch(bool),
    Transmit(bool),
    ReadAfGain,
    SetAfGain(u8),
    ReadPower,
    SetPower(u8),
    ReadFilter,
    ReadAutoInfo,
    SetAutoInfo(bool),
    ReadRxVfo,
    SetRxVfo(bool),
    ReadTxVfo,
    SetTxVfo(bool),
    ReadVox,
    SetVox(bool),
    ReadAgc,
    SetAgc(u8),
    ReadNb,
    SetNb(bool),
    ReadPreamp,
    SetPreamp(bool),
    ReadAtt,
    SetAtt(bool),
    TuneUp,
    TuneDown,
    Unknown(Seq<u8>),
}

/// CAT command parsed from serial input
#[derive(Clone, Debug)]
pub enum CatCommand {
    /// Read VFO frequency (VFO B if true)
    ReadFrequency(bool),
    /// Set VFO frequency (frequency, VFO B if true)
    SetFrequency(Frequency, bool),
    /// Read operating mode
    ReadMode,
    /// Set operating mode
    SetMode(Mode),
    /// Read transceiver status (IF command)
    ReadStatus,
    /// Read transceiver ID
    ReadId,
    /// Read power switch state
    ReadPowerSwitch,
    /// Set power switch state
    SetPowerSwitch(bool),
    /// Transmit on/off
    Transmit(bool),
    /// Read AF gain level
    ReadAfGain,
    /// Set AF gain level
    SetAfGain(u8),
    /// Read TX power level
    ReadPower,
    /// Set TX power level
    SetPower(PowerLevel),
    /// Read filter setting
    ReadFilter,
    /// Read auto-info state
    ReadAutoInfo,
    /// Set auto-info state
    SetAutoInfo(bool),
    /// Read RX VFO selection
    ReadRxVfo,
    /// Set RX VFO selection (VFO B if true)
    SetRxVfo(bool),
    /// Read TX VFO selection
    ReadTxVfo,
    /// Set TX VFO selection (VFO B if true)
    SetTxVfo(bool),
    /// Read VOX state
    ReadVox,
    /// Set VOX state
    SetVox(bool),
    /// Read AGC setting
    ReadAgc,
    /// Set AGC setting
    SetAgc(u8),
    /// Read noise blanker state
    ReadNb,
    /// Set noise blanker state
    SetNb(bool),
    /// Read preamp state
    ReadPreamp,
    /// Set preamp state
    SetPreamp(bool),
    /// Read attenuator state
    ReadAtt,
    /// Set attenuator state
    SetAtt(bool),
    /// Tune up one step
    TuneUp,
    /// Tune down one step
    TuneDown,
    /// Unknown/unparsed command
    Unknown(heapless::String<MAX_TAG_LEN>),
}

impl View for CatCommand {
    type V = CatRequest;

    open spec fn view(&self) -> CatRequest {
        match *self {
            CatCommand::ReadFrequency(b) => CatRequest::ReadFrequency(b),
            CatCommand::SetFrequency(f, b) => CatRequest::SetFrequency(f@, b),
            CatCommand::ReadMode => CatRequest::ReadMode,
            CatCommand::SetMode(m) => CatRequest::SetMode(m),
            CatCommand::ReadStatus => CatRequest::ReadStatus,
            CatCommand::ReadId => CatRequest::ReadId,
            CatCommand::ReadPowerSwitch => CatRequest::ReadPowerSwitch,
            CatCommand::SetPowerSwitch(b) => CatRequest::SetPowerSwitch(b),
            CatCommand::Transmit(b) => CatRequest::Transmit(b),
            CatCommand::ReadAfGain => CatRequest::ReadAfGain,
            CatCommand::SetAfGain(g) => CatRequest::SetAfGain(g),
            CatCommand::ReadPower => CatRequest::ReadPower,
            CatCommand::SetPower(p) => CatRequest::SetPower(p@),
            CatCommand::ReadFilter => CatRequest::ReadFilter,
            CatCommand::ReadAutoInfo => CatRequest::ReadAutoInfo,
            CatCommand::SetAutoInfo(b) => CatRequest::SetAutoInfo(b),
            CatCommand::ReadRxVfo => CatRequest::ReadRxVfo,
            CatCommand::SetRxVfo(b) => CatRequest::SetRxVfo(b),
            CatCommand::ReadTxVfo => CatRequest::ReadTxVfo,
            CatCommand::SetTxVfo(b) => CatRequest::SetTxVfo(b),
            CatCommand::ReadVox => CatRequest::ReadVox,
            CatCommand::SetVox(b) => CatRequest::SetVox(b),
            CatCommand::ReadAgc => CatRequest::ReadAgc,
            CatCommand::SetAgc(a) => CatRequest::SetAgc(a),
            CatCommand::ReadNb => CatRequest::ReadNb,
            CatCommand::SetNb(b) => CatRequest::SetNb(b),
            CatCommand::ReadPreamp => CatRequest::ReadPreamp,
            CatCommand::SetPreamp(b) => CatRequest::SetPreamp(b),
            CatCommand::ReadAtt => CatRequest::ReadAtt,
            CatCommand::SetAtt(b) => CatRequest::SetAtt(b),
            CatCommand::TuneUp => CatRequest::TuneUp,
            CatCommand::TuneDown => CatRequest::TuneDown,
            CatCommand::Unknown(t) => CatRequest::Unknown(tag_bytes(t)),
        }
    }
}

/// The request an optional command carries.
pub open spec fn request_of(c: Option<CatCommand>) -> Option<CatRequest> {
    match c {
        Some(cmd) => Some(cmd@),
        None => None,
    }
}

/// Whether `b` is an ASCII decimal digit.
pub open spec fn is_digit(b: u8) -> bool {
    CH_0 <= b <= CH_9
}

/// Whether every byte of `s` is a decimal digit.
pub open spec fn all_digits(s: Seq<u8>) -> bool {
    forall|i: int| 0 <= i < s.len() ==> is_digit(#[trigger] s[i])
}

/// The number written by the decimal digits `s`.
pub open spec fn digits_value(s: Seq<u8>) -> nat
    decreases s.len(),
{
    if s.len() == 0 {
        0
    } else {
        digits_value(s.drop_last()) * 10 + (s.last() - CH_0) as nat
    }
}

/// Unsigned decimal parsing as `str::parse` does it: an optional `+`, then
/// one or more digits, with a value no larger than `max`.
pub open spec fn parse_unsigned_spec(s: Seq<u8>, max: nat) -> Option<nat> {
    let d = if s.len() > 0 && s[0] == CH_PLUS { s.drop_first() } else { s };
    if d.len() > 0 && all_digits(d) && digits_value(d) <= max {
        Some(digits_value(d))
    } else {
        None
    }
}

proof fn lemma_digits_prefix_le(s: Seq<u8>, k: int)
    requires
        all_digits(s),
        0 <= k <= s.len(),
    ensures
        digits_value(s.take(k)) <= digits_value(s),
    decreases s.len(),
{
    if k < s.len() {
        let t = s.drop_last();
        assert(all_digits(t)) by {
            assert forall|i: int| 0 <= i < t.len() implies is_digit(#[trigger] t[i]) by {
                assert(t[i] == s[i]);
            }
        }
        lemma_digits_prefix_le(t, k);
        assert(t.take(k) =~= s.take(k));
    } else {
        assert(s.take(k) =~= s);
    }
}

/// Parse an unsigned decimal number of at most `max`, as `str::parse`
/// does for unsigned integers
fn parse_unsigned(bytes: &[u8], max: u32) -> (r: Option<u32>)
    ensures
        match r {
            Some(v) => parse_unsigned_spec(bytes@, max as nat) == Some(v as nat),
            None => parse_unsigned_spec(bytes@, max as nat) is None,
        },
{
    let s = Ghost(bytes@);
    let start: usize = if bytes.len() > 0 && bytes[0] == CH_PLUS { 1 } else { 0 };
    let ghost d = if bytes@.len() > 0 && bytes@[0] == CH_PLUS { bytes@.drop_first() } else { bytes@ };
    assert(d =~= bytes@.subrange(start as int, bytes@.len() as int));
    if start == bytes.len() {
        return None;
    }
    let mut acc: u64 = 0;
    let mut i: usize = start;
    while i < bytes.len()
        invariant
            start <= i <= bytes@.len(),
            d == bytes@.subrange(start as int, bytes@.len() as int),
            d == (if bytes@.len() > 0 && bytes@[0] == CH_PLUS { bytes@.drop_first() } else { bytes@ }),
            d.len() > 0,
            all_digits(d.take(i - start)),
            acc == digits_value(d.take(i - start)),
            acc <= max,
        decreases bytes@.len() - i,
    {
        let b = bytes[i];
        if b < CH_0 || b > CH_9 {
            assert(d[i - start] == b);
            assert(!is_digit(d[i - start]));
            return None;
        }
        proof {
            let p = d.take(i - start + 1);
            assert(p.drop_last() =~= d.take(i - start));
            assert(p.last() == b);
            assert(all_digits(p)) by {
                assert forall|j: int| 0 <= j < p.len() implies is_digit(#[trigger] p[j]) by {
                    if j < p.len() - 1 {
                        assert(p[j] == d.take(i - start)[j]);
                    }
                }
            }
        }
        acc = acc * 10 + (b - CH_0) as u64;
        if acc > max as u64 {
            proof {
                if all_digits(d) {
                    lemma_digits_prefix_le(d, i - start + 1);
                }
            }
            return None;
        }
        i = i + 1;
    }
    assert(d.take(i - start) =~= d);
    Some(acc as u32)
}

/// Width in bytes of the UTF-8 encoding that starts with `b`.
pub open spec fn utf8_width(b: u8) -> int {
    if b <= 0x7f {
        1
    } else if b <= 0xdf {
        2
    } else if b <= 0xef {
        3
    } else {
        4
    }
}

/// Length of the tag kept for an unrecognised command: its first two
/// characters.
pub open spec fn unknown_tag_len(s: Seq<u8>) -> int {
    if s.len() > 2 && vstd::utf8::is_leading_byte_width_2(s[0]) {
        2 + utf8_width(s[2])
    } else {
        2
    }
}

/// Whether the first two bytes are the command letters `a`, `b`.
pub open spec fn is_cmd(s: Seq<u8>, a: u8, b: u8) -> bool {
    s[0] == a && s[1] == b
}

/// Whether the first two bytes name a command the parser knows.
pub open spec fn known_command(s: Seq<u8>) -> bool {
    ||| is_cmd(s, CH_F, CH_A) ||| is_cmd(s, CH_F, CH_B) ||| is_cmd(s, CH_M, CH_D)
    ||| is_cmd(s, CH_I, CH_F) ||| is_cmd(s, CH_I, CH_D) ||| is_cmd(s, CH_P, CH_S)
    ||| is_cmd(s, CH_T, CH_X) ||| is_cmd(s, CH_R, CH_X) ||| is_cmd(s, CH_A, CH_G)
    ||| is_cmd(s, CH_P, CH_C) ||| is_cmd(s, CH_S, CH_H) ||| is_cmd(s, CH_S, CH_L)
    ||| is_cmd(s, CH_A, CH_I) ||| is_cmd(s, CH_F, CH_R) ||| is_cmd(s, CH_F, CH_T)
    ||| is_cmd(s, CH_V, CH_X) ||| is_cmd(s, CH_G, CH_T) ||| is_cmd(s, CH_N, CH_B)
    ||| is_cmd(s, CH_P, CH_A) ||| is_cmd(s, CH_R, CH_A) ||| is_cmd(s, CH_U, CH_P)
    ||| is_cmd(s, CH_D, CH_N)
}

/// Whether cutting `s` at `i` would split a character (cutting at the end
/// never does).
pub open spec fn cuts_char(s: Seq<u8>, i: int) -> bool {
    i < s.len() && vstd::utf8::is_continuation_byte(s[i])
}

/// Whether parsing the complete command `s` panics: it is valid UTF-8 but a
/// fixed-position field would cut a character in two, or the tag of an
/// unknown command does not fit in four bytes.
pub open spec fn cat_parse_panics(s: Seq<u8>) -> bool {
    &&& s.len() >= 2
    &&& vstd::utf8::valid_utf8(s)
    &&& {
        ||| cuts_char(s, 2)
        ||| ((is_cmd(s, CH_F, CH_A) || is_cmd(s, CH_F, CH_B)) && s.len() >= 13 && cuts_char(s, 13))
        ||| (is_cmd(s, CH_A, CH_G) && s.len() >= 6 && (cuts_char(s, 3) || cuts_char(s, 6)))
        ||| ((is_cmd(s, CH_P, CH_C) || is_cmd(s, CH_G, CH_T)) && s.len() >= 5 && cuts_char(s, 5))
        ||| (is_cmd(s, CH_R, CH_A) && s.len() >= 4 && cuts_char(s, 4))
        ||| (!known_command(s) && unknown_tag_len(s) > MAX_TAG_LEN)
    }
}

/// A flag given by the byte after the command letters: true when it is `1`.
pub open spec fn flag_at_2(s: Seq<u8>) -> bool {
    s[2] == CH_1
}

/// The mode named by a mode digit.
pub open spec fn mode_of_code(b: u8) -> Option<Mode> {
    if b == CH_1 {
        Some(Mode::Lsb)
    } else if b == CH_2 {
        Some(Mode::Usb)
    } else if b == CH_3 {
        Some(Mode::Cw)
    } else if b == CH_4 {
        Some(Mode::Fm)
    } else if b == CH_5 {
        Some(Mode::Am)
    } else if b == CH_7 {
        Some(Mode::CwR)
    } else {
        None
    }
}

/// The request a complete command `s` (without its `;`) carries, if any.
pub open spec fn cat_parse(s: Seq<u8>) -> Option<CatRequest> {
    let n = s.len();
    if n < 2 || !vstd::utf8::valid_utf8(s) {
        None
    } else if is_cmd(s, CH_F, CH_A) || is_cmd(s, CH_F, CH_B) {
        let vfo_b = s[1] == CH_B;
        if n == 2 {
            Some(CatRequest::ReadFrequency(vfo_b))
        } else if n >= 13 {
            match parse_unsigned_spec(s.subrange(2, 13), u32::MAX as nat) {
                Some(hz) => if freq_in_range(hz as int) {
                    Some(CatRequest::SetFrequency(hz as u32, vfo_b))
                } else {
                    None
                },
                None => None,
            }
        } else {
            None
        }
    } else if is_cmd(s, CH_M, CH_D) {
        if n == 2 {
            Some(CatRequest::ReadMode)
        } else {
            match mode_of_code(s[2]) {
                Some(m) => Some(CatRequest::SetMode(m)),
                None => None,
            }
        }
    } else if is_cmd(s, CH_I, CH_F) {
        Some(CatRequest::ReadStatus)
    } else if is_cmd(s, CH_I, CH_D) {
        Some(CatRequest::ReadId)
    } else if is_cmd(s, CH_P, CH_S) {
        if n == 2 { Some(CatRequest::ReadPowerSwitch) } else { Some(CatRequest::SetPowerSwitch(flag_at_2(s))) }
    } else if is_cmd(s, CH_T, CH_X) {
        Some(CatRequest::Transmit(true))
    } else if is_cmd(s, CH_R, CH_X) {
        Some(CatRequest::Transmit(false))
    } else if is_cmd(s, CH_A, CH_G) {
        if n == 2 || n == 3 {
            Some(CatRequest::ReadAfGain)
        } else if n >= 6 {
            match parse_unsigned_spec(s.subrange(3, 6), 255) {
                Some(g) => Some(CatRequest::SetAfGain(g as u8)),
                None => None,
            }
        } else {
            None
        }
    } else if is_cmd(s, CH_P, CH_C) {
        if n == 2 {
            Some(CatRequest::ReadPower)
        } else if n >= 5 {
            match parse_unsigned_spec(s.subrange(2, 5), 255) {
                Some(p) => Some(CatRequest::SetPower(if p > 100 { 100u8 } else { p as u8 })),
                None => None,
            }
        } else {
            None
        }
    } else if is_cmd(s, CH_S, CH_H) || is_cmd(s, CH_S, CH_L) {
        Some(CatRequest::ReadFilter)
    } else if is_cmd(s, CH_A, CH_I) {
        if n >= 3 { Some(CatRequest::SetAutoInfo(flag_at_2(s))) } else { Some(CatRequest::ReadAutoInfo) }
    } else if is_cmd(s, CH_F, CH_R) {
        if n >= 3 { Some(CatRequest::SetRxVfo(flag_at_2(s))) } else { Some(CatRequest::ReadRxVfo) }
    } else if is_cmd(s, CH_F, CH_T) {
        if n >= 3 { Some(CatRequest::SetTxVfo(flag_at_2(s))) } else { Some(CatRequest::ReadTxVfo) }
    } else if is_cmd(s, CH_V, CH_X) {
        if n >= 3 { Some(CatRequest::SetVox(flag_at_2(s))) } else { Some(CatRequest::ReadVox) }
    } else if is_cmd(s, CH_G, CH_T) {
        if n >= 5 {
            match parse_unsigned_spec(s.subrange(2, 5), 255) {
                Some(a) => Some(CatRequest::SetAgc(a as u8)),
                None => None,
            }
        } else {
            Some(CatRequest::ReadAgc)
        }
    } else if is_cmd(s, CH_N, CH_B) {
        if n >= 3 { Some(CatRequest::SetNb(flag_at_2(s))) } else { Some(CatRequest::ReadNb) }
    } else if is_cmd(s, CH_P, CH_A) {
        if n >= 3 { Some(CatRequest::SetPreamp(flag_at_2(s))) } else { Some(CatRequest::ReadPreamp) }
    } else if is_cmd(s, CH_R, CH_A) {
        if n >= 4 {
            match parse_unsigned_spec(s.subrange(2, 4), 255) {
                Some(a) => Some(CatRequest::SetAtt(a > 0)),
                None => None,
            }
        } else {
            Some(CatRequest::ReadAtt)
        }
    } else if is_cmd(s, CH_U, CH_P) {
        Some(CatRequest::TuneUp)
    } else if is_cmd(s, CH_D, CH_N) {
        Some(CatRequest::TuneDown)
    } else {
        Some(CatRequest::Unknown(s.take(unknown_tag_len(s))))
    }
}

proof fn lemma_tag_boundary(s: Seq<u8>)
    requires
        vstd::utf8::valid_utf8(s),
        s.len() >= 2,
        !cuts_char(s, 2),
    ensures
        unknown_tag_len(s) <= s.len(),
        vstd::utf8::is_char_boundary(s, unknown_tag_len(s)),
{
    let n = s.len() as int;
    vstd::utf8::is_char_boundary_start_end_of_seq(s);
    if n > 2 {
        vstd::utf8::is_char_boundary_iff_not_is_continuation_byte(s, 2);
    }
    if n > 2 && vstd::utf8::is_leading_byte_width_2(s[0]) {
        vstd::utf8::valid_utf8_split(s, 2);
        let t = s.subrange(2, n);
        assert(t[0] == s[2]);
        assert(vstd::utf8::valid_first_scalar(t));
        let w = vstd::utf8::length_of_first_scalar(t);
        assert(w == utf8_width(s[2]));
        let rest = vstd::utf8::pop_first_scalar(t);
        assert(vstd::utf8::valid_utf8(rest));
        if 2 + w < n {
            assert(rest.len() > 0);
            assert(vstd::utf8::valid_first_scalar(rest));
            assert(rest[0] == s[2 + w]);
            vstd::utf8::is_char_boundary_iff_not_is_continuation_byte(s, 2 + w);
        }
    }
}

/// Parse a complete command (the bytes before its `;`)
fn parse_command(bytes: &[u8]) -> (r: Option<CatCommand>)
    requires
        !cat_parse_panics(bytes@),
    ensures
        request_of(r) == cat_parse(bytes@),
{
    let n = bytes.len();
    if n < 2 {
        return None;
    }
    let text = match utf8_str(bytes) {
        Some(t) => t,
        None => return None,
    };
    let c0 = bytes[0];
    let c1 = bytes[1];
    if c0 == CH_F && (c1 == CH_A || c1 == CH_B) {
        let vfo_b = c1 == CH_B;
        if n == 2 {
            return Some(CatCommand::ReadFrequency(vfo_b));
        } else if n >= 13 {
            let hz = match parse_unsigned(vstd::slice::slice_subrange(bytes, 2, 13), u32::MAX) {
                Some(v) => v,
                None => return None,
            };
            return match Frequency::from_hz(hz) {
                Some(freq) => Some(CatCommand::SetFrequency(freq, vfo_b)),
                None => None,
            };
        } else {
            return None;
        }
    }
    if c0 == CH_M && c1 == CH_D {
        if n == 2 {
            return Some(CatCommand::ReadMode);
        }
        let code = bytes[2];
        let mode = if code == CH_1 {
            Mode::Lsb
        } else if code == CH_2 {
            Mode::Usb
        } else if code == CH_3 {
            Mode::Cw
        } else if code == CH_4 {
            Mode::Fm
        } else if code == CH_5 {
            Mode::Am
        } else if code == CH_7 {
            Mode::CwR
        } else {
            return None;
        };
        return Some(CatCommand::SetMode(mode));
    }
    if c0 == CH_I && c1 == CH_F {
        return Some(CatCommand::ReadStatus);
    }
    if c0 == CH_I && c1 == CH_D {
        return Some(CatCommand::ReadId);
    }
    if c0 == CH_P && c1 == CH_S {
        return if n == 2 {
            Some(CatCommand::ReadPowerSwitch)
        } else {
            Some(CatCommand::SetPowerSwitch(bytes[2] == CH_1))
        };
    }
    if c0 == CH_T && c1 == CH_X {
        return Some(CatCommand::Transmit(true));
    }
    if c0 == CH_R && c1 == CH_X {
        return Some(CatCommand::Transmit(false));
    }
    if c0 == CH_A && c1 == CH_G {
        if n == 2 || n == 3 {
            return Some(CatCommand::ReadAfGain);
        } else if n >= 6 {
            return match parse_unsigned(vstd::slice::slice_subrange(bytes, 3, 6), 255) {
                Some(g) => Some(CatCommand::SetAfGain(g as u8)),
                None => None,
            };
        } else {
            return None;
        }
    }
    if c0 == CH_P && c1 == CH_C {
        if n == 2 {
            return Some(CatCommand::ReadPower);
        } else if n >= 5 {
            return match parse_unsigned(vstd::slice::slice_subrange(bytes, 2, 5), 255) {
                Some(p) => Some(CatCommand::SetPower(PowerLevel::from_percent(p as u8))),
                None => None,
            };
        } else {
            return None;
        }
    }
    if c0 == CH_S && (c1 == CH_H || c1 == CH_L) {
        return Some(CatCommand::ReadFilter);
    }
    if c0 == CH_A && c1 == CH_I {
        return if n >= 3 {
            Some(CatCommand::SetAutoInfo(bytes[2] == CH_1))
        } else {
            Some(CatCommand::ReadAutoInfo)
        };
    }
    if c0 == CH_F && c1 == CH_R {
        return if n >= 3 {
            Some(CatCommand::SetRxVfo(bytes[2] == CH_1))
        } else {
            Some(CatCommand::ReadRxVfo)
        };
    }
    if c0 == CH_F && c1 == CH_T {
        return if n >= 3 {
            Some(CatCommand::SetTxVfo(bytes[2] == CH_1))
        } else {
            Some(CatCommand::ReadTxVfo)
        };
    }
    if c0 == CH_V && c1 == CH_X {
        return if n >= 3 {
            Some(CatCommand::SetVox(bytes[2] == CH_1))
        } else {
            Some(CatCommand::ReadVox)
        };
    }
    if c0 == CH_G && c1 == CH_T {
        if n >= 5 {
            return match parse_unsigned(vstd::slice::slice_subrange(bytes, 2, 5), 255) {
                Some(a) => Some(CatCommand::SetAgc(a as u8)),
                None => None,
            };
        } else {
            return Some(CatCommand::ReadAgc);
        }
    }
    if c0 == CH_N && c1 == CH_B {
        return if n >= 3 {
            Some(CatCommand::SetNb(bytes[2] == CH_1))
        } else {
            Some(CatCommand::ReadNb)
        };
    }
    if c0 == CH_P && c1 == CH_A {
        return if n >= 3 {
            Some(CatCommand::SetPreamp(bytes[2] == CH_1))
        } else {
            Some(CatCommand::ReadPreamp)
        };
    }
    if c0 == CH_R && c1 == CH_A {
        if n >= 4 {
            return match parse_unsigned(vstd::slice::slice_subrange(bytes, 2, 4), 255) {
                Some(a) => Some(CatCommand::SetAtt(a > 0)),
                None => None,
            };
        } else {
            return Some(CatCommand::ReadAtt);
        }
    }
    if c0 == CH_U && c1 == CH_P {
        return Some(CatCommand::TuneUp);
    }
    if c0 == CH_D && c1 == CH_N {
        return Some(CatCommand::TuneDown);
    }
    let k: usize = if n > 2 && 0xC0 <= c0 && c0 <= 0xDF {
        let b2 = bytes[2];
        if b2 <= 0x7F {
            3
        } else if b2 <= 0xDF {
            4
        } else if b2 <= 0xEF {
            5
        } else {
            6
        }
    } else {
        2
    };
    proof {
        lemma_tag_boundary(bytes@);
    }
    let (head, _) = text.split_at(k);
    assert(str_bytes(head) == bytes@.take(k as int));
    Some(CatCommand::Unknown(tag_from_str(head)))
}

/// ASCII semicolon, the command terminator.
pub const CH_SEMICOLON: u8 = 59;

/// ASCII carriage return.
pub const CH_CR: u8 = 13;

/// ASCII line feed.
pub const CH_LF: u8 = 10;

/// The buffered bytes and the request reported after the parser is fed
/// `byte`. A `;` ends the command, which is parsed and dropped; line endings
/// are ignored; any other byte is buffered, and a command that reaches the
/// buffer size is thrown away.
pub open spec fn cat_feed(buffer: Seq<u8>, byte: u8) -> (Seq<u8>, Option<CatRequest>) {
    if byte == CH_SEMICOLON {
        (Seq::empty(), cat_parse(buffer))
    } else if byte == CH_CR || byte == CH_LF {
        (buffer, None)
    } else {
        let b = buffer.push(byte);
        if b.len() >= MAX_CMD_LEN {
            (Seq::empty(), None)
        } else {
            (b, None)
        }
    }
}

/// CAT command parser
pub struct CatParser {
    /// Command buffer
    buffer: heapless::Vec<u8, MAX_CMD_LEN>,
}

impl View for CatParser {
    type V = Seq<u8>;

    /// The bytes of the command received so far.
    closed spec fn view(&self) -> Seq<u8> {
        command_bytes(self.buffer)
    }
}

impl CatParser {
    /// The buffer never fills up: a command that reaches its size is
    /// dropped.
    #[verifier::type_invariant]
    closed spec fn below_capacity(self) -> bool {
        command_bytes(self.buffer).len() < MAX_CMD_LEN
    }

    /// Create a new CAT parser
    pub fn new() -> (r: Self)
        ensures
            r@ == Seq::<u8>::empty(),
    {
        Self { buffer: command_buffer_new() }
    }

    /// Whether a `;` now would end a command that can be parsed; the
    /// parser must not be fed `;` otherwise
    pub fn terminator_is_safe(&self) -> (r: bool)
        ensures
            r == !cat_parse_panics(self@),
    {
        parse_is_safe(command_buffer_slice(&self.buffer))
    }

    /// Feed a byte to the parser
    /// Returns a command if one is complete
    pub fn feed(&mut self, byte: u8) -> (r: Option<CatCommand>)
        requires
            byte == CH_SEMICOLON ==> !cat_parse_panics(old(self)@),
        ensures
            (final(self)@, request_of(r)) == cat_feed(old(self)@, byte),
    {
        proof {
            use_type_invariant(&*self);
        }
        let mut buffer = command_buffer_new();
        core::mem::swap(&mut buffer, &mut self.buffer);
        if byte == CH_SEMICOLON {
            let cmd = parse_command(command_buffer_slice(&buffer));
            command_buffer_clear(&mut buffer);
            self.buffer = buffer;
            cmd
        } else if byte == CH_CR || byte == CH_LF {
            self.buffer = buffer;
            None
        } else {
            let _ = command_buffer_push(&mut buffer, byte);
            if command_buffer_slice(&buffer).len() >= MAX_CMD_LEN {
                command_buffer_clear(&mut buffer);
            }
            self.buffer = buffer;
            None
        }
    }

    /// Clear the buffer
    pub fn clear(&mut self)
        ensures
            final(self)@ == Seq::<u8>::empty(),
    {
        self.buffer = command_buffer_new();
    }
}

impl Default for CatParser {
    fn default() -> (r: Self)
        ensures
            r@ == Seq::<u8>::empty(),
    {
        Self::new()
    }
}

/// Whether `bytes` can be parsed as a complete command without tripping
/// the cases the parser cannot handle.
fn parse_is_safe(bytes: &[u8]) -> (safe: bool)
    ensures
        safe == !cat_parse_panics(bytes@),
{
    let n = bytes.len();
    if n < 2 {
        return true;
    }
    if utf8_str(bytes).is_none() {
        return true;
    }
    let s = Ghost(bytes@);
    if n > 2 && 0x80 <= bytes[2] && bytes[2] <= 0xBF {
        return false;
    }
    let c0 = bytes[0];
    let c1 = bytes[1];
    if c0 == CH_F && (c1 == CH_A || c1 == CH_B) {
        return !(n > 13 && 0x80 <= bytes[13] && bytes[13] <= 0xBF);
    }
    if c0 == CH_A && c1 == CH_G {
        return !(n >= 6 && ((0x80 <= bytes[3] && bytes[3] <= 0xBF) || (n > 6 && 0x80 <= bytes[6] && bytes[6] <= 0xBF)));
    }
    if (c0 == CH_P && c1 == CH_C) || (c0 == CH_G && c1 == CH_T) {
        return !(n > 5 && 0x80 <= bytes[5] && bytes[5] <= 0xBF);
    }
    if c0 == CH_R && c1 == CH_A {
        return !(n > 4 && 0x80 <= bytes[4] && bytes[4] <= 0xBF);
    }
    let known = (c0 == CH_F && (c1 == CH_R || c1 == CH_T))
        || (c0 == CH_M && c1 == CH_D)
        || (c0 == CH_I && (c1 == CH_F || c1 == CH_D))
        || (c0 == CH_P && (c1 == CH_S || c1 == CH_A))
        || (c0 == CH_T && c1 == CH_X)
        || (c0 == CH_R && c1 == CH_X)
        || (c0 == CH_S && (c1 == CH_H || c1 == CH_L))
        || (c0 == CH_A && c1 == CH_I)
        || (c0 == CH_V && c1 == CH_X)
        || (c0 == CH_N && c1 == CH_B)
        || (c0 == CH_U && c1 == CH_P)
        || (c0 == CH_D && c1 == CH_N);
    if known {
        return true;
    }
    !(n > 2 && 0xC0 <= c0 && c0 <= 0xDF && bytes[2] >= 0xE0)
}

impl CatCommand {
    /// Convert to radio event if applicable
    pub fn to_radio_event(&self) -> (r: Option<RadioEvent>)
        ensures
            r == match *self {
                CatCommand::SetFrequency(freq, false) => Some(RadioEvent::SetFrequency(freq)),
                CatCommand::SetMode(mode) => Some(RadioEvent::SetMode(mode)),
                CatCommand::SetPower(power) => Some(RadioEvent::SetPower(power)),
                CatCommand::Transmit(true) => Some(RadioEvent::StartTx),
                CatCommand::Transmit(false) => Some(RadioEvent::StopTx),
                CatCommand::SetNb(true) => Some(RadioEvent::ToggleNb),
                CatCommand::SetPreamp(true) => Some(RadioEvent::TogglePreamp),
                CatCommand::SetAtt(true) => Some(RadioEvent::ToggleAtt),
                CatCommand::TuneUp => Some(RadioEvent::Tune(1i32)),
                CatCommand::TuneDown => Some(RadioEvent::Tune(-1i32)),
                _ => None,
            },
    {
        match self {
            Self::SetFrequency(freq, false) => Some(RadioEvent::SetFrequency(*freq)),
            Self::SetMode(mode) => Some(RadioEvent::SetMode(*mode)),
            Self::SetPower(power) => Some(RadioEvent::SetPower(*power)),
            Self::Transmit(true) => Some(RadioEvent::StartTx),
            Self::Transmit(false) => Some(RadioEvent::StopTx),
            Self::SetNb(on) => {
                if *on {
                    Some(RadioEvent::ToggleNb)
                } else {
                    None
                }
            },
            Self::SetPreamp(on) => {
                if *on {
                    Some(RadioEvent::TogglePreamp)
                } else {
                    None
                }
            },
            Self::SetAtt(on) => {
                if *on {
                    Some(RadioEvent::ToggleAtt)
                } else {
                    None
                }
            },
            Self::TuneUp => Some(RadioEvent::Tune(1)),
            Self::TuneDown => Some(RadioEvent::Tune(-1)),
            _ => None,
        }
    }
}

/// The last `width` decimal digits of `n`, most significant first, padded
/// with zeros.
pub open spec fn decimal_padded(n: nat, width: nat) -> Seq<u8>
    decreases width,
{
    if width == 0 {
        Seq::empty()
    } else {
        decimal_padded(n / 10, (width - 1) as nat).push((CH_0 + n % 10) as u8)
    }
}

/// The digit a mode is reported with.
pub open spec fn mode_code(mode: Mode) -> u8 {
    match mode {
        Mode::Lsb => CH_1,
        Mode::Usb => CH_2,
        Mode::Cw => CH_3,
        Mode::Fm => CH_4,
        Mode::Am => CH_5,
        Mode::CwR => CH_7,
    }
}

/// `count` ASCII zeros.
pub open spec fn zeros(count: nat) -> Seq<u8> {
    Seq::new(count, |i: int| CH_0)
}

/// The frequency response: `FA` (or `FB`), eleven digits of Hz, `;`.
pub open spec fn frequency_response(hz: u32, vfo_b: bool) -> Seq<u8> {
    seq![CH_F, if vfo_b { CH_B } else { CH_A }] + decimal_padded(hz as nat, 11) + seq![CH_SEMICOLON]
}

/// The mode response: `MD`, the mode digit, `;`.
pub open spec fn mode_response(mode: Mode) -> Seq<u8> {
    seq![CH_M, CH_D, mode_code(mode), CH_SEMICOLON]
}

/// The identity response of a TS-2000: `ID019;`.
pub open spec fn id_response() -> Seq<u8> {
    seq![CH_I, CH_D, CH_0, CH_1, CH_9, CH_SEMICOLON]
}

/// The power response: `PC`, three digits of percent, `;`.
pub open spec fn power_response(percent: u8) -> Seq<u8> {
    seq![CH_P, CH_C] + decimal_padded(percent as nat, 3) + seq![CH_SEMICOLON]
}

/// The status response: `IF`, eleven digits of Hz, a zero offset, a zero
/// RIT/XIT field, the mode digit, ten zeros, the transmit flag, `;`.
pub open spec fn status_response(hz: u32, mode: Mode, tx: bool) -> Seq<u8> {
    seq![CH_I, CH_F] + decimal_padded(hz as nat, 11) + zeros(5) + seq![CH_PLUS] + zeros(10)
        + seq![mode_code(mode)] + zeros(10) + seq![if tx { CH_1 } else { CH_0 }] + seq![CH_SEMICOLON]
}

/// The last `width` decimal digits of `value`, most significant first
fn decimal_digits(value: u32, width: usize) -> (r: Vec<u8>)
    ensures
        r@ == decimal_padded(value as nat, width as nat),
{
    let mut acc: Vec<u8> = Vec::new();
    let mut v = value;
    let mut k: usize = 0;
    while k < width
        invariant
            k <= width,
            decimal_padded(value as nat, width as nat) == decimal_padded(v as nat, (width - k) as nat) + acc@,
        decreases width - k,
    {
        let d = (v % 10) as u8;
        proof {
            let m = (width - k) as nat;
            assert(decimal_padded(v as nat, m) == decimal_padded((v / 10) as nat, (m - 1) as nat).push((CH_0 + v % 10) as u8));
            assert(decimal_padded((v / 10) as nat, (m - 1) as nat).push((CH_0 + v % 10) as u8) + acc@
                =~= decimal_padded((v / 10) as nat, (m - 1) as nat) + seq![(CH_0 + d) as u8].add(acc@));
        }
        acc.insert(0, CH_0 + d);
        v = v / 10;
        k = k + 1;
    }
    assert(acc@ =~= decimal_padded(value as nat, width as nat));
    acc
}

/// Every byte of a padded decimal is an ASCII digit.
proof fn lemma_decimal_ascii(n: nat, width: nat)
    ensures
        decimal_padded(n, width).len() == width,
        forall|i: int| 0 <= i < width ==> #[trigger] decimal_padded(n, width)[i] < 128,
    decreases width,
{
    if width > 0 {
        lemma_decimal_ascii(n / 10, (width - 1) as nat);
    }
}

/// CAT response formatter
pub struct CatResponse {
    buffer: heapless::String<MAX_CMD_LEN>,
}

impl View for CatResponse {
    type V = Seq<u8>;

    /// The bytes of the response.
    closed spec fn view(&self) -> Seq<u8> {
        response_bytes(self.buffer)
    }
}

impl CatResponse {
    /// Create a new response formatter
    pub fn new() -> (r: Self)
        ensures
            r@ == Seq::<u8>::empty(),
    {
        Self { buffer: response_new() }
    }

    /// Append ASCII bytes that fit
    fn push_ascii(&mut self, bytes: &[u8])
        requires
            old(self)@.len() + bytes@.len() <= MAX_CMD_LEN,
            forall|i: int| 0 <= i < bytes@.len() ==> #[trigger] bytes@[i] < 128,
        ensures
            final(self)@ == old(self)@ + bytes@,
    {
        let mut i: usize = 0;
        while i < bytes.len()
            invariant
                i <= bytes@.len(),
                old(self)@.len() + bytes@.len() <= MAX_CMD_LEN,
                forall|j: int| 0 <= j < bytes@.len() ==> #[trigger] bytes@[j] < 128,
                self@ == old(self)@ + bytes@.take(i as int),
            decreases bytes@.len() - i,
        {
            let _ = response_push_ascii(&mut self.buffer, bytes[i]);
            assert(bytes@.take(i + 1) == bytes@.take(i as int).push(bytes@[i as int]));
            i = i + 1;
        }
        assert(bytes@.take(i as int) =~= bytes@);
    }

    /// Append a zero-padded decimal number
    fn push_decimal(&mut self, value: u32, width: usize)
        requires
            old(self)@.len() + width <= MAX_CMD_LEN,
        ensures
            final(self)@ == old(self)@ + decimal_padded(value as nat, width as nat),
            final(self)@.len() == old(self)@.len() + width,
    {
        let digits = decimal_digits(value, width);
        proof {
            lemma_decimal_ascii(value as nat, width as nat);
        }
        self.push_ascii(digits.as_slice());
    }

    /// Format frequency response
    pub fn frequency(&mut self, freq: Frequency, vfo_b: bool)
        ensures
            final(self)@ == frequency_response(freq@, vfo_b),
    {
        response_clear(&mut self.buffer);
        let letter = if vfo_b { CH_B } else { CH_A };
        self.push_ascii(&[CH_F, letter]);
        self.push_decimal(freq.as_hz(), 11);
        self.push_ascii(&[CH_SEMICOLON]);
        assert(self@ =~= frequency_response(freq@, vfo_b));
    }

    /// Format mode response
    pub fn mode(&mut self, mode: Mode)
        ensures
            final(self)@ == mode_response(mode),
    {
        response_clear(&mut self.buffer);
        let code = match mode {
            Mode::Lsb => CH_1,
            Mode::Usb => CH_2,
            Mode::Cw => CH_3,
            Mode::Fm => CH_4,
            Mode::Am => CH_5,
            Mode::CwR => CH_7,
        };
        self.push_ascii(&[CH_M, CH_D, code, CH_SEMICOLON]);
        assert(self@ =~= mode_response(mode));
    }

    /// Format ID response (TS-2000 compatible)
    pub fn id(&mut self)
        ensures
            final(self)@ == id_response(),
    {
        response_clear(&mut self.buffer);
        self.push_ascii(&[CH_I, CH_D, CH_0, CH_1, CH_9, CH_SEMICOLON]);
        assert(self@ =~= id_response());
    }

    /// Format power response
    pub fn power(&mut self, power: PowerLevel)
        ensures
            final(self)@ == power_response(power@),
    {
        response_clear(&mut self.buffer);
        self.push_ascii(&[CH_P, CH_C]);
        self.push_decimal(power.as_percent() as u32, 3);
        self.push_ascii(&[CH_SEMICOLON]);
        assert(self@ =~= power_response(power@));
    }

    /// Format status response (IF command)
    pub fn status(&mut self, freq: Frequency, mode: Mode, tx: bool)
        ensures
            final(self)@ == status_response(freq@, mode, tx),
    {
        response_clear(&mut self.buffer);
        let mode_digit = match mode {
            Mode::Lsb => CH_1,
            Mode::Usb => CH_2,
            Mode::Cw => CH_3,
            Mode::Fm => CH_4,
            Mode::Am => CH_5,
            Mode::CwR => CH_7,
        };
        let tx_digit = if tx { CH_1 } else { CH_0 };
        self.push_ascii(&[CH_I, CH_F]);
        self.push_decimal(freq.as_hz(), 11);
        self.push_decimal(0, 5);
        self.push_ascii(&[CH_PLUS]);
        self.push_decimal(0, 10);
        self.push_ascii(&[mode_digit]);
        self.push_decimal(0, 10);
        self.push_ascii(&[tx_digit, CH_SEMICOLON]);
        proof {
            lemma_zero_digits(5);
            lemma_zero_digits(10);
        }
        assert(self@ =~= status_response(freq@, mode, tx));
    }

    /// Get the response string
    pub fn as_str(&self) -> (r: &str)
        ensures
            str_bytes(r) == self@,
    {
        response_str(&self.buffer)
    }

    /// Get the response bytes
    pub fn as_bytes(&self) -> (r: &[u8])
        ensures
            r@ == self@,
    {
        response_str(&self.buffer).as_bytes()
    }

    /// Clear the buffer
    pub fn clear(&mut self)
        ensures
            final(self)@ == Seq::<u8>::empty(),
    {
        response_clear(&mut self.buffer);
    }
}

/// Zero padded to any width is all zeros.
proof fn lemma_zero_digits(width: nat)
    ensures
        decimal_padded(0, width) =~= zeros(width),
    decreases width,
{
    if width > 0 {
        lemma_zero_digits((width - 1) as nat);
        assert(zeros(width) =~= zeros((width - 1) as nat).push(CH_0));
    }
}

impl Default for CatResponse {
    fn default() -> (r: Self)
        ensures
            r@ == Seq::<u8>::empty(),
    {
        Self::new()
    }
}

/// Ten to the power `w`.
pub open spec fn pow10(w: nat) -> nat
    decreases w,
{
    if w == 0 { 1 } else { 10 * pow10((w - 1) as nat) }
}

proof fn lemma_decimal_padded_value(n: nat, w: nat)
    ensures
        all_digits(decimal_padded(n, w)),
        decimal_padded(n, w).len() == w,
        digits_value(decimal_padded(n, w)) == n % pow10(w),
    decreases w,
{
    if w > 0 {
        lemma_decimal_padded_value(n / 10, (w - 1) as nat);
        let d = decimal_padded(n, w);
        let prev = decimal_padded(n / 10, (w - 1) as nat);
        assert(d.drop_last() =~= prev);
        assert(all_digits(d)) by {
            assert forall|i: int| 0 <= i < d.len() implies is_digit(#[trigger] d[i]) by {
                if i < d.len() - 1 {
                    assert(d[i] == prev[i]);
                }
            }
        }
        let m = pow10((w - 1) as nat);
        let q = n / 10;
        let r = n % 10;
        let t = q % m;
        let k = q / m;
        assert(m > 0) by {
            lemma_pow10_positive((w - 1) as nat);
        }
        assert(n == (10 * m) * k + (10 * t + r) && 0 <= 10 * t + r < 10 * m) by (nonlinear_arith)
            requires
                q == n / 10,
                r == n % 10,
                t == q % m,
                k == q / m,
                m > 0,
        ;
        vstd::arithmetic::div_mod::lemma_fundamental_div_mod_converse(n as int, (10 * m) as int, k as int, (10 * t + r) as int);
    }
}

proof fn lemma_pow10_positive(w: nat)
    ensures
        pow10(w) > 0,
    decreases w,
{
    if w > 0 {
        lemma_pow10_positive((w - 1) as nat);
    }
}

/// Bytes that are all ASCII are valid UTF-8.
proof fn lemma_ascii_valid_utf8(s: Seq<u8>)
    requires
        forall|i: int| 0 <= i < s.len() ==> #[trigger] s[i] < 128,
    ensures
        vstd::utf8::valid_utf8(s),
{
    assert(s.subrange(0, 0) =~= Seq::<u8>::empty());
    assert(vstd::utf8::partial_valid_utf8(s, 0));
    assert forall|i: int| 0 <= 0 <= i < s.len() <= s.len() implies #[trigger] vstd::utf8::is_leading_byte_width_1(s[i]) by {
        assert(s[i] < 128);
    }
    vstd::utf8::partial_valid_utf8_extend_ascii_block(s, 0, s.len() as int);
    assert(s.subrange(0, s.len() as int) =~= s);
}

/// A frequency report read back as a command sets the same frequency on
/// the same VFO: the parser undoes the formatter.
pub proof fn lemma_frequency_round_trip(hz: u32, vfo_b: bool)
    requires
        freq_in_range(hz as int),
    ensures
        cat_parse(frequency_response(hz, vfo_b).drop_last()) == Some(CatRequest::SetFrequency(hz, vfo_b)),
{
    let digits = decimal_padded(hz as nat, 11);
    lemma_decimal_padded_value(hz as nat, 11);
    assert(pow10(11) == 100_000_000_000) by {
        reveal_with_fuel(pow10, 12);
    }
    let s = frequency_response(hz, vfo_b).drop_last();
    assert(s =~= seq![CH_F, if vfo_b { CH_B } else { CH_A }] + digits);
    assert forall|i: int| 0 <= i < s.len() implies #[trigger] s[i] < 128 by {
        if i >= 2 {
            assert(s[i] == digits[i - 2]);
            assert(is_digit(digits[i - 2]));
        }
    }
    lemma_ascii_valid_utf8(s);
    assert(s.subrange(2, 13) =~= digits);
    assert(digits[0] != CH_PLUS) by {
        assert(is_digit(digits[0]));
    }
}

/// A mode report read back as a command sets the same mode.
pub proof fn lemma_mode_round_trip(mode: Mode)
    ensures
        cat_parse(mode_response(mode).drop_last()) == Some(CatRequest::SetMode(mode)),
{
    let s = mode_response(mode).drop_last();
    assert(s =~= seq![CH_M, CH_D, mode_code(mode)]);
    lemma_ascii_valid_utf8(s);
}

/// A power report read back as a command sets the same power.
pub proof fn lemma_power_round_trip(percent: u8)
    requires
        percent <= 100,
    ensures
        cat_parse(power_response(percent).drop_last()) == Some(CatRequest::SetPower(percent)),
{
    let digits = decimal_padded(percent as nat, 3);
    lemma_decimal_padded_value(percent as nat, 3);
    assert(pow10(3) == 1000) by {
        reveal_with_fuel(pow10, 4);
    }
    let s = power_response(percent).drop_last();
    assert(s =~= seq![CH_P, CH_C] + digits);
    assert forall|i: int| 0 <= i < s.len() implies #[trigger] s[i] < 128 by {
        if i >= 2 {
            assert(s[i] == digits[i - 2]);
            assert(is_digit(digits[i - 2]));
        }
    }
    lemma_ascii_valid_utf8(s);
    assert(s.subrange(2, 5) =~= digits);
    assert(digits[0] != CH_PLUS) by {
        assert(is_digit(digits[0]));
    }
}

/// The buffer after feeding `bytes` one at a time.
pub open spec fn feed_all(buffer: Seq<u8>, bytes: Seq<u8>) -> Seq<u8>
    decreases bytes.len(),
{
    if bytes.len() == 0 {
        buffer
    } else {
        feed_all(cat_feed(buffer, bytes[0]).0, bytes.drop_first())
    }
}

proof fn lemma_feed_all_plain(buffer: Seq<u8>, bytes: Seq<u8>)
    requires
        buffer.len() + bytes.len() < MAX_CMD_LEN,
        forall|i: int| 0 <= i < bytes.len() ==> #[trigger] bytes[i] != CH_SEMICOLON && bytes[i] != CH_CR
            && bytes[i] != CH_LF,
    ensures
        feed_all(buffer, bytes) == buffer + bytes,
    decreases bytes.len(),
{
    if bytes.len() > 0 {
        assert(bytes[0] != CH_SEMICOLON && bytes[0] != CH_CR && bytes[0] != CH_LF);
        let rest = bytes.drop_first();
        assert forall|i: int| 0 <= i < rest.len() implies #[trigger] rest[i] != CH_SEMICOLON && rest[i] != CH_CR
            && rest[i] != CH_LF by {
            assert(rest[i] == bytes[i + 1]);
        }
        lemma_feed_all_plain(buffer.push(bytes[0]), rest);
        assert(buffer.push(bytes[0]) + rest =~= buffer + bytes);
    } else {
        assert(buffer + bytes =~= buffer);
    }
}

/// A command sent byte by byte and ended with `;` is parsed as a whole:
/// when it holds no terminator or line ending and is shorter than the
/// buffer, feeding it to an empty parser buffers it exactly, and the `;`
/// then reports what parsing it gives and empties the buffer.
pub proof fn lemma_feed_command(cmd: Seq<u8>)
    requires
        cmd.len() < MAX_CMD_LEN,
        forall|i: int| 0 <= i < cmd.len() ==> #[trigger] cmd[i] != CH_SEMICOLON && cmd[i] != CH_CR && cmd[i]
            != CH_LF,
    ensures
        feed_all(Seq::empty(), cmd) == cmd,
        cat_feed(feed_all(Seq::empty(), cmd), CH_SEMICOLON) == (Seq::<u8>::empty(), cat_parse(cmd)),
{
    lemma_feed_all_plain(Seq::empty(), cmd);
    assert(Seq::<u8>::empty() + cmd =~= cmd);
}

/// A frequency report sent back byte by byte to the parser, `;` included,
/// sets the same frequency on the same VFO, and parsing it is safe.
pub proof fn lemma_frequency_feed_round_trip(hz: u32, vfo_b: bool)
    requires
        freq_in_range(hz as int),
    ensures
        ({
            let cmd = frequency_response(hz, vfo_b).drop_last();
            &&& frequency_response(hz, vfo_b).last() == CH_SEMICOLON
            &&& feed_all(Seq::empty(), cmd) == cmd
            &&& !cat_parse_panics(cmd)
            &&& cat_feed(feed_all(Seq::empty(), cmd), CH_SEMICOLON) == (
                Seq::<u8>::empty(),
                Some(CatRequest::SetFrequency(hz, vfo_b)),
            )
        }),
{
    let digits = decimal_padded(hz as nat, 11);
    lemma_decimal_padded_value(hz as nat, 11);
    let cmd = frequency_response(hz, vfo_b).drop_last();
    assert(cmd =~= seq![CH_F, if vfo_b { CH_B } else { CH_A }] + digits);
    assert forall|i: int| 0 <= i < cmd.len() implies #[trigger] cmd[i] != CH_SEMICOLON && cmd[i] != CH_CR
        && cmd[i] != CH_LF && cmd[i] < 128 by {
        if i >= 2 {
            assert(cmd[i] == digits[i - 2]);
            assert(is_digit(digits[i - 2]));
        }
    }
    lemma_frequency_round_trip(hz, vfo_b);
    lemma_feed_command(cmd);
    assert(!cuts_char(cmd, 2) && !cuts_char(cmd, 13));
}

/// What feeding `bytes` one at a time reports, one entry per byte.
pub open spec fn feed_outputs(buffer: Seq<u8>, bytes: Seq<u8>) -> Seq<Option<CatRequest>>
    decreases bytes.len(),
{
    if bytes.len() == 0 {
        Seq::empty()
    } else {
        let (next, out) = cat_feed(buffer, bytes[0]);
        seq![out] + feed_outputs(next, bytes.drop_first())
    }
}

/// Feeding a command and its `;` byte by byte reports nothing until the
/// `;`, which reports what parsing the whole command gives.
proof fn lemma_feed_outputs_command(buffer: Seq<u8>, bytes: Seq<u8>)
    requires
        buffer.len() + bytes.len() < MAX_CMD_LEN,
        forall|i: int| 0 <= i < bytes.len() ==> #[trigger] bytes[i] != CH_SEMICOLON && bytes[i] != CH_CR
            && bytes[i] != CH_LF,
    ensures
        feed_outputs(buffer, bytes.push(CH_SEMICOLON)) == Seq::new(bytes.len(), |i: int| None::<CatRequest>).push(
            cat_parse(buffer + bytes),
        ),
    decreases bytes.len(),
{
    let all = bytes.push(CH_SEMICOLON);
    if bytes.len() == 0 {
        assert(buffer + bytes =~= buffer);
        assert(all.drop_first() =~= Seq::<u8>::empty());
        assert(all[0] == CH_SEMICOLON);
        let (next, out) = cat_feed(buffer, all[0]);
        assert(out == cat_parse(buffer));
        assert(feed_outputs(next, all.drop_first()) == Seq::<Option<CatRequest>>::empty());
        assert(seq![out] + Seq::<Option<CatRequest>>::empty() =~= seq![cat_parse(buffer)]);
        assert(feed_outputs(buffer, all) =~= seq![cat_parse(buffer)]);
        assert(Seq::new(0, |i: int| None::<CatRequest>).push(cat_parse(buffer)) =~= seq![cat_parse(buffer)]);
    } else {
        let b0 = bytes[0];
        assert(all[0] == b0);
        let rest = bytes.drop_first();
        assert forall|i: int| 0 <= i < rest.len() implies #[trigger] rest[i] != CH_SEMICOLON && rest[i] != CH_CR
            && rest[i] != CH_LF by {
            assert(rest[i] == bytes[i + 1]);
        }
        lemma_feed_outputs_command(buffer.push(b0), rest);
        assert(all.drop_first() =~= rest.push(CH_SEMICOLON));
        assert(buffer.push(b0) + rest =~= buffer + bytes);
        assert(feed_outputs(buffer, all) =~= Seq::new(bytes.len(), |i: int| None::<CatRequest>).push(
            cat_parse(buffer + bytes),
        ));
    }
}

/// A frequency report fed to the parser byte by byte reports nothing for
/// the thirteen bytes before the `;`, and the `;` reports the same
/// frequency on the same VFO.
pub proof fn lemma_frequency_feed_outputs(hz: u32, vfo_b: bool)
    requires
        freq_in_range(hz as int),
    ensures
        frequency_response(hz, vfo_b).len() == 14,
        feed_outputs(Seq::empty(), frequency_response(hz, vfo_b)) == Seq::new(13, |i: int| None::<CatRequest>).push(
            Some(CatRequest::SetFrequency(hz, vfo_b)),
        ),
{
    lemma_frequency_feed_round_trip(hz, vfo_b);
    let resp = frequency_response(hz, vfo_b);
    let cmd = resp.drop_last();
    lemma_decimal_padded_value(hz as nat, 11);
    assert(resp =~= cmd.push(CH_SEMICOLON));
    assert(cmd.len() == 13);
    lemma_feed_outputs_command(Seq::empty(), cmd);
    assert(Seq::<u8>::empty() + cmd =~= cmd);
    lemma_frequency_round_trip(hz, vfo_b);
}

/// The on/off commands take their flag from the byte after the two command
/// letters, and only `1` (ASCII 49) means on: for any such command with a
/// third byte, the parsed command is the setter with flag `s[2] == '1'`:
/// `FR` selects the receive VFO (B on `1`), `FT` the transmit VFO, `AI`
/// auto information, `VX` VOX, `NB` the noise blanker, `PA` the preamp and
/// `PS` the power switch.
pub proof fn lemma_flag_commands(s: Seq<u8>, r: Option<CatCommand>)
    requires
        s.len() >= 3,
        vstd::utf8::valid_utf8(s),
        request_of(r) == cat_parse(s),
    ensures
        s[0] == 70 && s[1] == 82 ==> r == Some(CatCommand::SetRxVfo(s[2] == 49)),
        s[0] == 70 && s[1] == 84 ==> r == Some(CatCommand::SetTxVfo(s[2] == 49)),
        s[0] == 65 && s[1] == 73 ==> r == Some(CatCommand::SetAutoInfo(s[2] == 49)),
        s[0] == 86 && s[1] == 88 ==> r == Some(CatCommand::SetVox(s[2] == 49)),
        s[0] == 78 && s[1] == 66 ==> r == Some(CatCommand::SetNb(s[2] == 49)),
        s[0] == 80 && s[1] == 65 ==> r == Some(CatCommand::SetPreamp(s[2] == 49)),
        s[0] == 80 && s[1] == 83 ==> r == Some(CatCommand::SetPowerSwitch(s[2] == 49)),
{
}

/// The Kenwood mode digits: `MD1` is LSB, `MD2` USB, `MD3` CW, `MD4` FM,
/// `MD5` AM and `MD7` reverse CW, in both directions: a mode command with
/// any other digit is rejected, and each mode is reported with its digit.
pub proof fn lemma_mode_codes(s: Seq<u8>, r: Option<CatCommand>, mode: Mode)
    requires
        s.len() >= 3,
        vstd::utf8::valid_utf8(s),
        request_of(r) == cat_parse(s),
        s[0] == 77 && s[1] == 68,
    ensures
        s[2] == 49 ==> r == Some(CatCommand::SetMode(Mode::Lsb)),
        s[2] == 50 ==> r == Some(CatCommand::SetMode(Mode::Usb)),
        s[2] == 51 ==> r == Some(CatCommand::SetMode(Mode::Cw)),
        s[2] == 52 ==> r == Some(CatCommand::SetMode(Mode::Fm)),
        s[2] == 53 ==> r == Some(CatCommand::SetMode(Mode::Am)),
        s[2] == 55 ==> r == Some(CatCommand::SetMode(Mode::CwR)),
        !(49 <= s[2] <= 53 || s[2] == 55) ==> r is None,
        mode_response(mode) == seq![77u8, 68u8, match mode {
            Mode::Lsb => 49u8,
            Mode::Usb => 50u8,
            Mode::Cw => 51u8,
            Mode::Fm => 52u8,
            Mode::Am => 53u8,
            Mode::CwR => 55u8,
        }, 59u8],
{
}

} // verus!
