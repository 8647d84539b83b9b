//! Session configuration: line settings, baud-rate parsing, log-file naming.

use vstd::prelude::*;

verus! {

/// Baud rate applied when the caller does not choose one.
pub const DEFAULT_BAUD_RATE: u32 = 115200;

/// Line settings applied identically to both serial endpoints. The baud rate
/// is chosen by the caller; everything else is fixed: 8 data bits, 1 stop
/// bit, no parity, no flow control, a 10 ms read timeout.
#[derive(Clone, Copy, Debug)]
pub struct LineSettings {
    pub baud_rate: u32,
    pub data_bits: u8,
    pub stop_bits: u8,
    pub parity_enabled: bool,
    pub flow_control_enabled: bool,
    pub read_timeout_ms: u64,
}

/// The fixed, non-configurable part of the line settings.
pub open spec fn fixed_line_settings(s: LineSettings) -> bool {
    &&& s.data_bits == 8
    &&& s.stop_bits == 1
    &&& !s.parity_enabled
    &&& !s.flow_control_enabled
    &&& s.read_timeout_ms == 10
}

/// Settings for one passthrough session at the given baud rate.
pub fn passthrough_settings(baud_rate: u32) -> (s: LineSettings)
    ensures
        s.baud_rate == baud_rate,
        fixed_line_settings(s),
{
    LineSettings {
        baud_rate,
        data_bits: 8,
        stop_bits: 1,
        parity_enabled: false,
        flow_control_enabled: false,
        read_timeout_ms: 10,
    }
}

/// A decimal digit, as a byte of ASCII text.
pub open spec fn is_ascii_digit(b: u8) -> bool {
    0x30 <= b && b <= 0x39
}

/// Every byte of `s` is a decimal digit.
pub open spec fn all_ascii_digits(s: Seq<u8>) -> bool {
    forall|i: int| 0 <= i < s.len() ==> is_ascii_digit(#[trigger] s[i])
}

/// The number that a string of decimal digits denotes, most significant
/// digit first.
pub open spec fn decimal_value(s: Seq<u8>) -> int
    decreases s.len(),
{
    if s.len() == 0 {
        0
    } else {
        decimal_value(s.drop_last()) * 10 + (s.last() - 0x30)
    }
}

proof fn lemma_decimal_value_nonneg(s: Seq<u8>)
    requires
        all_ascii_digits(s),
    ensures
        decimal_value(s) >= 0,
    decreases s.len(),
{
    if s.len() > 0 {
        assert forall|i: int| 0 <= i < s.drop_last().len()
            implies is_ascii_digit(#[trigger] s.drop_last()[i]) by {
            assert(s.drop_last()[i] == s[i]);
        }
        lemma_decimal_value_nonneg(s.drop_last());
    }
}

/// Appending digits never shrinks the denoted number: the value of a digit
/// string is at least the value of any of its prefixes.
proof fn lemma_decimal_value_prefix_le(s: Seq<u8>, n: int)
    requires
        0 <= n <= s.len(),
        all_ascii_digits(s),
    ensures
        decimal_value(s.take(n)) <= decimal_value(s),
    decreases s.len() - n,
{
    if n == s.len() {
        assert(s.take(n) =~= s);
    } else {
        assert forall|i: int| 0 <= i < s.take(n).len()
            implies is_ascii_digit(#[trigger] s.take(n)[i]) by {
            assert(s.take(n)[i] == s[i]);
        }
        lemma_decimal_value_nonneg(s.take(n));
        assert(s.take(n + 1).drop_last() =~= s.take(n));
        assert(s.take(n + 1).last() == s[n]);
        lemma_decimal_value_prefix_le(s, n + 1);
    }
}

/// Parse a baud-rate argument: a non-empty string of decimal digits whose
/// value fits in `u32`. Anything else — an empty string, a sign, a
/// non-digit, a value past `u32::MAX` — is rejected with `None`, which
/// startup treats as a fatal configuration error.
pub fn parse_baud(text: &Vec<u8>) -> (r: Option<u32>)
    ensures
        r is Some <==> (text@.len() > 0 && all_ascii_digits(text@)
            && decimal_value(text@) <= u32::MAX),
        r matches Some(v) ==> v == decimal_value(text@),
{
    if text.len() == 0 {
        return None;
    }
    let mut value: u32 = 0;
    let mut i: usize = 0;
    while i < text.len()
        invariant
            0 < text.len(),
            i <= text.len(),
            all_ascii_digits(text@.take(i as int)),
            value == decimal_value(text@.take(i as int)),
        decreases text.len() - i,
    {
        let b = text[i];
        if b < 0x30 || b > 0x39 {
            assert(!is_ascii_digit(text@[i as int]));
            return None;
        }
        let d: u32 = (b - 0x30) as u32;
        proof {
            assert(text@.take(i as int + 1).drop_last() =~= text@.take(i as int));
            assert(text@.take(i as int + 1).last() == text@[i as int]);
        }
        if value > 429496729 || (value == 429496729 && d > 5) {
            proof {
                assert(decimal_value(text@.take(i as int + 1)) > u32::MAX);
                if all_ascii_digits(text@) {
                    lemma_decimal_value_prefix_le(text@, i as int + 1);
                }
            }
            return None;
        }
        value = value * 10 + d;
        i = i + 1;
    }
    proof {
        assert(text@.take(text@.len() as int) =~= text@);
    }
    Some(value)
}

/// The suffix appended to a port's name to form its log-file name.
pub open spec fn bin_suffix() -> Seq<u8> {
    seq![0x2eu8, 0x62u8, 0x69u8, 0x6eu8]
}

/// The log file for a port: the port's own name followed by ".bin".
pub fn log_file_name(port_name: &Vec<u8>) -> (r: Vec<u8>)
    ensures
        r@ == port_name@ + bin_suffix(),
{
    let mut r: Vec<u8> = Vec::new();
    let mut i: usize = 0;
    while i < port_name.len()
        invariant
            i <= port_name.len(),
            r@ == port_name@.take(i as int),
        decreases port_name.len() - i,
    {
        r.push(port_name[i]);
        assert(r@ =~= port_name@.take(i as int + 1));
        i = i + 1;
    }
    r.push(0x2e);
    r.push(0x62);
    r.push(0x69);
    r.push(0x6e);
    assert(r@ =~= port_name@ + bin_suffix());
    r
}

/// The one configuration error startup can hit before touching hardware.
#[derive(Clone, Copy, Debug, PartialEq, Eq, Structural)]
pub enum ConfigError {
    /// The baud-rate argument is not a decimal number that fits in `u32`.
    InvalidBaud,
}

/// Everything startup decides before opening a device: the shared line
/// settings and the two log-file names.
#[derive(Clone, Debug)]
pub struct SessionPlan {
    pub settings: LineSettings,
    pub input_log_name: Vec<u8>,
    pub output_log_name: Vec<u8>,
}

/// Turn the three command-line values — the two port names and the baud-rate
/// text — into a session plan. Succeeds exactly when the baud text is a
/// well-formed rate; both ports get identical settings, and each port's log
/// is named after the port itself.
pub fn plan_session(input_port: &Vec<u8>, output_port: &Vec<u8>, baud_text: &Vec<u8>)
    -> (r: Result<SessionPlan, ConfigError>)
    ensures
        r is Ok <==> (baud_text@.len() > 0 && all_ascii_digits(baud_text@)
            && decimal_value(baud_text@) <= u32::MAX),
        r matches Ok(plan) ==> {
            &&& plan.settings.baud_rate == decimal_value(baud_text@)
            &&& fixed_line_settings(plan.settings)
            &&& plan.input_log_name@ == input_port@ + bin_suffix()
            &&& plan.output_log_name@ == output_port@ + bin_suffix()
        },
        r is Err ==> (r matches Err(e) && e == ConfigError::InvalidBaud),
{
    match parse_baud(baud_text) {
        Some(baud) => Ok(SessionPlan {
            settings: passthrough_settings(baud),
            input_log_name: log_file_name(input_port),
            output_log_name: log_file_name(output_port),
        }),
        None => Err(ConfigError::InvalidBaud),
    }
}

} // verus!
