use vstd::prelude::*;

verus! {

use vstd::string::StringExecFns;
use vstd::utf8::is_ascii_chars;

/// The library's own error for payload handling.
#[derive(Debug, Clone, Copy, PartialEq, Eq, Structural)]
pub enum KalError {
    /// The formatted payload does not fit the fixed wire-string capacity.
    Capacity,
}

/// Which topic namespace a key expression belongs to: inbound commands or
/// outbound telemetry.
#[derive(Debug, Clone, Copy, PartialEq, Eq, Structural)]
pub enum KeyExprType {
    Command,
    Telemetry,
}

/// A value destined for telemetry: a device output level or a sensor reading.
/// Numeric readings are carried in hundredths of a unit (centi-degrees,
/// centi-percent), so that the two-decimal wire format is exact.
#[derive(Debug, Clone, Copy, PartialEq, Eq, Structural)]
pub enum KalVal {
    Led(bool),
    Relay(bool),
    Temperature(i32),
    Humidity(i32),
    DewPoint(i32),
}

/// The character for one decimal digit.
pub open spec fn digit_char(d: nat) -> char {
    if d == 0 {
        '0'
    } else if d == 1 {
        '1'
    } else if d == 2 {
        '2'
    } else if d == 3 {
        '3'
    } else if d == 4 {
        '4'
    } else if d == 5 {
        '5'
    } else if d == 6 {
        '6'
    } else if d == 7 {
        '7'
    } else if d == 8 {
        '8'
    } else {
        '9'
    }
}

/// The decimal digits of `n`, most significant first, without leading
/// zeroes (a single zero for zero itself).
pub open spec fn dec_chars(n: nat) -> Seq<char>
    decreases n,
{
    if n < 10 {
        seq![digit_char(n)]
    } else {
        dec_chars(n / 10).push(digit_char(n % 10))
    }
}

/// The fixed two-decimal-place rendering of a value carried in hundredths:
/// an optional minus sign, the whole part, a point, and exactly two
/// fractional digits.
pub open spec fn centi_chars(v: int) -> Seq<char> {
    let a = if v < 0 {
        -v
    } else {
        v
    };
    let sign: Seq<char> = if v < 0 {
        seq!['-']
    } else {
        Seq::empty()
    };
    sign + dec_chars((a / 100) as nat) + seq!['.', digit_char(((a / 10) % 10) as nat), digit_char((a % 10) as nat)]
}

/// The wire payload for each value: booleans as literal strings, numeric
/// readings as fixed two-decimal-place strings.
pub open spec fn payload_chars(v: KalVal) -> Seq<char> {
    match v {
        KalVal::Led(b) | KalVal::Relay(b) => if b {
            "true"@
        } else {
            "false"@
        },
        KalVal::Temperature(c) | KalVal::Humidity(c) | KalVal::DewPoint(c) => centi_chars(c as int),
    }
}

proof fn lemma_dec_chars_ascii(n: nat)
    ensures
        is_ascii_chars(dec_chars(n)),
    decreases n,
{
    if n >= 10 {
        lemma_dec_chars_ascii(n / 10);
    }
}

fn digit_str(d: u32) -> (r: &'static str)
    requires
        d < 10,
    ensures
        r@ == seq![digit_char(d as nat)],
        is_ascii_chars(r@),
{
    proof {
        reveal_strlit("0");
        reveal_strlit("1");
        reveal_strlit("2");
        reveal_strlit("3");
        reveal_strlit("4");
        reveal_strlit("5");
        reveal_strlit("6");
        reveal_strlit("7");
        reveal_strlit("8");
        reveal_strlit("9");
    }
    let r = match d {
        0 => "0",
        1 => "1",
        2 => "2",
        3 => "3",
        4 => "4",
        5 => "5",
        6 => "6",
        7 => "7",
        8 => "8",
        _ => "9",
    };
    proof {
        assert(r@ =~= seq![digit_char(d as nat)]);
    }
    r
}

fn append_dec(out: &mut String, n: u32)
    ensures
        final(out)@ == old(out)@ + dec_chars(n as nat),
    decreases n,
{
    if n < 10 {
        out.append(digit_str(n));
    } else {
        append_dec(out, n / 10);
        out.append(digit_str(n % 10));
        proof {
            assert(out@ =~= old(out)@ + dec_chars(n as nat));
        }
    }
}

/// The two-decimal-place string for a value in hundredths of a unit.
pub fn centi_string(v: i32) -> (r: String)
    ensures
        r@ == centi_chars(v as int),
        is_ascii_chars(r@),
{
    let mut s = String::new();
    let a: u32 = if v < 0 {
        s.append("-");
        (-(v as i64)) as u32
    } else {
        v as u32
    };
    append_dec(&mut s, a / 100);
    s.append(".");
    s.append(digit_str((a / 10) % 10));
    s.append(digit_str(a % 10));
    proof {
        reveal_strlit("-");
        reveal_strlit(".");
        lemma_dec_chars_ascii((a / 100) as nat);
        assert(s@ =~= centi_chars(v as int));
    }
    s
}

fn bool_string(b: bool) -> (r: &'static str)
    ensures
        r@ == (if b {
            "true"@
        } else {
            "false"@
        }),
        is_ascii_chars(r@),
{
    proof {
        reveal_strlit("true");
        reveal_strlit("false");
    }
    if b {
        "true"
    } else {
        "false"
    }
}

/// heapless::String, the fixed-capacity wire string the transport layer
/// sends, declared so that it can appear in signatures.  Its text is only
/// reached through `packed_chars`.
#[verifier::external_type_specification]
#[verifier::external_body]
pub struct ExHeaplessString<const N: usize>(heapless::String<N>);

/// The text held by a fixed-capacity wire string.
pub uninterp spec fn packed_chars(s: heapless::String<10>) -> Seq<char>;

/// Relies on heapless::String::try_from(&str): the conversion copies the
/// text when its UTF-8 length fits the ten-byte capacity, and reports a
/// capacity error, touching nothing, when it does not.
#[verifier::external_body]
fn pack_payload(s: &str) -> (r: Result<heapless::String<10>, KalError>)
    ensures
        is_ascii_chars(s@) && s@.len() <= 10 ==> r is Ok,
        r matches Ok(p) ==> packed_chars(p) == s@,
        s@.len() > 10 ==> r is Err,
        r matches Err(e) ==> e is Capacity,
{
    match heapless::String::try_from(s) {
        Ok(p) => Ok(p),
        Err(()) => Err(KalError::Capacity),
    }
}

/// The key expression for each value and namespace.
pub open spec fn keyexpr_spec(v: KalVal, ke_type: KeyExprType) -> Seq<char> {
    match (ke_type, v) {
        (KeyExprType::Command, KalVal::Led(_)) => "kal/cmnd/led"@,
        (KeyExprType::Command, KalVal::Relay(_)) => "kal/cmnd/relay"@,
        (KeyExprType::Command, KalVal::Temperature(_)) => "kal/cmnd/temperature"@,
        (KeyExprType::Command, KalVal::Humidity(_)) => "kal/cmnd/humidity"@,
        (KeyExprType::Command, KalVal::DewPoint(_)) => "kal/cmnd/dewpoint"@,
        (KeyExprType::Telemetry, KalVal::Led(_)) => "kal/tele/led"@,
        (KeyExprType::Telemetry, KalVal::Relay(_)) => "kal/tele/relay"@,
        (KeyExprType::Telemetry, KalVal::Temperature(_)) => "kal/tele/temperature"@,
        (KeyExprType::Telemetry, KalVal::Humidity(_)) => "kal/tele/humidity"@,
        (KeyExprType::Telemetry, KalVal::DewPoint(_)) => "kal/tele/dewpoint"@,
    }
}

impl KalVal {
    /// The wire payload announcing this value, in the fixed-capacity string
    /// the transport sends: booleans as literal strings, numeric readings
    /// with exactly two decimal places.  A reading too wide for the wire
    /// string is reported as a capacity error.
    pub fn as_string(&self) -> (r: Result<heapless::String<10>, KalError>)
        ensures
            r is Ok <==> payload_chars(*self).len() <= 10,
            r matches Ok(p) ==> packed_chars(p) == payload_chars(*self),
            r matches Err(e) ==> e is Capacity,
    {
        let s: String = match self {
            KalVal::Led(b) | KalVal::Relay(b) => String::from_str(bool_string(*b)),
            KalVal::Temperature(c) | KalVal::Humidity(c) | KalVal::DewPoint(c) => centi_string(*c),
        };
        pack_payload(s.as_str())
    }

    /// The pub/sub topic under which this value is subscribed to (commands)
    /// or published (telemetry).  The topic depends only on the variant, not
    /// on the carried payload.
    pub fn as_keyexpr(&self, ke_type: &KeyExprType) -> (r: &'static str)
        ensures
            r@ == keyexpr_spec(*self, *ke_type),
    {
        match (ke_type, self) {
            (KeyExprType::Command, KalVal::Led(_)) => "kal/cmnd/led",
            (KeyExprType::Command, KalVal::Relay(_)) => "kal/cmnd/relay",
            (KeyExprType::Command, KalVal::Temperature(_)) => "kal/cmnd/temperature",
            (KeyExprType::Command, KalVal::Humidity(_)) => "kal/cmnd/humidity",
            (KeyExprType::Command, KalVal::DewPoint(_)) => "kal/cmnd/dewpoint",
            (KeyExprType::Telemetry, KalVal::Led(_)) => "kal/tele/led",
            (KeyExprType::Telemetry, KalVal::Relay(_)) => "kal/tele/relay",
            (KeyExprType::Telemetry, KalVal::Temperature(_)) => "kal/tele/temperature",
            (KeyExprType::Telemetry, KalVal::Humidity(_)) => "kal/tele/humidity",
            (KeyExprType::Telemetry, KalVal::DewPoint(_)) => "kal/tele/dewpoint",
        }
    }
}

} // verus!
