use vstd::prelude::*;

verus! {

/// A decoded device command: switch the output on, switch it off, or flip
/// the current level.
#[derive(Debug, Clone, Copy, PartialEq, Eq, Structural)]
pub enum Togglable {
    On,
    Off,
    Toggle,
}

/// The payloads that the lenient decoder reads as "switch on".
pub open spec fn is_on_payload(s: Seq<u8>) -> bool {
    ||| s == seq!['O' as u8, 'N' as u8]
    ||| s == seq!['O' as u8, 'n' as u8]
    ||| s == seq!['o' as u8, 'n' as u8]
    ||| s == seq!['T' as u8, 'R' as u8, 'U' as u8, 'E' as u8]
    ||| s == seq!['T' as u8, 'r' as u8, 'u' as u8, 'e' as u8]
    ||| s == seq!['t' as u8, 'r' as u8, 'u' as u8, 'e' as u8]
    ||| s == seq!['1' as u8]
}

/// The payloads that the lenient decoder reads as "switch off".
pub open spec fn is_off_payload(s: Seq<u8>) -> bool {
    ||| s == seq!['O' as u8, 'F' as u8, 'F' as u8]
    ||| s == seq!['O' as u8, 'f' as u8, 'f' as u8]
    ||| s == seq!['o' as u8, 'f' as u8, 'f' as u8]
    ||| s == seq!['F' as u8, 'A' as u8, 'L' as u8, 'S' as u8, 'E' as u8]
    ||| s == seq!['F' as u8, 'a' as u8, 'l' as u8, 's' as u8, 'e' as u8]
    ||| s == seq!['f' as u8, 'a' as u8, 'l' as u8, 's' as u8, 'e' as u8]
    ||| s == seq!['0' as u8]
}

/// The lenient decoding policy: a known synonym selects On or Off, and any
/// other payload falls through to Toggle rather than failing.
pub open spec fn lenient_decode(s: Seq<u8>) -> Togglable {
    if is_on_payload(s) {
        Togglable::On
    } else if is_off_payload(s) {
        Togglable::Off
    } else {
        Togglable::Toggle
    }
}

pub(crate) fn eq1(v: &[u8], b0: u8) -> (r: bool)
    ensures
        r == (v@ == seq![b0]),
{
    let r = v.len() == 1 && v[0] == b0;
    proof {
        if r {
            assert(v@ =~= seq![b0]);
        }
    }
    r
}

pub(crate) fn eq2(v: &[u8], b0: u8, b1: u8) -> (r: bool)
    ensures
        r == (v@ == seq![b0, b1]),
{
    let r = v.len() == 2 && v[0] == b0 && v[1] == b1;
    proof {
        if r {
            assert(v@ =~= seq![b0, b1]);
        }
    }
    r
}

pub(crate) fn eq3(v: &[u8], b0: u8, b1: u8, b2: u8) -> (r: bool)
    ensures
        r == (v@ == seq![b0, b1, b2]),
{
    let r = v.len() == 3 && v[0] == b0 && v[1] == b1 && v[2] == b2;
    proof {
        if r {
            assert(v@ =~= seq![b0, b1, b2]);
        }
    }
    r
}

pub(crate) fn eq4(v: &[u8], b0: u8, b1: u8, b2: u8, b3: u8) -> (r: bool)
    ensures
        r == (v@ == seq![b0, b1, b2, b3]),
{
    let r = v.len() == 4 && v[0] == b0 && v[1] == b1 && v[2] == b2 && v[3] == b3;
    proof {
        if r {
            assert(v@ =~= seq![b0, b1, b2, b3]);
        }
    }
    r
}

pub(crate) fn eq5(v: &[u8], b0: u8, b1: u8, b2: u8, b3: u8, b4: u8) -> (r: bool)
    ensures
        r == (v@ == seq![b0, b1, b2, b3, b4]),
{
    let r = v.len() == 5 && v[0] == b0 && v[1] == b1 && v[2] == b2 && v[3] == b3 && v[4] == b4;
    proof {
        if r {
            assert(v@ =~= seq![b0, b1, b2, b3, b4]);
        }
    }
    r
}

pub(crate) fn eq6(v: &[u8], b0: u8, b1: u8, b2: u8, b3: u8, b4: u8, b5: u8) -> (r: bool)
    ensures
        r == (v@ == seq![b0, b1, b2, b3, b4, b5]),
{
    let r = v.len() == 6 && v[0] == b0 && v[1] == b1 && v[2] == b2 && v[3] == b3 && v[4] == b4
        && v[5] == b5;
    proof {
        if r {
            assert(v@ =~= seq![b0, b1, b2, b3, b4, b5]);
        }
    }
    r
}

impl Togglable {
    /// Lenient decoding of a raw command payload: case and synonym tolerant,
    /// and every unrecognized payload decodes to Toggle.
    pub fn from_bytes(value: &[u8]) -> (r: Togglable)
        ensures
            r == lenient_decode(value@),
    {
        if eq2(value, 'O' as u8, 'N' as u8) || eq2(value, 'O' as u8, 'n' as u8) || eq2(value, 'o' as u8, 'n' as u8)
            || eq4(value, 'T' as u8, 'R' as u8, 'U' as u8, 'E' as u8) || eq4(value, 'T' as u8, 'r' as u8, 'u' as u8, 'e' as u8)
            || eq4(value, 't' as u8, 'r' as u8, 'u' as u8, 'e' as u8) || eq1(value, '1' as u8) {
            Togglable::On
        } else if eq3(value, 'O' as u8, 'F' as u8, 'F' as u8) || eq3(value, 'O' as u8, 'f' as u8, 'f' as u8)
            || eq3(value, 'o' as u8, 'f' as u8, 'f' as u8) || eq5(value, 'F' as u8, 'A' as u8, 'L' as u8, 'S' as u8, 'E' as u8)
            || eq5(value, 'F' as u8, 'a' as u8, 'l' as u8, 's' as u8, 'e' as u8) || eq5(value, 'f' as u8, 'a' as u8, 'l' as u8, 's' as u8, 'e' as u8)
            || eq1(value, '0' as u8) {
            Togglable::Off
        } else {
            Togglable::Toggle
        }
    }

    /// What a one-shot query reply contributes to a leniently decoded
    /// device's inbox: an error reply is only logged and contributes
    /// nothing; an Ok reply's payload always decodes to some command.
    pub fn from_reply(reply_ok: bool, payload: &[u8]) -> (r: Option<Togglable>)
        ensures
            !reply_ok ==> r is None,
            reply_ok ==> r == Some(lenient_decode(payload@)),
    {
        if reply_ok {
            Some(Togglable::from_bytes(payload))
        } else {
            None
        }
    }

    /// The textual form used for telemetry payloads.
    pub fn as_str(&self) -> (r: &'static str)
        ensures
            *self is On ==> r@ == "true"@,
            *self is Off ==> r@ == "false"@,
            *self is Toggle ==> r@ == "toggle"@,
    {
        match self {
            Togglable::On => "true",
            Togglable::Off => "false",
            Togglable::Toggle => "toggle",
        }
    }
}

impl From<bool> for Togglable {
    fn from(value: bool) -> (r: Self) {
        match value {
            true => Self::On,
            false => Self::Off,
        }
    }
}

impl vstd::std_specs::convert::FromSpecImpl<bool> for Togglable {
    open spec fn obeys_from_spec() -> bool {
        true
    }

    open spec fn from_spec(value: bool) -> Self {
        if value {
            Togglable::On
        } else {
            Togglable::Off
        }
    }
}

impl From<Option<bool>> for Togglable {
    fn from(value: Option<bool>) -> (r: Self) {
        match value {
            Some(true) => Self::On,
            Some(false) => Self::Off,
            None => Self::Toggle,
        }
    }
}

impl vstd::std_specs::convert::FromSpecImpl<Option<bool>> for Togglable {
    open spec fn obeys_from_spec() -> bool {
        true
    }

    open spec fn from_spec(value: Option<bool>) -> Self {
        match value {
            Some(true) => Togglable::On,
            Some(false) => Togglable::Off,
            None => Togglable::Toggle,
        }
    }
}

impl Default for Togglable {
    fn default() -> (r: Self)
        ensures
            r is Off,
    {
        Self::Off
    }
}

} // verus!
