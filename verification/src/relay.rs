use vstd::prelude::*;

use crate::togglable::{eq2, eq3, eq6};

verus! {

/// A relay command decoded under the strict policy.
#[derive(Debug, Clone, Copy, PartialEq, Eq, Structural)]
pub enum RelayCmnd {
    On,
    Off,
    Toggle,
}

/// The strict decoder's error, carrying the offending payload.
#[derive(Debug, Clone, Copy)]
pub enum RelayCmndError<'a> {
    InvalidPayload(&'a [u8]),
}

/// The strict decoding policy: exact-byte tokens only, everything else is
/// rejected.
pub open spec fn strict_decode(s: Seq<u8>) -> Option<RelayCmnd> {
    if s == seq!['O' as u8, 'N' as u8] {
        Some(RelayCmnd::On)
    } else if s == seq!['O' as u8, 'F' as u8, 'F' as u8] {
        Some(RelayCmnd::Off)
    } else if s == seq!['T' as u8, 'O' as u8, 'G' as u8, 'G' as u8, 'L' as u8, 'E' as u8] {
        Some(RelayCmnd::Toggle)
    } else {
        None
    }
}

impl RelayCmnd {
    /// Strict decoding of a raw relay-command payload: only the literal
    /// tokens `ON`, `OFF` and `TOGGLE` are accepted; any other payload is
    /// rejected with the offending bytes.
    pub fn try_from<'a>(value: &'a [u8]) -> (r: Result<RelayCmnd, RelayCmndError<'a>>)
        ensures
            r is Ok <==> strict_decode(value@) is Some,
            strict_decode(value@) matches Some(cmd) ==> r == Ok::<RelayCmnd, RelayCmndError>(cmd),
            strict_decode(value@) is None ==> (r matches Err(RelayCmndError::InvalidPayload(p))
                && p@ == value@),
    {
        if eq2(value, 'O' as u8, 'N' as u8) {
            Ok(RelayCmnd::On)
        } else if eq3(value, 'O' as u8, 'F' as u8, 'F' as u8) {
            Ok(RelayCmnd::Off)
        } else if eq6(value, 'T' as u8, 'O' as u8, 'G' as u8, 'G' as u8, 'L' as u8, 'E' as u8) {
            Ok(RelayCmnd::Toggle)
        } else {
            Err(RelayCmndError::InvalidPayload(value))
        }
    }
}

/// What a one-shot query reply contributes to the relay's inbox.  An error
/// reply is only logged and contributes nothing; an Ok reply's payload is
/// decoded under the strict policy, and a payload outside the strict tokens
/// is the decoder's error.
pub fn handle_reply<'a>(reply_ok: bool, payload: &'a [u8]) -> (r: Result<
    Option<RelayCmnd>,
    RelayCmndError<'a>,
>)
    ensures
        !reply_ok ==> r == Ok::<Option<RelayCmnd>, RelayCmndError>(None),
        reply_ok ==> (r is Ok <==> strict_decode(payload@) is Some),
        reply_ok ==> (strict_decode(payload@) matches Some(cmd) ==> r == Ok::<
            Option<RelayCmnd>,
            RelayCmndError,
        >(Some(cmd))),
        reply_ok && strict_decode(payload@) is None ==> (r matches Err(
            RelayCmndError::InvalidPayload(p),
        ) && p@ == payload@),
{
    if !reply_ok {
        return Ok(None);
    }
    match RelayCmnd::try_from(payload) {
        Ok(cmd) => Ok(Some(cmd)),
        Err(e) => Err(e),
    }
}

} // verus!
