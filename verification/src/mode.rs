use vstd::prelude::*;
use vstd::bytes::spec_u16_from_le_bytes;
use crate::errors::{Error, ProtocolError};
use crate::framing::Response;

verus! {

/// The probe's operating mode: exactly one value is active per session at any
/// time, changed only by explicit transition commands or learned by querying.
#[derive(Clone, Copy, Debug, PartialEq, Eq, Structural)]
pub enum Mode {
    Dfu,
    Mass,
    Debug,
    Swim,
    Bootloader,
}

/// The wire code of each mode, as GET_CURRENT_MODE reports it.
pub open spec fn spec_mode_code(m: Mode) -> u16 {
    match m {
        Mode::Dfu => 0x00,
        Mode::Mass => 0x01,
        Mode::Debug => 0x02,
        Mode::Swim => 0x03,
        Mode::Bootloader => 0x04,
    }
}

/// Decoding of a mode code: total over the five known codes, every other
/// value is a protocol error, never a guess.
pub open spec fn spec_decode_mode(code: u16) -> Result<Mode, Error> {
    if code == 0x00 {
        Ok(Mode::Dfu)
    } else if code == 0x01 {
        Ok(Mode::Mass)
    } else if code == 0x02 {
        Ok(Mode::Debug)
    } else if code == 0x03 {
        Ok(Mode::Swim)
    } else if code == 0x04 {
        Ok(Mode::Bootloader)
    } else {
        Err(Error::Protocol(ProtocolError::UnknownMode(code)))
    }
}

/// Decode a 2-byte little-endian mode code.
pub fn decode_mode_code(code: u16) -> (r: Result<Mode, Error>)
    ensures
        r == spec_decode_mode(code),
        r is Ok <==> code <= 0x04,
{
    match code {
        0x00 => Ok(Mode::Dfu),
        0x01 => Ok(Mode::Mass),
        0x02 => Ok(Mode::Debug),
        0x03 => Ok(Mode::Swim),
        0x04 => Ok(Mode::Bootloader),
        _ => Err(Error::Protocol(ProtocolError::UnknownMode(code))),
    }
}

/// Decode the GET_CURRENT_MODE response: a 2-byte little-endian code in
/// 0x00..=0x04; anything else is a protocol error.
pub fn decode_mode(res: &mut Response) -> (r: Result<Mode, Error>)
    requires
        old(res).wf(),
        old(res).cursor() + 2 <= old(res).data().len(),
    ensures
        final(res).wf(),
        final(res).data() == old(res).data(),
        final(res).cursor() == old(res).cursor() + 2,
        r == spec_decode_mode(
            spec_u16_from_le_bytes(
                old(res).data().subrange(old(res).cursor(), old(res).cursor() + 2),
            ),
        ),
{
    let code = res.read_u16();
    decode_mode_code(code)
}

/// A command that can change or report the probe's mode.
#[derive(Clone, Copy, Debug, PartialEq, Eq, Structural)]
pub enum ModeAction {
    /// GET_CURRENT_MODE: reports the active mode and changes nothing.
    Query,
    /// DFU_COMMAND / DFU_EXIT: leaves the DFU bootloader; the resulting mode
    /// is not specified, so it is unknown until queried again.
    ExitDfu,
    /// The APIv2 ENTER / ENTER_SWD pair: drives the probe into Debug.
    EnterSwd,
}

/// The transition table over the host's knowledge of the probe mode
/// (`None` = unknown until queried).
pub open spec fn spec_mode_after(m: Option<Mode>, a: ModeAction) -> Option<Mode> {
    match a {
        ModeAction::Query => m,
        ModeAction::ExitDfu => None,
        ModeAction::EnterSwd => Some(Mode::Debug),
    }
}

/// Which actions are legal in which state: leaving DFU is legal only from
/// DFU; querying and entering SWD are legal from any state.
pub open spec fn spec_action_allowed(m: Option<Mode>, a: ModeAction) -> bool {
    match a {
        ModeAction::Query => true,
        ModeAction::ExitDfu => m == Some(Mode::Dfu),
        ModeAction::EnterSwd => true,
    }
}

/// The host's view of the probe's mode state machine. The initial state is
/// unknown until queried; transitions are validated at call time against the
/// table above.
pub struct SessionState {
    pub mode: Option<Mode>,
}

impl SessionState {
    pub fn new() -> (r: SessionState)
        ensures
            r.mode is None,
    {
        SessionState { mode: None }
    }

    /// Record the mode reported by a completed query.
    pub fn observe_mode(&mut self, m: Mode)
        ensures
            final(self).mode == Some(m),
    {
        self.mode = Some(m);
    }

    /// Whether `a` is a legal transition in the current state.
    pub fn action_allowed(&self, a: ModeAction) -> (r: bool)
        ensures
            r == spec_action_allowed(self.mode, a),
    {
        match a {
            ModeAction::Query => true,
            ModeAction::ExitDfu => {
                match self.mode {
                    Some(Mode::Dfu) => true,
                    _ => false,
                }
            },
            ModeAction::EnterSwd => true,
        }
    }

    /// Apply a legal transition.
    pub fn apply(&mut self, a: ModeAction)
        requires
            spec_action_allowed(old(self).mode, a),
        ensures
            final(self).mode == spec_mode_after(old(self).mode, a),
    {
        match a {
            ModeAction::Query => {},
            ModeAction::ExitDfu => {
                self.mode = None;
            },
            ModeAction::EnterSwd => {
                self.mode = Some(Mode::Debug);
            },
        }
    }
}

/// Querying the mode does not change it: a second query with no intervening
/// command returns the same value as the first.
pub proof fn lemma_mode_query_idempotent(m: Option<Mode>)
    ensures
        spec_mode_after(m, ModeAction::Query) == m,
        spec_mode_after(spec_mode_after(m, ModeAction::Query), ModeAction::Query) == m,
{
}

/// The next step of the pattern that drives the probe into Debug.
#[derive(Clone, Copy, Debug, PartialEq, Eq, Structural)]
pub enum DebugEntryStep {
    /// The probe sits in the DFU bootloader: leave it first.
    ExitDfu,
    /// Not in Debug yet: issue the SWD entry command pair.
    EnterSwd,
    /// Already in Debug: nothing to do.
    Done,
}

/// Decide the next step towards Debug from the last queried mode: leave DFU
/// first, finish when Debug is reached, enter SWD from anywhere else.
pub fn debug_entry_step(m: Mode) -> (r: DebugEntryStep)
    ensures
        (r == DebugEntryStep::ExitDfu) <==> m == Mode::Dfu,
        (r == DebugEntryStep::Done) <==> m == Mode::Debug,
        (r == DebugEntryStep::EnterSwd) <==> (m != Mode::Dfu && m != Mode::Debug),
{
    match m {
        Mode::Dfu => DebugEntryStep::ExitDfu,
        Mode::Debug => DebugEntryStep::Done,
        _ => DebugEntryStep::EnterSwd,
    }
}

} // verus!
