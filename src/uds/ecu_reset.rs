//! Resetting the ECU, to simulate power cycling and to reset memory regions

use vstd::prelude::*;

use super::{
    is_nrc_error, is_positive, is_response_error, is_unit_command_result,
    is_not_open_refusal, known_unopened, lookup_uds_nrc, UDSCommand, UdsDiagnosticServer,
};
use crate::channel::{ChannelResult, PayloadChannel};
use crate::diag::{DiagError, DiagServerResult};

verus! {

/// Service identifier of ECU reset
pub const ECU_RESET_SID: u8 = 0x11;

/// Timing byte by which an ECU rejects rapid power shutdown
pub const RAPID_SHUTDOWN_REJECTED: u8 = 0xFF;

/// Negative response code of a general reject
pub const GENERAL_REJECT: u8 = 0x10;

/// Options for resetting the ECU
#[derive(Debug, Copy, Clone, PartialEq, Eq, Structural, PartialOrd, Ord)]
pub enum ResetType {
    /// Signals the ECU to perform a hard-reset,
    /// simulating a forceful power off/on cycle
    ///
    /// This might result in both non-volatile memory and volatile memory locations being re-initialized
    HardReset,
    /// Signals the ECU to perform a simulated key off/on cycle,
    /// simulating the usual key-off/on cycle
    ///
    /// This typically results in the preservation of non-volatile memory,
    /// but volatile memory will be re-initialized
    KeyOffReset,
    /// Signals the ECU to perform a soft reset, simply rebooting the current
    /// application running on it.
    ///
    /// This will result in the preservation of both non-volatile and volatile memory
    SoftReset,
    /// Enables a rapid power shutdown on the ECU during a key-off cycle.
    ///
    /// IMPORTANT: Once this has been used, the diagnostic server **cannot** send
    /// any other messages other than ECUReset in order to not disturb the rapid power
    /// shutdown function.
    EnableRapidPowerShutDown,
    /// Disables a rapid power shutdown on the ECU during a key-off cycle.
    DisableRapidPowerShutDown,
    /// Other OEM defined power mode
    Other(u8),
}

/// Wire code of a reset type
pub open spec fn reset_code(t: ResetType) -> u8 {
    match t {
        ResetType::HardReset => 0x01,
        ResetType::KeyOffReset => 0x02,
        ResetType::SoftReset => 0x03,
        ResetType::EnableRapidPowerShutDown => 0x04,
        ResetType::DisableRapidPowerShutDown => 0x05,
        ResetType::Other(x) => x,
    }
}

impl From<ResetType> for u8 {
    fn from(from: ResetType) -> (r: u8)
        ensures
            r == reset_code(from),
    {
        match from {
            ResetType::HardReset => 0x01,
            ResetType::KeyOffReset => 0x02,
            ResetType::SoftReset => 0x03,
            ResetType::EnableRapidPowerShutDown => 0x04,
            ResetType::DisableRapidPowerShutDown => 0x05,
            ResetType::Other(x) => x,
        }
    }
}

impl vstd::std_specs::convert::FromSpecImpl<ResetType> for u8 {
    open spec fn obeys_from_spec() -> bool {
        true
    }

    open spec fn from_spec(from: ResetType) -> u8 {
        reset_code(from)
    }
}

/// `r` is what the positive response `resp` to enabling rapid power shutdown yields:
/// its third byte, the seconds the ECU stays in the power-down sequence, unless that
/// byte is missing or rejects the request
pub open spec fn is_rapid_shutdown_result(resp: Seq<u8>, r: DiagServerResult<u8>) -> bool {
    if resp.len() < 3 {
        r == Err::<u8, DiagError>(DiagError::InvalidResponseLength)
    } else if resp[2] == RAPID_SHUTDOWN_REJECTED {
        r is Err && is_nrc_error(GENERAL_REJECT, r->Err_0)
    } else {
        r == Ok::<u8, DiagError>(resp[2])
    }
}

/// `r` is what enabling rapid power shutdown yields when the channel answered `reply`
pub open spec fn is_enable_rapid_shutdown_result(
    reply: ChannelResult<Seq<u8>>,
    r: DiagServerResult<u8>,
) -> bool {
    match reply {
        Err(e) => r == Err::<u8, DiagError>(DiagError::ChannelError(e)),
        Ok(resp) => if is_positive(ECU_RESET_SID, resp) {
            is_rapid_shutdown_result(resp, r)
        } else {
            r is Err && is_response_error(ECU_RESET_SID, resp, r->Err_0)
        },
    }
}

/// Reads the power-down time out of a positive response to enabling rapid power
/// shutdown. The timing byte 0xFF means that the ECU rejected the request, which gives
/// the general reject error.
pub fn rapid_shutdown_time(resp: &[u8]) -> (r: DiagServerResult<u8>)
    ensures
        is_rapid_shutdown_result(resp@, r),
{
    if resp.len() < 3 {
        Err(DiagError::InvalidResponseLength)
    } else if resp[2] == RAPID_SHUTDOWN_REJECTED {
        Err(DiagError::ECUError { code: GENERAL_REJECT, def: Some(lookup_uds_nrc(GENERAL_REJECT)) })
    } else {
        Ok(resp[2])
    }
}

impl<C: PayloadChannel> UdsDiagnosticServer<C> {
    /// Sends an ECU reset of type `t`, keeping only whether it succeeded
    fn reset(&mut self, t: ResetType) -> (r: DiagServerResult<()>)
        ensures
            final(self).last_request() == seq![ECU_RESET_SID, reset_code(t)],
            is_unit_command_result(ECU_RESET_SID, final(self).last_reply(), r),
            known_unopened(old(self).channel_view()) ==> is_not_open_refusal(r),
    {
        let code: u8 = t.into();
        let args: [u8; 1] = [code];
        let res = self.execute_command_with_response(UDSCommand::ECUReset, args.as_slice());
        assert(seq![ECU_RESET_SID] + args@ =~= seq![ECU_RESET_SID, reset_code(t)]);
        match res {
            Ok(_) => Ok(()),
            Err(e) => Err(e),
        }
    }

    /// Asks the ECU to perform a hard reset. See [ResetType::HardReset] for more details
    pub fn ecu_hard_reset(&mut self) -> (r: DiagServerResult<()>)
        ensures
            final(self).last_request() == seq![0x11u8, 0x01u8],
            is_unit_command_result(ECU_RESET_SID, final(self).last_reply(), r),
            known_unopened(old(self).channel_view()) ==> is_not_open_refusal(r),
    {
        self.reset(ResetType::HardReset)
    }

    /// Asks the ECU to perform a key off/on reset. See [ResetType::KeyOffReset] for more details
    pub fn ecu_key_off_on_reset(&mut self) -> (r: DiagServerResult<()>)
        ensures
            final(self).last_request() == seq![0x11u8, 0x02u8],
            is_unit_command_result(ECU_RESET_SID, final(self).last_reply(), r),
            known_unopened(old(self).channel_view()) ==> is_not_open_refusal(r),
    {
        self.reset(ResetType::KeyOffReset)
    }

    /// Asks the ECU to perform a soft reset. See [ResetType::SoftReset] for more details
    pub fn ecu_soft_reset(&mut self) -> (r: DiagServerResult<()>)
        ensures
            final(self).last_request() == seq![0x11u8, 0x03u8],
            is_unit_command_result(ECU_RESET_SID, final(self).last_reply(), r),
            known_unopened(old(self).channel_view()) ==> is_not_open_refusal(r),
    {
        self.reset(ResetType::SoftReset)
    }

    /// Asks the ECU to enable rapid power shutdown mode. See
    /// [ResetType::EnableRapidPowerShutDown] for more details: after it, no other
    /// command than an ECU reset may be sent to the ECU, which this server leaves to
    /// its caller.
    ///
    /// ## Returns
    /// If successful, the minimum time in seconds that the ECU will remain in the
    /// power-down sequence
    pub fn enable_rapid_power_shutdown(&mut self) -> (r: DiagServerResult<u8>)
        ensures
            final(self).last_request() == seq![0x11u8, 0x04u8],
            is_enable_rapid_shutdown_result(final(self).last_reply(), r),
            known_unopened(old(self).channel_view()) ==> is_not_open_refusal(r),
    {
        let code: u8 = ResetType::EnableRapidPowerShutDown.into();
        let args: [u8; 1] = [code];
        let res = self.execute_command_with_response(UDSCommand::ECUReset, args.as_slice());
        assert(seq![ECU_RESET_SID] + args@ =~= seq![0x11u8, 0x04u8]);
        match res {
            Ok(resp) => rapid_shutdown_time(resp.as_slice()),
            Err(e) => Err(e),
        }
    }

    /// Asks the ECU to disable rapid power shutdown mode
    pub fn disable_rapid_power_shutdown(&mut self) -> (r: DiagServerResult<()>)
        ensures
            final(self).last_request() == seq![0x11u8, 0x05u8],
            is_unit_command_result(ECU_RESET_SID, final(self).last_reply(), r),
            known_unopened(old(self).channel_view()) ==> is_not_open_refusal(r),
    {
        self.reset(ResetType::DisableRapidPowerShutDown)
    }
}

} // verus!
