//! Unified Diagnostic Services (ISO14229): command execution and response
//! interpretation.
//!
//! A command is sent as its service identifier followed by its parameters. The ECU
//! answers with the identifier plus 0x40 followed by its data, or with a negative
//! response `[0x7F, service identifier, negative response code]`.

use vstd::prelude::*;
use vstd::slice::slice_to_vec;

use crate::channel::{is_not_open_error, ChannelError, ChannelResult, ChannelState, PayloadChannel};
use crate::diag::{DiagError, DiagServerResult};

pub mod ecu_reset;

verus! {

/// First byte of a negative response
pub const NEGATIVE_RESPONSE: u8 = 0x7F;

/// Offset between a service identifier and the first byte of its positive response
pub const POSITIVE_OFFSET: u8 = 0x40;

/// UDS services that a diagnostic server can request
#[derive(Debug, Copy, Clone, PartialEq, Eq, Structural)]
pub enum UDSCommand {
    /// Diagnostic session control
    DiagnosticSessionControl,
    /// ECU reset
    ECUReset,
    /// Clear diagnostic information
    ClearDiagnosticInformation,
    /// Read DTC information
    ReadDTCInformation,
    /// Read data by identifier
    ReadDataByIdentifier,
    /// Security access
    SecurityAccess,
    /// Communication control
    CommunicationControl,
    /// Write data by identifier
    WriteDataByIdentifier,
    /// Routine control
    RoutineControl,
    /// Tester present
    TesterPresent,
    /// Control DTC settings
    ControlDTCSettings,
}

/// Service identifier of a command
pub open spec fn command_sid(cmd: UDSCommand) -> u8 {
    match cmd {
        UDSCommand::DiagnosticSessionControl => 0x10,
        UDSCommand::ECUReset => 0x11,
        UDSCommand::ClearDiagnosticInformation => 0x14,
        UDSCommand::ReadDTCInformation => 0x19,
        UDSCommand::ReadDataByIdentifier => 0x22,
        UDSCommand::SecurityAccess => 0x27,
        UDSCommand::CommunicationControl => 0x28,
        UDSCommand::WriteDataByIdentifier => 0x2E,
        UDSCommand::RoutineControl => 0x31,
        UDSCommand::TesterPresent => 0x3E,
        UDSCommand::ControlDTCSettings => 0x85,
    }
}

impl From<UDSCommand> for u8 {
    fn from(cmd: UDSCommand) -> (r: u8)
        ensures
            r == command_sid(cmd),
    {
        match cmd {
            UDSCommand::DiagnosticSessionControl => 0x10,
            UDSCommand::ECUReset => 0x11,
            UDSCommand::ClearDiagnosticInformation => 0x14,
            UDSCommand::ReadDTCInformation => 0x19,
            UDSCommand::ReadDataByIdentifier => 0x22,
            UDSCommand::SecurityAccess => 0x27,
            UDSCommand::CommunicationControl => 0x28,
            UDSCommand::WriteDataByIdentifier => 0x2E,
            UDSCommand::RoutineControl => 0x31,
            UDSCommand::TesterPresent => 0x3E,
            UDSCommand::ControlDTCSettings => 0x85,
        }
    }
}

impl vstd::std_specs::convert::FromSpecImpl<UDSCommand> for u8 {
    open spec fn obeys_from_spec() -> bool {
        true
    }

    open spec fn from_spec(cmd: UDSCommand) -> u8 {
        command_sid(cmd)
    }
}

/// Description of a negative response code
pub open spec fn nrc_text(code: u8) -> Seq<char> {
    match code {
        0x10 => "General reject"@,
        0x11 => "Service not supported"@,
        0x12 => "Sub-function not supported"@,
        0x13 => "Incorrect message length or invalid format"@,
        0x14 => "Response too long"@,
        0x21 => "Busy - repeat request"@,
        0x22 => "Conditions not correct"@,
        0x24 => "Request sequence error"@,
        0x25 => "No response from subnet component"@,
        0x26 => "Failure prevents execution of requested action"@,
        0x31 => "Request out of range"@,
        0x33 => "Security access denied"@,
        0x35 => "Invalid key"@,
        0x36 => "Exceeded number of attempts"@,
        0x37 => "Required time delay not expired"@,
        0x70 => "Upload/download not accepted"@,
        0x71 => "Transfer data suspended"@,
        0x72 => "General programming failure"@,
        0x73 => "Wrong block sequence counter"@,
        0x78 => "Request correctly received - response pending"@,
        0x7E => "Sub-function not supported in active session"@,
        0x7F => "Service not supported in active session"@,
        _ => "ISO reserved or manufacturer specific"@,
    }
}

/// Looks up the description of a negative response code
pub fn lookup_uds_nrc(code: u8) -> (r: String)
    ensures
        r@ == nrc_text(code),
{
    match code {
        0x10 => "General reject".to_owned(),
        0x11 => "Service not supported".to_owned(),
        0x12 => "Sub-function not supported".to_owned(),
        0x13 => "Incorrect message length or invalid format".to_owned(),
        0x14 => "Response too long".to_owned(),
        0x21 => "Busy - repeat request".to_owned(),
        0x22 => "Conditions not correct".to_owned(),
        0x24 => "Request sequence error".to_owned(),
        0x25 => "No response from subnet component".to_owned(),
        0x26 => "Failure prevents execution of requested action".to_owned(),
        0x31 => "Request out of range".to_owned(),
        0x33 => "Security access denied".to_owned(),
        0x35 => "Invalid key".to_owned(),
        0x36 => "Exceeded number of attempts".to_owned(),
        0x37 => "Required time delay not expired".to_owned(),
        0x70 => "Upload/download not accepted".to_owned(),
        0x71 => "Transfer data suspended".to_owned(),
        0x72 => "General programming failure".to_owned(),
        0x73 => "Wrong block sequence counter".to_owned(),
        0x78 => "Request correctly received - response pending".to_owned(),
        0x7E => "Sub-function not supported in active session".to_owned(),
        0x7F => "Service not supported in active session".to_owned(),
        _ => "ISO reserved or manufacturer specific".to_owned(),
    }
}

/// `e` is the ECU error of negative response code `code`, with its description
pub open spec fn is_nrc_error(code: u8, e: DiagError) -> bool {
    match e {
        DiagError::ECUError { code: c, def } => c == code && match def {
            Some(d) => d@ == nrc_text(code),
            None => false,
        },
        _ => false,
    }
}

/// `resp` is a positive response to service `sid`
pub open spec fn is_positive(sid: u8, resp: Seq<u8>) -> bool {
    &&& resp.len() > 0
    &&& resp[0] != NEGATIVE_RESPONSE
    &&& resp[0] as int == sid as int + POSITIVE_OFFSET as int
}

/// `e` is the error that `resp`, which is not a positive response to service `sid`,
/// stands for
pub open spec fn is_response_error(sid: u8, resp: Seq<u8>, e: DiagError) -> bool {
    if resp.len() == 0 {
        e == DiagError::InvalidResponseLength
    } else if resp[0] == NEGATIVE_RESPONSE {
        if resp.len() < 3 {
            e == DiagError::InvalidResponseLength
        } else {
            is_nrc_error(resp[2], e)
        }
    } else {
        e == DiagError::WrongMessage
    }
}

/// `r` is what a response `resp` to service `sid` yields: the whole response when it
/// is positive, else the error it stands for
pub open spec fn is_response_result(sid: u8, resp: Seq<u8>, r: DiagServerResult<Vec<u8>>) -> bool {
    if is_positive(sid, resp) {
        r is Ok && r->Ok_0@ == resp
    } else {
        r is Err && is_response_error(sid, resp, r->Err_0)
    }
}

/// `r` is what a command to service `sid` yields when the channel answered `reply`
pub open spec fn is_command_result(
    sid: u8,
    reply: ChannelResult<Seq<u8>>,
    r: DiagServerResult<Vec<u8>>,
) -> bool {
    match reply {
        Err(e) => r == Err::<Vec<u8>, DiagError>(DiagError::ChannelError(e)),
        Ok(resp) => is_response_result(sid, resp, r),
    }
}

/// `r` is what a command to service `sid` whose response body is of no use yields
/// when the channel answered `reply`
pub open spec fn is_unit_command_result(
    sid: u8,
    reply: ChannelResult<Seq<u8>>,
    r: DiagServerResult<()>,
) -> bool {
    match reply {
        Err(e) => r == Err::<(), DiagError>(DiagError::ChannelError(e)),
        Ok(resp) => if is_positive(sid, resp) {
            r == Ok::<(), DiagError>(())
        } else {
            r is Err && is_response_error(sid, resp, r->Err_0)
        },
    }
}

/// `r` is the refusal of a channel that is not open, passed on
pub open spec fn is_not_open_refusal<T>(r: DiagServerResult<T>) -> bool {
    match r {
        Err(DiagError::ChannelError(e)) => is_not_open_error(e),
        _ => false,
    }
}

/// The channel `c` is known to be not open
pub open spec fn known_unopened<C: PayloadChannel>(c: C) -> bool {
    c.lifecycle() is Some && c.lifecycle() != Some(ChannelState::Open)
}

/// What the channel answered, with the bytes of a response as a sequence
pub open spec fn reply_view(reply: ChannelResult<Vec<u8>>) -> ChannelResult<Seq<u8>> {
    match reply {
        Ok(v) => Ok(v@),
        Err(e) => Err(e),
    }
}

/// Interprets the response `resp` of an ECU to service `sid`.
///
/// A negative response gives [DiagError::ECUError] with its code and description;
/// a response too short to hold what it must gives [DiagError::InvalidResponseLength];
/// a response to another service gives [DiagError::WrongMessage]. A positive response
/// is returned whole.
pub fn interpret_response(sid: u8, resp: &[u8]) -> (r: DiagServerResult<Vec<u8>>)
    ensures
        is_response_result(sid, resp@, r),
{
    if resp.len() == 0 {
        Err(DiagError::InvalidResponseLength)
    } else if resp[0] == NEGATIVE_RESPONSE {
        if resp.len() < 3 {
            Err(DiagError::InvalidResponseLength)
        } else {
            let code = resp[2];
            Err(DiagError::ECUError { code, def: Some(lookup_uds_nrc(code)) })
        }
    } else if sid <= 0xFF - POSITIVE_OFFSET && resp[0] == sid + POSITIVE_OFFSET {
        Ok(slice_to_vec(resp))
    } else {
        Err(DiagError::WrongMessage)
    }
}

/// A UDS diagnostic server talking to one ECU over a byte channel.
///
/// It keeps a record, for contracts only, of the request it last sent and of what the
/// channel answered.
pub struct UdsDiagnosticServer<C: PayloadChannel> {
    channel: C,
    send_id: u32,
    write_timeout_ms: u32,
    read_timeout_ms: u32,
    sent: Ghost<Seq<u8>>,
    reply: Ghost<ChannelResult<Seq<u8>>>,
}

impl<C: PayloadChannel> UdsDiagnosticServer<C> {
    /// The request last sent
    pub closed spec fn last_request(&self) -> Seq<u8> {
        self.sent@
    }

    /// What the channel answered to the request last sent (before the first request,
    /// [ChannelError::NotOpen] stands in its place)
    pub closed spec fn last_reply(&self) -> ChannelResult<Seq<u8>> {
        self.reply@
    }

    /// A server over `channel`, which is configured and open, sending to the ECU at
    /// `send_id` with the given write and read timeouts
    pub fn new(channel: C, send_id: u32, write_timeout_ms: u32, read_timeout_ms: u32) -> (r: Self)
        ensures
            r.last_request() == Seq::<u8>::empty(),
            r.channel_view() == channel,
    {
        UdsDiagnosticServer {
            channel,
            send_id,
            write_timeout_ms,
            read_timeout_ms,
            sent: Ghost(Seq::empty()),
            reply: Ghost(Err(ChannelError::NotOpen)),
        }
    }

    /// The channel the server talks over
    pub closed spec fn channel_view(&self) -> C {
        self.channel
    }

    /// The channel the server talks over
    pub fn channel(&self) -> (r: &C)
        ensures
            *r == self.channel_view(),
    {
        &self.channel
    }

    /// Sends `cmd` with parameters `args` and interprets the ECU's response.
    ///
    /// Returns the whole positive response, whose first byte echoes the service.
    pub fn execute_command_with_response(&mut self, cmd: UDSCommand, args: &[u8]) -> (r:
        DiagServerResult<Vec<u8>>)
        ensures
            final(self).last_request() == seq![command_sid(cmd)] + args@,
            is_command_result(command_sid(cmd), final(self).last_reply(), r),
            known_unopened(old(self).channel_view()) ==> is_not_open_refusal(r),
    {
        let req = ecu_request(cmd, args);
        self.sent = Ghost(req@);
        let reply = self.channel.read_write_bytes(
            self.send_id,
            req.as_slice(),
            self.write_timeout_ms,
            self.read_timeout_ms,
        );
        self.reply = Ghost(reply_view(reply));
        command_result(cmd.into(), reply)
    }
}

/// The request that asks for `cmd` with parameters `args`: the service identifier,
/// then the parameters
pub fn ecu_request(cmd: UDSCommand, args: &[u8]) -> (r: Vec<u8>)
    ensures
        r@ == seq![command_sid(cmd)] + args@,
{
    let sid: u8 = cmd.into();
    let mut req: Vec<u8> = Vec::new();
    req.push(sid);
    req.extend_from_slice(args);
    assert(req@ =~= seq![sid] + args@);
    req
}

/// What a command to service `sid` yields when the channel answered `reply`: the
/// channel's error, or the interpretation of the response
pub fn command_result(sid: u8, reply: ChannelResult<Vec<u8>>) -> (r: DiagServerResult<Vec<u8>>)
    ensures
        is_command_result(sid, reply_view(reply), r),
{
    match reply {
        Err(e) => Err(DiagError::ChannelError(e)),
        Ok(resp) => interpret_response(sid, resp.as_slice()),
    }
}

} // verus!
