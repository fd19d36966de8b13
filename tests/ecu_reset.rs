use ecu_diagnostics::channel::{ChannelError, ChannelResult, PayloadChannel};
use ecu_diagnostics::uds::ecu_reset::{rapid_shutdown_time, ResetType};
use ecu_diagnostics::uds::{
    command_result, ecu_request, interpret_response, lookup_uds_nrc, UDSCommand, UdsDiagnosticServer,
};
use ecu_diagnostics::DiagError;

/// An ECU that answers every request with one scripted reply
struct ScriptedEcu {
    reply: Option<ChannelResult<Vec<u8>>>,
    requests: Vec<(u32, Vec<u8>)>,
}

impl ScriptedEcu {
    fn answering(resp: &[u8]) -> Self {
        ScriptedEcu { reply: Some(Ok(resp.to_vec())), requests: Vec::new() }
    }

    fn failing(e: ChannelError) -> Self {
        ScriptedEcu { reply: Some(Err(e)), requests: Vec::new() }
    }
}

impl PayloadChannel for ScriptedEcu {
    fn open(&mut self) -> ChannelResult<()> {
        Ok(())
    }

    fn close(&mut self) -> ChannelResult<()> {
        Ok(())
    }

    fn set_ids(&mut self, _send: u32, _recv: u32) -> ChannelResult<()> {
        Ok(())
    }

    fn read_bytes(&mut self, _timeout_ms: u32) -> ChannelResult<Vec<u8>> {
        self.reply.take().unwrap_or(Err(ChannelError::BufferEmpty))
    }

    fn write_bytes(&mut self, addr: u32, buffer: &[u8], _timeout_ms: u32) -> ChannelResult<()> {
        self.requests.push((addr, buffer.to_vec()));
        Ok(())
    }

    fn clear_rx_buffer(&mut self) -> ChannelResult<()> {
        Ok(())
    }

    fn clear_tx_buffer(&mut self) -> ChannelResult<()> {
        Ok(())
    }
}

fn server(ecu: ScriptedEcu) -> UdsDiagnosticServer<ScriptedEcu> {
    UdsDiagnosticServer::new(ecu, 0x7E0, 100, 200)
}

#[test]
fn hard_reset_positive() {
    let mut s = server(ScriptedEcu::answering(&[0x51, 0x01]));
    assert!(s.ecu_hard_reset().is_ok());
    assert_eq!(s.channel().requests, vec![(0x7E0, vec![0x11, 0x01])]);
}

#[test]
fn key_off_on_reset_request() {
    let mut s = server(ScriptedEcu::answering(&[0x51, 0x02]));
    assert!(s.ecu_key_off_on_reset().is_ok());
    assert_eq!(s.channel().requests[0].1, vec![0x11, 0x02]);
}

#[test]
fn soft_reset_request() {
    let mut s = server(ScriptedEcu::answering(&[0x51, 0x03]));
    assert!(s.ecu_soft_reset().is_ok());
    assert_eq!(s.channel().requests[0].1, vec![0x11, 0x03]);
}

#[test]
fn disable_rapid_power_shutdown_request() {
    let mut s = server(ScriptedEcu::answering(&[0x51, 0x05]));
    assert!(s.disable_rapid_power_shutdown().is_ok());
    assert_eq!(s.channel().requests[0].1, vec![0x11, 0x05]);
}

#[test]
fn enable_rapid_power_shutdown_time() {
    let mut s = server(ScriptedEcu::answering(&[0x51, 0x04, 0x05]));
    assert_eq!(s.enable_rapid_power_shutdown().unwrap(), 5);
    assert_eq!(s.channel().requests[0].1, vec![0x11, 0x04]);
}

#[test]
fn enable_rapid_power_shutdown_rejected() {
    let mut s = server(ScriptedEcu::answering(&[0x51, 0x04, 0xFF]));
    match s.enable_rapid_power_shutdown() {
        Err(DiagError::ECUError { code, def }) => {
            assert_eq!(code, 0x10);
            assert_eq!(def.as_deref(), Some("General reject"));
        }
        other => panic!("unexpected result {:?}", other),
    }
}

#[test]
fn enable_rapid_power_shutdown_short_response() {
    let mut s = server(ScriptedEcu::answering(&[0x51, 0x04]));
    assert!(matches!(s.enable_rapid_power_shutdown(), Err(DiagError::InvalidResponseLength)));
}

#[test]
fn negative_response_gives_ecu_error() {
    let mut s = server(ScriptedEcu::answering(&[0x7F, 0x11, 0x12]));
    match s.ecu_hard_reset() {
        Err(DiagError::ECUError { code, def }) => {
            assert_eq!(code, 0x12);
            assert_eq!(def.as_deref(), Some("Sub-function not supported"));
        }
        other => panic!("unexpected result {:?}", other),
    }
}

#[test]
fn negative_response_to_rapid_shutdown() {
    let mut s = server(ScriptedEcu::answering(&[0x7F, 0x11, 0x22]));
    assert!(matches!(
        s.enable_rapid_power_shutdown(),
        Err(DiagError::ECUError { code: 0x22, .. })
    ));
}

#[test]
fn short_negative_response() {
    let mut s = server(ScriptedEcu::answering(&[0x7F, 0x11]));
    assert!(matches!(s.ecu_soft_reset(), Err(DiagError::InvalidResponseLength)));
}

#[test]
fn empty_response() {
    let mut s = server(ScriptedEcu::answering(&[]));
    assert!(matches!(s.ecu_hard_reset(), Err(DiagError::InvalidResponseLength)));
}

#[test]
fn response_to_other_service() {
    let mut s = server(ScriptedEcu::answering(&[0x50, 0x01]));
    assert!(matches!(s.ecu_hard_reset(), Err(DiagError::WrongMessage)));
}

#[test]
fn channel_error_is_passed_on() {
    let mut s = server(ScriptedEcu::failing(ChannelError::ReadTimeout));
    assert!(matches!(
        s.ecu_hard_reset(),
        Err(DiagError::ChannelError(ChannelError::ReadTimeout))
    ));
}

#[test]
fn command_with_parameters() {
    let mut s = server(ScriptedEcu::answering(&[0x62, 0xF1, 0x90, 0x41]));
    let r = s.execute_command_with_response(UDSCommand::ReadDataByIdentifier, &[0xF1, 0x90]);
    assert_eq!(r.unwrap(), vec![0x62, 0xF1, 0x90, 0x41]);
    assert_eq!(s.channel().requests[0].1, vec![0x22, 0xF1, 0x90]);
}

#[test]
fn interpret_positive_response() {
    assert_eq!(interpret_response(0x11, &[0x51, 0x01]).unwrap(), vec![0x51, 0x01]);
    assert_eq!(interpret_response(0x3E, &[0x7E, 0x00]).unwrap(), vec![0x7E, 0x00]);
}

#[test]
fn interpret_negative_response() {
    match interpret_response(0x11, &[0x7F, 0x11, 0x12]) {
        Err(DiagError::ECUError { code, def }) => {
            assert_eq!(code, 0x12);
            assert_eq!(def.as_deref(), Some("Sub-function not supported"));
        }
        other => panic!("unexpected result {:?}", other),
    }
}

#[test]
fn interpret_malformed_responses() {
    assert!(matches!(interpret_response(0x11, &[]), Err(DiagError::InvalidResponseLength)));
    assert!(matches!(interpret_response(0x11, &[0x7F]), Err(DiagError::InvalidResponseLength)));
    assert!(matches!(interpret_response(0x11, &[0x11, 0x01]), Err(DiagError::WrongMessage)));
    assert!(matches!(interpret_response(0xC5, &[0x05]), Err(DiagError::WrongMessage)));
}

#[test]
fn rapid_shutdown_time_values() {
    assert_eq!(rapid_shutdown_time(&[0x51, 0x04, 0x05]).unwrap(), 5);
    assert_eq!(rapid_shutdown_time(&[0x51, 0x04, 0x00]).unwrap(), 0);
    assert!(matches!(rapid_shutdown_time(&[0x51, 0x04]), Err(DiagError::InvalidResponseLength)));
    assert!(matches!(
        rapid_shutdown_time(&[0x51, 0x04, 0xFF]),
        Err(DiagError::ECUError { code: 0x10, def: Some(_) })
    ));
}

#[test]
fn nrc_descriptions() {
    assert_eq!(lookup_uds_nrc(0x10), "General reject");
    assert_eq!(lookup_uds_nrc(0x12), "Sub-function not supported");
    assert_eq!(lookup_uds_nrc(0x78), "Request correctly received - response pending");
    assert_eq!(lookup_uds_nrc(0x99), "ISO reserved or manufacturer specific");
}

#[test]
fn reset_type_codes() {
    assert_eq!(u8::from(ResetType::HardReset), 0x01);
    assert_eq!(u8::from(ResetType::KeyOffReset), 0x02);
    assert_eq!(u8::from(ResetType::SoftReset), 0x03);
    assert_eq!(u8::from(ResetType::EnableRapidPowerShutDown), 0x04);
    assert_eq!(u8::from(ResetType::DisableRapidPowerShutDown), 0x05);
    assert_eq!(u8::from(ResetType::Other(0x42)), 0x42);
}

#[test]
fn command_codes() {
    assert_eq!(u8::from(UDSCommand::ECUReset), 0x11);
    assert_eq!(u8::from(UDSCommand::TesterPresent), 0x3E);
    assert_eq!(u8::from(UDSCommand::ControlDTCSettings), 0x85);
}

#[test]
fn request_bytes() {
    assert_eq!(ecu_request(UDSCommand::ECUReset, &[0x01]), vec![0x11, 0x01]);
    assert_eq!(ecu_request(UDSCommand::TesterPresent, &[]), vec![0x3E]);
    assert_eq!(ecu_request(UDSCommand::ReadDataByIdentifier, &[0xF1, 0x90]), vec![0x22, 0xF1, 0x90]);
}

#[test]
fn command_result_of_replies() {
    assert_eq!(command_result(0x11, Ok(vec![0x51, 0x01])).unwrap(), vec![0x51, 0x01]);
    assert!(matches!(
        command_result(0x11, Err(ChannelError::WriteTimeout)),
        Err(DiagError::ChannelError(ChannelError::WriteTimeout))
    ));
    assert!(matches!(
        command_result(0x11, Ok(vec![0x7F, 0x11, 0x12])),
        Err(DiagError::ECUError { code: 0x12, .. })
    ));
}
