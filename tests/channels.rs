use ecu_diagnostics::channel::{
    ChannelError, ChannelLifecycle, ChannelResult, ChannelState, IsoTPChannel, IsoTPSettings,
    PayloadChannel,
};
use std::sync::{Arc, Mutex};
use ecu_diagnostics::hardware::HardwareError;

struct LoopbackChannel {
    life: ChannelLifecycle,
    last: Vec<u8>,
    cfg_block_size: u8,
}

impl LoopbackChannel {
    fn new() -> Self {
        LoopbackChannel { life: ChannelLifecycle::new(), last: Vec::new(), cfg_block_size: 0 }
    }
}

impl PayloadChannel for LoopbackChannel {
    fn open(&mut self) -> ChannelResult<()> {
        self.life.open()
    }

    fn close(&mut self) -> ChannelResult<()> {
        self.life.close()
    }

    fn set_ids(&mut self, _send: u32, _recv: u32) -> ChannelResult<()> {
        self.life.configure()
    }

    fn read_bytes(&mut self, _timeout_ms: u32) -> ChannelResult<Vec<u8>> {
        self.life.check_io()?;
        if self.last.is_empty() {
            return Err(ChannelError::BufferEmpty);
        }
        Ok(std::mem::take(&mut self.last))
    }

    fn write_bytes(&mut self, _addr: u32, buffer: &[u8], _timeout_ms: u32) -> ChannelResult<()> {
        self.life.check_io()?;
        self.last = buffer.to_vec();
        Ok(())
    }

    fn clear_rx_buffer(&mut self) -> ChannelResult<()> {
        self.last.clear();
        Ok(())
    }

    fn clear_tx_buffer(&mut self) -> ChannelResult<()> {
        Ok(())
    }
}

impl IsoTPChannel for LoopbackChannel {
    fn set_iso_tp_cfg(&mut self, cfg: IsoTPSettings) -> ChannelResult<()> {
        self.life.configure()?;
        self.cfg_block_size = cfg.block_size;
        Ok(())
    }
}

#[test]
fn lifecycle_configure_after_open_fails() {
    let mut l = ChannelLifecycle::new();
    assert!(l.configure().is_ok());
    assert!(l.open().is_ok());
    assert!(matches!(l.configure(), Err(ChannelError::ConfigurationError)));
    assert_eq!(l.state(), ChannelState::Open);
}

#[test]
fn lifecycle_io_before_open_fails() {
    let mut l = ChannelLifecycle::new();
    assert!(matches!(l.check_io(), Err(ChannelError::NotOpen)));
    assert!(l.configure().is_ok());
    assert!(matches!(l.check_io(), Err(ChannelError::NotOpen)));
    assert!(l.open().is_ok());
    assert!(l.check_io().is_ok());
    assert!(l.close().is_ok());
    assert_eq!(l.state(), ChannelState::Closed);
    assert!(matches!(l.check_io(), Err(ChannelError::NotOpen)));
}

#[test]
fn lifecycle_open_without_configuration_fails() {
    let mut l = ChannelLifecycle::new();
    assert!(matches!(l.open(), Err(ChannelError::ConfigurationError)));
    assert_eq!(l.state(), ChannelState::Closed);
}

#[test]
fn boxed_channel_forwards() {
    let mut c: Box<LoopbackChannel> = Box::new(LoopbackChannel::new());
    assert!(matches!(c.write_bytes(1, &[1], 0), Err(ChannelError::NotOpen)));
    c.set_ids(0x7E0, 0x7E8).unwrap();
    c.set_iso_tp_cfg(IsoTPSettings::default()).unwrap();
    c.open().unwrap();
    assert!(matches!(c.set_ids(1, 2), Err(ChannelError::ConfigurationError)));
    assert_eq!(c.read_write_bytes(0x7E0, &[0x3E, 0x00], 0, 0).unwrap(), vec![0x3E, 0x00]);
    assert!(matches!(c.read_bytes(0), Err(ChannelError::BufferEmpty)));
    assert_eq!(c.cfg_block_size, 8);
}

#[test]
fn boxed_trait_object_forwards() {
    let mut c: Box<dyn PayloadChannel> = Box::new(LoopbackChannel::new());
    c.set_ids(0x7E0, 0x7E8).unwrap();
    c.open().unwrap();
    c.write_bytes(0x7E0, &[7, 8], 0).unwrap();
    assert_eq!(c.read_bytes(0).unwrap(), vec![7, 8]);
}

#[test]
fn shared_channel_owners_see_one_channel() {
    let mut a = Arc::new(Mutex::new(LoopbackChannel::new()));
    let mut b = a.clone();
    assert!(matches!(b.read_bytes(0), Err(ChannelError::NotOpen)));
    a.set_ids(0x7E0, 0x7E8).unwrap();
    a.set_iso_tp_cfg(IsoTPSettings::default()).unwrap();
    b.open().unwrap();
    assert!(matches!(a.set_ids(1, 2), Err(ChannelError::ConfigurationError)));
    a.write_bytes(0x7E0, &[0x22, 0xF1, 0x90], 0).unwrap();
    assert_eq!(b.read_bytes(0).unwrap(), vec![0x22, 0xF1, 0x90]);
    assert!(matches!(a.read_bytes(0), Err(ChannelError::BufferEmpty)));
    b.close().unwrap();
    assert!(matches!(a.write_bytes(0x7E0, &[1], 0), Err(ChannelError::NotOpen)));
}

#[test]
fn shared_channel_error_releases_lock() {
    let mut a = Arc::new(Mutex::new(LoopbackChannel::new()));
    let mut b = a.clone();
    assert!(a.read_bytes(0).is_err());
    assert!(b.read_bytes(0).is_err());
    b.set_ids(1, 2).unwrap();
    assert!(a.open().is_ok());
}

#[test]
fn hardware_error_is_kept_as_cause() {
    let e = ChannelError::from(HardwareError::DeviceNotFound);
    assert!(matches!(e, ChannelError::HardwareError(HardwareError::DeviceNotFound)));
    assert_eq!(e.hardware_cause(), Some(&HardwareError::DeviceNotFound));
    let api: ChannelError = HardwareError::APIError { code: 7, desc: "bus off".to_string() }.into();
    assert!(matches!(api.hardware_cause(), Some(HardwareError::APIError { code: 7, .. })));
    assert_eq!(ChannelError::ReadTimeout.hardware_cause(), None);
}

#[test]
fn io_error_is_kept_as_cause() {
    let e = ChannelError::IOError(std::io::Error::new(std::io::ErrorKind::Other, "cable unplugged"));
    assert_eq!(e.io_cause().map(|c| c.to_string()), Some("cable unplugged".to_string()));
    assert!(e.hardware_cause().is_none());
    assert!(ChannelError::NotOpen.io_cause().is_none());
}

#[test]
fn channel_error_messages() {
    assert_eq!(ChannelError::ReadTimeout.to_string(), "timeout reading from channel");
    assert_eq!(ChannelError::BufferEmpty.to_string(), "channel's Receive buffer is empty");
    assert_eq!(
        ChannelError::ConfigurationError.to_string(),
        "Channel opened prior to being configured"
    );
    let io = ChannelError::IOError(std::io::Error::new(std::io::ErrorKind::Other, "cable unplugged"));
    assert_eq!(io.to_string(), "IO error: cable unplugged");
    let hw = ChannelError::HardwareError(HardwareError::DeviceNotFound);
    assert_eq!(hw.to_string(), "Channel hardware error: Device not found");
}

#[test]
fn hardware_error_messages() {
    let api = HardwareError::APIError { code: 7, desc: "bus off".to_string() };
    assert_eq!(api.to_string(), "Device API error 7: bus off");
    assert_eq!(HardwareError::DeviceNotOpen.to_string(), "Device function called on a device that is not open");
}

#[test]
fn shared_trait_object_forwards() {
    let mut a: Arc<Mutex<dyn PayloadChannel>> = Arc::new(Mutex::new(LoopbackChannel::new()));
    let mut b = a.clone();
    a.set_ids(0x7E0, 0x7E8).unwrap();
    b.open().unwrap();
    b.write_bytes(0x7E0, &[5], 0).unwrap();
    assert_eq!(a.read_bytes(0).unwrap(), vec![5]);
}

#[test]
fn lock_error_message() {
    let e = ChannelError::from(HardwareError::DeviceLockError);
    assert_eq!(e.to_string(), "Channel hardware error: Device lock poisoned by a holder that panicked");
}
