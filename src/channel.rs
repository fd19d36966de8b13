//! Logical communication channels with an ECU
//!
//! * [PayloadChannel] - byte channel over an addressed link; every byte channel has it
//! * [IsoTPChannel] - byte channel carried over ISO-TP (ISO15765-2)
//! * [PacketChannel] - unfiltered channel of raw network packets
//! * [CanChannel] - packet channel of CAN frames
//!
//! Each capability is also offered by [`Box`] of an implementation, and by
//! `Arc<Mutex<_>>` of one, which serializes the operations of several owners: each
//! operation holds the lock while it runs and releases it when it returns, on success
//! and on error alike. A lock poisoned by a holder that panicked gives
//! [HardwareError::DeviceLockError] instead of running the operation.

use std::sync::Arc;

use vstd::prelude::*;
use vstd::string::{to_string_from_display_ensures, StringExecFns};

use crate::hardware::{is_hardware_message, HardwareError};

verus! {

/// Declares std::io::Error, which [ChannelError::IOError] carries as it came, without
/// looking inside it
#[verifier::external_type_specification]
#[verifier::external_body]
pub struct ExIoError(std::io::Error);

/// Communication channel result
pub type ChannelResult<T> = Result<T, ChannelError>;

/// Error produced by a communication channel
#[derive(Debug)]
pub enum ChannelError {
    /// Underlying IO Error with channel
    IOError(std::io::Error),
    /// Timeout when writing data to the channel
    WriteTimeout,
    /// Timeout when reading from the channel
    ReadTimeout,
    /// The channel's Rx buffer is empty. Only applies when read timeout is 0
    BufferEmpty,
    /// The channels Tx buffer is full
    BufferFull,
    /// Unsupported channel request
    UnsupportedRequest,
    /// The interface is not open
    InterfaceNotOpen,
    /// Underlying API error with hardware
    HardwareError(HardwareError),
    /// Channel is not open, so cannot read/write data to it!
    NotOpen,
    /// Channel not configured prior to opening, or configured after opening
    ConfigurationError,
}

/// Message of an error that wraps no other error
pub open spec fn channel_error_text(e: ChannelError) -> Seq<char> {
    match e {
        ChannelError::UnsupportedRequest => "unsupported channel request"@,
        ChannelError::ReadTimeout => "timeout reading from channel"@,
        ChannelError::WriteTimeout => "timeout writing to channel"@,
        ChannelError::BufferFull => "channel's Transmit buffer is full"@,
        ChannelError::BufferEmpty => "channel's Receive buffer is empty"@,
        ChannelError::InterfaceNotOpen => "channel's interface is not open"@,
        ChannelError::NotOpen => "Channel has not been opened"@,
        ChannelError::ConfigurationError => "Channel opened prior to being configured"@,
        ChannelError::IOError(_) => "IO error: "@,
        ChannelError::HardwareError(_) => "Channel hardware error: "@,
    }
}

impl ChannelError {
    /// Human readable message of the error. An error that wraps another one gives its
    /// own prefix followed by the message of the wrapped error.
    pub fn to_string(&self) -> (r: String)
        ensures
            match self {
                ChannelError::IOError(e) => exists|t: String|
                    #![trigger to_string_from_display_ensures::<std::io::Error>(e, t)]
                    to_string_from_display_ensures::<std::io::Error>(e, t) && r@
                        == channel_error_text(*self) + t@,
                ChannelError::HardwareError(e) => exists|t: Seq<char>|
                    #![trigger is_hardware_message(*e, t)]
                    is_hardware_message(*e, t) && r@ == channel_error_text(*self) + t,
                _ => r@ == channel_error_text(*self),
            },
    {
        match self {
            ChannelError::IOError(e) => {
                let mut m = "IO error: ".to_owned();
                let t = e.to_string();
                m.append(t.as_str());
                assert(m@ == channel_error_text(*self) + t@);
                m
            },
            ChannelError::UnsupportedRequest => "unsupported channel request".to_owned(),
            ChannelError::ReadTimeout => "timeout reading from channel".to_owned(),
            ChannelError::WriteTimeout => "timeout writing to channel".to_owned(),
            ChannelError::BufferFull => "channel's Transmit buffer is full".to_owned(),
            ChannelError::BufferEmpty => "channel's Receive buffer is empty".to_owned(),
            ChannelError::InterfaceNotOpen => "channel's interface is not open".to_owned(),
            ChannelError::HardwareError(err) => {
                let mut m = "Channel hardware error: ".to_owned();
                let t = err.to_string();
                m.append(t.as_str());
                assert(m@ == channel_error_text(*self) + t@);
                m
            },
            ChannelError::NotOpen => "Channel has not been opened".to_owned(),
            ChannelError::ConfigurationError => "Channel opened prior to being configured".to_owned(),
        }
    }

    /// The IO error that caused this error, if an IO failure caused it
    pub fn io_cause(&self) -> (r: Option<&std::io::Error>)
        ensures
            match self {
                ChannelError::IOError(e) => r == Some(e),
                _ => r is None,
            },
    {
        match self {
            ChannelError::IOError(e) => Some(e),
            _ => None,
        }
    }

    /// The hardware error that caused this error, if a hardware backend caused it
    pub fn hardware_cause(&self) -> (r: Option<&HardwareError>)
        ensures
            match self {
                ChannelError::HardwareError(e) => r == Some(e),
                _ => r is None,
            },
    {
        match self {
            ChannelError::HardwareError(e) => Some(e),
            _ => None,
        }
    }
}

impl From<HardwareError> for ChannelError {
    fn from(err: HardwareError) -> (r: Self)
        ensures
            r == ChannelError::HardwareError(err),
    {
        ChannelError::HardwareError(err)
    }
}

impl vstd::std_specs::convert::FromSpecImpl<HardwareError> for ChannelError {
    open spec fn obeys_from_spec() -> bool {
        true
    }

    open spec fn from_spec(v: HardwareError) -> ChannelError {
        ChannelError::HardwareError(v)
    }
}

/// A read or write error of a channel that is not open
pub open spec fn is_not_open_error(e: ChannelError) -> bool {
    e == ChannelError::InterfaceNotOpen || e == ChannelError::NotOpen
}

/// Where the lifecycle is known before a call (`before`), it is known after it
/// (`after`) and unchanged
pub open spec fn keeps_lifecycle(before: Option<ChannelState>, after: Option<ChannelState>) -> bool {
    before is Some ==> after == before
}

/// A read or a write, seen through the lifecycle: refused with a not-open error
/// unless the channel is open, and the lifecycle is kept
pub open spec fn is_io_call<T>(
    before: Option<ChannelState>,
    after: Option<ChannelState>,
    r: ChannelResult<T>,
) -> bool {
    &&& keeps_lifecycle(before, after)
    &&& (before is Some && before != Some(ChannelState::Open)) ==> (r is Err && is_not_open_error(
        r->Err_0,
    ))
}

/// A configuration call, seen through the lifecycle: refused with
/// [ChannelError::ConfigurationError] on an open channel, which stays open; when it
/// succeeds the channel is configured; when it fails nothing changes
pub open spec fn is_config_call(
    before: Option<ChannelState>,
    after: Option<ChannelState>,
    r: ChannelResult<()>,
) -> bool {
    &&& before == Some(ChannelState::Open) ==> r == Err::<(), ChannelError>(
        ChannelError::ConfigurationError,
    )
    &&& before is Some ==> (r is Ok ==> after == Some(ChannelState::Configured))
    &&& before is Some ==> (r is Err ==> after == before)
}

/// Opening, seen through the lifecycle: refused with [ChannelError::ConfigurationError]
/// on a channel not configured since it was last closed; when it succeeds the channel
/// is open; when it fails nothing changes
pub open spec fn is_open_call(
    before: Option<ChannelState>,
    after: Option<ChannelState>,
    r: ChannelResult<()>,
) -> bool {
    &&& before == Some(ChannelState::Closed) ==> r == Err::<(), ChannelError>(
        ChannelError::ConfigurationError,
    )
    &&& before is Some ==> (r is Ok ==> after == Some(ChannelState::Open))
    &&& before is Some ==> (r is Err ==> after == before)
}

/// Closing, seen through the lifecycle: when it succeeds the channel is closed; when
/// it fails nothing changes
pub open spec fn is_close_call(
    before: Option<ChannelState>,
    after: Option<ChannelState>,
    r: ChannelResult<()>,
) -> bool {
    &&& before is Some ==> (r is Ok ==> after == Some(ChannelState::Closed))
    &&& before is Some ==> (r is Err ==> after == before)
}

/// A payload channel is a way for a device to have a bi-directional communication
/// link with a specific ECU.
///
/// Lifecycle: the configuration calls ([PayloadChannel::set_ids], and
/// [IsoTPChannel::set_iso_tp_cfg] where present) come before [PayloadChannel::open].
/// An implementation answers a configuration call on an open channel with
/// [ChannelError::ConfigurationError], and a read or write on a channel that is not
/// open with [ChannelError::InterfaceNotOpen] or [ChannelError::NotOpen]. The
/// contracts state this over [PayloadChannel::lifecycle]; an implementation that
/// tracks its state with [ChannelLifecycle] and reports it there meets them.
pub trait PayloadChannel: Send + Sync {
    /// The lifecycle state of the channel, where its owner alone can know it: `None`
    /// where other owners may change it between two calls, or where the
    /// implementation does not say
    open spec fn lifecycle(&self) -> Option<ChannelState> {
        None
    }

    /// This function opens the interface.
    /// It is ONLY called after set_ids and any other configuration function
    fn open(&mut self) -> (r: ChannelResult<()>)
        ensures
            is_open_call(old(self).lifecycle(), final(self).lifecycle(), r),
    ;

    /// Closes and destroys the channel
    fn close(&mut self) -> (r: ChannelResult<()>)
        ensures
            is_close_call(old(self).lifecycle(), final(self).lifecycle(), r),
    ;

    /// Configures the diagnostic channel with specific IDs for configuring the diagnostic server
    ///
    /// ## Parameters
    /// * send - Send ID (ECU will listen for data with this ID)
    /// * recv - Receiving ID (ECU will send data with this ID)
    fn set_ids(&mut self, send: u32, recv: u32) -> (r: ChannelResult<()>)
        ensures
            is_config_call(old(self).lifecycle(), final(self).lifecycle(), r),
    ;

    /// Attempts to read bytes from the channel.
    ///
    /// The contents being read should not include any protocol related bytes,
    /// just the payload destined for the diagnostic application
    ///
    /// ## Parameters
    /// * timeout_ms - Timeout for reading bytes. If a value of 0 is used, it instructs the channel to immediately
    /// return with whatever was in its receiving buffer
    fn read_bytes(&mut self, timeout_ms: u32) -> (r: ChannelResult<Vec<u8>>)
        ensures
            is_io_call(old(self).lifecycle(), final(self).lifecycle(), r),
    ;

    /// Attempts to write bytes to the channel.
    ///
    /// The contents being sent will just be the raw payload being sent to the device,
    /// it is up to the implementor of this function to add related protocol bytes
    /// to the message where necessary.
    ///
    /// ## Parameters
    /// * addr - Target address of the message
    /// * buffer - The buffer of bytes to write to the channel
    /// * timeout_ms - Timeout for writing bytes. If a value of 0 is used, it tells the channel to write without checking if
    /// data was actually written.
    fn write_bytes(&mut self, addr: u32, buffer: &[u8], timeout_ms: u32) -> (r: ChannelResult<()>)
        ensures
            is_io_call(old(self).lifecycle(), final(self).lifecycle(), r),
    ;

    /// Attempts to write bytes to the channel, then listen for the channels response
    ///
    /// ## Parameters
    /// * addr - Target address of the message
    /// * buffer - The buffer of bytes to write to the channel as the request
    /// * write_timeout_ms - Timeout for writing bytes. If a value of 0 is used, it tells the channel to write without checking if
    /// data was actually written.
    /// * read_timeout_ms - Timeout for reading bytes. If a value of 0 is used, it instructs the channel to immediately
    /// return with whatever was in its receiving buffer
    fn read_write_bytes(
        &mut self,
        addr: u32,
        buffer: &[u8],
        write_timeout_ms: u32,
        read_timeout_ms: u32,
    ) -> (r: ChannelResult<Vec<u8>>)
        ensures
            is_io_call(old(self).lifecycle(), final(self).lifecycle(), r),
    {
        self.write_bytes(addr, buffer, write_timeout_ms)?;
        self.read_bytes(read_timeout_ms)
    }

    /// Tells the channel to clear its Rx buffer.
    /// This means all pending messages to be read should be wiped from the devices queue,
    /// such that [PayloadChannel::read_bytes] does not read them
    fn clear_rx_buffer(&mut self) -> (r: ChannelResult<()>)
        ensures
            keeps_lifecycle(old(self).lifecycle(), final(self).lifecycle()),
    ;

    /// Tells the channel to clear its Tx buffer.
    /// This means all messages that are queued to be sent to the ECU should be wiped.
    fn clear_tx_buffer(&mut self) -> (r: ChannelResult<()>)
        ensures
            keeps_lifecycle(old(self).lifecycle(), final(self).lifecycle()),
    ;
}

/// Extended trait for [PayloadChannel] when utilizing ISO-TP to send data to the ECU
pub trait IsoTPChannel: PayloadChannel {
    /// Sets the ISO-TP specific configuration for the Channel
    ///
    /// ## Parameters
    /// * cfg - The configuration of the ISO-TP Channel
    fn set_iso_tp_cfg(&mut self, cfg: IsoTPSettings) -> (r: ChannelResult<()>)
        ensures
            is_config_call(old(self).lifecycle(), final(self).lifecycle(), r),
    ;
}

/// A PacketChannel is a way for a device to send and receive individual network packets
/// across an ECU network. Unlike [PayloadChannel], this channel type
/// is unfiltered, so all network traffic may be visible, and filtering should be done
/// in software. Most of the protocols that implement [PayloadChannel] are actually higher-level
/// PacketChannels which use multiple packets to send larger payloads. Such is the case with ISO-TP over CAN.
pub trait PacketChannel<T: Packet>: Send + Sync {
    /// The lifecycle state of the channel, where its owner alone can know it: `None`
    /// where other owners may change it between two calls, or where the
    /// implementation does not say
    open spec fn packet_lifecycle(&self) -> Option<ChannelState> {
        None
    }

    /// Opens the channel, from this point forward,
    /// the network filter will be applied to be fully open
    /// so data has to be polled rapidly to avoid a driver's
    /// internal buffer from filling up rapidly
    fn open(&mut self) -> (r: ChannelResult<()>)
        ensures
            is_open_call(old(self).packet_lifecycle(), final(self).packet_lifecycle(), r),
    ;

    /// Closes the channel. Once closed, no more traffic
    /// can be polled or written to the channel.
    fn close(&mut self) -> (r: ChannelResult<()>)
        ensures
            is_close_call(old(self).packet_lifecycle(), final(self).packet_lifecycle(), r),
    ;

    /// Writes a list of packets to the raw interface
    fn write_packets(&mut self, packets: Vec<T>, timeout_ms: u32) -> (r: ChannelResult<()>)
        ensures
            is_io_call(old(self).packet_lifecycle(), final(self).packet_lifecycle(), r),
    ;

    /// Reads a list of packets from the raw interface
    fn read_packets(&mut self, max: usize, timeout_ms: u32) -> (r: ChannelResult<Vec<T>>)
        ensures
            is_io_call(old(self).packet_lifecycle(), final(self).packet_lifecycle(), r),
            r is Ok ==> r->Ok_0@.len() <= max,
    ;

    /// Tells the channel to clear its Rx buffer.
    /// This means all pending packets to be read should be wiped from the devices queue,
    /// such that [PacketChannel::read_packets] does not read them
    fn clear_rx_buffer(&mut self) -> (r: ChannelResult<()>)
        ensures
            keeps_lifecycle(old(self).packet_lifecycle(), final(self).packet_lifecycle()),
    ;

    /// Tells the channel to clear its Tx buffer.
    /// This means all packets that are queued to be sent to the ECU should be wiped.
    fn clear_tx_buffer(&mut self) -> (r: ChannelResult<()>)
        ensures
            keeps_lifecycle(old(self).packet_lifecycle(), final(self).packet_lifecycle()),
    ;
}

/// Packet channel for sending and receiving individual CAN Frames
pub trait CanChannel: PacketChannel<CanFrame> {
    /// Sets the CAN network configuration
    fn set_can_cfg(&mut self, baud: u32, use_extended: bool) -> (r: ChannelResult<()>)
        ensures
            is_config_call(old(self).packet_lifecycle(), final(self).packet_lifecycle(), r),
    ;
}

impl<T: PayloadChannel + ?Sized> PayloadChannel for Box<T> {
    open spec fn lifecycle(&self) -> Option<ChannelState> {
        (**self).lifecycle()
    }

    fn open(&mut self) -> ChannelResult<()> {
        (**self).open()
    }

    fn close(&mut self) -> ChannelResult<()> {
        (**self).close()
    }

    fn set_ids(&mut self, send: u32, recv: u32) -> ChannelResult<()> {
        (**self).set_ids(send, recv)
    }

    fn read_bytes(&mut self, timeout_ms: u32) -> ChannelResult<Vec<u8>> {
        (**self).read_bytes(timeout_ms)
    }

    fn write_bytes(&mut self, addr: u32, buffer: &[u8], timeout_ms: u32) -> ChannelResult<()> {
        (**self).write_bytes(addr, buffer, timeout_ms)
    }

    fn clear_rx_buffer(&mut self) -> ChannelResult<()> {
        (**self).clear_rx_buffer()
    }

    fn clear_tx_buffer(&mut self) -> ChannelResult<()> {
        (**self).clear_tx_buffer()
    }
}

impl<T: IsoTPChannel + ?Sized> IsoTPChannel for Box<T> {
    fn set_iso_tp_cfg(&mut self, cfg: IsoTPSettings) -> ChannelResult<()> {
        (**self).set_iso_tp_cfg(cfg)
    }
}

impl<X: Packet, T: PacketChannel<X> + ?Sized> PacketChannel<X> for Box<T> {
    open spec fn packet_lifecycle(&self) -> Option<ChannelState> {
        (**self).packet_lifecycle()
    }

    fn open(&mut self) -> ChannelResult<()> {
        (**self).open()
    }

    fn close(&mut self) -> ChannelResult<()> {
        (**self).close()
    }

    fn write_packets(&mut self, packets: Vec<X>, timeout_ms: u32) -> ChannelResult<()> {
        (**self).write_packets(packets, timeout_ms)
    }

    fn read_packets(&mut self, max: usize, timeout_ms: u32) -> ChannelResult<Vec<X>> {
        (**self).read_packets(max, timeout_ms)
    }

    fn clear_rx_buffer(&mut self) -> ChannelResult<()> {
        (**self).clear_rx_buffer()
    }

    fn clear_tx_buffer(&mut self) -> ChannelResult<()> {
        (**self).clear_tx_buffer()
    }
}

impl<T: CanChannel + ?Sized> CanChannel for Box<T> {
    fn set_can_cfg(&mut self, baud: u32, use_extended: bool) -> ChannelResult<()> {
        (**self).set_can_cfg(baud, use_extended)
    }
}

/// Where a channel stands in its lifecycle: Closed, then Configured, then Open, then
/// Closed again
#[derive(Debug, Clone, Copy, PartialEq, Eq, Structural)]
pub enum ChannelState {
    /// Not open, and not configured since it was last closed
    Closed,
    /// Configured, not yet open
    Configured,
    /// Open: reads and writes are allowed, configuration is not
    Open,
}

/// State reached by a configuration call, and the call's result
pub open spec fn configure_step(s: ChannelState) -> (ChannelState, ChannelResult<()>) {
    if s == ChannelState::Open {
        (s, Err(ChannelError::ConfigurationError))
    } else {
        (ChannelState::Configured, Ok(()))
    }
}

/// State reached by opening, and the result of `open`
pub open spec fn open_step(s: ChannelState) -> (ChannelState, ChannelResult<()>) {
    if s == ChannelState::Closed {
        (s, Err(ChannelError::ConfigurationError))
    } else {
        (ChannelState::Open, Ok(()))
    }
}

/// Result of the check that comes before a read or a write
pub open spec fn io_step(s: ChannelState) -> ChannelResult<()> {
    if s == ChannelState::Open {
        Ok(())
    } else {
        Err(ChannelError::NotOpen)
    }
}

/// The decisions of a channel's lifecycle, for implementations of the channel traits:
/// configuration is accepted only before opening, opening only after configuration,
/// and reads and writes only while open.
pub struct ChannelLifecycle {
    state: ChannelState,
}

impl ChannelLifecycle {
    /// The current state
    pub closed spec fn current(&self) -> ChannelState {
        self.state
    }

    /// A closed, unconfigured channel
    pub fn new() -> (r: Self)
        ensures
            r.current() == ChannelState::Closed,
    {
        ChannelLifecycle { state: ChannelState::Closed }
    }

    /// The current state
    pub fn state(&self) -> (r: ChannelState)
        ensures
            r == self.current(),
    {
        self.state
    }

    /// Records a configuration call (IDs, ISO-TP or bus settings). It fails with
    /// [ChannelError::ConfigurationError] on an open channel, which it leaves open.
    pub fn configure(&mut self) -> (r: ChannelResult<()>)
        ensures
            (final(self).current(), r) == configure_step(old(self).current()),
    {
        if self.state == ChannelState::Open {
            Err(ChannelError::ConfigurationError)
        } else {
            self.state = ChannelState::Configured;
            Ok(())
        }
    }

    /// Records opening. It fails with [ChannelError::ConfigurationError] on a channel
    /// that was not configured since it was last closed; opening an open channel keeps
    /// it open.
    pub fn open(&mut self) -> (r: ChannelResult<()>)
        ensures
            (final(self).current(), r) == open_step(old(self).current()),
    {
        if self.state == ChannelState::Closed {
            Err(ChannelError::ConfigurationError)
        } else {
            self.state = ChannelState::Open;
            Ok(())
        }
    }

    /// Records closing; the configuration is forgotten
    pub fn close(&mut self) -> (r: ChannelResult<()>)
        ensures
            final(self).current() == ChannelState::Closed,
            r is Ok,
    {
        self.state = ChannelState::Closed;
        Ok(())
    }

    /// Checks that a read or a write may go ahead: it fails with
    /// [ChannelError::NotOpen] unless the channel is open
    pub fn check_io(&self) -> (r: ChannelResult<()>)
        ensures
            r == io_step(self.current()),
    {
        if self.state == ChannelState::Open {
            Ok(())
        } else {
            Err(ChannelError::NotOpen)
        }
    }
}

/// Once opening has succeeded, a configuration call fails with
/// [ChannelError::ConfigurationError] and the channel stays open.
pub proof fn configuration_after_open_fails(s: ChannelState)
    requires
        open_step(s).1 is Ok,
    ensures
        configure_step(open_step(s).0) == (
        ChannelState::Open,
        Err::<(), ChannelError>(ChannelError::ConfigurationError),
        ),
{
}

/// On a channel that is not open (never opened yet, or closed since), a read or a
/// write fails with [ChannelError::NotOpen], and still does after a configuration call.
pub proof fn io_before_open_fails(s: ChannelState)
    requires
        s != ChannelState::Open,
    ensures
        io_step(s) == Err::<(), ChannelError>(ChannelError::NotOpen),
        io_step(configure_step(s).0) == Err::<(), ChannelError>(ChannelError::NotOpen),
{
}

/// Declares std::sync::Mutex, which guards a channel that several owners share
#[verifier::external_type_specification]
#[verifier::external_body]
#[verifier::reject_recursive_types(T)]
pub struct ExMutex<T: ?Sized>(std::sync::Mutex<T>);

/// Declares std::sync::MutexGuard, the proof of holding a [std::sync::Mutex]; dropping
/// it releases the lock, also when the holder returns early with an error
#[verifier::external_type_specification]
#[verifier::external_body]
#[verifier::reject_recursive_types(T)]
pub struct ExMutexGuard<'a, T: ?Sized + 'a>(std::sync::MutexGuard<'a, T>);

/// Relies on std::sync::Mutex::lock: it waits for the lock and fails only when an
/// earlier holder panicked while holding it (the lock is poisoned), which becomes
/// [HardwareError::DeviceLockError]
#[verifier::external_body]
fn lock_channel<T: ?Sized>(m: &std::sync::Mutex<T>) -> (r: ChannelResult<std::sync::MutexGuard<'_, T>>) {
    m.lock().map_err(|_| ChannelError::HardwareError(HardwareError::DeviceLockError))
}

/// Relies on DerefMut of std::sync::MutexGuard: the value the held lock guards
#[verifier::external_body]
fn guarded<'a, 'b, T: ?Sized>(g: &'a mut std::sync::MutexGuard<'b, T>) -> (r: &'a mut T) {
    &mut **g
}

impl<T: PayloadChannel + ?Sized> PayloadChannel for Arc<std::sync::Mutex<T>> {
    fn open(&mut self) -> ChannelResult<()> {
        let mut g = lock_channel(&**self)?;
        guarded(&mut g).open()
    }

    fn close(&mut self) -> ChannelResult<()> {
        let mut g = lock_channel(&**self)?;
        guarded(&mut g).close()
    }

    fn set_ids(&mut self, send: u32, recv: u32) -> ChannelResult<()> {
        let mut g = lock_channel(&**self)?;
        guarded(&mut g).set_ids(send, recv)
    }

    fn read_bytes(&mut self, timeout_ms: u32) -> ChannelResult<Vec<u8>> {
        let mut g = lock_channel(&**self)?;
        guarded(&mut g).read_bytes(timeout_ms)
    }

    fn write_bytes(&mut self, addr: u32, buffer: &[u8], timeout_ms: u32) -> ChannelResult<()> {
        let mut g = lock_channel(&**self)?;
        guarded(&mut g).write_bytes(addr, buffer, timeout_ms)
    }

    fn clear_rx_buffer(&mut self) -> ChannelResult<()> {
        let mut g = lock_channel(&**self)?;
        guarded(&mut g).clear_rx_buffer()
    }

    fn clear_tx_buffer(&mut self) -> ChannelResult<()> {
        let mut g = lock_channel(&**self)?;
        guarded(&mut g).clear_tx_buffer()
    }
}

impl<T: IsoTPChannel + ?Sized> IsoTPChannel for Arc<std::sync::Mutex<T>> {
    fn set_iso_tp_cfg(&mut self, cfg: IsoTPSettings) -> ChannelResult<()> {
        let mut g = lock_channel(&**self)?;
        guarded(&mut g).set_iso_tp_cfg(cfg)
    }
}

impl<X: Packet, T: PacketChannel<X> + ?Sized> PacketChannel<X> for Arc<std::sync::Mutex<T>> {
    fn open(&mut self) -> ChannelResult<()> {
        let mut g = lock_channel(&**self)?;
        guarded(&mut g).open()
    }

    fn close(&mut self) -> ChannelResult<()> {
        let mut g = lock_channel(&**self)?;
        guarded(&mut g).close()
    }

    fn write_packets(&mut self, packets: Vec<X>, timeout_ms: u32) -> ChannelResult<()> {
        let mut g = lock_channel(&**self)?;
        guarded(&mut g).write_packets(packets, timeout_ms)
    }

    fn read_packets(&mut self, max: usize, timeout_ms: u32) -> (r: ChannelResult<Vec<X>>) {
        let mut g = lock_channel(&**self)?;
        guarded(&mut g).read_packets(max, timeout_ms)
    }

    fn clear_rx_buffer(&mut self) -> ChannelResult<()> {
        let mut g = lock_channel(&**self)?;
        guarded(&mut g).clear_rx_buffer()
    }

    fn clear_tx_buffer(&mut self) -> ChannelResult<()> {
        let mut g = lock_channel(&**self)?;
        guarded(&mut g).clear_tx_buffer()
    }
}

impl<T: CanChannel + ?Sized> CanChannel for Arc<std::sync::Mutex<T>> {
    fn set_can_cfg(&mut self, baud: u32, use_extended: bool) -> ChannelResult<()> {
        let mut g = lock_channel(&**self)?;
        guarded(&mut g).set_can_cfg(baud, use_extended)
    }
}

/// This trait is for packets that are used by [PacketChannel]
pub trait Packet: Send + Sync + Sized {
    /// Address of the packet
    spec fn address(&self) -> u32;

    /// Data carried by the packet
    spec fn payload(&self) -> Seq<u8>;

    /// Most data bytes the packet can carry
    spec fn max_payload(&self) -> nat;

    /// Whether the packet was asked to use the extended form of its network's addressing
    spec fn extended_flag(&self) -> bool;

    /// Returns the address of the packet
    fn get_address(&self) -> (r: u32)
        ensures
            r == self.address(),
    ;

    /// Returns the data of the packet
    fn get_data(&self) -> (r: &[u8])
        ensures
            r@ == self.payload(),
    ;

    /// Sets the address of the packet
    fn set_address(&mut self, address: u32)
        ensures
            final(self).address() == address,
            final(self).payload() == old(self).payload(),
            final(self).max_payload() == old(self).max_payload(),
            final(self).extended_flag() == old(self).extended_flag(),
    ;

    /// Sets the data of the packet, keeping as many leading bytes of `data` as fit
    fn set_data(&mut self, data: &[u8])
        ensures
            final(self).address() == old(self).address(),
            final(self).payload() == data@.take(kept_len(data@.len(), old(self).max_payload())),
            final(self).max_payload() == old(self).max_payload(),
            final(self).extended_flag() == old(self).extended_flag(),
    ;
}

/// How many of `len` bytes a packet holding at most `max` bytes keeps
pub open spec fn kept_len(len: nat, max: nat) -> int {
    if len < max {
        len as int
    } else {
        max as int
    }
}

/// Largest CAN ID of standard (11bit) addressing
pub const MAX_STANDARD_CAN_ID: u32 = 0x7FF;

/// Most data bytes of a CAN frame
pub const CAN_MAX_DLC: usize = 8;

/// CAN Frame
#[derive(Debug, Copy, Clone)]
pub struct CanFrame {
    id: u32,
    dlc: u8,
    data: [u8; 8],
    ext: bool,
}

impl CanFrame {
    #[verifier::type_invariant]
    spec fn dlc_fits(&self) -> bool {
        self.dlc <= 8
    }

    /// Creates a new CAN Frame given data and an ID.
    /// ## Parameters
    /// * id - The CAN ID of the packet
    /// * data - The data of the CAN packet
    /// * is_ext - Indication if the CAN packet shall use extended addressing
    ///
    /// NOTE: If `id` is greater than 0x7FF, extended addressing (29bit) will be enabled
    /// on the wire regardless of `is_ext` (see [CanFrame::is_extended_on_wire]).
    ///
    /// Also, `data` will be limited to 8 bytes.
    pub fn new(id: u32, data: &[u8], is_ext: bool) -> (r: Self)
        ensures
            r.address() == id,
            r.payload() == data@.take(kept_len(data@.len(), 8)),
            r.max_payload() == 8,
            r.extended_flag() == is_ext,
    {
        let max: usize = if data.len() < CAN_MAX_DLC {
            data.len()
        } else {
            CAN_MAX_DLC
        };
        let mut tmp: [u8; 8] = [0u8; 8];
        let mut i: usize = 0;
        while i < max
            invariant
                max <= 8,
                max <= data@.len(),
                i <= max,
                forall|j: int| 0 <= j < i ==> tmp@[j] == data@[j],
            decreases max - i,
        {
            tmp[i] = data[i];
            i = i + 1;
        }
        let r = CanFrame { id, dlc: max as u8, data: tmp, ext: is_ext };
        assert(r.payload() =~= data@.take(max as int));
        r
    }

    /// Returns true if the CAN Frame was asked to use Extended (29bit) addressing.
    ///
    /// This is the stored flag only: a frame whose ID is above 0x7FF is sent with
    /// extended addressing whatever the flag says.
    pub fn is_extended(&self) -> (r: bool)
        ensures
            r == self.extended_flag(),
    {
        self.ext
    }

    /// Returns true if the CAN Frame is sent with Extended (29bit) addressing: either
    /// it was asked to, or its ID does not fit standard (11bit) addressing
    pub fn is_extended_on_wire(&self) -> (r: bool)
        ensures
            r == (self.extended_flag() || self.address() > 0x7FF),
    {
        self.ext || self.id > MAX_STANDARD_CAN_ID
    }
}

/// A frame built from `data` carries min(8, |data|) bytes, and exactly `data` when it
/// holds at most 8 bytes.
pub proof fn frame_keeps_data(data: Seq<u8>)
    ensures
        data.take(kept_len(data.len(), 8)).len() == if data.len() < 8 {
            data.len()
        } else {
            8
        },
        data.len() <= 8 ==> data.take(kept_len(data.len(), 8)) == data,
{
    if data.len() <= 8 {
        assert(data.take(kept_len(data.len(), 8)) =~= data);
    }
}

impl Packet for CanFrame {
    closed spec fn address(&self) -> u32 {
        self.id
    }

    closed spec fn payload(&self) -> Seq<u8> {
        self.data@.take(self.dlc as int)
    }

    closed spec fn max_payload(&self) -> nat {
        8
    }

    closed spec fn extended_flag(&self) -> bool {
        self.ext
    }

    fn get_address(&self) -> (r: u32) {
        self.id
    }

    fn get_data(&self) -> (r: &[u8]) {
        proof {
            use_type_invariant(self);
        }
        let (head, _) = self.data.as_slice().split_at(self.dlc as usize);
        assert(head@ =~= self.payload());
        head
    }

    fn set_address(&mut self, address: u32) {
        proof {
            use_type_invariant(&*self);
        }
        self.id = address;
    }

    fn set_data(&mut self, data: &[u8]) {
        let max: usize = if data.len() < CAN_MAX_DLC {
            data.len()
        } else {
            CAN_MAX_DLC
        };
        let mut tmp: [u8; 8] = self.data;
        let mut i: usize = 0;
        while i < max
            invariant
                max <= 8,
                max <= data@.len(),
                i <= max,
                forall|j: int| 0 <= j < i ==> tmp@[j] == data@[j],
            decreases max - i,
        {
            tmp[i] = data[i];
            i = i + 1;
        }
        *self = CanFrame { id: self.id, dlc: max as u8, data: tmp, ext: self.ext };
        assert(self.payload() =~= data@.take(max as int));
    }
}

/// ISO-TP configuration options (ISO15765-2)
#[derive(Debug, Copy, Clone)]
pub struct IsoTPSettings {
    /// ISO-TP Block size
    ///
    /// This value indicates the number of CAN Frames to send in multi-frame messages,
    /// before sending or receiving a flow control message.
    ///
    /// A value of 0 indicates send everything without flow control messages.
    ///
    /// NOTE: This value might be overridden by the device's implementation of ISO-TP
    pub block_size: u8,
    /// Minimum separation time between Tx/Rx CAN Frames.
    ///
    /// 3 ranges are accepted for this value:
    /// * 0x00 - Send without delay (ECU/Adapter will send frames as fast as the physical bus allows).
    /// * 0x01-0x7F - Send with delay of 1-127 milliseconds between can frames
    /// * 0xF1-0xF9 - Send with delay of 100-900 microseconds between can frames
    ///
    /// NOTE: This value might be overridden by the device's implementation of ISO-TP
    pub st_min: u8,
    /// Use extended ISO-TP addressing
    pub extended_addressing: bool,
    /// Pad frames over ISO-TP if data size is less than 8.
    pub pad_frame: bool,
    /// Baud rate of the CAN Network
    pub can_speed: u32,
    /// Does the CAN Network support extended addressing (29bit) or standard addressing (11bit)
    pub can_use_ext_addr: bool,
}

impl Default for IsoTPSettings {
    /// Block size 8, 20 ms between frames, padded frames, 500 kbit/s, standard addressing
    fn default() -> (r: Self)
        ensures
            r.block_size == 8,
            r.st_min == 20,
            !r.extended_addressing,
            r.pad_frame,
            r.can_speed == 500_000,
            !r.can_use_ext_addr,
    {
        IsoTPSettings {
            block_size: 8,
            st_min: 20,
            extended_addressing: false,
            pad_frame: true,
            can_speed: 500_000,
            can_use_ext_addr: false,
        }
    }
}

} // verus!
