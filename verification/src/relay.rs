//! The relay engine's forward-loop logic: what each direction does with the
//! bytes it just received, and how a run propagates the first failure.
//!
//! Each direction is single-purpose and blocking: bytes are forwarded in the
//! order they arrive on their source, and the two directions share nothing
//! but the device itself, which each reaches through a duplicated descriptor
//! of its own.

use vstd::prelude::*;

verus! {

use crate::error::{Error, ErrorKind};
use crate::logger::Logger;
use crate::serial::{Device, ReadFraming, SerialDevice, native_failure_error};

/// What one iteration of the serial→UDP loop does with the chunk it read.
pub enum SerialToUdpAction {
    /// Nothing was read; the loop polls again without side effects.
    Idle,
    /// Forward one datagram holding exactly the bytes just read; it goes to
    /// the fan-out destination exactly when fan-out is enabled.
    Forward { datagram: Vec<u8>, fan_out: bool },
}

/// What one iteration of the UDP→serial loop does with the datagram it
/// received.
pub enum UdpToSerialAction {
    /// The datagram was empty; the loop polls again without side effects.
    Idle,
    /// Write the datagram's bytes, whole, to the serial device.
    WriteSerial { bytes: Vec<u8> },
}

/// Whether fan-out is enabled for a whole run: a destination is configured
/// and it resolved once, at loop start. Resolution is never retried per
/// datagram; a configured destination that does not resolve leaves fan-out
/// disabled for the rest of the run.
pub fn fan_out_policy(destination_configured: bool, resolution_succeeded: bool) -> (r: bool)
    ensures
        r == (destination_configured && resolution_succeeded),
{
    destination_configured && resolution_succeeded
}

/// The first `n` bytes of the buffer, as one owned datagram.
fn copy_prefix(buf: &[u8], n: usize) -> (r: Vec<u8>)
    requires
        n <= buf@.len(),
    ensures
        r@ == buf@.take(n as int),
{
    let mut out: Vec<u8> = Vec::new();
    let mut i: usize = 0;
    while i < n
        invariant
            i <= n,
            n <= buf@.len(),
            out@ == buf@.take(i as int),
        decreases n - i,
    {
        out.push(*vstd::slice::slice_index_get(buf, i));
        proof {
            assert(buf@.take(i + 1 as int) =~= buf@.take(i as int).push(buf@[i as int]));
        }
        i = i + 1;
    }
    out
}

/// Decides what the serial→UDP loop does with a chunk of `bytes_read` bytes
/// at the front of `buf`: a zero-length read means another poll without side
/// effects; anything else becomes exactly one datagram — the bytes of this
/// read, no more and no fewer — which goes to the fan-out destination
/// exactly when fan-out is enabled. The datagram itself never depends on the
/// fan-out state.
pub fn serial_to_udp_step(fan_out: bool, buf: &[u8], bytes_read: usize) -> (r: SerialToUdpAction)
    requires
        bytes_read <= buf@.len(),
    ensures
        bytes_read == 0 <==> r is Idle,
        r matches SerialToUdpAction::Forward { datagram, fan_out: f } ==> datagram@ == buf@.take(
            bytes_read as int,
        ) && f == fan_out && bytes_read > 0,
    {
    if bytes_read == 0 {
        SerialToUdpAction::Idle
    } else {
        let datagram = copy_prefix(buf, bytes_read);
        SerialToUdpAction::Forward { datagram, fan_out }
    }
}

/// Decides what the UDP→serial loop does with a received datagram of
/// `bytes_received` bytes at the front of `buf`: an empty datagram means
/// another poll without side effects and raises no error; any other datagram
/// is to be written whole to the serial device.
pub fn udp_to_serial_step(buf: &[u8], bytes_received: usize) -> (r: UdpToSerialAction)
    requires
        bytes_received <= buf@.len(),
    ensures
        bytes_received == 0 <==> r is Idle,
        r matches UdpToSerialAction::WriteSerial { bytes } ==> bytes@ == buf@.take(
            bytes_received as int,
        ) && bytes_received > 0,
    {
    if bytes_received == 0 {
        UdpToSerialAction::Idle
    } else {
        let bytes = copy_prefix(buf, bytes_received);
        UdpToSerialAction::WriteSerial { bytes }
    }
}

/// One iteration of the serial→UDP loop against the device state: read up to
/// the chunk buffer's size from the serial handle under the run's
/// read-framing policy, decide the action for the chunk, and hand the
/// forwarded bytes to the sink if one is attached. A read failure aborts the
/// iteration with that error.
pub fn serial_to_udp_iteration(
    serial: &mut SerialDevice,
    dev: &mut Device,
    chunk: &mut Vec<u8>,
    fan_out: bool,
    framing: ReadFraming,
    logger: &Option<Logger>,
) -> (r: Result<SerialToUdpAction, Error>)
    requires
        old(dev)@.is_open(),
    ensures
        *final(serial) == *old(serial),
        final(chunk)@.len() == old(chunk)@.len(),
        old(dev)@.faulty ==> (r matches Err(e) && native_failure_error(e) && final(dev)@ == old(
            dev,
        )@ && final(chunk)@ == old(chunk)@),
        !old(dev)@.faulty ==> (r matches Ok(a) && {
            let (d, bytes) = old(dev)@.framed_read_transition(old(chunk)@.len(), framing);
            &&& final(dev)@ == d
            &&& (bytes.len() == 0 <==> a is Idle)
            &&& (a matches SerialToUdpAction::Forward { datagram, fan_out: f } ==> datagram@
                == bytes && f == fan_out)
        }),
    {
    let n = match serial.read_framed(dev, chunk, framing) {
        Ok(n) => n,
        Err(e) => {
            return Err(e);
        },
    };
    proof {
        let (d, bytes) = old(dev)@.framed_read_transition(old(chunk)@.len(), framing);
        assert(chunk@.take(n as int) =~= bytes);
    }
    let action = serial_to_udp_step(fan_out, chunk.as_slice(), n);
    if let SerialToUdpAction::Forward { datagram, fan_out: _ } = &action {
        crate::logger::log_if_enabled(logger, datagram.as_slice());
    }
    Ok(action)
}

/// One iteration of the UDP→serial loop against the device state, for a
/// received datagram of `bytes_received` bytes at the front of `buf`: an
/// empty datagram is skipped without any serial write and without an error;
/// any other datagram is written whole — never a silent prefix — then the
/// device is flushed and the bytes go to the sink if one is attached. An I/O
/// failure aborts the iteration with that error.
pub fn udp_to_serial_iteration(
    serial: &mut SerialDevice,
    dev: &mut Device,
    buf: &[u8],
    bytes_received: usize,
    logger: &Option<Logger>,
) -> (r: Result<(), Error>)
    requires
        old(dev)@.is_open(),
        bytes_received <= buf@.len(),
    ensures
        *final(serial) == *old(serial),
        final(dev)@.agrees_except_outgoing(old(dev)@),
        bytes_received == 0 ==> r is Ok && final(dev)@ == old(dev)@,
        r is Ok <==> (bytes_received == 0 || (!old(dev)@.faulty && old(dev)@.write_capacity > 0)),
        r is Ok ==> final(dev)@.outgoing == old(dev)@.outgoing + buf@.take(bytes_received as int),
        r matches Err(e) ==> e.kind == ErrorKind::IoError && final(dev)@.outgoing == old(
            dev,
        )@.outgoing,
    {
    match udp_to_serial_step(buf, bytes_received) {
        UdpToSerialAction::Idle => Ok(()),
        UdpToSerialAction::WriteSerial { bytes } => {
            match serial.write_all(dev, bytes.as_slice()) {
                Ok(_) => (),
                Err(e) => {
                    return Err(e);
                },
            }
            match serial.flush(dev) {
                Ok(_) => (),
                Err(e) => {
                    return Err(e);
                },
            }
            crate::logger::log_if_enabled(logger, bytes.as_slice());
            Ok(())
        },
    }
}

/// Propagates the first failure of a run: the serial→UDP loop's result is
/// examined first, then the UDP→serial loop's; a failure of either is fatal
/// to the whole run, regardless of the other loop's status.
pub fn first_failure(
    serial_to_udp: Result<(), Error>,
    udp_to_serial: Result<(), Error>,
) -> (r: Result<(), Error>)
    ensures
        serial_to_udp is Err ==> r == serial_to_udp,
        serial_to_udp is Ok ==> r == udp_to_serial,
    {
    match serial_to_udp {
        Err(e) => Err(e),
        Ok(_) => udp_to_serial,
    }
}

} // verus!
