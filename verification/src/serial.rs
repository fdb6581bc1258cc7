//! The serial channel: exclusive handles onto one serial device, with
//! duplication, partial reads and writes, and descriptor accounting.
//!
//! The platform shim that drives real hardware sits outside the library; the
//! channel logic here is stated and checked against [`Device`], the state of
//! one serial endpoint as the contracts see it: the byte queues in the two
//! directions, the behaviour of the native layer, and how many descriptors
//! are open onto the device.

use vstd::prelude::*;
use vstd::string::StringSliceAdditionalSpecFns;

verus! {

use crate::error::{Error, ErrorKind};

/// The descriptor number an open call hands out first.
pub const FIRST_FD: i64 = 3;

/// The mathematical state of one serial device endpoint.
pub ghost struct DeviceView {
    /// Bytes that arrived at the device and await a read call.
    pub incoming: Seq<u8>,
    /// Bytes the device accepted from write calls.
    pub outgoing: Seq<u8>,
    /// The most bytes the device accepts in one write call; zero models a
    /// stalled device.
    pub write_capacity: nat,
    /// Whether the native layer reports failure for I/O calls.
    pub faulty: bool,
    /// The number of open descriptors referring to the device.
    pub handles: nat,
    /// How often the underlying resource has been released.
    pub released: nat,
    /// The configured baud rate.
    pub baudrate: nat,
    /// The descriptor number the next open or duplicate call hands out.
    pub next_fd: int,
}

impl DeviceView {
    /// Whether at least one descriptor is open onto the device.
    pub open spec fn is_open(self) -> bool {
        self.handles > 0
    }

    /// The descriptor accounting is sound: the underlying resource is
    /// released at most once, and exactly when no descriptor remains open.
    pub open spec fn wf(self) -> bool {
        &&& self.released <= 1
        &&& (self.handles == 0 <==> self.released == 1)
    }

    /// How many bytes one write call accepts out of a buffer of the given
    /// length.
    pub open spec fn accepted(self, len: nat) -> nat {
        if len <= self.write_capacity {
            len
        } else {
            self.write_capacity
        }
    }

    /// The device after one write call, with the count of accepted bytes.
    pub open spec fn write_transition(self, data: Seq<u8>) -> (DeviceView, nat) {
        let n = self.accepted(data.len());
        (DeviceView { outgoing: self.outgoing + data.take(n as int), ..self }, n)
    }

    /// The device after one read call into a buffer of the given capacity,
    /// with the bytes handed out.
    pub open spec fn read_transition(self, capacity: nat) -> (DeviceView, Seq<u8>) {
        let n = if capacity <= self.incoming.len() {
            capacity
        } else {
            self.incoming.len()
        };
        (
            DeviceView { incoming: self.incoming.skip(n as int), ..self },
            self.incoming.take(n as int),
        )
    }

    /// The device after a loopback endpoint echoes everything written so far
    /// back to the read side, in order.
    pub open spec fn loop_back_transition(self) -> DeviceView {
        DeviceView {
            incoming: self.incoming + self.outgoing,
            outgoing: Seq::empty(),
            ..self
        }
    }

    /// The device after its descriptor is duplicated: one more open handle,
    /// under a descriptor number not handed out before.
    pub open spec fn duplicate_transition(self) -> DeviceView {
        DeviceView { handles: self.handles + 1, next_fd: self.next_fd + 1, ..self }
    }

    /// The device after one descriptor is closed: the underlying resource is
    /// released exactly when the last open descriptor goes.
    pub open spec fn close_transition(self) -> DeviceView
        recommends
            self.handles >= 1,
    {
        let remaining = (self.handles - 1) as nat;
        DeviceView {
            handles: remaining,
            released: if remaining == 0 {
                1nat
            } else {
                self.released
            },
            ..self
        }
    }

    /// The bytes one framed read out of a buffer of the given capacity hands
    /// out, and the device after it: a raw read drains as much as buffer and
    /// pending bytes allow; a newline-delimited read stops early after the
    /// first line feed.
    pub open spec fn framed_read_transition(self, capacity: nat, framing: ReadFraming) -> (
        DeviceView,
        Seq<u8>,
    ) {
        match framing {
            ReadFraming::Raw => self.read_transition(capacity),
            ReadFraming::LineDelimited => {
                let n = line_len(self.incoming, capacity);
                (
                    DeviceView { incoming: self.incoming.skip(n as int), ..self },
                    self.incoming.take(n as int),
                )
            },
        }
    }

    /// The two states agree on every part but the outgoing bytes.
    pub open spec fn agrees_except_outgoing(self, other: DeviceView) -> bool {
        &&& self.incoming == other.incoming
        &&& self.write_capacity == other.write_capacity
        &&& self.faulty == other.faulty
        &&& self.handles == other.handles
        &&& self.released == other.released
        &&& self.baudrate == other.baudrate
        &&& self.next_fd == other.next_fd
    }
}

/// The read-framing policy of a serial read: one raw chunk of whatever is
/// pending, or single-byte reads that stop early once a line feed is seen.
#[derive(Clone, Copy, Debug, PartialEq, Eq, Structural)]
pub enum ReadFraming {
    /// Drain as much as the buffer holds and the device has pending.
    Raw,
    /// Stop after the first line feed, so one read carries at most one line.
    LineDelimited,
}

/// The length of a newline-delimited read out of the pending bytes: the
/// shortest prefix that ends at a line feed, capped by the read capacity and
/// by what is pending.
pub open spec fn line_len(pending: Seq<u8>, capacity: nat) -> nat
    decreases capacity,
{
    if capacity == 0 || pending.len() == 0 {
        0
    } else if pending[0] == 0x0a {
        1
    } else {
        (1 + line_len(pending.skip(1), (capacity - 1) as nat)) as nat
    }
}

/// One serial device endpoint. Its fields are open so that a test bench can
/// wire up any device behaviour the contracts speak of.
pub struct Device {
    /// Bytes that arrived at the device and await a read call.
    pub incoming: Vec<u8>,
    /// Bytes the device accepted from write calls.
    pub outgoing: Vec<u8>,
    /// The most bytes the device accepts in one write call; zero models a
    /// stalled device.
    pub write_capacity: usize,
    /// Whether the native layer reports failure for I/O calls.
    pub faulty: bool,
    /// The number of open descriptors referring to the device.
    pub handles: u64,
    /// How often the underlying resource has been released.
    pub released: u64,
    /// The configured baud rate.
    pub baudrate: u64,
    /// The descriptor number the next open or duplicate call hands out.
    pub next_fd: i64,
}

impl View for Device {
    type V = DeviceView;

    open spec fn view(&self) -> DeviceView {
        DeviceView {
            incoming: self.incoming@,
            outgoing: self.outgoing@,
            write_capacity: self.write_capacity as nat,
            faulty: self.faulty,
            handles: self.handles as nat,
            released: self.released as nat,
            baudrate: self.baudrate as nat,
            next_fd: self.next_fd as int,
        }
    }
}

impl Device {
    /// Echoes everything written so far back to the read side, in order, the
    /// way a loopback-wired endpoint hands written bytes back.
    pub fn loop_back(&mut self)
        ensures
            final(self)@ == old(self)@.loop_back_transition(),
    {
        let mut echoed: Vec<u8> = Vec::new();
        core::mem::swap(&mut echoed, &mut self.outgoing);
        self.incoming.append(&mut echoed);
    }
}

/// Moves the first `n` pending bytes of the device into the front of `buf`,
/// leaving the rest of the buffer as it was.
fn drain_pending(dev: &mut Device, buf: &mut Vec<u8>, n: usize)
    requires
        n <= old(dev)@.incoming.len(),
        n <= old(buf)@.len(),
    ensures
        final(dev)@ == (DeviceView { incoming: old(dev)@.incoming.skip(n as int), ..old(dev)@ }),
        final(buf)@ == old(dev)@.incoming.take(n as int) + old(buf)@.skip(n as int),
        final(buf)@.len() == old(buf)@.len(),
{
    let mut i: usize = 0;
    while i < n
        invariant
            i <= n,
            n <= old(buf)@.len(),
            n <= dev@.incoming.len(),
            dev@ == old(dev)@,
            buf@.len() == old(buf)@.len(),
            forall|j: int| 0 <= j < i ==> buf@[j] == dev@.incoming[j],
            forall|j: int| i <= j < buf@.len() ==> buf@[j] == old(buf)@[j],
        decreases n - i,
    {
        let b = dev.incoming[i];
        buf.set(i, b);
        i = i + 1;
    }
    let rest = dev.incoming.split_off(n);
    dev.incoming = rest;
    proof {
        assert(dev@.incoming =~= old(dev)@.incoming.skip(n as int));
        assert(buf@ =~= old(dev)@.incoming.take(n as int) + old(buf)@.skip(n as int));
    }
}

/// What the native layer's failure surfaces as.
pub open spec fn native_failure_error(e: Error) -> bool {
    &&& e.kind == ErrorKind::IoError
    &&& e.message@ == "native I/O failure"@
    &&& e.cause is None
}

/// The error raised when the native layer reports an I/O failure.
fn native_io_error() -> (r: Error)
    ensures
        native_failure_error(r),
{
    Error::new(ErrorKind::IoError, "native I/O failure".to_owned())
}

/// Exclusive access to one open descriptor onto a serial device.
pub struct SerialDevice {
    /// The underlying file descriptor.
    pub fd: i64,
}

impl SerialDevice {
    /// Opens a serial device at the given path and baud rate. A path with an
    /// embedded null byte cannot be handed to the native layer and is
    /// rejected; any other path yields a fresh device with one open
    /// descriptor and empty queues in both directions.
    pub fn new(path: &str, baudrate: u64) -> (r: Result<(SerialDevice, Device), Error>)
        ensures
            path.spec_bytes().contains(0u8) <==> r is Err,
            r matches Err(e) ==> e.kind == ErrorKind::InvalidArgument && e.message@
                == "device path contains an embedded null byte"@,
            r matches Ok((handle, device)) ==> {
                &&& handle.fd == FIRST_FD
                &&& device@ == (DeviceView {
                    incoming: Seq::empty(),
                    outgoing: Seq::empty(),
                    write_capacity: usize::MAX as nat,
                    faulty: false,
                    handles: 1nat,
                    released: 0nat,
                    baudrate: baudrate as nat,
                    next_fd: FIRST_FD + 1,
                })
                &&& device@.wf()
            },
    {
        let bytes = path.as_bytes();
        let mut i: usize = 0;
        while i < bytes.len()
            invariant
                i <= bytes@.len(),
                bytes@ == path.spec_bytes(),
                forall|j: int| 0 <= j < i ==> bytes@[j] != 0u8,
            decreases bytes@.len() - i,
        {
            if *vstd::slice::slice_index_get(bytes, i) == 0 {
                proof {
                    assert(path.spec_bytes().contains(0u8));
                }
                return Err(
                    Error::new(
                        ErrorKind::InvalidArgument,
                        "device path contains an embedded null byte".to_owned(),
                    ),
                );
            }
            i = i + 1;
        }
        proof {
            assert(!path.spec_bytes().contains(0u8));
        }
        let device = Device {
            incoming: Vec::new(),
            outgoing: Vec::new(),
            write_capacity: usize::MAX,
            faulty: false,
            handles: 1,
            released: 0,
            baudrate,
            next_fd: FIRST_FD + 1,
        };
        Ok((SerialDevice { fd: FIRST_FD }, device))
    }

    /// Duplicates the descriptor: a second, fully independent channel onto
    /// the same device, under a descriptor number of its own. Fails when the
    /// native layer reports failure, and changes nothing then.
    pub fn try_clone(&self, dev: &mut Device) -> (r: Result<SerialDevice, Error>)
        requires
            old(dev)@.is_open(),
            self.fd < old(dev)@.next_fd,
            old(dev).handles < u64::MAX,
            old(dev).next_fd < i64::MAX,
        ensures
            old(dev)@.faulty ==> (r matches Err(e) && native_failure_error(e) && final(dev)@
                == old(dev)@),
            !old(dev)@.faulty ==> (r matches Ok(h) && final(dev)@
                == old(dev)@.duplicate_transition() && h.fd == old(dev)@.next_fd && h.fd != self.fd
                && h.fd < final(dev)@.next_fd),
            old(dev)@.wf() ==> final(dev)@.wf(),
    {
        if dev.faulty {
            return Err(native_io_error());
        }
        let fd = dev.next_fd;
        dev.next_fd = dev.next_fd + 1;
        dev.handles = dev.handles + 1;
        Ok(SerialDevice { fd })
    }

    /// Fills the front of `buf` from the device: as many bytes as the buffer
    /// holds and the device has pending, possibly zero. A zero-length result
    /// is not end-of-stream; the caller polls again. Fails when the native
    /// layer reports failure, and changes nothing then.
    pub fn read(&mut self, dev: &mut Device, buf: &mut Vec<u8>) -> (r: Result<usize, Error>)
        requires
            old(dev)@.is_open(),
        ensures
            *final(self) == *old(self),
            old(dev)@.faulty ==> (r matches Err(e) && native_failure_error(e) && final(dev)@
                == old(dev)@ && final(buf)@ == old(buf)@),
            !old(dev)@.faulty ==> (r matches Ok(n) && {
                let (d, bytes) = old(dev)@.read_transition(old(buf)@.len());
                &&& n == bytes.len()
                &&& n <= old(buf)@.len()
                &&& final(dev)@ == d
                &&& final(buf)@ == bytes + old(buf)@.skip(n as int)
            }),
            old(dev)@.wf() ==> final(dev)@.wf(),
    {
        if dev.faulty {
            return Err(native_io_error());
        }
        let n = if buf.len() <= dev.incoming.len() {
            buf.len()
        } else {
            dev.incoming.len()
        };
        drain_pending(dev, buf, n);
        Ok(n)
    }

    /// Fills the front of `buf` under the newline-delimited framing policy:
    /// single-byte reads that stop early once a line feed is seen, so one
    /// read hands out at most one line. Fails when the native layer reports
    /// failure, and changes nothing then.
    pub fn read_line(&mut self, dev: &mut Device, buf: &mut Vec<u8>) -> (r: Result<usize, Error>)
        requires
            old(dev)@.is_open(),
        ensures
            *final(self) == *old(self),
            old(dev)@.faulty ==> (r matches Err(e) && native_failure_error(e) && final(dev)@
                == old(dev)@ && final(buf)@ == old(buf)@),
            !old(dev)@.faulty ==> (r matches Ok(n) && {
                let (d, bytes) = old(dev)@.framed_read_transition(
                    old(buf)@.len(),
                    ReadFraming::LineDelimited,
                );
                &&& n == bytes.len()
                &&& n <= old(buf)@.len()
                &&& final(dev)@ == d
                &&& final(buf)@ == bytes + old(buf)@.skip(n as int)
            }),
            old(dev)@.wf() ==> final(dev)@.wf(),
    {
        if dev.faulty {
            return Err(native_io_error());
        }
        let limit = if buf.len() <= dev.incoming.len() {
            buf.len()
        } else {
            dev.incoming.len()
        };
        let ghost pending: Seq<u8> = dev@.incoming;
        let ghost capacity: nat = old(buf)@.len();
        let mut n: usize = 0;
        let mut stopped = false;
        proof {
            assert(pending.skip(0) =~= pending);
        }
        while n < limit && !stopped
            invariant
                n <= limit,
                limit <= pending.len(),
                limit <= capacity,
                limit == if capacity <= pending.len() {
                    capacity
                } else {
                    pending.len()
                },
                dev@.incoming == pending,
                stopped ==> line_len(pending, capacity) == n,
                !stopped ==> line_len(pending, capacity) == n + line_len(
                    pending.skip(n as int),
                    (capacity - n) as nat,
                ),
            decreases limit - n,
        {
            proof {
                assert(pending.skip(n as int)[0] == pending[n as int]);
                assert(pending.skip(n as int).skip(1) =~= pending.skip(n + 1 as int));
            }
            let b = dev.incoming[n];
            n = n + 1;
            if b == 0x0a {
                stopped = true;
            }
        }
        proof {
            if !stopped {
                assert(line_len(pending.skip(n as int), (capacity - n) as nat) == 0);
            }
            assert(line_len(pending, capacity) == n);
        }
        drain_pending(dev, buf, n);
        Ok(n)
    }

    /// Fills the front of `buf` under the given read-framing policy: the
    /// raw policy drains as much as buffer and device allow, the
    /// newline-delimited policy stops early after the first line feed. The
    /// configuration of a run selects the policy.
    pub fn read_framed(
        &mut self,
        dev: &mut Device,
        buf: &mut Vec<u8>,
        framing: ReadFraming,
    ) -> (r: Result<usize, Error>)
        requires
            old(dev)@.is_open(),
        ensures
            *final(self) == *old(self),
            old(dev)@.faulty ==> (r matches Err(e) && native_failure_error(e) && final(dev)@
                == old(dev)@ && final(buf)@ == old(buf)@),
            !old(dev)@.faulty ==> (r matches Ok(n) && {
                let (d, bytes) = old(dev)@.framed_read_transition(old(buf)@.len(), framing);
                &&& n == bytes.len()
                &&& n <= old(buf)@.len()
                &&& final(dev)@ == d
                &&& final(buf)@ == bytes + old(buf)@.skip(n as int)
            }),
            old(dev)@.wf() ==> final(dev)@.wf(),
    {
        match framing {
            ReadFraming::Raw => self.read(dev, buf),
            ReadFraming::LineDelimited => self.read_line(dev, buf),
        }
    }

    /// Writes the front of `buf` to the device: as many bytes as the device
    /// accepts in one call, possibly fewer than the whole buffer. Fails when
    /// the native layer reports failure, and changes nothing then.
    pub fn write(&mut self, dev: &mut Device, buf: &[u8]) -> (r: Result<usize, Error>)
        requires
            old(dev)@.is_open(),
        ensures
            *final(self) == *old(self),
            old(dev)@.faulty ==> (r matches Err(e) && native_failure_error(e) && final(dev)@
                == old(dev)@),
            !old(dev)@.faulty ==> (r matches Ok(n) && {
                let (d, accepted) = old(dev)@.write_transition(buf@);
                n == accepted && final(dev)@ == d
            }),
            old(dev)@.wf() ==> final(dev)@.wf(),
    {
        if dev.faulty {
            return Err(native_io_error());
        }
        let n = if buf.len() <= dev.write_capacity {
            buf.len()
        } else {
            dev.write_capacity
        };
        let mut i: usize = 0;
        while i < n
            invariant
                i <= n,
                n <= buf@.len(),
                dev@.incoming == old(dev)@.incoming,
                dev@.write_capacity == old(dev)@.write_capacity,
                dev@.faulty == old(dev)@.faulty,
                dev@.handles == old(dev)@.handles,
                dev@.released == old(dev)@.released,
                dev@.baudrate == old(dev)@.baudrate,
                dev@.next_fd == old(dev)@.next_fd,
                dev@.outgoing == old(dev)@.outgoing + buf@.take(i as int),
            decreases n - i,
        {
            let b = *vstd::slice::slice_index_get(buf, i);
            dev.outgoing.push(b);
            proof {
                assert(buf@.take(i + 1 as int) =~= buf@.take(i as int).push(buf@[i as int]));
                assert(dev@.outgoing =~= old(dev)@.outgoing + buf@.take(i + 1 as int));
            }
            i = i + 1;
        }
        Ok(n)
    }

    /// Writes the entire buffer, by repeated write calls. Either the whole
    /// buffer is consumed, or the call fails with an I/O error — a write
    /// call that accepts zero bytes is a stalled device, not retried — and
    /// nothing counts as forwarded then.
    pub fn write_all(&mut self, dev: &mut Device, buf: &[u8]) -> (r: Result<(), Error>)
        requires
            old(dev)@.is_open(),
        ensures
            *final(self) == *old(self),
            final(dev)@.agrees_except_outgoing(old(dev)@),
            r is Ok <==> (buf@.len() == 0 || (!old(dev)@.faulty && old(dev)@.write_capacity > 0)),
            r is Ok ==> final(dev)@.outgoing == old(dev)@.outgoing + buf@,
            r matches Err(e) ==> e.kind == ErrorKind::IoError && final(dev)@.outgoing == old(
                dev,
            )@.outgoing,
            old(dev)@.faulty && buf@.len() > 0 ==> (r matches Err(e) && native_failure_error(e)),
            !old(dev)@.faulty && old(dev)@.write_capacity == 0 && buf@.len() > 0 ==> (r matches Err(
                e,
            ) && e.message@ == "failed to write whole buffer"@),
            old(dev)@.wf() ==> final(dev)@.wf(),
    {
        let mut pos: usize = 0;
        while pos < buf.len()
            invariant
                pos <= buf@.len(),
                old(dev)@.is_open(),
                self.fd == old(self).fd,
                dev@.agrees_except_outgoing(old(dev)@),
                dev@.outgoing == old(dev)@.outgoing + buf@.take(pos as int),
                pos > 0 ==> !dev@.faulty && dev@.write_capacity > 0,
            decreases buf@.len() - pos,
        {
            let rest = vstd::slice::slice_subrange(buf, pos, buf.len());
            let n = match self.write(dev, rest) {
                Ok(n) => n,
                Err(e) => {
                    proof {
                        assert(buf@.take(0) =~= Seq::<u8>::empty());
                        assert(dev@.outgoing =~= old(dev)@.outgoing);
                    }
                    return Err(e);
                },
            };
            if n == 0 {
                proof {
                    assert(dev@.outgoing =~= old(dev)@.outgoing + buf@.take(pos as int));
                    assert(buf@.take(0) =~= Seq::<u8>::empty());
                    assert(dev@.outgoing =~= old(dev)@.outgoing);
                }
                return Err(
                    Error::new(ErrorKind::IoError, "failed to write whole buffer".to_owned()),
                );
            }
            proof {
                assert(buf@.take(pos + n as int) =~= buf@.take(pos as int) + buf@.subrange(
                    pos as int,
                    buf@.len() as int,
                ).take(n as int));
                assert((old(dev)@.outgoing + buf@.take(pos as int)) + buf@.subrange(
                    pos as int,
                    buf@.len() as int,
                ).take(n as int) =~= old(dev)@.outgoing + buf@.take(pos + n as int));
            }
            pos = pos + n;
        }
        proof {
            assert(buf@.take(buf@.len() as int) =~= buf@);
            assert(buf@.take(0) =~= Seq::<u8>::empty());
        }
        Ok(())
    }

    /// Pushes buffered output to the device. The endpoint here keeps no
    /// write buffer, so a successful flush changes nothing; the call still
    /// fails when the native layer reports failure.
    pub fn flush(&mut self, dev: &mut Device) -> (r: Result<(), Error>)
        requires
            old(dev)@.is_open(),
        ensures
            *final(self) == *old(self),
            final(dev)@ == old(dev)@,
            r is Ok <==> !old(dev)@.faulty,
            r matches Err(e) ==> native_failure_error(e),
    {
        if dev.faulty {
            return Err(native_io_error());
        }
        Ok(())
    }

    /// Releases this descriptor. The underlying device resource is released
    /// exactly when the last open descriptor is closed, and never twice.
    pub fn close(self, dev: &mut Device)
        requires
            old(dev)@.is_open(),
            old(dev)@.wf(),
        ensures
            final(dev)@ == old(dev)@.close_transition(),
            final(dev)@.wf(),
    {
        dev.handles = dev.handles - 1;
        if dev.handles == 0 {
            dev.released = dev.released + 1;
        }
    }
}

/// The device after `n` successive duplications.
pub open spec fn duplicated_n(d: DeviceView, n: nat) -> DeviceView
    decreases n,
{
    if n == 0 {
        d
    } else {
        duplicated_n(d, (n - 1) as nat).duplicate_transition()
    }
}

/// The device after `n` successive closes.
pub open spec fn closed_n(d: DeviceView, n: nat) -> DeviceView
    decreases n,
{
    if n == 0 {
        d
    } else {
        closed_n(d, (n - 1) as nat).close_transition()
    }
}

/// Duplication only opens descriptors: `n` duplications add `n` open
/// handles and release nothing, and the byte queues are untouched.
pub proof fn lemma_duplicated_n(d: DeviceView, n: nat)
    ensures
        duplicated_n(d, n).handles == d.handles + n,
        duplicated_n(d, n).released == d.released,
        duplicated_n(d, n).incoming == d.incoming,
        duplicated_n(d, n).outgoing == d.outgoing,
    decreases n,
{
    if n > 0 {
        lemma_duplicated_n(d, (n - 1) as nat);
    }
}

/// Closing `k` of the open descriptors one after the other leaves the rest
/// open; the underlying resource is released exactly when the last one goes,
/// and never before.
pub proof fn lemma_closed_n(d: DeviceView, k: nat)
    requires
        d.released == 0,
        k <= d.handles,
    ensures
        closed_n(d, k).handles == d.handles - k,
        k < d.handles ==> closed_n(d, k).released == 0,
        k == d.handles && k >= 1 ==> closed_n(d, k).released == 1,
    decreases k,
{
    if k > 0 {
        lemma_closed_n(d, (k - 1) as nat);
    }
}

/// Duplicating a freshly opened channel `n` times and then closing all
/// `n + 1` descriptors releases the underlying resource exactly once: at the
/// last close, never before it, and never twice.
pub proof fn lemma_duplicate_all_then_close_all(d: DeviceView, n: nat)
    requires
        d.handles == 1,
        d.released == 0,
    ensures
        duplicated_n(d, n).handles == n + 1,
        forall|k: nat| k <= n ==> (#[trigger] closed_n(duplicated_n(d, n), k)).released == 0,
        closed_n(duplicated_n(d, n), n + 1).released == 1,
        closed_n(duplicated_n(d, n), n + 1).handles == 0,
{
    lemma_duplicated_n(d, n);
    let all = duplicated_n(d, n);
    assert forall|k: nat| k <= n implies (#[trigger] closed_n(all, k)).released == 0 by {
        lemma_closed_n(all, k);
    }
    lemma_closed_n(all, n + 1);
}

/// Loopback round trip: bytes written whole through one descriptor and
/// echoed back by a loopback-wired endpoint are read back identical and in
/// order through an independent descriptor of the same device.
pub proof fn lemma_loopback_round_trip(d: DeviceView, data: Seq<u8>, capacity: nat)
    requires
        d.incoming.len() == 0,
        d.outgoing.len() == 0,
        0 < data.len(),
        data.len() <= capacity,
        data.len() <= d.write_capacity,
    ensures
        ({
            let (written, n) = d.write_transition(data);
            let echoed = written.loop_back_transition();
            let (drained, got) = echoed.read_transition(capacity);
            &&& n == data.len()
            &&& got == data
            &&& drained.incoming.len() == 0
        }),
{
    let (written, n) = d.write_transition(data);
    assert(written.outgoing =~= d.outgoing + data);
    let echoed = written.loop_back_transition();
    let (drained, got) = echoed.read_transition(capacity);
    assert(got =~= echoed.incoming.take(echoed.incoming.len() as int));
    assert(echoed.incoming =~= d.incoming + d.outgoing + data);
}

} // verus!
