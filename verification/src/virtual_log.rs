//! Virtualisation of a single log storage device.
//!
//! Many logical clients share one physical log device that supports only one
//! outstanding operation. Each client owns a `VirtualLogDevice` handle,
//! registered with the `MuxLog` multiplexer, that queues at most one pending
//! operation tag. The multiplexer serialises the pending operations onto the
//! underlying device: it issues a new device command only when none is in
//! flight, scanning the handles in registration order for the first pending
//! tag. Every long-latency operation is split-phase, so the multiplexer is a
//! plain state machine here: an operation request returns the command that
//! must be issued to the underlying device, if one is to be issued now, and
//! the completion entry points return both the next command to issue and the
//! completion to deliver to the client whose operation just finished.

use vstd::prelude::*;

verus! {

/// Bytes the underlying log device reserves at the start of each page for
/// its page header; entries begin past it, so a fresh client position
/// starts there.
pub const PAGE_HEADER_SIZE: usize = 8;

/// Status a completed log operation is reported with. The multiplexer does
/// not interpret it; it is passed through to the client that issued the
/// operation.
#[derive(Copy, Clone, PartialEq, Eq, Structural, Debug)]
pub enum ReturnCode {
    Success,
    Fail,
}

/// The operation a virtual log device has queued locally.
#[derive(Copy, Clone, PartialEq, Eq, Structural, Debug)]
pub enum Op {
    Idle,
    Read(usize),
    Append(usize),
    Sync,
    Erase,
}

/// A command the multiplexer asks the caller to issue to the underlying
/// log device. Read and append carry the client's buffer and a length.
pub enum LogCommand {
    Read(Vec<u8>, usize),
    Append(Vec<u8>, usize),
    Sync,
    Erase,
}

/// One client handle: a single-slot operation queue and a borrowed buffer.
/// A second request made before the first was serviced overwrites the
/// pending tag; the handle never queues two operations.
pub struct VirtualLogDevice {
    /// The locally queued operation, reset to `Idle` when issued.
    pub operation: Op,
    /// The client's position in the log file, updated by `seek`.
    pub read_entry_id: usize,
    /// The client's buffer for a queued read or append.
    pub buffer: Option<Vec<u8>>,
}

/// A handle's pending read or append always carries a buffer.
pub open spec fn device_wf(d: VirtualLogDevice) -> bool {
    (d.operation is Read || d.operation is Append) ==> d.buffer is Some
}

impl VirtualLogDevice {
    /// A fresh handle with nothing queued, positioned at the first entry of
    /// the log, just past the page header.
    pub fn new() -> (d: VirtualLogDevice)
        ensures
            d.operation is Idle,
            d.read_entry_id == PAGE_HEADER_SIZE,
            d.buffer is None,
            device_wf(d),
    {
        VirtualLogDevice { operation: Op::Idle, read_entry_id: PAGE_HEADER_SIZE, buffer: None }
    }

    /// A seek on a virtual device only moves this client's position in the
    /// log file; the underlying device is not touched.
    pub fn seek(&mut self, entry: usize) -> (rc: ReturnCode)
        ensures
            rc == ReturnCode::Success,
            *final(self) == (VirtualLogDevice { read_entry_id: entry, ..*old(self) }),
    {
        self.read_entry_id = entry;
        ReturnCode::Success
    }

    /// The client's current position in the log file.
    pub fn next_read_entry_id(&self) -> (entry: usize)
        ensures
            entry == self.read_entry_id,
    {
        self.read_entry_id
    }
}

/// Whether the handle at index `i` has an operation waiting to be issued.
pub open spec fn is_pending(s: Seq<VirtualLogDevice>, i: int) -> bool {
    0 <= i < s.len() && !(s[i].operation is Idle)
}

/// The command issued for a handle whose queued tag was `op` and whose
/// buffer was `buffer`.
pub open spec fn issues(op: Op, buffer: Option<Vec<u8>>, cmd: LogCommand) -> bool {
    match op {
        Op::Idle => false,
        Op::Read(len) => (cmd matches LogCommand::Read(b, l)
            && buffer is Some && b@ == buffer->0@ && l == len),
        Op::Append(len) => (cmd matches LogCommand::Append(b, l)
            && buffer is Some && b@ == buffer->0@ && l == len),
        Op::Sync => cmd is Sync,
        Op::Erase => cmd is Erase,
    }
}

/// The state `post` and issued command `cmd` that servicing leaves behind
/// once a completion has cleared the in-flight token, the handles standing
/// at `devices`: with nothing pending the multiplexer comes to rest; with
/// work pending, exactly the first pending handle's operation is issued and
/// recorded as in flight.
pub open spec fn serviced(devices: Seq<VirtualLogDevice>, post: MuxLog, cmd: Option<
    LogCommand,
>) -> bool {
    &&& post.devices@.len() == devices.len()
    &&& ((exists|i: int| is_pending(devices, i)) <==> cmd is Some)
    &&& (cmd is None ==> post.devices@ == devices && post.inflight is None)
    &&& (cmd is Some ==> post.inflight is Some && ({
        let chosen = post.inflight->0 as int;
        &&& is_pending(devices, chosen)
        &&& (forall|m: int| 0 <= m < chosen ==> !is_pending(devices, m))
        &&& issues(devices[chosen].operation, devices[chosen].buffer, cmd->0)
        &&& post.devices@[chosen].operation is Idle
        &&& post.devices@[chosen].read_entry_id == devices[chosen].read_entry_id
        &&& (forall|m: int| 0 <= m < devices.len() && m != chosen
                ==> post.devices@[m] == devices[m])
    }))
}

/// The multiplexer: owns the client handles and the single in-flight token.
pub struct MuxLog {
    /// The virtual devices, in registration order; the scan for pending work
    /// walks them front to back.
    pub devices: Vec<VirtualLogDevice>,
    /// Index of the handle whose operation the underlying device is
    /// executing, if any: the mutual-exclusion token.
    pub inflight: Option<usize>,
}

impl MuxLog {
    /// Every handle is well formed and the in-flight token points at a
    /// registered handle.
    pub open spec fn wf(self) -> bool {
        &&& forall|i: int| 0 <= i < self.devices@.len() ==> device_wf(#[trigger] self.devices@[i])
        &&& match self.inflight {
            Some(i) => i < self.devices@.len(),
            None => true,
        }
    }

    /// A multiplexer with no clients and nothing in flight.
    pub fn new() -> (m: MuxLog)
        ensures
            m.wf(),
            m.devices@.len() == 0,
            m.inflight is None,
    {
        MuxLog { devices: Vec::new(), inflight: None }
    }

    /// Registers a client handle with the multiplexer and returns its index,
    /// by which the client refers to it from now on.
    pub fn attach(&mut self, device: VirtualLogDevice) -> (id: usize)
        requires
            old(self).wf(),
            device_wf(device),
            old(self).devices@.len() < usize::MAX,
        ensures
            final(self).wf(),
            id == old(self).devices@.len(),
            final(self).devices@ == old(self).devices@.push(device),
            final(self).inflight == old(self).inflight,
    {
        let id = self.devices.len();
        self.devices.push(device);
        id
    }

    /// Issues the first pending operation to the underlying device, if the
    /// device is free.
    ///
    /// If an operation is already in flight, or no handle has anything
    /// queued, nothing happens and no command is issued. Otherwise the
    /// first handle (in registration order) with a pending tag is chosen:
    /// its tag is reset to idle, its buffer moves into the returned command,
    /// and the handle is recorded as in flight.
    pub fn do_next_op(&mut self) -> (r: Option<LogCommand>)
        requires
            old(self).wf(),
        ensures
            final(self).wf(),
            final(self).devices@.len() == old(self).devices@.len(),
            (old(self).inflight is Some ==> r is None && *final(self) == *old(self)),
            (old(self).inflight is None && (forall|i: int| !is_pending(old(self).devices@, i))
                ==> r is None && *final(self) == *old(self)),
            (r is None ==> *final(self) == *old(self)),
            (old(self).inflight is None && (exists|i: int| is_pending(old(self).devices@, i))
                ==> r is Some),
            (r is Some ==> old(self).inflight is None && final(self).inflight is Some),
            (r is Some ==> ({
                let chosen = final(self).inflight->0 as int;
                &&& is_pending(old(self).devices@, chosen)
                &&& (forall|m: int| 0 <= m < chosen ==> !is_pending(old(self).devices@, m))
                &&& issues(old(self).devices@[chosen].operation,
                        old(self).devices@[chosen].buffer, r->0)
                &&& final(self).devices@[chosen].operation is Idle
                &&& final(self).devices@[chosen].read_entry_id
                        == old(self).devices@[chosen].read_entry_id
                &&& (forall|m: int| 0 <= m < old(self).devices@.len() && m != chosen
                        ==> final(self).devices@[m] == old(self).devices@[m])
            })),
    {
        // At most one operation may be outstanding on the underlying device.
        if self.inflight.is_some() {
            return None;
        }

        // Service the first virtual device that has something to do.
        let mut i: usize = 0;
        while i < self.devices.len()
            invariant
                self == old(self),
                self.wf(),
                self.inflight is None,
                i <= self.devices@.len(),
                forall|m: int| 0 <= m < i ==> !is_pending(self.devices@, m),
            decreases self.devices@.len() - i,
        {
            let op = self.devices[i].operation;
            proof {
                if !(op is Idle) {
                    assert(is_pending(old(self).devices@, i as int));
                }
            }
            match op {
                Op::Idle => {}
                Op::Read(length) => {
                    let device = &mut self.devices[i];
                    device.operation = Op::Idle;
                    let buffer = device.buffer.take();
                    self.inflight = Some(i);
                    match buffer {
                        Some(buffer) => {
                            return Some(LogCommand::Read(buffer, length));
                        }
                        None => {
                            // A pending read always carries a buffer.
                            proof {
                                assert(false);
                            }
                        }
                    }
                }
                Op::Append(length) => {
                    let device = &mut self.devices[i];
                    device.operation = Op::Idle;
                    let buffer = device.buffer.take();
                    self.inflight = Some(i);
                    match buffer {
                        Some(buffer) => {
                            return Some(LogCommand::Append(buffer, length));
                        }
                        None => {
                            // A pending append always carries a buffer.
                            proof {
                                assert(false);
                            }
                        }
                    }
                }
                Op::Sync => {
                    let device = &mut self.devices[i];
                    device.operation = Op::Idle;
                    self.inflight = Some(i);
                    return Some(LogCommand::Sync);
                }
                Op::Erase => {
                    let device = &mut self.devices[i];
                    device.operation = Op::Idle;
                    self.inflight = Some(i);
                    return Some(LogCommand::Erase);
                }
            }
            i += 1;
        }
        None
    }

    /// Queues a read of `length` bytes into `buffer` on handle `id` and
    /// issues work to the underlying device if it is free. A tag queued
    /// earlier on this handle and not yet serviced is overwritten.
    pub fn read(&mut self, id: usize, buffer: Vec<u8>, length: usize) -> (r: Option<LogCommand>)
        requires
            old(self).wf(),
            id < old(self).devices@.len(),
        ensures
            final(self).wf(),
            final(self).devices@.len() == old(self).devices@.len(),
            ({
                let staged = old(self).devices@.update(id as int, VirtualLogDevice {
                    operation: Op::Read(length),
                    read_entry_id: old(self).devices@[id as int].read_entry_id,
                    buffer: Some(buffer),
                });
                &&& (old(self).inflight is Some ==> r is None
                        && final(self).inflight == old(self).inflight
                        && final(self).devices@ == staged)
                &&& (old(self).inflight is None ==> r is Some && final(self).inflight is Some
                        && issues(staged[final(self).inflight->0 as int].operation,
                            staged[final(self).inflight->0 as int].buffer, r->0))
            }),
    {
        let device = &mut self.devices[id];
        device.buffer = Some(buffer);
        device.operation = Op::Read(length);
        proof {
            let staged = old(self).devices@.update(id as int, VirtualLogDevice {
                operation: Op::Read(length),
                read_entry_id: old(self).devices@[id as int].read_entry_id,
                buffer: Some(buffer),
            });
            assert(self.devices@ =~= staged);
            assert(is_pending(self.devices@, id as int));
        }
        self.do_next_op()
    }

    /// Queues an append of `length` bytes from `buffer` on handle `id` and
    /// issues work to the underlying device if it is free.
    pub fn append(&mut self, id: usize, buffer: Vec<u8>, length: usize) -> (r: Option<LogCommand>)
        requires
            old(self).wf(),
            id < old(self).devices@.len(),
        ensures
            final(self).wf(),
            final(self).devices@.len() == old(self).devices@.len(),
            ({
                let staged = old(self).devices@.update(id as int, VirtualLogDevice {
                    operation: Op::Append(length),
                    read_entry_id: old(self).devices@[id as int].read_entry_id,
                    buffer: Some(buffer),
                });
                &&& (old(self).inflight is Some ==> r is None
                        && final(self).inflight == old(self).inflight
                        && final(self).devices@ == staged)
                &&& (old(self).inflight is None ==> r is Some && final(self).inflight is Some
                        && issues(staged[final(self).inflight->0 as int].operation,
                            staged[final(self).inflight->0 as int].buffer, r->0))
            }),
    {
        let device = &mut self.devices[id];
        device.buffer = Some(buffer);
        device.operation = Op::Append(length);
        proof {
            let staged = old(self).devices@.update(id as int, VirtualLogDevice {
                operation: Op::Append(length),
                read_entry_id: old(self).devices@[id as int].read_entry_id,
                buffer: Some(buffer),
            });
            assert(self.devices@ =~= staged);
            assert(is_pending(self.devices@, id as int));
        }
        self.do_next_op()
    }

    /// Queues a sync on handle `id` and issues work to the underlying
    /// device if it is free.
    pub fn sync(&mut self, id: usize) -> (r: Option<LogCommand>)
        requires
            old(self).wf(),
            id < old(self).devices@.len(),
        ensures
            final(self).wf(),
            final(self).devices@.len() == old(self).devices@.len(),
            ({
                let staged = old(self).devices@.update(id as int, VirtualLogDevice {
                    operation: Op::Sync,
                    ..old(self).devices@[id as int]
                });
                &&& (old(self).inflight is Some ==> r is None
                        && final(self).inflight == old(self).inflight
                        && final(self).devices@ == staged)
                &&& (old(self).inflight is None ==> r is Some && final(self).inflight is Some
                        && issues(staged[final(self).inflight->0 as int].operation,
                            staged[final(self).inflight->0 as int].buffer, r->0))
            }),
    {
        let device = &mut self.devices[id];
        device.operation = Op::Sync;
        proof {
            let staged = old(self).devices@.update(id as int, VirtualLogDevice {
                operation: Op::Sync,
                ..old(self).devices@[id as int]
            });
            assert(self.devices@ =~= staged);
            assert(is_pending(self.devices@, id as int));
        }
        self.do_next_op()
    }

    /// Queues an erase on handle `id` and issues work to the underlying
    /// device if it is free.
    pub fn erase(&mut self, id: usize) -> (r: Option<LogCommand>)
        requires
            old(self).wf(),
            id < old(self).devices@.len(),
        ensures
            final(self).wf(),
            final(self).devices@.len() == old(self).devices@.len(),
            ({
                let staged = old(self).devices@.update(id as int, VirtualLogDevice {
                    operation: Op::Erase,
                    ..old(self).devices@[id as int]
                });
                &&& (old(self).inflight is Some ==> r is None
                        && final(self).inflight == old(self).inflight
                        && final(self).devices@ == staged)
                &&& (old(self).inflight is None ==> r is Some && final(self).inflight is Some
                        && issues(staged[final(self).inflight->0 as int].operation,
                            staged[final(self).inflight->0 as int].buffer, r->0))
            }),
    {
        let device = &mut self.devices[id];
        device.operation = Op::Erase;
        proof {
            let staged = old(self).devices@.update(id as int, VirtualLogDevice {
                operation: Op::Erase,
                ..old(self).devices@[id as int]
            });
            assert(self.devices@ =~= staged);
            assert(is_pending(self.devices@, id as int));
        }
        self.do_next_op()
    }

    /// Completion of a read on the underlying device. Clears the in-flight
    /// token, immediately issues the next pending operation -- keeping the
    /// device busy -- and returns the completion to deliver: the handle that
    /// finished, its buffer handed back, the length read and the status. A
    /// completion that arrives with nothing in flight is dropped.
    pub fn read_done(&mut self, buffer: Vec<u8>, length: usize, error: ReturnCode)
        -> (r: (Option<LogCommand>, Option<(usize, Vec<u8>, usize, ReturnCode)>))
        requires
            old(self).wf(),
        ensures
            final(self).wf(),
            final(self).devices@.len() == old(self).devices@.len(),
            (old(self).inflight is None ==> r.1 is None && *final(self) == *old(self)),
            (old(self).inflight is Some ==> r.1 is Some
                && (r.1->0).0 == old(self).inflight->0
                && (r.1->0).1@ == buffer@
                && (r.1->0).2 == length
                && (r.1->0).3 == error),
            (old(self).inflight is Some ==> serviced(old(self).devices@, *final(self), r.0)),
    {
        let finished = self.inflight.take();
        match finished {
            None => (None, None),
            Some(device_id) => {
                let next = self.do_next_op();
                (next, Some((device_id, buffer, length, error)))
            }
        }
    }

    /// Completion of an append on the underlying device; as `read_done`,
    /// with the records-lost flag passed through to the client.
    pub fn append_done(&mut self, buffer: Vec<u8>, length: usize, records_lost: bool, error: ReturnCode)
        -> (r: (Option<LogCommand>, Option<(usize, Vec<u8>, usize, bool, ReturnCode)>))
        requires
            old(self).wf(),
        ensures
            final(self).wf(),
            final(self).devices@.len() == old(self).devices@.len(),
            (old(self).inflight is None ==> r.1 is None && *final(self) == *old(self)),
            (old(self).inflight is Some ==> r.1 is Some
                && (r.1->0).0 == old(self).inflight->0
                && (r.1->0).1@ == buffer@
                && (r.1->0).2 == length
                && (r.1->0).3 == records_lost
                && (r.1->0).4 == error),
            (old(self).inflight is Some ==> serviced(old(self).devices@, *final(self), r.0)),
    {
        let finished = self.inflight.take();
        match finished {
            None => (None, None),
            Some(device_id) => {
                let next = self.do_next_op();
                (next, Some((device_id, buffer, length, records_lost, error)))
            }
        }
    }

    /// Completion of a sync on the underlying device; as `read_done`, the
    /// status alone is delivered.
    pub fn sync_done(&mut self, error: ReturnCode)
        -> (r: (Option<LogCommand>, Option<(usize, ReturnCode)>))
        requires
            old(self).wf(),
        ensures
            final(self).wf(),
            final(self).devices@.len() == old(self).devices@.len(),
            (old(self).inflight is None ==> r.1 is None && *final(self) == *old(self)),
            (old(self).inflight is Some ==> r.1 is Some
                && (r.1->0).0 == old(self).inflight->0
                && (r.1->0).1 == error),
            (old(self).inflight is Some ==> serviced(old(self).devices@, *final(self), r.0)),
    {
        let finished = self.inflight.take();
        match finished {
            None => (None, None),
            Some(device_id) => {
                let next = self.do_next_op();
                (next, Some((device_id, error)))
            }
        }
    }

    /// Completion of an erase on the underlying device; as `sync_done`.
    pub fn erase_done(&mut self, error: ReturnCode)
        -> (r: (Option<LogCommand>, Option<(usize, ReturnCode)>))
        requires
            old(self).wf(),
        ensures
            final(self).wf(),
            final(self).devices@.len() == old(self).devices@.len(),
            (old(self).inflight is None ==> r.1 is None && *final(self) == *old(self)),
            (old(self).inflight is Some ==> r.1 is Some
                && (r.1->0).0 == old(self).inflight->0
                && (r.1->0).1 == error),
            (old(self).inflight is Some ==> serviced(old(self).devices@, *final(self), r.0)),
    {
        let finished = self.inflight.take();
        match finished {
            None => (None, None),
            Some(device_id) => {
                let next = self.do_next_op();
                (next, Some((device_id, error)))
            }
        }
    }

    /// Completion of a seek on the underlying device; as `sync_done`.
    pub fn seek_done(&mut self, error: ReturnCode)
        -> (r: (Option<LogCommand>, Option<(usize, ReturnCode)>))
        requires
            old(self).wf(),
        ensures
            final(self).wf(),
            final(self).devices@.len() == old(self).devices@.len(),
            (old(self).inflight is None ==> r.1 is None && *final(self) == *old(self)),
            (old(self).inflight is Some ==> r.1 is Some
                && (r.1->0).0 == old(self).inflight->0
                && (r.1->0).1 == error),
            (old(self).inflight is Some ==> serviced(old(self).devices@, *final(self), r.0)),
    {
        let finished = self.inflight.take();
        match finished {
            None => (None, None),
            Some(device_id) => {
                let next = self.do_next_op();
                (next, Some((device_id, error)))
            }
        }
    }
}

} // verus!
