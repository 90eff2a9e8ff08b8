//! The log multiplexer: one operation in flight at a time, service in list
//! order, and every client getting its own buffer back.

use tock_core::virtual_log::{LogCommand, MuxLog, Op, ReturnCode, VirtualLogDevice, PAGE_HEADER_SIZE};

/// Three clients queue read/append/sync before any service: exactly one
/// device call goes out; each completion issues exactly one more; after all
/// three completions nothing is in flight and every client got its own
/// buffer back.
#[test]
fn mux_single_inflight() {
    let mut mux = MuxLog::new();
    let a = mux.attach(VirtualLogDevice::new());
    let b = mux.attach(VirtualLogDevice::new());
    let c = mux.attach(VirtualLogDevice::new());

    // Queue on all three; only the first queued operation is issued.
    let first = mux.read(a, vec![0xaa; 8], 8);
    let issued = match first {
        Some(LogCommand::Read(buf, len)) => {
            assert_eq!(len, 8);
            assert_eq!(buf, vec![0xaa; 8]);
            buf
        }
        _ => panic!("expected the read to be issued"),
    };
    assert!(mux.append(b, vec![0xbb; 4], 4).is_none());
    assert!(mux.sync(c).is_none());
    assert_eq!(mux.inflight, Some(a));

    // Completing the read issues exactly the next pending operation and
    // returns the finished client's own buffer.
    let (next, delivery) = mux.read_done(issued, 8, ReturnCode::Success);
    let (done_id, done_buf, done_len, done_rc) = delivery.unwrap();
    assert_eq!(done_id, a);
    assert_eq!(done_buf, vec![0xaa; 8]);
    assert_eq!(done_len, 8);
    assert_eq!(done_rc, ReturnCode::Success);
    let issued = match next {
        Some(LogCommand::Append(buf, len)) => {
            assert_eq!(len, 4);
            assert_eq!(buf, vec![0xbb; 4]);
            buf
        }
        _ => panic!("expected the append to be issued"),
    };
    assert_eq!(mux.inflight, Some(b));

    let (next, delivery) = mux.append_done(issued, 4, false, ReturnCode::Success);
    let (done_id, done_buf, _, records_lost, _) = delivery.unwrap();
    assert_eq!(done_id, b);
    assert_eq!(done_buf, vec![0xbb; 4]);
    assert!(!records_lost);
    match next {
        Some(LogCommand::Sync) => {}
        _ => panic!("expected the sync to be issued"),
    }
    assert_eq!(mux.inflight, Some(c));

    let (next, delivery) = mux.sync_done(ReturnCode::Success);
    assert_eq!(delivery, Some((c, ReturnCode::Success)));
    assert!(next.is_none());
    assert_eq!(mux.inflight, None);
}

/// A completion that arrives with nothing in flight is dropped.
#[test]
fn completion_without_inflight_is_dropped() {
    let mut mux = MuxLog::new();
    mux.attach(VirtualLogDevice::new());
    let (next, delivery) = mux.sync_done(ReturnCode::Fail);
    assert!(next.is_none());
    assert_eq!(delivery, None);
    let (next, delivery) = mux.read_done(vec![1, 2, 3], 3, ReturnCode::Success);
    assert!(next.is_none());
    assert!(delivery.is_none());
}

/// A second request on a handle before the first was serviced overwrites
/// the pending tag.
#[test]
fn pending_tag_overwritten() {
    let mut mux = MuxLog::new();
    let a = mux.attach(VirtualLogDevice::new());
    let b = mux.attach(VirtualLogDevice::new());

    // Occupy the device with a's operation.
    assert!(mux.sync(a).is_some());
    // Queue twice on b while the device is busy: the erase wins.
    assert!(mux.append(b, vec![7; 2], 2).is_none());
    assert!(mux.erase(b).is_none());
    assert_eq!(mux.devices[b].operation, Op::Erase);

    let (next, _delivery) = mux.sync_done(ReturnCode::Success);
    match next {
        Some(LogCommand::Erase) => {}
        _ => panic!("expected the erase, the later of b's two requests"),
    }
}

/// A virtual seek only moves the client's own position, which starts just
/// past the page header.
#[test]
fn virtual_seek_is_local() {
    let mut device = VirtualLogDevice::new();
    assert_eq!(device.next_read_entry_id(), PAGE_HEADER_SIZE);
    assert_eq!(device.seek(42), ReturnCode::Success);
    assert_eq!(device.next_read_entry_id(), 42);
}
