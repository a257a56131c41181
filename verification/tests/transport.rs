use netcanv::net::socket::{
    combine_ticks, encode_packet, queued_packet, stop_requested, worker_status, Abort,
    ControllableThread, Finished, Remote, SendError, TryRecvOutcome, WorkerError,
};

#[test]
fn scenario_send_backlog_preserves_order() {
    // 1000 sends with nobody reading on the peer's side: none blocks, none
    // fails, and the worker later drains them in exactly the send order.
    let (remote, send_worker, _recv_worker) = Remote::<u64>::new();
    for i in 0..1000u64 {
        assert!(remote.send(i).is_ok());
    }
    for i in 0..1000u64 {
        assert_eq!(send_worker.next_outbound(), Some(i));
    }
}

#[test]
fn scenario_three_packets_then_nothing() {
    // Three packets received, then silence: three polls yield them in order,
    // a fourth yields nothing, and nothing blocks.
    let (remote, _send_worker, recv_worker) = Remote::<u64>::new();
    recv_worker.deliver(1).unwrap();
    recv_worker.deliver(2).unwrap();
    recv_worker.deliver(3).unwrap();
    assert_eq!(remote.try_recv(), Some(1));
    assert_eq!(remote.try_recv(), Some(2));
    assert_eq!(remote.try_recv(), Some(3));
    assert_eq!(remote.try_recv(), None);
}

#[test]
fn scenario_peer_closes_immediately() {
    // The receive worker's first read fails; the health check reports the
    // error exactly once and says "torn down" afterwards, never "all fine".
    let (remote, _send_worker, recv_worker) = Remote::<u64>::new();
    recv_worker.link.finish(Some(WorkerError::Read));
    assert_eq!(remote.tick(), Err(WorkerError::Read));
    assert_eq!(remote.tick(), Ok(true));
}

#[test]
fn send_path_error_reported_first() {
    let (remote, send_worker, recv_worker) = Remote::<u64>::new();
    send_worker.link.finish(Some(WorkerError::Write));
    recv_worker.link.finish(Some(WorkerError::Read));
    assert_eq!(remote.tick(), Err(WorkerError::Write));
    assert_eq!(remote.tick(), Ok(true));
}

#[test]
fn clean_worker_finish_reports_teardown() {
    let (remote, send_worker, _recv_worker) = Remote::<u64>::new();
    send_worker.link.finish(None);
    assert_eq!(remote.tick(), Ok(true));
}

#[test]
fn tick_reports_running_while_both_run() {
    let (remote, _send_worker, _recv_worker) = Remote::<u64>::new();
    assert_eq!(remote.tick(), Ok(false));
    assert_eq!(remote.tick(), Ok(false));
}

#[test]
fn scenario_send_then_drop() {
    // A send followed at once by dropping the handle: the drop neither
    // blocks nor panics; the worker observes the cancellation, and delivery
    // of the last packet is best-effort.
    let (remote, send_worker, _recv_worker) = Remote::<u64>::new();
    remote.send(7).unwrap();
    drop(remote);
    assert!(send_worker.link.should_stop());
    assert_eq!(send_worker.next_outbound(), Some(7));
    assert_eq!(send_worker.next_outbound(), None);
}

#[test]
fn send_fails_after_worker_stopped() {
    let (remote, send_worker, _recv_worker) = Remote::<u64>::new();
    drop(send_worker);
    assert_eq!(remote.send(1), Err(SendError));
}

#[test]
fn delivery_to_gone_owner_is_an_error() {
    let (remote, _send_worker, recv_worker) = Remote::<u64>::new();
    drop(remote);
    assert_eq!(recv_worker.deliver(1), Err(WorkerError::Delivery));
}

#[test]
fn abort_reaches_the_worker() {
    let (owner, link) = ControllableThread::new();
    assert!(!link.should_stop());
    assert_eq!(owner.tick(), Ok(false));
    owner.abort();
    assert!(link.should_stop());
    // a repeated request is harmless
    owner.abort();
    assert!(link.should_stop());
}

#[test]
fn completion_classifier_meanings() {
    assert_eq!(worker_status(TryRecvOutcome::Empty), Ok(false));
    assert_eq!(worker_status(TryRecvOutcome::Disconnected), Ok(true));
    assert_eq!(worker_status(TryRecvOutcome::Got(Finished(None))), Ok(true));
    assert_eq!(
        worker_status(TryRecvOutcome::Got(Finished(Some(WorkerError::Read)))),
        Err(WorkerError::Read)
    );
}

#[test]
fn stop_classifier_meanings() {
    assert!(stop_requested(TryRecvOutcome::Got(Abort)));
    assert!(stop_requested(TryRecvOutcome::<Abort>::Disconnected));
    assert!(!stop_requested(TryRecvOutcome::<Abort>::Empty));
}

#[test]
fn queued_packet_meanings() {
    assert_eq!(queued_packet(TryRecvOutcome::Got(5u64)), Some(5));
    assert_eq!(queued_packet(TryRecvOutcome::<u64>::Empty), None);
    assert_eq!(queued_packet(TryRecvOutcome::<u64>::Disconnected), None);
}

#[test]
fn tick_combination_rules() {
    assert_eq!(combine_ticks(Ok(false), Ok(false)), Ok(false));
    assert_eq!(combine_ticks(Ok(true), Ok(false)), Ok(true));
    assert_eq!(combine_ticks(Ok(false), Ok(true)), Ok(true));
    assert_eq!(combine_ticks(Err(WorkerError::Write), Ok(false)), Err(WorkerError::Write));
    assert_eq!(combine_ticks(Ok(false), Err(WorkerError::Read)), Err(WorkerError::Read));
    assert_eq!(
        combine_ticks(Err(WorkerError::Write), Err(WorkerError::Read)),
        Err(WorkerError::Write)
    );
}

#[test]
fn wire_records_decode_in_order() {
    // Concatenated wire records split back into exactly the packets that
    // were encoded, in order, consuming the whole stream.
    let packets: Vec<u64> = vec![7, 99, 123456789];
    let mut wire: Vec<u8> = Vec::new();
    for p in &packets {
        let bytes = encode_packet(p).unwrap();
        assert!(!bytes.is_empty());
        wire.extend_from_slice(&bytes);
    }
    let mut cursor = std::io::Cursor::new(&wire[..]);
    for p in &packets {
        let decoded: u64 = bincode::deserialize_from(&mut cursor).unwrap();
        assert_eq!(decoded, *p);
    }
    assert_eq!(cursor.position() as usize, wire.len());
}

#[test]
fn interleaved_polls_do_not_disturb_order() {
    // "no packet yet" answers between deliveries never reorder or drop what
    // arrives later.
    let (remote, _send_worker, recv_worker) = Remote::<u64>::new();
    assert_eq!(remote.try_recv(), None);
    recv_worker.deliver(10).unwrap();
    assert_eq!(remote.try_recv(), Some(10));
    assert_eq!(remote.try_recv(), None);
    recv_worker.deliver(11).unwrap();
    recv_worker.deliver(12).unwrap();
    assert_eq!(remote.try_recv(), Some(11));
    recv_worker.deliver(13).unwrap();
    assert_eq!(remote.try_recv(), Some(12));
    assert_eq!(remote.try_recv(), Some(13));
    assert_eq!(remote.try_recv(), None);
}
