use std::sync::Mutex;
use versa_relay::{
    CloseReason, Connection, Direction, Endpoint, ForwardAction, Forwarder, IgnorePoisoned,
    CHUNK_SIZE,
};

/// Runs a forwarder over `input`, read in chunks of `read_size`, against a
/// receiver that takes at most `write_size` bytes per write.
fn relay(input: &[u8], read_size: usize, write_size: usize) -> (Vec<u8>, CloseReason) {
    let mut f = Forwarder::new();
    let mut pos = 0usize;
    let mut out = Vec::new();
    loop {
        match f.next_action(true) {
            ForwardAction::Read => {
                let end = (pos + read_size).min(input.len());
                f.record_read(&input[pos..end]);
                pos = end;
            }
            ForwardAction::Write => {
                let pending = f.pending();
                let n = pending.len().min(write_size);
                out.extend_from_slice(&pending[..n]);
                f.record_write(n);
            }
            ForwardAction::Stop(reason) => return (out, reason),
        }
    }
}

#[test]
fn chunk_size_matches_a_network_frame() {
    assert_eq!(CHUNK_SIZE, 1500);
}

#[test]
fn bytes_pass_through_unchanged_and_in_order() {
    let input: Vec<u8> = (0..5000u32).map(|i| (i * 7 % 251) as u8).collect();
    let (out, reason) = relay(&input, CHUNK_SIZE, 700);
    assert_eq!(out, input);
    assert_eq!(reason, CloseReason::SenderClosed);
}

#[test]
fn short_writes_are_resumed() {
    let (out, reason) = relay(b"ping", 4, 1);
    assert_eq!(out, b"ping".to_vec());
    assert_eq!(reason, CloseReason::SenderClosed);
}

#[test]
fn empty_stream_stops_at_once() {
    let (out, reason) = relay(b"", CHUNK_SIZE, CHUNK_SIZE);
    assert!(out.is_empty());
    assert_eq!(reason, CloseReason::SenderClosed);
}

#[test]
fn new_forwarder_reads_first() {
    let mut f = Forwarder::new();
    assert!(f.pending().is_empty());
    assert_eq!(f.stop_reason(), None);
    assert_eq!(f.next_action(true), ForwardAction::Read);
}

#[test]
fn read_bytes_become_pending() {
    let mut f = Forwarder::new();
    f.record_read(b"abc");
    assert_eq!(f.pending(), b"abc");
    assert_eq!(f.next_action(true), ForwardAction::Write);
    f.record_write(2);
    assert_eq!(f.pending(), b"c");
    f.record_write(1);
    assert!(f.pending().is_empty());
    assert_eq!(f.next_action(true), ForwardAction::Read);
}

#[test]
fn refused_write_stops() {
    let mut f = Forwarder::new();
    f.record_read(b"abc");
    f.record_write(0);
    assert_eq!(f.stop_reason(), Some(CloseReason::ReceiverRefused));
    assert_eq!(f.next_action(true), ForwardAction::Stop(CloseReason::ReceiverRefused));
}

#[test]
fn read_error_stops() {
    let mut f = Forwarder::new();
    f.record_read_error();
    assert_eq!(f.next_action(true), ForwardAction::Stop(CloseReason::ReadFailed));
}

#[test]
fn write_error_stops() {
    let mut f = Forwarder::new();
    f.record_read(b"x");
    f.record_write_error();
    assert_eq!(f.next_action(true), ForwardAction::Stop(CloseReason::WriteFailed));
}

#[test]
fn cleared_flag_cancels() {
    let mut f = Forwarder::new();
    f.record_read(b"x");
    assert_eq!(f.next_action(false), ForwardAction::Stop(CloseReason::Cancelled));
    assert_eq!(f.stop_reason(), Some(CloseReason::Cancelled));
    assert_eq!(f.next_action(true), ForwardAction::Stop(CloseReason::Cancelled));
}

#[test]
fn directions_pair_up_sockets() {
    assert_eq!(Direction::NearToFar.sender(), Endpoint::Near);
    assert_eq!(Direction::NearToFar.receiver(), Endpoint::Far);
    assert_eq!(Direction::FarToNear.sender(), Endpoint::Far);
    assert_eq!(Direction::FarToNear.receiver(), Endpoint::Near);
    assert_eq!(Direction::NearToFar.reverse(), Direction::FarToNear);
    assert_eq!(Direction::FarToNear.reverse(), Direction::NearToFar);
}

#[test]
fn first_stop_tears_down_the_other_direction() {
    let mut c = Connection::new();
    assert!(c.is_connected());
    assert!(c.is_open(Endpoint::Near) && c.is_open(Endpoint::Far));
    // The client closed: the near-to-far loop stops and shuts the backend.
    assert!(c.finish(Direction::NearToFar));
    assert!(!c.is_connected());
    assert!(!c.is_open(Endpoint::Far));
    assert!(c.is_open(Endpoint::Near));
    // The far-to-near loop reads from the backend, which is now shut, and
    // finds the flag cleared.
    assert!(!c.is_open(Direction::FarToNear.sender()));
    let mut other = Forwarder::new();
    assert_eq!(
        other.next_action(c.is_connected()),
        ForwardAction::Stop(CloseReason::Cancelled)
    );
    assert!(c.finish(Direction::FarToNear));
    assert!(!c.is_open(Endpoint::Near));
}

#[test]
fn second_shutdown_of_a_socket_is_reported() {
    let mut c = Connection::new();
    assert!(c.finish(Direction::FarToNear));
    assert!(!c.finish(Direction::FarToNear));
    assert!(!c.is_open(Endpoint::Near));
}

#[test]
fn unpoisoned_lock_gives_its_value() {
    let m = Mutex::new(41u32);
    *m.lock().ignore_poisoned() += 1;
    assert_eq!(*m.lock().ignore_poisoned(), 42);
}
