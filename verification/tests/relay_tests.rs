use quic_tun::relay::{CopyAction, CopyEvent, Copier, Direction, Flow};

fn forward_bytes(action: CopyAction) -> Vec<u8> {
    match action {
        CopyAction::Forward(bytes) => bytes,
        _ => panic!("expected a forward action"),
    }
}

fn finish_cleanly(copier: &mut Copier) {
    let action = copier.on_event(CopyEvent::Eof);
    assert!(matches!(action, CopyAction::FinishOutput));
    copier.on_close_outcome(None);
}

#[test]
fn copier_forwards_exact_bytes() {
    let mut copier = Copier::new();
    let action = copier.on_event(CopyEvent::Data(vec![7u8, 9, 200]));
    assert_eq!(forward_bytes(action), vec![7u8, 9, 200]);
    assert!(!copier.is_done());
}

#[test]
fn copier_finishes_only_after_successful_close() {
    let mut copier = Copier::new();
    let action = copier.on_event(CopyEvent::Eof);
    assert!(matches!(action, CopyAction::FinishOutput));
    assert!(copier.is_closing());
    assert!(!copier.is_finished());
    assert!(!copier.is_done());
    copier.on_close_outcome(None);
    assert!(copier.is_finished());
    assert!(!copier.is_failed());
    assert!(copier.is_done());
}

#[test]
fn copier_fails_when_the_close_fails() {
    let mut copier = Copier::new();
    copier.on_event(CopyEvent::Eof);
    copier.on_close_outcome(Some("finish refused".to_string()));
    assert!(copier.is_failed());
    assert!(!copier.is_finished());
}

#[test]
fn copier_aborts_on_failure() {
    let mut copier = Copier::new();
    let action = copier.on_event(CopyEvent::Failed("connection reset".to_string()));
    assert!(matches!(action, CopyAction::Abort));
    assert!(copier.is_failed());
    assert!(!copier.is_finished());
    assert!(copier.is_done());
}

#[test]
fn round_trip_preserves_bytes_and_order() {
    let chunks: Vec<Vec<u8>> = vec![b"hel".to_vec(), b"".to_vec(), b"lo, ".to_vec(), b"tunnel".to_vec()];
    let mut copier = Copier::new();
    let mut delivered: Vec<u8> = Vec::new();
    for chunk in &chunks {
        let action = copier.on_event(CopyEvent::Data(chunk.clone()));
        delivered.extend_from_slice(&forward_bytes(action));
    }
    let mut expected: Vec<u8> = Vec::new();
    for chunk in &chunks {
        expected.extend_from_slice(chunk);
    }
    assert_eq!(delivered, expected);
    assert_eq!(delivered, b"hello, tunnel".to_vec());
}

#[test]
fn round_trip_survives_rechunking() {
    let mut first = Copier::new();
    let mut relayed: Vec<u8> = Vec::new();
    relayed.extend_from_slice(&forward_bytes(first.on_event(CopyEvent::Data(b"ab".to_vec()))));
    relayed.extend_from_slice(&forward_bytes(first.on_event(CopyEvent::Data(b"cde".to_vec()))));

    // The transport may hand the same bytes to the far relay in other chunks.
    let mut second = Copier::new();
    let mut delivered: Vec<u8> = Vec::new();
    delivered.extend_from_slice(&forward_bytes(second.on_event(CopyEvent::Data(relayed[..4].to_vec()))));
    delivered.extend_from_slice(&forward_bytes(second.on_event(CopyEvent::Data(relayed[4..].to_vec()))));
    assert_eq!(delivered, b"abcde".to_vec());
}

#[test]
fn half_close_after_payload() {
    let mut copier = Copier::new();
    let mut delivered: Vec<u8> = Vec::new();
    delivered.extend_from_slice(&forward_bytes(copier.on_event(CopyEvent::Data(vec![1u8, 2, 3]))));
    finish_cleanly(&mut copier);
    assert_eq!(delivered, vec![1u8, 2, 3]);
    assert!(copier.is_finished());
}

#[test]
fn empty_payload_half_close() {
    let mut copier = Copier::new();
    finish_cleanly(&mut copier);
    assert!(copier.is_finished());
}

#[test]
fn flow_settles_only_when_both_directions_finish() {
    let mut flow = Flow::new();
    assert!(!flow.is_settled());
    finish_cleanly(&mut flow.tcp_to_quic);
    assert!(!flow.is_settled());
    finish_cleanly(&mut flow.quic_to_tcp);
    assert!(flow.is_settled());
    assert!(flow.outcome().is_ok());
}

#[test]
fn flow_settles_at_once_on_failure() {
    let mut flow = Flow::new();
    flow.quic_to_tcp.on_event(CopyEvent::Failed("broken pipe".to_string()));
    assert!(flow.is_settled());
    let err = flow.outcome().unwrap_err();
    assert!(matches!(err.failed_direction, Direction::QuicToTcp));
    assert_eq!(err.cause, "broken pipe");
}

#[test]
fn flow_error_names_tcp_to_quic_direction() {
    let mut flow = Flow::new();
    flow.tcp_to_quic.on_event(CopyEvent::Data(vec![5u8]));
    flow.tcp_to_quic.on_event(CopyEvent::Failed("read error".to_string()));
    assert!(flow.is_settled());
    let err = flow.outcome().unwrap_err();
    assert!(matches!(err.failed_direction, Direction::TcpToQuic));
    assert_eq!(err.cause, "read error");
}

#[test]
fn failed_close_counts_in_the_outcome() {
    let mut flow = Flow::new();
    finish_cleanly(&mut flow.tcp_to_quic);
    flow.quic_to_tcp.on_event(CopyEvent::Eof);
    flow.quic_to_tcp.on_close_outcome(Some("shutdown failed".to_string()));
    assert!(flow.is_settled());
    let err = flow.outcome().unwrap_err();
    assert!(matches!(err.failed_direction, Direction::QuicToTcp));
    assert_eq!(err.cause, "shutdown failed");
}
