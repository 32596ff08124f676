use franka_rs::network::channel::{CommandChannel, MAX_READ_CHUNK};
use franka_rs::network::framing::TcpFraming;
use franka_rs::wire::robot::CommandHeader;

#[test]
fn framing_basic_message() {
    let mut framing = TcpFraming::new();
    assert!(!framing.has_pending_header());

    // Create a header: command=1, command_id=42, size=20 (12 header + 8 payload)
    let header = CommandHeader {
        command: 1,
        command_id: 42,
        size: 20,
    };
    let header_bytes = header.to_bytes();

    framing.set_header(&header_bytes).unwrap();
    assert!(framing.has_pending_header());
    assert!(!framing.is_complete());
    assert_eq!(framing.remaining_bytes(), 8);

    // Push 4 bytes
    framing.push_bytes(&[0xAA; 4]);
    assert_eq!(framing.remaining_bytes(), 4);
    assert!(!framing.is_complete());

    // Push remaining 4 bytes
    framing.push_bytes(&[0xBB; 4]);
    assert_eq!(framing.remaining_bytes(), 0);
    assert!(framing.is_complete());

    let (cmd_id, msg) = framing.take_message();
    assert_eq!(cmd_id, 42);
    assert_eq!(msg.len(), 20);
    assert!(!framing.has_pending_header());
}

#[test]
fn framing_header_only_message() {
    let mut framing = TcpFraming::new();

    // A message with size == header size (no payload)
    let header = CommandHeader {
        command: 0,
        command_id: 7,
        size: 12,
    };
    let header_bytes = header.to_bytes();

    framing.set_header(&header_bytes).unwrap();
    assert!(framing.is_complete());

    let (cmd_id, msg) = framing.take_message();
    assert_eq!(cmd_id, 7);
    assert_eq!(msg.len(), 12);
}

#[test]
fn framing_rejects_too_small_size() {
    let mut framing = TcpFraming::new();

    let header = CommandHeader {
        command: 0,
        command_id: 0,
        size: 4, // Less than header size (12)
    };
    let header_bytes = header.to_bytes();

    let result = framing.set_header(&header_bytes);
    assert!(result.is_err());
}

#[test]
fn framing_error_text_and_state_kept() {
    let mut framing = TcpFraming::new();
    let header = CommandHeader { command: 0, command_id: 3, size: 11 };
    let err = framing.set_header(&header.to_bytes()).unwrap_err();
    assert_eq!(
        err.to_string(),
        "protocol error: TCP message size (11) is smaller than header (12)"
    );
    assert!(!framing.has_pending_header());
    assert_eq!(framing.remaining_bytes(), 0);
    // Bytes without a header are dropped.
    framing.push_bytes(&[1, 2, 3]);
    assert!(!framing.has_pending_header());
}

#[test]
fn framing_keeps_bytes_beyond_size_and_reports_zero_remaining() {
    let mut framing = TcpFraming::new();
    let header = CommandHeader { command: 9, command_id: 5, size: 14 };
    framing.set_header(&header.to_bytes()).unwrap();
    framing.push_bytes(&[1, 2, 3, 4]);
    assert!(framing.is_complete());
    assert_eq!(framing.remaining_bytes(), 0);
    let (id, msg) = framing.take_message();
    assert_eq!(id, 5);
    assert_eq!(msg.len(), 16);
    assert_eq!(&msg[12..], &[1, 2, 3, 4]);
}

#[test]
fn channel_assigns_sequential_ids_and_frames_requests() {
    let mut channel = CommandChannel::new();
    let (id0, bytes0) = channel.prepare_request(4, &[9, 8, 7]);
    let (id1, bytes1) = channel.prepare_request(2, &[]);
    assert_eq!(id0, 0);
    assert_eq!(id1, 1);
    assert_eq!(bytes0.len(), 15);
    assert_eq!(&bytes0[0..4], &4u32.to_le_bytes());
    assert_eq!(&bytes0[4..8], &0u32.to_le_bytes());
    assert_eq!(&bytes0[8..12], &15u32.to_le_bytes());
    assert_eq!(&bytes0[12..], &[9, 8, 7]);
    assert_eq!(bytes1.len(), 12);
    assert_eq!(&bytes1[4..8], &1u32.to_le_bytes());
    assert_eq!(&bytes1[8..12], &12u32.to_le_bytes());
}

#[test]
fn channel_reassembles_and_hands_out_response_once() {
    // The sender side prepares a request; the receiving side frames it back.
    let mut sender = CommandChannel::new();
    let (id, bytes) = sender.prepare_request(11, &[0xde, 0xad, 0xbe, 0xef, 0x01]);

    let mut receiver = CommandChannel::new();
    let mut header = [0u8; 12];
    header.copy_from_slice(&bytes[..12]);
    receiver.receive_header(&header).unwrap();
    assert!(receiver.has_pending_header());
    assert_eq!(receiver.read_chunk_size(), 5);
    receiver.receive_bytes(&bytes[12..14]);
    assert!(!receiver.is_message_complete());
    assert_eq!(receiver.read_chunk_size(), 3);
    receiver.receive_bytes(&bytes[14..]);
    assert!(receiver.is_message_complete());
    receiver.store_message();
    assert!(!receiver.has_pending_header());

    assert!(receiver.take_response(id + 1).is_none());
    assert_eq!(receiver.take_response(id), Some(bytes.clone()));
    assert!(receiver.take_response(id).is_none());
}

#[test]
fn channel_read_chunk_is_capped() {
    let mut channel = CommandChannel::new();
    let header = CommandHeader { command: 0, command_id: 1, size: 12 + 10_000 };
    channel.receive_header(&header.to_bytes()).unwrap();
    assert_eq!(channel.read_chunk_size(), MAX_READ_CHUNK);
    assert_eq!(MAX_READ_CHUNK, 4096);
}

#[test]
fn framing_header_then_several_pieces() {
    let mut framing = TcpFraming::new();
    let header = CommandHeader { command: 3, command_id: 11, size: 20 };
    let hb = header.to_bytes();
    framing.set_header(&hb).unwrap();
    assert_eq!(framing.remaining_bytes(), 8);
    framing.push_bytes(&[1, 2, 3]);
    framing.push_bytes(&[]);
    framing.push_bytes(&[4, 5]);
    assert!(framing.has_pending_header());
    assert_eq!(framing.remaining_bytes(), 3);
    assert!(!framing.is_complete());
    framing.push_bytes(&[6, 7, 8, 9]);
    assert_eq!(framing.remaining_bytes(), 0);
    assert!(framing.is_complete());
    let (id, msg) = framing.take_message();
    assert_eq!(id, 11);
    let mut expected = hb.to_vec();
    expected.extend_from_slice(&[1, 2, 3, 4, 5, 6, 7, 8, 9]);
    assert_eq!(msg, expected);
    assert!(!framing.has_pending_header());
    assert_eq!(framing.remaining_bytes(), 0);
    assert!(!framing.is_complete());
}

#[test]
fn framing_refused_header_keeps_pending_message() {
    let mut framing = TcpFraming::new();
    framing.set_header(&CommandHeader { command: 1, command_id: 2, size: 13 }.to_bytes()).unwrap();
    assert!(framing.set_header(&CommandHeader { command: 1, command_id: 3, size: 4 }.to_bytes()).is_err());
    assert!(framing.has_pending_header());
    assert_eq!(framing.remaining_bytes(), 1);
    framing.push_bytes(&[9]);
    let (id, msg) = framing.take_message();
    assert_eq!(id, 2);
    assert_eq!(msg.len(), 13);
}
