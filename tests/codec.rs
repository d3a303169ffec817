use papercups::generate_id;
use papercups::protocol::{File, Handshake, Message, ProtocolError, ProtocolMessage, Serializable};

fn frame(tag: &[u8], payload: &[u8]) -> Vec<u8> {
    let mut v = tag.to_vec();
    v.extend_from_slice(&(payload.len() as u32).to_be_bytes());
    v.extend_from_slice(payload);
    v
}

#[test]
fn handshake_encodes_magic_and_big_endian_id() {
    let bytes = Handshake::new(0x0102_0304).to_bytes();
    assert_eq!(bytes, b"Hello\x01\x02\x03\x04".to_vec());
}

#[test]
fn handshake_decodes_id() {
    let h = Handshake::from_bytes(b"Hello\xde\xad\xbe\xef".to_vec()).unwrap();
    assert_eq!(h.id(), 0xdead_beef);
    assert_eq!(h, Handshake::new(0xdead_beef));
}

#[test]
fn handshake_round_trip() {
    for id in [1u32, 42, 0x8000_0000, u32::MAX] {
        let h = Handshake::from_bytes(Handshake::new(id).to_bytes()).unwrap();
        assert_eq!(h.id(), id);
    }
}

#[test]
fn handshake_of_wrong_length_is_malformed() {
    assert_eq!(Handshake::from_bytes(b"Hello\x01\x02\x03".to_vec()), Err(ProtocolError::MalformedHandshake));
    assert_eq!(Handshake::from_bytes(b"Hello\x01\x02\x03\x04\x05".to_vec()), Err(ProtocolError::MalformedHandshake));
    assert_eq!(Handshake::from_bytes(Vec::new()), Err(ProtocolError::MalformedHandshake));
}

#[test]
fn chat_encodes_tag_length_and_text() {
    let bytes = Message::new("hi".to_string()).to_bytes();
    assert_eq!(bytes, b"chat\x00\x00\x00\x02hi".to_vec());
}

#[test]
fn chat_length_counts_utf8_bytes() {
    let bytes = Message::new("é✓".to_string()).to_bytes();
    assert_eq!(&bytes[4..8], &[0, 0, 0, 5]);
    assert_eq!(&bytes[8..], "é✓".as_bytes());
}

#[test]
fn chat_round_trip() {
    for text in ["", "hi", "hello, world", "héllo ✓ 日本語", "line\nbreak\0nul"] {
        let m = Message::from_bytes(Message::new(text.to_string()).to_bytes()).unwrap();
        assert_eq!(m.message(), text);
        match ProtocolMessage::from_bytes(Message::new(text.to_string()).to_bytes()).unwrap() {
            ProtocolMessage::Message(m) => assert_eq!(m.message(), text),
            other => panic!("expected a chat message, got {:?}", other),
        }
    }
}

#[test]
fn chat_with_invalid_utf8_fails() {
    let data = frame(b"chat", &[0xff, 0xfe]);
    assert!(matches!(Message::from_bytes(data.clone()), Err(ProtocolError::InvalidUtf8)));
    assert!(matches!(ProtocolMessage::from_bytes(data), Err(ProtocolError::InvalidUtf8)));
}

#[test]
fn file_encodes_padded_name_then_bytes() {
    let bytes = File::new("a.txt".to_string(), vec![1, 2, 3]).to_bytes();
    assert_eq!(bytes.len(), 8 + 96 + 3);
    assert_eq!(&bytes[0..4], b"file");
    assert_eq!(&bytes[4..8], &[0, 0, 0, 99]);
    assert!(bytes[8..99].iter().all(|b| *b == 0));
    assert_eq!(&bytes[99..104], b"a.txt");
    assert_eq!(&bytes[104..], &[1, 2, 3]);
}

#[test]
fn file_round_trip() {
    let long_name = "n".repeat(96);
    let cases: Vec<(String, Vec<u8>)> = vec![
        ("a.txt".to_string(), vec![1, 2, 3]),
        ("".to_string(), vec![]),
        (long_name, vec![0, 0, 7]),
        ("résumé.pdf".to_string(), (0..=255u8).collect()),
    ];
    for (name, data) in cases {
        let f = File::from_bytes(File::new(name.clone(), data.clone()).to_bytes()).unwrap();
        assert_eq!(f.name(), &name);
        assert_eq!(f.data(), &data);
        match ProtocolMessage::from_bytes(File::new(name.clone(), data.clone()).to_bytes()).unwrap() {
            ProtocolMessage::File(f) => {
                assert_eq!(f.name(), &name);
                assert_eq!(f.data(), &data);
            }
            other => panic!("expected a file, got {:?}", other),
        }
    }
}

#[test]
fn file_shorter_than_name_field_fails() {
    let data = frame(b"file", &[b'x'; 50]);
    assert!(matches!(File::from_bytes(data.clone()), Err(ProtocolError::ShortBuffer)));
    assert!(matches!(ProtocolMessage::from_bytes(data), Err(ProtocolError::ShortBuffer)));
}

#[test]
fn file_with_invalid_utf8_name_fails() {
    let mut payload = vec![0u8; 94];
    payload.extend_from_slice(&[0xc3, 0x28]);
    payload.extend_from_slice(b"data");
    let data = frame(b"file", &payload);
    assert!(matches!(File::from_bytes(data), Err(ProtocolError::InvalidUtf8)));
}

#[test]
fn declared_length_mismatch_is_rejected_before_dispatch() {
    let mut longer = b"chat\x00\x00\x00\x05abc".to_vec();
    assert!(matches!(ProtocolMessage::from_bytes(longer.clone()), Err(ProtocolError::ShortBuffer)));
    longer[7] = 1;
    assert!(matches!(ProtocolMessage::from_bytes(longer), Err(ProtocolError::ShortBuffer)));
    let mut file = File::new("f".to_string(), vec![9; 10]).to_bytes();
    file.pop();
    assert!(matches!(ProtocolMessage::from_bytes(file), Err(ProtocolError::ShortBuffer)));
    let unknown = b"xxxx\x00\x00\x00\x09abc".to_vec();
    assert!(matches!(ProtocolMessage::from_bytes(unknown), Err(ProtocolError::ShortBuffer)));
}

#[test]
fn frame_shorter_than_header_is_short() {
    assert!(matches!(ProtocolMessage::from_bytes(b"chat".to_vec()), Err(ProtocolError::ShortBuffer)));
    assert!(matches!(ProtocolMessage::from_bytes(Vec::new()), Err(ProtocolError::ShortBuffer)));
    assert!(matches!(Message::from_bytes(b"cha".to_vec()), Err(ProtocolError::ShortBuffer)));
}

#[test]
fn unknown_tag_is_rejected_by_the_dispatcher() {
    let data = frame(b"ping", b"");
    assert!(matches!(ProtocolMessage::from_bytes(data), Err(ProtocolError::UnknownFrameType)));
}

#[test]
fn chat_decoder_reads_the_text_after_the_header() {
    let m = Message::from_bytes(b"ping\x00\x00\x00\x09abc".to_vec()).unwrap();
    assert_eq!(m.message(), "abc");
}

#[test]
fn file_decoder_short_of_the_name_field_is_short_whatever_the_tag() {
    assert!(matches!(File::from_bytes(frame(b"chat", b"")), Err(ProtocolError::ShortBuffer)));
    assert!(matches!(File::from_bytes(frame(b"file", &[0u8; 95])), Err(ProtocolError::ShortBuffer)));
}

#[test]
fn file_decoder_bad_name_is_invalid_utf8_whatever_the_tag() {
    let data = frame(b"chat", &[0xffu8; 96]);
    assert_eq!(data.len(), 104);
    assert!(matches!(File::from_bytes(data), Err(ProtocolError::InvalidUtf8)));
}

#[test]
fn file_decoder_with_empty_body() {
    let mut payload = vec![0u8; 95];
    payload.push(b'z');
    let f = File::from_bytes(frame(b"file", &payload)).unwrap();
    assert_eq!(f.name(), "z");
    assert!(f.data().is_empty());
}

#[test]
fn protocol_message_encodes_as_its_payload() {
    let chat = ProtocolMessage::Message(Message::new("yo".to_string()));
    assert_eq!(chat.to_bytes(), Message::new("yo".to_string()).to_bytes());
    let file = ProtocolMessage::File(File::new("x".to_string(), vec![5]));
    assert_eq!(file.to_bytes(), File::new("x".to_string(), vec![5]).to_bytes());
}

#[test]
fn generated_ids_are_never_zero() {
    for _ in 0..10_000 {
        assert_ne!(generate_id(), 0);
    }
}

#[test]
fn generated_ids_vary() {
    let first = generate_id();
    assert!((0..100).any(|_| generate_id() != first));
}
