use aes_gcm::{AeadInPlace, Aes128Gcm, KeyInit, Nonce};
use r2wraith::protocol::{
    connect_packet, decrypt_packet, encrypt_packet, frame_packet, is_connect_reply, seal_packet,
    ProtocolError, NONCE_BYTES, REPLY_BYTES, TAG_BYTES,
};

const KEY: &[u8] = b"X3V.bXCfe3EhN'wb";
const ASSOCIATED_DATA: &[u8] =
    &[0x01, 0x02, 0x03, 0x04, 0x05, 0x06, 0x07, 0x08, 0x09, 0x0a, 0x0b, 0x0c, 0x0d, 0x0e, 0x0f, 0x10];

fn reply_for(user_id_bytes: [u8; 8]) -> Vec<u8> {
    let mut body = vec![0xff, 0xff, 0xff, 0xff, 0x49];
    body.extend_from_slice(&[0; 12]);
    body.extend_from_slice(&user_id_bytes);
    body.extend_from_slice(&[0; 4]);
    body
}

#[test]
fn the_lengths_of_a_packet() {
    assert_eq!(NONCE_BYTES, 12);
    assert_eq!(TAG_BYTES, 16);
    assert_eq!(REPLY_BYTES, 29);
}

#[test]
fn a_connect_request_holds_the_number_of_the_user() {
    assert_eq!(
        connect_packet(0x0102030405060708),
        vec![
            0xff, 0xff, 0xff, 0xff, b'H', b'c', b'o', b'n', b'n', b'e', b'c', b't', 0, 0x08, 0x07,
            0x06, 0x05, 0x04, 0x03, 0x02, 0x01, 2
        ]
    );
    assert_eq!(connect_packet(0)[13..21], [0; 8]);
    assert_eq!(connect_packet(u64::MAX)[13..21], [0xff; 8]);
    assert_eq!(connect_packet(1).len(), 22);
}

#[test]
fn a_packet_is_the_nonce_the_tag_and_the_sealed_text() {
    let nonce = [7u8; 12];
    let packet = frame_packet(&nonce, vec![1; 16], vec![2, 3, 4]);
    assert_eq!(packet.len(), 31);
    assert_eq!(packet[..12], [7u8; 12]);
    assert_eq!(packet[12..28], [1u8; 16]);
    assert_eq!(packet[28..], [2, 3, 4]);
}

#[test]
fn sealing_is_what_the_cipher_does() {
    let nonce = [3u8; 12];
    let text = b"The quick brown fox".to_vec();
    let packet = seal_packet(&nonce, text.clone()).unwrap();

    let cipher = Aes128Gcm::new_from_slice(KEY).unwrap();
    let mut expected = text.clone();
    let tag = cipher
        .encrypt_in_place_detached(Nonce::from_slice(&nonce), ASSOCIATED_DATA, &mut expected)
        .unwrap();
    assert_eq!(packet[..12], nonce);
    assert_eq!(packet[12..28], tag[..]);
    assert_eq!(packet[28..], expected[..]);
    // the text is sealed, not handed back as it came
    assert_ne!(packet[28..], text[..]);
}

#[test]
fn a_sealed_packet_can_be_opened_again() {
    let text = connect_packet(42);
    let packet = seal_packet(&[9u8; 12], text.clone()).unwrap();
    assert_eq!(decrypt_packet(&packet), Ok(text));
}

#[test]
fn a_packet_with_a_random_nonce_can_be_opened_again() {
    let text = b"hello".to_vec();
    let packet = encrypt_packet(text.clone()).unwrap();
    assert_eq!(packet.len(), 12 + 16 + text.len());
    assert_eq!(decrypt_packet(&packet), Ok(text.clone()));
    let again = encrypt_packet(text).unwrap();
    assert_ne!(packet[..12], again[..12]);
}

#[test]
fn an_empty_text_can_be_sealed() {
    let packet = encrypt_packet(Vec::new()).unwrap();
    assert_eq!(packet.len(), 28);
    assert_eq!(decrypt_packet(&packet), Ok(Vec::new()));
}

#[test]
fn a_packet_that_was_tampered_with_is_not_opened() {
    let mut packet = seal_packet(&[9u8; 12], b"hello".to_vec()).unwrap();
    let last = packet.len() - 1;
    packet[last] ^= 1;
    assert_eq!(decrypt_packet(&packet), Err(ProtocolError::Encrypt));

    let mut packet = seal_packet(&[9u8; 12], b"hello".to_vec()).unwrap();
    packet[12] ^= 1;
    assert_eq!(decrypt_packet(&packet), Err(ProtocolError::Encrypt));

    let mut packet = seal_packet(&[9u8; 12], b"hello".to_vec()).unwrap();
    packet[0] ^= 1;
    assert_eq!(decrypt_packet(&packet), Err(ProtocolError::Encrypt));
}

#[test]
fn a_packet_of_zeros_is_not_opened() {
    assert_eq!(decrypt_packet(&[0u8; 28]), Err(ProtocolError::Encrypt));
    assert_eq!(decrypt_packet(&[0u8; 64]), Err(ProtocolError::Encrypt));
}

#[test]
fn an_answer_must_spell_connect_where_the_number_stands() {
    let word = *b"connect\0";
    let user_id = u64::from_le_bytes(word);
    let body = reply_for(word);
    assert_eq!(body.len(), 29);
    assert!(is_connect_reply(&body, user_id));
    assert!(!is_connect_reply(&body, user_id + 1));
    assert!(!is_connect_reply(&body, 0));
}

#[test]
fn an_answer_for_another_number_is_not_taken() {
    let user_id: u64 = 76561198000000000;
    let body = reply_for(user_id.to_le_bytes());
    assert!(!is_connect_reply(&body, user_id));
}

#[test]
fn an_answer_that_is_too_short_is_not_taken() {
    let word = *b"connect\0";
    let user_id = u64::from_le_bytes(word);
    let mut body = reply_for(word);
    body.pop();
    assert_eq!(body.len(), 28);
    assert!(!is_connect_reply(&body, user_id));
    assert!(!is_connect_reply(&[], user_id));
}

#[test]
fn an_answer_may_be_longer() {
    let word = *b"connect\0";
    let mut body = reply_for(word);
    body.extend_from_slice(&[1, 2, 3]);
    assert!(is_connect_reply(&body, u64::from_le_bytes(word)));
}

#[test]
fn an_answer_must_begin_as_answers_do() {
    let word = *b"connect\0";
    let user_id = u64::from_le_bytes(word);
    for at in 0..4 {
        let mut body = reply_for(word);
        body[at] = 0xfe;
        assert!(!is_connect_reply(&body, user_id));
    }
    let mut body = reply_for(word);
    body[4] = b'H';
    assert!(!is_connect_reply(&body, user_id));
    // the bytes between the letter and the number do not count
    let mut body = reply_for(word);
    body[5] = 9;
    body[16] = 9;
    body[25] = 9;
    assert!(is_connect_reply(&body, user_id));
}
