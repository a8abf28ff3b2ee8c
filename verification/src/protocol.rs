//! The packets by which a game server is asked whether it takes players.
//!
//! A packet is sealed with AES-128 in Galois/Counter mode under a key that
//! every game server shares. The cipher is that of the `aes-gcm` crate and
//! the nonce comes from `rand`. Verus reads neither: the two names below
//! stand for what the cipher makes of its input, and the three functions
//! marked `external_body` make the calls. Framing the packets and reading
//! the answer is this library's own work.

use aes_gcm::{AeadInPlace, Aes128Gcm, KeyInit, Nonce, Tag};
use vstd::bytes::{spec_u64_from_le_bytes, spec_u64_to_le_bytes, u64_from_le_bytes, u64_to_le_bytes};
use vstd::prelude::*;

verus! {

/// The length of the nonce at the head of a packet.
pub const NONCE_BYTES: usize = 12;

/// The length of the tag behind the nonce.
pub const TAG_BYTES: usize = 16;

/// The least length of the body of an answer to a connect request.
pub const REPLY_BYTES: usize = 29;

/// The key that packets are sealed under.
pub open spec fn key() -> Seq<u8> {
    seq![
        0x58u8, 0x33, 0x56, 0x2e, 0x62, 0x58, 0x43, 0x66, 0x65, 0x33, 0x45, 0x68, 0x4e, 0x27, 0x77,
        0x62,
    ]
}

/// The data that is authenticated with every packet.
pub open spec fn associated_data() -> Seq<u8> {
    seq![
        0x01u8, 0x02, 0x03, 0x04, 0x05, 0x06, 0x07, 0x08, 0x09, 0x0a, 0x0b, 0x0c, 0x0d, 0x0e, 0x0f,
        0x10,
    ]
}

/// The word by which a connect request is known, with the zero that ends it.
pub open spec fn connect_word() -> Seq<u8> {
    seq![0x63u8, 0x6f, 0x6e, 0x6e, 0x65, 0x63, 0x74, 0x00]
}

/// What the cipher makes of a text: the tag and the sealed text. There is
/// none where the cipher refuses the text.
pub uninterp spec fn gcm_sealed(
    key: Seq<u8>,
    nonce: Seq<u8>,
    associated_data: Seq<u8>,
    text: Seq<u8>,
) -> Option<(Seq<u8>, Seq<u8>)>;

/// What the cipher makes of a sealed text: the text, where the tag is the
/// right one.
pub uninterp spec fn gcm_opened(
    key: Seq<u8>,
    nonce: Seq<u8>,
    associated_data: Seq<u8>,
    tag: Seq<u8>,
    sealed: Seq<u8>,
) -> Option<Seq<u8>>;

#[verifier::external_type_specification]
#[verifier::external_body]
pub struct ExCipherError(aes_gcm::Error);

/// Why a packet could not be sealed or opened.
#[derive(Debug, Clone, Copy, PartialEq, Eq, Structural)]
pub enum ProtocolError {
    /// The cipher refused: the text is too long for it, or the tag of a
    /// packet is not the right one.
    Encrypt,
}

/// `rand::random`: twelve bytes drawn at random. Nothing is known of them.
#[verifier::external_body]
fn random_nonce() -> (nonce: [u8; 12]) {
    rand::random()
}

/// `Aes128Gcm::encrypt_in_place_detached`: seals a text and gives the tag
/// and the sealed text, which is as long as the text.
#[verifier::external_body]
fn seal(key: &[u8; 16], nonce: &[u8; 12], associated_data: &[u8; 16], text: Vec<u8>) -> (sealed:
    Result<(Vec<u8>, Vec<u8>), aes_gcm::Error>)
    ensures
        match sealed {
            Ok((tag, sealed_text)) => {
                &&& gcm_sealed(key@, nonce@, associated_data@, text@) == Some((tag@, sealed_text@))
                &&& tag@.len() == TAG_BYTES
                &&& sealed_text@.len() == text@.len()
            },
            Err(_) => gcm_sealed(key@, nonce@, associated_data@, text@) is None,
        },
{
    let mut buffer = text;
    let cipher = Aes128Gcm::new_from_slice(key).unwrap();
    let tag =
        cipher.encrypt_in_place_detached(Nonce::from_slice(nonce), associated_data, &mut buffer)?;
    Ok((tag.to_vec(), buffer))
}

/// `Aes128Gcm::decrypt_in_place_detached`: checks the tag of a sealed text
/// and gives the text, which is as long as the sealed text.
#[verifier::external_body]
fn open(
    key: &[u8; 16],
    nonce: &Vec<u8>,
    associated_data: &[u8; 16],
    tag: &Vec<u8>,
    sealed: Vec<u8>,
) -> (opened: Result<Vec<u8>, aes_gcm::Error>)
    requires
        nonce@.len() == NONCE_BYTES,
        tag@.len() == TAG_BYTES,
    ensures
        match opened {
            Ok(text) => {
                &&& gcm_opened(key@, nonce@, associated_data@, tag@, sealed@) == Some(text@)
                &&& text@.len() == sealed@.len()
            },
            Err(_) => gcm_opened(key@, nonce@, associated_data@, tag@, sealed@) is None,
        },
{
    let mut buffer = sealed;
    let cipher = Aes128Gcm::new_from_slice(key).unwrap();
    cipher.decrypt_in_place_detached(
        Nonce::from_slice(nonce),
        associated_data,
        &mut buffer,
        Tag::from_slice(tag),
    )?;
    Ok(buffer)
}

fn key_bytes() -> (bytes: [u8; 16])
    ensures
        bytes@ == key(),
{
    let bytes: [u8; 16] = [
        0x58, 0x33, 0x56, 0x2e, 0x62, 0x58, 0x43, 0x66, 0x65, 0x33, 0x45, 0x68, 0x4e, 0x27, 0x77,
        0x62,
    ];
    assert(bytes@ =~= key());
    bytes
}

fn associated_bytes() -> (bytes: [u8; 16])
    ensures
        bytes@ == associated_data(),
{
    let bytes: [u8; 16] = [
        0x01, 0x02, 0x03, 0x04, 0x05, 0x06, 0x07, 0x08, 0x09, 0x0a, 0x0b, 0x0c, 0x0d, 0x0e, 0x0f,
        0x10,
    ];
    assert(bytes@ =~= associated_data());
    bytes
}

/// The bytes from `from` up to `to`.
fn copy_range(bytes: &[u8], from: usize, to: usize) -> (part: Vec<u8>)
    requires
        from <= to <= bytes@.len(),
    ensures
        part@ == bytes@.subrange(from as int, to as int),
{
    let mut part: Vec<u8> = Vec::new();
    let mut i: usize = from;
    while i < to
        invariant
            from <= i <= to <= bytes@.len(),
            part@ == bytes@.subrange(from as int, i as int),
        decreases to - i,
    {
        part.push(bytes[i]);
        assert(part@ =~= bytes@.subrange(from as int, i + 1));
        i = i + 1;
    }
    part
}

/// The body of a connect request for a user: four bytes of ones, the letter
/// `H` and the word `connect` with the zero that ends it, the user's number
/// with its lowest byte first, and a two.
pub open spec fn connect_request(user_id: u64) -> Seq<u8> {
    seq![0xffu8, 0xff, 0xff, 0xff, 0x48] + connect_word() + spec_u64_to_le_bytes(user_id) + seq![
        2u8,
    ]
}

/// A packet: the nonce, the tag, and the sealed text.
pub open spec fn framed(nonce: Seq<u8>, tag: Seq<u8>, sealed: Seq<u8>) -> Seq<u8> {
    nonce + tag + sealed
}

/// The packet that holds a text sealed under a nonce.
pub open spec fn sealed_packet(nonce: Seq<u8>, text: Seq<u8>) -> Option<Seq<u8>> {
    match gcm_sealed(key(), nonce, associated_data(), text) {
        Some((tag, sealed)) => Some(framed(nonce, tag, sealed)),
        None => None,
    }
}

/// The text that a packet holds: the packet begins with the nonce and the
/// tag, and the rest is the sealed text.
pub open spec fn opened_packet(packet: Seq<u8>) -> Option<Seq<u8>> {
    gcm_opened(
        key(),
        packet.subrange(0, NONCE_BYTES as int),
        associated_data(),
        packet.subrange(NONCE_BYTES as int, NONCE_BYTES + TAG_BYTES),
        packet.subrange(NONCE_BYTES + TAG_BYTES, packet.len() as int),
    )
}

/// Whether the body of a packet answers the connect request of a user: it
/// has 29 bytes or more; it begins with four bytes of ones and the letter
/// `I`; and the eight bytes from the 18th on are the user's number, lowest
/// byte first, and spell the word `connect` with the zero that ends it.
pub open spec fn answers_connect(body: Seq<u8>, user_id: u64) -> bool {
    &&& body.len() >= REPLY_BYTES
    &&& body.subrange(0, 4) == seq![0xffu8, 0xff, 0xff, 0xff]
    &&& body[4] == 0x49
    &&& spec_u64_from_le_bytes(body.subrange(17, 25)) == user_id
    &&& body.subrange(17, 25) == connect_word()
}

/// Writes the body of a connect request for a user.
pub fn connect_packet(user_id: u64) -> (body: Vec<u8>)
    ensures
        body@ == connect_request(user_id),
{
    let mut body: Vec<u8> = Vec::new();
    body.push(0xff);
    body.push(0xff);
    body.push(0xff);
    body.push(0xff);
    body.push(0x48);
    body.push(0x63);
    body.push(0x6f);
    body.push(0x6e);
    body.push(0x6e);
    body.push(0x65);
    body.push(0x63);
    body.push(0x74);
    body.push(0x00);
    let mut number = u64_to_le_bytes(user_id);
    body.append(&mut number);
    body.push(2);
    assert(body@ =~= connect_request(user_id));
    body
}

/// Puts a packet together.
pub fn frame_packet(nonce: &[u8; 12], tag: Vec<u8>, sealed: Vec<u8>) -> (packet: Vec<u8>)
    ensures
        packet@ == framed(nonce@, tag@, sealed@),
{
    let mut packet = copy_range(nonce.as_slice(), 0, 12);
    assert(nonce@.subrange(0, 12) =~= nonce@);
    let mut tag = tag;
    let mut sealed = sealed;
    packet.append(&mut tag);
    packet.append(&mut sealed);
    packet
}

/// Seals a text under the given nonce and frames it as a packet.
pub fn seal_packet(nonce: &[u8; 12], text: Vec<u8>) -> (packet: Result<Vec<u8>, ProtocolError>)
    ensures
        match packet {
            Ok(p) => sealed_packet(nonce@, text@) == Some(p@) && p@.len() == NONCE_BYTES
                + TAG_BYTES + text@.len(),
            Err(e) => sealed_packet(nonce@, text@) is None,
        },
{
    let key = key_bytes();
    let associated = associated_bytes();
    match seal(&key, nonce, &associated, text) {
        Ok((tag, sealed)) => Ok(frame_packet(nonce, tag, sealed)),
        Err(_) => Err(ProtocolError::Encrypt),
    }
}

/// Seals a text under a nonce drawn at random and frames it as a packet.
/// The nonce stands at the head of the packet.
pub fn encrypt_packet(text: Vec<u8>) -> (packet: Result<Vec<u8>, ProtocolError>)
    ensures
        match packet {
            Ok(p) => {
                &&& p@.len() == NONCE_BYTES + TAG_BYTES + text@.len()
                &&& sealed_packet(p@.subrange(0, NONCE_BYTES as int), text@) == Some(p@)
            },
            Err(e) => exists|nonce: Seq<u8>|
                nonce.len() == NONCE_BYTES && #[trigger] sealed_packet(nonce, text@) is None,
        },
{
    let nonce = random_nonce();
    let packet = seal_packet(&nonce, text);
    proof {
        if packet is Ok {
            let made = gcm_sealed(key(), nonce@, associated_data(), text@)->0;
            assert(packet->Ok_0@ == framed(nonce@, made.0, made.1));
            assert(packet->Ok_0@.subrange(0, NONCE_BYTES as int) =~= nonce@);
        } else {
            assert(sealed_packet(nonce@, text@) is None);
        }
    }
    packet
}

/// Opens a packet and gives the text that it holds. A packet holds at
/// least a nonce and a tag.
pub fn decrypt_packet(packet: &[u8]) -> (text: Result<Vec<u8>, ProtocolError>)
    requires
        packet@.len() >= NONCE_BYTES + TAG_BYTES,
    ensures
        match text {
            Ok(t) => opened_packet(packet@) == Some(t@) && t@.len() == packet@.len() - NONCE_BYTES
                - TAG_BYTES,
            Err(e) => opened_packet(packet@) is None,
        },
{
    let nonce = copy_range(packet, 0, NONCE_BYTES);
    let tag = copy_range(packet, NONCE_BYTES, NONCE_BYTES + TAG_BYTES);
    let sealed = copy_range(packet, NONCE_BYTES + TAG_BYTES, packet.len());
    let key = key_bytes();
    let associated = associated_bytes();
    match open(&key, &nonce, &associated, &tag, sealed) {
        Ok(text) => Ok(text),
        Err(_) => Err(ProtocolError::Encrypt),
    }
}

/// Whether the body of a packet answers the connect request of a user.
pub fn is_connect_reply(body: &[u8], user_id: u64) -> (answers: bool)
    ensures
        answers == answers_connect(body@, user_id),
{
    if body.len() < REPLY_BYTES {
        return false;
    }
    if body[0] != 0xff || body[1] != 0xff || body[2] != 0xff || body[3] != 0xff {
        assert(body@.subrange(0, 4)[0] == body@[0]);
        assert(body@.subrange(0, 4)[1] == body@[1]);
        assert(body@.subrange(0, 4)[2] == body@[2]);
        assert(body@.subrange(0, 4)[3] == body@[3]);
        return false;
    }
    assert(body@.subrange(0, 4) =~= seq![0xffu8, 0xff, 0xff, 0xff]);
    if body[4] != 0x49 {
        return false;
    }
    let number = copy_range(body, 17, 25);
    if u64_from_le_bytes(number.as_slice()) != user_id {
        return false;
    }
    let word = number;
    let same = word[0] == 0x63 && word[1] == 0x6f && word[2] == 0x6e && word[3] == 0x6e && word[4]
        == 0x65 && word[5] == 0x63 && word[6] == 0x74 && word[7] == 0x00;
    if same {
        assert(word@ =~= connect_word());
    }
    same
}

} // verus!
