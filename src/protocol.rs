//! The wire codec: handshakes and the two kinds of frames, to and from bytes.

use vstd::prelude::*;
use vstd::utf8::{decode_utf8, encode_utf8, valid_utf8};

verus! {

/// Length of the frame header: a 4-byte tag and a 4-byte big-endian length.
pub const HEADER_LEN: usize = 8;

/// Length of an encoded handshake: the magic word and a 4-byte big-endian id.
pub const HANDSHAKE_LEN: usize = 9;

/// The four bytes of `n`, most significant first.
pub open spec fn be32_bytes(n: u32) -> Seq<u8> {
    seq![(n >> 24u32) as u8, (n >> 16u32) as u8, (n >> 8u32) as u8, n as u8]
}

/// The number whose big-endian bytes are `b0 b1 b2 b3`.
pub open spec fn be32_value(b0: u8, b1: u8, b2: u8, b3: u8) -> u32 {
    ((b0 as u32) << 24u32) | ((b1 as u32) << 16u32) | ((b2 as u32) << 8u32) | (b3 as u32)
}

/// The number held big-endian in `b[at..at + 4]`.
pub open spec fn be32_at(b: Seq<u8>, at: int) -> u32 {
    be32_value(b[at], b[at + 1], b[at + 2], b[at + 3])
}

/// Reading back the four big-endian bytes of a number gives the number.
pub proof fn lemma_be32_round_trip(n: u32)
    ensures
        be32_at(be32_bytes(n), 0) == n,
{
    assert(be32_value((n >> 24u32) as u8, (n >> 16u32) as u8, (n >> 8u32) as u8, n as u8) == n)
        by (bit_vector);
}

/// The ASCII magic word that opens a handshake.
pub open spec fn hello_magic() -> Seq<u8> {
    seq![0x48u8, 0x65u8, 0x6cu8, 0x6cu8, 0x6fu8]
}

/// The encoding of a handshake that carries `id`.
pub open spec fn handshake_bytes(id: u32) -> Seq<u8> {
    hello_magic() + be32_bytes(id)
}

/// Length of the zero-padded file name field of a file frame.
pub const NAME_FIELD_LEN: usize = 96;

/// The ASCII tag `chat`.
pub open spec fn chat_tag() -> Seq<u8> {
    seq![0x63u8, 0x68u8, 0x61u8, 0x74u8]
}

/// The ASCII tag `file`.
pub open spec fn file_tag() -> Seq<u8> {
    seq![0x66u8, 0x69u8, 0x6cu8, 0x65u8]
}

/// A frame: the tag, the payload's length big-endian, the payload.
pub open spec fn frame_bytes(tag: Seq<u8>, payload: Seq<u8>) -> Seq<u8> {
    tag + be32_bytes(payload.len() as u32) + payload
}

/// A file name's bytes, left-padded with zeros to the width of the name field.
pub open spec fn padded_name(name: Seq<u8>) -> Seq<u8> {
    Seq::new((NAME_FIELD_LEN - name.len()) as nat, |i: int| 0u8) + name
}

/// Whether a chat text's length can be written in a frame header.
pub open spec fn chat_fits(text: Seq<char>) -> bool {
    encode_utf8(text).len() <= u32::MAX
}

/// Whether a file name fits the name field and the whole payload's length can
/// be written in a frame header.
pub open spec fn file_fits(name: Seq<char>, data: Seq<u8>) -> bool {
    encode_utf8(name).len() <= NAME_FIELD_LEN && NAME_FIELD_LEN + data.len() <= u32::MAX
}

/// The encoding of a chat message.
pub open spec fn chat_frame(text: Seq<char>) -> Seq<u8> {
    frame_bytes(chat_tag(), encode_utf8(text))
}

/// The encoding of a file: the padded name field, then the file's bytes.
pub open spec fn file_frame(name: Seq<char>, data: Seq<u8>) -> Seq<u8> {
    frame_bytes(file_tag(), padded_name(encode_utf8(name)) + data)
}

/// The index of the first nonzero byte of `s` at or after `i` (`s.len()` if none).
pub open spec fn first_nonzero_from(s: Seq<u8>, i: int) -> int
    decreases s.len() - i,
{
    if 0 <= i < s.len() && s[i] == 0 {
        first_nonzero_from(s, i + 1)
    } else {
        i
    }
}

/// A name field without its leading zero padding.
pub open spec fn trim_padding(field: Seq<u8>) -> Seq<u8> {
    field.subrange(first_nonzero_from(field, 0), field.len() as int)
}

/// Errors of the codec and of the connection protocol.
#[derive(Debug, Clone, Copy, PartialEq, Eq, Structural)]
pub enum ProtocolError {
    /// A handshake was not exactly nine bytes long.
    MalformedHandshake,
    /// A chat text or a file name was not well-formed UTF-8.
    InvalidUtf8,
    /// A frame was shorter than its header or than a file's name field, or
    /// its length field disagreed with the number of bytes that follow.
    ShortBuffer,
    /// A frame carried a tag other than `chat` and `file`.
    UnknownFrameType,
    /// The peer answered a handshake with another id than the one sent.
    HandshakeRejected,
    /// The peer could not be reached, or closed before answering.
    ConnectionFailed,
    /// A frame was to be sent while no peer is connected.
    NotConnected,
    /// The thread on the other side of a channel is gone.
    ChannelClosed,
}

/// What decoding a handshake gives: the id, or `MalformedHandshake` unless
/// there are exactly nine bytes.
pub open spec fn decode_handshake(data: Seq<u8>) -> Result<u32, ProtocolError> {
    if data.len() == HANDSHAKE_LEN {
        Ok(be32_at(data, 5))
    } else {
        Err(ProtocolError::MalformedHandshake)
    }
}

/// The longest frame a 4-byte length field can describe.
pub open spec fn max_frame_len() -> int {
    HEADER_LEN + u32::MAX
}

/// What decoding a chat frame gives: the text after the header, or
/// `ShortBuffer` if there is no whole header, or `InvalidUtf8`. The tag and
/// the length field are the dispatcher's to check (`decode_frame`).
pub open spec fn decode_chat(data: Seq<u8>) -> Result<Seq<char>, ProtocolError> {
    if data.len() < HEADER_LEN {
        Err(ProtocolError::ShortBuffer)
    } else {
        let payload = data.subrange(HEADER_LEN as int, data.len() as int);
        if valid_utf8(payload) {
            Ok(decode_utf8(payload))
        } else {
            Err(ProtocolError::InvalidUtf8)
        }
    }
}

/// What decoding a file frame gives: the trimmed name field and the bytes
/// after it, or `ShortBuffer` if the name field is not whole, or
/// `InvalidUtf8`. The tag and the length field are the dispatcher's to check
/// (`decode_frame`).
pub open spec fn decode_file(data: Seq<u8>) -> Result<(Seq<char>, Seq<u8>), ProtocolError> {
    if data.len() < HEADER_LEN + NAME_FIELD_LEN {
        Err(ProtocolError::ShortBuffer)
    } else {
        let body_start = HEADER_LEN + NAME_FIELD_LEN;
        let name = trim_padding(data.subrange(HEADER_LEN as int, body_start as int));
        if valid_utf8(name) {
            Ok((decode_utf8(name), data.subrange(body_start as int, data.len() as int)))
        } else {
            Err(ProtocolError::InvalidUtf8)
        }
    }
}

/// Appends the four big-endian bytes of `n`.
fn push_be32(out: &mut Vec<u8>, n: u32)
    ensures
        final(out)@ == old(out)@ + be32_bytes(n),
{
    out.push((n >> 24u32) as u8);
    out.push((n >> 16u32) as u8);
    out.push((n >> 8u32) as u8);
    out.push(n as u8);
    assert(out@ =~= old(out)@ + be32_bytes(n));
}

/// Appends the bytes of `src`.
fn append_bytes(out: &mut Vec<u8>, src: &[u8])
    ensures
        final(out)@ == old(out)@ + src@,
{
    let mut i: usize = 0;
    while i < src.len()
        invariant
            i <= src@.len(),
            out@ == old(out)@ + src@.subrange(0, i as int),
        decreases src@.len() - i,
    {
        out.push(src[i]);
        i += 1;
        assert(src@.subrange(0, i as int) =~= src@.subrange(0, i - 1).push(src@[i - 1]));
        assert(out@ =~= old(out)@ + src@.subrange(0, i as int));
    }
    assert(src@.subrange(0, src@.len() as int) =~= src@);
}

/// Appends `n` zero bytes.
fn push_zeros(out: &mut Vec<u8>, n: usize)
    ensures
        final(out)@ == old(out)@ + Seq::new(n as nat, |i: int| 0u8),
{
    let mut i: usize = 0;
    while i < n
        invariant
            i <= n,
            out@ == old(out)@ + Seq::new(i as nat, |j: int| 0u8),
        decreases n - i,
    {
        out.push(0u8);
        i += 1;
        assert(out@ =~= old(out)@ + Seq::new(i as nat, |j: int| 0u8));
    }
}

/// Whether `data` opens with the four bytes `t0 t1 t2 t3`.
fn starts_with_tag(data: &[u8], t0: u8, t1: u8, t2: u8, t3: u8) -> (r: bool)
    requires
        data@.len() >= 4,
    ensures
        r == (data@.subrange(0, 4) == seq![t0, t1, t2, t3]),
{
    let ghost tag = seq![t0, t1, t2, t3];
    if data[0] == t0 && data[1] == t1 && data[2] == t2 && data[3] == t3 {
        assert(data@.subrange(0, 4) =~= tag);
        true
    } else {
        assert(data@.subrange(0, 4)[0] != tag[0] || data@.subrange(0, 4)[1] != tag[1]
            || data@.subrange(0, 4)[2] != tag[2] || data@.subrange(0, 4)[3] != tag[3]);
        false
    }
}

/// Relies on `String::from_utf8`: it accepts exactly the well-formed UTF-8
/// byte sequences, and the string it returns holds the characters they encode.
#[verifier::external_body]
fn string_from_utf8(bytes: Vec<u8>) -> (r: Option<String>)
    ensures
        r is Some <==> valid_utf8(bytes@),
        r matches Some(s) ==> s@ == decode_utf8(bytes@),
{
    String::from_utf8(bytes).ok()
}

/// Reads the number held big-endian in `data[at..at + 4]`.
pub(crate) fn read_be32(data: &[u8], at: usize) -> (r: u32)
    requires
        at + 4 <= data@.len(),
    ensures
        r == be32_at(data@, at as int),
{
    ((data[at] as u32) << 24u32) | ((data[at + 1] as u32) << 16u32) | ((data[at + 2] as u32) << 8u32)
        | (data[at + 3] as u32)
}

/// A value that travels over the wire as bytes.
pub trait Serializable: Sized {
    fn to_bytes(&self) -> Vec<u8>;

    /// `data` is at most as long as a frame can be.
    fn from_bytes(data: Vec<u8>) -> Result<Self, ProtocolError>
        requires
            data@.len() <= max_frame_len(),
    ;
}

/// A chat message: a text whose UTF-8 length fits a frame header.
#[derive(Debug)]
pub struct Message(String);

impl View for Message {
    type V = Seq<char>;

    closed spec fn view(&self) -> Seq<char> {
        self.0@
    }
}

impl Message {
    #[verifier::type_invariant]
    closed spec fn fits(self) -> bool {
        chat_fits(self.0@)
    }

    pub fn new(text: String) -> (r: Self)
        requires
            chat_fits(text@),
        ensures
            r@ == text@,
    {
        Self(text)
    }

    /// The text of the message.
    pub fn message(&self) -> (r: String)
        ensures
            r@ == self@,
    {
        self.0.clone()
    }
}

/// A file: its name, at most as long as the name field, and its bytes.
#[derive(Debug)]
pub struct File {
    name: String,
    data: Vec<u8>,
}

impl View for File {
    type V = (Seq<char>, Seq<u8>);

    closed spec fn view(&self) -> (Seq<char>, Seq<u8>) {
        (self.name@, self.data@)
    }
}

impl File {
    #[verifier::type_invariant]
    closed spec fn fits(self) -> bool {
        file_fits(self.name@, self.data@)
    }

    pub fn new(name: String, data: Vec<u8>) -> (r: Self)
        requires
            file_fits(name@, data@),
        ensures
            r@ == (name@, data@),
    {
        Self { name, data }
    }

    /// The file's name.
    pub fn name(&self) -> (r: &String)
        ensures
            r@ == self@.0,
    {
        &self.name
    }

    /// The file's bytes.
    pub fn data(&self) -> (r: &Vec<u8>)
        ensures
            r@ == self@.1,
    {
        &self.data
    }
}

impl Serializable for Message {
    fn to_bytes(&self) -> (r: Vec<u8>)
        ensures
            r@ == chat_frame(self@),
    {
        proof {
            use_type_invariant(self);
        }
        let text = self.0.as_str().as_bytes();
        let mut data = vec![0x63u8, 0x68u8, 0x61u8, 0x74u8];
        push_be32(&mut data, text.len() as u32);
        append_bytes(&mut data, text);
        assert(data@ =~= chat_frame(self@));
        data
    }

    fn from_bytes(data: Vec<u8>) -> (r: Result<Self, ProtocolError>)
        ensures
            match r {
                Ok(m) => decode_chat(data@) == Ok::<Seq<char>, ProtocolError>(m@),
                Err(e) => decode_chat(data@) == Err::<Seq<char>, ProtocolError>(e),
            },
    {
        if data.len() < HEADER_LEN {
            return Err(ProtocolError::ShortBuffer);
        }
        let mut data = data;
        let payload = data.split_off(HEADER_LEN);
        let ghost bytes = payload@;
        match string_from_utf8(payload) {
            Some(text) => {
                proof {
                    vstd::utf8::decode_utf8_encode_utf8(bytes);
                }
                Ok(Self(text))
            },
            None => Err(ProtocolError::InvalidUtf8),
        }
    }
}

impl Serializable for File {
    fn to_bytes(&self) -> (r: Vec<u8>)
        ensures
            r@ == file_frame(self@.0, self@.1),
    {
        proof {
            use_type_invariant(self);
        }
        let name = self.name.as_str().as_bytes();
        let mut data = vec![0x66u8, 0x69u8, 0x6cu8, 0x65u8];
        push_be32(&mut data, (NAME_FIELD_LEN + self.data.len()) as u32);
        push_zeros(&mut data, NAME_FIELD_LEN - name.len());
        append_bytes(&mut data, name);
        append_bytes(&mut data, self.data.as_slice());
        assert(data@ =~= file_frame(self@.0, self@.1));
        data
    }

    fn from_bytes(data: Vec<u8>) -> (r: Result<Self, ProtocolError>)
        ensures
            match r {
                Ok(f) => decode_file(data@) == Ok::<(Seq<char>, Seq<u8>), ProtocolError>(f@),
                Err(e) => decode_file(data@) == Err::<(Seq<char>, Seq<u8>), ProtocolError>(e),
            },
    {
        let body_start = HEADER_LEN + NAME_FIELD_LEN;
        if data.len() < body_start {
            return Err(ProtocolError::ShortBuffer);
        }
        let ghost field = data@.subrange(HEADER_LEN as int, body_start as int);
        let mut start = HEADER_LEN;
        while start < body_start && data[start] == 0
            invariant
                HEADER_LEN <= start <= body_start <= data@.len(),
                field == data@.subrange(HEADER_LEN as int, body_start as int),
                first_nonzero_from(field, start - HEADER_LEN) == first_nonzero_from(field, 0),
            decreases body_start - start,
        {
            assert(field[start - HEADER_LEN] == 0);
            start += 1;
        }
        assert(first_nonzero_from(field, start - HEADER_LEN) == start - HEADER_LEN);
        let mut data = data;
        let body = data.split_off(body_start);
        let name_bytes = data.split_off(start);
        assert(name_bytes@ =~= trim_padding(field));
        let ghost bytes = name_bytes@;
        match string_from_utf8(name_bytes) {
            Some(name) => {
                proof {
                    vstd::utf8::decode_utf8_encode_utf8(bytes);
                }
                Ok(Self { name, data: body })
            },
            None => Err(ProtocolError::InvalidUtf8),
        }
    }
}

/// What a frame carries, as plain values.
pub enum Payload {
    Chat(Seq<char>),
    File(Seq<char>, Seq<u8>),
}

/// The encoding of a payload.
pub open spec fn payload_frame(p: Payload) -> Seq<u8> {
    match p {
        Payload::Chat(text) => chat_frame(text),
        Payload::File(name, data) => file_frame(name, data),
    }
}

/// What decoding a frame of either kind gives. A frame without a whole
/// header, or whose length field disagrees with the number of bytes after the
/// header, is rejected with `ShortBuffer` before dispatch; then the tag picks
/// the kind, whose own checks apply, and any other tag is `UnknownFrameType`.
pub open spec fn decode_frame(data: Seq<u8>) -> Result<Payload, ProtocolError> {
    if data.len() < HEADER_LEN {
        Err(ProtocolError::ShortBuffer)
    } else if be32_at(data, 4) != data.len() - HEADER_LEN {
        Err(ProtocolError::ShortBuffer)
    } else if data.subrange(0, 4) == chat_tag() {
        match decode_chat(data) {
            Ok(text) => Ok(Payload::Chat(text)),
            Err(e) => Err(e),
        }
    } else if data.subrange(0, 4) == file_tag() {
        match decode_file(data) {
            Ok((name, bytes)) => Ok(Payload::File(name, bytes)),
            Err(e) => Err(e),
        }
    } else {
        Err(ProtocolError::UnknownFrameType)
    }
}

/// A frame received from or sent to the peer.
#[derive(Debug)]
pub enum ProtocolMessage {
    Message(Message),
    File(File),
}

impl View for ProtocolMessage {
    type V = Payload;

    open spec fn view(&self) -> Payload {
        match self {
            ProtocolMessage::Message(m) => Payload::Chat(m@),
            ProtocolMessage::File(f) => Payload::File(f@.0, f@.1),
        }
    }
}

impl Serializable for ProtocolMessage {
    fn to_bytes(&self) -> (r: Vec<u8>)
        ensures
            r@ == payload_frame(self@),
    {
        match self {
            ProtocolMessage::Message(message) => message.to_bytes(),
            ProtocolMessage::File(file) => file.to_bytes(),
        }
    }

    fn from_bytes(data: Vec<u8>) -> (r: Result<Self, ProtocolError>)
        ensures
            match r {
                Ok(m) => decode_frame(data@) == Ok::<Payload, ProtocolError>(m@),
                Err(e) => decode_frame(data@) == Err::<Payload, ProtocolError>(e),
            },
    {
        if data.len() < HEADER_LEN {
            return Err(ProtocolError::ShortBuffer);
        }
        let declared = read_be32(data.as_slice(), 4);
        if declared as u64 != (data.len() - HEADER_LEN) as u64 {
            return Err(ProtocolError::ShortBuffer);
        }
        assert(seq![0x63u8, 0x68u8, 0x61u8, 0x74u8] =~= chat_tag());
        assert(seq![0x66u8, 0x69u8, 0x6cu8, 0x65u8] =~= file_tag());
        if starts_with_tag(data.as_slice(), 0x63u8, 0x68u8, 0x61u8, 0x74u8) {
            match Message::from_bytes(data) {
                Ok(m) => Ok(ProtocolMessage::Message(m)),
                Err(e) => Err(e),
            }
        } else if starts_with_tag(data.as_slice(), 0x66u8, 0x69u8, 0x6cu8, 0x65u8) {
            match File::from_bytes(data) {
                Ok(f) => Ok(ProtocolMessage::File(f)),
                Err(e) => Err(e),
            }
        } else {
            Err(ProtocolError::UnknownFrameType)
        }
    }
}

/// The opening message of a connection: a liveness token that the accepting
/// side echoes back.
#[derive(Debug, PartialEq, Eq, Structural)]
pub struct Handshake(u32);

impl Handshake {
    /// The id this handshake carries.
    pub closed spec fn spec_id(&self) -> u32 {
        self.0
    }

    pub fn new(id: u32) -> (r: Self)
        ensures
            r.spec_id() == id,
    {
        Self(id)
    }

    pub fn id(&self) -> (r: u32)
        ensures
            r == self.spec_id(),
    {
        self.0
    }
}

impl Serializable for Handshake {
    fn to_bytes(&self) -> (r: Vec<u8>)
        ensures
            r@ == handshake_bytes(self.spec_id()),
    {
        let mut data = vec![0x48u8, 0x65u8, 0x6cu8, 0x6cu8, 0x6fu8];
        push_be32(&mut data, self.0);
        assert(data@ =~= handshake_bytes(self.spec_id()));
        data
    }

    fn from_bytes(data: Vec<u8>) -> (r: Result<Self, ProtocolError>)
        ensures
            match r {
                Ok(h) => decode_handshake(data@) == Ok::<u32, ProtocolError>(h.spec_id()),
                Err(e) => decode_handshake(data@) == Err::<u32, ProtocolError>(e),
            },
    {
        if data.len() == HANDSHAKE_LEN {
            Ok(Self(read_be32(data.as_slice(), 5)))
        } else {
            Err(ProtocolError::MalformedHandshake)
        }
    }
}

/// The header of a well-formed frame passes the checks, its length field
/// reading back the payload's length.
proof fn lemma_frame_header(tag: Seq<u8>, payload: Seq<u8>)
    requires
        tag.len() == 4,
        payload.len() <= u32::MAX,
    ensures
        frame_bytes(tag, payload).len() == HEADER_LEN + payload.len(),
        frame_bytes(tag, payload).subrange(0, 4) == tag,
        be32_at(frame_bytes(tag, payload), 4) == payload.len(),
        frame_bytes(tag, payload).subrange(HEADER_LEN as int, frame_bytes(tag, payload).len() as int)
            == payload,
{
    let f = frame_bytes(tag, payload);
    let n = payload.len() as u32;
    assert(f.subrange(0, 4) =~= tag);
    assert(f.subrange(4, 8) =~= be32_bytes(n));
    lemma_be32_round_trip(n);
    assert(be32_at(f, 4) == be32_at(be32_bytes(n), 0));
    assert(f.subrange(HEADER_LEN as int, f.len() as int) =~= payload);
}

/// Decoding the encoding of a chat text gives back the text.
pub proof fn lemma_chat_round_trip(text: Seq<char>)
    requires
        chat_fits(text),
    ensures
        decode_chat(chat_frame(text)) == Ok::<Seq<char>, ProtocolError>(text),
        decode_frame(chat_frame(text)) == Ok::<Payload, ProtocolError>(Payload::Chat(text)),
{
    lemma_frame_header(chat_tag(), encode_utf8(text));
    vstd::utf8::encode_utf8_valid_utf8(text);
    vstd::utf8::encode_utf8_decode_utf8(text);
}

/// The index of the first nonzero byte of a padded name is where the name
/// starts, provided the name does not itself open with a zero byte.
proof fn lemma_padding_ends(name: Seq<u8>, i: int)
    requires
        name.len() <= NAME_FIELD_LEN,
        name.len() == 0 || name[0] != 0,
        0 <= i <= NAME_FIELD_LEN - name.len(),
    ensures
        first_nonzero_from(padded_name(name), i) == NAME_FIELD_LEN - name.len(),
    decreases NAME_FIELD_LEN - name.len() - i,
{
    let field = padded_name(name);
    if i < NAME_FIELD_LEN - name.len() {
        assert(field[i] == 0);
        lemma_padding_ends(name, i + 1);
    } else if name.len() > 0 {
        assert(field[i] == name[0]);
    }
}

/// A text that does not open with the NUL character has a UTF-8 encoding that
/// does not open with a zero byte.
proof fn lemma_utf8_first_byte_nonzero(text: Seq<char>)
    requires
        text.len() > 0,
        text[0] != '\0',
    ensures
        encode_utf8(text)[0] != 0,
{
    let c = text[0] as u32;
    vstd::utf8::char_is_scalar(text[0]);
    if c == 0 {
        vstd::utf8::char_u32_cast(text[0], c);
        assert((0u32 as char) == '\0');
    }
    assert(encode_utf8(text)[0] == vstd::utf8::encode_scalar(c)[0]);
    if vstd::utf8::has_width_1_encoding(c) {
        assert(1 <= c <= 0x7f ==> (c & 0x7f) as u8 != 0) by (bit_vector);
    } else if vstd::utf8::has_width_2_encoding(c) {
        assert(0xC0 | ((c >> 6) & 0x1F) as u8 != 0) by (bit_vector);
    } else if vstd::utf8::has_width_3_encoding(c) {
        assert(0xE0 | ((c >> 12) & 0x0F) as u8 != 0) by (bit_vector);
    } else {
        assert(0xF0 | ((c >> 18) & 0x7) as u8 != 0) by (bit_vector);
    }
}

/// Decoding the encoding of a file gives back its name and bytes, for every
/// name that fits the name field and does not open with the NUL character
/// (such a character could not be told from the padding).
pub proof fn lemma_file_round_trip(name: Seq<char>, data: Seq<u8>)
    requires
        file_fits(name, data),
        name.len() == 0 || name[0] != '\0',
    ensures
        decode_file(file_frame(name, data)) == Ok::<(Seq<char>, Seq<u8>), ProtocolError>(
            (name, data),
        ),
        decode_frame(file_frame(name, data)) == Ok::<Payload, ProtocolError>(
            Payload::File(name, data),
        ),
{
    let f = file_frame(name, data);
    lemma_frame_header(file_tag(), padded_name(encode_utf8(name)) + data);
    lemma_file_fields(name, data);
    vstd::utf8::encode_utf8_valid_utf8(name);
    vstd::utf8::encode_utf8_decode_utf8(name);
    assert(chat_tag()[0] != file_tag()[0]);
}

/// The name field of a file's encoding, trimmed, is the name's bytes, and the
/// bytes after it are the file's.
proof fn lemma_file_fields(name: Seq<char>, data: Seq<u8>)
    requires
        file_fits(name, data),
        name.len() == 0 || name[0] != '\0',
    ensures
        trim_padding(
            file_frame(name, data).subrange(HEADER_LEN as int, (HEADER_LEN + NAME_FIELD_LEN) as int),
        ) == encode_utf8(name),
        file_frame(name, data).subrange(
            (HEADER_LEN + NAME_FIELD_LEN) as int,
            file_frame(name, data).len() as int,
        ) == data,
{
    let bytes = encode_utf8(name);
    let f = file_frame(name, data);
    if name.len() > 0 {
        lemma_utf8_first_byte_nonzero(name);
    }
    let field = f.subrange(HEADER_LEN as int, (HEADER_LEN + NAME_FIELD_LEN) as int);
    assert(field =~= padded_name(bytes));
    lemma_padding_ends(bytes, 0);
    assert(trim_padding(field) =~= bytes);
    assert(f.subrange((HEADER_LEN + NAME_FIELD_LEN) as int, f.len() as int) =~= data);
}

/// A frame whose declared length differs from the number of bytes after its
/// header is rejected with `ShortBuffer` before its tag is looked at.
pub proof fn lemma_length_mismatch_rejected(data: Seq<u8>)
    requires
        data.len() >= HEADER_LEN,
        be32_at(data, 4) != data.len() - HEADER_LEN,
    ensures
        decode_frame(data) == Err::<Payload, ProtocolError>(ProtocolError::ShortBuffer),
{
}

/// Decoding the encoding of a handshake gives back its id.
pub proof fn lemma_handshake_round_trip(id: u32)
    ensures
        decode_handshake(handshake_bytes(id)) == Ok::<u32, ProtocolError>(id),
{
    let b = handshake_bytes(id);
    assert(b.subrange(5, 9) =~= be32_bytes(id));
    lemma_be32_round_trip(id);
    assert(be32_at(b, 5) == be32_at(be32_bytes(id), 0));
}

} // verus!
