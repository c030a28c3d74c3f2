//! The message codec: the five TFTP message kinds, their opcode mapping,
//! and the exact byte-level wire form of each.
use vstd::prelude::*;

verus! {

/// The 2-byte tag at the start of every message, as a 16-bit integer.
pub type MessageOpcode = u16;

/// Block sequence counter pairing Data and Acknowledgement messages.
pub type DataMessageBlockNumber = u16;

/// Numeric code carried by an Error message.
pub type ErrorMessageCode = u16;

/// A 16-bit integer assembled big-endian from two bytes.
pub open spec fn be16(hi: u8, lo: u8) -> u16 {
    (hi * 256 + lo) as u16
}

/// The two bytes of a 16-bit integer, big-endian.
pub open spec fn be_bytes(x: u16) -> Seq<u8> {
    seq![(x / 256) as u8, (x % 256) as u8]
}

/// Reading back the two big-endian bytes of an integer gives the integer.
pub proof fn lemma_be_bytes_roundtrip(x: u16)
    ensures
        be16(be_bytes(x)[0], be_bytes(x)[1]) == x,
{
}

/// Reads a 16-bit big-endian integer from two bytes.
fn read_be16(hi: u8, lo: u8) -> (r: u16)
    ensures
        r == be16(hi, lo),
{
    hi as u16 * 256 + lo as u16
}

/// Appends the two big-endian bytes of `x`.
fn push_be16(out: &mut Vec<u8>, x: u16)
    ensures
        final(out)@ == old(out)@ + be_bytes(x),
{
    out.push((x / 256) as u8);
    out.push((x % 256) as u8);
    assert(out@ =~= old(out)@ + be_bytes(x));
}

/// Text encoded one byte per character.
pub open spec fn text_bytes(s: Seq<char>) -> Seq<u8> {
    s.map_values(|c: char| c as u8)
}

/// Bytes read back one character per byte.
pub open spec fn bytes_chars(b: Seq<u8>) -> Seq<char> {
    b.map_values(|x: u8| x as char)
}

/// A character that fits in one wire byte and cannot be mistaken for a
/// string terminator.
pub open spec fn single_byte_char(c: char) -> bool {
    0 < (c as int) && (c as int) < 256
}

/// Text that may appear as a wire string: non-empty, no embedded null
/// byte, one byte per character.
pub open spec fn valid_text(s: Seq<char>) -> bool {
    s.len() > 0 && forall|i: int| 0 <= i < s.len() ==> single_byte_char(#[trigger] s[i])
}

/// Encoding single-byte text and reading it back gives the same text.
pub proof fn lemma_text_roundtrip(s: Seq<char>)
    requires
        forall|i: int| 0 <= i < s.len() ==> single_byte_char(#[trigger] s[i]),
    ensures
        bytes_chars(text_bytes(s)) == s,
{
    assert(bytes_chars(text_bytes(s)) =~= s);
}

/// The position of the first null byte at or after `from`, if any.
pub open spec fn find_null_spec(b: Seq<u8>, from: int) -> Option<int>
    decreases b.len() - from,
{
    if from < 0 || from >= b.len() {
        None
    } else if b[from] == 0 {
        Some(from)
    } else {
        find_null_spec(b, from + 1)
    }
}

/// What `find_null_spec` returns: the first null position, or none if no
/// null byte stands at or after `from`.
pub proof fn lemma_find_null_spec(b: Seq<u8>, from: int)
    requires
        0 <= from <= b.len(),
    ensures
        match find_null_spec(b, from) {
            Some(p) => from <= p < b.len() && b[p] == 0 && (forall|j: int|
                from <= j < p ==> b[j] != 0),
            None => forall|j: int| from <= j < b.len() ==> b[j] != 0,
        },
    decreases b.len() - from,
{
    if from < b.len() && b[from] != 0 {
        lemma_find_null_spec(b, from + 1);
    }
}

/// Scans for the first null byte at or after `from`.
fn find_null(bytes: &Vec<u8>, from: usize) -> (r: Option<usize>)
    requires
        from <= bytes@.len(),
    ensures
        match r {
            Some(p) => find_null_spec(bytes@, from as int) == Some(p as int),
            None => find_null_spec(bytes@, from as int) is None,
        },
{
    let mut i: usize = from;
    while i < bytes.len()
        invariant
            from <= i <= bytes@.len(),
            find_null_spec(bytes@, from as int) == find_null_spec(bytes@, i as int),
        decreases bytes@.len() - i,
    {
        if bytes[i] == 0 {
            return Some(i);
        }
        i = i + 1;
    }
    None
}

/// Relies on `String::push`: appends exactly the one character.
#[verifier::external_body]
fn push_char(s: &mut String, c: char)
    ensures
        final(s)@ == old(s)@.push(c),
{
    s.push(c);
}

/// Reads the bytes in `[from, to)` back as text, one character per byte.
fn bytes_to_text(bytes: &Vec<u8>, from: usize, to: usize) -> (r: String)
    requires
        from <= to <= bytes@.len(),
    ensures
        r@ == bytes_chars(bytes@.subrange(from as int, to as int)),
{
    let mut s: String = String::new();
    let mut i: usize = from;
    while i < to
        invariant
            from <= i <= to <= bytes@.len(),
            s@ == bytes_chars(bytes@.subrange(from as int, i as int)),
        decreases to - i,
    {
        let b: u8 = bytes[i];
        push_char(&mut s, b as char);
        i = i + 1;
        assert(s@ =~= bytes_chars(bytes@.subrange(from as int, i as int)));
    }
    s
}

/// Appends the text one byte per character.
fn push_text(out: &mut Vec<u8>, s: &String)
    requires
        forall|i: int| 0 <= i < s@.len() ==> ((#[trigger] s@[i]) as int) < 256,
    ensures
        final(out)@ == old(out)@ + text_bytes(s@),
{
    let n: usize = s.as_str().unicode_len();
    let mut i: usize = 0;
    while i < n
        invariant
            i <= n,
            n == s@.len(),
            forall|j: int| 0 <= j < s@.len() ==> ((#[trigger] s@[j]) as int) < 256,
            out@ == old(out)@ + text_bytes(s@).take(i as int),
        decreases n - i,
    {
        let c: char = s.as_str().get_char(i);
        out.push(c as u8);
        i = i + 1;
        assert(out@ =~= old(out)@ + text_bytes(s@).take(i as int));
    }
    assert(text_bytes(s@).take(n as int) =~= text_bytes(s@));
}

/// The tag of a message: one of the five message kinds.
#[derive(Copy, Clone, PartialEq, Eq, Structural, Debug)]
pub enum MessageType {
    ReadRequest,
    WriteRequest,
    Data,
    Acknowledgement,
    Error,
}

impl MessageType {
    /// The fixed 16-bit opcode of each message kind.
    pub open spec fn spec_opcode(self) -> MessageOpcode {
        match self {
            MessageType::ReadRequest => 1,
            MessageType::WriteRequest => 2,
            MessageType::Data => 3,
            MessageType::Acknowledgement => 4,
            MessageType::Error => 5,
        }
    }

    /// The message kind a 16-bit opcode stands for, if any.
    pub open spec fn spec_from_opcode(opcode: MessageOpcode) -> Option<MessageType> {
        match opcode {
            1 => Some(MessageType::ReadRequest),
            2 => Some(MessageType::WriteRequest),
            3 => Some(MessageType::Data),
            4 => Some(MessageType::Acknowledgement),
            5 => Some(MessageType::Error),
            _ => None,
        }
    }

    /// Maps a message kind to its wire opcode.
    pub fn to_opcode(msg_type: Self) -> (r: MessageOpcode)
        ensures
            r == msg_type.spec_opcode(),
    {
        match msg_type {
            MessageType::ReadRequest => 0x01,
            MessageType::WriteRequest => 0x02,
            MessageType::Data => 0x03,
            MessageType::Acknowledgement => 0x04,
            MessageType::Error => 0x05,
        }
    }

    /// Maps a wire opcode back to its message kind; any value outside the
    /// five assigned opcodes is unknown.
    pub fn from_opcode(opcode: MessageOpcode) -> (r: Option<Self>)
        ensures
            r == Self::spec_from_opcode(opcode),
    {
        match opcode {
            0x01 => Some(MessageType::ReadRequest),
            0x02 => Some(MessageType::WriteRequest),
            0x03 => Some(MessageType::Data),
            0x04 => Some(MessageType::Acknowledgement),
            0x05 => Some(MessageType::Error),
            _ => None,
        }
    }

    /// The opcode mapping is bidirectional over the five message kinds.
    pub proof fn lemma_opcode_roundtrip(msg_type: MessageType)
        ensures
            Self::spec_from_opcode(msg_type.spec_opcode()) == Some(msg_type),
    {
    }
}

/// The transfer mode named by a read or write request.
#[derive(Copy, Clone, PartialEq, Eq, Structural, Debug)]
pub enum ReadWriteRequestMessageMode {
    NetAscii,
    Octet,
    Mail,
}

impl ReadWriteRequestMessageMode {
    /// The lowercase word each mode serializes to.
    pub open spec fn spec_word(self) -> Seq<char> {
        match self {
            ReadWriteRequestMessageMode::NetAscii => "netascii"@,
            ReadWriteRequestMessageMode::Octet => "octet"@,
            ReadWriteRequestMessageMode::Mail => "mail"@,
        }
    }

    /// The mode a wire word stands for: each of the three words is
    /// accepted in its lowercase, uppercase or capitalized form only.
    pub open spec fn spec_from_word(s: Seq<char>) -> Option<ReadWriteRequestMessageMode> {
        if s == "netascii"@ || s == "NETASCII"@ || s == "NetAscii"@ {
            Some(ReadWriteRequestMessageMode::NetAscii)
        } else if s == "octet"@ || s == "OCTET"@ || s == "Octet"@ {
            Some(ReadWriteRequestMessageMode::Octet)
        } else if s == "mail"@ || s == "MAIL"@ || s == "Mail"@ {
            Some(ReadWriteRequestMessageMode::Mail)
        } else {
            None
        }
    }

    /// Serializes a mode to its lowercase word.
    pub fn to_string(mode: Self) -> (r: String)
        ensures
            r@ == mode.spec_word(),
    {
        match mode {
            ReadWriteRequestMessageMode::NetAscii => String::from_str("netascii"),
            ReadWriteRequestMessageMode::Octet => String::from_str("octet"),
            ReadWriteRequestMessageMode::Mail => String::from_str("mail"),
        }
    }

    /// Deserializes a mode word, case-insensitively over the three
    /// accepted forms of each word.
    pub fn from_string(mode_string: String) -> (r: Option<Self>)
        ensures
            r == Self::spec_from_word(mode_string@),
    {
        if mode_string == String::from_str("netascii") || mode_string == String::from_str(
            "NETASCII",
        ) || mode_string == String::from_str("NetAscii") {
            Some(ReadWriteRequestMessageMode::NetAscii)
        } else if mode_string == String::from_str("octet") || mode_string == String::from_str(
            "OCTET",
        ) || mode_string == String::from_str("Octet") {
            Some(ReadWriteRequestMessageMode::Octet)
        } else if mode_string == String::from_str("mail") || mode_string == String::from_str(
            "MAIL",
        ) || mode_string == String::from_str("Mail") {
            Some(ReadWriteRequestMessageMode::Mail)
        } else {
            None
        }
    }

    /// Each mode's lowercase word deserializes back to the mode.
    pub proof fn lemma_word_roundtrip(mode: ReadWriteRequestMessageMode)
        ensures
            Self::spec_from_word(mode.spec_word()) == Some(mode),
    {
        reveal_strlit("netascii");
        reveal_strlit("NETASCII");
        reveal_strlit("NetAscii");
        reveal_strlit("octet");
        reveal_strlit("OCTET");
        reveal_strlit("Octet");
        reveal_strlit("mail");
        reveal_strlit("MAIL");
        reveal_strlit("Mail");
        assert("netascii"@.len() == 8 && "NETASCII"@.len() == 8 && "NetAscii"@.len() == 8);
        assert("octet"@.len() == 5 && "OCTET"@.len() == 5 && "Octet"@.len() == 5);
        assert("mail"@.len() == 4 && "MAIL"@.len() == 4 && "Mail"@.len() == 4);
    }

    /// Each mode's word is valid wire text.
    pub proof fn lemma_word_valid(mode: ReadWriteRequestMessageMode)
        ensures
            valid_text(mode.spec_word()),
    {
        reveal_strlit("netascii");
        reveal_strlit("octet");
        reveal_strlit("mail");
    }
}

/// Why a byte buffer could not become a message. Each case is a terminal
/// classification; none is recoverable without new input.
/// `InvalidErrorCode` is reserved for a future numeric-range rule on the
/// Error code field; no decoder produces it yet.
#[derive(Copy, Clone, PartialEq, Eq, Structural, Debug)]
pub enum ParseError {
    TooShort,
    TooLong,
    InvalidOpcode,
    NoFilename,
    InvalidFilename,
    NoMode,
    InvalidMode,
    InvalidErrorCode,
    NoErrorMessage,
    InvalidErrorMessage,
}

impl ParseError {
    /// The prose each error renders to.
    pub open spec fn spec_describe(self) -> Seq<char> {
        match self {
            ParseError::TooShort => "Specified message contains too little bytes for its message type"@,
            ParseError::TooLong => "Specified message contains too many bytes for its message type"@,
            ParseError::InvalidOpcode => "Specified message has an invalid opcode (either unknown or mismatched for its message type)"@,
            ParseError::NoFilename => "Specified message lacks a filename when it should have one"@,
            ParseError::InvalidFilename => "Specified message has an invalid filename (likely improperly terminated or contains forbidden characters)"@,
            ParseError::NoMode => "Specified message lacks a mode string when it should have one"@,
            ParseError::InvalidMode => "Specified message has an invalid mode string (likely improperly terminated or contains forbidden characters)"@,
            ParseError::InvalidErrorCode => "Specified message has an invalid error code"@,
            ParseError::NoErrorMessage => "Specified message lacks an error message string when it should have one"@,
            ParseError::InvalidErrorMessage => "Specified message has an invalid error message string (likely improperly terminated or contains forbidden characters)"@,
        }
    }

    /// Renders the error as prose for reporting.
    pub fn describe(&self) -> (r: String)
        ensures
            r@ == self.spec_describe(),
    {
        match self {
            ParseError::TooShort => String::from_str(
                "Specified message contains too little bytes for its message type",
            ),
            ParseError::TooLong => String::from_str(
                "Specified message contains too many bytes for its message type",
            ),
            ParseError::InvalidOpcode => String::from_str(
                "Specified message has an invalid opcode (either unknown or mismatched for its message type)",
            ),
            ParseError::NoFilename => String::from_str(
                "Specified message lacks a filename when it should have one",
            ),
            ParseError::InvalidFilename => String::from_str(
                "Specified message has an invalid filename (likely improperly terminated or contains forbidden characters)",
            ),
            ParseError::NoMode => String::from_str(
                "Specified message lacks a mode string when it should have one",
            ),
            ParseError::InvalidMode => String::from_str(
                "Specified message has an invalid mode string (likely improperly terminated or contains forbidden characters)",
            ),
            ParseError::InvalidErrorCode => String::from_str(
                "Specified message has an invalid error code",
            ),
            ParseError::NoErrorMessage => String::from_str(
                "Specified message lacks an error message string when it should have one",
            ),
            ParseError::InvalidErrorMessage => String::from_str(
                "Specified message has an invalid error message string (likely improperly terminated or contains forbidden characters)",
            ),
        }
    }
}

/// The position of the first null byte, when the bytes before it are known.
pub proof fn lemma_find_null_at(b: Seq<u8>, from: int, p: int)
    requires
        0 <= from <= p < b.len(),
        b[p] == 0,
        forall|j: int| from <= j < p ==> b[j] != 0,
    ensures
        find_null_spec(b, from) == Some(p),
    decreases p - from,
{
    if from < p {
        lemma_find_null_at(b, from + 1, p);
    }
}

/// The contract every message kind meets: a fixed opcode, a deterministic
/// wire form for well-formed values, and a strict parser that returns an
/// error, never a panic, on malformed input.
pub trait Message: Sized {
    /// The in-memory value is well formed: its tag matches its kind, its
    /// text fields are valid wire text, and its payload fits a block.
    spec fn wf(&self) -> bool;

    /// The exact byte-level wire form of the message.
    spec fn wire(&self) -> Seq<u8>;

    /// The fixed opcode of this message's kind.
    spec fn spec_opcode(&self) -> MessageOpcode;

    /// The wire opcode of the message.
    fn opcode(&self) -> (r: MessageOpcode)
        requires
            self.wf(),
        ensures
            r == self.spec_opcode(),
    ;

    /// Encodes the message to its wire form; total for well-formed values.
    fn to_bytes(&self) -> (r: Vec<u8>)
        requires
            self.wf(),
        ensures
            r@ == self.wire(),
    ;

    /// Decodes a buffer; a decoded message is well formed and its buffer
    /// began with this kind's opcode.
    fn from_bytes(bytes: Vec<u8>) -> (r: Result<Self, ParseError>)
        ensures
            r matches Ok(m) ==> m.wf() && bytes@.len() >= 2 && be16(bytes@[0], bytes@[1])
                == m.spec_opcode(),
    ;
}

/// What decoding a read or write request yields: the filename text and
/// the transfer mode, or the first error the scan hits. The filename runs
/// from the opcode to the first null byte; the mode word is everything
/// after that null, up to a further null byte if one stands there.
pub open spec fn spec_parse_request(bytes: Seq<u8>, expected: MessageType) -> Result<
    (Seq<char>, ReadWriteRequestMessageMode),
    ParseError,
> {
    if bytes.len() < 5 {
        Err(ParseError::TooShort)
    } else if MessageType::spec_from_opcode(be16(bytes[0], bytes[1])) != Some(expected) {
        Err(ParseError::InvalidOpcode)
    } else {
        match find_null_spec(bytes, 2) {
            None => Err(ParseError::InvalidFilename),
            Some(p) => if p == 2 {
                Err(ParseError::NoFilename)
            } else {
                let mode_end = match find_null_spec(bytes, p + 1) {
                    Some(q) => q,
                    None => bytes.len() as int,
                };
                if mode_end == p + 1 {
                    Err(ParseError::NoMode)
                } else {
                    match ReadWriteRequestMessageMode::spec_from_word(
                        bytes_chars(bytes.subrange(p + 1, mode_end)),
                    ) {
                        None => Err(ParseError::InvalidMode),
                        Some(mode) => Ok((bytes_chars(bytes.subrange(2, p)), mode)),
                    }
                }
            },
        }
    }
}

/// The byte-scanning decoder shared by the two request kinds: bounds are
/// checked before every index access, so truncated input yields an error.
fn parse_request(bytes: &Vec<u8>, expected: MessageType) -> (r: Result<
    (String, ReadWriteRequestMessageMode),
    ParseError,
>)
    ensures
        match r {
            Ok((f, m)) => spec_parse_request(bytes@, expected) == Ok::<
                (Seq<char>, ReadWriteRequestMessageMode),
                ParseError,
            >((f@, m)) && valid_text(f@),
            Err(e) => spec_parse_request(bytes@, expected) == Err::<
                (Seq<char>, ReadWriteRequestMessageMode),
                ParseError,
            >(e),
        },
{
    if bytes.len() < 5 {
        return Err(ParseError::TooShort);
    }
    let opcode: MessageOpcode = read_be16(bytes[0], bytes[1]);
    let type_matches: bool = match MessageType::from_opcode(opcode) {
        Some(t) => t == expected,
        None => false,
    };
    if !type_matches {
        return Err(ParseError::InvalidOpcode);
    }
    match find_null(bytes, 2) {
        None => Err(ParseError::InvalidFilename),
        Some(p) => {
            proof {
                lemma_find_null_spec(bytes@, 2);
            }
            if p == 2 {
                return Err(ParseError::NoFilename);
            }
            let mode_end: usize = match find_null(bytes, p + 1) {
                Some(q) => q,
                None => bytes.len(),
            };
            proof {
                lemma_find_null_spec(bytes@, p as int + 1);
            }
            if mode_end == p + 1 {
                return Err(ParseError::NoMode);
            }
            let mode_string: String = bytes_to_text(bytes, p + 1, mode_end);
            match ReadWriteRequestMessageMode::from_string(mode_string) {
                None => Err(ParseError::InvalidMode),
                Some(mode) => {
                    let filename: String = bytes_to_text(bytes, 2, p);
                    assert(valid_text(filename@));
                    Ok((filename, mode))
                },
            }
        },
    }
}

/// No null byte in the scanned range means the scan finds none.
pub proof fn lemma_find_null_none(b: Seq<u8>, from: int)
    requires
        0 <= from <= b.len(),
        forall|j: int| from <= j < b.len() ==> b[j] != 0,
    ensures
        find_null_spec(b, from) is None,
{
    lemma_find_null_spec(b, from);
    if let Some(q) = find_null_spec(b, from) {
        assert(b[q] != 0);
        assert(false);
    }
}

/// Round trip for requests: the wire form of a valid filename and a mode,
/// under either request kind's opcode, decodes to that filename and mode.
pub proof fn lemma_request_round_trip(
    filename: Seq<char>,
    mode: ReadWriteRequestMessageMode,
    expected: MessageType,
)
    requires
        valid_text(filename),
        expected == MessageType::ReadRequest || expected == MessageType::WriteRequest,
    ensures
        spec_parse_request(
            be_bytes(expected.spec_opcode()) + text_bytes(filename) + seq![0u8] + text_bytes(
                mode.spec_word(),
            ),
            expected,
        ) == Ok::<(Seq<char>, ReadWriteRequestMessageMode), ParseError>((filename, mode)),
{
    let op = expected.spec_opcode();
    let w = be_bytes(op) + text_bytes(filename) + seq![0u8] + text_bytes(mode.spec_word());
    let p = 2 + filename.len() as int;
    ReadWriteRequestMessageMode::lemma_word_valid(mode);
    ReadWriteRequestMessageMode::lemma_word_roundtrip(mode);
    MessageType::lemma_opcode_roundtrip(expected);
    lemma_be_bytes_roundtrip(op);
    assert(w.len() == 3 + filename.len() + mode.spec_word().len());
    assert(w[0] == be_bytes(op)[0] && w[1] == be_bytes(op)[1]);
    assert(MessageType::spec_from_opcode(be16(w[0], w[1])) == Some(expected));
    assert forall|j: int| 2 <= j < p implies w[j] != 0 by {
        assert(w[j] == text_bytes(filename)[j - 2]);
        assert(single_byte_char(filename[j - 2]));
    }
    assert(w[p] == 0);
    lemma_find_null_at(w, 2, p);
    assert forall|j: int| p + 1 <= j < w.len() implies w[j] != 0 by {
        assert(w[j] == text_bytes(mode.spec_word())[j - p - 1]);
        assert(single_byte_char(mode.spec_word()[j - p - 1]));
    }
    lemma_find_null_none(w, p + 1);
    assert(w.subrange(2, p) =~= text_bytes(filename));
    assert(w.subrange(p + 1, w.len() as int) =~= text_bytes(mode.spec_word()));
    lemma_text_roundtrip(filename);
    lemma_text_roundtrip(mode.spec_word());
}

/// Opcode fidelity for requests: decoding succeeds only when the first
/// two bytes spell the expected kind's opcode, and a length-valid buffer
/// with any other prefix is rejected as an invalid opcode.
pub proof fn lemma_request_opcode_fidelity(bytes: Seq<u8>, expected: MessageType)
    ensures
        spec_parse_request(bytes, expected) is Ok ==> bytes.len() >= 5 && be16(bytes[0], bytes[1])
            == expected.spec_opcode(),
        bytes.len() >= 5 && be16(bytes[0], bytes[1]) != expected.spec_opcode()
            ==> spec_parse_request(bytes, expected) == Err::<
            (Seq<char>, ReadWriteRequestMessageMode),
            ParseError,
        >(ParseError::InvalidOpcode),
{
    MessageType::lemma_opcode_roundtrip(expected);
}

/// String termination for requests: a buffer whose filename is never
/// null-terminated is rejected, and one whose only null byte is the last
/// byte leaves no room for a mode word; neither is silently truncated.
pub proof fn lemma_request_termination(bytes: Seq<u8>, expected: MessageType)
    requires
        bytes.len() >= 5,
        MessageType::spec_from_opcode(be16(bytes[0], bytes[1])) == Some(expected),
    ensures
        (forall|j: int| 2 <= j < bytes.len() ==> bytes[j] != 0) ==> spec_parse_request(
            bytes,
            expected,
        ) == Err::<(Seq<char>, ReadWriteRequestMessageMode), ParseError>(
            ParseError::InvalidFilename,
        ),
        (bytes[bytes.len() - 1] == 0 && (forall|j: int|
            2 <= j < bytes.len() - 1 ==> bytes[j] != 0)) ==> spec_parse_request(bytes, expected)
            == Err::<(Seq<char>, ReadWriteRequestMessageMode), ParseError>(ParseError::NoMode),
{
    if forall|j: int| 2 <= j < bytes.len() ==> bytes[j] != 0 {
        lemma_find_null_none(bytes, 2);
    } else if bytes[bytes.len() - 1] == 0 && (forall|j: int|
        2 <= j < bytes.len() - 1 ==> bytes[j] != 0) {
        let p = bytes.len() - 1;
        lemma_find_null_at(bytes, 2, p);
        assert(find_null_spec(bytes, p + 1) is None);
    }
}

/// A request to read a file: its name and the transfer mode to use.
#[derive(Debug, PartialEq, Eq)]
pub struct ReadRequestMessage {
    msg_type: MessageType,
    filename: String,
    mode: ReadWriteRequestMessageMode,
}

impl ReadRequestMessage {
    /// The message's tag field.
    pub closed spec fn spec_msg_type(self) -> MessageType {
        self.msg_type
    }

    /// The filename text the message carries.
    pub closed spec fn spec_filename(self) -> Seq<char> {
        self.filename@
    }

    /// The transfer mode the message carries.
    pub closed spec fn spec_mode(self) -> ReadWriteRequestMessageMode {
        self.mode
    }

    /// Builds a read request; the filename must be valid wire text.
    pub fn new(filename: String, mode: ReadWriteRequestMessageMode) -> (r: Self)
        requires
            valid_text(filename@),
        ensures
            r.wf(),
            r.spec_filename() == filename@,
            r.spec_mode() == mode,
    {
        ReadRequestMessage { msg_type: MessageType::ReadRequest, filename, mode }
    }

    /// The requested file's name.
    pub fn filename(&self) -> (r: String)
        ensures
            r@ == self.spec_filename(),
    {
        self.filename.clone()
    }

    /// The requested transfer mode.
    pub fn mode(&self) -> (r: ReadWriteRequestMessageMode)
        ensures
            r == self.spec_mode(),
    {
        self.mode
    }
}

impl Clone for ReadRequestMessage {
    /// The copy carries the same tag, filename and mode.
    fn clone(&self) -> (res: Self)
        ensures
            res == *self,
    {
        ReadRequestMessage {
            msg_type: self.msg_type,
            filename: self.filename.clone(),
            mode: self.mode,
        }
    }
}

impl Message for ReadRequestMessage {
    open spec fn wf(&self) -> bool {
        self.spec_msg_type() == MessageType::ReadRequest && valid_text(self.spec_filename())
    }

    open spec fn wire(&self) -> Seq<u8> {
        be_bytes(1) + text_bytes(self.spec_filename()) + seq![0u8] + text_bytes(
            self.spec_mode().spec_word(),
        )
    }

    open spec fn spec_opcode(&self) -> MessageOpcode {
        1
    }

    fn opcode(&self) -> (r: MessageOpcode) {
        MessageType::to_opcode(self.msg_type)
    }

    fn to_bytes(&self) -> (r: Vec<u8>) {
        let mut bytes: Vec<u8> = Vec::new();
        push_be16(&mut bytes, MessageType::to_opcode(self.msg_type));
        push_text(&mut bytes, &self.filename);
        bytes.push(0u8);
        let mode_word: String = ReadWriteRequestMessageMode::to_string(self.mode);
        proof {
            ReadWriteRequestMessageMode::lemma_word_valid(self.mode);
        }
        push_text(&mut bytes, &mode_word);
        assert(bytes@ =~= self.wire());
        bytes
    }

    fn from_bytes(bytes: Vec<u8>) -> (r: Result<Self, ParseError>)
        ensures
            match r {
                Ok(m) => spec_parse_request(bytes@, MessageType::ReadRequest) == Ok::<
                    (Seq<char>, ReadWriteRequestMessageMode),
                    ParseError,
                >((m.spec_filename(), m.spec_mode())),
                Err(e) => spec_parse_request(bytes@, MessageType::ReadRequest) == Err::<
                    (Seq<char>, ReadWriteRequestMessageMode),
                    ParseError,
                >(e),
            },
    {
        match parse_request(&bytes, MessageType::ReadRequest) {
            Ok((filename, mode)) => Ok(ReadRequestMessage::new(filename, mode)),
            Err(e) => Err(e),
        }
    }
}

/// Round trip: decoding the wire form of a well-formed read request
/// yields the same filename and mode.
pub proof fn lemma_read_request_round_trip(m: ReadRequestMessage)
    requires
        m.wf(),
    ensures
        spec_parse_request(m.wire(), MessageType::ReadRequest) == Ok::<
            (Seq<char>, ReadWriteRequestMessageMode),
            ParseError,
        >((m.spec_filename(), m.spec_mode())),
{
    lemma_request_round_trip(m.spec_filename(), m.spec_mode(), MessageType::ReadRequest);
}

/// A request to write a file: its name and the transfer mode to use.
#[derive(Debug, PartialEq, Eq)]
pub struct WriteRequestMessage {
    msg_type: MessageType,
    filename: String,
    mode: ReadWriteRequestMessageMode,
}

impl WriteRequestMessage {
    /// The message's tag field.
    pub closed spec fn spec_msg_type(self) -> MessageType {
        self.msg_type
    }

    /// The filename text the message carries.
    pub closed spec fn spec_filename(self) -> Seq<char> {
        self.filename@
    }

    /// The transfer mode the message carries.
    pub closed spec fn spec_mode(self) -> ReadWriteRequestMessageMode {
        self.mode
    }

    /// Builds a write request; the filename must be valid wire text.
    pub fn new(filename: String, mode: ReadWriteRequestMessageMode) -> (r: Self)
        requires
            valid_text(filename@),
        ensures
            r.wf(),
            r.spec_filename() == filename@,
            r.spec_mode() == mode,
    {
        WriteRequestMessage { msg_type: MessageType::WriteRequest, filename, mode }
    }

    /// The named file's name.
    pub fn filename(&self) -> (r: String)
        ensures
            r@ == self.spec_filename(),
    {
        self.filename.clone()
    }

    /// The requested transfer mode.
    pub fn mode(&self) -> (r: ReadWriteRequestMessageMode)
        ensures
            r == self.spec_mode(),
    {
        self.mode
    }
}

impl Clone for WriteRequestMessage {
    /// The copy carries the same tag, filename and mode.
    fn clone(&self) -> (res: Self)
        ensures
            res == *self,
    {
        WriteRequestMessage {
            msg_type: self.msg_type,
            filename: self.filename.clone(),
            mode: self.mode,
        }
    }
}

impl Message for WriteRequestMessage {
    open spec fn wf(&self) -> bool {
        self.spec_msg_type() == MessageType::WriteRequest && valid_text(self.spec_filename())
    }

    open spec fn wire(&self) -> Seq<u8> {
        be_bytes(2) + text_bytes(self.spec_filename()) + seq![0u8] + text_bytes(
            self.spec_mode().spec_word(),
        )
    }

    open spec fn spec_opcode(&self) -> MessageOpcode {
        2
    }

    fn opcode(&self) -> (r: MessageOpcode) {
        MessageType::to_opcode(self.msg_type)
    }

    fn to_bytes(&self) -> (r: Vec<u8>) {
        let mut bytes: Vec<u8> = Vec::new();
        push_be16(&mut bytes, MessageType::to_opcode(self.msg_type));
        push_text(&mut bytes, &self.filename);
        bytes.push(0u8);
        let mode_word: String = ReadWriteRequestMessageMode::to_string(self.mode);
        proof {
            ReadWriteRequestMessageMode::lemma_word_valid(self.mode);
        }
        push_text(&mut bytes, &mode_word);
        assert(bytes@ =~= self.wire());
        bytes
    }

    fn from_bytes(bytes: Vec<u8>) -> (r: Result<Self, ParseError>)
        ensures
            match r {
                Ok(m) => spec_parse_request(bytes@, MessageType::WriteRequest) == Ok::<
                    (Seq<char>, ReadWriteRequestMessageMode),
                    ParseError,
                >((m.spec_filename(), m.spec_mode())),
                Err(e) => spec_parse_request(bytes@, MessageType::WriteRequest) == Err::<
                    (Seq<char>, ReadWriteRequestMessageMode),
                    ParseError,
                >(e),
            },
    {
        match parse_request(&bytes, MessageType::WriteRequest) {
            Ok((filename, mode)) => Ok(WriteRequestMessage::new(filename, mode)),
            Err(e) => Err(e),
        }
    }
}

/// Round trip: decoding the wire form of a well-formed write request
/// yields the same filename and mode.
pub proof fn lemma_write_request_round_trip(m: WriteRequestMessage)
    requires
        m.wf(),
    ensures
        spec_parse_request(m.wire(), MessageType::WriteRequest) == Ok::<
            (Seq<char>, ReadWriteRequestMessageMode),
            ParseError,
        >((m.spec_filename(), m.spec_mode())),
{
    lemma_request_round_trip(m.spec_filename(), m.spec_mode(), MessageType::WriteRequest);
}

/// Appends a copy of `src`.
fn push_bytes(out: &mut Vec<u8>, src: &Vec<u8>)
    ensures
        final(out)@ == old(out)@ + src@,
{
    let mut i: usize = 0;
    while i < src.len()
        invariant
            i <= src@.len(),
            out@ == old(out)@ + src@.take(i as int),
        decreases src@.len() - i,
    {
        out.push(src[i]);
        i = i + 1;
        assert(out@ =~= old(out)@ + src@.take(i as int));
    }
    assert(src@.take(src@.len() as int) =~= src@);
}

/// Copies the bytes in `[from, to)` into a fresh buffer.
fn copy_range(bytes: &Vec<u8>, from: usize, to: usize) -> (r: Vec<u8>)
    requires
        from <= to <= bytes@.len(),
    ensures
        r@ == bytes@.subrange(from as int, to as int),
{
    let mut out: Vec<u8> = Vec::new();
    let mut i: usize = from;
    while i < to
        invariant
            from <= i <= to <= bytes@.len(),
            out@ == bytes@.subrange(from as int, i as int),
        decreases to - i,
    {
        out.push(bytes[i]);
        i = i + 1;
        assert(out@ =~= bytes@.subrange(from as int, i as int));
    }
    out
}

/// What decoding a Data message yields: the block number and the opaque
/// payload after the 4-byte header, or the first error hit. A payload
/// longer than 512 bytes makes the buffer too long; a buffer without at
/// least one payload byte is too short.
pub open spec fn spec_parse_data(bytes: Seq<u8>) -> Result<(u16, Seq<u8>), ParseError> {
    if bytes.len() < 5 {
        Err(ParseError::TooShort)
    } else if bytes.len() > 516 {
        Err(ParseError::TooLong)
    } else if MessageType::spec_from_opcode(be16(bytes[0], bytes[1])) != Some(MessageType::Data) {
        Err(ParseError::InvalidOpcode)
    } else {
        Ok((be16(bytes[2], bytes[3]), bytes.subrange(4, bytes.len() as int)))
    }
}

/// One block of file contents in flight.
#[derive(Debug, PartialEq, Eq)]
pub struct DataMessage {
    msg_type: MessageType,
    block_num: DataMessageBlockNumber,
    data: Vec<u8>,
}

impl DataMessage {
    /// The message's tag field.
    pub closed spec fn spec_msg_type(self) -> MessageType {
        self.msg_type
    }

    /// The block number the message carries.
    pub closed spec fn spec_block_num(self) -> DataMessageBlockNumber {
        self.block_num
    }

    /// The payload the message carries.
    pub closed spec fn spec_data(self) -> Seq<u8> {
        self.data@
    }

    /// Builds a Data message; the payload must fit in one block.
    pub fn new(block_num: DataMessageBlockNumber, data: Vec<u8>) -> (r: Self)
        requires
            data@.len() <= 512,
        ensures
            r.wf(),
            r.spec_block_num() == block_num,
            r.spec_data() == data@,
    {
        DataMessage { msg_type: MessageType::Data, block_num, data }
    }

    /// The block number of this block.
    pub fn block_num(&self) -> (r: DataMessageBlockNumber)
        ensures
            r == self.spec_block_num(),
    {
        self.block_num
    }

    /// A copy of the payload.
    pub fn data(&self) -> (r: Vec<u8>)
        ensures
            r@ == self.spec_data(),
    {
        let mut out: Vec<u8> = Vec::new();
        push_bytes(&mut out, &self.data);
        assert(out@ =~= self.spec_data());
        out
    }
}

impl Clone for DataMessage {
    /// The copy carries the same tag, block number and payload.
    fn clone(&self) -> (res: Self)
        ensures
            res.spec_msg_type() == self.spec_msg_type(),
            res.spec_block_num() == self.spec_block_num(),
            res.spec_data() == self.spec_data(),
    {
        DataMessage { msg_type: self.msg_type, block_num: self.block_num, data: self.data() }
    }
}

impl Message for DataMessage {
    open spec fn wf(&self) -> bool {
        self.spec_msg_type() == MessageType::Data && self.spec_data().len() <= 512
    }

    open spec fn wire(&self) -> Seq<u8> {
        be_bytes(3) + be_bytes(self.spec_block_num()) + self.spec_data()
    }

    open spec fn spec_opcode(&self) -> MessageOpcode {
        3
    }

    fn opcode(&self) -> (r: MessageOpcode) {
        MessageType::to_opcode(self.msg_type)
    }

    fn to_bytes(&self) -> (r: Vec<u8>) {
        let mut bytes: Vec<u8> = Vec::new();
        push_be16(&mut bytes, MessageType::to_opcode(self.msg_type));
        push_be16(&mut bytes, self.block_num);
        push_bytes(&mut bytes, &self.data);
        assert(bytes@ =~= self.wire());
        bytes
    }

    fn from_bytes(bytes: Vec<u8>) -> (r: Result<Self, ParseError>)
        ensures
            match r {
                Ok(m) => spec_parse_data(bytes@) == Ok::<(u16, Seq<u8>), ParseError>(
                    (m.spec_block_num(), m.spec_data()),
                ),
                Err(e) => spec_parse_data(bytes@) == Err::<(u16, Seq<u8>), ParseError>(e),
            },
    {
        if bytes.len() < 5 {
            return Err(ParseError::TooShort);
        }
        if bytes.len() > 516 {
            return Err(ParseError::TooLong);
        }
        let opcode: MessageOpcode = read_be16(bytes[0], bytes[1]);
        let type_matches: bool = match MessageType::from_opcode(opcode) {
            Some(t) => t == MessageType::Data,
            None => false,
        };
        if !type_matches {
            return Err(ParseError::InvalidOpcode);
        }
        let block_num: DataMessageBlockNumber = read_be16(bytes[2], bytes[3]);
        let data: Vec<u8> = copy_range(&bytes, 4, bytes.len());
        Ok(DataMessage::new(block_num, data))
    }
}

/// Round trip: decoding the wire form of a well-formed Data message with
/// a non-empty payload yields the same block number and payload. (The
/// wire form of an empty payload is only 4 bytes, which the length rule
/// of the decoder rejects as too short.)
pub proof fn lemma_data_round_trip(m: DataMessage)
    requires
        m.wf(),
        m.spec_data().len() > 0,
    ensures
        spec_parse_data(m.wire()) == Ok::<(u16, Seq<u8>), ParseError>(
            (m.spec_block_num(), m.spec_data()),
        ),
{
    let w = m.wire();
    lemma_be_bytes_roundtrip(3);
    lemma_be_bytes_roundtrip(m.spec_block_num());
    assert(be16(w[0], w[1]) == 3);
    assert(be16(w[2], w[3]) == m.spec_block_num());
    assert(w.subrange(4, w.len() as int) =~= m.spec_data());
}

/// Length boundaries for Data: buffers shorter than 5 bytes are too
/// short, longer than 516 too long, and anything between with the Data
/// opcode decodes.
pub proof fn lemma_data_length_boundaries(bytes: Seq<u8>)
    ensures
        bytes.len() < 5 ==> spec_parse_data(bytes) == Err::<(u16, Seq<u8>), ParseError>(
            ParseError::TooShort,
        ),
        bytes.len() > 516 ==> spec_parse_data(bytes) == Err::<(u16, Seq<u8>), ParseError>(
            ParseError::TooLong,
        ),
        5 <= bytes.len() <= 516 && be16(bytes[0], bytes[1]) == 3 ==> spec_parse_data(bytes) is Ok,
{
}

/// Opcode fidelity for Data: decoding succeeds only under the Data
/// opcode, and a length-valid buffer with any other prefix is rejected.
pub proof fn lemma_data_opcode_fidelity(bytes: Seq<u8>)
    ensures
        spec_parse_data(bytes) is Ok ==> bytes.len() >= 5 && be16(bytes[0], bytes[1]) == 3,
        5 <= bytes.len() <= 516 && be16(bytes[0], bytes[1]) != 3 ==> spec_parse_data(bytes)
            == Err::<(u16, Seq<u8>), ParseError>(ParseError::InvalidOpcode),
{
}

/// What decoding an Acknowledgement yields: the block number of a buffer
/// of exactly 4 bytes under the Acknowledgement opcode.
pub open spec fn spec_parse_ack(bytes: Seq<u8>) -> Result<u16, ParseError> {
    if bytes.len() < 4 {
        Err(ParseError::TooShort)
    } else if bytes.len() > 4 {
        Err(ParseError::TooLong)
    } else if MessageType::spec_from_opcode(be16(bytes[0], bytes[1])) != Some(
        MessageType::Acknowledgement,
    ) {
        Err(ParseError::InvalidOpcode)
    } else {
        Ok(be16(bytes[2], bytes[3]))
    }
}

/// Confirms receipt of one block.
#[derive(Debug, PartialEq, Eq)]
pub struct AcknowledgementMessage {
    msg_type: MessageType,
    block_num: DataMessageBlockNumber,
}

impl AcknowledgementMessage {
    /// The message's tag field.
    pub closed spec fn spec_msg_type(self) -> MessageType {
        self.msg_type
    }

    /// The block number the message carries.
    pub closed spec fn spec_block_num(self) -> DataMessageBlockNumber {
        self.block_num
    }

    /// Builds an Acknowledgement for a block number.
    pub fn new(block_num: DataMessageBlockNumber) -> (r: Self)
        ensures
            r.wf(),
            r.spec_block_num() == block_num,
    {
        AcknowledgementMessage { msg_type: MessageType::Acknowledgement, block_num }
    }

    /// The acknowledged block number.
    pub fn block_num(&self) -> (r: DataMessageBlockNumber)
        ensures
            r == self.spec_block_num(),
    {
        self.block_num
    }
}

impl Clone for AcknowledgementMessage {
    /// The copy carries the same tag and block number.
    fn clone(&self) -> (res: Self)
        ensures
            res == *self,
    {
        AcknowledgementMessage { msg_type: self.msg_type, block_num: self.block_num }
    }
}

impl Message for AcknowledgementMessage {
    open spec fn wf(&self) -> bool {
        self.spec_msg_type() == MessageType::Acknowledgement
    }

    open spec fn wire(&self) -> Seq<u8> {
        be_bytes(4) + be_bytes(self.spec_block_num())
    }

    open spec fn spec_opcode(&self) -> MessageOpcode {
        4
    }

    fn opcode(&self) -> (r: MessageOpcode) {
        MessageType::to_opcode(self.msg_type)
    }

    fn to_bytes(&self) -> (r: Vec<u8>) {
        let mut bytes: Vec<u8> = Vec::new();
        push_be16(&mut bytes, MessageType::to_opcode(self.msg_type));
        push_be16(&mut bytes, self.block_num);
        assert(bytes@ =~= self.wire());
        bytes
    }

    fn from_bytes(bytes: Vec<u8>) -> (r: Result<Self, ParseError>)
        ensures
            match r {
                Ok(m) => spec_parse_ack(bytes@) == Ok::<u16, ParseError>(m.spec_block_num()),
                Err(e) => spec_parse_ack(bytes@) == Err::<u16, ParseError>(e),
            },
    {
        if bytes.len() < 4 {
            return Err(ParseError::TooShort);
        }
        if bytes.len() > 4 {
            return Err(ParseError::TooLong);
        }
        let opcode: MessageOpcode = read_be16(bytes[0], bytes[1]);
        let type_matches: bool = match MessageType::from_opcode(opcode) {
            Some(t) => t == MessageType::Acknowledgement,
            None => false,
        };
        if !type_matches {
            return Err(ParseError::InvalidOpcode);
        }
        let block_num: DataMessageBlockNumber = read_be16(bytes[2], bytes[3]);
        Ok(AcknowledgementMessage::new(block_num))
    }
}

/// Round trip: the wire form of an Acknowledgement is exactly 4 bytes
/// and decodes to the same block number.
pub proof fn lemma_acknowledgement_round_trip(m: AcknowledgementMessage)
    requires
        m.wf(),
    ensures
        m.wire().len() == 4,
        spec_parse_ack(m.wire()) == Ok::<u16, ParseError>(m.spec_block_num()),
{
    let w = m.wire();
    lemma_be_bytes_roundtrip(4);
    lemma_be_bytes_roundtrip(m.spec_block_num());
    assert(be16(w[0], w[1]) == 4);
    assert(be16(w[2], w[3]) == m.spec_block_num());
}

/// Length boundaries for Acknowledgement: only buffers of exactly 4
/// bytes pass the length rule, and such a buffer with the right opcode
/// decodes.
pub proof fn lemma_ack_length_boundaries(bytes: Seq<u8>)
    ensures
        bytes.len() < 4 ==> spec_parse_ack(bytes) == Err::<u16, ParseError>(ParseError::TooShort),
        bytes.len() > 4 ==> spec_parse_ack(bytes) == Err::<u16, ParseError>(ParseError::TooLong),
        bytes.len() == 4 && be16(bytes[0], bytes[1]) == 4 ==> spec_parse_ack(bytes) is Ok,
{
}

/// Opcode fidelity for Acknowledgement: decoding succeeds only under the
/// Acknowledgement opcode, and a 4-byte buffer with any other prefix is
/// rejected.
pub proof fn lemma_ack_opcode_fidelity(bytes: Seq<u8>)
    ensures
        spec_parse_ack(bytes) is Ok ==> bytes.len() == 4 && be16(bytes[0], bytes[1]) == 4,
        bytes.len() == 4 && be16(bytes[0], bytes[1]) != 4 ==> spec_parse_ack(bytes) == Err::<
            u16,
            ParseError,
        >(ParseError::InvalidOpcode),
{
}

/// What decoding an Error message yields: the error code and the
/// null-terminated message text after it, or the first error hit. Bytes
/// after the terminator are ignored.
pub open spec fn spec_parse_error_msg(bytes: Seq<u8>) -> Result<(u16, Seq<char>), ParseError> {
    if bytes.len() < 5 {
        Err(ParseError::TooShort)
    } else if MessageType::spec_from_opcode(be16(bytes[0], bytes[1])) != Some(MessageType::Error) {
        Err(ParseError::InvalidOpcode)
    } else {
        match find_null_spec(bytes, 4) {
            None => Err(ParseError::InvalidErrorMessage),
            Some(p) => if p == 4 {
                Err(ParseError::NoErrorMessage)
            } else {
                Ok((be16(bytes[2], bytes[3]), bytes_chars(bytes.subrange(4, p))))
            },
        }
    }
}

/// Reports a terminal failure of the exchange.
#[derive(Debug, PartialEq, Eq)]
pub struct ErrorMessage {
    msg_type: MessageType,
    code: ErrorMessageCode,
    message: String,
}

impl ErrorMessage {
    /// The message's tag field.
    pub closed spec fn spec_msg_type(self) -> MessageType {
        self.msg_type
    }

    /// The numeric error code the message carries.
    pub closed spec fn spec_code(self) -> ErrorMessageCode {
        self.code
    }

    /// The error text the message carries.
    pub closed spec fn spec_message(self) -> Seq<char> {
        self.message@
    }

    /// Builds an Error message; the text must be valid wire text.
    pub fn new(code: ErrorMessageCode, message: String) -> (r: Self)
        requires
            valid_text(message@),
        ensures
            r.wf(),
            r.spec_code() == code,
            r.spec_message() == message@,
    {
        ErrorMessage { msg_type: MessageType::Error, code, message }
    }

    /// The numeric error code.
    pub fn code(&self) -> (r: ErrorMessageCode)
        ensures
            r == self.spec_code(),
    {
        self.code
    }

    /// The human-readable error text.
    pub fn message(&self) -> (r: String)
        ensures
            r@ == self.spec_message(),
    {
        self.message.clone()
    }
}

impl Clone for ErrorMessage {
    /// The copy carries the same tag, code and text.
    fn clone(&self) -> (res: Self)
        ensures
            res == *self,
    {
        ErrorMessage { msg_type: self.msg_type, code: self.code, message: self.message.clone() }
    }
}

impl Message for ErrorMessage {
    open spec fn wf(&self) -> bool {
        self.spec_msg_type() == MessageType::Error && valid_text(self.spec_message())
    }

    open spec fn wire(&self) -> Seq<u8> {
        be_bytes(5) + be_bytes(self.spec_code()) + text_bytes(self.spec_message()) + seq![0u8]
    }

    open spec fn spec_opcode(&self) -> MessageOpcode {
        5
    }

    fn opcode(&self) -> (r: MessageOpcode) {
        MessageType::to_opcode(self.msg_type)
    }

    fn to_bytes(&self) -> (r: Vec<u8>) {
        let mut bytes: Vec<u8> = Vec::new();
        push_be16(&mut bytes, MessageType::to_opcode(self.msg_type));
        push_be16(&mut bytes, self.code);
        push_text(&mut bytes, &self.message);
        bytes.push(0u8);
        assert(bytes@ =~= self.wire());
        bytes
    }

    fn from_bytes(bytes: Vec<u8>) -> (r: Result<Self, ParseError>)
        ensures
            match r {
                Ok(m) => spec_parse_error_msg(bytes@) == Ok::<(u16, Seq<char>), ParseError>(
                    (m.spec_code(), m.spec_message()),
                ),
                Err(e) => spec_parse_error_msg(bytes@) == Err::<(u16, Seq<char>), ParseError>(e),
            },
    {
        if bytes.len() < 5 {
            return Err(ParseError::TooShort);
        }
        let opcode: MessageOpcode = read_be16(bytes[0], bytes[1]);
        let type_matches: bool = match MessageType::from_opcode(opcode) {
            Some(t) => t == MessageType::Error,
            None => false,
        };
        if !type_matches {
            return Err(ParseError::InvalidOpcode);
        }
        let code: ErrorMessageCode = read_be16(bytes[2], bytes[3]);
        match find_null(&bytes, 4) {
            None => Err(ParseError::InvalidErrorMessage),
            Some(p) => {
                proof {
                    lemma_find_null_spec(bytes@, 4);
                }
                if p == 4 {
                    return Err(ParseError::NoErrorMessage);
                }
                let message: String = bytes_to_text(&bytes, 4, p);
                assert(valid_text(message@));
                Ok(ErrorMessage::new(code, message))
            },
        }
    }
}

/// Round trip: decoding the wire form of a well-formed Error message
/// yields the same code and text.
pub proof fn lemma_error_round_trip(m: ErrorMessage)
    requires
        m.wf(),
    ensures
        spec_parse_error_msg(m.wire()) == Ok::<(u16, Seq<char>), ParseError>(
            (m.spec_code(), m.spec_message()),
        ),
{
    let w = m.wire();
    let p = 4 + m.spec_message().len() as int;
    lemma_be_bytes_roundtrip(5);
    lemma_be_bytes_roundtrip(m.spec_code());
    assert(be16(w[0], w[1]) == 5);
    assert(be16(w[2], w[3]) == m.spec_code());
    assert forall|j: int| 4 <= j < p implies w[j] != 0 by {
        assert(w[j] == text_bytes(m.spec_message())[j - 4]);
        assert(single_byte_char(m.spec_message()[j - 4]));
    }
    assert(w[p] == 0);
    lemma_find_null_at(w, 4, p);
    assert(w.subrange(4, p) =~= text_bytes(m.spec_message()));
    lemma_text_roundtrip(m.spec_message());
}

/// Opcode fidelity for Error: decoding succeeds only under the Error
/// opcode, and a length-valid buffer with any other prefix is rejected.
pub proof fn lemma_error_opcode_fidelity(bytes: Seq<u8>)
    ensures
        spec_parse_error_msg(bytes) is Ok ==> bytes.len() >= 5 && be16(bytes[0], bytes[1]) == 5,
        bytes.len() >= 5 && be16(bytes[0], bytes[1]) != 5 ==> spec_parse_error_msg(bytes) == Err::<
            (u16, Seq<char>),
            ParseError,
        >(ParseError::InvalidOpcode),
{
}

/// Any one of the five message kinds, as a session record stores it.
#[derive(Debug, PartialEq, Eq)]
pub enum AnyMessage {
    ReadRequest(ReadRequestMessage),
    WriteRequest(WriteRequestMessage),
    Data(DataMessage),
    Acknowledgement(AcknowledgementMessage),
    Error(ErrorMessage),
}

impl AnyMessage {
    /// Both values are the same kind of message and carry the same
    /// field contents.
    pub open spec fn content_eq(self, other: AnyMessage) -> bool {
        match (self, other) {
            (AnyMessage::ReadRequest(a), AnyMessage::ReadRequest(b)) => a.spec_msg_type()
                == b.spec_msg_type() && a.spec_filename() == b.spec_filename() && a.spec_mode()
                == b.spec_mode(),
            (AnyMessage::WriteRequest(a), AnyMessage::WriteRequest(b)) => a.spec_msg_type()
                == b.spec_msg_type() && a.spec_filename() == b.spec_filename() && a.spec_mode()
                == b.spec_mode(),
            (AnyMessage::Data(a), AnyMessage::Data(b)) => a.spec_msg_type() == b.spec_msg_type()
                && a.spec_block_num() == b.spec_block_num() && a.spec_data() == b.spec_data(),
            (AnyMessage::Acknowledgement(a), AnyMessage::Acknowledgement(b)) => a.spec_msg_type()
                == b.spec_msg_type() && a.spec_block_num() == b.spec_block_num(),
            (AnyMessage::Error(a), AnyMessage::Error(b)) => a.spec_msg_type() == b.spec_msg_type()
                && a.spec_code() == b.spec_code() && a.spec_message() == b.spec_message(),
            _ => false,
        }
    }
}

impl Clone for AnyMessage {
    /// The copy is the same kind of message with the same contents.
    fn clone(&self) -> (res: Self)
        ensures
            res.content_eq(*self),
    {
        match self {
            AnyMessage::ReadRequest(m) => AnyMessage::ReadRequest(m.clone()),
            AnyMessage::WriteRequest(m) => AnyMessage::WriteRequest(m.clone()),
            AnyMessage::Data(m) => AnyMessage::Data(m.clone()),
            AnyMessage::Acknowledgement(m) => AnyMessage::Acknowledgement(m.clone()),
            AnyMessage::Error(m) => AnyMessage::Error(m.clone()),
        }
    }
}

} // verus!
