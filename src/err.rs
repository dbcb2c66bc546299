//! Error types.
//!
//! * `NlError`: errors of the protocol exchange (no ACK, wrong sequence number or PID).
//! * `SerError`: serialization errors; each one hands the caller's buffer back.
//! * `DeError`: deserialization errors.
//!
//! `Nlmsgerr` is not a failure of the codec: it is the error packet that a
//! netlink socket sends in answer to a request that failed.
use crate::buffer::{buf_view, frozen_len, frozen_view, i32_bytes, unsplit};
use crate::codec::{align_up, i32_of, pad_len, padding, zeros, Nl};
use crate::consts::NlType;
use crate::drive::{drive_deserialize, drive_end, drive_pad, drive_serialize};
use crate::nl::{NlEmpty, Nlmsghdr};
use bytes::{Bytes, BytesMut};
use vstd::prelude::*;
use vstd::string::{to_string_from_display_ensures, StringExecFns};

verus! {

#[verifier::external_type_specification]
#[verifier::external_body]
pub struct ExIoError(std::io::Error);

#[verifier::external_type_specification]
#[verifier::external_body]
pub struct ExUtf8Error(std::str::Utf8Error);

#[verifier::external_type_specification]
#[verifier::external_body]
pub struct ExFromUtf8Error(std::string::FromUtf8Error);

/// `m` is the text that `Display` gives for `v`.
pub open spec fn displays_as<D: std::fmt::Display>(v: D, m: Seq<char>) -> bool {
    exists|t: String| to_string_from_display_ensures::<D>(&v, t) && t@ == m
}

/// Netlink packet that carries an error code and the header of the request that failed.
#[derive(Debug, PartialEq)]
pub struct Nlmsgerr<T> {
    /// Error code
    pub error: libc::c_int,
    /// Packet header for request that failed
    pub nlmsg: Nlmsghdr<T, NlEmpty>,
}

impl<T: NlType> Nl for Nlmsgerr<T> {
    /// The header is well formed, and the padded size fits a 32-bit length.
    open spec fn wf(&self) -> bool {
        self.nlmsg.wf() && self.spec_size() + 3 <= u32::MAX
    }

    open spec fn spec_size(&self) -> nat {
        4 + self.nlmsg.spec_size()
    }

    open spec fn spec_type_size() -> Option<usize> {
        match Nlmsghdr::<T, NlEmpty>::spec_type_size() {
            Some(h) => if h + 4 <= usize::MAX {
                Some((h + 4) as usize)
            } else {
                None
            },
            None => None,
        }
    }

    /// The error code, then the header in a window of its own size, then
    /// zero padding up to the alignment unit.
    open spec fn spec_serialize(&self, len: nat) -> Result<Seq<u8>, SerErrorKind> {
        let e = self.spec_size();
        if len < e {
            Err(SerErrorKind::UnexpectedEOB)
        } else {
            match self.nlmsg.spec_serialize(self.nlmsg.spec_size()) {
                Err(k) => Err(k),
                Ok(wh) => if len < align_up(e) {
                    Err(SerErrorKind::UnexpectedEOB)
                } else if len > align_up(e) {
                    Err(SerErrorKind::BufferNotFilled)
                } else {
                    Ok(i32_bytes(self.error) + wh + zeros(pad_len(e)))
                },
            }
        }
    }

    /// The error code from the first four bytes, the header from the rest.
    open spec fn spec_deserialize(b: Seq<u8>) -> Result<Self, DeErrorKind> {
        if b.len() < 4 {
            Err(DeErrorKind::UnexpectedEOB)
        } else {
            match Nlmsghdr::<T, NlEmpty>::spec_deserialize(b.subrange(4, b.len() as int)) {
                Err(k) => Err(k),
                Ok(nlmsg) => Ok(Nlmsgerr { error: i32_of(b.subrange(0, 4)), nlmsg }),
            }
        }
    }

    open spec fn canonical(&self) -> bool {
        self.nlmsg.canonical()
    }

    proof fn lemma_type_size(&self) {
        self.nlmsg.lemma_type_size();
    }

    proof fn lemma_serialize_len(&self, len: nat) {
        self.nlmsg.lemma_serialize_len(self.nlmsg.spec_size());
    }

    fn size(&self) -> usize {
        self.error.size() + self.nlmsg.size()
    }

    fn type_size() -> Option<usize> {
        match Nlmsghdr::<T, NlEmpty>::type_size() {
            Some(h) => if h <= usize::MAX - 4 {
                Some(h + 4)
            } else {
                None
            },
            None => None,
        }
    }

    fn serialize(&self, mem: BytesMut) -> (r: Result<BytesMut, SerError>) {
        let ghost m = buf_view(mem);
        let ghost hs = self.nlmsg.spec_size();
        proof {
            self.nlmsg.lemma_serialize_len(hs);
        }
        let (buf, pos) = match drive_serialize(&self.error, mem, 0) {
            Ok(x) => x,
            Err(e) => return Err(e),
        };
        let ghost pre = i32_bytes(self.error);
        assert(buf_view(buf) =~= pre + m.skip(pos as int));
        let (buf, pos) = match drive_serialize(&self.nlmsg, buf, pos) {
            Ok(x) => x,
            Err(e) => return Err(e),
        };
        let ghost pre = pre + self.nlmsg.spec_serialize(hs)->Ok_0;
        assert(buf_view(buf) =~= pre + m.skip(pos as int));
        let pad = padding(pos);
        let (buf, pos) = match drive_pad(buf, pos, pad) {
            Ok(x) => x,
            Err(e) => return Err(e),
        };
        let ghost pre = pre + zeros(pad as nat);
        assert(buf_view(buf) =~= pre + m.skip(pos as int));
        match drive_end(buf, pos) {
            Ok(b) => {
                assert(buf_view(b) =~= pre);
                Ok(b)
            },
            Err(e) => Err(e),
        }
    }

    fn deserialize(mem: Bytes) -> (r: Result<Self, DeError>) {
        let ghost b = frozen_view(mem);
        proof {
            Self::lemma_encodings(b);
        }
        let len = frozen_len(&mem);
        let (error, pos) = match drive_deserialize::<libc::c_int>(&mem, 0, 4) {
            Ok(x) => x,
            Err(e) => return Err(e),
        };
        let (nlmsg, _) = match drive_deserialize::<Nlmsghdr<T, NlEmpty>>(&mem, pos, len - pos) {
            Ok(x) => x,
            Err(e) => return Err(e),
        };
        Ok(Nlmsgerr { error, nlmsg })
    }
}

impl<T: NlType> Nlmsgerr<T> {
    /// The layout of every error packet's encoding that `b` can be.
    pub proof fn lemma_encodings(b: Seq<u8>)
        ensures
            forall|c: Self|
                c.wf() && #[trigger] c.spec_serialize(b.len()) == Ok::<Seq<u8>, SerErrorKind>(b)
                    ==> {
                    &&& b.len() == c.spec_size()
                    &&& c.error.spec_serialize(4) == Ok::<Seq<u8>, SerErrorKind>(b.subrange(0, 4))
                    &&& c.nlmsg.spec_serialize((b.len() - 4) as nat) == Ok::<Seq<u8>, SerErrorKind>(
                        b.subrange(4, b.len() as int),
                    )
                },
    {
        assert forall|c: Self|
            c.wf() && #[trigger] c.spec_serialize(b.len()) == Ok::<Seq<u8>, SerErrorKind>(
                b,
            ) implies b.len() == c.spec_size() && c.error.spec_serialize(4) == Ok::<
                Seq<u8>,
                SerErrorKind,
            >(b.subrange(0, 4)) && c.nlmsg.spec_serialize((b.len() - 4) as nat) == Ok::<
                Seq<u8>,
                SerErrorKind,
            >(b.subrange(4, b.len() as int)) by {
            Self::lemma_encoding(c, b);
        }
    }

    /// The layout of a buffer that holds an error packet's encoding: the
    /// header fills it from byte four, with no padding after it.
    pub proof fn lemma_encoding(c: Self, b: Seq<u8>)
        requires
            c.wf(),
            c.spec_serialize(b.len()) == Ok::<Seq<u8>, SerErrorKind>(b),
        ensures
            b.len() == c.spec_size(),
            c.error.spec_serialize(4) == Ok::<Seq<u8>, SerErrorKind>(b.subrange(0, 4)),
            c.nlmsg.spec_serialize((b.len() - 4) as nat) == Ok::<Seq<u8>, SerErrorKind>(
                b.subrange(4, b.len() as int),
            ),
    {
        let hs = c.nlmsg.spec_size();
        let wh = c.nlmsg.spec_serialize(hs)->Ok_0;
        c.nlmsg.lemma_serialize_len(hs);
        c.nlmsg.lemma_layout(wh);
        assert(b.subrange(0, 4) =~= i32_bytes(c.error));
        assert(b.subrange(4, b.len() as int) =~= wh);
    }
}

/// Netlink protocol error
#[derive(Debug)]
pub enum NlError {
    /// Type indicating a message from a converted error
    Msg(String),
    /// No ack was received when `NlmF::Ack` was specified in the request
    NoAck,
    /// The sequence number for the response did not match the request
    BadSeq,
    /// Incorrect PID socket identifier in received message
    BadPid,
}

impl NlError {
    /// The error carrying the message of a serialization error.
    pub fn from_ser_error(e: SerError) -> (r: Self)
        ensures
            r matches NlError::Msg(m) && ser_message(e, m@),
    {
        NlError::Msg(e.message())
    }

    /// The error carrying the description of a deserialization error.
    pub fn from_de_error(e: DeError) -> (r: Self)
        ensures
            r matches NlError::Msg(m) && de_message(e, m@),
    {
        NlError::Msg(String::from_str(e.description()))
    }

    /// The error carrying the text of an I/O error.
    pub fn from_io_error(e: std::io::Error) -> (r: Self)
        ensures
            r matches NlError::Msg(m) && displays_as(e, m@),
    {
        let m = e.to_string();
        NlError::Msg(m)
    }

    /// Create a new error carrying the given message.
    pub fn new(msg: String) -> (r: Self)
        ensures
            r == NlError::Msg(msg),
    {
        NlError::Msg(msg)
    }

    /// Human-readable description of the error.
    pub fn description(&self) -> (r: &str)
        ensures
            match self {
                NlError::Msg(m) => r@ == m@,
                NlError::NoAck => r@ == "No ack received"@,
                NlError::BadSeq => r@ == "Sequence number does not match the request"@,
                NlError::BadPid => r@ == "PID does not match the socket"@,
            },
    {
        match self {
            NlError::Msg(m) => m.as_str(),
            NlError::NoAck => "No ack received",
            NlError::BadSeq => "Sequence number does not match the request",
            NlError::BadPid => "PID does not match the socket",
        }
    }
}

/// The variant of a `SerError`, without its payload.
#[derive(Clone, Copy, Debug, PartialEq, Eq, Structural)]
pub enum SerErrorKind {
    Msg,
    UnexpectedEOB,
    BufferNotFilled,
    IOError,
}

/// Serialization error
#[derive(Debug)]
pub enum SerError {
    /// Abitrary error message
    Msg(String, BytesMut),
    /// The end of the buffer was reached before serialization finished
    UnexpectedEOB(BytesMut),
    /// Serialization did not fill the buffer
    BufferNotFilled(BytesMut),
    /// Wrapper for an `io::Error`
    IOError(std::io::Error, BytesMut),
}

/// `m` is the message of serialization error `e`: its description, with
/// the I/O error's own text after the prefix for `IOError`.
pub open spec fn ser_message(e: SerError, m: Seq<char>) -> bool {
    match e {
        SerError::Msg(s, _) => m == s@,
        SerError::UnexpectedEOB(_) => m
            == "The buffer was too small for the requested serialization operation"@,
        SerError::BufferNotFilled(_) => m
            == "The number of bytes written to the buffer did not fill the given space"@,
        SerError::IOError(err, _) => exists|t: Seq<char>|
            displays_as(err, t) && m == "IO error while serializing: "@ + t,
    }
}

/// `m` is the description of deserialization error `e`.
pub open spec fn de_message(e: DeError, m: Seq<char>) -> bool {
    match e {
        DeError::Msg(s) => m == s@,
        DeError::UnexpectedEOB => m
            == "The buffer was not large enough to complete the deserialize operation"@,
        DeError::BufferNotParsed => m == "Unparsed data left in buffer"@,
        DeError::NullError => m == "A null was found before the end of the buffer"@,
        DeError::NoNullError => m == "No terminating null byte was found in the buffer"@,
    }
}

impl SerError {
    /// The full human-readable message of the error. For `IOError` it is
    /// "IO error while serializing: " followed by the I/O error's own text.
    pub fn message(&self) -> (r: String)
        ensures
            ser_message(*self, r@),
    {
        match self {
            SerError::IOError(e, _) => {
                let t = e.to_string();
                let r = String::from_str("IO error while serializing: ").concat(t.as_str());
                assert(displays_as(*e, t@));
                r
            },
            _ => String::from_str(self.description()),
        }
    }

    pub open spec fn kind(&self) -> SerErrorKind {
        match self {
            SerError::Msg(..) => SerErrorKind::Msg,
            SerError::UnexpectedEOB(..) => SerErrorKind::UnexpectedEOB,
            SerError::BufferNotFilled(..) => SerErrorKind::BufferNotFilled,
            SerError::IOError(..) => SerErrorKind::IOError,
        }
    }

    /// The bytes of the buffer handed back with the error.
    pub open spec fn buffer(&self) -> Seq<u8> {
        match self {
            SerError::Msg(_, b) => buf_view(*b),
            SerError::UnexpectedEOB(b) => buf_view(*b),
            SerError::BufferNotFilled(b) => buf_view(*b),
            SerError::IOError(_, b) => buf_view(*b),
        }
    }

    /// Human-readable description of the error, without the I/O error's
    /// own text (see `message`).
    pub fn description(&self) -> (r: &str)
        ensures
            match self {
                SerError::Msg(m, _) => r@ == m@,
                SerError::UnexpectedEOB(_) => r@
                    == "The buffer was too small for the requested serialization operation"@,
                SerError::BufferNotFilled(_) => r@
                    == "The number of bytes written to the buffer did not fill the given space"@,
                SerError::IOError(..) => r@ == "IO error while serializing"@,
            },
    {
        match self {
            SerError::Msg(m, _) => m.as_str(),
            SerError::UnexpectedEOB(_) => "The buffer was too small for the requested serialization operation",
            SerError::BufferNotFilled(_) => "The number of bytes written to the buffer did not fill the given space",
            SerError::IOError(..) => "IO error while serializing",
        }
    }

    /// Create a new error with the given message as description
    pub fn new(msg: String, bytes: BytesMut) -> (r: Self)
        ensures
            r == SerError::Msg(msg, bytes),
    {
        SerError::Msg(msg, bytes)
    }

    /// Rebuild the buffer of the level above from the part that was split
    /// off before (`start`), the buffer that came back with the error, and
    /// the part that was split off after (`end`), in that order.
    pub fn reconstruct(self, start: Option<BytesMut>, end: Option<BytesMut>) -> (r: Self)
        ensures
            r.kind() == self.kind(),
            r.buffer() == opt_view(start) + self.buffer() + opt_view(end),
            self matches SerError::Msg(m, _) ==> (r matches SerError::Msg(m2, _) && m2 == m),
            self matches SerError::IOError(e, _) ==> (r matches SerError::IOError(e2, _) && e2 == e),
    {
        match self {
            SerError::Msg(m, b) => SerError::Msg(m, rejoin(start, b, end)),
            SerError::UnexpectedEOB(b) => SerError::UnexpectedEOB(rejoin(start, b, end)),
            SerError::BufferNotFilled(b) => SerError::BufferNotFilled(rejoin(start, b, end)),
            SerError::IOError(e, b) => SerError::IOError(e, rejoin(start, b, end)),
        }
    }
}

/// Join an optional prefix, a buffer and an optional suffix, in that order.
fn rejoin(start: Option<BytesMut>, mid: BytesMut, end: Option<BytesMut>) -> (r: BytesMut)
    ensures
        buf_view(r) == opt_view(start) + buf_view(mid) + opt_view(end),
{
    let mut buf = match start {
        Some(mut s) => {
            unsplit(&mut s, mid);
            s
        },
        None => mid,
    };
    if let Some(e) = end {
        unsplit(&mut buf, e);
    }
    buf
}

/// The bytes of an optional buffer; none when it is absent.
pub open spec fn opt_view(b: Option<BytesMut>) -> Seq<u8> {
    match b {
        Some(b) => buf_view(b),
        None => Seq::empty(),
    }
}

/// Deserialization error
#[derive(Debug)]
pub enum DeError {
    /// Abitrary error message
    Msg(String),
    /// The end of the buffer was reached before deserialization finished
    UnexpectedEOB,
    /// Deserialization did not fill the buffer
    BufferNotParsed,
    /// A null byte was found before the end of the serialized `String`
    NullError,
    /// A null byte was not found at the end of the serialized `String`
    NoNullError,
}

/// The variant of a `DeError`, without its payload.
#[derive(Clone, Copy, Debug, PartialEq, Eq, Structural)]
pub enum DeErrorKind {
    Msg,
    UnexpectedEOB,
    BufferNotParsed,
    NullError,
    NoNullError,
}

impl DeError {
    /// The error carrying the text of an I/O error.
    pub fn from_io_error(e: std::io::Error) -> (r: Self)
        ensures
            r matches DeError::Msg(m) && displays_as(e, m@),
    {
        DeError::Msg(e.to_string())
    }

    /// The error carrying the text of an invalid UTF-8 error.
    pub fn from_utf8_error(e: std::str::Utf8Error) -> (r: Self)
        ensures
            r matches DeError::Msg(m) && displays_as(e, m@),
    {
        DeError::Msg(e.to_string())
    }

    /// The error carrying the text of an invalid UTF-8 error.
    pub fn from_string_utf8_error(e: std::string::FromUtf8Error) -> (r: Self)
        ensures
            r matches DeError::Msg(m) && displays_as(e, m@),
    {
        DeError::Msg(e.to_string())
    }

    pub open spec fn kind(&self) -> DeErrorKind {
        match self {
            DeError::Msg(..) => DeErrorKind::Msg,
            DeError::UnexpectedEOB => DeErrorKind::UnexpectedEOB,
            DeError::BufferNotParsed => DeErrorKind::BufferNotParsed,
            DeError::NullError => DeErrorKind::NullError,
            DeError::NoNullError => DeErrorKind::NoNullError,
        }
    }

    /// Human-readable description of the error.
    pub fn description(&self) -> (r: &str)
        ensures
            match self {
                DeError::Msg(m) => r@ == m@,
                DeError::UnexpectedEOB => r@
                    == "The buffer was not large enough to complete the deserialize operation"@,
                DeError::BufferNotParsed => r@ == "Unparsed data left in buffer"@,
                DeError::NullError => r@ == "A null was found before the end of the buffer"@,
                DeError::NoNullError => r@ == "No terminating null byte was found in the buffer"@,
            },
    {
        match self {
            DeError::Msg(m) => m.as_str(),
            DeError::UnexpectedEOB => "The buffer was not large enough to complete the deserialize operation",
            DeError::BufferNotParsed => "Unparsed data left in buffer",
            DeError::NullError => "A null was found before the end of the buffer",
            DeError::NoNullError => "No terminating null byte was found in the buffer",
        }
    }

    /// Create new error carrying the given message.
    pub fn new(msg: String) -> (r: Self)
        ensures
            r == DeError::Msg(msg),
    {
        DeError::Msg(msg)
    }
}

impl From<SerError> for NlError {
    fn from(v: SerError) -> (r: Self) {
        NlError::from_ser_error(v)
    }
}

/// A message's `String` is known only by its text, so the conversion
/// promises no more than the inherent function it calls.
impl vstd::std_specs::convert::FromSpecImpl<SerError> for NlError {
    open spec fn obeys_from_spec() -> bool {
        false
    }

    open spec fn from_spec(v: SerError) -> Self {
        NlError::Msg(choose|m: String| #[trigger] ser_message(v, m@))
    }
}

impl From<DeError> for NlError {
    fn from(v: DeError) -> (r: Self) {
        NlError::from_de_error(v)
    }
}

/// A message's `String` is known only by its text, so the conversion
/// promises no more than the inherent function it calls.
impl vstd::std_specs::convert::FromSpecImpl<DeError> for NlError {
    open spec fn obeys_from_spec() -> bool {
        false
    }

    open spec fn from_spec(v: DeError) -> Self {
        NlError::Msg(choose|m: String| #[trigger] de_message(v, m@))
    }
}

impl From<std::io::Error> for NlError {
    fn from(v: std::io::Error) -> (r: Self) {
        NlError::from_io_error(v)
    }
}

/// A message's `String` is known only by its text, so the conversion
/// promises no more than the inherent function it calls.
impl vstd::std_specs::convert::FromSpecImpl<std::io::Error> for NlError {
    open spec fn obeys_from_spec() -> bool {
        false
    }

    open spec fn from_spec(v: std::io::Error) -> Self {
        NlError::Msg(choose|m: String| #[trigger] displays_as(v, m@))
    }
}

impl From<std::io::Error> for DeError {
    fn from(v: std::io::Error) -> (r: Self) {
        DeError::from_io_error(v)
    }
}

/// A message's `String` is known only by its text, so the conversion
/// promises no more than the inherent function it calls.
impl vstd::std_specs::convert::FromSpecImpl<std::io::Error> for DeError {
    open spec fn obeys_from_spec() -> bool {
        false
    }

    open spec fn from_spec(v: std::io::Error) -> Self {
        DeError::Msg(choose|m: String| #[trigger] displays_as(v, m@))
    }
}

impl From<std::str::Utf8Error> for DeError {
    fn from(v: std::str::Utf8Error) -> (r: Self) {
        DeError::from_utf8_error(v)
    }
}

/// A message's `String` is known only by its text, so the conversion
/// promises no more than the inherent function it calls.
impl vstd::std_specs::convert::FromSpecImpl<std::str::Utf8Error> for DeError {
    open spec fn obeys_from_spec() -> bool {
        false
    }

    open spec fn from_spec(v: std::str::Utf8Error) -> Self {
        DeError::Msg(choose|m: String| #[trigger] displays_as(v, m@))
    }
}

impl From<std::string::FromUtf8Error> for DeError {
    fn from(v: std::string::FromUtf8Error) -> (r: Self) {
        DeError::from_string_utf8_error(v)
    }
}

/// A message's `String` is known only by its text, so the conversion
/// promises no more than the inherent function it calls.
impl vstd::std_specs::convert::FromSpecImpl<std::string::FromUtf8Error> for DeError {
    open spec fn obeys_from_spec() -> bool {
        false
    }

    open spec fn from_spec(v: std::string::FromUtf8Error) -> Self {
        DeError::Msg(choose|m: String| #[trigger] displays_as(v, m@))
    }
}

} // verus!
