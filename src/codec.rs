//! The codec contract (`Nl`), alignment to the 4-byte unit, and the codecs
//! of the fixed-width integers.
use crate::buffer::{
    buf_len, buf_view, frozen_len, frozen_view, get_byte, i32_bytes, read_i32, read_u16, read_u32,
    set_byte, u16_bytes, u32_bytes, write_i32, write_u16, write_u32,
};
use crate::err::{DeError, DeErrorKind, SerError, SerErrorKind};
use bytes::{Bytes, BytesMut};
use vstd::prelude::*;

verus! {

/// Alignment unit of the wire format, in bytes.
pub const NL_ALIGNTO: usize = 4;

/// Number of zero bytes that bring `n` to a multiple of the alignment unit.
pub open spec fn pad_len(n: nat) -> nat {
    if n % 4 == 0 {
        0
    } else {
        (4 - n % 4) as nat
    }
}

/// `n` rounded up to a multiple of the alignment unit.
pub open spec fn align_up(n: nat) -> nat {
    n + pad_len(n)
}

/// An aligned length is at least the length, a multiple of four, and less
/// than four bytes longer.
pub proof fn lemma_alignment(n: nat)
    ensures
        align_up(n) >= n,
        align_up(n) % 4 == 0,
        align_up(n) - n < 4,
{
}

/// Round `len` up to a multiple of the alignment unit.
pub fn alignto(len: usize) -> (r: usize)
    requires
        len + 3 <= usize::MAX,
    ensures
        r == align_up(len as nat),
{
    len + padding(len)
}

/// Number of zero bytes that bring `len` to a multiple of the alignment unit.
pub fn padding(len: usize) -> (r: usize)
    ensures
        r == pad_len(len as nat),
{
    if len % NL_ALIGNTO == 0 {
        0
    } else {
        NL_ALIGNTO - len % NL_ALIGNTO
    }
}

/// `n` zero bytes.
pub open spec fn zeros(n: nat) -> Seq<u8> {
    Seq::new(n, |i: int| 0u8)
}

/// What a serialization call returned, against the outcome its type
/// prescribes for a buffer of `len` bytes. On every failure the buffer that
/// comes back has the length of the one that was handed in.
pub open spec fn serialized(
    r: Result<BytesMut, SerError>,
    len: nat,
    expected: Result<Seq<u8>, SerErrorKind>,
) -> bool {
    match r {
        Ok(b) => expected == Ok::<Seq<u8>, SerErrorKind>(buf_view(b)) && buf_view(b).len() == len,
        Err(e) => expected == Err::<Seq<u8>, SerErrorKind>(e.kind()) && e.buffer().len() == len,
    }
}

/// What a deserialization call returned, against the outcome its type prescribes.
pub open spec fn deserialized<T>(r: Result<T, DeError>, expected: Result<T, DeErrorKind>) -> bool {
    match r {
        Ok(v) => expected == Ok::<T, DeErrorKind>(v),
        Err(e) => expected == Err::<T, DeErrorKind>(e.kind()),
    }
}

/// The capability of every type that travels on the wire.
pub trait Nl: Sized {
    /// The value can be measured and encoded with the machine's integers.
    spec fn wf(&self) -> bool;

    /// Exact unpadded wire length of this value.
    spec fn spec_size(&self) -> nat;

    /// The wire length shared by every value of the type, if there is one.
    spec fn spec_type_size() -> Option<usize>;

    /// The bytes written into a buffer of `len` bytes, or the error that comes instead.
    spec fn spec_serialize(&self, len: nat) -> Result<Seq<u8>, SerErrorKind>;

    /// The value parsed from `b`, or the error that comes instead.
    spec fn spec_deserialize(b: Seq<u8>) -> Result<Self, DeErrorKind>;

    /// Values that parsing their own encoding gives back.
    spec fn canonical(&self) -> bool;

    /// A static size, where the type has one, is the size of each value.
    proof fn lemma_type_size(&self)
        requires
            self.wf(),
        ensures
            Self::spec_type_size() matches Some(n) ==> self.spec_size() == n,
    ;

    /// A successful serialization fills the whole buffer.
    proof fn lemma_serialize_len(&self, len: nat)
        requires
            self.wf(),
        ensures
            self.spec_serialize(len) matches Ok(w) ==> w.len() == len,
    ;

    /// Exact unpadded wire length of this value.
    fn size(&self) -> (r: usize)
        requires
            self.wf(),
        ensures
            r == self.spec_size(),
    ;

    /// The wire length shared by every value of the type, if there is one.
    fn type_size() -> (r: Option<usize>)
        ensures
            r == Self::spec_type_size(),
    ;

    /// Write this value into `mem` and hand it back, or hand it back inside the error.
    fn serialize(&self, mem: BytesMut) -> (r: Result<BytesMut, SerError>)
        requires
            self.wf(),
        ensures
            serialized(r, buf_view(mem).len(), self.spec_serialize(buf_view(mem).len())),
    ;

    /// Parse a value from `mem`. A canonical value whose encoding into a
    /// buffer of this length is exactly these bytes comes back unchanged.
    fn deserialize(mem: Bytes) -> (r: Result<Self, DeError>)
        ensures
            deserialized(r, Self::spec_deserialize(frozen_view(mem))),
            forall|v: Self|
                v.wf() && v.canonical() && #[trigger] v.spec_serialize(frozen_view(mem).len())
                    == Ok::<Seq<u8>, SerErrorKind>(frozen_view(mem)) ==> r == Ok::<Self, DeError>(
                    v,
                ),
    ;

    /// The size rounded up to the alignment unit.
    fn asize(&self) -> (r: usize)
        requires
            self.wf(),
            self.spec_size() + 3 <= usize::MAX,
        ensures
            r == align_up(self.spec_size()),
    {
        alignto(self.size())
    }
}

/// Outcome of encoding a fixed-width integer whose bytes are `bytes` into a
/// buffer of `len` bytes.
pub open spec fn int_serialize(len: nat, bytes: Seq<u8>) -> Result<Seq<u8>, SerErrorKind> {
    if len < bytes.len() {
        Err(SerErrorKind::UnexpectedEOB)
    } else if len > bytes.len() {
        Err(SerErrorKind::BufferNotFilled)
    } else {
        Ok(bytes)
    }
}

/// Error, if any, of parsing a fixed-width integer of `width` bytes from `len` bytes.
pub open spec fn int_de_error(len: nat, width: nat) -> Option<DeErrorKind> {
    if len < width {
        Some(DeErrorKind::UnexpectedEOB)
    } else if len > width {
        Some(DeErrorKind::BufferNotParsed)
    } else {
        None
    }
}

/// The `u16` whose native-endian encoding is `b`.
pub open spec fn u16_of(b: Seq<u8>) -> u16 {
    choose|x: u16| u16_bytes(x) == b
}

/// The `u32` whose native-endian encoding is `b`.
pub open spec fn u32_of(b: Seq<u8>) -> u32 {
    choose|x: u32| u32_bytes(x) == b
}

/// The `i32` whose native-endian encoding is `b`.
pub open spec fn i32_of(b: Seq<u8>) -> i32 {
    choose|x: i32| i32_bytes(x) == b
}

impl Nl for u8 {
    open spec fn wf(&self) -> bool {
        true
    }

    open spec fn spec_size(&self) -> nat {
        1
    }

    open spec fn spec_type_size() -> Option<usize> {
        Some(1)
    }

    open spec fn spec_serialize(&self, len: nat) -> Result<Seq<u8>, SerErrorKind> {
        int_serialize(len, seq![*self])
    }

    open spec fn spec_deserialize(b: Seq<u8>) -> Result<u8, DeErrorKind> {
        match int_de_error(b.len(), 1) {
            Some(k) => Err(k),
            None => Ok(b[0]),
        }
    }

    open spec fn canonical(&self) -> bool {
        true
    }

    proof fn lemma_type_size(&self) {
    }

    proof fn lemma_serialize_len(&self, len: nat) {
    }

    fn size(&self) -> usize {
        1
    }

    fn type_size() -> Option<usize> {
        Some(1)
    }

    fn serialize(&self, mem: BytesMut) -> (r: Result<BytesMut, SerError>) {
        let len = buf_len(&mem);
        if len < 1 {
            return Err(SerError::UnexpectedEOB(mem));
        } else if len > 1 {
            return Err(SerError::BufferNotFilled(mem));
        }
        let mut mem = mem;
        set_byte(&mut mem, 0, *self);
        assert(buf_view(mem) =~= seq![*self]);
        Ok(mem)
    }

    fn deserialize(mem: Bytes) -> (r: Result<u8, DeError>) {
        let len = frozen_len(&mem);
        if len < 1 {
            Err(DeError::UnexpectedEOB)
        } else if len > 1 {
            Err(DeError::BufferNotParsed)
        } else {
            let r = get_byte(&mem, 0);
            assert forall|v: u8|
                v.wf() && v.canonical() && #[trigger] v.spec_serialize(frozen_view(mem).len())
                    == Ok::<Seq<u8>, SerErrorKind>(frozen_view(mem)) implies r == v by {
                assert(seq![v][0] == v);
            }
            Ok(r)
        }
    }
}

impl Nl for u16 {
    open spec fn wf(&self) -> bool {
        true
    }

    open spec fn spec_size(&self) -> nat {
        2
    }

    open spec fn spec_type_size() -> Option<usize> {
        Some(2)
    }

    open spec fn spec_serialize(&self, len: nat) -> Result<Seq<u8>, SerErrorKind> {
        int_serialize(len, u16_bytes(*self))
    }

    open spec fn spec_deserialize(b: Seq<u8>) -> Result<u16, DeErrorKind> {
        match int_de_error(b.len(), 2) {
            Some(k) => Err(k),
            None => Ok(u16_of(b)),
        }
    }

    open spec fn canonical(&self) -> bool {
        true
    }

    proof fn lemma_type_size(&self) {
    }

    proof fn lemma_serialize_len(&self, len: nat) {
    }

    fn size(&self) -> usize {
        2
    }

    fn type_size() -> Option<usize> {
        Some(2)
    }

    fn serialize(&self, mem: BytesMut) -> (r: Result<BytesMut, SerError>) {
        let len = buf_len(&mem);
        if len < 2 {
            return Err(SerError::UnexpectedEOB(mem));
        } else if len > 2 {
            return Err(SerError::BufferNotFilled(mem));
        }
        let mut mem = mem;
        write_u16(&mut mem, *self);
        Ok(mem)
    }

    fn deserialize(mem: Bytes) -> (r: Result<u16, DeError>) {
        let len = frozen_len(&mem);
        if len < 2 {
            Err(DeError::UnexpectedEOB)
        } else if len > 2 {
            Err(DeError::BufferNotParsed)
        } else {
            let r = read_u16(&mem);
            Ok(r)
        }
    }
}

impl Nl for u32 {
    open spec fn wf(&self) -> bool {
        true
    }

    open spec fn spec_size(&self) -> nat {
        4
    }

    open spec fn spec_type_size() -> Option<usize> {
        Some(4)
    }

    open spec fn spec_serialize(&self, len: nat) -> Result<Seq<u8>, SerErrorKind> {
        int_serialize(len, u32_bytes(*self))
    }

    open spec fn spec_deserialize(b: Seq<u8>) -> Result<u32, DeErrorKind> {
        match int_de_error(b.len(), 4) {
            Some(k) => Err(k),
            None => Ok(u32_of(b)),
        }
    }

    open spec fn canonical(&self) -> bool {
        true
    }

    proof fn lemma_type_size(&self) {
    }

    proof fn lemma_serialize_len(&self, len: nat) {
    }

    fn size(&self) -> usize {
        4
    }

    fn type_size() -> Option<usize> {
        Some(4)
    }

    fn serialize(&self, mem: BytesMut) -> (r: Result<BytesMut, SerError>) {
        let len = buf_len(&mem);
        if len < 4 {
            return Err(SerError::UnexpectedEOB(mem));
        } else if len > 4 {
            return Err(SerError::BufferNotFilled(mem));
        }
        let mut mem = mem;
        write_u32(&mut mem, *self);
        Ok(mem)
    }

    fn deserialize(mem: Bytes) -> (r: Result<u32, DeError>) {
        let len = frozen_len(&mem);
        if len < 4 {
            Err(DeError::UnexpectedEOB)
        } else if len > 4 {
            Err(DeError::BufferNotParsed)
        } else {
            let r = read_u32(&mem);
            Ok(r)
        }
    }
}

impl Nl for i32 {
    open spec fn wf(&self) -> bool {
        true
    }

    open spec fn spec_size(&self) -> nat {
        4
    }

    open spec fn spec_type_size() -> Option<usize> {
        Some(4)
    }

    open spec fn spec_serialize(&self, len: nat) -> Result<Seq<u8>, SerErrorKind> {
        int_serialize(len, i32_bytes(*self))
    }

    open spec fn spec_deserialize(b: Seq<u8>) -> Result<i32, DeErrorKind> {
        match int_de_error(b.len(), 4) {
            Some(k) => Err(k),
            None => Ok(i32_of(b)),
        }
    }

    open spec fn canonical(&self) -> bool {
        true
    }

    proof fn lemma_type_size(&self) {
    }

    proof fn lemma_serialize_len(&self, len: nat) {
    }

    fn size(&self) -> usize {
        4
    }

    fn type_size() -> Option<usize> {
        Some(4)
    }

    fn serialize(&self, mem: BytesMut) -> (r: Result<BytesMut, SerError>) {
        let len = buf_len(&mem);
        if len < 4 {
            return Err(SerError::UnexpectedEOB(mem));
        } else if len > 4 {
            return Err(SerError::BufferNotFilled(mem));
        }
        let mut mem = mem;
        write_i32(&mut mem, *self);
        Ok(mem)
    }

    fn deserialize(mem: Bytes) -> (r: Result<i32, DeError>) {
        let len = frozen_len(&mem);
        if len < 4 {
            Err(DeError::UnexpectedEOB)
        } else if len > 4 {
            Err(DeError::BufferNotParsed)
        } else {
            let r = read_i32(&mem);
            Ok(r)
        }
    }
}

} // verus!
