//! The top level netlink header. Every netlink message is wrapped in an
//! `Nlmsghdr`, whose payload can be any type that implements `Nl`.
use crate::buffer::{buf_len, buf_view, frozen_view, u16_bytes, u32_bytes};
use crate::codec::{align_up, padding, pad_len, u16_of, u32_of, zeros, Nl};
use crate::consts::{NlType, NlmFFlags};
use crate::drive::{
    drive_de_end, drive_deserialize, drive_end, drive_pad, drive_serialize, drive_strip,
    static_size,
};
use crate::err::{DeError, DeErrorKind, SerError, SerErrorKind};
use bytes::{Bytes, BytesMut};
use vstd::prelude::*;

verus! {

/// Top level netlink header and payload
#[derive(Debug, PartialEq)]
pub struct Nlmsghdr<T, P> {
    /// Length of the netlink message
    pub nl_len: u32,
    /// Type of the netlink message
    pub nl_type: T,
    /// Flags indicating properties of the request or response
    pub nl_flags: NlmFFlags,
    /// Sequence number for netlink protocol
    pub nl_seq: u32,
    /// ID of the netlink destination for requests and source for responses
    pub nl_pid: u32,
    /// Payload of netlink message
    pub nl_payload: P,
}

/// Sizes of the header's fields other than the type and the payload:
/// length (4), flags (2), sequence number (4) and PID (4).
pub open spec fn fixed_fields_size() -> nat {
    14
}

impl<T: NlType, P: Nl> Nlmsghdr<T, P> {
    /// Offset of the flags field.
    pub open spec fn flags_at(self) -> nat {
        4 + self.nl_type.spec_size()
    }

    /// Offset of the payload.
    pub open spec fn payload_at(self) -> nat {
        self.flags_at() + 10
    }

    /// A canonical header is its own encoding parsed back: type and payload
    /// are canonical and of static size, and the declared length covers the
    /// fields and rounds up to the same aligned size as the real size.
    pub open spec fn header_canonical(self) -> bool {
        &&& self.nl_type.canonical()
        &&& self.nl_payload.canonical()
        &&& T::spec_type_size() is Some
        &&& P::spec_type_size() is Some
        &&& self.nl_len as nat >= self.spec_size()
        &&& align_up(self.nl_len as nat) == align_up(self.spec_size())
    }

    /// Create a new top level netlink packet with a payload. The length is
    /// the packet's own size unless one is given.
    pub fn new(
        nl_len: Option<u32>,
        nl_type: T,
        nl_flags: NlmFFlags,
        nl_seq: Option<u32>,
        nl_pid: Option<u32>,
        nl_payload: P,
    ) -> (r: Self)
        requires
            nl_type.wf(),
            nl_payload.wf(),
            fixed_fields_size() + nl_type.spec_size() + nl_payload.spec_size() + 3 <= u32::MAX,
        ensures
            r.wf(),
            r.nl_type == nl_type,
            r.nl_flags == nl_flags,
            r.nl_seq == (match nl_seq {
                Some(s) => s,
                None => 0,
            }),
            r.nl_pid == (match nl_pid {
                Some(p) => p,
                None => 0,
            }),
            r.nl_payload == nl_payload,
            r.nl_len as nat == (match nl_len {
                Some(l) => l as nat,
                None => r.spec_size(),
            }),
    {
        let mut nl = Nlmsghdr {
            nl_type,
            nl_flags,
            nl_seq: match nl_seq {
                Some(s) => s,
                None => 0,
            },
            nl_pid: match nl_pid {
                Some(p) => p,
                None => 0,
            },
            nl_payload,
            nl_len: 0,
        };
        nl.nl_len = match nl_len {
            Some(l) => l,
            None => nl.size() as u32,
        };
        nl
    }

    /// A header whose type and payload serialize into windows of their own
    /// sizes serializes into a buffer of its aligned size, and only there.
    pub proof fn lemma_serializes_at_aligned_size(self, len: nat)
        requires
            self.wf(),
            self.nl_type.spec_serialize(self.nl_type.spec_size()) is Ok,
            self.nl_payload.spec_serialize(self.nl_payload.spec_size()) is Ok,
        ensures
            self.spec_serialize(len) is Ok <==> len == align_up(self.spec_size()),
    {
    }

    /// The layout of every header's encoding that `b` can be.
    pub proof fn lemma_encodings(b: Seq<u8>)
        ensures
            forall|c: Self|
                c.wf() && #[trigger] c.spec_serialize(b.len()) == Ok::<Seq<u8>, SerErrorKind>(b)
                    ==> c.layout_of(b),
    {
        assert forall|c: Self|
            c.wf() && #[trigger] c.spec_serialize(b.len()) == Ok::<Seq<u8>, SerErrorKind>(
                b,
            ) implies c.layout_of(b) by {
            c.lemma_layout(b);
        }
    }

    /// How `b` holds this header: its length is the aligned size, and each
    /// field's encoding stands in its window.
    pub open spec fn layout_of(self, b: Seq<u8>) -> bool {
        let f = self.flags_at() as int;
        let p = self.payload_at() as int;
        &&& b.len() == align_up(self.spec_size())
        &&& T::spec_type_size() matches Some(t) ==> t == self.nl_type.spec_size()
        &&& P::spec_type_size() matches Some(n) ==> n == self.nl_payload.spec_size()
        &&& self.nl_len.spec_serialize(4) == Ok::<Seq<u8>, SerErrorKind>(b.subrange(0, 4))
        &&& self.nl_type.spec_serialize(self.nl_type.spec_size()) == Ok::<Seq<u8>, SerErrorKind>(
            b.subrange(4, f),
        )
        &&& self.nl_flags.spec_serialize(2) == Ok::<Seq<u8>, SerErrorKind>(b.subrange(f, f + 2))
        &&& self.nl_seq.spec_serialize(4) == Ok::<Seq<u8>, SerErrorKind>(b.subrange(f + 2, f + 6))
        &&& self.nl_pid.spec_serialize(4) == Ok::<Seq<u8>, SerErrorKind>(b.subrange(f + 6, p))
        &&& self.nl_payload.spec_serialize(self.nl_payload.spec_size()) == Ok::<
            Seq<u8>,
            SerErrorKind,
        >(b.subrange(p, self.spec_size() as int))
    }

    /// The layout of a buffer that holds a header's encoding.
    pub proof fn lemma_layout(self, b: Seq<u8>)
        requires
            self.wf(),
            self.spec_serialize(b.len()) == Ok::<Seq<u8>, SerErrorKind>(b),
        ensures
            self.layout_of(b),
    {
        let ts = self.nl_type.spec_size();
        let ps = self.nl_payload.spec_size();
        self.nl_type.lemma_serialize_len(ts);
        self.nl_payload.lemma_serialize_len(ps);
        self.nl_type.lemma_type_size();
        self.nl_payload.lemma_type_size();
        let wt = self.nl_type.spec_serialize(ts)->Ok_0;
        let wp = self.nl_payload.spec_serialize(ps)->Ok_0;
        let f = self.flags_at() as int;
        let p = self.payload_at() as int;
        let e = self.spec_size() as int;
        assert(b.subrange(0, 4) =~= u32_bytes(self.nl_len));
        assert(b.subrange(4, f) =~= wt);
        assert(b.subrange(f, f + 2) =~= u16_bytes(self.nl_flags.spec_bits()));
        assert(b.subrange(f + 2, f + 6) =~= u32_bytes(self.nl_seq));
        assert(b.subrange(f + 6, p) =~= u32_bytes(self.nl_pid));
        assert(b.subrange(p, e) =~= wp);
    }
}

impl<T: NlType, P: Nl> Nl for Nlmsghdr<T, P> {
    /// Type and payload are well formed, and the padded size fits the
    /// 32-bit length field.
    open spec fn wf(&self) -> bool {
        &&& self.nl_type.wf()
        &&& self.nl_payload.wf()
        &&& self.spec_size() + 3 <= u32::MAX
    }

    open spec fn spec_size(&self) -> nat {
        fixed_fields_size() + self.nl_type.spec_size() + self.nl_payload.spec_size()
    }

    open spec fn spec_type_size() -> Option<usize> {
        match (T::spec_type_size(), P::spec_type_size()) {
            (Some(t), Some(p)) => if fixed_fields_size() + t + p <= usize::MAX {
                Some((fixed_fields_size() + t + p) as usize)
            } else {
                None
            },
            _ => None,
        }
    }

    /// Fields in wire order (length, type, flags, sequence number, PID,
    /// payload), each in a window of its own size, then zero padding up to
    /// the alignment unit. The buffer must have the padded size.
    open spec fn spec_serialize(&self, len: nat) -> Result<Seq<u8>, SerErrorKind> {
        let f = self.flags_at();
        let e = self.spec_size();
        if len < f {
            Err(SerErrorKind::UnexpectedEOB)
        } else {
            match self.nl_type.spec_serialize(self.nl_type.spec_size()) {
                Err(k) => Err(k),
                Ok(wt) => if len < e {
                    Err(SerErrorKind::UnexpectedEOB)
                } else {
                    match self.nl_payload.spec_serialize(self.nl_payload.spec_size()) {
                        Err(k) => Err(k),
                        Ok(wp) => if len < align_up(e) {
                            Err(SerErrorKind::UnexpectedEOB)
                        } else if len > align_up(e) {
                            Err(SerErrorKind::BufferNotFilled)
                        } else {
                            Ok(
                                u32_bytes(self.nl_len) + wt + u16_bytes(self.nl_flags.spec_bits())
                                    + u32_bytes(self.nl_seq) + u32_bytes(self.nl_pid) + wp + zeros(
                                    pad_len(e),
                                ),
                            )
                        },
                    }
                },
            }
        }
    }

    /// Fields in wire order, type and payload in windows of their static
    /// sizes. The declared length may not end before the parsed fields, and
    /// the buffer must end exactly where the declared length, rounded up to
    /// the alignment unit, ends: shorter is `UnexpectedEOB`, longer is
    /// `BufferNotParsed`.
    open spec fn spec_deserialize(b: Seq<u8>) -> Result<Self, DeErrorKind> {
        if b.len() < 4 {
            Err(DeErrorKind::UnexpectedEOB)
        } else {
            let nl_len = u32_of(b.subrange(0, 4));
            match T::spec_type_size() {
                None => Err(DeErrorKind::Msg),
                Some(t) => if 4 + t > b.len() {
                    Err(DeErrorKind::UnexpectedEOB)
                } else {
                    match T::spec_deserialize(b.subrange(4, 4 + t)) {
                        Err(k) => Err(k),
                        Ok(nl_type) => {
                            let f = 4 + t;
                            if f + 10 > b.len() {
                                Err(DeErrorKind::UnexpectedEOB)
                            } else {
                                match P::spec_type_size() {
                                    None => Err(DeErrorKind::Msg),
                                    Some(p) => if f + 10 + p > b.len() {
                                        Err(DeErrorKind::UnexpectedEOB)
                                    } else {
                                        match P::spec_deserialize(
                                            b.subrange(f + 10, f + 10 + p),
                                        ) {
                                            Err(k) => Err(k),
                                            Ok(nl_payload) => {
                                                let end = align_up(nl_len as nat);
                                                if (nl_len as nat) < f + 10 + p || end > b.len() {
                                                    Err(DeErrorKind::UnexpectedEOB)
                                                } else if end < b.len() {
                                                    Err(DeErrorKind::BufferNotParsed)
                                                } else {
                                                    Ok(
                                                        Nlmsghdr {
                                                            nl_len,
                                                            nl_type,
                                                            nl_flags: NlmFFlags::spec_from_bits(
                                                                u16_of(b.subrange(f, f + 2)),
                                                            ),
                                                            nl_seq: u32_of(
                                                                b.subrange(f + 2, f + 6),
                                                            ),
                                                            nl_pid: u32_of(
                                                                b.subrange(f + 6, f + 10),
                                                            ),
                                                            nl_payload,
                                                        },
                                                    )
                                                }
                                            },
                                        }
                                    },
                                }
                            }
                        },
                    }
                },
            }
        }
    }

    open spec fn canonical(&self) -> bool {
        self.header_canonical()
    }

    proof fn lemma_type_size(&self) {
        self.nl_type.lemma_type_size();
        self.nl_payload.lemma_type_size();
    }

    proof fn lemma_serialize_len(&self, len: nat) {
        self.nl_type.lemma_serialize_len(self.nl_type.spec_size());
        self.nl_payload.lemma_serialize_len(self.nl_payload.spec_size());
    }

    fn size(&self) -> usize {
        self.nl_len.size() + self.nl_type.size() + self.nl_flags.size() + self.nl_seq.size()
            + self.nl_pid.size() + self.nl_payload.size()
    }

    fn type_size() -> Option<usize> {
        match (T::type_size(), P::type_size()) {
            (Some(t), Some(p)) => {
                if t <= usize::MAX - 14 && p <= usize::MAX - 14 - t {
                    Some(14 + t + p)
                } else {
                    None
                }
            },
            _ => None,
        }
    }

    fn serialize(&self, mem: BytesMut) -> (r: Result<BytesMut, SerError>) {
        let ghost m = buf_view(mem);
        let ghost len = m.len();
        let ghost ts = self.nl_type.spec_size();
        let ghost ps = self.nl_payload.spec_size();
        proof {
            self.nl_type.lemma_serialize_len(ts);
            self.nl_payload.lemma_serialize_len(ps);
        }
        let (buf, pos) = match drive_serialize(&self.nl_len, mem, 0) {
            Ok(x) => x,
            Err(e) => return Err(e),
        };
        let ghost pre = u32_bytes(self.nl_len);
        assert(buf_view(buf) =~= pre + m.skip(pos as int));
        let (buf, pos) = match drive_serialize(&self.nl_type, buf, pos) {
            Ok(x) => x,
            Err(e) => return Err(e),
        };
        let ghost wt = self.nl_type.spec_serialize(ts)->Ok_0;
        let ghost pre = pre + wt;
        assert(buf_view(buf) =~= pre + m.skip(pos as int));
        let (buf, pos) = match drive_serialize(&self.nl_flags, buf, pos) {
            Ok(x) => x,
            Err(e) => return Err(e),
        };
        let ghost pre = pre + u16_bytes(self.nl_flags.spec_bits());
        assert(buf_view(buf) =~= pre + m.skip(pos as int));
        let (buf, pos) = match drive_serialize(&self.nl_seq, buf, pos) {
            Ok(x) => x,
            Err(e) => return Err(e),
        };
        let ghost pre = pre + u32_bytes(self.nl_seq);
        assert(buf_view(buf) =~= pre + m.skip(pos as int));
        let (buf, pos) = match drive_serialize(&self.nl_pid, buf, pos) {
            Ok(x) => x,
            Err(e) => return Err(e),
        };
        let ghost pre = pre + u32_bytes(self.nl_pid);
        assert(buf_view(buf) =~= pre + m.skip(pos as int));
        let (buf, pos) = match drive_serialize(&self.nl_payload, buf, pos) {
            Ok(x) => x,
            Err(e) => return Err(e),
        };
        let ghost wp = self.nl_payload.spec_serialize(ps)->Ok_0;
        let ghost pre = pre + wp;
        assert(buf_view(buf) =~= pre + m.skip(pos as int));
        let pad = padding(pos);
        let (buf, pos) = match drive_pad(buf, pos, pad) {
            Ok(x) => x,
            Err(e) => return Err(e),
        };
        let ghost pre = pre + zeros(pad as nat);
        assert(buf_view(buf) =~= pre + m.skip(pos as int));
        match drive_end(buf, pos) {
            Ok(b) => {
                assert(buf_view(b) =~= pre);
                Ok(b)
            },
            Err(e) => Err(e),
        }
    }

    fn deserialize(mem: Bytes) -> (r: Result<Self, DeError>) {
        let ghost b = frozen_view(mem);
        proof {
            Self::lemma_encodings(b);
        }
        let (nl_len, pos) = match drive_deserialize::<u32>(&mem, 0, 4) {
            Ok(x) => x,
            Err(e) => return Err(e),
        };
        let t = match static_size::<T>() {
            Ok(n) => n,
            Err(e) => return Err(e),
        };
        let (nl_type, pos) = match drive_deserialize::<T>(&mem, pos, t) {
            Ok(x) => x,
            Err(e) => return Err(e),
        };
        let (nl_flags, pos) = match drive_deserialize::<NlmFFlags>(&mem, pos, 2) {
            Ok(x) => x,
            Err(e) => return Err(e),
        };
        let (nl_seq, pos) = match drive_deserialize::<u32>(&mem, pos, 4) {
            Ok(x) => x,
            Err(e) => return Err(e),
        };
        let (nl_pid, pos) = match drive_deserialize::<u32>(&mem, pos, 4) {
            Ok(x) => x,
            Err(e) => return Err(e),
        };
        let p = match static_size::<P>() {
            Ok(n) => n,
            Err(e) => return Err(e),
        };
        let (nl_payload, pos) = match drive_deserialize::<P>(&mem, pos, p) {
            Ok(x) => x,
            Err(e) => return Err(e),
        };
        let declared = nl_len as usize;
        if declared < pos {
            return Err(DeError::UnexpectedEOB);
        }
        let pos = match drive_strip(&mem, pos, declared - pos) {
            Ok(x) => x,
            Err(e) => return Err(e),
        };
        let pos = match drive_strip(&mem, pos, padding(declared)) {
            Ok(x) => x,
            Err(e) => return Err(e),
        };
        match drive_de_end(&mem, pos) {
            Ok(_) => {},
            Err(e) => return Err(e),
        }
        Ok(Nlmsghdr { nl_len, nl_type, nl_flags, nl_seq, nl_pid, nl_payload })
    }
}

/// Struct indicating an empty payload
#[derive(Debug, PartialEq)]
pub struct NlEmpty;

impl Nl for NlEmpty {
    open spec fn wf(&self) -> bool {
        true
    }

    open spec fn spec_size(&self) -> nat {
        0
    }

    open spec fn spec_type_size() -> Option<usize> {
        Some(0)
    }

    /// Nothing is written: the buffer comes back as it was.
    open spec fn spec_serialize(&self, len: nat) -> Result<Seq<u8>, SerErrorKind> {
        if len == 0 {
            Ok(Seq::empty())
        } else {
            Err(SerErrorKind::BufferNotFilled)
        }
    }

    /// Nothing is read, whatever the bytes.
    open spec fn spec_deserialize(b: Seq<u8>) -> Result<Self, DeErrorKind> {
        Ok(NlEmpty)
    }

    open spec fn canonical(&self) -> bool {
        true
    }

    proof fn lemma_type_size(&self) {
    }

    proof fn lemma_serialize_len(&self, len: nat) {
    }

    fn size(&self) -> usize {
        0
    }

    fn type_size() -> Option<usize> {
        Some(0)
    }

    fn serialize(&self, mem: BytesMut) -> (r: Result<BytesMut, SerError>) {
        if buf_len(&mem) != 0 {
            return Err(SerError::BufferNotFilled(mem));
        }
        assert(buf_view(mem) =~= Seq::empty());
        Ok(mem)
    }

    fn deserialize(mem: Bytes) -> (r: Result<Self, DeError>) {
        Ok(NlEmpty)
    }
}

} // verus!
