//! Constants of the netlink header: message types and header flags.
//!
//! Each constant type maps named variants one-to-one onto wire integers and
//! keeps any other wire integer in its `UnrecognizedVariant`, so that values
//! from a newer peer survive a round trip.
use crate::buffer::frozen_view;
use crate::codec::Nl;
use crate::err::{DeError, DeErrorKind, SerError, SerErrorKind};
use bytes::{Bytes, BytesMut};
use vstd::prelude::*;

verus! {

/// Message types that every netlink family shares.
#[derive(Clone, Copy, Debug, PartialEq, Eq, Hash, Structural)]
pub enum Nlmsg {
    Noop,
    Error,
    Done,
    Overrun,
    /// Variant that signifies an invalid value while deserializing
    UnrecognizedVariant(u16),
}

impl Nlmsg {
    /// The wire value of this constant.
    pub open spec fn spec_to_wire(self) -> u16 {
        match self {
            Nlmsg::Noop => 1,
            Nlmsg::Error => 2,
            Nlmsg::Done => 3,
            Nlmsg::Overrun => 4,
            Nlmsg::UnrecognizedVariant(i) => i,
        }
    }

    /// Whether a named variant is bound to `v`.
    pub open spec fn is_named(v: u16) -> bool {
        v == 1 || v == 2 || v == 3 || v == 4
    }

    /// The constant for wire value `v`: the named variant bound to it, else the raw value.
    pub open spec fn spec_from_wire(v: u16) -> Self {
        if v == 1 {
            Nlmsg::Noop
        } else if v == 2 {
            Nlmsg::Error
        } else if v == 3 {
            Nlmsg::Done
        } else if v == 4 {
            Nlmsg::Overrun
        } else {
            Nlmsg::UnrecognizedVariant(v)
        }
    }

    /// Returns true if no variant corresponds to the value it was parsed from
    pub fn is_unrecognized(&self) -> (r: bool)
        ensures
            r == self is UnrecognizedVariant,
    {
        match self {
            Nlmsg::UnrecognizedVariant(_) => true,
            _ => false,
        }
    }

    /// The wire value of this constant.
    pub fn to_wire(&self) -> (r: u16)
        ensures
            r == self.spec_to_wire(),
    {
        match self {
            Nlmsg::Noop => 1,
            Nlmsg::Error => 2,
            Nlmsg::Done => 3,
            Nlmsg::Overrun => 4,
            Nlmsg::UnrecognizedVariant(i) => *i,
        }
    }

    /// The constant for a wire value; a value that no name is bound to is kept raw.
    pub fn from_wire(v: u16) -> (r: Self)
        ensures
            r == Self::spec_from_wire(v),
            r.spec_to_wire() == v,
            r is UnrecognizedVariant <==> !Self::is_named(v),
    {
        match v {
            1 => Nlmsg::Noop,
            2 => Nlmsg::Error,
            3 => Nlmsg::Done,
            4 => Nlmsg::Overrun,
            _ => Nlmsg::UnrecognizedVariant(v),
        }
    }

    /// Converting any wire value to the constant and back gives the same wire value.
    pub proof fn lemma_wire_total(v: u16)
        ensures
            Self::spec_from_wire(v).spec_to_wire() == v,
    {
    }

    /// Converting a canonical constant to its wire value and back gives the same constant.
    pub proof fn lemma_wire_round_trip(self)
        requires
            self.canonical(),
        ensures
            Self::spec_from_wire(self.spec_to_wire()) == self,
    {
    }
}

impl From<u16> for Nlmsg {
    fn from(v: u16) -> (r: Self) {
        Self::from_wire(v)
    }
}

impl vstd::std_specs::convert::FromSpecImpl<u16> for Nlmsg {
    open spec fn obeys_from_spec() -> bool {
        true
    }

    open spec fn from_spec(v: u16) -> Self {
        Self::spec_from_wire(v)
    }
}

impl From<Nlmsg> for u16 {
    fn from(v: Nlmsg) -> (r: Self) {
        v.to_wire()
    }
}

impl vstd::std_specs::convert::FromSpecImpl<Nlmsg> for u16 {
    open spec fn obeys_from_spec() -> bool {
        true
    }

    open spec fn from_spec(v: Nlmsg) -> Self {
        v.spec_to_wire()
    }
}

impl Nl for Nlmsg {
    open spec fn wf(&self) -> bool {
        true
    }

    open spec fn spec_size(&self) -> nat {
        2
    }

    open spec fn spec_type_size() -> Option<usize> {
        Some(2)
    }

    open spec fn spec_serialize(&self, len: nat) -> Result<Seq<u8>, SerErrorKind> {
        self.spec_to_wire().spec_serialize(len)
    }

    open spec fn spec_deserialize(b: Seq<u8>) -> Result<Self, DeErrorKind> {
        match u16::spec_deserialize(b) {
            Ok(v) => Ok(Self::spec_from_wire(v)),
            Err(k) => Err(k),
        }
    }

    /// Named, or holding a value that no name is bound to.
    open spec fn canonical(&self) -> bool {
        !(self is UnrecognizedVariant) || !Self::is_named(self.spec_to_wire())
    }

    proof fn lemma_type_size(&self) {
    }

    proof fn lemma_serialize_len(&self, len: nat) {
    }

    fn size(&self) -> usize {
        2
    }

    fn type_size() -> Option<usize> {
        Some(2)
    }

    fn serialize(&self, mem: BytesMut) -> (r: Result<BytesMut, SerError>) {
        self.to_wire().serialize(mem)
    }

    fn deserialize(mem: Bytes) -> (r: Result<Self, DeError>) {
        let ghost b = frozen_view(mem);
        match u16::deserialize(mem) {
            Ok(v) => {
                let r = Self::from_wire(v);
                assert forall|c: Self|
                    c.wf() && c.canonical() && #[trigger] c.spec_serialize(b.len()) == Ok::<
                        Seq<u8>,
                        SerErrorKind,
                    >(b) implies r == c by {
                    assert(c.spec_to_wire().spec_serialize(b.len()) == Ok::<Seq<u8>, SerErrorKind>(b));
                    c.lemma_wire_round_trip();
                }
                Ok(r)
            },
            Err(e) => Err(e),
        }
    }
}

/// Flags of the netlink header.
#[derive(Clone, Copy, Debug, PartialEq, Eq, Hash, Structural)]
pub enum NlmF {
    Request,
    Multi,
    Ack,
    Echo,
    DumpIntr,
    DumpFiltered,
    Root,
    Match,
    Atomic,
    Dump,
    /// Variant that signifies an invalid value while deserializing
    UnrecognizedVariant(u16),
}

impl NlmF {
    /// The wire value of this constant.
    pub open spec fn spec_to_wire(self) -> u16 {
        match self {
            NlmF::Request => 1,
            NlmF::Multi => 2,
            NlmF::Ack => 4,
            NlmF::Echo => 8,
            NlmF::DumpIntr => 16,
            NlmF::DumpFiltered => 32,
            NlmF::Root => 0x100,
            NlmF::Match => 0x200,
            NlmF::Atomic => 0x400,
            NlmF::Dump => 0x300,
            NlmF::UnrecognizedVariant(i) => i,
        }
    }

    /// Whether a named variant is bound to `v`.
    pub open spec fn is_named(v: u16) -> bool {
        v == 1 || v == 2 || v == 4 || v == 8 || v == 16 || v == 32 || v == 0x100 || v == 0x200 || v == 0x400 || v == 0x300
    }

    /// The constant for wire value `v`: the named variant bound to it, else the raw value.
    pub open spec fn spec_from_wire(v: u16) -> Self {
        if v == 1 {
            NlmF::Request
        } else if v == 2 {
            NlmF::Multi
        } else if v == 4 {
            NlmF::Ack
        } else if v == 8 {
            NlmF::Echo
        } else if v == 16 {
            NlmF::DumpIntr
        } else if v == 32 {
            NlmF::DumpFiltered
        } else if v == 0x100 {
            NlmF::Root
        } else if v == 0x200 {
            NlmF::Match
        } else if v == 0x400 {
            NlmF::Atomic
        } else if v == 0x300 {
            NlmF::Dump
        } else {
            NlmF::UnrecognizedVariant(v)
        }
    }

    /// Returns true if no variant corresponds to the value it was parsed from
    pub fn is_unrecognized(&self) -> (r: bool)
        ensures
            r == self is UnrecognizedVariant,
    {
        match self {
            NlmF::UnrecognizedVariant(_) => true,
            _ => false,
        }
    }

    /// The wire value of this constant.
    pub fn to_wire(&self) -> (r: u16)
        ensures
            r == self.spec_to_wire(),
    {
        match self {
            NlmF::Request => 1,
            NlmF::Multi => 2,
            NlmF::Ack => 4,
            NlmF::Echo => 8,
            NlmF::DumpIntr => 16,
            NlmF::DumpFiltered => 32,
            NlmF::Root => 0x100,
            NlmF::Match => 0x200,
            NlmF::Atomic => 0x400,
            NlmF::Dump => 0x300,
            NlmF::UnrecognizedVariant(i) => *i,
        }
    }

    /// The constant for a wire value; a value that no name is bound to is kept raw.
    pub fn from_wire(v: u16) -> (r: Self)
        ensures
            r == Self::spec_from_wire(v),
            r.spec_to_wire() == v,
            r is UnrecognizedVariant <==> !Self::is_named(v),
    {
        match v {
            1 => NlmF::Request,
            2 => NlmF::Multi,
            4 => NlmF::Ack,
            8 => NlmF::Echo,
            16 => NlmF::DumpIntr,
            32 => NlmF::DumpFiltered,
            0x100 => NlmF::Root,
            0x200 => NlmF::Match,
            0x400 => NlmF::Atomic,
            0x300 => NlmF::Dump,
            _ => NlmF::UnrecognizedVariant(v),
        }
    }

    /// Converting any wire value to the constant and back gives the same wire value.
    pub proof fn lemma_wire_total(v: u16)
        ensures
            Self::spec_from_wire(v).spec_to_wire() == v,
    {
    }

    /// Converting a canonical constant to its wire value and back gives the same constant.
    pub proof fn lemma_wire_round_trip(self)
        requires
            self.canonical(),
        ensures
            Self::spec_from_wire(self.spec_to_wire()) == self,
    {
    }
}

impl From<u16> for NlmF {
    fn from(v: u16) -> (r: Self) {
        Self::from_wire(v)
    }
}

impl vstd::std_specs::convert::FromSpecImpl<u16> for NlmF {
    open spec fn obeys_from_spec() -> bool {
        true
    }

    open spec fn from_spec(v: u16) -> Self {
        Self::spec_from_wire(v)
    }
}

impl From<NlmF> for u16 {
    fn from(v: NlmF) -> (r: Self) {
        v.to_wire()
    }
}

impl vstd::std_specs::convert::FromSpecImpl<NlmF> for u16 {
    open spec fn obeys_from_spec() -> bool {
        true
    }

    open spec fn from_spec(v: NlmF) -> Self {
        v.spec_to_wire()
    }
}

impl Nl for NlmF {
    open spec fn wf(&self) -> bool {
        true
    }

    open spec fn spec_size(&self) -> nat {
        2
    }

    open spec fn spec_type_size() -> Option<usize> {
        Some(2)
    }

    open spec fn spec_serialize(&self, len: nat) -> Result<Seq<u8>, SerErrorKind> {
        self.spec_to_wire().spec_serialize(len)
    }

    open spec fn spec_deserialize(b: Seq<u8>) -> Result<Self, DeErrorKind> {
        match u16::spec_deserialize(b) {
            Ok(v) => Ok(Self::spec_from_wire(v)),
            Err(k) => Err(k),
        }
    }

    /// Named, or holding a value that no name is bound to.
    open spec fn canonical(&self) -> bool {
        !(self is UnrecognizedVariant) || !Self::is_named(self.spec_to_wire())
    }

    proof fn lemma_type_size(&self) {
    }

    proof fn lemma_serialize_len(&self, len: nat) {
    }

    fn size(&self) -> usize {
        2
    }

    fn type_size() -> Option<usize> {
        Some(2)
    }

    fn serialize(&self, mem: BytesMut) -> (r: Result<BytesMut, SerError>) {
        self.to_wire().serialize(mem)
    }

    fn deserialize(mem: Bytes) -> (r: Result<Self, DeError>) {
        let ghost b = frozen_view(mem);
        match u16::deserialize(mem) {
            Ok(v) => {
                let r = Self::from_wire(v);
                assert forall|c: Self|
                    c.wf() && c.canonical() && #[trigger] c.spec_serialize(b.len()) == Ok::<
                        Seq<u8>,
                        SerErrorKind,
                    >(b) implies r == c by {
                    assert(c.spec_to_wire().spec_serialize(b.len()) == Ok::<Seq<u8>, SerErrorKind>(b));
                    c.lemma_wire_round_trip();
                }
                Ok(r)
            },
            Err(e) => Err(e),
        }
    }
}

/// Types that can stand in the type field of a netlink header.
pub trait NlType: Nl {
}

impl NlType for u16 {
}

impl NlType for Nlmsg {
}

/// OR of the wire values of a sequence of flags.
pub open spec fn flags_or(s: Seq<NlmF>) -> u16
    decreases s.len(),
{
    if s.len() == 0 {
        0
    } else {
        flags_or(s.drop_last()) | s.last().spec_to_wire()
    }
}

/// Set of `NlmF` flags, held as the OR of their wire values.
#[derive(Clone, Copy, Debug, PartialEq, Eq, Hash, Structural)]
pub struct NlmFFlags(u16);

impl NlmFFlags {
    /// The bits of the set.
    pub closed spec fn spec_bits(self) -> u16 {
        self.0
    }

    /// The empty set.
    pub fn empty() -> (r: Self)
        ensures
            r.spec_bits() == 0,
    {
        NlmFFlags(0)
    }

    /// The set of the given flags.
    pub fn new(flags: &[NlmF]) -> (r: Self)
        ensures
            r.spec_bits() == flags_or(flags@),
    {
        let mut bits: u16 = 0;
        let mut i: usize = 0;
        while i < flags.len()
            invariant
                i <= flags@.len(),
                bits == flags_or(flags@.take(i as int)),
            decreases flags@.len() - i,
        {
            assert(flags@.take(i + 1).drop_last() =~= flags@.take(i as int));
            bits = bits | flags[i].to_wire();
            i = i + 1;
        }
        assert(flags@.take(i as int) =~= flags@);
        NlmFFlags(bits)
    }

    /// The set whose bits are `bits`.
    pub fn from_bits(bits: u16) -> (r: Self)
        ensures
            r.spec_bits() == bits,
    {
        NlmFFlags(bits)
    }

    /// The bits of the set.
    pub fn bits(&self) -> (r: u16)
        ensures
            r == self.spec_bits(),
    {
        self.0
    }

    /// Whether every bit of `flag` is set.
    pub fn contains(&self, flag: &NlmF) -> (r: bool)
        ensures
            r == (self.spec_bits() & flag.spec_to_wire() == flag.spec_to_wire()),
    {
        let w = flag.to_wire();
        self.0 & w == w
    }

    /// Add `flag` to the set.
    pub fn set(&mut self, flag: &NlmF)
        ensures
            final(self).spec_bits() == old(self).spec_bits() | flag.spec_to_wire(),
    {
        self.0 = self.0 | flag.to_wire();
    }

    /// Remove `flag` from the set.
    pub fn unset(&mut self, flag: &NlmF)
        ensures
            final(self).spec_bits() == old(self).spec_bits() & !flag.spec_to_wire(),
    {
        self.0 = self.0 & !flag.to_wire();
    }
}

impl Nl for NlmFFlags {
    open spec fn wf(&self) -> bool {
        true
    }

    open spec fn spec_size(&self) -> nat {
        2
    }

    open spec fn spec_type_size() -> Option<usize> {
        Some(2)
    }

    open spec fn spec_serialize(&self, len: nat) -> Result<Seq<u8>, SerErrorKind> {
        self.spec_bits().spec_serialize(len)
    }

    open spec fn spec_deserialize(b: Seq<u8>) -> Result<Self, DeErrorKind> {
        match u16::spec_deserialize(b) {
            Ok(v) => Ok(NlmFFlags::spec_from_bits(v)),
            Err(k) => Err(k),
        }
    }

    open spec fn canonical(&self) -> bool {
        true
    }

    proof fn lemma_type_size(&self) {
    }

    proof fn lemma_serialize_len(&self, len: nat) {
    }

    fn size(&self) -> usize {
        2
    }

    fn type_size() -> Option<usize> {
        Some(2)
    }

    fn serialize(&self, mem: BytesMut) -> (r: Result<BytesMut, SerError>) {
        self.0.serialize(mem)
    }

    fn deserialize(mem: Bytes) -> (r: Result<Self, DeError>) {
        let ghost b = frozen_view(mem);
        match u16::deserialize(mem) {
            Ok(v) => {
                let r = NlmFFlags(v);
                assert forall|c: Self|
                    c.wf() && c.canonical() && #[trigger] c.spec_serialize(b.len()) == Ok::<
                        Seq<u8>,
                        SerErrorKind,
                    >(b) implies r == c by {
                    assert(c.0.spec_serialize(b.len()) == Ok::<Seq<u8>, SerErrorKind>(b));
                }
                Ok(r)
            },
            Err(e) => Err(e),
        }
    }
}

impl NlmFFlags {
    /// The set whose bits are `bits`.
    pub closed spec fn spec_from_bits(bits: u16) -> Self {
        NlmFFlags(bits)
    }

    /// A set is the set of its own bits.
    pub proof fn lemma_bits(self, bits: u16)
        ensures
            NlmFFlags::spec_from_bits(bits).spec_bits() == bits,
            NlmFFlags::spec_from_bits(self.spec_bits()) == self,
    {
    }
}
} // verus!
