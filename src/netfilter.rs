//! Constants for netfilter related protocols.
use crate::buffer::frozen_view;
use crate::codec::Nl;
use crate::consts::NlType;
use crate::err::{DeError, DeErrorKind, SerError, SerErrorKind};
use bytes::{Bytes, BytesMut};
use vstd::prelude::*;

verus! {

/// Attributes inside a netfilter log packet message.
/// 
/// These are sent by the kernel and describe a logged packet.
#[derive(Clone, Copy, Debug, PartialEq, Eq, Hash, Structural)]
pub enum NfLogAttr {
    PacketHdr,
    Mark,
    Timestamp,
    IfindexIndev,
    IfindexOutdev,
    IfindexPhyindev,
    IfindexPhyoutdev,
    Hwaddr,
    Payload,
    Prefix,
    Uid,
    SeqLocal,
    SeqGlobal,
    Gid,
    Hwtype,
    Hwheader,
    Hwlen,
    Ct,
    CtInfo,
    /// Variant that signifies an invalid value while deserializing
    UnrecognizedVariant(u16),
}

impl NfLogAttr {
    /// The wire value of this constant.
    pub open spec fn spec_to_wire(self) -> u16 {
        match self {
            NfLogAttr::PacketHdr => 1,
            NfLogAttr::Mark => 2,
            NfLogAttr::Timestamp => 3,
            NfLogAttr::IfindexIndev => 4,
            NfLogAttr::IfindexOutdev => 5,
            NfLogAttr::IfindexPhyindev => 6,
            NfLogAttr::IfindexPhyoutdev => 7,
            NfLogAttr::Hwaddr => 8,
            NfLogAttr::Payload => 9,
            NfLogAttr::Prefix => 10,
            NfLogAttr::Uid => 11,
            NfLogAttr::SeqLocal => 12,
            NfLogAttr::SeqGlobal => 13,
            NfLogAttr::Gid => 14,
            NfLogAttr::Hwtype => 15,
            NfLogAttr::Hwheader => 16,
            NfLogAttr::Hwlen => 17,
            NfLogAttr::Ct => 18,
            NfLogAttr::CtInfo => 19,
            NfLogAttr::UnrecognizedVariant(i) => i,
        }
    }

    /// Whether a named variant is bound to `v`.
    pub open spec fn is_named(v: u16) -> bool {
        v == 1 || v == 2 || v == 3 || v == 4 || v == 5 || v == 6 || v == 7 || v == 8 || v == 9 || v == 10 || v == 11 || v == 12 || v == 13 || v == 14 || v == 15 || v == 16 || v == 17 || v == 18 || v == 19
    }

    /// The constant for wire value `v`: the named variant bound to it, else the raw value.
    pub open spec fn spec_from_wire(v: u16) -> Self {
        if v == 1 {
            NfLogAttr::PacketHdr
        } else if v == 2 {
            NfLogAttr::Mark
        } else if v == 3 {
            NfLogAttr::Timestamp
        } else if v == 4 {
            NfLogAttr::IfindexIndev
        } else if v == 5 {
            NfLogAttr::IfindexOutdev
        } else if v == 6 {
            NfLogAttr::IfindexPhyindev
        } else if v == 7 {
            NfLogAttr::IfindexPhyoutdev
        } else if v == 8 {
            NfLogAttr::Hwaddr
        } else if v == 9 {
            NfLogAttr::Payload
        } else if v == 10 {
            NfLogAttr::Prefix
        } else if v == 11 {
            NfLogAttr::Uid
        } else if v == 12 {
            NfLogAttr::SeqLocal
        } else if v == 13 {
            NfLogAttr::SeqGlobal
        } else if v == 14 {
            NfLogAttr::Gid
        } else if v == 15 {
            NfLogAttr::Hwtype
        } else if v == 16 {
            NfLogAttr::Hwheader
        } else if v == 17 {
            NfLogAttr::Hwlen
        } else if v == 18 {
            NfLogAttr::Ct
        } else if v == 19 {
            NfLogAttr::CtInfo
        } else {
            NfLogAttr::UnrecognizedVariant(v)
        }
    }

    /// Returns true if no variant corresponds to the value it was parsed from
    pub fn is_unrecognized(&self) -> (r: bool)
        ensures
            r == self is UnrecognizedVariant,
    {
        match self {
            NfLogAttr::UnrecognizedVariant(_) => true,
            _ => false,
        }
    }

    /// The wire value of this constant.
    pub fn to_wire(&self) -> (r: u16)
        ensures
            r == self.spec_to_wire(),
    {
        match self {
            NfLogAttr::PacketHdr => 1,
            NfLogAttr::Mark => 2,
            NfLogAttr::Timestamp => 3,
            NfLogAttr::IfindexIndev => 4,
            NfLogAttr::IfindexOutdev => 5,
            NfLogAttr::IfindexPhyindev => 6,
            NfLogAttr::IfindexPhyoutdev => 7,
            NfLogAttr::Hwaddr => 8,
            NfLogAttr::Payload => 9,
            NfLogAttr::Prefix => 10,
            NfLogAttr::Uid => 11,
            NfLogAttr::SeqLocal => 12,
            NfLogAttr::SeqGlobal => 13,
            NfLogAttr::Gid => 14,
            NfLogAttr::Hwtype => 15,
            NfLogAttr::Hwheader => 16,
            NfLogAttr::Hwlen => 17,
            NfLogAttr::Ct => 18,
            NfLogAttr::CtInfo => 19,
            NfLogAttr::UnrecognizedVariant(i) => *i,
        }
    }

    /// The constant for a wire value; a value that no name is bound to is kept raw.
    pub fn from_wire(v: u16) -> (r: Self)
        ensures
            r == Self::spec_from_wire(v),
            r.spec_to_wire() == v,
            r is UnrecognizedVariant <==> !Self::is_named(v),
    {
        match v {
            1 => NfLogAttr::PacketHdr,
            2 => NfLogAttr::Mark,
            3 => NfLogAttr::Timestamp,
            4 => NfLogAttr::IfindexIndev,
            5 => NfLogAttr::IfindexOutdev,
            6 => NfLogAttr::IfindexPhyindev,
            7 => NfLogAttr::IfindexPhyoutdev,
            8 => NfLogAttr::Hwaddr,
            9 => NfLogAttr::Payload,
            10 => NfLogAttr::Prefix,
            11 => NfLogAttr::Uid,
            12 => NfLogAttr::SeqLocal,
            13 => NfLogAttr::SeqGlobal,
            14 => NfLogAttr::Gid,
            15 => NfLogAttr::Hwtype,
            16 => NfLogAttr::Hwheader,
            17 => NfLogAttr::Hwlen,
            18 => NfLogAttr::Ct,
            19 => NfLogAttr::CtInfo,
            _ => NfLogAttr::UnrecognizedVariant(v),
        }
    }

    /// Converting any wire value to the constant and back gives the same wire value.
    pub proof fn lemma_wire_total(v: u16)
        ensures
            Self::spec_from_wire(v).spec_to_wire() == v,
    {
    }

    /// Converting a canonical constant to its wire value and back gives the same constant.
    pub proof fn lemma_wire_round_trip(self)
        requires
            self.canonical(),
        ensures
            Self::spec_from_wire(self.spec_to_wire()) == self,
    {
    }
}

impl From<u16> for NfLogAttr {
    fn from(v: u16) -> (r: Self) {
        Self::from_wire(v)
    }
}

impl vstd::std_specs::convert::FromSpecImpl<u16> for NfLogAttr {
    open spec fn obeys_from_spec() -> bool {
        true
    }

    open spec fn from_spec(v: u16) -> Self {
        Self::spec_from_wire(v)
    }
}

impl From<NfLogAttr> for u16 {
    fn from(v: NfLogAttr) -> (r: Self) {
        v.to_wire()
    }
}

impl vstd::std_specs::convert::FromSpecImpl<NfLogAttr> for u16 {
    open spec fn obeys_from_spec() -> bool {
        true
    }

    open spec fn from_spec(v: NfLogAttr) -> Self {
        v.spec_to_wire()
    }
}

impl Nl for NfLogAttr {
    open spec fn wf(&self) -> bool {
        true
    }

    open spec fn spec_size(&self) -> nat {
        2
    }

    open spec fn spec_type_size() -> Option<usize> {
        Some(2)
    }

    open spec fn spec_serialize(&self, len: nat) -> Result<Seq<u8>, SerErrorKind> {
        self.spec_to_wire().spec_serialize(len)
    }

    open spec fn spec_deserialize(b: Seq<u8>) -> Result<Self, DeErrorKind> {
        match u16::spec_deserialize(b) {
            Ok(v) => Ok(Self::spec_from_wire(v)),
            Err(k) => Err(k),
        }
    }

    /// Named, or holding a value that no name is bound to.
    open spec fn canonical(&self) -> bool {
        !(self is UnrecognizedVariant) || !Self::is_named(self.spec_to_wire())
    }

    proof fn lemma_type_size(&self) {
    }

    proof fn lemma_serialize_len(&self, len: nat) {
    }

    fn size(&self) -> usize {
        2
    }

    fn type_size() -> Option<usize> {
        Some(2)
    }

    fn serialize(&self, mem: BytesMut) -> (r: Result<BytesMut, SerError>) {
        self.to_wire().serialize(mem)
    }

    fn deserialize(mem: Bytes) -> (r: Result<Self, DeError>) {
        let ghost b = frozen_view(mem);
        match u16::deserialize(mem) {
            Ok(v) => {
                let r = Self::from_wire(v);
                assert forall|c: Self|
                    c.wf() && c.canonical() && #[trigger] c.spec_serialize(b.len()) == Ok::<
                        Seq<u8>,
                        SerErrorKind,
                    >(b) implies r == c by {
                    assert(c.spec_to_wire().spec_serialize(b.len()) == Ok::<Seq<u8>, SerErrorKind>(b));
                    c.lemma_wire_round_trip();
                }
                Ok(r)
            },
            Err(e) => Err(e),
        }
    }
}

/// Configuration attributes for netfilter logging.
#[derive(Clone, Copy, Debug, PartialEq, Eq, Hash, Structural)]
pub enum NfLogCfg {
    Cmd,
    Mode,
    NlBufSize,
    Timeout,
    QThresh,
    Flags,
    /// Variant that signifies an invalid value while deserializing
    UnrecognizedVariant(u16),
}

impl NfLogCfg {
    /// The wire value of this constant.
    pub open spec fn spec_to_wire(self) -> u16 {
        match self {
            NfLogCfg::Cmd => 1,
            NfLogCfg::Mode => 2,
            NfLogCfg::NlBufSize => 3,
            NfLogCfg::Timeout => 4,
            NfLogCfg::QThresh => 5,
            NfLogCfg::Flags => 6,
            NfLogCfg::UnrecognizedVariant(i) => i,
        }
    }

    /// Whether a named variant is bound to `v`.
    pub open spec fn is_named(v: u16) -> bool {
        v == 1 || v == 2 || v == 3 || v == 4 || v == 5 || v == 6
    }

    /// The constant for wire value `v`: the named variant bound to it, else the raw value.
    pub open spec fn spec_from_wire(v: u16) -> Self {
        if v == 1 {
            NfLogCfg::Cmd
        } else if v == 2 {
            NfLogCfg::Mode
        } else if v == 3 {
            NfLogCfg::NlBufSize
        } else if v == 4 {
            NfLogCfg::Timeout
        } else if v == 5 {
            NfLogCfg::QThresh
        } else if v == 6 {
            NfLogCfg::Flags
        } else {
            NfLogCfg::UnrecognizedVariant(v)
        }
    }

    /// Returns true if no variant corresponds to the value it was parsed from
    pub fn is_unrecognized(&self) -> (r: bool)
        ensures
            r == self is UnrecognizedVariant,
    {
        match self {
            NfLogCfg::UnrecognizedVariant(_) => true,
            _ => false,
        }
    }

    /// The wire value of this constant.
    pub fn to_wire(&self) -> (r: u16)
        ensures
            r == self.spec_to_wire(),
    {
        match self {
            NfLogCfg::Cmd => 1,
            NfLogCfg::Mode => 2,
            NfLogCfg::NlBufSize => 3,
            NfLogCfg::Timeout => 4,
            NfLogCfg::QThresh => 5,
            NfLogCfg::Flags => 6,
            NfLogCfg::UnrecognizedVariant(i) => *i,
        }
    }

    /// The constant for a wire value; a value that no name is bound to is kept raw.
    pub fn from_wire(v: u16) -> (r: Self)
        ensures
            r == Self::spec_from_wire(v),
            r.spec_to_wire() == v,
            r is UnrecognizedVariant <==> !Self::is_named(v),
    {
        match v {
            1 => NfLogCfg::Cmd,
            2 => NfLogCfg::Mode,
            3 => NfLogCfg::NlBufSize,
            4 => NfLogCfg::Timeout,
            5 => NfLogCfg::QThresh,
            6 => NfLogCfg::Flags,
            _ => NfLogCfg::UnrecognizedVariant(v),
        }
    }

    /// Converting any wire value to the constant and back gives the same wire value.
    pub proof fn lemma_wire_total(v: u16)
        ensures
            Self::spec_from_wire(v).spec_to_wire() == v,
    {
    }

    /// Converting a canonical constant to its wire value and back gives the same constant.
    pub proof fn lemma_wire_round_trip(self)
        requires
            self.canonical(),
        ensures
            Self::spec_from_wire(self.spec_to_wire()) == self,
    {
    }
}

impl From<u16> for NfLogCfg {
    fn from(v: u16) -> (r: Self) {
        Self::from_wire(v)
    }
}

impl vstd::std_specs::convert::FromSpecImpl<u16> for NfLogCfg {
    open spec fn obeys_from_spec() -> bool {
        true
    }

    open spec fn from_spec(v: u16) -> Self {
        Self::spec_from_wire(v)
    }
}

impl From<NfLogCfg> for u16 {
    fn from(v: NfLogCfg) -> (r: Self) {
        v.to_wire()
    }
}

impl vstd::std_specs::convert::FromSpecImpl<NfLogCfg> for u16 {
    open spec fn obeys_from_spec() -> bool {
        true
    }

    open spec fn from_spec(v: NfLogCfg) -> Self {
        v.spec_to_wire()
    }
}

impl Nl for NfLogCfg {
    open spec fn wf(&self) -> bool {
        true
    }

    open spec fn spec_size(&self) -> nat {
        2
    }

    open spec fn spec_type_size() -> Option<usize> {
        Some(2)
    }

    open spec fn spec_serialize(&self, len: nat) -> Result<Seq<u8>, SerErrorKind> {
        self.spec_to_wire().spec_serialize(len)
    }

    open spec fn spec_deserialize(b: Seq<u8>) -> Result<Self, DeErrorKind> {
        match u16::spec_deserialize(b) {
            Ok(v) => Ok(Self::spec_from_wire(v)),
            Err(k) => Err(k),
        }
    }

    /// Named, or holding a value that no name is bound to.
    open spec fn canonical(&self) -> bool {
        !(self is UnrecognizedVariant) || !Self::is_named(self.spec_to_wire())
    }

    proof fn lemma_type_size(&self) {
    }

    proof fn lemma_serialize_len(&self, len: nat) {
    }

    fn size(&self) -> usize {
        2
    }

    fn type_size() -> Option<usize> {
        Some(2)
    }

    fn serialize(&self, mem: BytesMut) -> (r: Result<BytesMut, SerError>) {
        self.to_wire().serialize(mem)
    }

    fn deserialize(mem: Bytes) -> (r: Result<Self, DeError>) {
        let ghost b = frozen_view(mem);
        match u16::deserialize(mem) {
            Ok(v) => {
                let r = Self::from_wire(v);
                assert forall|c: Self|
                    c.wf() && c.canonical() && #[trigger] c.spec_serialize(b.len()) == Ok::<
                        Seq<u8>,
                        SerErrorKind,
                    >(b) implies r == c by {
                    assert(c.spec_to_wire().spec_serialize(b.len()) == Ok::<Seq<u8>, SerErrorKind>(b));
                    c.lemma_wire_round_trip();
                }
                Ok(r)
            },
            Err(e) => Err(e),
        }
    }
}

/// Messages related to the netfilter netlink protocols.
#[derive(Clone, Copy, Debug, PartialEq, Eq, Hash, Structural)]
pub enum NetfilterMsg {
    LogPacket,
    LogConfig,
    /// Variant that signifies an invalid value while deserializing
    UnrecognizedVariant(u16),
}

impl NetfilterMsg {
    /// The wire value of this constant.
    pub open spec fn spec_to_wire(self) -> u16 {
        match self {
            NetfilterMsg::LogPacket => 0x0400,
            NetfilterMsg::LogConfig => 0x0401,
            NetfilterMsg::UnrecognizedVariant(i) => i,
        }
    }

    /// Whether a named variant is bound to `v`.
    pub open spec fn is_named(v: u16) -> bool {
        v == 0x0400 || v == 0x0401
    }

    /// The constant for wire value `v`: the named variant bound to it, else the raw value.
    pub open spec fn spec_from_wire(v: u16) -> Self {
        if v == 0x0400 {
            NetfilterMsg::LogPacket
        } else if v == 0x0401 {
            NetfilterMsg::LogConfig
        } else {
            NetfilterMsg::UnrecognizedVariant(v)
        }
    }

    /// Returns true if no variant corresponds to the value it was parsed from
    pub fn is_unrecognized(&self) -> (r: bool)
        ensures
            r == self is UnrecognizedVariant,
    {
        match self {
            NetfilterMsg::UnrecognizedVariant(_) => true,
            _ => false,
        }
    }

    /// The wire value of this constant.
    pub fn to_wire(&self) -> (r: u16)
        ensures
            r == self.spec_to_wire(),
    {
        match self {
            NetfilterMsg::LogPacket => 0x0400,
            NetfilterMsg::LogConfig => 0x0401,
            NetfilterMsg::UnrecognizedVariant(i) => *i,
        }
    }

    /// The constant for a wire value; a value that no name is bound to is kept raw.
    pub fn from_wire(v: u16) -> (r: Self)
        ensures
            r == Self::spec_from_wire(v),
            r.spec_to_wire() == v,
            r is UnrecognizedVariant <==> !Self::is_named(v),
    {
        match v {
            0x0400 => NetfilterMsg::LogPacket,
            0x0401 => NetfilterMsg::LogConfig,
            _ => NetfilterMsg::UnrecognizedVariant(v),
        }
    }

    /// Converting any wire value to the constant and back gives the same wire value.
    pub proof fn lemma_wire_total(v: u16)
        ensures
            Self::spec_from_wire(v).spec_to_wire() == v,
    {
    }

    /// Converting a canonical constant to its wire value and back gives the same constant.
    pub proof fn lemma_wire_round_trip(self)
        requires
            self.canonical(),
        ensures
            Self::spec_from_wire(self.spec_to_wire()) == self,
    {
    }
}

impl From<u16> for NetfilterMsg {
    fn from(v: u16) -> (r: Self) {
        Self::from_wire(v)
    }
}

impl vstd::std_specs::convert::FromSpecImpl<u16> for NetfilterMsg {
    open spec fn obeys_from_spec() -> bool {
        true
    }

    open spec fn from_spec(v: u16) -> Self {
        Self::spec_from_wire(v)
    }
}

impl From<NetfilterMsg> for u16 {
    fn from(v: NetfilterMsg) -> (r: Self) {
        v.to_wire()
    }
}

impl vstd::std_specs::convert::FromSpecImpl<NetfilterMsg> for u16 {
    open spec fn obeys_from_spec() -> bool {
        true
    }

    open spec fn from_spec(v: NetfilterMsg) -> Self {
        v.spec_to_wire()
    }
}

impl Nl for NetfilterMsg {
    open spec fn wf(&self) -> bool {
        true
    }

    open spec fn spec_size(&self) -> nat {
        2
    }

    open spec fn spec_type_size() -> Option<usize> {
        Some(2)
    }

    open spec fn spec_serialize(&self, len: nat) -> Result<Seq<u8>, SerErrorKind> {
        self.spec_to_wire().spec_serialize(len)
    }

    open spec fn spec_deserialize(b: Seq<u8>) -> Result<Self, DeErrorKind> {
        match u16::spec_deserialize(b) {
            Ok(v) => Ok(Self::spec_from_wire(v)),
            Err(k) => Err(k),
        }
    }

    /// Named, or holding a value that no name is bound to.
    open spec fn canonical(&self) -> bool {
        !(self is UnrecognizedVariant) || !Self::is_named(self.spec_to_wire())
    }

    proof fn lemma_type_size(&self) {
    }

    proof fn lemma_serialize_len(&self, len: nat) {
    }

    fn size(&self) -> usize {
        2
    }

    fn type_size() -> Option<usize> {
        Some(2)
    }

    fn serialize(&self, mem: BytesMut) -> (r: Result<BytesMut, SerError>) {
        self.to_wire().serialize(mem)
    }

    fn deserialize(mem: Bytes) -> (r: Result<Self, DeError>) {
        let ghost b = frozen_view(mem);
        match u16::deserialize(mem) {
            Ok(v) => {
                let r = Self::from_wire(v);
                assert forall|c: Self|
                    c.wf() && c.canonical() && #[trigger] c.spec_serialize(b.len()) == Ok::<
                        Seq<u8>,
                        SerErrorKind,
                    >(b) implies r == c by {
                    assert(c.spec_to_wire().spec_serialize(b.len()) == Ok::<Seq<u8>, SerErrorKind>(b));
                    c.lemma_wire_round_trip();
                }
                Ok(r)
            },
            Err(e) => Err(e),
        }
    }
}

/// Command value for `NfLogCfg::Cmd`.
#[derive(Clone, Copy, Debug, PartialEq, Eq, Hash, Structural)]
pub enum LogCmd {
    Bind,
    Unbind,
    PfBind,
    PfUnbind,
    /// Variant that signifies an invalid value while deserializing
    UnrecognizedVariant(u8),
}

impl LogCmd {
    /// The wire value of this constant.
    pub open spec fn spec_to_wire(self) -> u8 {
        match self {
            LogCmd::Bind => 1,
            LogCmd::Unbind => 2,
            LogCmd::PfBind => 3,
            LogCmd::PfUnbind => 4,
            LogCmd::UnrecognizedVariant(i) => i,
        }
    }

    /// Whether a named variant is bound to `v`.
    pub open spec fn is_named(v: u8) -> bool {
        v == 1 || v == 2 || v == 3 || v == 4
    }

    /// The constant for wire value `v`: the named variant bound to it, else the raw value.
    pub open spec fn spec_from_wire(v: u8) -> Self {
        if v == 1 {
            LogCmd::Bind
        } else if v == 2 {
            LogCmd::Unbind
        } else if v == 3 {
            LogCmd::PfBind
        } else if v == 4 {
            LogCmd::PfUnbind
        } else {
            LogCmd::UnrecognizedVariant(v)
        }
    }

    /// Returns true if no variant corresponds to the value it was parsed from
    pub fn is_unrecognized(&self) -> (r: bool)
        ensures
            r == self is UnrecognizedVariant,
    {
        match self {
            LogCmd::UnrecognizedVariant(_) => true,
            _ => false,
        }
    }

    /// The wire value of this constant.
    pub fn to_wire(&self) -> (r: u8)
        ensures
            r == self.spec_to_wire(),
    {
        match self {
            LogCmd::Bind => 1,
            LogCmd::Unbind => 2,
            LogCmd::PfBind => 3,
            LogCmd::PfUnbind => 4,
            LogCmd::UnrecognizedVariant(i) => *i,
        }
    }

    /// The constant for a wire value; a value that no name is bound to is kept raw.
    pub fn from_wire(v: u8) -> (r: Self)
        ensures
            r == Self::spec_from_wire(v),
            r.spec_to_wire() == v,
            r is UnrecognizedVariant <==> !Self::is_named(v),
    {
        match v {
            1 => LogCmd::Bind,
            2 => LogCmd::Unbind,
            3 => LogCmd::PfBind,
            4 => LogCmd::PfUnbind,
            _ => LogCmd::UnrecognizedVariant(v),
        }
    }

    /// Converting any wire value to the constant and back gives the same wire value.
    pub proof fn lemma_wire_total(v: u8)
        ensures
            Self::spec_from_wire(v).spec_to_wire() == v,
    {
    }

    /// Converting a canonical constant to its wire value and back gives the same constant.
    pub proof fn lemma_wire_round_trip(self)
        requires
            self.canonical(),
        ensures
            Self::spec_from_wire(self.spec_to_wire()) == self,
    {
    }
}

impl From<u8> for LogCmd {
    fn from(v: u8) -> (r: Self) {
        Self::from_wire(v)
    }
}

impl vstd::std_specs::convert::FromSpecImpl<u8> for LogCmd {
    open spec fn obeys_from_spec() -> bool {
        true
    }

    open spec fn from_spec(v: u8) -> Self {
        Self::spec_from_wire(v)
    }
}

impl From<LogCmd> for u8 {
    fn from(v: LogCmd) -> (r: Self) {
        v.to_wire()
    }
}

impl vstd::std_specs::convert::FromSpecImpl<LogCmd> for u8 {
    open spec fn obeys_from_spec() -> bool {
        true
    }

    open spec fn from_spec(v: LogCmd) -> Self {
        v.spec_to_wire()
    }
}

impl Nl for LogCmd {
    open spec fn wf(&self) -> bool {
        true
    }

    open spec fn spec_size(&self) -> nat {
        1
    }

    open spec fn spec_type_size() -> Option<usize> {
        Some(1)
    }

    open spec fn spec_serialize(&self, len: nat) -> Result<Seq<u8>, SerErrorKind> {
        self.spec_to_wire().spec_serialize(len)
    }

    open spec fn spec_deserialize(b: Seq<u8>) -> Result<Self, DeErrorKind> {
        match u8::spec_deserialize(b) {
            Ok(v) => Ok(Self::spec_from_wire(v)),
            Err(k) => Err(k),
        }
    }

    /// Named, or holding a value that no name is bound to.
    open spec fn canonical(&self) -> bool {
        !(self is UnrecognizedVariant) || !Self::is_named(self.spec_to_wire())
    }

    proof fn lemma_type_size(&self) {
    }

    proof fn lemma_serialize_len(&self, len: nat) {
    }

    fn size(&self) -> usize {
        1
    }

    fn type_size() -> Option<usize> {
        Some(1)
    }

    fn serialize(&self, mem: BytesMut) -> (r: Result<BytesMut, SerError>) {
        self.to_wire().serialize(mem)
    }

    fn deserialize(mem: Bytes) -> (r: Result<Self, DeError>) {
        let ghost b = frozen_view(mem);
        match u8::deserialize(mem) {
            Ok(v) => {
                let r = Self::from_wire(v);
                assert forall|c: Self|
                    c.wf() && c.canonical() && #[trigger] c.spec_serialize(b.len()) == Ok::<
                        Seq<u8>,
                        SerErrorKind,
                    >(b) implies r == c by {
                    assert(c.spec_to_wire().spec_serialize(b.len()) == Ok::<Seq<u8>, SerErrorKind>(b));
                    c.lemma_wire_round_trip();
                }
                Ok(r)
            },
            Err(e) => Err(e),
        }
    }
}

/// Copy mode of the logged packets.
#[derive(Clone, Copy, Debug, PartialEq, Eq, Hash, Structural)]
pub enum LogCopyMode {
    NoCopy,
    Meta,
    Packet,
    /// Variant that signifies an invalid value while deserializing
    UnrecognizedVariant(u8),
}

impl LogCopyMode {
    /// The wire value of this constant.
    pub open spec fn spec_to_wire(self) -> u8 {
        match self {
            LogCopyMode::NoCopy => 0,
            LogCopyMode::Meta => 1,
            LogCopyMode::Packet => 2,
            LogCopyMode::UnrecognizedVariant(i) => i,
        }
    }

    /// Whether a named variant is bound to `v`.
    pub open spec fn is_named(v: u8) -> bool {
        v == 0 || v == 1 || v == 2
    }

    /// The constant for wire value `v`: the named variant bound to it, else the raw value.
    pub open spec fn spec_from_wire(v: u8) -> Self {
        if v == 0 {
            LogCopyMode::NoCopy
        } else if v == 1 {
            LogCopyMode::Meta
        } else if v == 2 {
            LogCopyMode::Packet
        } else {
            LogCopyMode::UnrecognizedVariant(v)
        }
    }

    /// Returns true if no variant corresponds to the value it was parsed from
    pub fn is_unrecognized(&self) -> (r: bool)
        ensures
            r == self is UnrecognizedVariant,
    {
        match self {
            LogCopyMode::UnrecognizedVariant(_) => true,
            _ => false,
        }
    }

    /// The wire value of this constant.
    pub fn to_wire(&self) -> (r: u8)
        ensures
            r == self.spec_to_wire(),
    {
        match self {
            LogCopyMode::NoCopy => 0,
            LogCopyMode::Meta => 1,
            LogCopyMode::Packet => 2,
            LogCopyMode::UnrecognizedVariant(i) => *i,
        }
    }

    /// The constant for a wire value; a value that no name is bound to is kept raw.
    pub fn from_wire(v: u8) -> (r: Self)
        ensures
            r == Self::spec_from_wire(v),
            r.spec_to_wire() == v,
            r is UnrecognizedVariant <==> !Self::is_named(v),
    {
        match v {
            0 => LogCopyMode::NoCopy,
            1 => LogCopyMode::Meta,
            2 => LogCopyMode::Packet,
            _ => LogCopyMode::UnrecognizedVariant(v),
        }
    }

    /// Converting any wire value to the constant and back gives the same wire value.
    pub proof fn lemma_wire_total(v: u8)
        ensures
            Self::spec_from_wire(v).spec_to_wire() == v,
    {
    }

    /// Converting a canonical constant to its wire value and back gives the same constant.
    pub proof fn lemma_wire_round_trip(self)
        requires
            self.canonical(),
        ensures
            Self::spec_from_wire(self.spec_to_wire()) == self,
    {
    }
}

impl From<u8> for LogCopyMode {
    fn from(v: u8) -> (r: Self) {
        Self::from_wire(v)
    }
}

impl vstd::std_specs::convert::FromSpecImpl<u8> for LogCopyMode {
    open spec fn obeys_from_spec() -> bool {
        true
    }

    open spec fn from_spec(v: u8) -> Self {
        Self::spec_from_wire(v)
    }
}

impl From<LogCopyMode> for u8 {
    fn from(v: LogCopyMode) -> (r: Self) {
        v.to_wire()
    }
}

impl vstd::std_specs::convert::FromSpecImpl<LogCopyMode> for u8 {
    open spec fn obeys_from_spec() -> bool {
        true
    }

    open spec fn from_spec(v: LogCopyMode) -> Self {
        v.spec_to_wire()
    }
}

impl Nl for LogCopyMode {
    open spec fn wf(&self) -> bool {
        true
    }

    open spec fn spec_size(&self) -> nat {
        1
    }

    open spec fn spec_type_size() -> Option<usize> {
        Some(1)
    }

    open spec fn spec_serialize(&self, len: nat) -> Result<Seq<u8>, SerErrorKind> {
        self.spec_to_wire().spec_serialize(len)
    }

    open spec fn spec_deserialize(b: Seq<u8>) -> Result<Self, DeErrorKind> {
        match u8::spec_deserialize(b) {
            Ok(v) => Ok(Self::spec_from_wire(v)),
            Err(k) => Err(k),
        }
    }

    /// Named, or holding a value that no name is bound to.
    open spec fn canonical(&self) -> bool {
        !(self is UnrecognizedVariant) || !Self::is_named(self.spec_to_wire())
    }

    proof fn lemma_type_size(&self) {
    }

    proof fn lemma_serialize_len(&self, len: nat) {
    }

    fn size(&self) -> usize {
        1
    }

    fn type_size() -> Option<usize> {
        Some(1)
    }

    fn serialize(&self, mem: BytesMut) -> (r: Result<BytesMut, SerError>) {
        self.to_wire().serialize(mem)
    }

    fn deserialize(mem: Bytes) -> (r: Result<Self, DeError>) {
        let ghost b = frozen_view(mem);
        match u8::deserialize(mem) {
            Ok(v) => {
                let r = Self::from_wire(v);
                assert forall|c: Self|
                    c.wf() && c.canonical() && #[trigger] c.spec_serialize(b.len()) == Ok::<
                        Seq<u8>,
                        SerErrorKind,
                    >(b) implies r == c by {
                    assert(c.spec_to_wire().spec_serialize(b.len()) == Ok::<Seq<u8>, SerErrorKind>(b));
                    c.lemma_wire_round_trip();
                }
                Ok(r)
            },
            Err(e) => Err(e),
        }
    }
}

/// Parameters for `NfLogCfg::Cmd`.
pub trait LogCfgCmd: Nl {
}

impl LogCfgCmd for u8 {
}

impl LogCfgCmd for LogCmd {
}

impl LogCfgCmd for LogCfgCmdWrapper {
}

/// Wrapper that is valid anywhere that accepts a value implementing `LogCfgCmd`.
#[derive(Clone, Copy, Debug, PartialEq, Eq, Hash, Structural)]
pub enum LogCfgCmdWrapper {
    LogCmd(LogCmd),
    /// Constant could not be parsed into a type
    UnrecognizedConst(u8),
}

impl LogCfgCmdWrapper {
    /// The wire value of the constant held.
    pub open spec fn spec_to_wire(self) -> u8 {
        match self {
            LogCfgCmdWrapper::LogCmd(inner) => inner.spec_to_wire(),
            LogCfgCmdWrapper::UnrecognizedConst(v) => v,
        }
    }

    /// Whether one of the candidate types has a name bound to `v`.
    pub open spec fn is_named(v: u8) -> bool {
        LogCmd::is_named(v)
    }

    /// The first candidate, in declaration order, that recognizes `v`; else the raw value.
    pub open spec fn spec_from_wire(v: u8) -> Self {
        if LogCmd::is_named(v) {
            LogCfgCmdWrapper::LogCmd(LogCmd::spec_from_wire(v))
        } else {
            LogCfgCmdWrapper::UnrecognizedConst(v)
        }
    }

    /// The wire value of the constant held.
    pub fn to_wire(&self) -> (r: u8)
        ensures
            r == self.spec_to_wire(),
    {
        match self {
            LogCfgCmdWrapper::LogCmd(inner) => inner.to_wire(),
            LogCfgCmdWrapper::UnrecognizedConst(v) => *v,
        }
    }

    /// Try each candidate type in declaration order; the first that recognizes
    /// `v` wins. A value that none recognizes is kept raw.
    pub fn from_wire(v: u8) -> (r: Self)
        ensures
            r == Self::spec_from_wire(v),
            r.spec_to_wire() == v,
            r is UnrecognizedConst <==> !Self::is_named(v),
    {
        let var = LogCmd::from_wire(v);
        if !var.is_unrecognized() {
            return LogCfgCmdWrapper::LogCmd(var);
        }
        LogCfgCmdWrapper::UnrecognizedConst(v)
    }

    /// Converting any wire value to the constant and back gives the same wire value.
    pub proof fn lemma_wire_total(v: u8)
        ensures
            Self::spec_from_wire(v).spec_to_wire() == v,
    {
    }

    /// Converting a canonical constant to its wire value and back gives the same constant.
    pub proof fn lemma_wire_round_trip(self)
        requires
            self.canonical(),
        ensures
            Self::spec_from_wire(self.spec_to_wire()) == self,
    {
        if let LogCfgCmdWrapper::LogCmd(inner) = self {
            inner.lemma_wire_round_trip();
        }
    }
}

impl From<u8> for LogCfgCmdWrapper {
    fn from(v: u8) -> (r: Self) {
        Self::from_wire(v)
    }
}

impl vstd::std_specs::convert::FromSpecImpl<u8> for LogCfgCmdWrapper {
    open spec fn obeys_from_spec() -> bool {
        true
    }

    open spec fn from_spec(v: u8) -> Self {
        Self::spec_from_wire(v)
    }
}

impl From<LogCfgCmdWrapper> for u8 {
    fn from(v: LogCfgCmdWrapper) -> (r: Self) {
        v.to_wire()
    }
}

impl vstd::std_specs::convert::FromSpecImpl<LogCfgCmdWrapper> for u8 {
    open spec fn obeys_from_spec() -> bool {
        true
    }

    open spec fn from_spec(v: LogCfgCmdWrapper) -> Self {
        v.spec_to_wire()
    }
}

impl Nl for LogCfgCmdWrapper {
    open spec fn wf(&self) -> bool {
        true
    }

    open spec fn spec_size(&self) -> nat {
        1
    }

    open spec fn spec_type_size() -> Option<usize> {
        Some(1)
    }

    open spec fn spec_serialize(&self, len: nat) -> Result<Seq<u8>, SerErrorKind> {
        self.spec_to_wire().spec_serialize(len)
    }

    open spec fn spec_deserialize(b: Seq<u8>) -> Result<Self, DeErrorKind> {
        match u8::spec_deserialize(b) {
            Ok(v) => Ok(Self::spec_from_wire(v)),
            Err(k) => Err(k),
        }
    }

    /// Named, or holding a value that no name is bound to.
    open spec fn canonical(&self) -> bool {
        match *self {
            LogCfgCmdWrapper::LogCmd(inner) => !(inner is UnrecognizedVariant),
            LogCfgCmdWrapper::UnrecognizedConst(v) => !Self::is_named(v),
        }
    }

    proof fn lemma_type_size(&self) {
    }

    proof fn lemma_serialize_len(&self, len: nat) {
    }

    fn size(&self) -> usize {
        1
    }

    fn type_size() -> Option<usize> {
        Some(1)
    }

    fn serialize(&self, mem: BytesMut) -> (r: Result<BytesMut, SerError>) {
        self.to_wire().serialize(mem)
    }

    fn deserialize(mem: Bytes) -> (r: Result<Self, DeError>) {
        let ghost b = frozen_view(mem);
        match u8::deserialize(mem) {
            Ok(v) => {
                let r = Self::from_wire(v);
                assert forall|c: Self|
                    c.wf() && c.canonical() && #[trigger] c.spec_serialize(b.len()) == Ok::<
                        Seq<u8>,
                        SerErrorKind,
                    >(b) implies r == c by {
                    assert(c.spec_to_wire().spec_serialize(b.len()) == Ok::<Seq<u8>, SerErrorKind>(b));
                    c.lemma_wire_round_trip();
                }
                Ok(r)
            },
            Err(e) => Err(e),
        }
    }
}

/// An attribute ID of the netfilter log family: the attribute spaces of log
/// packets and of log configuration requests share one wire space, and the
/// packet attributes take precedence.
#[derive(Clone, Copy, Debug, PartialEq, Eq, Hash, Structural)]
pub enum NfLogAttrOrCfg {
    NfLogAttr(NfLogAttr),
    NfLogCfg(NfLogCfg),
    /// Constant could not be parsed into a type
    UnrecognizedConst(u16),
}

impl NfLogAttrOrCfg {
    /// The wire value of the constant held.
    pub open spec fn spec_to_wire(self) -> u16 {
        match self {
            NfLogAttrOrCfg::NfLogAttr(inner) => inner.spec_to_wire(),
            NfLogAttrOrCfg::NfLogCfg(inner) => inner.spec_to_wire(),
            NfLogAttrOrCfg::UnrecognizedConst(v) => v,
        }
    }

    /// Whether one of the candidate types has a name bound to `v`.
    pub open spec fn is_named(v: u16) -> bool {
        NfLogAttr::is_named(v) || NfLogCfg::is_named(v)
    }

    /// The first candidate, in declaration order, that recognizes `v`; else the raw value.
    pub open spec fn spec_from_wire(v: u16) -> Self {
        if NfLogAttr::is_named(v) {
            NfLogAttrOrCfg::NfLogAttr(NfLogAttr::spec_from_wire(v))
        } else if NfLogCfg::is_named(v) {
            NfLogAttrOrCfg::NfLogCfg(NfLogCfg::spec_from_wire(v))
        } else {
            NfLogAttrOrCfg::UnrecognizedConst(v)
        }
    }

    /// The wire value of the constant held.
    pub fn to_wire(&self) -> (r: u16)
        ensures
            r == self.spec_to_wire(),
    {
        match self {
            NfLogAttrOrCfg::NfLogAttr(inner) => inner.to_wire(),
            NfLogAttrOrCfg::NfLogCfg(inner) => inner.to_wire(),
            NfLogAttrOrCfg::UnrecognizedConst(v) => *v,
        }
    }

    /// Try each candidate type in declaration order; the first that recognizes
    /// `v` wins. A value that none recognizes is kept raw.
    pub fn from_wire(v: u16) -> (r: Self)
        ensures
            r == Self::spec_from_wire(v),
            r.spec_to_wire() == v,
            r is UnrecognizedConst <==> !Self::is_named(v),
    {
        let var = NfLogAttr::from_wire(v);
        if !var.is_unrecognized() {
            return NfLogAttrOrCfg::NfLogAttr(var);
        }
        let var = NfLogCfg::from_wire(v);
        if !var.is_unrecognized() {
            return NfLogAttrOrCfg::NfLogCfg(var);
        }
        NfLogAttrOrCfg::UnrecognizedConst(v)
    }

    /// Converting any wire value to the constant and back gives the same wire value.
    pub proof fn lemma_wire_total(v: u16)
        ensures
            Self::spec_from_wire(v).spec_to_wire() == v,
    {
    }

    /// Converting a canonical constant to its wire value and back gives the same constant.
    pub proof fn lemma_wire_round_trip(self)
        requires
            self.canonical(),
        ensures
            Self::spec_from_wire(self.spec_to_wire()) == self,
    {
        if let NfLogAttrOrCfg::NfLogAttr(inner) = self {
            inner.lemma_wire_round_trip();
        }
        if let NfLogAttrOrCfg::NfLogCfg(inner) = self {
            inner.lemma_wire_round_trip();
        }
    }
}

impl From<u16> for NfLogAttrOrCfg {
    fn from(v: u16) -> (r: Self) {
        Self::from_wire(v)
    }
}

impl vstd::std_specs::convert::FromSpecImpl<u16> for NfLogAttrOrCfg {
    open spec fn obeys_from_spec() -> bool {
        true
    }

    open spec fn from_spec(v: u16) -> Self {
        Self::spec_from_wire(v)
    }
}

impl From<NfLogAttrOrCfg> for u16 {
    fn from(v: NfLogAttrOrCfg) -> (r: Self) {
        v.to_wire()
    }
}

impl vstd::std_specs::convert::FromSpecImpl<NfLogAttrOrCfg> for u16 {
    open spec fn obeys_from_spec() -> bool {
        true
    }

    open spec fn from_spec(v: NfLogAttrOrCfg) -> Self {
        v.spec_to_wire()
    }
}

impl Nl for NfLogAttrOrCfg {
    open spec fn wf(&self) -> bool {
        true
    }

    open spec fn spec_size(&self) -> nat {
        2
    }

    open spec fn spec_type_size() -> Option<usize> {
        Some(2)
    }

    open spec fn spec_serialize(&self, len: nat) -> Result<Seq<u8>, SerErrorKind> {
        self.spec_to_wire().spec_serialize(len)
    }

    open spec fn spec_deserialize(b: Seq<u8>) -> Result<Self, DeErrorKind> {
        match u16::spec_deserialize(b) {
            Ok(v) => Ok(Self::spec_from_wire(v)),
            Err(k) => Err(k),
        }
    }

    /// Named, or holding a value that no name is bound to.
    open spec fn canonical(&self) -> bool {
        match *self {
            NfLogAttrOrCfg::NfLogAttr(inner) => !(inner is UnrecognizedVariant),
            NfLogAttrOrCfg::NfLogCfg(inner) => !(inner is UnrecognizedVariant) && !NfLogAttr::is_named(inner.spec_to_wire()),
            NfLogAttrOrCfg::UnrecognizedConst(v) => !Self::is_named(v),
        }
    }

    proof fn lemma_type_size(&self) {
    }

    proof fn lemma_serialize_len(&self, len: nat) {
    }

    fn size(&self) -> usize {
        2
    }

    fn type_size() -> Option<usize> {
        Some(2)
    }

    fn serialize(&self, mem: BytesMut) -> (r: Result<BytesMut, SerError>) {
        self.to_wire().serialize(mem)
    }

    fn deserialize(mem: Bytes) -> (r: Result<Self, DeError>) {
        let ghost b = frozen_view(mem);
        match u16::deserialize(mem) {
            Ok(v) => {
                let r = Self::from_wire(v);
                assert forall|c: Self|
                    c.wf() && c.canonical() && #[trigger] c.spec_serialize(b.len()) == Ok::<
                        Seq<u8>,
                        SerErrorKind,
                    >(b) implies r == c by {
                    assert(c.spec_to_wire().spec_serialize(b.len()) == Ok::<Seq<u8>, SerErrorKind>(b));
                    c.lemma_wire_round_trip();
                }
                Ok(r)
            },
            Err(e) => Err(e),
        }
    }
}

impl NlType for NetfilterMsg {
}

impl NlType for NfLogAttr {
}

impl NlType for NfLogCfg {
}

impl NlType for NfLogAttrOrCfg {
}

/// Where both candidate types bind a wire value, the first one, `NfLogAttr`,
/// wins; `NfLogCfg` gets only the values that `NfLogAttr` leaves unbound.
pub proof fn lemma_first_candidate_wins(v: u16)
    ensures
        NfLogAttr::is_named(v) ==> NfLogAttrOrCfg::spec_from_wire(v) == NfLogAttrOrCfg::NfLogAttr(
            NfLogAttr::spec_from_wire(v),
        ),
        !NfLogAttr::is_named(v) && NfLogCfg::is_named(v) ==> NfLogAttrOrCfg::spec_from_wire(v)
            == NfLogAttrOrCfg::NfLogCfg(NfLogCfg::spec_from_wire(v)),
        !NfLogAttrOrCfg::is_named(v) ==> NfLogAttrOrCfg::spec_from_wire(v)
            == NfLogAttrOrCfg::UnrecognizedConst(v),
{
}

} // verus!
