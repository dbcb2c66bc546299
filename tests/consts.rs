use neli::consts::{NlmF, NlmFFlags, Nlmsg};
use neli::netfilter::{LogCfgCmdWrapper, LogCmd, LogCopyMode, NetfilterMsg, NfLogAttr, NfLogAttrOrCfg, NfLogCfg};

#[test]
fn unrecognized_wire_value_is_kept() {
    let c = LogCmd::from_wire(99);
    assert_eq!(c, LogCmd::UnrecognizedVariant(99));
    assert!(c.is_unrecognized());
    assert_eq!(c.to_wire(), 99);
}

#[test]
fn named_wire_values_map_both_ways() {
    assert_eq!(LogCmd::from_wire(1), LogCmd::Bind);
    assert_eq!(LogCmd::from_wire(2), LogCmd::Unbind);
    assert_eq!(LogCmd::from_wire(3), LogCmd::PfBind);
    assert_eq!(LogCmd::PfUnbind.to_wire(), 4);
    assert!(!LogCmd::Bind.is_unrecognized());
    assert_eq!(LogCopyMode::from_wire(0), LogCopyMode::NoCopy);
    assert_eq!(LogCopyMode::Packet.to_wire(), 2);
    assert_eq!(NetfilterMsg::from_wire(0x0401), NetfilterMsg::LogConfig);
    assert_eq!(NfLogAttr::from_wire(12), NfLogAttr::SeqLocal);
    assert_eq!(NfLogAttr::CtInfo.to_wire(), 19);
    assert_eq!(NfLogCfg::from_wire(6), NfLogCfg::Flags);
    assert_eq!(Nlmsg::from_wire(1), Nlmsg::Noop);
    assert_eq!(NlmF::Dump.to_wire(), 0x300);
}

#[test]
fn every_wire_value_survives_a_round_trip() {
    for i in 0..=u16::MAX {
        assert_eq!(Nlmsg::from_wire(i).to_wire(), i);
        assert_eq!(NfLogAttr::from_wire(i).to_wire(), i);
        assert_eq!(NfLogAttrOrCfg::from_wire(i).to_wire(), i);
    }
    for i in 0..=u8::MAX {
        assert_eq!(LogCmd::from_wire(i).to_wire(), i);
        assert_eq!(LogCfgCmdWrapper::from_wire(i).to_wire(), i);
    }
}

#[test]
fn wrapper_prefers_first_candidate() {
    assert_eq!(NfLogAttrOrCfg::from_wire(5), NfLogAttrOrCfg::NfLogAttr(NfLogAttr::IfindexOutdev));
    assert_eq!(NfLogCfg::from_wire(5), NfLogCfg::QThresh);
    assert_eq!(NfLogAttrOrCfg::from_wire(300), NfLogAttrOrCfg::UnrecognizedConst(300));
    assert_eq!(LogCfgCmdWrapper::from_wire(2), LogCfgCmdWrapper::LogCmd(LogCmd::Unbind));
    assert_eq!(LogCfgCmdWrapper::from_wire(9), LogCfgCmdWrapper::UnrecognizedConst(9));
}

#[test]
fn header_flags_set_and_clear() {
    let mut f = NlmFFlags::new(&[NlmF::Request, NlmF::Ack]);
    assert_eq!(f.bits(), 5);
    assert!(f.contains(&NlmF::Ack));
    assert!(!f.contains(&NlmF::Echo));
    f.set(&NlmF::Echo);
    assert!(f.contains(&NlmF::Echo));
    f.unset(&NlmF::Ack);
    assert!(!f.contains(&NlmF::Ack));
    assert_eq!(f.bits(), 9);
    assert_eq!(NlmFFlags::empty().bits(), 0);
    assert_eq!(NlmFFlags::from_bits(4), NlmFFlags::new(&[NlmF::Ack]));
}

#[test]
fn conversions_through_from_and_into() {
    let w: u16 = NlmF::Ack.into();
    assert_eq!(w, 4);
    assert_eq!(Nlmsg::from(2u16), Nlmsg::Error);
    assert_eq!(Nlmsg::from(500u16), Nlmsg::UnrecognizedVariant(500));
    assert_eq!(u16::from(NfLogAttrOrCfg::from(5u16)), 5);
    assert_eq!(NfLogAttrOrCfg::from(6u16), NfLogAttrOrCfg::NfLogAttr(NfLogAttr::IfindexPhyindev));
    let b: u8 = LogCfgCmdWrapper::from(4u8).into();
    assert_eq!(b, 4);
    assert_eq!(LogCmd::from(250u8), LogCmd::UnrecognizedVariant(250));
}
