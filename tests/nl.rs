use std::io::Cursor;

use byteorder::{NativeEndian, WriteBytesExt};
use bytes::{Bytes, BytesMut};
use neli::codec::Nl;
use neli::consts::{NlmF, NlmFFlags, Nlmsg};
use neli::err::{DeError, Nlmsgerr, SerError};
use neli::netfilter::{NfLogAttr, NfLogAttrOrCfg};
use neli::nl::{NlEmpty, Nlmsghdr};

fn zeroed(n: usize) -> BytesMut {
    BytesMut::from(&vec![0u8; n][..])
}

#[test]
fn test_nlmsghdr_serialize() {
    let nl = Nlmsghdr::<Nlmsg, NlEmpty>::new(
        None,
        Nlmsg::Noop,
        NlmFFlags::empty(),
        None,
        None,
        NlEmpty,
    );
    let mut mem = zeroed(nl.asize());
    mem = nl.serialize(mem).unwrap();
    let mut s = [0u8; 16];
    {
        let mut c = Cursor::new(&mut s as &mut [u8]);
        c.write_u32::<NativeEndian>(16).unwrap();
        c.write_u16::<NativeEndian>(1).unwrap();
    };
    assert_eq!(&s, mem.as_ref())
}

#[test]
fn test_nlmsghdr_deserialize() {
    let mut s = [0u8; 16];
    {
        let mut c = Cursor::new(&mut s as &mut [u8]);
        c.write_u32::<NativeEndian>(16).unwrap();
        c.write_u16::<NativeEndian>(1).unwrap();
        c.write_u16::<NativeEndian>(NlmF::Ack.into()).unwrap();
    }
    let nl = Nlmsghdr::<Nlmsg, NlEmpty>::deserialize(Bytes::copy_from_slice(&s)).unwrap();
    assert_eq!(
        Nlmsghdr::<Nlmsg, NlEmpty>::new(
            None,
            Nlmsg::Noop,
            NlmFFlags::new(&[NlmF::Ack]),
            None,
            None,
            NlEmpty
        ),
        nl
    );
}

#[test]
fn empty_header_has_declared_length_sixteen() {
    let nl = Nlmsghdr::<Nlmsg, NlEmpty>::new(None, Nlmsg::Noop, NlmFFlags::empty(), None, None, NlEmpty);
    assert_eq!(nl.nl_len, 16);
    assert_eq!(nl.size(), 16);
    assert_eq!(nl.asize(), 16);
    assert_eq!(nl.nl_seq, 0);
    assert_eq!(nl.nl_pid, 0);
}

#[test]
fn empty_header_round_trips_with_empty_flags() {
    let nl = Nlmsghdr::<Nlmsg, NlEmpty>::new(None, Nlmsg::Noop, NlmFFlags::empty(), None, None, NlEmpty);
    let mem = nl.serialize(zeroed(16)).unwrap();
    let back = Nlmsghdr::<Nlmsg, NlEmpty>::deserialize(Bytes::copy_from_slice(mem.as_ref())).unwrap();
    assert_eq!(back.nl_len, 16);
    assert_eq!(back.nl_type, Nlmsg::Noop);
    assert!(back.nl_flags.bits() == 0);
    assert_eq!(back.nl_payload, NlEmpty);
    assert_eq!(back, nl);
}

#[test]
fn serialize_into_short_buffer_fails_and_keeps_length() {
    let nl = Nlmsghdr::<Nlmsg, NlEmpty>::new(None, Nlmsg::Noop, NlmFFlags::empty(), None, None, NlEmpty);
    match nl.serialize(zeroed(15)) {
        Err(SerError::UnexpectedEOB(b)) => assert_eq!(b.len(), 15),
        other => panic!("unexpected result: {:?}", other),
    }
}

#[test]
fn serialize_into_tiny_buffer_fails_and_keeps_length() {
    let nl = Nlmsghdr::<Nlmsg, NlEmpty>::new(None, Nlmsg::Noop, NlmFFlags::empty(), None, None, NlEmpty);
    match nl.serialize(zeroed(3)) {
        Err(SerError::UnexpectedEOB(b)) => assert_eq!(b.len(), 3),
        other => panic!("unexpected result: {:?}", other),
    }
}

#[test]
fn serialize_into_long_buffer_is_not_filled_and_keeps_length() {
    let nl = Nlmsghdr::<Nlmsg, NlEmpty>::new(None, Nlmsg::Noop, NlmFFlags::empty(), None, None, NlEmpty);
    match nl.serialize(zeroed(20)) {
        Err(SerError::BufferNotFilled(b)) => assert_eq!(b.len(), 20),
        other => panic!("unexpected result: {:?}", other),
    }
}

#[test]
fn header_with_unaligned_payload_is_padded_with_zeros() {
    let nl = Nlmsghdr::<Nlmsg, u16>::new(None, Nlmsg::Done, NlmFFlags::new(&[NlmF::Request, NlmF::Ack]), Some(7), Some(9), 0xabcd);
    assert_eq!(nl.size(), 18);
    assert_eq!(nl.asize(), 20);
    assert_eq!(nl.nl_len, 18);
    let mem = nl.serialize(BytesMut::from(&[0xffu8; 20][..])).unwrap();
    let mut s = [0u8; 20];
    {
        let mut c = Cursor::new(&mut s as &mut [u8]);
        c.write_u32::<NativeEndian>(18).unwrap();
        c.write_u16::<NativeEndian>(3).unwrap();
        c.write_u16::<NativeEndian>(5).unwrap();
        c.write_u32::<NativeEndian>(7).unwrap();
        c.write_u32::<NativeEndian>(9).unwrap();
        c.write_u16::<NativeEndian>(0xabcd).unwrap();
    }
    assert_eq!(&s, mem.as_ref());
    let back = Nlmsghdr::<Nlmsg, u16>::deserialize(Bytes::copy_from_slice(&s)).unwrap();
    assert_eq!(back, nl);
}

#[test]
fn header_with_u32_payload_round_trips() {
    let nl = Nlmsghdr::<u16, u32>::new(None, 0x10, NlmFFlags::empty(), Some(1), Some(2), 0xdead_beef);
    assert_eq!(nl.asize(), 20);
    let mem = nl.serialize(zeroed(20)).unwrap();
    let back = Nlmsghdr::<u16, u32>::deserialize(Bytes::copy_from_slice(mem.as_ref())).unwrap();
    assert_eq!(back, nl);
}

#[test]
fn header_with_unrecognized_type_round_trips() {
    let nl = Nlmsghdr::<Nlmsg, NlEmpty>::new(None, Nlmsg::UnrecognizedVariant(77), NlmFFlags::empty(), None, None, NlEmpty);
    let mem = nl.serialize(zeroed(16)).unwrap();
    let back = Nlmsghdr::<Nlmsg, NlEmpty>::deserialize(Bytes::copy_from_slice(mem.as_ref())).unwrap();
    assert_eq!(back.nl_type, Nlmsg::UnrecognizedVariant(77));
}

#[test]
fn deserialize_short_buffer_is_unexpected_eob() {
    let r = Nlmsghdr::<Nlmsg, NlEmpty>::deserialize(Bytes::copy_from_slice(&[0u8; 10]));
    assert!(matches!(r, Err(DeError::UnexpectedEOB)));
}

#[test]
fn deserialize_trailing_bytes_is_buffer_not_parsed() {
    let mut s = [0u8; 20];
    {
        let mut c = Cursor::new(&mut s as &mut [u8]);
        c.write_u32::<NativeEndian>(16).unwrap();
        c.write_u16::<NativeEndian>(1).unwrap();
    }
    let r = Nlmsghdr::<Nlmsg, NlEmpty>::deserialize(Bytes::copy_from_slice(&s));
    assert!(matches!(r, Err(DeError::BufferNotParsed)));
}

#[test]
fn deserialize_strips_padding_from_declared_length() {
    let mut s = [0u8; 20];
    {
        let mut c = Cursor::new(&mut s as &mut [u8]);
        c.write_u32::<NativeEndian>(17).unwrap();
        c.write_u16::<NativeEndian>(2).unwrap();
    }
    let nl = Nlmsghdr::<Nlmsg, NlEmpty>::deserialize(Bytes::copy_from_slice(&s)).unwrap();
    assert_eq!(nl.nl_len, 17);
    assert_eq!(nl.nl_type, Nlmsg::Error);
    let r = Nlmsghdr::<Nlmsg, NlEmpty>::deserialize(Bytes::copy_from_slice(&s[..19]));
    assert!(matches!(r, Err(DeError::UnexpectedEOB)));
}

#[test]
fn integers_use_native_byte_order() {
    let mem = 0x0102_0304u32.serialize(zeroed(4)).unwrap();
    assert_eq!(mem.as_ref(), &0x0102_0304u32.to_ne_bytes());
    let v = u32::deserialize(Bytes::copy_from_slice(&0x0a0b_0c0du32.to_ne_bytes())).unwrap();
    assert_eq!(v, 0x0a0b_0c0d);
    let mem = (-2i32).serialize(zeroed(4)).unwrap();
    assert_eq!(mem.as_ref(), &(-2i32).to_ne_bytes());
    assert_eq!(i32::deserialize(Bytes::copy_from_slice(&(-7i32).to_ne_bytes())).unwrap(), -7);
    let mem = 0xbeefu16.serialize(zeroed(2)).unwrap();
    assert_eq!(mem.as_ref(), &0xbeefu16.to_ne_bytes());
    assert_eq!(u16::deserialize(Bytes::copy_from_slice(&[1, 2])).unwrap(), u16::from_ne_bytes([1, 2]));
    let mem = 0x7fu8.serialize(zeroed(1)).unwrap();
    assert_eq!(mem.as_ref(), &[0x7f]);
    assert_eq!(u8::deserialize(Bytes::copy_from_slice(&[0x42])).unwrap(), 0x42);
}

#[test]
fn integer_size_errors() {
    match 5u32.serialize(zeroed(3)) {
        Err(SerError::UnexpectedEOB(b)) => assert_eq!(b.len(), 3),
        other => panic!("unexpected result: {:?}", other),
    }
    match 5u32.serialize(zeroed(5)) {
        Err(SerError::BufferNotFilled(b)) => assert_eq!(b.len(), 5),
        other => panic!("unexpected result: {:?}", other),
    }
    assert!(matches!(u32::deserialize(Bytes::copy_from_slice(&[0; 3])), Err(DeError::UnexpectedEOB)));
    assert!(matches!(u32::deserialize(Bytes::copy_from_slice(&[0; 5])), Err(DeError::BufferNotParsed)));
}

#[test]
fn empty_payload_is_a_no_op() {
    assert_eq!(NlEmpty.size(), 0);
    assert_eq!(NlEmpty::type_size(), Some(0));
    let mem = NlEmpty.serialize(zeroed(0)).unwrap();
    assert_eq!(mem.len(), 0);
    assert_eq!(NlEmpty::deserialize(Bytes::new()).unwrap(), NlEmpty);
}

#[test]
fn header_type_size_sums_fields() {
    assert_eq!(Nlmsghdr::<Nlmsg, NlEmpty>::type_size(), Some(16));
    assert_eq!(Nlmsghdr::<Nlmsg, u32>::type_size(), Some(20));
}

#[test]
fn error_packet_round_trips() {
    let hdr = Nlmsghdr::<Nlmsg, NlEmpty>::new(None, Nlmsg::Noop, NlmFFlags::new(&[NlmF::Request]), Some(3), Some(4), NlEmpty);
    let e = Nlmsgerr { error: -2, nlmsg: hdr };
    assert_eq!(e.size(), 20);
    assert_eq!(e.asize(), 20);
    assert_eq!(Nlmsgerr::<Nlmsg>::type_size(), Some(20));
    let mem = e.serialize(zeroed(20)).unwrap();
    assert_eq!(&mem.as_ref()[..4], &(-2i32).to_ne_bytes());
    assert_eq!(&mem.as_ref()[4..8], &16u32.to_ne_bytes());
    let back = Nlmsgerr::<Nlmsg>::deserialize(Bytes::copy_from_slice(mem.as_ref())).unwrap();
    assert_eq!(back, e);
    assert!(matches!(Nlmsgerr::<Nlmsg>::deserialize(Bytes::copy_from_slice(&[0; 3])), Err(DeError::UnexpectedEOB)));
    match e.serialize(zeroed(19)) {
        Err(SerError::UnexpectedEOB(b)) => assert_eq!(b.len(), 19),
        other => panic!("unexpected result: {:?}", other),
    }
}

fn header_bytes(declared: u32, ty: u16, total: usize) -> Vec<u8> {
    let mut s = vec![0u8; total];
    {
        let mut c = Cursor::new(&mut s[..]);
        c.write_u32::<NativeEndian>(declared).unwrap();
        c.write_u16::<NativeEndian>(ty).unwrap();
    }
    s
}

#[test]
fn declared_length_shorter_than_fields_is_unexpected_eob() {
    for declared in [0u32, 4, 12, 15] {
        let r = Nlmsghdr::<Nlmsg, NlEmpty>::deserialize(Bytes::from(header_bytes(declared, 1, 16)));
        assert!(matches!(r, Err(DeError::UnexpectedEOB)));
    }
}

#[test]
fn declared_length_longer_than_buffer_is_unexpected_eob() {
    let r = Nlmsghdr::<Nlmsg, NlEmpty>::deserialize(Bytes::from(header_bytes(100, 1, 16)));
    assert!(matches!(r, Err(DeError::UnexpectedEOB)));
    let r = Nlmsghdr::<Nlmsg, NlEmpty>::deserialize(Bytes::from(header_bytes(24, 1, 20)));
    assert!(matches!(r, Err(DeError::UnexpectedEOB)));
}

#[test]
fn declared_length_covering_extra_bytes_is_accepted() {
    let nl = Nlmsghdr::<Nlmsg, NlEmpty>::deserialize(Bytes::from(header_bytes(24, 1, 24))).unwrap();
    assert_eq!(nl.nl_len, 24);
    let r = Nlmsghdr::<Nlmsg, NlEmpty>::deserialize(Bytes::from(header_bytes(20, 1, 24)));
    assert!(matches!(r, Err(DeError::BufferNotParsed)));
}

#[test]
fn header_over_wrapper_resolves_first_candidate() {
    let nl = Nlmsghdr::<NfLogAttrOrCfg, NlEmpty>::deserialize(Bytes::from(header_bytes(16, 5, 16))).unwrap();
    assert_eq!(nl.nl_type, NfLogAttrOrCfg::NfLogAttr(NfLogAttr::IfindexOutdev));
    let nl = Nlmsghdr::<NfLogAttrOrCfg, NlEmpty>::deserialize(Bytes::from(header_bytes(16, 4000, 16))).unwrap();
    assert_eq!(nl.nl_type, NfLogAttrOrCfg::UnrecognizedConst(4000));
}
