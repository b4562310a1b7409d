use packet_fields::{
    byteorder_get_src_dst, bytes_get_dest_mac, bytes_get_src_dst, pnet_get_dest_mac,
    pnet_get_src_dst, slice_get_dest_mac, ExtractError, Ipv4Address, MacAddr2, MacAddrBuf,
};
use rand::rngs::StdRng;
use rand::{RngExt, SeedableRng};

const PACKET: [u8; 60] = [
    0x45, 0x0, 0x0, 0x3c, 0x30, 0x66, 0x40, 0x0, 0x40, 0x06, 0xc, 0x54, 0x7f, 0x0, 0x0, 0x01,
    0x7f, 0x0, 0x0, 0x02, 0xdc, 0x52, 0x0, 0x50, 0x04, 0x54, 0x76, 0x5d, 0x0, 0x0, 0x0, 0x0,
    0xa0, 0x02, 0xaa, 0xaa, 0xfe, 0x30, 0x0, 0x0, 0x02, 0x04, 0xff, 0xd7, 0x04, 0x02, 0x08,
    0x0a, 0x05, 0x01, 0x45, 0x3b, 0x0, 0x0, 0x0, 0x0, 0x01, 0x03, 0x03, 0x07,
];

const ETHER_PACKET: [u8; 14] = [
    0xbc, 0x5f, 0xf4, 0x36, 0x5a, 0xbe, 0x68, 0x05, 0xca, 0x21, 0x58, 0x86, 0x08, 0x00,
];

#[test]
fn get_src_dst() {
    let src = Ipv4Address::new(127, 0, 0, 1);
    let dst = Ipv4Address::new(127, 0, 0, 2);

    if let Ok((pnet_src, pnet_dst)) = pnet_get_src_dst(&PACKET) {
        assert_eq!(pnet_src, src);
        assert_eq!(pnet_dst, dst);
    }
    if let Ok((bo_src, bo_dst)) = byteorder_get_src_dst(&PACKET) {
        assert_eq!(bo_src, src);
        assert_eq!(bo_dst, dst);
    }
    let (by_src, by_dst) = bytes_get_src_dst(&PACKET).unwrap();
    assert_eq!(by_src, src);
    assert_eq!(by_dst, dst);
}

#[test]
fn canonical_packet_gives_one_pair_by_every_strategy() {
    let expected = Ok((Ipv4Address::new(127, 0, 0, 1), Ipv4Address::new(127, 0, 0, 2)));
    assert_eq!(bytes_get_src_dst(&PACKET), expected);
    assert_eq!(byteorder_get_src_dst(&PACKET), expected);
    assert_eq!(pnet_get_src_dst(&PACKET), expected);
}

#[test]
fn header_of_exactly_twenty_bytes_is_accepted() {
    let expected = Ok((Ipv4Address::new(127, 0, 0, 1), Ipv4Address::new(127, 0, 0, 2)));
    assert_eq!(bytes_get_src_dst(&PACKET[..20]), expected);
    assert_eq!(byteorder_get_src_dst(&PACKET[..20]), expected);
    assert_eq!(pnet_get_src_dst(&PACKET[..20]), expected);
}

#[test]
fn short_ipv4_buffers_are_malformed() {
    for len in 0..20 {
        for fill in [0x00u8, 0x7f, 0xff] {
            let buf = vec![fill; len];
            assert_eq!(bytes_get_src_dst(&buf), Err(ExtractError::Malformed));
            assert_eq!(byteorder_get_src_dst(&buf), Err(ExtractError::Malformed));
            assert_eq!(pnet_get_src_dst(&buf), Err(ExtractError::Malformed));
        }
        assert_eq!(bytes_get_src_dst(&PACKET[..len]), Err(ExtractError::Malformed));
        assert_eq!(byteorder_get_src_dst(&PACKET[..len]), Err(ExtractError::Malformed));
        assert_eq!(pnet_get_src_dst(&PACKET[..len]), Err(ExtractError::Malformed));
    }
}

#[test]
fn source_and_destination_come_from_their_own_offsets() {
    let mut buf = [0u8; 24];
    for (i, b) in buf.iter_mut().enumerate() {
        *b = i as u8 + 100;
    }
    let expected = Ok((Ipv4Address::new(112, 113, 114, 115), Ipv4Address::new(116, 117, 118, 119)));
    assert_eq!(bytes_get_src_dst(&buf), expected);
    assert_eq!(byteorder_get_src_dst(&buf), expected);
    assert_eq!(pnet_get_src_dst(&buf), expected);
}

#[test]
fn copy_and_sequential_read_agree_byte_for_byte() {
    let mut rng = StdRng::seed_from_u64(0x1234_5678);
    for _ in 0..2000 {
        let len = rng.random_range(20..=64usize);
        let mut buf = vec![0u8; len];
        rng.fill(&mut buf[..]);
        let copied = bytes_get_src_dst(&buf).unwrap();
        let read = byteorder_get_src_dst(&buf).unwrap();
        assert_eq!(copied.0.octets(), read.0.octets());
        assert_eq!(copied.1.octets(), read.1.octets());
        assert_eq!(&copied.0.octets()[..], &buf[12..16]);
        assert_eq!(&copied.1.octets()[..], &buf[16..20]);
        assert_eq!(pnet_get_src_dst(&buf), Ok(copied));
    }
}

#[test]
fn destination_of_the_sample_frame() {
    let expected = MacAddr2::new(0xbc, 0x5f, 0xf4, 0x36, 0x5a, 0xbe);
    assert_eq!(bytes_get_dest_mac(&ETHER_PACKET), Ok(expected));
    assert_eq!(pnet_get_dest_mac(&ETHER_PACKET), Ok(expected));
    let borrowed = slice_get_dest_mac(&ETHER_PACKET).unwrap();
    assert_eq!(borrowed.as_slice(), &ETHER_PACKET[..6]);
    assert_eq!(borrowed, MacAddrBuf::new(&[0xbc, 0x5f, 0xf4, 0x36, 0x5a, 0xbe]));
}

#[test]
fn short_frames_are_malformed() {
    for len in 0..12 {
        for fill in [0x00u8, 0x5a, 0xff] {
            let buf = vec![fill; len];
            assert!(matches!(slice_get_dest_mac(&buf), Err(ExtractError::Malformed)));
            assert_eq!(bytes_get_dest_mac(&buf), Err(ExtractError::Malformed));
            assert_eq!(pnet_get_dest_mac(&buf), Err(ExtractError::Malformed));
        }
    }
}

#[test]
fn frame_length_limits() {
    let expected = MacAddr2::new(0xbc, 0x5f, 0xf4, 0x36, 0x5a, 0xbe);
    for len in [12usize, 13] {
        let buf = &ETHER_PACKET[..len];
        assert_eq!(bytes_get_dest_mac(buf), Ok(expected));
        assert_eq!(slice_get_dest_mac(buf).unwrap().as_slice(), &ETHER_PACKET[..6]);
        assert_eq!(pnet_get_dest_mac(buf), Err(ExtractError::Malformed));
    }
    assert_eq!(pnet_get_dest_mac(&ETHER_PACKET[..14]), Ok(expected));
    let mut longer = ETHER_PACKET.to_vec();
    longer.extend_from_slice(&[1, 2, 3, 4]);
    assert_eq!(pnet_get_dest_mac(&longer), Ok(expected));
    assert_eq!(bytes_get_dest_mac(&longer), Ok(expected));
}

#[test]
fn borrowed_destination_does_not_copy() {
    let frame = ETHER_PACKET;
    let borrowed = slice_get_dest_mac(&frame).unwrap();
    assert_eq!(borrowed.as_slice().as_ptr(), frame.as_ptr());
    assert_eq!(borrowed.as_slice().len(), 6);
}

#[test]
fn random_buffers_give_a_value_or_a_declared_failure() {
    let mut rng = StdRng::seed_from_u64(42);
    for _ in 0..10_000 {
        let len = rng.random_range(0..=64usize);
        let mut buf = vec![0u8; len];
        rng.fill(&mut buf[..]);

        let ipv4 = if len >= 20 {
            Ok((
                Ipv4Address::from([buf[12], buf[13], buf[14], buf[15]]),
                Ipv4Address::from([buf[16], buf[17], buf[18], buf[19]]),
            ))
        } else {
            Err(ExtractError::Malformed)
        };
        assert_eq!(bytes_get_src_dst(&buf), ipv4);
        assert_eq!(byteorder_get_src_dst(&buf), ipv4);
        assert_eq!(pnet_get_src_dst(&buf), ipv4);

        let mac_of = |min: usize| {
            if len >= min {
                Ok(MacAddr2::from([buf[0], buf[1], buf[2], buf[3], buf[4], buf[5]]))
            } else {
                Err(ExtractError::Malformed)
            }
        };
        assert_eq!(bytes_get_dest_mac(&buf), mac_of(12));
        assert_eq!(pnet_get_dest_mac(&buf), mac_of(14));
        match slice_get_dest_mac(&buf) {
            Ok(mac) => {
                assert!(len >= 12);
                assert_eq!(mac.as_slice(), &buf[..6]);
            }
            Err(e) => {
                assert!(len < 12);
                assert_eq!(e, ExtractError::Malformed);
            }
        }
    }
}
