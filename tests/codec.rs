use bytes::BytesMut;
use opc_codec::codec::verify_vec_size;
use opc_codec::{
    decode_frame, encode_frame, OPCCodec, OpcHeader, OpcMessage, OpcMessageData, Pixels,
    SystemExclusiveData,
};

#[test]
fn vec_of_pixels_deserialized() {
    let mut pixels_vec: BytesMut = vec![1u8, // channel
    0, // command
    0, 3, // size
    1, 2, 3]
        .into();
    let mut codec = OPCCodec;

    let pixelsmsg: OpcMessage = codec.decode(&mut pixels_vec).unwrap();

    assert_eq!(pixelsmsg.channel, 1);

    let pixels = match pixelsmsg.message {
        OpcMessageData::SetPixelColours(pixels) => pixels,
        _ => panic!("wrong message"),
    };
    let pixel = pixels.iter().next().unwrap();
    assert_eq!(pixel.r(), 1);
    assert_eq!(pixel.g(), 2);
    assert_eq!(pixel.b(), 3);
}

#[test]
fn vec_of_pixels_serialized() {
    let mut p = Pixels::new(1);
    {
        let mut pixel = p.iter_mut().next().unwrap();
        pixel.set_r(1);
        pixel.set_g(2);
        pixel.set_b(3);
    }
    let msg = OpcMessage::new(1, OpcMessageData::SetPixelColours(p));
    let expect_pixels_vec = vec![1u8, // channel
    0, // command
    0, 3, // size
    1, 2, 3];

    let mut serialized = bytes::Bytes::new().try_mut().unwrap();
    let mut codec = OPCCodec;

    codec.encode(msg, &mut serialized);

    assert_eq!(expect_pixels_vec, serialized.to_vec());
}

#[test]
fn header_round_trip() {
    for &(c, m, l) in &[(0u8, 0u8, 0u16), (1, 255, 258), (255, 42, 65535), (7, 1, 256)] {
        let h = OpcHeader { channel: c, command: m, length: l };
        let b = h.to_bytes();
        assert_eq!(OpcHeader::new(&b), h);
    }
}

#[test]
fn header_bytes_are_big_endian() {
    let h = OpcHeader { channel: 3, command: 4, length: 0x0102 };
    assert_eq!(h.to_bytes(), [3, 4, 1, 2]);
    let parsed = OpcHeader::new(&[9, 8, 0xab, 0xcd, 77]);
    assert_eq!(parsed, OpcHeader { channel: 9, command: 8, length: 0xabcd });
}

#[test]
fn zero_pixels_round_trip() {
    for n in [0usize, 1, 5, 100] {
        let msg = OpcMessage::new(4, OpcMessageData::SetPixelColours(Pixels::new(n)));
        let frame = encode_frame(msg);
        assert_eq!(frame.len(), 4 + 3 * n);
        let (back, used) = decode_frame(&frame).unwrap();
        assert_eq!(used, frame.len());
        assert_eq!(back.channel, 4);
        match back.message {
            OpcMessageData::SetPixelColours(p) => {
                assert_eq!(p.len_bytes(), 3 * n);
                assert!(p.into_bytes().iter().all(|&b| b == 0));
            }
            _ => panic!("wrong message"),
        }
    }
}

#[test]
fn pixels_truncate_partial_pixel() {
    assert_eq!(Pixels::from_bytes(vec![1, 2, 3, 4]).len_bytes(), 3);
    assert_eq!(Pixels::from_bytes(vec![1, 2, 3, 4, 5]).into_bytes(), vec![1, 2, 3]);
    assert_eq!(Pixels::from_bytes(vec![1, 2]).len_bytes(), 0);
    assert_eq!(Pixels::from_bytes(vec![1, 2, 3, 4, 5, 6]).len_bytes(), 6);
}

#[test]
fn system_exclusive_round_trip() {
    for &id in &[0u16, 1, 0x1234, 65535] {
        let s = SystemExclusiveData::newo(id, vec![9, 8, 7]);
        assert_eq!(s.get_system_id(), id);
        assert_eq!(s.get_data(), &[9, 8, 7][..]);
    }
    let s = SystemExclusiveData::newo(0x0102, vec![]);
    assert_eq!(s.len_bytes(), 2);
    assert_eq!(s.into_bytes(), vec![1, 2]);
}

#[test]
fn short_system_exclusive_defaults() {
    let empty = SystemExclusiveData::from_bytes(vec![]);
    assert_eq!(empty.get_system_id(), 0);
    assert!(empty.get_data().is_empty());
    let one = SystemExclusiveData::from_bytes(vec![7]);
    assert_eq!(one.get_system_id(), 0);
    assert!(one.get_data().is_empty());
}

#[test]
fn incremental_decode() {
    let frame = [1u8, 0, 0, 3, 1, 2, 3];
    let mut buf = BytesMut::new();
    buf.extend_from_slice(&frame[..3]);
    let mut codec = OPCCodec;
    assert!(codec.decode(&mut buf).is_none());
    assert_eq!(buf.to_vec(), vec![1, 0, 0]);
    buf.extend_from_slice(&frame[3..]);
    let msg = codec.decode(&mut buf).unwrap();
    assert_eq!(msg.channel, 1);
    assert!(buf.is_empty());
    match msg.message {
        OpcMessageData::SetPixelColours(p) => assert_eq!(p.into_bytes(), vec![1, 2, 3]),
        _ => panic!("wrong message"),
    }
}

#[test]
fn incomplete_payload_consumes_nothing() {
    let mut buf: BytesMut = vec![1u8, 0, 0, 6, 1, 2, 3].into();
    let mut codec = OPCCodec;
    assert!(codec.decode_eof(&mut buf).is_none());
    assert_eq!(buf.len(), 7);
    assert!(decode_frame(&[1, 0, 0, 6, 1, 2, 3]).is_none());
    assert!(decode_frame(&[]).is_none());
}

#[test]
fn decode_leaves_next_frame() {
    let mut buf: BytesMut = vec![1u8, 0, 0, 3, 1, 2, 3, 2, 9, 0].into();
    let mut codec = OPCCodec;
    let msg = codec.decode(&mut buf).unwrap();
    assert_eq!(msg.channel, 1);
    assert_eq!(buf.to_vec(), vec![2, 9, 0]);
    let (_, used) = decode_frame(&[1u8, 0, 0, 3, 1, 2, 3, 2, 9, 0]).unwrap();
    assert_eq!(used, 7);
}

#[test]
fn scenario_decode_pixels() {
    let (msg, used) = decode_frame(&[1, 0, 0, 3, 1, 2, 3]).unwrap();
    assert_eq!(used, 7);
    assert_eq!(msg.channel, 1);
    match msg.message {
        OpcMessageData::SetPixelColours(p) => {
            let mut it = p.iter();
            assert_eq!(it.len(), 1);
            let px = it.next().unwrap();
            assert_eq!((px.r(), px.g(), px.b()), (1, 2, 3));
            assert!(it.next().is_none());
        }
        _ => panic!("wrong message"),
    }
}

#[test]
fn scenario_encode_pixels() {
    let mut p = Pixels::new(1);
    {
        let mut px = p.iter_mut().next().unwrap();
        px.set_r(1);
        px.set_g(2);
        px.set_b(3);
    }
    let frame = encode_frame(OpcMessage::new(1, OpcMessageData::SetPixelColours(p)));
    assert_eq!(frame, vec![1, 0, 0, 3, 1, 2, 3]);
}

#[test]
fn scenario_decode_system_exclusive() {
    let mut buf: BytesMut = vec![2u8, 255, 0, 4, 0, 1, 9, 9].into();
    let msg = OPCCodec.decode(&mut buf).unwrap();
    assert_eq!(msg.channel, 2);
    match msg.message {
        OpcMessageData::SystemExclusive(s) => {
            assert_eq!(s.get_system_id(), 1);
            assert_eq!(s.get_data(), &[9, 9][..]);
        }
        _ => panic!("wrong message"),
    }
}

#[test]
fn scenario_encode_other() {
    let mut dst = BytesMut::new();
    OPCCodec.encode(OpcMessage::new(7, OpcMessageData::Other(42, vec![5, 6])), &mut dst);
    assert_eq!(dst.to_vec(), vec![7, 42, 0, 2, 5, 6]);
}

#[test]
fn decode_other_command() {
    let (msg, _) = decode_frame(&[5, 42, 0, 1, 8]).unwrap();
    assert_eq!(msg.channel, 5);
    match msg.message {
        OpcMessageData::Other(cmd, data) => {
            assert_eq!(cmd, 42);
            assert_eq!(data, vec![8]);
        }
        _ => panic!("wrong message"),
    }
}

#[test]
fn encode_appends_to_buffer() {
    let mut dst: BytesMut = vec![9u8].into();
    let sys = SystemExclusiveData::newo(0x0203, vec![4]);
    OPCCodec.encode(OpcMessage::new(1, OpcMessageData::SystemExclusive(sys)), &mut dst);
    assert_eq!(dst.to_vec(), vec![9, 1, 255, 0, 3, 2, 3, 4]);
}

#[test]
fn oversize_payload_is_cut() {
    let big = vec![1u8; 70000];
    assert_eq!(verify_vec_size(big.clone()).len(), 65535);
    assert_eq!(verify_vec_size(vec![1, 2]), vec![1, 2]);
    let msg = OpcMessage::new(0, OpcMessageData::Other(9, big));
    assert_eq!(msg.header(), OpcHeader { channel: 0, command: 9, length: 65535 });
    let frame = encode_frame(msg);
    assert_eq!(frame.len(), 4 + 65535);
    assert_eq!(&frame[..4], &[0, 9, 255, 255]);
}

#[test]
fn message_header_and_length() {
    let msg = OpcMessage::new(3, OpcMessageData::SetPixelColours(Pixels::new(2)));
    assert_eq!(msg.header(), OpcHeader { channel: 3, command: 0, length: 6 });
    assert_eq!(msg.message.len(), 6);
    assert_eq!(msg.message.command(), 0);
    let sys = OpcMessageData::SystemExclusive(SystemExclusiveData::newo(1, vec![1]));
    assert_eq!(sys.command(), 255);
    assert_eq!(sys.len(), 3);
}

#[test]
fn from_wire_selects_variant() {
    assert!(matches!(OpcMessageData::from_wire(0, vec![1, 2, 3, 4]), OpcMessageData::SetPixelColours(p) if p.len_bytes() == 3));
    assert!(matches!(OpcMessageData::from_wire(255, vec![1]), OpcMessageData::SystemExclusive(_)));
    assert!(matches!(OpcMessageData::from_wire(3, vec![]), OpcMessageData::Other(3, _)));
}

#[test]
fn pixel_iterators_walk_in_order() {
    let mut p = Pixels::from_bytes(vec![1, 2, 3, 4, 5, 6, 7, 8, 9]);
    {
        let mut it = p.iter_mut();
        assert_eq!(it.len(), 3);
        let mut second = it.nth(1).unwrap();
        assert_eq!(second.g(), 5);
        second.set_g(50);
        let mut third = it.next().unwrap();
        third.set_b(90);
        assert!(it.next().is_none());
        assert!(it.nth(0).is_none());
    }
    let mut it = p.iter();
    let third = it.nth(2).unwrap();
    assert_eq!((third.r(), third.g(), third.b()), (7, 8, 90));
    assert!(it.nth(0).is_none());
    assert_eq!(p.into_bytes(), vec![1, 2, 3, 4, 50, 6, 7, 8, 90]);
}
