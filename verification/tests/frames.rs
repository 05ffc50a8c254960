use colorlight::colorlight::{
    create_brightness_packet, create_display_packet, get_lsb, get_msb, DEFAULT_DST_MAC,
    DEFAULT_SRC_MAC,
};
use colorlight::ethernet_frame::{EthernetFrame, HEADER_LEN};

#[test]
fn msb_and_lsb_split_a_number() {
    assert_eq!((get_msb(0xABCD), get_lsb(0xABCD)), (0xAB, 0xCD));
    assert_eq!((get_msb(0x00FF), get_lsb(0x00FF)), (0x00, 0xFF));
    assert_eq!((get_msb(0xFF00), get_lsb(0xFF00)), (0xFF, 0x00));
    assert_eq!((get_msb(0), get_lsb(0)), (0, 0));
    assert_eq!((get_msb(0xFFFF), get_lsb(0xFFFF)), (0xFF, 0xFF));
    for value in [1u16, 255, 256, 257, 0x5500, 0x0A03, 0x0107, 0x8000] {
        assert_eq!(u16::from(get_msb(value)) * 256 + u16::from(get_lsb(value)), value);
    }
}

#[test]
fn frame_without_payload_is_the_header() {
    let frame = EthernetFrame {
        dst_mac_addr: [1, 2, 3, 4, 5, 6],
        src_mac_addr: [7, 8, 9, 10, 11, 12],
        ether_type: 0xBEEF,
        data: vec![],
    };
    assert_eq!(frame.as_u8_slice(), vec![1, 2, 3, 4, 5, 6, 7, 8, 9, 10, 11, 12, 0xEF, 0xBE]);
}

#[test]
fn frame_size_is_header_plus_payload() {
    for len in [0usize, 1, 6, 63, 98, 1500] {
        let frame = EthernetFrame {
            dst_mac_addr: DEFAULT_DST_MAC,
            src_mac_addr: DEFAULT_SRC_MAC,
            ether_type: 0,
            data: vec![0xC3; len],
        };
        let bytes = frame.as_u8_slice();
        assert_eq!(bytes.len(), 14 + len);
        assert_eq!(bytes.len(), HEADER_LEN + frame.data.len());
        assert_eq!(&bytes[14..], &frame.data[..]);
    }
    assert_eq!(create_brightness_packet(10).as_u8_slice().len(), 14 + 63);
    assert_eq!(create_display_packet(10).as_u8_slice().len(), 14 + 98);
}

#[test]
fn serialising_leaves_the_frame_as_it_was() {
    let frame = create_display_packet(33);
    let first = frame.as_u8_slice();
    let second = frame.as_u8_slice();
    assert_eq!(first, second);
    assert_eq!(frame.data.len(), 98);
}

#[test]
fn fixed_addresses() {
    assert_eq!(DEFAULT_DST_MAC, [0x11, 0x22, 0x33, 0x44, 0x55, 0x66]);
    assert_eq!(DEFAULT_SRC_MAC, [0x22, 0x22, 0x33, 0x44, 0x55, 0x66]);
}
