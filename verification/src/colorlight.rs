//! Command builders for Colorlight receiver cards.
//!
//! Three commands are known: the overall brightness, the display's brightness
//! with its colour temperature, and the pixels of one row. Each builder
//! returns a fresh frame whose bytes on the wire are pinned by
//! [`command_frame`].

use crate::ethernet_frame::{type_field_bytes, EthernetFrame, HEADER_LEN};
use vstd::prelude::*;

verus! {

/// Destination address of every command frame.
pub const DEFAULT_DST_MAC: [u8; 6] = [0x11, 0x22, 0x33, 0x44, 0x55, 0x66];

/// Source address of every command frame.
pub const DEFAULT_SRC_MAC: [u8; 6] = [0x22, 0x22, 0x33, 0x44, 0x55, 0x66];

/// Payload bytes of a display-settings command.
pub const DISPLAY_PACKET_DATA_SIZE: usize = 98;

/// Payload bytes of an overall-brightness command.
pub const BRIGHTNESS_PACKET_DATA_SIZE: usize = 63;

/// Payload bytes of a row-data command in front of the colour data.
pub const ROW_HEADER_SIZE: usize = 7;

// ---------------------------------------------------------------------------
// Bytes of a 16-bit number
// ---------------------------------------------------------------------------

/// High byte of a 16-bit number.
pub open spec fn msb(b: u16) -> u8 {
    (b / 256) as u8
}

/// Low byte of a 16-bit number.
pub open spec fn lsb(b: u16) -> u8 {
    (b % 256) as u8
}

/// `value` with its two bytes exchanged.
pub open spec fn byte_swapped(value: u16) -> u16 {
    (lsb(value) * 256 + msb(value)) as u16
}

/// The most significant byte of `b`.
pub fn get_msb(b: u16) -> (byte: u8)
    ensures
        byte == msb(b),
{
    assert(b >> 8 == b / 256) by (bit_vector);
    (b >> 8) as u8
}

/// The least significant byte of `b`.
pub fn get_lsb(b: u16) -> (byte: u8)
    ensures
        byte == lsb(b),
{
    assert(b & 0xff == b % 256) by (bit_vector);
    (b & 0xff) as u8
}

/// Exchanges the two bytes of `value`, which is how a type number is stored
/// in a frame.
fn swap_bytes(value: u16) -> (swapped: u16)
    ensures
        swapped == byte_swapped(value),
{
    assert((value << 8) | (value >> 8) == (value % 256) * 256 + value / 256) by (bit_vector);
    (value << 8) | (value >> 8)
}

/// A 16-bit number is its high byte times 256 plus its low byte; swapping
/// exchanges the two, and swapping twice gives the number back.
pub proof fn lemma_byte_split(value: u16)
    ensures
        value == msb(value) * 256 + lsb(value),
        msb(byte_swapped(value)) == lsb(value),
        lsb(byte_swapped(value)) == msb(value),
        byte_swapped(byte_swapped(value)) == value,
{
}

/// A type number that is stored byte-swapped leaves high byte first.
pub proof fn lemma_type_field_high_byte_first(command_type: u16)
    ensures
        type_field_bytes(byte_swapped(command_type)) == seq![
            msb(command_type),
            lsb(command_type),
        ],
{
}

// ---------------------------------------------------------------------------
// Brightness
// ---------------------------------------------------------------------------

/// `percent` held to `0..=100`.
pub open spec fn clamp_percent(percent: int) -> int {
    if percent < 0 {
        0
    } else if percent > 100 {
        100
    } else {
        percent
    }
}

/// The device-native brightness for a percentage: `percent * 2.55`, rounded to
/// the nearest whole number, a half going up. Percentages outside `0..=100`
/// count as the nearer end of that range.
pub open spec fn brightness_byte(percent: int) -> int {
    (255 * clamp_percent(percent) + 50) / 100
}

/// [`brightness_byte`] of a percentage that arrives as a byte.
pub open spec fn brightness_byte_of(brightness_percentage: u8) -> u8 {
    brightness_byte(brightness_percentage as int) as u8
}

/// Scales a percentage to the byte the device understands. Anything above
/// 100 counts as 100.
pub fn brightness_percent_to_byte(brightness_percentage: u8) -> (brightness: u8)
    ensures
        brightness == brightness_byte(brightness_percentage as int),
        brightness == brightness_byte_of(brightness_percentage),
{
    let clamped: u16 = if brightness_percentage > 100 {
        100
    } else {
        brightness_percentage as u16
    };
    ((255 * clamped + 50) / 100) as u8
}

/// A brightness byte is a byte, and a higher percentage never gives a lower
/// one.
pub proof fn lemma_brightness_byte_monotonic(lower: int, higher: int)
    requires
        lower <= higher,
    ensures
        0 <= brightness_byte(lower) <= brightness_byte(higher) <= 255,
{
}

/// Clamping a percentage twice is clamping it once; the brightness byte sees
/// only the clamped percentage, so everything above 100 encodes as 100 does
/// and everything below 0 as 0 does.
pub proof fn lemma_brightness_byte_clamps(percent: int)
    ensures
        0 <= clamp_percent(percent) <= 100,
        clamp_percent(clamp_percent(percent)) == clamp_percent(percent),
        brightness_byte(percent) == brightness_byte(clamp_percent(percent)),
        percent > 100 ==> brightness_byte(percent) == brightness_byte(100),
        percent < 0 ==> brightness_byte(percent) == brightness_byte(0),
{
}

/// The brightness byte is the whole number nearest to `percent * 2.55`: a
/// hundred times the byte is within fifty of 255 times the percentage, and an
/// exact half goes up.
pub proof fn lemma_brightness_byte_is_nearest(percent: int)
    requires
        0 <= percent <= 100,
    ensures
        100 * brightness_byte(percent) - 50 <= 255 * percent < 100 * brightness_byte(percent) + 50,
{
}

// ---------------------------------------------------------------------------
// Commands on the wire
// ---------------------------------------------------------------------------

/// The bytes of a command frame on the wire: the two fixed addresses, the
/// command's type number high byte first, then the payload.
pub open spec fn command_frame(command_type: u16, payload: Seq<u8>) -> Seq<u8> {
    DEFAULT_DST_MAC@ + DEFAULT_SRC_MAC@ + seq![msb(command_type), lsb(command_type)] + payload
}

/// Type number of the overall-brightness command: the brightness byte rides
/// in its low byte.
pub open spec fn brightness_command_type(brightness: u8) -> u16 {
    (0x0A00 + brightness) as u16
}

/// Type number of the display-settings command.
pub open spec fn display_command_type() -> u16 {
    0x0107
}

/// Type number of the row-data command: the row number's high byte rides in
/// its low byte.
pub open spec fn row_data_command_type(row_num: u16) -> u16 {
    (0x5500 + msb(row_num)) as u16
}

/// Payload of the overall-brightness command: the brightness byte twice, then
/// `0xFF`, then zeros.
pub open spec fn brightness_payload(brightness: u8) -> Seq<u8> {
    Seq::new(
        BRIGHTNESS_PACKET_DATA_SIZE as nat,
        |i: int|
            if i == 0 || i == 1 {
                brightness
            } else if i == 2 {
                0xFFu8
            } else {
                0x00u8
            },
    )
}

/// Payload of the display-settings command: the brightness byte at 11, `0x05`
/// at 12, the brightness byte once per colour channel at 14, 15 and 16, and
/// zeros everywhere else.
pub open spec fn display_payload(brightness: u8) -> Seq<u8> {
    Seq::new(
        DISPLAY_PACKET_DATA_SIZE as nat,
        |i: int|
            if i == 11 || i == 14 || i == 15 || i == 16 {
                brightness
            } else if i == 12 {
                0x05u8
            } else {
                0x00u8
            },
    )
}

/// Payload of the row-data command: the row number's low byte, the pixel
/// offset and the pixel count high byte first, `0x08`, `0x88`, then the colour
/// bytes as they were given.
pub open spec fn row_data_payload(
    row_num: u16,
    pixel_offset: u16,
    pixel_count: u16,
    color_data: Seq<u8>,
) -> Seq<u8> {
    seq![
        lsb(row_num),
        msb(pixel_offset),
        lsb(pixel_offset),
        msb(pixel_count),
        lsb(pixel_count),
        0x08u8,
        0x88u8,
    ] + color_data
}

/// Every command frame is fourteen header bytes and its payload: the fixed
/// destination, the fixed source, the type number high byte first, and the
/// payload from byte 14 on, with nothing in between or behind.
pub proof fn lemma_command_frame_layout(command_type: u16, payload: Seq<u8>)
    ensures
        command_frame(command_type, payload).len() == HEADER_LEN + payload.len(),
        command_frame(command_type, payload).subrange(0, 6) == DEFAULT_DST_MAC@,
        command_frame(command_type, payload).subrange(6, 12) == DEFAULT_SRC_MAC@,
        command_frame(command_type, payload)[12] == msb(command_type),
        command_frame(command_type, payload)[13] == lsb(command_type),
        command_frame(command_type, payload).subrange(
            14,
            command_frame(command_type, payload).len() as int,
        ) == payload,
{
}

/// Why a row-data frame was refused.
#[derive(Debug, Clone, Copy, PartialEq, Eq, Structural)]
pub enum RowDataError {
    /// The colour data does not hold three bytes for each pixel of the row.
    ColorDataLength { row_width: usize, len: usize },
}

/// Builds the command that sets the overall brightness.
pub fn create_brightness_packet(brightness_percentage: u8) -> (packet: EthernetFrame)
    ensures
        packet.dst_mac_addr@ == DEFAULT_DST_MAC@,
        packet.src_mac_addr@ == DEFAULT_SRC_MAC@,
        packet.ether_type == byte_swapped(
            brightness_command_type(brightness_byte_of(brightness_percentage)),
        ),
        packet.data@ == brightness_payload(brightness_byte_of(brightness_percentage)),
        packet@ == command_frame(
            brightness_command_type(brightness_byte_of(brightness_percentage)),
            brightness_payload(brightness_byte_of(brightness_percentage)),
        ),
        packet@.len() == HEADER_LEN + BRIGHTNESS_PACKET_DATA_SIZE,
{
    let brightness_byte: u8 = brightness_percent_to_byte(brightness_percentage);

    let mut packet = EthernetFrame {
        dst_mac_addr: DEFAULT_DST_MAC,
        src_mac_addr: DEFAULT_SRC_MAC,
        ether_type: swap_bytes(0x0A00 + brightness_byte as u16),
        data: vec![0x00; BRIGHTNESS_PACKET_DATA_SIZE],
    };

    packet.data[0] = brightness_byte;
    packet.data[1] = brightness_byte;

    // Purpose unknown; the device expects it.
    packet.data[2] = 0xFF;

    packet
}

/// Builds the command that sets the display's brightness and, with all three
/// colour channels driven alike, a neutral colour temperature.
pub fn create_display_packet(brightness_percentage: u8) -> (packet: EthernetFrame)
    ensures
        packet.dst_mac_addr@ == DEFAULT_DST_MAC@,
        packet.src_mac_addr@ == DEFAULT_SRC_MAC@,
        packet.ether_type == byte_swapped(display_command_type()),
        packet.data@ == display_payload(brightness_byte_of(brightness_percentage)),
        packet@ == command_frame(
            display_command_type(),
            display_payload(brightness_byte_of(brightness_percentage)),
        ),
        packet@.len() == HEADER_LEN + DISPLAY_PACKET_DATA_SIZE,
{
    // Devices also accept 0x0100 and 0x0104.
    let mut packet = EthernetFrame {
        dst_mac_addr: DEFAULT_DST_MAC,
        src_mac_addr: DEFAULT_SRC_MAC,
        ether_type: swap_bytes(0x0107),
        data: vec![0x00; DISPLAY_PACKET_DATA_SIZE],
    };

    let brightness_byte: u8 = brightness_percent_to_byte(brightness_percentage);
    packet.data[11] = brightness_byte;

    // Purpose unknown; the device expects it.
    packet.data[12] = 0x05;

    // One byte per colour channel. Equal bytes give a neutral white; a warmer
    // or cooler white would scale them apart.
    packet.data[14] = brightness_byte;
    packet.data[15] = brightness_byte;
    packet.data[16] = brightness_byte;

    packet
}

/// Builds the command that carries the pixels of one row of `ROW_WIDTH`
/// pixels. `color_data` must hold exactly three bytes per pixel; any other
/// length is refused and no frame is built.
pub fn create_row_data_packet<const ROW_WIDTH: usize>(
    row_num: u16,
    pixel_offset: u16,
    pixel_count: u16,
    color_data: &[u8],
) -> (result: Result<EthernetFrame, RowDataError>)
    ensures
        result is Err <==> color_data@.len() != 3 * ROW_WIDTH,
        result matches Err(e) ==> e == (RowDataError::ColorDataLength {
            row_width: ROW_WIDTH,
            len: color_data.len(),
        }),
        result matches Ok(packet) ==> packet.dst_mac_addr@ == DEFAULT_DST_MAC@,
        result matches Ok(packet) ==> packet.src_mac_addr@ == DEFAULT_SRC_MAC@,
        result matches Ok(packet) ==> packet.ether_type == byte_swapped(
            row_data_command_type(row_num),
        ),
        result matches Ok(packet) ==> packet.data@ == row_data_payload(
            row_num,
            pixel_offset,
            pixel_count,
            color_data@,
        ),
        result matches Ok(packet) ==> packet@ == command_frame(
            row_data_command_type(row_num),
            row_data_payload(row_num, pixel_offset, pixel_count, color_data@),
        ),
        result matches Ok(packet) ==> packet@.len() == HEADER_LEN + ROW_HEADER_SIZE + 3 * ROW_WIDTH,
{
    let fits = match ROW_WIDTH.checked_mul(3) {
        Some(expected) => color_data.len() == expected,
        None => false,
    };
    if !fits {
        return Err(RowDataError::ColorDataLength { row_width: ROW_WIDTH, len: color_data.len() });
    }
    let mut data: Vec<u8> = Vec::new();
    data.push(get_lsb(row_num));
    data.push(get_msb(pixel_offset));
    data.push(get_lsb(pixel_offset));
    data.push(get_msb(pixel_count));
    data.push(get_lsb(pixel_count));
    data.push(0x08);
    data.push(0x88);
    data.extend_from_slice(color_data);

    Ok(
        EthernetFrame {
            dst_mac_addr: DEFAULT_DST_MAC,
            src_mac_addr: DEFAULT_SRC_MAC,
            ether_type: swap_bytes(0x5500 + get_msb(row_num) as u16),
            data,
        },
    )
}

} // verus!
