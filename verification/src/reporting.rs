//! The status datagram that logging software listens for.
//!
//! A datagram is a fixed header followed by fields in a fixed order. Numbers
//! are big-endian. A text field is its length in bytes as a 32-bit number,
//! then the bytes themselves, with no terminator.

use crate::text::str_eq;
use vstd::prelude::*;
use vstd::utf8::encode_utf8;

verus! {

pub const MAGIC: u32 = 0xadbccbda;

pub const SCHEMA: u32 = 2;

/// The type tag of a status datagram.
pub const PACKET_TYPE: u32 = 1;

/// The program the datagram claims to come from.
pub open spec fn program_id() -> Seq<char> {
    "WSJT-X"@
}

/// The name of the configuration the datagram reports.
pub open spec fn configuration_name() -> Seq<char> {
    "Default"@
}

/// The modes a datagram can report.
#[derive(Debug, Clone, Copy, PartialEq, Eq, Structural)]
pub enum Mode {
    FT8,
    FT4,
    CW,
    Ssb,
    Rtty,
}

impl Mode {
    /// The name the mode goes by on the wire.
    pub open spec fn label(self) -> Seq<char> {
        match self {
            Mode::FT8 => "FT8"@,
            Mode::FT4 => "FT4"@,
            Mode::CW => "CW"@,
            Mode::Ssb => "SSB"@,
            Mode::Rtty => "RTTY"@,
        }
    }

    /// The mode a spot names, if it names one.
    pub open spec fn of_spot(mode: Seq<char>) -> Option<Mode> {
        if mode == "FT8"@ {
            Some(Mode::FT8)
        } else if mode == "FT4"@ {
            Some(Mode::FT4)
        } else if mode == "CW"@ {
            Some(Mode::CW)
        } else if mode == "SSB"@ {
            Some(Mode::Ssb)
        } else if mode == "DIGI"@ {
            Some(Mode::Rtty)
        } else {
            None
        }
    }

    /// The mode a spot names, if it names one.
    pub fn from_spot(mode: &str) -> (r: Option<Mode>)
        ensures
            r == Mode::of_spot(mode@),
    {
        if str_eq(mode, "FT8") {
            Some(Mode::FT8)
        } else if str_eq(mode, "FT4") {
            Some(Mode::FT4)
        } else if str_eq(mode, "CW") {
            Some(Mode::CW)
        } else if str_eq(mode, "SSB") {
            Some(Mode::Ssb)
        } else if str_eq(mode, "DIGI") {
            Some(Mode::Rtty)
        } else {
            None
        }
    }

    pub fn as_bytes(&self) -> (r: &'static [u8])
        ensures
            r@ == encode_utf8(self.label()),
    {
        match self {
            Mode::FT8 => "FT8".as_bytes(),
            Mode::FT4 => "FT4".as_bytes(),
            Mode::CW => "CW".as_bytes(),
            Mode::Ssb => "SSB".as_bytes(),
            Mode::Rtty => "RTTY".as_bytes(),
        }
    }
}

/// The four bytes of `x`, most significant first.
pub open spec fn be32(x: u32) -> Seq<u8> {
    seq![
        (x / 0x100_0000) as u8,
        (x / 0x1_0000 % 0x100) as u8,
        (x / 0x100 % 0x100) as u8,
        (x % 0x100) as u8,
    ]
}

/// The eight bytes of `x`, most significant first.
pub open spec fn be64(x: u64) -> Seq<u8> {
    seq![
        (x / 0x100_0000_0000_0000) as u8,
        (x / 0x1_0000_0000_0000 % 0x100) as u8,
        (x / 0x100_0000_0000 % 0x100) as u8,
        (x / 0x1_0000_0000 % 0x100) as u8,
        (x / 0x100_0000 % 0x100) as u8,
        (x / 0x1_0000 % 0x100) as u8,
        (x / 0x100 % 0x100) as u8,
        (x % 0x100) as u8,
    ]
}

/// A field of bytes behind its length. A length beyond 32 bits is written
/// without the bits that do not fit.
pub open spec fn length_prefixed(data: Seq<u8>) -> Seq<u8> {
    be32((data.len() % 0x1_0000_0000) as u32) + data
}

/// A text field: the UTF-8 bytes of `text` behind their length.
pub open spec fn text_field(text: Seq<char>) -> Seq<u8> {
    length_prefixed(encode_utf8(text))
}

/// The three flags "transmit enabled", "transmitting" and "decoding", all off.
pub open spec fn flags_off() -> Seq<u8> {
    seq![0u8, 0u8, 0u8]
}

/// Sub-mode and fast-mode markers, none of them set.
pub open spec fn markers_unset() -> Seq<u8> {
    seq![
        0xffu8, 0xffu8, 0xffu8, 0xffu8, 0u8, 0u8, 0xffu8, 0xffu8, 0xffu8, 0xffu8, 0xffu8, 0xffu8,
        0xffu8, 0xffu8,
    ]
}

/// What ends every datagram.
pub open spec fn trailer() -> Seq<u8> {
    seq![0xffu8, 0xffu8, 0xffu8, 0xffu8]
}

/// The status datagram, field by field.
pub open spec fn status_packet(
    dx_callsign: Seq<char>,
    de_callsign: Seq<char>,
    freq: u64,
    mode: Mode,
    report: Seq<char>,
    dx_grid: Seq<char>,
    de_grid: Seq<char>,
) -> Seq<u8> {
    be32(MAGIC) + be32(SCHEMA) + be32(PACKET_TYPE)
        + text_field(program_id())
        + be64(freq)
        + text_field(mode.label())
        + text_field(dx_callsign)
        + text_field(report)
        // The transmit mode is the mode.
        + text_field(mode.label())
        + flags_off()
        // Receive and transmit offsets.
        + be32(0) + be32(0)
        + text_field(de_callsign)
        + text_field(de_grid)
        + text_field(dx_grid)
        + seq![0u8]
        + markers_unset()
        + text_field(configuration_name())
        + trailer()
}

fn write_be32(packet: &mut Vec<u8>, x: u32)
    ensures
        final(packet)@ == old(packet)@ + be32(x),
{
    packet.push((x / 0x100_0000) as u8);
    packet.push((x / 0x1_0000 % 0x100) as u8);
    packet.push((x / 0x100 % 0x100) as u8);
    packet.push((x % 0x100) as u8);
    assert(packet@ =~= old(packet)@ + be32(x));
}

fn write_be64(packet: &mut Vec<u8>, x: u64)
    ensures
        final(packet)@ == old(packet)@ + be64(x),
{
    packet.push((x / 0x100_0000_0000_0000) as u8);
    packet.push((x / 0x1_0000_0000_0000 % 0x100) as u8);
    packet.push((x / 0x100_0000_0000 % 0x100) as u8);
    packet.push((x / 0x1_0000_0000 % 0x100) as u8);
    packet.push((x / 0x100_0000 % 0x100) as u8);
    packet.push((x / 0x1_0000 % 0x100) as u8);
    packet.push((x / 0x100 % 0x100) as u8);
    packet.push((x % 0x100) as u8);
    assert(packet@ =~= old(packet)@ + be64(x));
}

fn write_bytes(packet: &mut Vec<u8>, data: &[u8])
    ensures
        final(packet)@ == old(packet)@ + data@,
{
    let mut i: usize = 0;
    while i < data.len()
        invariant
            i <= data.len(),
            packet@ == old(packet)@ + data@.take(i as int),
        decreases data.len() - i,
    {
        packet.push(data[i]);
        i += 1;
        assert(packet@ =~= old(packet)@ + data@.take(i as int));
    }
    assert(data@.take(i as int) =~= data@);
}

fn write_flags_off(packet: &mut Vec<u8>)
    ensures
        final(packet)@ == old(packet)@ + flags_off(),
{
    packet.push(0);
    packet.push(0);
    packet.push(0);
    assert(packet@ =~= old(packet)@ + flags_off());
}

fn write_zero(packet: &mut Vec<u8>)
    ensures
        final(packet)@ == old(packet)@ + seq![0u8],
{
    packet.push(0);
    assert(packet@ =~= old(packet)@ + seq![0u8]);
}

fn write_markers_unset(packet: &mut Vec<u8>)
    ensures
        final(packet)@ == old(packet)@ + markers_unset(),
{
    // Sub-mode
    packet.push(0xff);
    packet.push(0xff);
    packet.push(0xff);
    packet.push(0xff);
    // Fast mode, special operation mode
    packet.push(0);
    packet.push(0);
    // Tolerance and period
    packet.push(0xff);
    packet.push(0xff);
    packet.push(0xff);
    packet.push(0xff);
    packet.push(0xff);
    packet.push(0xff);
    packet.push(0xff);
    packet.push(0xff);
    assert(packet@ =~= old(packet)@ + markers_unset());
}

fn write_trailer(packet: &mut Vec<u8>)
    ensures
        final(packet)@ == old(packet)@ + trailer(),
{
    packet.push(0xff);
    packet.push(0xff);
    packet.push(0xff);
    packet.push(0xff);
    assert(packet@ =~= old(packet)@ + trailer());
}

fn write_str(packet: &mut Vec<u8>, data: &[u8])
    ensures
        final(packet)@ == old(packet)@ + length_prefixed(data@),
{
    write_be32(packet, ((data.len() as u64) % 0x1_0000_0000) as u32);
    write_bytes(packet, data);
    assert(packet@ =~= old(packet)@ + length_prefixed(data@));
}

/// Builds the status datagram for a spot. Nothing is sent: the caller does
/// that.
pub fn build_status_packet(
    dx_callsign: &str,
    de_callsign: &str,
    freq: u64,
    mode: Mode,
    report: &str,
    dx_grid: &str,
    de_grid: &str,
) -> (packet: Vec<u8>)
    ensures
        packet@ == status_packet(
            dx_callsign@,
            de_callsign@,
            freq,
            mode,
            report@,
            dx_grid@,
            de_grid@,
        ),
{
    let mut packet: Vec<u8> = Vec::new();

    // Header
    write_be32(&mut packet, MAGIC);
    assert(packet@ =~= be32(MAGIC));
    write_be32(&mut packet, SCHEMA);
    write_be32(&mut packet, PACKET_TYPE);

    write_str(&mut packet, "WSJT-X".as_bytes());
    write_be64(&mut packet, freq);
    write_str(&mut packet, mode.as_bytes());
    write_str(&mut packet, dx_callsign.as_bytes());
    write_str(&mut packet, report.as_bytes());
    // Transmit mode
    write_str(&mut packet, mode.as_bytes());

    // Transmit enabled, transmitting, decoding
    write_flags_off(&mut packet);

    // Receive offset, transmit offset
    write_be32(&mut packet, 0);
    write_be32(&mut packet, 0);
    write_str(&mut packet, de_callsign.as_bytes());
    write_str(&mut packet, de_grid.as_bytes());
    write_str(&mut packet, dx_grid.as_bytes());
    write_zero(&mut packet);

    write_markers_unset(&mut packet);
    write_str(&mut packet, "Default".as_bytes());
    write_trailer(&mut packet);

    packet
}

} // verus!
