//! Decoding of the fixed IPv4 header that precedes an IGMP message.
//!
//! A captured datagram starts with an IPv4 header whose fields stand at
//! fixed offsets in network byte order.  The decoder turns the first 20
//! bytes into a typed [`IpHdr`] and computes where the IGMP message
//! begins: at four times the header-length field, not at offset zero.

use vstd::prelude::*;

verus! {

/// Why a buffer could not be decoded.
#[derive(Debug, Clone, Copy, PartialEq, Eq, Structural)]
pub enum DecodeError {
    /// The buffer holds fewer bytes than the fixed IPv4 header needs.
    TruncatedPacket,
    /// The header-length field promises fewer bytes than the fixed header
    /// itself, or more bytes than the buffer holds.
    BadHeaderLength,
}

/// The fixed part of an IPv4 header, each field as a host integer.
#[derive(Debug, Clone, Copy, PartialEq, Eq, Structural)]
pub struct IpHdr {
    /// Version in the high four bits, header length in the low four.
    pub ihl_version: u8,
    /// Type of service.
    pub tos: u8,
    /// Total length of header and payload.
    pub tot_len: u16,
    /// Identification.
    pub id: u16,
    /// Flags and fragment offset.
    pub frag_off: u16,
    /// Time to live.
    pub ttl: u8,
    /// Carried protocol.
    pub protocol: u8,
    /// Header checksum.
    pub check: u16,
    /// Source address.
    pub saddr: u32,
    /// Destination address.
    pub daddr: u32,
}

/// The fixed IPv4 header is 20 bytes; shorter buffers are rejected.
pub const IP_HEADER_MIN_LEN: usize = 20;

/// The value of two bytes read in network (big-endian) order.
pub open spec fn be16(hi: u8, lo: u8) -> int {
    hi * 0x100 + lo
}

/// The value of four bytes read in network (big-endian) order.
pub open spec fn be32(b0: u8, b1: u8, b2: u8, b3: u8) -> int {
    b0 * 0x1000000 + b1 * 0x10000 + b2 * 0x100 + b3
}

/// Field-by-field statement that `h` is the header the first 20 bytes of
/// `bytes` spell.
pub open spec fn header_matches(h: IpHdr, bytes: Seq<u8>) -> bool {
    &&& bytes.len() >= 20
    &&& h.ihl_version == bytes[0]
    &&& h.tos == bytes[1]
    &&& h.tot_len == be16(bytes[2], bytes[3])
    &&& h.id == be16(bytes[4], bytes[5])
    &&& h.frag_off == be16(bytes[6], bytes[7])
    &&& h.ttl == bytes[8]
    &&& h.protocol == bytes[9]
    &&& h.check == be16(bytes[10], bytes[11])
    &&& h.saddr == be32(bytes[12], bytes[13], bytes[14], bytes[15])
    &&& h.daddr == be32(bytes[16], bytes[17], bytes[18], bytes[19])
}

/// Where the IGMP message begins in a buffer whose first byte is `b0`:
/// the header-length field (low four bits of the first byte) counts
/// 32-bit words of IP header, and the message follows the header.
pub open spec fn spec_igmp_offset(b0: u8) -> int {
    (b0 % 16) * 4
}

fn read_be16(hi: u8, lo: u8) -> (r: u16)
    ensures
        r == be16(hi, lo),
{
    (hi as u16) * 0x100 + (lo as u16)
}

fn read_be32(b0: u8, b1: u8, b2: u8, b3: u8) -> (r: u32)
    ensures
        r == be32(b0, b1, b2, b3),
{
    (b0 as u32) * 0x1000000 + (b1 as u32) * 0x10000 + (b2 as u32) * 0x100 + (b3 as u32)
}

/// Decode the fixed IPv4 header at the start of `buf`.
///
/// Exactly the buffers shorter than 20 bytes are rejected, and a rejected
/// buffer is never read; an accepted one yields every header field as the
/// network-byte-order bytes spell it.
pub fn decode_ip_header(buf: &Vec<u8>) -> (r: Result<IpHdr, DecodeError>)
    ensures
        buf@.len() < 20 ==> r == Err::<IpHdr, DecodeError>(DecodeError::TruncatedPacket),
        buf@.len() >= 20 ==> (r matches Ok(h) && header_matches(h, buf@)),
{
    if buf.len() < IP_HEADER_MIN_LEN {
        return Err(DecodeError::TruncatedPacket);
    }
    Ok(
        IpHdr {
            ihl_version: buf[0],
            tos: buf[1],
            tot_len: read_be16(buf[2], buf[3]),
            id: read_be16(buf[4], buf[5]),
            frag_off: read_be16(buf[6], buf[7]),
            ttl: buf[8],
            protocol: buf[9],
            check: read_be16(buf[10], buf[11]),
            saddr: read_be32(buf[12], buf[13], buf[14], buf[15]),
            daddr: read_be32(buf[16], buf[17], buf[18], buf[19]),
        },
    )
}

impl IpHdr {
    /// A header with every field zero, the usual starting value before a
    /// decode fills it.
    pub fn zeroed() -> (r: IpHdr)
        ensures
            r == (IpHdr {
                ihl_version: 0,
                tos: 0,
                tot_len: 0,
                id: 0,
                frag_off: 0,
                ttl: 0,
                protocol: 0,
                check: 0,
                saddr: 0,
                daddr: 0,
            }),
    {
        IpHdr {
            ihl_version: 0,
            tos: 0,
            tot_len: 0,
            id: 0,
            frag_off: 0,
            ttl: 0,
            protocol: 0,
            check: 0,
            saddr: 0,
            daddr: 0,
        }
    }

    /// Fill `self` from the header bytes at the start of `buf`.
    ///
    /// A buffer shorter than 20 bytes is rejected and leaves `self`
    /// untouched.
    pub fn decode(&mut self, buf: &Vec<u8>) -> (r: Result<(), DecodeError>)
        ensures
            buf@.len() < 20 ==> r == Err::<(), DecodeError>(DecodeError::TruncatedPacket)
                && *final(self) == *old(self),
            buf@.len() >= 20 ==> r == Ok::<(), DecodeError>(()) && header_matches(*final(self), buf@),
    {
        match decode_ip_header(buf) {
            Ok(h) => {
                *self = h;
                Ok(())
            },
            Err(e) => Err(e),
        }
    }

    /// The version field: the high four bits of the first header byte.
    pub fn version(&self) -> (r: u8)
        ensures
            r == self.ihl_version / 16,
    {
        self.ihl_version / 16
    }

    /// The header length field: the low four bits of the first header
    /// byte, counting 32-bit words.
    pub fn ihl(&self) -> (r: u8)
        ensures
            r == self.ihl_version % 16,
    {
        self.ihl_version % 16
    }

    /// Byte offset at which the carried message begins: four times the
    /// header-length field.
    pub fn payload_offset(&self) -> (r: usize)
        ensures
            r == spec_igmp_offset(self.ihl_version),
    {
        (self.ihl_version % 16) as usize * 4
    }
}

/// Decode the IPv4 header of a captured IGMP datagram and locate the IGMP
/// message inside it.
///
/// On success the returned offset is where the IGMP message begins within
/// `packet`: after the variable-length IP header, never at offset zero.
/// A buffer shorter than the fixed header is `TruncatedPacket`; a
/// header-length field that points below the fixed header or past the end
/// of the buffer is `BadHeaderLength`.
pub fn decode_igmp(packet: &Vec<u8>) -> (r: Result<(IpHdr, usize), DecodeError>)
    ensures
        packet@.len() < 20 ==> r == Err::<(IpHdr, usize), DecodeError>(DecodeError::TruncatedPacket),
        packet@.len() >= 20 && !(20 <= spec_igmp_offset(packet@[0]) <= packet@.len()) ==> r == Err::<
            (IpHdr, usize),
            DecodeError,
        >(DecodeError::BadHeaderLength),
        packet@.len() >= 20 && 20 <= spec_igmp_offset(packet@[0]) <= packet@.len() ==> (r matches Ok(
            p,
        ) && header_matches(p.0, packet@) && p.1 == spec_igmp_offset(packet@[0])),
{
    let hdr = match decode_ip_header(packet) {
        Ok(h) => h,
        Err(e) => {
            return Err(e);
        },
    };
    let off = hdr.payload_offset();
    if off < IP_HEADER_MIN_LEN || off > packet.len() {
        return Err(DecodeError::BadHeaderLength);
    }
    Ok((hdr, off))
}

} // verus!
