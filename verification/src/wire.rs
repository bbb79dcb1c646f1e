//! Header layouts as they stand on the wire, and the overlays that read them.
//!
//! An overlay is a window of the frame of exactly the layout's size. It can
//! only be made by [`Layout::at`], which goes through the bounds check, so a
//! field read never leaves the frame. Multi-byte numbers are big-endian on the
//! wire and come out in host order.

use crate::bounds::{overlay, window, OutOfBounds};
use vstd::prelude::*;

verus! {

/// Size of the link-layer header.
pub const ETH_LEN: usize = 14;

/// Size of the IPv4 header without options.
pub const IPV4_LEN: usize = 20;

/// Size of the ICMP header.
pub const ICMP_LEN: usize = 8;

/// Size of the TCP header without options.
pub const TCP_LEN: usize = 20;

/// Size of the UDP header.
pub const UDP_LEN: usize = 8;

/// The link-layer type of IPv4, the one network layer that is classified.
pub const ETHER_TYPE_IPV4: u16 = 0x0800;

/// IPv4 protocol number of ICMP.
pub const PROTO_ICMP: u8 = 1;

/// IPv4 protocol number of TCP.
pub const PROTO_TCP: u8 = 6;

/// IPv4 protocol number of UDP.
pub const PROTO_UDP: u8 = 17;

/// The number that two bytes spell in network order.
pub open spec fn be16(hi: u8, lo: u8) -> u16 {
    (hi * 0x100 + lo) as u16
}

/// The number that four bytes spell in network order.
pub open spec fn be32(b0: u8, b1: u8, b2: u8, b3: u8) -> u32 {
    (b0 * 0x100_0000 + b1 * 0x1_0000 + b2 * 0x100 + b3) as u32
}

/// The two bytes of `s` at `i`, as stored.
pub open spec fn octets2(s: Seq<u8>, i: int) -> [u8; 2] {
    [s[i], s[i + 1]]
}

/// The four bytes of `s` at `i`, as stored.
pub open spec fn octets4(s: Seq<u8>, i: int) -> [u8; 4] {
    [s[i], s[i + 1], s[i + 2], s[i + 3]]
}

/// The six bytes of `s` at `i`, as stored.
pub open spec fn octets6(s: Seq<u8>, i: int) -> [u8; 6] {
    [s[i], s[i + 1], s[i + 2], s[i + 3], s[i + 4], s[i + 5]]
}

/// Bit `k` of `b`, as 0 or 1.
pub open spec fn flag_bit(b: u8, k: u8) -> u16 {
    ((b >> k) & 1) as u16
}

pub(crate) fn read_be16(b: &[u8], i: usize) -> (r: u16)
    requires
        i + 2 <= b@.len(),
    ensures
        r == be16(b@[i as int], b@[i + 1]),
{
    (b[i] as u16) * 0x100 + (b[i + 1] as u16)
}

pub(crate) fn read_be32(b: &[u8], i: usize) -> (r: u32)
    requires
        i + 4 <= b@.len(),
    ensures
        r == be32(b@[i as int], b@[i + 1], b@[i + 2], b@[i + 3]),
{
    (b[i] as u32) * 0x100_0000 + (b[i + 1] as u32) * 0x1_0000 + (b[i + 2] as u32) * 0x100 + (b[i
        + 3] as u32)
}

pub(crate) fn read_octets2(b: &[u8], i: usize) -> (r: [u8; 2])
    requires
        i + 2 <= b@.len(),
    ensures
        r == octets2(b@, i as int),
{
    let r = [b[i], b[i + 1]];
    assert(r =~= octets2(b@, i as int));
    r
}

pub(crate) fn read_octets4(b: &[u8], i: usize) -> (r: [u8; 4])
    requires
        i + 4 <= b@.len(),
    ensures
        r == octets4(b@, i as int),
{
    let r = [b[i], b[i + 1], b[i + 2], b[i + 3]];
    assert(r =~= octets4(b@, i as int));
    r
}

pub(crate) fn read_octets6(b: &[u8], i: usize) -> (r: [u8; 6])
    requires
        i + 6 <= b@.len(),
    ensures
        r == octets6(b@, i as int),
{
    let r = [b[i], b[i + 1], b[i + 2], b[i + 3], b[i + 4], b[i + 5]];
    assert(r =~= octets6(b@, i as int));
    r
}

pub(crate) fn read_flag(b: u8, k: u8) -> (r: u16)
    requires
        k < 8,
    ensures
        r == flag_bit(b, k),
{
    ((b >> k) & 1) as u16
}

/// A header layout that can be laid over a frame.
pub trait Layout<'a>: Sized {
    /// Number of bytes the layout covers.
    spec fn size() -> nat;

    /// The bytes of the frame that the overlay covers.
    spec fn bytes(&self) -> Seq<u8>;

    /// Number of bytes the layout covers.
    fn byte_len() -> (n: usize)
        ensures
            n == Self::size(),
    ;

    /// Lays the header over `frame` at `offset`. Succeeds exactly when the
    /// whole header lies inside the frame.
    fn at(frame: &'a [u8], offset: usize) -> (r: Result<Self, OutOfBounds>)
        ensures
            r is Ok <==> offset + Self::size() <= frame@.len(),
            r matches Ok(h) ==> h.bytes() == window(frame@, offset, Self::size()),
    ;

    /// The window of the frame under the overlay.
    fn as_bytes(&self) -> (b: &'a [u8])
        ensures
            b@ == self.bytes(),
            b@.len() == Self::size(),
    ;
}

/// The link-layer header: destination and source address, then the type of
/// what follows.
#[derive(Clone, Copy, Debug)]
pub struct EthHdr<'a> {
    raw: &'a [u8],
}

impl<'a> Layout<'a> for EthHdr<'a> {
    open spec fn size() -> nat {
        14
    }

    closed spec fn bytes(&self) -> Seq<u8> {
        self.raw@
    }

    fn byte_len() -> (n: usize) {
        ETH_LEN
    }

    fn at(frame: &'a [u8], offset: usize) -> (r: Result<Self, OutOfBounds>) {
        match overlay(frame, offset, ETH_LEN) {
            Ok(raw) => Ok(EthHdr { raw }),
            Err(e) => Err(e),
        }
    }

    fn as_bytes(&self) -> (b: &'a [u8]) {
        proof {
            use_type_invariant(self);
        }
        self.raw
    }
}

impl<'a> EthHdr<'a> {
    #[verifier::type_invariant]
    spec fn sized(self) -> bool {
        self.raw@.len() == 14
    }

    /// Destination address, as stored.
    pub open spec fn spec_dst_addr(&self) -> [u8; 6] {
        octets6(self.bytes(), 0)
    }

    /// Source address, as stored.
    pub open spec fn spec_src_addr(&self) -> [u8; 6] {
        octets6(self.bytes(), 6)
    }

    /// Type of the encapsulated protocol, in host order.
    pub open spec fn spec_ether_type(&self) -> u16 {
        be16(self.bytes()[12], self.bytes()[13])
    }

    /// Destination address, as stored.
    #[verifier::when_used_as_spec(spec_dst_addr)]
    pub fn dst_addr(&self) -> (a: [u8; 6])
        ensures
            a == self.spec_dst_addr(),
    {
        let b = self.as_bytes();
        read_octets6(b, 0)
    }

    /// Source address, as stored.
    #[verifier::when_used_as_spec(spec_src_addr)]
    pub fn src_addr(&self) -> (a: [u8; 6])
        ensures
            a == self.spec_src_addr(),
    {
        let b = self.as_bytes();
        read_octets6(b, 6)
    }

    /// Type of the encapsulated protocol, in host order.
    #[verifier::when_used_as_spec(spec_ether_type)]
    pub fn ether_type(&self) -> (t: u16)
        ensures
            t == self.spec_ether_type(),
    {
        let b = self.as_bytes();
        read_be16(b, 12)
    }
}

/// The IPv4 header, options excluded.
#[derive(Clone, Copy, Debug)]
pub struct Ipv4Hdr<'a> {
    raw: &'a [u8],
}

impl<'a> Layout<'a> for Ipv4Hdr<'a> {
    open spec fn size() -> nat {
        20
    }

    closed spec fn bytes(&self) -> Seq<u8> {
        self.raw@
    }

    fn byte_len() -> (n: usize) {
        IPV4_LEN
    }

    fn at(frame: &'a [u8], offset: usize) -> (r: Result<Self, OutOfBounds>) {
        match overlay(frame, offset, IPV4_LEN) {
            Ok(raw) => Ok(Ipv4Hdr { raw }),
            Err(e) => Err(e),
        }
    }

    fn as_bytes(&self) -> (b: &'a [u8]) {
        proof {
            use_type_invariant(self);
        }
        self.raw
    }
}

impl<'a> Ipv4Hdr<'a> {
    #[verifier::type_invariant]
    spec fn sized(self) -> bool {
        self.raw@.len() == 20
    }

    /// Version and header length, the first byte as stored.
    pub open spec fn spec_vihl(&self) -> u8 {
        self.bytes()[0]
    }

    /// IP version, the high half of the first byte.
    pub open spec fn spec_version(&self) -> u8 {
        self.bytes()[0] / 16
    }

    /// Header length in bytes: the low half of the first byte counts words of
    /// four bytes.
    pub open spec fn spec_ihl(&self) -> u8 {
        ((self.bytes()[0] % 16) * 4) as u8
    }

    /// Type of service.
    pub open spec fn spec_tos(&self) -> u8 {
        self.bytes()[1]
    }

    /// Total length of the packet, in host order.
    pub open spec fn spec_tot_len(&self) -> u16 {
        be16(self.bytes()[2], self.bytes()[3])
    }

    /// Identification, in host order.
    pub open spec fn spec_id(&self) -> u16 {
        be16(self.bytes()[4], self.bytes()[5])
    }

    /// Fragment flags and offset, in host order.
    pub open spec fn spec_frags(&self) -> u16 {
        be16(self.bytes()[6], self.bytes()[7])
    }

    /// Time to live.
    pub open spec fn spec_ttl(&self) -> u8 {
        self.bytes()[8]
    }

    /// Number of the encapsulated protocol.
    pub open spec fn spec_proto(&self) -> u8 {
        self.bytes()[9]
    }

    /// Header checksum, as stored.
    pub open spec fn spec_check(&self) -> [u8; 2] {
        octets2(self.bytes(), 10)
    }

    /// Source address, as stored.
    pub open spec fn spec_src_addr(&self) -> [u8; 4] {
        octets4(self.bytes(), 12)
    }

    /// Destination address, as stored.
    pub open spec fn spec_dst_addr(&self) -> [u8; 4] {
        octets4(self.bytes(), 16)
    }

    /// Version and header length, the first byte as stored.
    #[verifier::when_used_as_spec(spec_vihl)]
    pub fn vihl(&self) -> (v: u8)
        ensures
            v == self.spec_vihl(),
    {
        let b = self.as_bytes();
        b[0]
    }

    /// IP version, the high half of the first byte.
    #[verifier::when_used_as_spec(spec_version)]
    pub fn version(&self) -> (v: u8)
        ensures
            v == self.spec_version(),
    {
        let b = self.as_bytes();
        b[0] / 16
    }

    /// Header length in bytes: the low half of the first byte counts words of
    /// four bytes.
    #[verifier::when_used_as_spec(spec_ihl)]
    pub fn ihl(&self) -> (n: u8)
        ensures
            n == self.spec_ihl(),
    {
        let b = self.as_bytes();
        (b[0] % 16) * 4
    }

    /// Type of service.
    #[verifier::when_used_as_spec(spec_tos)]
    pub fn tos(&self) -> (t: u8)
        ensures
            t == self.spec_tos(),
    {
        let b = self.as_bytes();
        b[1]
    }

    /// Total length of the packet, in host order.
    #[verifier::when_used_as_spec(spec_tot_len)]
    pub fn tot_len(&self) -> (n: u16)
        ensures
            n == self.spec_tot_len(),
    {
        let b = self.as_bytes();
        read_be16(b, 2)
    }

    /// Identification, in host order.
    #[verifier::when_used_as_spec(spec_id)]
    pub fn id(&self) -> (n: u16)
        ensures
            n == self.spec_id(),
    {
        let b = self.as_bytes();
        read_be16(b, 4)
    }

    /// Fragment flags and offset, in host order.
    #[verifier::when_used_as_spec(spec_frags)]
    pub fn frags(&self) -> (n: u16)
        ensures
            n == self.spec_frags(),
    {
        let b = self.as_bytes();
        read_be16(b, 6)
    }

    /// Time to live.
    #[verifier::when_used_as_spec(spec_ttl)]
    pub fn ttl(&self) -> (t: u8)
        ensures
            t == self.spec_ttl(),
    {
        let b = self.as_bytes();
        b[8]
    }

    /// Number of the encapsulated protocol.
    #[verifier::when_used_as_spec(spec_proto)]
    pub fn proto(&self) -> (p: u8)
        ensures
            p == self.spec_proto(),
    {
        let b = self.as_bytes();
        b[9]
    }

    /// Checksum, as stored.
    #[verifier::when_used_as_spec(spec_check)]
    pub fn check(&self) -> (c: [u8; 2])
        ensures
            c == self.spec_check(),
    {
        let b = self.as_bytes();
        read_octets2(b, 10)
    }

    /// Source address, as stored.
    #[verifier::when_used_as_spec(spec_src_addr)]
    pub fn src_addr(&self) -> (a: [u8; 4])
        ensures
            a == self.spec_src_addr(),
    {
        let b = self.as_bytes();
        read_octets4(b, 12)
    }

    /// Destination address, as stored.
    #[verifier::when_used_as_spec(spec_dst_addr)]
    pub fn dst_addr(&self) -> (a: [u8; 4])
        ensures
            a == self.spec_dst_addr(),
    {
        let b = self.as_bytes();
        read_octets4(b, 16)
    }
}

/// The ICMP header: type, code, checksum, and four bytes whose meaning
/// depends on the type.
#[derive(Clone, Copy, Debug)]
pub struct IcmpHdr<'a> {
    raw: &'a [u8],
}

impl<'a> Layout<'a> for IcmpHdr<'a> {
    open spec fn size() -> nat {
        8
    }

    closed spec fn bytes(&self) -> Seq<u8> {
        self.raw@
    }

    fn byte_len() -> (n: usize) {
        ICMP_LEN
    }

    fn at(frame: &'a [u8], offset: usize) -> (r: Result<Self, OutOfBounds>) {
        match overlay(frame, offset, ICMP_LEN) {
            Ok(raw) => Ok(IcmpHdr { raw }),
            Err(e) => Err(e),
        }
    }

    fn as_bytes(&self) -> (b: &'a [u8]) {
        proof {
            use_type_invariant(self);
        }
        self.raw
    }
}

impl<'a> IcmpHdr<'a> {
    #[verifier::type_invariant]
    spec fn sized(self) -> bool {
        self.raw@.len() == 8
    }

    /// Message type.
    pub open spec fn spec_type_(&self) -> u8 {
        self.bytes()[0]
    }

    /// Message code.
    pub open spec fn spec_code(&self) -> u8 {
        self.bytes()[1]
    }

    /// Checksum, as stored.
    pub open spec fn spec_check(&self) -> [u8; 2] {
        octets2(self.bytes(), 2)
    }

    /// The four bytes after the checksum, as stored.
    pub open spec fn spec_data(&self) -> [u8; 4] {
        octets4(self.bytes(), 4)
    }

    /// Message type.
    #[verifier::when_used_as_spec(spec_type_)]
    pub fn type_(&self) -> (t: u8)
        ensures
            t == self.spec_type_(),
    {
        let b = self.as_bytes();
        b[0]
    }

    /// Message code.
    #[verifier::when_used_as_spec(spec_code)]
    pub fn code(&self) -> (c: u8)
        ensures
            c == self.spec_code(),
    {
        let b = self.as_bytes();
        b[1]
    }

    /// Checksum, as stored.
    #[verifier::when_used_as_spec(spec_check)]
    pub fn check(&self) -> (c: [u8; 2])
        ensures
            c == self.spec_check(),
    {
        let b = self.as_bytes();
        read_octets2(b, 2)
    }

    /// The four bytes after the checksum, as stored.
    #[verifier::when_used_as_spec(spec_data)]
    pub fn data(&self) -> (d: [u8; 4])
        ensures
            d == self.spec_data(),
    {
        let b = self.as_bytes();
        read_octets4(b, 4)
    }
}

/// The TCP header, options excluded.
#[derive(Clone, Copy, Debug)]
pub struct TcpHdr<'a> {
    raw: &'a [u8],
}

impl<'a> Layout<'a> for TcpHdr<'a> {
    open spec fn size() -> nat {
        20
    }

    closed spec fn bytes(&self) -> Seq<u8> {
        self.raw@
    }

    fn byte_len() -> (n: usize) {
        TCP_LEN
    }

    fn at(frame: &'a [u8], offset: usize) -> (r: Result<Self, OutOfBounds>) {
        match overlay(frame, offset, TCP_LEN) {
            Ok(raw) => Ok(TcpHdr { raw }),
            Err(e) => Err(e),
        }
    }

    fn as_bytes(&self) -> (b: &'a [u8]) {
        proof {
            use_type_invariant(self);
        }
        self.raw
    }
}

impl<'a> TcpHdr<'a> {
    #[verifier::type_invariant]
    spec fn sized(self) -> bool {
        self.raw@.len() == 20
    }

    /// Source port, in host order.
    pub open spec fn spec_src_port(&self) -> u16 {
        be16(self.bytes()[0], self.bytes()[1])
    }

    /// Destination port, in host order.
    pub open spec fn spec_dst_port(&self) -> u16 {
        be16(self.bytes()[2], self.bytes()[3])
    }

    /// Sequence number, in host order.
    pub open spec fn spec_seq(&self) -> u32 {
        be32(self.bytes()[4], self.bytes()[5], self.bytes()[6], self.bytes()[7])
    }

    /// Acknowledgment number, in host order.
    pub open spec fn spec_ack_seq(&self) -> u32 {
        be32(self.bytes()[8], self.bytes()[9], self.bytes()[10], self.bytes()[11])
    }

    /// Header length in words of four bytes.
    pub open spec fn spec_doff(&self) -> u16 {
        (self.bytes()[12] / 16) as u16
    }

    /// The four reserved bits.
    pub open spec fn spec_res1(&self) -> u16 {
        (self.bytes()[12] % 16) as u16
    }

    /// The FIN flag, 0 or 1.
    pub open spec fn spec_fin(&self) -> u16 {
        flag_bit(self.bytes()[13], 0)
    }

    /// The SYN flag, 0 or 1.
    pub open spec fn spec_syn(&self) -> u16 {
        flag_bit(self.bytes()[13], 1)
    }

    /// The RST flag, 0 or 1.
    pub open spec fn spec_rst(&self) -> u16 {
        flag_bit(self.bytes()[13], 2)
    }

    /// The PSH flag, 0 or 1.
    pub open spec fn spec_psh(&self) -> u16 {
        flag_bit(self.bytes()[13], 3)
    }

    /// The ACK flag, 0 or 1.
    pub open spec fn spec_ack(&self) -> u16 {
        flag_bit(self.bytes()[13], 4)
    }

    /// The URG flag, 0 or 1.
    pub open spec fn spec_urg(&self) -> u16 {
        flag_bit(self.bytes()[13], 5)
    }

    /// The ECE flag, 0 or 1.
    pub open spec fn spec_ece(&self) -> u16 {
        flag_bit(self.bytes()[13], 6)
    }

    /// The CWR flag, 0 or 1.
    pub open spec fn spec_cwr(&self) -> u16 {
        flag_bit(self.bytes()[13], 7)
    }

    /// Receive window, in host order.
    pub open spec fn spec_window(&self) -> u16 {
        be16(self.bytes()[14], self.bytes()[15])
    }

    /// Checksum, as stored.
    pub open spec fn spec_check(&self) -> [u8; 2] {
        octets2(self.bytes(), 16)
    }

    /// Urgent pointer, in host order.
    pub open spec fn spec_urg_ptr(&self) -> u16 {
        be16(self.bytes()[18], self.bytes()[19])
    }

    /// Source port, in host order.
    #[verifier::when_used_as_spec(spec_src_port)]
    pub fn src_port(&self) -> (p: u16)
        ensures
            p == self.spec_src_port(),
    {
        let b = self.as_bytes();
        read_be16(b, 0)
    }

    /// Destination port, in host order.
    #[verifier::when_used_as_spec(spec_dst_port)]
    pub fn dst_port(&self) -> (p: u16)
        ensures
            p == self.spec_dst_port(),
    {
        let b = self.as_bytes();
        read_be16(b, 2)
    }

    /// Sequence number, in host order.
    #[verifier::when_used_as_spec(spec_seq)]
    pub fn seq(&self) -> (n: u32)
        ensures
            n == self.spec_seq(),
    {
        let b = self.as_bytes();
        read_be32(b, 4)
    }

    /// Acknowledgment number, in host order.
    #[verifier::when_used_as_spec(spec_ack_seq)]
    pub fn ack_seq(&self) -> (n: u32)
        ensures
            n == self.spec_ack_seq(),
    {
        let b = self.as_bytes();
        read_be32(b, 8)
    }

    /// Header length in words of four bytes.
    #[verifier::when_used_as_spec(spec_doff)]
    pub fn doff(&self) -> (n: u16)
        ensures
            n == self.spec_doff(),
    {
        let b = self.as_bytes();
        (b[12] / 16) as u16
    }

    /// The four reserved bits.
    #[verifier::when_used_as_spec(spec_res1)]
    pub fn res1(&self) -> (n: u16)
        ensures
            n == self.spec_res1(),
    {
        let b = self.as_bytes();
        (b[12] % 16) as u16
    }

    /// The FIN flag, 0 or 1.
    #[verifier::when_used_as_spec(spec_fin)]
    pub fn fin(&self) -> (f: u16)
        ensures
            f == self.spec_fin(),
    {
        let b = self.as_bytes();
        read_flag(b[13], 0)
    }

    /// The SYN flag, 0 or 1.
    #[verifier::when_used_as_spec(spec_syn)]
    pub fn syn(&self) -> (f: u16)
        ensures
            f == self.spec_syn(),
    {
        let b = self.as_bytes();
        read_flag(b[13], 1)
    }

    /// The RST flag, 0 or 1.
    #[verifier::when_used_as_spec(spec_rst)]
    pub fn rst(&self) -> (f: u16)
        ensures
            f == self.spec_rst(),
    {
        let b = self.as_bytes();
        read_flag(b[13], 2)
    }

    /// The PSH flag, 0 or 1.
    #[verifier::when_used_as_spec(spec_psh)]
    pub fn psh(&self) -> (f: u16)
        ensures
            f == self.spec_psh(),
    {
        let b = self.as_bytes();
        read_flag(b[13], 3)
    }

    /// The ACK flag, 0 or 1.
    #[verifier::when_used_as_spec(spec_ack)]
    pub fn ack(&self) -> (f: u16)
        ensures
            f == self.spec_ack(),
    {
        let b = self.as_bytes();
        read_flag(b[13], 4)
    }

    /// The URG flag, 0 or 1.
    #[verifier::when_used_as_spec(spec_urg)]
    pub fn urg(&self) -> (f: u16)
        ensures
            f == self.spec_urg(),
    {
        let b = self.as_bytes();
        read_flag(b[13], 5)
    }

    /// The ECE flag, 0 or 1.
    #[verifier::when_used_as_spec(spec_ece)]
    pub fn ece(&self) -> (f: u16)
        ensures
            f == self.spec_ece(),
    {
        let b = self.as_bytes();
        read_flag(b[13], 6)
    }

    /// The CWR flag, 0 or 1.
    #[verifier::when_used_as_spec(spec_cwr)]
    pub fn cwr(&self) -> (f: u16)
        ensures
            f == self.spec_cwr(),
    {
        let b = self.as_bytes();
        read_flag(b[13], 7)
    }

    /// Receive window, in host order.
    #[verifier::when_used_as_spec(spec_window)]
    pub fn window(&self) -> (n: u16)
        ensures
            n == self.spec_window(),
    {
        let b = self.as_bytes();
        read_be16(b, 14)
    }

    /// Checksum, as stored.
    #[verifier::when_used_as_spec(spec_check)]
    pub fn check(&self) -> (c: [u8; 2])
        ensures
            c == self.spec_check(),
    {
        let b = self.as_bytes();
        read_octets2(b, 16)
    }

    /// Urgent pointer, in host order.
    #[verifier::when_used_as_spec(spec_urg_ptr)]
    pub fn urg_ptr(&self) -> (n: u16)
        ensures
            n == self.spec_urg_ptr(),
    {
        let b = self.as_bytes();
        read_be16(b, 18)
    }
}

/// The UDP header.
#[derive(Clone, Copy, Debug)]
pub struct UdpHdr<'a> {
    raw: &'a [u8],
}

impl<'a> Layout<'a> for UdpHdr<'a> {
    open spec fn size() -> nat {
        8
    }

    closed spec fn bytes(&self) -> Seq<u8> {
        self.raw@
    }

    fn byte_len() -> (n: usize) {
        UDP_LEN
    }

    fn at(frame: &'a [u8], offset: usize) -> (r: Result<Self, OutOfBounds>) {
        match overlay(frame, offset, UDP_LEN) {
            Ok(raw) => Ok(UdpHdr { raw }),
            Err(e) => Err(e),
        }
    }

    fn as_bytes(&self) -> (b: &'a [u8]) {
        proof {
            use_type_invariant(self);
        }
        self.raw
    }
}

impl<'a> UdpHdr<'a> {
    #[verifier::type_invariant]
    spec fn sized(self) -> bool {
        self.raw@.len() == 8
    }

    /// Source port, in host order.
    pub open spec fn spec_src_port(&self) -> u16 {
        be16(self.bytes()[0], self.bytes()[1])
    }

    /// Destination port, in host order.
    pub open spec fn spec_dst_port(&self) -> u16 {
        be16(self.bytes()[2], self.bytes()[3])
    }

    /// Length of header and payload, in host order.
    pub open spec fn spec_len(&self) -> u16 {
        be16(self.bytes()[4], self.bytes()[5])
    }

    /// Checksum, as stored.
    pub open spec fn spec_check(&self) -> [u8; 2] {
        octets2(self.bytes(), 6)
    }

    /// Source port, in host order.
    #[verifier::when_used_as_spec(spec_src_port)]
    pub fn src_port(&self) -> (p: u16)
        ensures
            p == self.spec_src_port(),
    {
        let b = self.as_bytes();
        read_be16(b, 0)
    }

    /// Destination port, in host order.
    #[verifier::when_used_as_spec(spec_dst_port)]
    pub fn dst_port(&self) -> (p: u16)
        ensures
            p == self.spec_dst_port(),
    {
        let b = self.as_bytes();
        read_be16(b, 2)
    }

    /// Length of header and payload, in host order.
    #[verifier::when_used_as_spec(spec_len)]
    pub fn len(&self) -> (n: u16)
        ensures
            n == self.spec_len(),
    {
        let b = self.as_bytes();
        read_be16(b, 4)
    }

    /// Checksum, as stored.
    #[verifier::when_used_as_spec(spec_check)]
    pub fn check(&self) -> (c: [u8; 2])
        ensures
            c == self.spec_check(),
    {
        let b = self.as_bytes();
        read_octets2(b, 6)
    }
}

} // verus!
