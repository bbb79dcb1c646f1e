//! The per-packet helpers: overlaying a header, the IPv4 checksum, the
//! records of the transport layers, and the filter for control messages.

use crate::bounds::{overlay_mut, window};
use crate::checksum::{
    carry_bound, csum_fold_spec, fold, ipv4_checksum, lemma_fold_round, store_check, wire16,
    word_sum, word_sum_upto, zero_check,
};
use crate::classify::{classify, outcome, Classification, State, Transport};
use crate::log::Record;
use crate::wire::{IcmpHdr, Ipv4Hdr, Layout, TcpHdr, UdpHdr, ETH_LEN, IPV4_LEN, PROTO_ICMP};
use vstd::prelude::*;

verus! {

/// Folds a sum of 16-bit words to a checksum: every carry above bit 15 is
/// added back into the low sixteen bits, and what is left is complemented.
///
/// Four rounds of adding back are made; they settle every 64-bit sum.
#[inline(always)]
pub fn csum_fold(csum: u64) -> (r: u16)
    ensures
        r == csum_fold_spec(csum),
{
    let mut sum: u64 = csum;
    let mut round: u8 = 0;
    while round < 4
        invariant
            round <= 4,
            sum <= carry_bound(round as nat),
            fold(sum as nat) == fold(csum as nat),
        decreases 4 - round,
    {
        if (sum >> 16) > 0 {
            proof {
                lemma_fold_round(sum, round as nat);
            }
            sum = (sum & 0xffff) + (sum >> 16);
        } else {
            assert(sum <= 0xffff) by (bit_vector)
                requires
                    sum >> 16 == 0,
            ;
        }
        round += 1;
    }
    let low: u16 = sum as u16;
    assert(!low == 0xffff - low) by (bit_vector);
    !low
}

/// Sum of the big-endian 16-bit words of `region`.
fn sum_words(region: &[u8]) -> (sum: u64)
    requires
        region@.len() <= 0x1_0000,
    ensures
        sum == word_sum(region@),
{
    let words: usize = region.len() / 2;
    let mut sum: u64 = 0;
    let mut i: usize = 0;
    while i < words
        invariant
            i <= words,
            words == region@.len() / 2,
            words <= 0x8000,
            sum == word_sum_upto(region@, i as nat),
            sum <= i * 0xffff,
        decreases words - i,
    {
        let word: u16 = crate::wire::read_be16(region, 2 * i);
        sum = sum + word as u64;
        i += 1;
    }
    sum
}

/// The two bytes that spell `x` in network order.
fn to_wire16(x: u16) -> (b: [u8; 2])
    ensures
        b == wire16(x),
{
    let b = [(x / 0x100) as u8, (x % 0x100) as u8];
    assert(b =~= wire16(x));
    b
}

/// Computes the checksum of the IPv4 header `iph`.
///
/// The header's own checksum field is set to zero first and stays zero, so
/// that it has no part in the sum. The checksum comes back as the two bytes
/// that go into the field, in network order; the caller stores them once it
/// has made its changes to the header.
#[inline(always)]
pub fn iph_csum(iph: &mut [u8]) -> (r: [u8; 2])
    requires
        old(iph)@.len() == 20,
    ensures
        final(iph)@ == zero_check(old(iph)@),
        r == wire16(ipv4_checksum(old(iph)@)),
{
    iph[10] = 0;
    iph[11] = 0;

    let csum: u64 = sum_words(iph);

    to_wire16(csum_fold(csum))
}

/// Writes `check` into the checksum field of the IPv4 header `iph`, the one
/// field of a frame that is ever written.
#[inline(always)]
pub fn iph_set_check(iph: &mut [u8], check: [u8; 2])
    requires
        old(iph)@.len() == 20,
    ensures
        final(iph)@ == store_check(old(iph)@, check),
{
    iph[10] = check[0];
    iph[11] = check[1];
}

/// The record of a TCP segment: sequence and acknowledgment numbers, the
/// SYN, ACK, PSH and FIN flags, and both endpoints, all as the headers hold
/// them.
#[inline(always)]
pub fn log_tcp(ipv4hdr: &Ipv4Hdr, tcphdr: &TcpHdr) -> (r: Record)
    ensures
        r == (Record::Tcp {
            seq: tcphdr.spec_seq(),
            ack_seq: tcphdr.spec_ack_seq(),
            syn: tcphdr.spec_syn(),
            ack: tcphdr.spec_ack(),
            psh: tcphdr.spec_psh(),
            fin: tcphdr.spec_fin(),
            src: ipv4hdr.spec_src_addr(),
            src_port: tcphdr.spec_src_port(),
            dst: ipv4hdr.spec_dst_addr(),
            dst_port: tcphdr.spec_dst_port(),
        }),
{
    let dst_addr = ipv4hdr.dst_addr();
    let src_addr = ipv4hdr.src_addr();

    let src_port = tcphdr.src_port();
    let dst_port = tcphdr.dst_port();
    let seq = tcphdr.seq();
    let ack_seq = tcphdr.ack_seq();
    let syn = tcphdr.syn();
    let ack = tcphdr.ack();
    let psh = tcphdr.psh();
    let fin = tcphdr.fin();

    Record::Tcp {
        seq,
        ack_seq,
        syn,
        ack,
        psh,
        fin,
        src: src_addr,
        src_port,
        dst: dst_addr,
        dst_port,
    }
}

/// The record of a control message: both network addresses and the message
/// type.
#[inline(always)]
pub fn log_icmp(ipv4hdr: &Ipv4Hdr, icmphdr: &IcmpHdr) -> (r: Record)
    ensures
        r == (Record::Icmp {
            src: ipv4hdr.spec_src_addr(),
            dst: ipv4hdr.spec_dst_addr(),
            type_: icmphdr.spec_type_(),
        }),
{
    let type_ = icmphdr.type_();
    let dst_addr = ipv4hdr.dst_addr();
    let src_addr = ipv4hdr.src_addr();

    Record::Icmp { src: src_addr, dst: dst_addr, type_ }
}

/// The record of a UDP datagram: both endpoints and the protocol number of
/// the network header.
#[inline(always)]
pub fn log_udp(ipv4hdr: &Ipv4Hdr, udphdr: &UdpHdr) -> (r: Record)
    ensures
        r == (Record::Udp {
            src: ipv4hdr.spec_src_addr(),
            src_port: udphdr.spec_src_port(),
            dst: ipv4hdr.spec_dst_addr(),
            dst_port: udphdr.spec_dst_port(),
            proto: ipv4hdr.spec_proto(),
        }),
{
    Record::Udp {
        src: ipv4hdr.src_addr(),
        src_port: udphdr.src_port(),
        dst: ipv4hdr.dst_addr(),
        dst_port: udphdr.dst_port(),
        proto: ipv4hdr.proto(),
    }
}

/// Lays the header `T` over `frame` at `offset`.
///
/// Succeeds exactly when the whole header lies inside the frame; a header
/// that does not is reported as 1 and nothing is overlaid.
#[inline(always)]
pub fn ptr_at<'a, T: Layout<'a>>(frame: &'a [u8], offset: usize) -> (r: Result<T, u16>)
    ensures
        r is Ok <==> offset + T::size() <= frame@.len(),
        r matches Ok(h) ==> h.bytes() == window(frame@, offset, T::size()),
        r matches Err(e) ==> e == 1,
{
    match T::at(frame, offset) {
        Ok(h) => Ok(h),
        Err(e) => Err(e.code()),
    }
}

/// The writable window of `frame` under the header `T` at `offset`.
///
/// Succeeds on the same frames as [`ptr_at`]. What is written through the
/// window lands in the frame; the rest of the frame stays as it was.
#[inline(always)]
pub fn ptr_at_mut<'a, T: Layout<'a>>(frame: &'a mut [u8], offset: usize) -> (r: Result<
    &'a mut [u8],
    u16,
>)
    ensures
        r is Ok <==> offset + T::size() <= old(frame)@.len(),
        r matches Ok(w) ==> {
            &&& w@ == window(old(frame)@, offset, T::size())
            &&& final(frame)@ == old(frame)@.subrange(0, offset as int) + final(w)@ + old(
                frame,
            )@.subrange(offset + T::size(), old(frame)@.len() as int)
        },
        r matches Err(e) ==> e == 1 && final(frame)@ == old(frame)@,
{
    match overlay_mut(frame, offset, T::byte_len()) {
        Ok(w) => Ok(w),
        Err(e) => Err(e.code()),
    }
}

/// Whether `frame` is a control message over IPv4 whose three headers all lie
/// inside the frame.
pub open spec fn carries_icmp(frame: Seq<u8>) -> bool {
    outcome(frame) == State::TransportParsed && frame[23] == PROTO_ICMP
}

/// Classifies `frame` and, where it is a control message over IPv4, hands
/// out its IPv4 header for writing and its ICMP header for reading.
///
/// Every other frame gives `None`, whether a header did not fit or a protocol
/// was another one, and is left as it was. What is written through the IPv4
/// window lands in bytes 14 to 33 of the frame; the rest of the frame stays as
/// it was.
#[inline(always)]
pub fn filter_icmp<'a>(frame: &'a mut [u8]) -> (r: Option<(&'a mut [u8], IcmpHdr<'a>)>)
    ensures
        r is Some <==> carries_icmp(old(frame)@),
        r matches Some((ipv4hdr, icmphdr)) ==> {
            &&& ipv4hdr@ == old(frame)@.subrange(14, 34)
            &&& icmphdr.bytes() == old(frame)@.subrange(34, 42)
            &&& final(frame)@ == old(frame)@.take(14) + final(ipv4hdr)@ + old(frame)@.skip(34)
        },
        r is None ==> final(frame)@ == old(frame)@,
{
    let found: bool = match classify(&*frame) {
        Classification::TransportParsed { l4: Transport::Icmp(_), .. } => true,
        _ => false,
    };
    if !found {
        return None;
    }
    let (head, rest) = frame.split_at_mut(ETH_LEN + IPV4_LEN);
    let (_, ipv4hdr) = head.split_at_mut(ETH_LEN);
    let rest: &'a [u8] = rest;
    match IcmpHdr::at(rest, 0) {
        Ok(icmphdr) => Some((ipv4hdr, icmphdr)),
        Err(_) => None,
    }
}

} // verus!
