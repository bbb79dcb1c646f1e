//! Address extraction by role, and the drop decision that is made on it.

use crate::wire::{be16, EthHdr, Ipv4Hdr, Layout, TcpHdr, UdpHdr};
use vstd::prelude::*;

verus! {

/// The role of an address in a header: where the packet comes from, or where
/// it goes.
#[derive(Clone, Copy, Debug, PartialEq, Eq, Structural)]
pub enum Mode {
    Src,
    Dst,
}

/// A fixed-width value that identifies an endpoint at some layer: six bytes
/// of link address, four bytes of network address, or a port number. Values of
/// different widths are different types and cannot be compared.
pub trait AddressValue: Copy {
    /// Whether the two values are the same.
    fn same(&self, other: &Self) -> (r: bool)
        ensures
            r == (*self == *other),
    ;
}

impl AddressValue for u16 {
    fn same(&self, other: &Self) -> (r: bool) {
        *self == *other
    }
}

impl<const N: usize> AddressValue for [u8; N] {
    fn same(&self, other: &Self) -> (r: bool) {
        let mut i: usize = 0;
        while i < N
            invariant
                i <= N,
                forall|j: int| 0 <= j < i ==> self[j] == other[j],
            decreases N - i,
        {
            if self[i] != other[i] {
                return false;
            }
            i += 1;
        }
        assert(*self =~= *other);
        true
    }
}

/// A header that has a source and a destination of width `A`.
pub trait HasAddr<A> {
    /// The field that `mode` selects, as the header holds it; a port is given
    /// in host order.
    spec fn spec_addr(&self, mode: Mode) -> A;

    /// Reads the field that `mode` selects.
    fn addr(&self, mode: Mode) -> (a: A)
        ensures
            a == self.spec_addr(mode),
    ;
}

impl<'a> HasAddr<[u8; 6]> for EthHdr<'a> {
    open spec fn spec_addr(&self, mode: Mode) -> [u8; 6] {
        match mode {
            Mode::Src => self.spec_src_addr(),
            Mode::Dst => self.spec_dst_addr(),
        }
    }

    #[inline(always)]
    fn addr(&self, mode: Mode) -> (a: [u8; 6]) {
        match mode {
            Mode::Src => self.src_addr(),
            Mode::Dst => self.dst_addr(),
        }
    }
}

impl<'a> HasAddr<[u8; 4]> for Ipv4Hdr<'a> {
    open spec fn spec_addr(&self, mode: Mode) -> [u8; 4] {
        match mode {
            Mode::Src => self.spec_src_addr(),
            Mode::Dst => self.spec_dst_addr(),
        }
    }

    #[inline(always)]
    fn addr(&self, mode: Mode) -> (a: [u8; 4]) {
        match mode {
            Mode::Src => self.src_addr(),
            Mode::Dst => self.dst_addr(),
        }
    }
}

impl<'a> HasAddr<u16> for UdpHdr<'a> {
    open spec fn spec_addr(&self, mode: Mode) -> u16 {
        match mode {
            Mode::Src => self.spec_src_port(),
            Mode::Dst => self.spec_dst_port(),
        }
    }

    #[inline(always)]
    fn addr(&self, mode: Mode) -> (a: u16) {
        match mode {
            Mode::Src => self.src_port(),
            Mode::Dst => self.dst_port(),
        }
    }
}

impl<'a> HasAddr<u16> for TcpHdr<'a> {
    open spec fn spec_addr(&self, mode: Mode) -> u16 {
        match mode {
            Mode::Src => self.spec_src_port(),
            Mode::Dst => self.spec_dst_port(),
        }
    }

    #[inline(always)]
    fn addr(&self, mode: Mode) -> (a: u16) {
        match mode {
            Mode::Src => self.src_port(),
            Mode::Dst => self.dst_port(),
        }
    }
}

/// A link address is extracted as the six bytes that the header stores: the
/// source from bytes 6 to 11, the destination from bytes 0 to 5.
pub proof fn lemma_link_addr_as_stored(eth: EthHdr, mode: Mode)
    requires
        eth.bytes().len() == EthHdr::size(),
    ensures
        eth.spec_addr(mode)@ == match mode {
            Mode::Src => eth.bytes().subrange(6, 12),
            Mode::Dst => eth.bytes().subrange(0, 6),
        },
{
    assert(eth.spec_src_addr()@ =~= eth.bytes().subrange(6, 12));
    assert(eth.spec_dst_addr()@ =~= eth.bytes().subrange(0, 6));
}

/// A network address is extracted as the four bytes that the header stores:
/// the source from bytes 12 to 15, the destination from bytes 16 to 19.
pub proof fn lemma_network_addr_as_stored(ip: Ipv4Hdr, mode: Mode)
    requires
        ip.bytes().len() == Ipv4Hdr::size(),
    ensures
        ip.spec_addr(mode)@ == match mode {
            Mode::Src => ip.bytes().subrange(12, 16),
            Mode::Dst => ip.bytes().subrange(16, 20),
        },
{
    assert(ip.spec_src_addr()@ =~= ip.bytes().subrange(12, 16));
    assert(ip.spec_dst_addr()@ =~= ip.bytes().subrange(16, 20));
}

/// A port is extracted as the number that its two stored bytes spell in
/// network order, and is changed in no other way: the source from bytes 0 and
/// 1, the destination from bytes 2 and 3, of a UDP and of a TCP header alike.
pub proof fn lemma_port_addr_as_stored(udp: UdpHdr, tcp: TcpHdr, mode: Mode)
    ensures
        udp.spec_addr(mode) == match mode {
            Mode::Src => be16(udp.bytes()[0], udp.bytes()[1]),
            Mode::Dst => be16(udp.bytes()[2], udp.bytes()[3]),
        },
        tcp.spec_addr(mode) == match mode {
            Mode::Src => be16(tcp.bytes()[0], tcp.bytes()[1]),
            Mode::Dst => be16(tcp.bytes()[2], tcp.bytes()[3]),
        },
{
}

/// The drop decision: a packet is dropped when the address taken from it is
/// the configured needle. The role says which field the address came from and
/// has no part in the comparison.
pub open spec fn verdict<A>(extracted: A, needle: A, role: Mode) -> bool {
    extracted == needle
}

/// Decides whether a packet with the given extracted address is dropped.
#[inline(always)]
pub fn should_drop<A: AddressValue>(extracted: A, needle: A, role: Mode) -> (r: bool)
    ensures
        r == verdict(extracted, needle, role),
{
    extracted.same(&needle)
}

/// Extracts the address that `mode` selects from `hdr` and decides whether
/// the packet is dropped.
#[inline(always)]
pub fn drop<H, A>(hdr: &H, needle: A, mode: Mode) -> (r: bool) where H: HasAddr<A>, A: AddressValue
    ensures
        r == verdict(hdr.spec_addr(mode), needle, mode),
{
    let addr = hdr.addr(mode);
    should_drop(addr, needle, mode)
}

/// The verdict depends on the extracted address, the needle and the role
/// alone: two decisions on the same three values agree, whatever was decided
/// before them.
pub proof fn lemma_verdict_is_determined<A>(a1: A, n1: A, r1: Mode, a2: A, n2: A, r2: Mode)
    requires
        a1 == a2,
        n1 == n2,
        r1 == r2,
    ensures
        verdict(a1, n1, r1) == verdict(a2, n2, r2),
{
}

/// The role has no part in the verdict.
pub proof fn lemma_verdict_ignores_role<A>(extracted: A, needle: A)
    ensures
        verdict(extracted, needle, Mode::Src) == verdict(extracted, needle, Mode::Dst),
{
}

} // verus!
