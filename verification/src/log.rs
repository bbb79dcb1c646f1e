//! Diagnostic records: what is reported of a header, decoded and ready for a
//! sink to print. Emitting a record is the caller's business; making one reads
//! the headers and changes nothing.

use crate::wire::{EthHdr, Ipv4Hdr, UdpHdr};
use vstd::prelude::*;

verus! {

/// One diagnostic record. Addresses are as stored on the wire; ports, numbers
/// and types are in host order; a flag is 0 or 1.
#[derive(Clone, Copy, Debug, PartialEq, Eq)]
pub enum Record {
    /// Of a link-layer header.
    Link { src_mac: [u8; 6], dst_mac: [u8; 6], ether_type: u16 },
    /// Of an IPv4 header.
    Network { src: [u8; 4], dst: [u8; 4], proto: u8 },
    /// Of the ports of a transport header.
    Ports { src_port: u16, dst_port: u16 },
    /// Of a control message.
    Icmp { src: [u8; 4], dst: [u8; 4], type_: u8 },
    /// Of a TCP segment.
    Tcp {
        seq: u32,
        ack_seq: u32,
        syn: u16,
        ack: u16,
        psh: u16,
        fin: u16,
        src: [u8; 4],
        src_port: u16,
        dst: [u8; 4],
        dst_port: u16,
    },
    /// Of a UDP datagram.
    Udp { src: [u8; 4], src_port: u16, dst: [u8; 4], dst_port: u16, proto: u8 },
}

/// A header that can be reported on its own.
pub trait DisplayHdr {
    /// The record that reports this header.
    spec fn record(&self) -> Record;

    /// Makes the record that reports this header.
    fn log(&self) -> (r: Record)
        ensures
            r == self.record(),
    ;
}

impl<'a> DisplayHdr for EthHdr<'a> {
    open spec fn record(&self) -> Record {
        Record::Link {
            src_mac: self.spec_src_addr(),
            dst_mac: self.spec_dst_addr(),
            ether_type: self.spec_ether_type(),
        }
    }

    fn log(&self) -> (r: Record) {
        Record::Link {
            src_mac: self.src_addr(),
            dst_mac: self.dst_addr(),
            ether_type: self.ether_type(),
        }
    }
}

impl<'a> DisplayHdr for Ipv4Hdr<'a> {
    open spec fn record(&self) -> Record {
        Record::Network {
            src: self.spec_src_addr(),
            dst: self.spec_dst_addr(),
            proto: self.spec_proto(),
        }
    }

    fn log(&self) -> (r: Record) {
        Record::Network { src: self.src_addr(), dst: self.dst_addr(), proto: self.proto() }
    }
}

impl<'a> DisplayHdr for UdpHdr<'a> {
    open spec fn record(&self) -> Record {
        Record::Ports { src_port: self.spec_src_port(), dst_port: self.spec_dst_port() }
    }

    fn log(&self) -> (r: Record) {
        Record::Ports { src_port: self.src_port(), dst_port: self.dst_port() }
    }
}

/// Makes the record that reports `hdr`, whatever its layout.
#[inline(always)]
pub fn display_hdr<T: DisplayHdr>(hdr: &T) -> (r: Record)
    ensures
        r == hdr.record(),
{
    hdr.log()
}

} // verus!
