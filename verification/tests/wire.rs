use network_types::bitfield::BitfieldUnit;
use network_types::eth::EtherType;
use network_types::ip::IpProto;
use packet_inspect::helper::ptr_at;
use packet_inspect::wire::{
    EthHdr, IcmpHdr, Ipv4Hdr, Layout, TcpHdr, UdpHdr, ETHER_TYPE_IPV4, ETH_LEN, ICMP_LEN, IPV4_LEN,
    PROTO_ICMP, PROTO_TCP, PROTO_UDP, TCP_LEN, UDP_LEN,
};

const IP: [u8; 20] = [
    0x46, 0xb8, 0x05, 0xdc, 0x1c, 0x46, 0x5f, 0xff, 0x40, 0x06, 0xb1, 0xe6, 0xac, 0x10, 0x0a, 0x63,
    0xac, 0x10, 0x0a, 0x0c,
];

const TCP: [u8; 20] = [
    0x1f, 0x90, 0x00, 0x50, 0x80, 0x00, 0x00, 0x01, 0x00, 0xff, 0xff, 0xfe, 0xa5, 0x5a, 0x72, 0x10,
    0xbe, 0xef, 0x12, 0x34,
];

#[test]
fn link_header_fields() {
    let bytes = [1, 2, 3, 4, 5, 6, 7, 8, 9, 10, 11, 12, 0x88, 0xa8];
    let eth: EthHdr = ptr_at(&bytes, 0).unwrap();
    assert_eq!(eth.dst_addr(), [1, 2, 3, 4, 5, 6]);
    assert_eq!(eth.src_addr(), [7, 8, 9, 10, 11, 12]);
    assert_eq!(eth.ether_type(), 0x88a8);
    assert_eq!(eth.as_bytes(), &bytes[..]);
}

#[test]
fn network_header_fields() {
    let ip: Ipv4Hdr = ptr_at(&IP, 0).unwrap();
    assert_eq!(ip.vihl(), 0x46);
    assert_eq!(ip.version(), 4);
    assert_eq!(ip.ihl(), 24);
    assert_eq!(ip.tos(), 0xb8);
    assert_eq!(ip.tot_len(), 1500);
    assert_eq!(ip.id(), 0x1c46);
    assert_eq!(ip.frags(), 0x5fff);
    assert_eq!(ip.ttl(), 64);
    assert_eq!(ip.proto(), 6);
    assert_eq!(ip.check(), [0xb1, 0xe6]);
    assert_eq!(ip.src_addr(), [172, 16, 10, 99]);
    assert_eq!(ip.dst_addr(), [172, 16, 10, 12]);
}

#[test]
fn control_header_fields() {
    let bytes = [11, 1, 0xf4, 0xfe, 0xca, 0xfe, 0xba, 0xbe];
    let icmp: IcmpHdr = ptr_at(&bytes, 0).unwrap();
    assert_eq!(icmp.type_(), 11);
    assert_eq!(icmp.code(), 1);
    assert_eq!(icmp.check(), [0xf4, 0xfe]);
    assert_eq!(icmp.data(), [0xca, 0xfe, 0xba, 0xbe]);
}

#[test]
fn segment_header_fields() {
    let tcp: TcpHdr = ptr_at(&TCP, 0).unwrap();
    assert_eq!(tcp.src_port(), 8080);
    assert_eq!(tcp.dst_port(), 80);
    assert_eq!(tcp.seq(), 0x8000_0001);
    assert_eq!(tcp.ack_seq(), 0x00ff_fffe);
    assert_eq!(tcp.doff(), 10);
    assert_eq!(tcp.res1(), 5);
    assert_eq!(tcp.fin(), 0);
    assert_eq!(tcp.syn(), 1);
    assert_eq!(tcp.rst(), 0);
    assert_eq!(tcp.psh(), 1);
    assert_eq!(tcp.ack(), 1);
    assert_eq!(tcp.urg(), 0);
    assert_eq!(tcp.ece(), 1);
    assert_eq!(tcp.cwr(), 0);
    assert_eq!(tcp.window(), 0x7210);
    assert_eq!(tcp.check(), [0xbe, 0xef]);
    assert_eq!(tcp.urg_ptr(), 0x1234);
}

#[test]
fn datagram_header_fields() {
    let bytes = [0xff, 0xff, 0x00, 0x01, 0x05, 0xc8, 0x9a, 0xbc];
    let udp: UdpHdr = ptr_at(&bytes, 0).unwrap();
    assert_eq!(udp.src_port(), 0xffff);
    assert_eq!(udp.dst_port(), 1);
    assert_eq!(udp.len(), 1480);
    assert_eq!(udp.check(), [0x9a, 0xbc]);
}

#[test]
fn each_flag_is_one_bit_of_byte_thirteen() {
    let mut bytes = TCP;
    for bit in 0..8 {
        bytes[13] = 1 << bit;
        let tcp: TcpHdr = ptr_at(&bytes, 0).unwrap();
        let flags =
            [tcp.fin(), tcp.syn(), tcp.rst(), tcp.psh(), tcp.ack(), tcp.urg(), tcp.ece(), tcp.cwr()];
        for (i, f) in flags.iter().enumerate() {
            assert_eq!(*f, u16::from(i == bit));
        }
    }
}

#[test]
fn header_at_an_offset_reads_from_there() {
    let mut frame = vec![0xeeu8; 7];
    frame.extend_from_slice(&TCP);
    frame.push(0xee);
    let tcp: TcpHdr = ptr_at(&frame, 7).unwrap();
    assert_eq!(tcp.src_port(), 8080);
    assert_eq!(tcp.urg_ptr(), 0x1234);
    let shifted: TcpHdr = ptr_at(&frame, 8).unwrap();
    assert_eq!(shifted.src_port(), 0x9000);
    assert_eq!(shifted.urg_ptr(), 0x34ee);
}

#[test]
fn at_is_what_ptr_at_calls() {
    let frame = [0u8; 30];
    assert!(EthHdr::at(&frame, 16).is_ok());
    assert!(EthHdr::at(&frame, 17).is_err());
    assert!(Ipv4Hdr::at(&frame, 10).is_ok());
    assert!(Ipv4Hdr::at(&frame, 11).is_err());
}

#[test]
fn sizes_are_those_of_the_kernel_layouts() {
    assert_eq!(ETH_LEN, network_types::eth::EthHdr::LEN);
    assert_eq!(IPV4_LEN, network_types::ip::Ipv4Hdr::LEN);
    assert_eq!(ICMP_LEN, network_types::icmp::IcmpHdr::LEN);
    assert_eq!(TCP_LEN, network_types::tcp::TcpHdr::LEN);
    assert_eq!(UDP_LEN, network_types::udp::UdpHdr::LEN);
}

#[test]
fn discriminants_are_the_assigned_numbers() {
    assert_eq!(ETHER_TYPE_IPV4, u16::from_be(EtherType::Ipv4 as u16));
    assert_eq!(PROTO_ICMP, IpProto::Icmp as u8);
    assert_eq!(PROTO_TCP, IpProto::Tcp as u8);
    assert_eq!(PROTO_UDP, IpProto::Udp as u8);
}

#[test]
fn link_type_agrees_with_network_types() {
    for wire in [[0x08u8, 0x00], [0x08, 0x06], [0x86, 0xdd], [0x00, 0x08], [0x12, 0x34]] {
        let theirs = network_types::eth::EthHdr {
            dst_addr: [0; 6],
            src_addr: [0; 6],
            ether_type: u16::from_ne_bytes(wire),
        };
        let mut bytes = [0u8; 14];
        bytes[12..].copy_from_slice(&wire);
        let ours: EthHdr = ptr_at(&bytes, 0).unwrap();
        assert_eq!(
            theirs.ether_type() == Ok(EtherType::Ipv4),
            ours.ether_type() == ETHER_TYPE_IPV4
        );
    }
}

#[test]
fn network_header_agrees_with_network_types() {
    let theirs = network_types::ip::Ipv4Hdr {
        vihl: IP[0],
        tos: IP[1],
        tot_len: [IP[2], IP[3]],
        id: [IP[4], IP[5]],
        frags: [IP[6], IP[7]],
        ttl: IP[8],
        proto: IpProto::Tcp,
        check: [IP[10], IP[11]],
        src_addr: [IP[12], IP[13], IP[14], IP[15]],
        dst_addr: [IP[16], IP[17], IP[18], IP[19]],
    };
    let ours: Ipv4Hdr = ptr_at(&IP, 0).unwrap();
    assert_eq!(ours.version(), theirs.version());
    assert_eq!(ours.ihl(), theirs.ihl());
    assert_eq!(ours.tot_len(), theirs.tot_len());
    assert_eq!(ours.id(), theirs.id());
    assert_eq!(u16::from_be_bytes(ours.check()), theirs.checksum());
    assert_eq!(ours.proto(), theirs.proto as u8);
    assert_eq!(ours.src_addr(), theirs.src_addr);
    assert_eq!(ours.dst_addr(), theirs.dst_addr);
    assert_eq!(ours.frags() >> 13, u16::from(theirs.frag_flags()));
    assert_eq!(ours.frags() & 0x1fff, theirs.frag_offset());
}

#[test]
fn segment_header_agrees_with_network_types() {
    for flags in [0x00u8, 0x01, 0x02, 0x08, 0x10, 0x12, 0x5a, 0xa5, 0xff] {
        let mut bytes = TCP;
        bytes[13] = flags;
        let theirs = network_types::tcp::TcpHdr {
            source: [bytes[0], bytes[1]],
            dest: [bytes[2], bytes[3]],
            seq: [bytes[4], bytes[5], bytes[6], bytes[7]],
            ack_seq: [bytes[8], bytes[9], bytes[10], bytes[11]],
            _bitfield_align_1: [],
            _bitfield_1: BitfieldUnit::new([bytes[12], bytes[13]]),
            window: [bytes[14], bytes[15]],
            check: [bytes[16], bytes[17]],
            urg_ptr: [bytes[18], bytes[19]],
        };
        let ours: TcpHdr = ptr_at(&bytes, 0).unwrap();
        assert_eq!(ours.src_port(), u16::from_be_bytes(theirs.source));
        assert_eq!(ours.dst_port(), u16::from_be_bytes(theirs.dest));
        assert_eq!(ours.seq(), u32::from_be_bytes(theirs.seq));
        assert_eq!(ours.ack_seq(), u32::from_be_bytes(theirs.ack_seq));
        assert_eq!(ours.doff(), theirs.doff());
        assert_eq!(ours.res1(), theirs.res1());
        assert_eq!(ours.fin(), theirs.fin());
        assert_eq!(ours.syn(), theirs.syn());
        assert_eq!(ours.rst(), theirs.rst());
        assert_eq!(ours.psh(), theirs.psh());
        assert_eq!(ours.ack(), theirs.ack());
        assert_eq!(ours.urg(), theirs.urg());
        assert_eq!(ours.ece(), theirs.ece());
        assert_eq!(ours.cwr(), theirs.cwr());
    }
}

#[test]
fn datagram_header_agrees_with_network_types() {
    let bytes = [0x12, 0x34, 0xab, 0xcd, 0x00, 0x1c, 0x55, 0xaa];
    let theirs = network_types::udp::UdpHdr {
        src: [bytes[0], bytes[1]],
        dst: [bytes[2], bytes[3]],
        len: [bytes[4], bytes[5]],
        check: [bytes[6], bytes[7]],
    };
    let ours: UdpHdr = ptr_at(&bytes, 0).unwrap();
    assert_eq!(ours.src_port(), theirs.src_port());
    assert_eq!(ours.dst_port(), theirs.dst_port());
    assert_eq!(ours.len(), theirs.len());
    assert_eq!(u16::from_be_bytes(ours.check()), theirs.checksum());
}
