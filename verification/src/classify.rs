//! The staged classifier: link layer, then network layer, then transport.
//!
//! Each stage overlays one header and reads the discriminant that says how
//! the next bytes are to be read, so the order is fixed. A header that does
//! not fit the frame ends the walk with an error; a protocol outside the
//! supported set ends it as unsupported. Neither is a fault of the filter:
//! such a packet simply gets no verdict.

use crate::bounds::{window, OutOfBounds};
use crate::wire::{
    be16, EthHdr, IcmpHdr, Ipv4Hdr, Layout, TcpHdr, UdpHdr, ETHER_TYPE_IPV4, ETH_LEN, IPV4_LEN,
    PROTO_ICMP, PROTO_TCP, PROTO_UDP,
};
use vstd::prelude::*;

verus! {

/// Offset of the network header in a frame.
pub const NETWORK_OFFSET: usize = 14;

/// Offset of the transport header in a frame.
pub const TRANSPORT_OFFSET: usize = 34;

/// The states of the classifier.
#[derive(Clone, Copy, Debug, PartialEq, Eq, Structural)]
pub enum State {
    Unstarted,
    LinkParsed,
    NetworkParsed,
    TransportParsed,
    Unsupported,
    Error,
}

/// The header of a supported transport or control protocol.
#[derive(Clone, Copy, Debug)]
pub enum Transport<'a> {
    Icmp(IcmpHdr<'a>),
    Tcp(TcpHdr<'a>),
    Udp(UdpHdr<'a>),
}

/// A state of the classifier together with the headers overlaid so far.
#[derive(Clone, Copy, Debug)]
pub enum Classification<'a> {
    /// Nothing was read yet.
    Unstarted,
    /// The link-layer header is overlaid.
    LinkParsed { eth: EthHdr<'a> },
    /// The link layer announced IPv4 and the IPv4 header is overlaid.
    NetworkParsed { eth: EthHdr<'a>, ip: Ipv4Hdr<'a> },
    /// The IPv4 header announced a supported protocol and its header is
    /// overlaid.
    TransportParsed { eth: EthHdr<'a>, ip: Ipv4Hdr<'a>, l4: Transport<'a> },
    /// Nothing further to classify. The network header is absent when the
    /// link layer announced something other than IPv4, and present when the
    /// IPv4 header announced a protocol outside the supported set.
    Unsupported { eth: EthHdr<'a>, network: Option<Ipv4Hdr<'a>> },
    /// A header did not fit the frame.
    Error { reason: OutOfBounds },
}

/// Size of the header that IPv4 protocol number `proto` announces, where the
/// protocol is a supported one.
pub open spec fn transport_size(proto: u8) -> Option<nat> {
    if proto == PROTO_ICMP {
        Some(8)
    } else if proto == PROTO_TCP {
        Some(20)
    } else if proto == PROTO_UDP {
        Some(8)
    } else {
        None
    }
}

/// The state in which the walk over `frame` ends.
pub open spec fn outcome(frame: Seq<u8>) -> State {
    if frame.len() < 14 {
        State::Error
    } else if be16(frame[12], frame[13]) != ETHER_TYPE_IPV4 {
        State::Unsupported
    } else if frame.len() < 34 {
        State::Error
    } else {
        match transport_size(frame[23]) {
            None => State::Unsupported,
            Some(n) => if frame.len() < 34 + n {
                State::Error
            } else {
                State::TransportParsed
            },
        }
    }
}

impl<'a> Transport<'a> {
    /// The IPv4 protocol number of the header.
    pub open spec fn spec_proto(&self) -> u8 {
        match self {
            Transport::Icmp(_) => PROTO_ICMP,
            Transport::Tcp(_) => PROTO_TCP,
            Transport::Udp(_) => PROTO_UDP,
        }
    }

    /// The bytes under the header.
    pub open spec fn bytes(&self) -> Seq<u8> {
        match self {
            Transport::Icmp(h) => h.bytes(),
            Transport::Tcp(h) => h.bytes(),
            Transport::Udp(h) => h.bytes(),
        }
    }

    /// Number of bytes under the header.
    pub open spec fn size(&self) -> nat {
        match self {
            Transport::Icmp(_) => 8,
            Transport::Tcp(_) => 20,
            Transport::Udp(_) => 8,
        }
    }

    /// The IPv4 protocol number of the header.
    #[verifier::when_used_as_spec(spec_proto)]
    pub fn proto(&self) -> (p: u8)
        ensures
            p == self.spec_proto(),
    {
        match self {
            Transport::Icmp(_) => PROTO_ICMP,
            Transport::Tcp(_) => PROTO_TCP,
            Transport::Udp(_) => PROTO_UDP,
        }
    }
}

impl<'a> Classification<'a> {
    /// The state of the classifier.
    pub open spec fn spec_state(&self) -> State {
        match self {
            Classification::Unstarted => State::Unstarted,
            Classification::LinkParsed { .. } => State::LinkParsed,
            Classification::NetworkParsed { .. } => State::NetworkParsed,
            Classification::TransportParsed { .. } => State::TransportParsed,
            Classification::Unsupported { .. } => State::Unsupported,
            Classification::Error { .. } => State::Error,
        }
    }

    /// Whether the walk is over.
    pub open spec fn spec_is_terminal(&self) -> bool {
        self is TransportParsed || self is Unsupported || self is Error
    }

    /// Whether the headers are the ones of `frame`, each at its place, and the
    /// state is the one their discriminants lead to.
    pub open spec fn over(&self, frame: Seq<u8>) -> bool {
        match self {
            Classification::Unstarted => true,
            Classification::LinkParsed { eth } => eth.bytes() == window(frame, 0, 14),
            Classification::NetworkParsed { eth, ip } => {
                &&& eth.bytes() == window(frame, 0, 14)
                &&& ip.bytes() == window(frame, NETWORK_OFFSET, 20)
                &&& eth.spec_ether_type() == ETHER_TYPE_IPV4
            },
            Classification::TransportParsed { eth, ip, l4 } => {
                &&& eth.bytes() == window(frame, 0, 14)
                &&& ip.bytes() == window(frame, NETWORK_OFFSET, 20)
                &&& l4.bytes() == window(frame, TRANSPORT_OFFSET, l4.size())
                &&& eth.spec_ether_type() == ETHER_TYPE_IPV4
                &&& ip.spec_proto() == l4.spec_proto()
            },
            Classification::Unsupported { eth, network } => {
                &&& eth.bytes() == window(frame, 0, 14)
                &&& match network {
                    None => eth.spec_ether_type() != ETHER_TYPE_IPV4,
                    Some(ip) => {
                        &&& eth.spec_ether_type() == ETHER_TYPE_IPV4
                        &&& ip.bytes() == window(frame, NETWORK_OFFSET, 20)
                        &&& transport_size(ip.spec_proto()) is None
                    },
                }
            },
            Classification::Error { .. } => true,
        }
    }

    /// The state of the classifier.
    #[verifier::when_used_as_spec(spec_state)]
    pub fn state(&self) -> (s: State)
        ensures
            s == self.spec_state(),
    {
        match self {
            Classification::Unstarted => State::Unstarted,
            Classification::LinkParsed { .. } => State::LinkParsed,
            Classification::NetworkParsed { .. } => State::NetworkParsed,
            Classification::TransportParsed { .. } => State::TransportParsed,
            Classification::Unsupported { .. } => State::Unsupported,
            Classification::Error { .. } => State::Error,
        }
    }

    /// Whether the walk is over.
    #[verifier::when_used_as_spec(spec_is_terminal)]
    pub fn is_terminal(&self) -> (t: bool)
        ensures
            t == self.spec_is_terminal(),
    {
        match self {
            Classification::TransportParsed { .. } => true,
            Classification::Unsupported { .. } => true,
            Classification::Error { .. } => true,
            _ => false,
        }
    }
}

/// The state that follows `at` on `frame`.
///
/// The link header is asked for first. Its type decides alone whether the
/// network header is asked for at all, and the protocol of the network header
/// decides alone which transport header is asked for. A terminal state is
/// left as it is.
pub open spec fn next_state(frame: Seq<u8>, at: Classification) -> State {
    match at {
        Classification::Unstarted => if 14 <= frame.len() {
            State::LinkParsed
        } else {
            State::Error
        },
        Classification::LinkParsed { eth } => if eth.spec_ether_type() != ETHER_TYPE_IPV4 {
            State::Unsupported
        } else if 34 <= frame.len() {
            State::NetworkParsed
        } else {
            State::Error
        },
        Classification::NetworkParsed { eth, ip } => match transport_size(ip.spec_proto()) {
            None => State::Unsupported,
            Some(n) => if 34 + n <= frame.len() {
                State::TransportParsed
            } else {
                State::Error
            },
        },
        _ => at.spec_state(),
    }
}

/// Whether `next` holds what one transition from `at` on `frame` leaves: the
/// headers of `at` as they were, and beside them the one header of `frame`
/// that the transition overlaid.
pub open spec fn hands_on(frame: Seq<u8>, at: Classification, next: Classification) -> bool {
    match at {
        Classification::Unstarted => next matches Classification::LinkParsed { eth }
            ==> eth.bytes() == window(frame, 0, 14),
        Classification::LinkParsed { eth } => match next {
            Classification::NetworkParsed { eth: e, ip } => {
                &&& e == eth
                &&& ip.bytes() == window(frame, NETWORK_OFFSET, 20)
            },
            Classification::Unsupported { eth: e, network } => e == eth && network is None,
            _ => true,
        },
        Classification::NetworkParsed { eth, ip } => match next {
            Classification::TransportParsed { eth: e, ip: i, l4 } => {
                &&& e == eth
                &&& i == ip
                &&& l4.spec_proto() == ip.spec_proto()
                &&& l4.bytes() == window(frame, TRANSPORT_OFFSET, l4.size())
            },
            Classification::Unsupported { eth: e, network } => e == eth && network == Some(ip),
            _ => true,
        },
        _ => next == at,
    }
}

/// Makes one transition of the classifier on `frame`.
///
/// The state that follows is [`next_state`]; the headers overlaid so far are
/// handed on, and a new state brings the header it stands for.
pub fn step<'a>(frame: &'a [u8], at: Classification<'a>) -> (next: Classification<'a>)
    ensures
        next.spec_state() == next_state(frame@, at),
        hands_on(frame@, at, next),
        at.over(frame@) ==> next.over(frame@),
{
    match at {
        Classification::Unstarted => match EthHdr::at(frame, 0) {
            Ok(eth) => Classification::LinkParsed { eth },
            Err(reason) => Classification::Error { reason },
        },
        Classification::LinkParsed { eth } => {
            if eth.ether_type() != ETHER_TYPE_IPV4 {
                Classification::Unsupported { eth, network: None }
            } else {
                match Ipv4Hdr::at(frame, ETH_LEN) {
                    Ok(ip) => Classification::NetworkParsed { eth, ip },
                    Err(reason) => Classification::Error { reason },
                }
            }
        },
        Classification::NetworkParsed { eth, ip } => {
            let proto: u8 = ip.proto();
            if proto == PROTO_ICMP {
                match IcmpHdr::at(frame, ETH_LEN + IPV4_LEN) {
                    Ok(h) => Classification::TransportParsed { eth, ip, l4: Transport::Icmp(h) },
                    Err(reason) => Classification::Error { reason },
                }
            } else if proto == PROTO_TCP {
                match TcpHdr::at(frame, ETH_LEN + IPV4_LEN) {
                    Ok(h) => Classification::TransportParsed { eth, ip, l4: Transport::Tcp(h) },
                    Err(reason) => Classification::Error { reason },
                }
            } else if proto == PROTO_UDP {
                match UdpHdr::at(frame, ETH_LEN + IPV4_LEN) {
                    Ok(h) => Classification::TransportParsed { eth, ip, l4: Transport::Udp(h) },
                    Err(reason) => Classification::Error { reason },
                }
            } else {
                Classification::Unsupported { eth, network: Some(ip) }
            }
        },
        done => done,
    }
}

/// Walks `frame` from the link layer down until a terminal state is reached.
pub fn classify<'a>(frame: &'a [u8]) -> (result: Classification<'a>)
    ensures
        result.spec_is_terminal(),
        result.spec_state() == outcome(frame@),
        result.over(frame@),
{
    let link = step(frame, Classification::Unstarted);
    let network = step(frame, link);
    step(frame, network)
}

/// A frame whose link layer announces something other than IPv4 ends as
/// unsupported whether or not a network header would fit: the bound of the
/// network header is never consulted.
pub proof fn lemma_link_type_decides_first(frame: Seq<u8>)
    requires
        14 <= frame.len(),
        be16(frame[12], frame[13]) != ETHER_TYPE_IPV4,
    ensures
        outcome(frame) == State::Unsupported,
{
}

/// From the link state, a type other than IPv4 leads to unsupported on every
/// frame, the empty one too: the transition does not ask how long the frame
/// is.
pub proof fn lemma_link_transition_asks_no_bound(at: Classification, frame: Seq<u8>)
    requires
        at matches Classification::LinkParsed { eth } && eth.spec_ether_type() != ETHER_TYPE_IPV4,
    ensures
        next_state(frame, at) == State::Unsupported,
{
}

/// A transition into unsupported starts from the link state when the type is
/// not IPv4, and from the network state otherwise: with IPv4 announced, the
/// network header is overlaid before the protocol can be found wanting.
pub proof fn lemma_unsupported_comes_from(at: Classification, frame: Seq<u8>)
    requires
        !at.spec_is_terminal(),
        next_state(frame, at) == State::Unsupported,
    ensures
        at matches Classification::LinkParsed { eth } ==> eth.spec_ether_type() != ETHER_TYPE_IPV4,
        at matches Classification::NetworkParsed { ip, .. } ==> transport_size(ip.spec_proto())
            is None,
        at is LinkParsed || at is NetworkParsed,
{
}

/// A frame whose link layer announces IPv4 ends as unsupported only once its
/// network header was found to lie inside the frame, and only on a protocol
/// outside the supported set.
pub proof fn lemma_protocol_decides_after_network_bound(frame: Seq<u8>)
    requires
        14 <= frame.len(),
        be16(frame[12], frame[13]) == ETHER_TYPE_IPV4,
        outcome(frame) == State::Unsupported,
    ensures
        34 <= frame.len(),
        transport_size(frame[23]) is None,
{
}

} // verus!
