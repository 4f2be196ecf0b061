//! Flow records: the per-sampled-packet record family. A record is a
//! `(format code, length)` header followed by `length` bytes of payload;
//! known codes are routed to their payload decoder, unknown ones are
//! skipped whole so that sibling records stay decodable.

use vstd::prelude::*;

use crate::community::Community;
use crate::dst_as_path::DstASPath;
use crate::dst_as_path::DstASPathView;
use crate::error::Error;
use crate::ipaddress::IPAddress;
use crate::types::ByteCursor;
use crate::types::ReadSeeker;
use crate::utils::Decodeable;
use crate::utils::ReadBytesLocal;
use crate::wire::be_u32;
use crate::wire::step_bind;
use crate::wire::step_map;
use crate::wire::Step;

verus! {

/// One flow record, tagged by the format code of its header.
#[derive(Debug, Clone, PartialEq, Eq)]
pub enum FlowRecord {
    SampledHeader(SampledHeader),  // Format 1
    SampledIpv4(SampledIpv4),  // Format 3
    ExtendedSwitch(ExtendedSwitch),  // Format 1001
    ExtendedRouter(ExtendedRouter),  // Format 1002
    ExtendedGateway(ExtendedGateway),  // Format 1003
    ExtendedUrl(ExtendedUrl),  // Format 1005
    ExtendedMpls(ExtendedMpls),  // Format 1006
    ExtendedMplsTunnel(ExtendedMplsTunnel),  // Format 1008
}

/// The model of a [`FlowRecord`], over the payload models.
pub enum FlowRecordView {
    SampledHeader(SampledHeaderView),
    SampledIpv4(SampledIpv4),
    ExtendedSwitch(ExtendedSwitch),
    ExtendedRouter(ExtendedRouter),
    ExtendedGateway(ExtendedGatewayView),
    ExtendedUrl(ExtendedUrlView),
    ExtendedMpls(ExtendedMplsView),
    ExtendedMplsTunnel(ExtendedMplsTunnelView),
}

impl DeepView for FlowRecord {
    type V = FlowRecordView;

    open spec fn deep_view(&self) -> FlowRecordView {
        match self {
            FlowRecord::SampledHeader(x) => FlowRecordView::SampledHeader(x.deep_view()),
            FlowRecord::SampledIpv4(x) => FlowRecordView::SampledIpv4(*x),
            FlowRecord::ExtendedSwitch(x) => FlowRecordView::ExtendedSwitch(*x),
            FlowRecord::ExtendedRouter(x) => FlowRecordView::ExtendedRouter(*x),
            FlowRecord::ExtendedGateway(x) => FlowRecordView::ExtendedGateway(x.deep_view()),
            FlowRecord::ExtendedUrl(x) => FlowRecordView::ExtendedUrl(x.deep_view()),
            FlowRecord::ExtendedMpls(x) => FlowRecordView::ExtendedMpls(x.deep_view()),
            FlowRecord::ExtendedMplsTunnel(x) => FlowRecordView::ExtendedMplsTunnel(
                x.deep_view(),
            ),
        }
    }
}

/// A sampled packet header: the protocol of the sampled header, the original
/// frame length, the count of octets stripped before sampling, and the raw
/// header bytes.
#[derive(Debug, Clone, PartialEq, Eq)]
pub struct SampledHeader {
    /// Format of the sampled header.
    pub protocol: u32,
    /// Original length of the packet before sampling.
    pub frame_length: u32,
    /// Octets removed from the packet before extracting the header octets.
    pub stripped: u32,
    /// The header bytes.
    pub header: Vec<u8>,
}

/// The model of a [`SampledHeader`].
pub struct SampledHeaderView {
    pub protocol: u32,
    pub frame_length: u32,
    pub stripped: u32,
    pub header: Seq<u8>,
}

impl DeepView for SampledHeader {
    type V = SampledHeaderView;

    open spec fn deep_view(&self) -> SampledHeaderView {
        SampledHeaderView {
            protocol: self.protocol,
            frame_length: self.frame_length,
            stripped: self.stripped,
            header: self.header.deep_view(),
        }
    }
}

impl Decodeable for SampledHeader {
    open spec fn sdecode(b: Seq<u8>, p: int) -> Step<SampledHeaderView> {
        if p + 12 <= b.len() {
            step_bind(
                <Vec<u8> as Decodeable>::sdecode(b, p + 12),
                |header: Seq<u8>, p1: int|
                    (Step::Done {
                        v: SampledHeaderView {
                            protocol: be_u32(b, p),
                            frame_length: be_u32(b, p + 4),
                            stripped: be_u32(b, p + 8),
                            header,
                        },
                        next: p1,
                    }),
            )
        } else {
            Step::Fail { err: Error::Truncated }
        }
    }

    open spec fn spec_wire_unit() -> int {
        4
    }

    fn wire_unit() -> (u: usize) {
        4
    }

    fn read_and_decode(stream: &mut ByteCursor) -> (r: Result<SampledHeader, Error>) {
        let protocol = match stream.be_read_u32() {
            Ok(v) => v,
            Err(e) => return Err(e),
        };
        let frame_length = match stream.be_read_u32() {
            Ok(v) => v,
            Err(e) => return Err(e),
        };
        let stripped = match stream.be_read_u32() {
            Ok(v) => v,
            Err(e) => return Err(e),
        };
        let header = match <Vec<u8> as Decodeable>::read_and_decode(stream) {
            Ok(v) => v,
            Err(e) => return Err(e),
        };
        Ok(SampledHeader { protocol, frame_length, stripped, header })
    }
}

/// Header fields of one sampled IPv4 packet.
#[derive(Debug, Clone, Copy, PartialEq, Eq, Structural)]
pub struct SampledIpv4 {
    /// The length of the IP packet excluding lower-layer encapsulations.
    pub length: u32,
    /// IP protocol type (for example, TCP = 6, UDP = 17).
    pub protocol: u32,
    /// Source IP address.
    pub src_ip: IPAddress,
    /// Destination IP address.
    pub dst_ip: IPAddress,
    /// TCP/UDP source port number or equivalent.
    pub src_port: u32,
    /// TCP/UDP destination port number or equivalent.
    pub dst_port: u32,
    /// TCP flags.
    pub tcp_flags: u32,
    /// IP type of service.
    pub tos: u32,
}

impl DeepView for SampledIpv4 {
    type V = SampledIpv4;

    open spec fn deep_view(&self) -> SampledIpv4 {
        *self
    }
}

impl Decodeable for SampledIpv4 {
    open spec fn sdecode(b: Seq<u8>, p: int) -> Step<SampledIpv4> {
        if p + 8 <= b.len() {
            step_bind(
                IPAddress::sdecode(b, p + 8),
                |src_ip: IPAddress, p1: int|
                    step_bind(
                        IPAddress::sdecode(b, p1),
                        |dst_ip: IPAddress, p2: int|
                            {
                                if p2 + 16 <= b.len() {
                                    Step::Done {
                                        v: SampledIpv4 {
                                            length: be_u32(b, p),
                                            protocol: be_u32(b, p + 4),
                                            src_ip,
                                            dst_ip,
                                            src_port: be_u32(b, p2),
                                            dst_port: be_u32(b, p2 + 4),
                                            tcp_flags: be_u32(b, p2 + 8),
                                            tos: be_u32(b, p2 + 12),
                                        },
                                        next: p2 + 16,
                                    }
                                } else {
                                    Step::Fail { err: Error::Truncated }
                                }
                            },
                    ),
            )
        } else {
            Step::Fail { err: Error::Truncated }
        }
    }

    open spec fn spec_wire_unit() -> int {
        4
    }

    fn wire_unit() -> (u: usize) {
        4
    }

    fn read_and_decode(stream: &mut ByteCursor) -> (r: Result<SampledIpv4, Error>) {
        let length = match stream.be_read_u32() {
            Ok(v) => v,
            Err(e) => return Err(e),
        };
        let protocol = match stream.be_read_u32() {
            Ok(v) => v,
            Err(e) => return Err(e),
        };
        let src_ip = match IPAddress::read_and_decode(stream) {
            Ok(v) => v,
            Err(e) => return Err(e),
        };
        let dst_ip = match IPAddress::read_and_decode(stream) {
            Ok(v) => v,
            Err(e) => return Err(e),
        };
        let src_port = match stream.be_read_u32() {
            Ok(v) => v,
            Err(e) => return Err(e),
        };
        let dst_port = match stream.be_read_u32() {
            Ok(v) => v,
            Err(e) => return Err(e),
        };
        let tcp_flags = match stream.be_read_u32() {
            Ok(v) => v,
            Err(e) => return Err(e),
        };
        let tos = match stream.be_read_u32() {
            Ok(v) => v,
            Err(e) => return Err(e),
        };
        Ok(
            SampledIpv4 {
                length,
                protocol,
                src_ip,
                dst_ip,
                src_port,
                dst_port,
                tcp_flags,
                tos,
            },
        )
    }
}

/// The 802.1Q VLAN and 802.1p priority of the incoming and outgoing frame.
#[derive(Debug, Clone, Copy, PartialEq, Eq, Structural)]
pub struct ExtendedSwitch {
    /// The 802.1Q VLAN id of the incoming frame.
    pub src_vlan: u32,
    /// The 802.1p priority of the incoming frame.
    pub src_priority: u32,
    /// The 802.1Q VLAN id of the outgoing frame.
    pub dst_vlan: u32,
    /// The 802.1p priority of the outgoing frame.
    pub dst_priority: u32,
}

impl DeepView for ExtendedSwitch {
    type V = ExtendedSwitch;

    open spec fn deep_view(&self) -> ExtendedSwitch {
        *self
    }
}

impl Decodeable for ExtendedSwitch {
    open spec fn sdecode(b: Seq<u8>, p: int) -> Step<ExtendedSwitch> {
        if p + 16 <= b.len() {
            Step::Done {
                v: ExtendedSwitch {
                    src_vlan: be_u32(b, p),
                    src_priority: be_u32(b, p + 4),
                    dst_vlan: be_u32(b, p + 8),
                    dst_priority: be_u32(b, p + 12),
                },
                next: p + 16,
            }
        } else {
            Step::Fail { err: Error::Truncated }
        }
    }

    open spec fn spec_wire_unit() -> int {
        4
    }

    fn wire_unit() -> (u: usize) {
        4
    }

    fn read_and_decode(stream: &mut ByteCursor) -> (r: Result<ExtendedSwitch, Error>) {
        let src_vlan = match stream.be_read_u32() {
            Ok(v) => v,
            Err(e) => return Err(e),
        };
        let src_priority = match stream.be_read_u32() {
            Ok(v) => v,
            Err(e) => return Err(e),
        };
        let dst_vlan = match stream.be_read_u32() {
            Ok(v) => v,
            Err(e) => return Err(e),
        };
        let dst_priority = match stream.be_read_u32() {
            Ok(v) => v,
            Err(e) => return Err(e),
        };
        Ok(ExtendedSwitch { src_vlan, src_priority, dst_vlan, dst_priority })
    }
}

/// The next-hop router and the route's prefix mask lengths.
#[derive(Debug, Clone, Copy, PartialEq, Eq, Structural)]
pub struct ExtendedRouter {
    /// IP address of the next-hop router.
    pub nexthop: IPAddress,
    /// Source address prefix mask, as a number of bits.
    pub src_mask_len: u32,
    /// Destination address prefix mask, as a number of bits.
    pub dst_mask_len: u32,
}

impl DeepView for ExtendedRouter {
    type V = ExtendedRouter;

    open spec fn deep_view(&self) -> ExtendedRouter {
        *self
    }
}

impl Decodeable for ExtendedRouter {
    open spec fn sdecode(b: Seq<u8>, p: int) -> Step<ExtendedRouter> {
        step_bind(
            IPAddress::sdecode(b, p),
            |nexthop: IPAddress, p1: int|
                {
                    if p1 + 8 <= b.len() {
                        Step::Done {
                            v: ExtendedRouter {
                                nexthop,
                                src_mask_len: be_u32(b, p1),
                                dst_mask_len: be_u32(b, p1 + 4),
                            },
                            next: p1 + 8,
                        }
                    } else {
                        Step::Fail { err: Error::Truncated }
                    }
                },
        )
    }

    open spec fn spec_wire_unit() -> int {
        4
    }

    fn wire_unit() -> (u: usize) {
        4
    }

    fn read_and_decode(stream: &mut ByteCursor) -> (r: Result<ExtendedRouter, Error>) {
        let nexthop = match IPAddress::read_and_decode(stream) {
            Ok(v) => v,
            Err(e) => return Err(e),
        };
        let src_mask_len = match stream.be_read_u32() {
            Ok(v) => v,
            Err(e) => return Err(e),
        };
        let dst_mask_len = match stream.be_read_u32() {
            Ok(v) => v,
            Err(e) => return Err(e),
        };
        Ok(ExtendedRouter { nexthop, src_mask_len, dst_mask_len })
    }
}

/// BGP routing data for the sampled packet's destination.
#[derive(Debug, Clone, PartialEq, Eq)]
pub struct ExtendedGateway {
    /// Address of the border router that should be used for the destination.
    pub next_hop: IPAddress,
    /// Autonomous system number of the router.
    pub asn: u32,
    /// Autonomous system number of the source.
    pub src_as: u32,
    /// Autonomous system number of the source peer.
    pub src_peer_as: u32,
    /// Autonomous system path to the destination.
    pub dst_as_path: Vec<DstASPath>,
    /// Communities associated with this route.
    pub communities: Vec<Community>,
    /// LocalPref associated with this route.
    pub localpref: u32,
}

/// The model of an [`ExtendedGateway`].
pub struct ExtendedGatewayView {
    pub next_hop: IPAddress,
    pub asn: u32,
    pub src_as: u32,
    pub src_peer_as: u32,
    pub dst_as_path: Seq<DstASPathView>,
    pub communities: Seq<Community>,
    pub localpref: u32,
}

impl DeepView for ExtendedGateway {
    type V = ExtendedGatewayView;

    open spec fn deep_view(&self) -> ExtendedGatewayView {
        ExtendedGatewayView {
            next_hop: self.next_hop,
            asn: self.asn,
            src_as: self.src_as,
            src_peer_as: self.src_peer_as,
            dst_as_path: self.dst_as_path.deep_view(),
            communities: self.communities.deep_view(),
            localpref: self.localpref,
        }
    }
}

impl Decodeable for ExtendedGateway {
    open spec fn sdecode(b: Seq<u8>, p: int) -> Step<ExtendedGatewayView> {
        step_bind(
            IPAddress::sdecode(b, p),
            |next_hop: IPAddress, p1: int|
                {
                    if p1 + 12 <= b.len() {
                        step_bind(
                            <Vec<DstASPath> as Decodeable>::sdecode(b, p1 + 12),
                            |dst_as_path: Seq<DstASPathView>, p2: int|
                                step_bind(
                                    <Vec<Community> as Decodeable>::sdecode(b, p2),
                                    |communities: Seq<Community>, p3: int|
                                        {
                                            if p3 + 4 <= b.len() {
                                                Step::Done {
                                                    v: ExtendedGatewayView {
                                                        next_hop,
                                                        asn: be_u32(b, p1),
                                                        src_as: be_u32(b, p1 + 4),
                                                        src_peer_as: be_u32(b, p1 + 8),
                                                        dst_as_path,
                                                        communities,
                                                        localpref: be_u32(b, p3),
                                                    },
                                                    next: p3 + 4,
                                                }
                                            } else {
                                                Step::Fail { err: Error::Truncated }
                                            }
                                        },
                                ),
                        )
                    } else {
                        Step::Fail { err: Error::Truncated }
                    }
                },
        )
    }

    open spec fn spec_wire_unit() -> int {
        4
    }

    fn wire_unit() -> (u: usize) {
        4
    }

    fn read_and_decode(stream: &mut ByteCursor) -> (r: Result<ExtendedGateway, Error>) {
        let next_hop = match IPAddress::read_and_decode(stream) {
            Ok(v) => v,
            Err(e) => return Err(e),
        };
        let asn = match stream.be_read_u32() {
            Ok(v) => v,
            Err(e) => return Err(e),
        };
        let src_as = match stream.be_read_u32() {
            Ok(v) => v,
            Err(e) => return Err(e),
        };
        let src_peer_as = match stream.be_read_u32() {
            Ok(v) => v,
            Err(e) => return Err(e),
        };
        let dst_as_path = match <Vec<DstASPath> as Decodeable>::read_and_decode(stream) {
            Ok(v) => v,
            Err(e) => return Err(e),
        };
        let communities = match <Vec<Community> as Decodeable>::read_and_decode(stream) {
            Ok(v) => v,
            Err(e) => return Err(e),
        };
        let localpref = match stream.be_read_u32() {
            Ok(v) => v,
            Err(e) => return Err(e),
        };
        Ok(
            ExtendedGateway {
                next_hop,
                asn,
                src_as,
                src_peer_as,
                dst_as_path,
                communities,
                localpref,
            },
        )
    }
}

/// The HTTP request line and host of a sampled web request.
#[derive(Debug, Clone, PartialEq, Eq)]
pub struct ExtendedUrl {
    /// Direction of the connection.
    pub directoin: u32,
    /// The HTTP request line.
    pub url: String,
    /// The host field from the HTTP header.
    pub host: String,
}

/// The model of an [`ExtendedUrl`].
pub struct ExtendedUrlView {
    pub directoin: u32,
    pub url: Seq<char>,
    pub host: Seq<char>,
}

impl DeepView for ExtendedUrl {
    type V = ExtendedUrlView;

    open spec fn deep_view(&self) -> ExtendedUrlView {
        ExtendedUrlView {
            directoin: self.directoin,
            url: self.url.deep_view(),
            host: self.host.deep_view(),
        }
    }
}

impl Decodeable for ExtendedUrl {
    open spec fn sdecode(b: Seq<u8>, p: int) -> Step<ExtendedUrlView> {
        if p + 4 <= b.len() {
            step_bind(
                String::sdecode(b, p + 4),
                |url: Seq<char>, p1: int|
                    step_bind(
                        String::sdecode(b, p1),
                        |host: Seq<char>, p2: int|
                            (Step::Done {
                                v: ExtendedUrlView { directoin: be_u32(b, p), url, host },
                                next: p2,
                            }),
                    ),
            )
        } else {
            Step::Fail { err: Error::Truncated }
        }
    }

    open spec fn spec_wire_unit() -> int {
        4
    }

    fn wire_unit() -> (u: usize) {
        4
    }

    fn read_and_decode(stream: &mut ByteCursor) -> (r: Result<ExtendedUrl, Error>) {
        let directoin = match stream.be_read_u32() {
            Ok(v) => v,
            Err(e) => return Err(e),
        };
        let url = match String::read_and_decode(stream) {
            Ok(v) => v,
            Err(e) => return Err(e),
        };
        let host = match String::read_and_decode(stream) {
            Ok(v) => v,
            Err(e) => return Err(e),
        };
        Ok(ExtendedUrl { directoin, url, host })
    }
}

/// The MPLS label stacks of the sampled packet.
#[derive(Debug, Clone, PartialEq, Eq)]
pub struct ExtendedMpls {
    /// Address of the next hop.
    pub nexthop: IPAddress,
    /// Label stack of the received packet.
    pub in_stack: Vec<i32>,
    /// Label stack for the transmitted packet.
    pub out_stack: Vec<i32>,
}

/// The model of an [`ExtendedMpls`].
pub struct ExtendedMplsView {
    pub nexthop: IPAddress,
    pub in_stack: Seq<i32>,
    pub out_stack: Seq<i32>,
}

impl DeepView for ExtendedMpls {
    type V = ExtendedMplsView;

    open spec fn deep_view(&self) -> ExtendedMplsView {
        ExtendedMplsView {
            nexthop: self.nexthop,
            in_stack: self.in_stack.deep_view(),
            out_stack: self.out_stack.deep_view(),
        }
    }
}

impl Decodeable for ExtendedMpls {
    open spec fn sdecode(b: Seq<u8>, p: int) -> Step<ExtendedMplsView> {
        step_bind(
            IPAddress::sdecode(b, p),
            |nexthop: IPAddress, p1: int|
                step_bind(
                    <Vec<i32> as Decodeable>::sdecode(b, p1),
                    |in_stack: Seq<i32>, p2: int|
                        step_bind(
                            <Vec<i32> as Decodeable>::sdecode(b, p2),
                            |out_stack: Seq<i32>, p3: int|
                                (Step::Done {
                                    v: ExtendedMplsView { nexthop, in_stack, out_stack },
                                    next: p3,
                                }),
                        ),
                ),
        )
    }

    open spec fn spec_wire_unit() -> int {
        4
    }

    fn wire_unit() -> (u: usize) {
        4
    }

    fn read_and_decode(stream: &mut ByteCursor) -> (r: Result<ExtendedMpls, Error>) {
        let nexthop = match IPAddress::read_and_decode(stream) {
            Ok(v) => v,
            Err(e) => return Err(e),
        };
        let in_stack = match <Vec<i32> as Decodeable>::read_and_decode(stream) {
            Ok(v) => v,
            Err(e) => return Err(e),
        };
        let out_stack = match <Vec<i32> as Decodeable>::read_and_decode(stream) {
            Ok(v) => v,
            Err(e) => return Err(e),
        };
        Ok(ExtendedMpls { nexthop, in_stack, out_stack })
    }
}

/// The MPLS tunnel the sampled packet traversed.
#[derive(Debug, Clone, PartialEq, Eq)]
pub struct ExtendedMplsTunnel {
    /// Tunnel name.
    pub tunnel_lsp_name: String,
    /// Tunnel ID.
    pub tunnel_id: u32,
    /// Tunnel COS value.
    pub tunnel_cos: u32,
}

/// The model of an [`ExtendedMplsTunnel`].
pub struct ExtendedMplsTunnelView {
    pub tunnel_lsp_name: Seq<char>,
    pub tunnel_id: u32,
    pub tunnel_cos: u32,
}

impl DeepView for ExtendedMplsTunnel {
    type V = ExtendedMplsTunnelView;

    open spec fn deep_view(&self) -> ExtendedMplsTunnelView {
        ExtendedMplsTunnelView {
            tunnel_lsp_name: self.tunnel_lsp_name.deep_view(),
            tunnel_id: self.tunnel_id,
            tunnel_cos: self.tunnel_cos,
        }
    }
}

impl Decodeable for ExtendedMplsTunnel {
    open spec fn sdecode(b: Seq<u8>, p: int) -> Step<ExtendedMplsTunnelView> {
        step_bind(
            String::sdecode(b, p),
            |tunnel_lsp_name: Seq<char>, p1: int|
                {
                    if p1 + 8 <= b.len() {
                        Step::Done {
                            v: ExtendedMplsTunnelView {
                                tunnel_lsp_name,
                                tunnel_id: be_u32(b, p1),
                                tunnel_cos: be_u32(b, p1 + 4),
                            },
                            next: p1 + 8,
                        }
                    } else {
                        Step::Fail { err: Error::Truncated }
                    }
                },
        )
    }

    open spec fn spec_wire_unit() -> int {
        4
    }

    fn wire_unit() -> (u: usize) {
        4
    }

    fn read_and_decode(stream: &mut ByteCursor) -> (r: Result<ExtendedMplsTunnel, Error>) {
        let tunnel_lsp_name = match String::read_and_decode(stream) {
            Ok(v) => v,
            Err(e) => return Err(e),
        };
        let tunnel_id = match stream.be_read_u32() {
            Ok(v) => v,
            Err(e) => return Err(e),
        };
        let tunnel_cos = match stream.be_read_u32() {
            Ok(v) => v,
            Err(e) => return Err(e),
        };
        Ok(ExtendedMplsTunnel { tunnel_lsp_name, tunnel_id, tunnel_cos })
    }
}

/// Route a flow record payload by the format code of its header, which sits
/// just before position `p`. A code outside the table skips the declared
/// `length` bytes and reports the record as unrecognized. A known code's
/// payload decoder is relied on to consume exactly the declared length;
/// no boundary check is enforced after it.
pub open spec fn sdecode_flow_payload(b: Seq<u8>, p: int, format: u32, length: u32) -> Step<
    FlowRecordView,
> {
    if format == 1 {
        step_map(
            SampledHeader::sdecode(b, p),
            |v: SampledHeaderView| FlowRecordView::SampledHeader(v),
        )
    } else if format == 3 {
        step_map(SampledIpv4::sdecode(b, p), |v: SampledIpv4| FlowRecordView::SampledIpv4(v))
    } else if format == 1001 {
        step_map(
            ExtendedSwitch::sdecode(b, p),
            |v: ExtendedSwitch| FlowRecordView::ExtendedSwitch(v),
        )
    } else if format == 1002 {
        step_map(
            ExtendedRouter::sdecode(b, p),
            |v: ExtendedRouter| FlowRecordView::ExtendedRouter(v),
        )
    } else if format == 1003 {
        step_map(
            ExtendedGateway::sdecode(b, p),
            |v: ExtendedGatewayView| FlowRecordView::ExtendedGateway(v),
        )
    } else if format == 1005 {
        step_map(ExtendedUrl::sdecode(b, p), |v: ExtendedUrlView| FlowRecordView::ExtendedUrl(v))
    } else if format == 1006 {
        step_map(
            ExtendedMpls::sdecode(b, p),
            |v: ExtendedMplsView| FlowRecordView::ExtendedMpls(v),
        )
    } else if format == 1008 {
        step_map(
            ExtendedMplsTunnel::sdecode(b, p),
            |v: ExtendedMplsTunnelView| FlowRecordView::ExtendedMplsTunnel(v),
        )
    } else {
        if p + length > usize::MAX as int {
            Step::Fail { err: Error::Truncated }
        } else {
            Step::Skip { format, length, next: p + length }
        }
    }
}

impl Decodeable for FlowRecord {
    open spec fn sdecode(b: Seq<u8>, p: int) -> Step<FlowRecordView> {
        step_bind(
            u32::sdecode(b, p),
            |format: u32, p1: int|
                step_bind(
                    u32::sdecode(b, p1),
                    |length: u32, p2: int| sdecode_flow_payload(b, p2, format, length),
                ),
        )
    }

    open spec fn spec_wire_unit() -> int {
        4
    }

    fn wire_unit() -> (u: usize) {
        4
    }

    fn read_and_decode(stream: &mut ByteCursor) -> (r: Result<FlowRecord, Error>) {
        let format = match stream.be_read_u32() {
            Ok(v) => v,
            Err(e) => return Err(e),
        };
        let length = match stream.be_read_u32() {
            Ok(v) => v,
            Err(e) => return Err(e),
        };
        match format {
            1 => match SampledHeader::read_and_decode(stream) {
                Ok(e) => Ok(FlowRecord::SampledHeader(e)),
                Err(e) => Err(e),
            },
            3 => match SampledIpv4::read_and_decode(stream) {
                Ok(e) => Ok(FlowRecord::SampledIpv4(e)),
                Err(e) => Err(e),
            },
            1001 => match ExtendedSwitch::read_and_decode(stream) {
                Ok(e) => Ok(FlowRecord::ExtendedSwitch(e)),
                Err(e) => Err(e),
            },
            1002 => match ExtendedRouter::read_and_decode(stream) {
                Ok(e) => Ok(FlowRecord::ExtendedRouter(e)),
                Err(e) => Err(e),
            },
            1003 => match ExtendedGateway::read_and_decode(stream) {
                Ok(e) => Ok(FlowRecord::ExtendedGateway(e)),
                Err(e) => Err(e),
            },
            1005 => match ExtendedUrl::read_and_decode(stream) {
                Ok(e) => Ok(FlowRecord::ExtendedUrl(e)),
                Err(e) => Err(e),
            },
            1006 => match ExtendedMpls::read_and_decode(stream) {
                Ok(e) => Ok(FlowRecord::ExtendedMpls(e)),
                Err(e) => Err(e),
            },
            1008 => match ExtendedMplsTunnel::read_and_decode(stream) {
                Ok(e) => Ok(FlowRecord::ExtendedMplsTunnel(e)),
                Err(e) => Err(e),
            },
            _ => match stream.skip(length as usize) {
                Ok(_) => Err(Error::UnknownType { format, length }),
                Err(e) => Err(e),
            },
        }
    }
}

} // verus!
