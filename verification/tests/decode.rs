//! Tests of the decoders on concrete wire buffers.

use sflow::{
    ByteCursor, Community, CounterRecord, Datagram, Decodeable, Error, FlowRecord, IPAddress,
    ReadSeeker, SampleRecord,
};

fn from_hex(s: &str) -> Vec<u8> {
    fn nibble(c: u8) -> u8 {
        match c {
            b'0'..=b'9' => c - b'0',
            b'a'..=b'f' => c - b'a' + 10,
            b'A'..=b'F' => c - b'A' + 10,
            _ => panic!("not a hex digit"),
        }
    }
    let bytes = s.as_bytes();
    assert!(bytes.len() % 2 == 0);
    let mut out = Vec::new();
    let mut i = 0;
    while i < bytes.len() {
        out.push(nibble(bytes[i]) * 16 + nibble(bytes[i + 1]));
        i += 2;
    }
    out
}

fn push_u32(buf: &mut Vec<u8>, x: u32) {
    buf.extend_from_slice(&x.to_be_bytes());
}

/// One counter sample (format 2) with the given sequence number and no
/// counter records: the smallest decodable sample record.
fn push_empty_counter_sample(buf: &mut Vec<u8>, sequence_number: u32) {
    push_u32(buf, 2); // sample format: counter sample
    push_u32(buf, 12); // declared payload length
    push_u32(buf, sequence_number);
    push_u32(buf, 42); // source_id
    push_u32(buf, 0); // no counter records
}

/// A datagram carrying six empty counter samples.
fn six_sample_datagram() -> Vec<u8> {
    let mut buf = Vec::new();
    push_u32(&mut buf, 5); // sflow_version
    push_u32(&mut buf, 1); // agent address: IPv4
    buf.extend_from_slice(&[10, 0, 0, 1]);
    push_u32(&mut buf, 7); // sub_agent_id
    push_u32(&mut buf, 1000); // sequence_number
    push_u32(&mut buf, 123456); // uptime
    push_u32(&mut buf, 6); // six sample records
    for seq in 0..6u32 {
        push_empty_counter_sample(&mut buf, seq);
    }
    buf
}

#[test]
fn test_decode_datagram() {
    let mut data = ByteCursor::new(six_sample_datagram());

    let d: Datagram = Decodeable::read_and_decode(&mut data).unwrap();
    assert_eq!(d.sample_record.len(), 6);
}

#[test]
fn test_decode_string() {
    struct TestDecodeStringCase {
        raw_test_data: &'static str,
        result: &'static str,
    }

    let test_cases: Vec<TestDecodeStringCase> = vec![TestDecodeStringCase {
        raw_test_data: "00000006666f6f626172",
        result: "foobar",
    }];

    for case in test_cases {
        let mut data = ByteCursor::new(from_hex(case.raw_test_data));
        let res: String = Decodeable::read_and_decode(&mut data).unwrap();

        assert_eq!(case.result, res);
    }
}

#[test]
fn decode_same_buffer_twice_is_equal() {
    let bytes = six_sample_datagram();
    let mut c1 = ByteCursor::new(bytes.clone());
    let mut c2 = ByteCursor::new(bytes);
    let d1: Datagram = Decodeable::read_and_decode(&mut c1).unwrap();
    let d2: Datagram = Decodeable::read_and_decode(&mut c2).unwrap();
    assert_eq!(d1, d2);
    assert_eq!(c1.position(), c2.position());
}

#[test]
fn decode_u32_big_endian() {
    let mut data = ByteCursor::new(from_hex("0000002a"));
    let v: u32 = Decodeable::read_and_decode(&mut data).unwrap();
    assert_eq!(v, 42);
    assert_eq!(data.position(), 4);
}

#[test]
fn decode_string_with_padding_skips_it() {
    // "foobar" followed by its two padding bytes: the cursor ends past them.
    let mut data = ByteCursor::new(from_hex("00000006666f6f6261720000"));
    let res: String = Decodeable::read_and_decode(&mut data).unwrap();
    assert_eq!(res, "foobar");
    assert_eq!(data.position(), 12);
    assert_eq!(data.remaining(), 0);
}

#[test]
fn decode_empty_sequence_advances_four_bytes() {
    let mut data = ByteCursor::new(from_hex("00000000ffffffff"));
    let v: Vec<u32> = Decodeable::read_and_decode(&mut data).unwrap();
    assert!(v.is_empty());
    assert_eq!(data.position(), 4);
}

#[test]
fn decode_empty_flow_record_sequence() {
    let mut data = ByteCursor::new(from_hex("00000000"));
    let v: Vec<FlowRecord> = Decodeable::read_and_decode(&mut data).unwrap();
    assert!(v.is_empty());
    assert_eq!(data.position(), 4);
}

#[test]
fn unknown_flow_record_is_skipped_whole() {
    let mut buf = Vec::new();
    push_u32(&mut buf, 9999); // format code in no table
    push_u32(&mut buf, 16); // declared payload length
    buf.extend_from_slice(&[0xabu8; 16]);
    push_u32(&mut buf, 7); // a trailing word the skip must not touch
    let mut data = ByteCursor::new(buf);
    let r: Result<FlowRecord, Error> = Decodeable::read_and_decode(&mut data);
    assert_eq!(
        r,
        Err(Error::UnknownType {
            format: 9999,
            length: 16
        })
    );
    assert_eq!(data.position(), 8 + 16);
}

#[test]
fn known_flow_record_sampled_ipv4_field_for_field() {
    let mut buf = Vec::new();
    push_u32(&mut buf, 3); // format code: sampled IPv4
    push_u32(&mut buf, 32); // declared payload length
    push_u32(&mut buf, 1500); // length
    push_u32(&mut buf, 6); // protocol: TCP
    push_u32(&mut buf, 1); // src_ip: IPv4
    buf.extend_from_slice(&[192, 168, 1, 1]);
    push_u32(&mut buf, 1); // dst_ip: IPv4
    buf.extend_from_slice(&[10, 0, 0, 2]);
    push_u32(&mut buf, 443); // src_port
    push_u32(&mut buf, 55555); // dst_port
    push_u32(&mut buf, 0x12); // tcp_flags
    push_u32(&mut buf, 0); // tos
    let mut data = ByteCursor::new(buf);
    let r: FlowRecord = Decodeable::read_and_decode(&mut data).unwrap();
    match r {
        FlowRecord::SampledIpv4(s) => {
            assert_eq!(s.length, 1500);
            assert_eq!(s.protocol, 6);
            assert_eq!(s.src_ip, IPAddress::IPv4(192, 168, 1, 1));
            assert_eq!(s.dst_ip, IPAddress::IPv4(10, 0, 0, 2));
            assert_eq!(s.src_port, 443);
            assert_eq!(s.dst_port, 55555);
            assert_eq!(s.tcp_flags, 0x12);
            assert_eq!(s.tos, 0);
        }
        other => panic!("expected a sampled IPv4 record, got {:?}", other),
    }
}

#[test]
fn unknown_counter_record_is_skipped_whole() {
    let mut buf = Vec::new();
    push_u32(&mut buf, 77); // format code in no table
    push_u32(&mut buf, 8); // declared payload length
    buf.extend_from_slice(&[0u8; 8]);
    let mut data = ByteCursor::new(buf);
    let r: Result<CounterRecord, Error> = Decodeable::read_and_decode(&mut data);
    assert_eq!(
        r,
        Err(Error::UnknownType {
            format: 77,
            length: 8
        })
    );
    assert_eq!(data.position(), 8 + 8);
}

#[test]
fn decode_ipv4_address() {
    let mut data = ByteCursor::new(from_hex("00000001c0a80101"));
    let ip: IPAddress = Decodeable::read_and_decode(&mut data).unwrap();
    assert_eq!(ip, IPAddress::IPv4(192, 168, 1, 1));
}

#[test]
fn decode_ipv6_address_all_zero() {
    let mut buf = from_hex("00000002");
    buf.extend_from_slice(&[0u8; 16]);
    let mut data = ByteCursor::new(buf);
    let ip: IPAddress = Decodeable::read_and_decode(&mut data).unwrap();
    assert_eq!(ip, IPAddress::IPv6(0, 0, 0, 0, 0, 0, 0, 0));
}

#[test]
fn unknown_ip_version_is_an_error() {
    let mut data = ByteCursor::new(from_hex("00000003c0a80101"));
    let r: Result<IPAddress, Error> = Decodeable::read_and_decode(&mut data);
    assert_eq!(r, Err(Error::UnknownIpVersion(3)));
}

#[test]
fn decode_community_and_display() {
    let mut data = ByteCursor::new(from_hex("00010002"));
    let c: Community = Decodeable::read_and_decode(&mut data).unwrap();
    assert_eq!(c.asn, 1);
    assert_eq!(c.tag, 2);
    assert_eq!(c.display_string(), "1:2");
}

#[test]
fn display_community_wide_values() {
    let c = Community {
        asn: 4294967295,
        tag: 65535,
    };
    assert_eq!(c.display_string(), "4294967295:65535");
    let zero = Community { asn: 0, tag: 0 };
    assert_eq!(zero.display_string(), "0:0");
}

#[test]
fn truncated_primitive_is_an_error() {
    let mut data = ByteCursor::new(from_hex("0000"));
    let r: Result<u32, Error> = Decodeable::read_and_decode(&mut data);
    assert_eq!(r, Err(Error::Truncated));
    assert_eq!(data.position(), 0);
}

#[test]
fn invalid_utf8_string_is_an_error() {
    let mut data = ByteCursor::new(from_hex("00000002ffff"));
    let r: Result<String, Error> = Decodeable::read_and_decode(&mut data);
    assert_eq!(r, Err(Error::Utf8));
}

#[test]
fn sequence_drops_unknown_records_and_keeps_known_ones() {
    let mut buf = Vec::new();
    push_u32(&mut buf, 2); // two flow records
    push_u32(&mut buf, 4242); // unknown format code
    push_u32(&mut buf, 4); // its declared length
    push_u32(&mut buf, 0xdeadbeef); // its skipped payload
    push_u32(&mut buf, 1001); // known format code: extended switch
    push_u32(&mut buf, 16);
    push_u32(&mut buf, 100); // src_vlan
    push_u32(&mut buf, 7); // src_priority
    push_u32(&mut buf, 200); // dst_vlan
    push_u32(&mut buf, 3); // dst_priority
    let mut data = ByteCursor::new(buf);
    let v: Vec<FlowRecord> = Decodeable::read_and_decode(&mut data).unwrap();
    assert_eq!(v.len(), 1);
    match &v[0] {
        FlowRecord::ExtendedSwitch(s) => {
            assert_eq!(s.src_vlan, 100);
            assert_eq!(s.src_priority, 7);
            assert_eq!(s.dst_vlan, 200);
            assert_eq!(s.dst_priority, 3);
        }
        other => panic!("expected an extended switch record, got {:?}", other),
    }
}

#[test]
fn fatal_element_error_aborts_the_sequence() {
    let mut buf = Vec::new();
    push_u32(&mut buf, 1); // one flow record announced
    push_u32(&mut buf, 1001); // known format code
    // header cut short: no length word, no payload
    let mut data = ByteCursor::new(buf);
    let r: Result<Vec<FlowRecord>, Error> = Decodeable::read_and_decode(&mut data);
    assert_eq!(r, Err(Error::Truncated));
}

#[test]
fn decode_interface_counters_with_wide_fields() {
    let mut buf = Vec::new();
    push_u32(&mut buf, 1); // counter record format: interface counters
    push_u32(&mut buf, 88);
    push_u32(&mut buf, 2); // if_index
    push_u32(&mut buf, 6); // if_type
    buf.extend_from_slice(&10_000_000_000u64.to_be_bytes()); // if_speed
    push_u32(&mut buf, 1); // if_direction
    push_u32(&mut buf, 3); // if_status
    buf.extend_from_slice(&123_456_789_012u64.to_be_bytes()); // if_in_octets
    for k in 0..6u32 {
        push_u32(&mut buf, k); // if_in_* counters
    }
    buf.extend_from_slice(&987_654_321_098u64.to_be_bytes()); // if_out_octets
    for k in 0..6u32 {
        push_u32(&mut buf, 100 + k); // if_out_* counters and promiscuous mode
    }
    let mut data = ByteCursor::new(buf);
    let r: CounterRecord = Decodeable::read_and_decode(&mut data).unwrap();
    match r {
        CounterRecord::InterfaceCounters(c) => {
            assert_eq!(c.if_index, 2);
            assert_eq!(c.if_speed, 10_000_000_000);
            assert_eq!(c.if_in_octets, 123_456_789_012);
            assert_eq!(c.if_in_ucast_pkts, 0);
            assert_eq!(c.if_out_octets, 987_654_321_098);
            assert_eq!(c.if_promiscuous_mode, 105);
        }
        other => panic!("expected interface counters, got {:?}", other),
    }
    assert_eq!(data.position(), 8 + 88);
}

#[test]
fn decode_sampled_header_with_padded_bytes() {
    let mut buf = Vec::new();
    push_u32(&mut buf, 1); // flow record format: sampled header
    push_u32(&mut buf, 24);
    push_u32(&mut buf, 1); // protocol
    push_u32(&mut buf, 64); // frame_length
    push_u32(&mut buf, 4); // stripped
    push_u32(&mut buf, 6); // six header bytes
    buf.extend_from_slice(&[1, 2, 3, 4, 5, 6]);
    buf.extend_from_slice(&[0, 0]); // padding to a 4-byte boundary
    push_u32(&mut buf, 9); // a trailing word past the padding
    let mut data = ByteCursor::new(buf);
    let r: FlowRecord = Decodeable::read_and_decode(&mut data).unwrap();
    match r {
        FlowRecord::SampledHeader(h) => {
            assert_eq!(h.protocol, 1);
            assert_eq!(h.frame_length, 64);
            assert_eq!(h.stripped, 4);
            assert_eq!(h.header, vec![1, 2, 3, 4, 5, 6]);
        }
        other => panic!("expected a sampled header record, got {:?}", other),
    }
    assert_eq!(data.position(), 8 + 12 + 4 + 6 + 2);
}

fn push_u16(buf: &mut Vec<u8>, x: u16) {
    buf.extend_from_slice(&x.to_be_bytes());
}

#[test]
fn decode_extended_gateway_with_paths_and_communities() {
    let mut buf = Vec::new();
    push_u32(&mut buf, 1003); // flow record format: extended gateway
    push_u32(&mut buf, 56);
    push_u32(&mut buf, 1); // next_hop: IPv4
    buf.extend_from_slice(&[172, 16, 0, 1]);
    push_u32(&mut buf, 65000); // asn
    push_u32(&mut buf, 64512); // src_as
    push_u32(&mut buf, 64999); // src_peer_as
    push_u32(&mut buf, 1); // one AS-path segment
    push_u32(&mut buf, 2); // its segment type
    push_u32(&mut buf, 2); // two AS numbers
    push_u32(&mut buf, 64512);
    push_u32(&mut buf, 65000);
    push_u32(&mut buf, 2); // two communities
    push_u16(&mut buf, 1);
    push_u16(&mut buf, 2);
    push_u16(&mut buf, 3);
    push_u16(&mut buf, 4);
    push_u32(&mut buf, 100); // localpref
    let mut data = ByteCursor::new(buf);
    let r: FlowRecord = Decodeable::read_and_decode(&mut data).unwrap();
    match r {
        FlowRecord::ExtendedGateway(g) => {
            assert_eq!(g.next_hop, IPAddress::IPv4(172, 16, 0, 1));
            assert_eq!(g.asn, 65000);
            assert_eq!(g.src_as, 64512);
            assert_eq!(g.src_peer_as, 64999);
            assert_eq!(g.dst_as_path.len(), 1);
            assert_eq!(g.dst_as_path[0].path_segment_type, 2);
            assert_eq!(g.dst_as_path[0].path, vec![64512, 65000]);
            assert_eq!(g.communities.len(), 2);
            assert_eq!(g.communities[0], Community { asn: 1, tag: 2 });
            assert_eq!(g.communities[1], Community { asn: 3, tag: 4 });
            assert_eq!(g.localpref, 100);
        }
        other => panic!("expected an extended gateway record, got {:?}", other),
    }
    assert_eq!(data.position(), 8 + 56);
}

#[test]
fn decode_extended_url_with_two_strings() {
    let mut buf = Vec::new();
    push_u32(&mut buf, 1005); // flow record format: extended URL
    push_u32(&mut buf, 32);
    push_u32(&mut buf, 1); // direction
    push_u32(&mut buf, 5); // request line of five bytes
    buf.extend_from_slice(b"GET /");
    buf.extend_from_slice(&[0, 0, 0]); // padding
    push_u32(&mut buf, 11); // host of eleven bytes
    buf.extend_from_slice(b"example.com");
    buf.extend_from_slice(&[0]); // padding
    let mut data = ByteCursor::new(buf);
    let r: FlowRecord = Decodeable::read_and_decode(&mut data).unwrap();
    match r {
        FlowRecord::ExtendedUrl(u) => {
            assert_eq!(u.directoin, 1);
            assert_eq!(u.url, "GET /");
            assert_eq!(u.host, "example.com");
        }
        other => panic!("expected an extended URL record, got {:?}", other),
    }
    assert_eq!(data.position(), 8 + 32);
}

#[test]
fn flow_sample_carries_its_flow_records() {
    let mut buf = Vec::new();
    push_u32(&mut buf, 1); // sample format: flow sample
    push_u32(&mut buf, 56);
    push_u32(&mut buf, 9); // sequence_number
    push_u32(&mut buf, 4); // source_id
    push_u32(&mut buf, 1024); // sampling_rate
    push_u32(&mut buf, 2048); // sample_pool
    push_u32(&mut buf, 0); // drops
    push_u32(&mut buf, 1); // input interface
    push_u32(&mut buf, 2); // output interface
    push_u32(&mut buf, 1); // one flow record
    push_u32(&mut buf, 1001); // extended switch
    push_u32(&mut buf, 16);
    push_u32(&mut buf, 10);
    push_u32(&mut buf, 1);
    push_u32(&mut buf, 20);
    push_u32(&mut buf, 2);
    let mut data = ByteCursor::new(buf);
    let r: SampleRecord = Decodeable::read_and_decode(&mut data).unwrap();
    match r {
        SampleRecord::FlowSample(fs) => {
            assert_eq!(fs.sequence_number, 9);
            assert_eq!(fs.sampling_rate, 1024);
            assert_eq!(fs.input, 1);
            assert_eq!(fs.output, 2);
            assert_eq!(fs.flow_records.len(), 1);
            assert!(matches!(
                fs.flow_records[0],
                FlowRecord::ExtendedSwitch(_)
            ));
        }
        other => panic!("expected a flow sample, got {:?}", other),
    }
}

#[test]
fn datagram_drops_unknown_sample_records() {
    let mut buf = Vec::new();
    push_u32(&mut buf, 5); // sflow_version
    push_u32(&mut buf, 1); // agent address: IPv4
    buf.extend_from_slice(&[10, 0, 0, 1]);
    push_u32(&mut buf, 0); // sub_agent_id
    push_u32(&mut buf, 1); // sequence_number
    push_u32(&mut buf, 2); // uptime
    push_u32(&mut buf, 3); // three sample records announced
    push_empty_counter_sample(&mut buf, 1);
    push_u32(&mut buf, 99); // unknown sample format
    push_u32(&mut buf, 4); // its declared length
    push_u32(&mut buf, 0xffffffff); // its skipped payload
    push_empty_counter_sample(&mut buf, 2);
    let mut data = ByteCursor::new(buf);
    let d: Datagram = Decodeable::read_and_decode(&mut data).unwrap();
    assert_eq!(d.sample_record.len(), 2);
}

#[test]
fn truncated_datagram_yields_no_partial_value() {
    let full = six_sample_datagram();
    let cut = full[..full.len() / 2].to_vec();
    let mut data = ByteCursor::new(cut);
    let r: Result<Datagram, Error> = Decodeable::read_and_decode(&mut data);
    assert_eq!(r, Err(Error::Truncated));
}

#[test]
fn datagram_header_fields_are_decoded() {
    let mut data = ByteCursor::new(six_sample_datagram());
    let d: Datagram = Decodeable::read_and_decode(&mut data).unwrap();
    assert_eq!(d.sflow_version, 5);
    assert_eq!(d.agent_address, IPAddress::IPv4(10, 0, 0, 1));
    assert_eq!(d.sub_agent_id, 7);
    assert_eq!(d.sequence_number, 1000);
    assert_eq!(d.uptime, 123456);
    match &d.sample_record[3] {
        SampleRecord::CounterSample(cs) => {
            assert_eq!(cs.sequence_number, 3);
            assert_eq!(cs.source_id, 42);
            assert!(cs.counters.is_empty());
        }
        other => panic!("expected a counter sample, got {:?}", other),
    }
}
