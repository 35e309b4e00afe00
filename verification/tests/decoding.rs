use dns_metrics::dns::{
    Class, DnsBody, DnsRequestId, Endpoint, IpAddress, QueryClass, QueryType, ResourceData,
};
use dns_metrics::packet::{Error, Layers, Packet, Transport};

fn ethernet(ether_type: u16, rest: &[u8]) -> Vec<u8> {
    let mut frame = vec![0x02, 0, 0, 0, 0, 0x01, 0x02, 0, 0, 0, 0, 0x02];
    frame.extend_from_slice(&ether_type.to_be_bytes());
    frame.extend_from_slice(rest);
    frame
}

fn ipv4(protocol: u8, source: [u8; 4], destination: [u8; 4], rest: &[u8]) -> Vec<u8> {
    let total = (20 + rest.len()) as u16;
    let mut packet = vec![0x45, 0];
    packet.extend_from_slice(&total.to_be_bytes());
    packet.extend_from_slice(&[0, 0, 0, 0, 64, protocol, 0, 0]);
    packet.extend_from_slice(&source);
    packet.extend_from_slice(&destination);
    packet.extend_from_slice(rest);
    packet
}

fn ipv6(next_header: u8, source: [u8; 16], destination: [u8; 16], rest: &[u8]) -> Vec<u8> {
    let mut packet = vec![0x60, 0, 0, 0];
    packet.extend_from_slice(&(rest.len() as u16).to_be_bytes());
    packet.extend_from_slice(&[next_header, 64]);
    packet.extend_from_slice(&source);
    packet.extend_from_slice(&destination);
    packet.extend_from_slice(rest);
    packet
}

fn udp(source_port: u16, destination_port: u16, payload: &[u8]) -> Vec<u8> {
    let mut datagram = Vec::new();
    datagram.extend_from_slice(&source_port.to_be_bytes());
    datagram.extend_from_slice(&destination_port.to_be_bytes());
    datagram.extend_from_slice(&((8 + payload.len()) as u16).to_be_bytes());
    datagram.extend_from_slice(&[0, 0]);
    datagram.extend_from_slice(payload);
    datagram
}

fn tcp(source_port: u16, destination_port: u16, payload: &[u8]) -> Vec<u8> {
    let mut segment = Vec::new();
    segment.extend_from_slice(&source_port.to_be_bytes());
    segment.extend_from_slice(&destination_port.to_be_bytes());
    segment.extend_from_slice(&[0, 0, 0, 1, 0, 0, 0, 0, 0x50, 0x18, 0x20, 0, 0, 0, 0, 0]);
    segment.extend_from_slice(payload);
    segment
}

fn example_com() -> Vec<u8> {
    let mut name = vec![7];
    name.extend_from_slice(b"example");
    name.push(3);
    name.extend_from_slice(b"com");
    name.push(0);
    name
}

fn dns_query_of(id: u16, name: &[u8], type_code: u16, class_code: u16) -> Vec<u8> {
    let mut message = Vec::new();
    message.extend_from_slice(&id.to_be_bytes());
    message.extend_from_slice(&[0x01, 0x00, 0, 1, 0, 0, 0, 0, 0, 0]);
    message.extend_from_slice(name);
    message.extend_from_slice(&type_code.to_be_bytes());
    message.extend_from_slice(&class_code.to_be_bytes());
    message
}

fn dns_query(id: u16) -> Vec<u8> {
    dns_query_of(id, &example_com(), 1, 1)
}

fn dns_answer_of(id: u16, type_code: u16, ttl: u32, data: &[u8]) -> Vec<u8> {
    let mut message = Vec::new();
    message.extend_from_slice(&id.to_be_bytes());
    message.extend_from_slice(&[0x81, 0x80, 0, 1, 0, 1, 0, 0, 0, 0]);
    message.extend_from_slice(&example_com());
    message.extend_from_slice(&[0, 1, 0, 1]);
    message.extend_from_slice(&[0xc0, 0x0c]);
    message.extend_from_slice(&type_code.to_be_bytes());
    message.extend_from_slice(&[0, 1]);
    message.extend_from_slice(&ttl.to_be_bytes());
    message.extend_from_slice(&(data.len() as u16).to_be_bytes());
    message.extend_from_slice(data);
    message
}

fn dns_answer(id: u16) -> Vec<u8> {
    dns_answer_of(id, 1, 300, &[93, 184, 216, 34])
}

fn query_frame() -> Vec<u8> {
    ethernet(0x0800, &ipv4(17, [10, 0, 0, 1], [10, 0, 0, 2], &udp(54321, 53, &dns_query(0x1234))))
}

fn answer_frame() -> Vec<u8> {
    ethernet(0x0800, &ipv4(17, [10, 0, 0, 2], [10, 0, 0, 1], &udp(53, 54321, &dns_answer(0x1234))))
}

fn client() -> Endpoint {
    Endpoint { address: IpAddress::V4(0x0a00_0001), port: 54321 }
}

fn server() -> Endpoint {
    Endpoint { address: IpAddress::V4(0x0a00_0002), port: 53 }
}

#[test]
fn query_frame_decodes_to_a_query() {
    let packet = Packet::new(&query_frame(), 1_000).unwrap();
    assert_eq!(
        packet.id(),
        DnsRequestId { lower_endpoint: client(), upper_endpoint: server(), request_id: 0x1234 }
    );
    match packet.body() {
        DnsBody::Query(query) => {
            assert_eq!(query.timestamp, 1_000);
            assert_eq!(query.questions.len(), 1);
            assert_eq!(query.questions[0].name, "example.com");
            assert_eq!(query.questions[0].query_type, QueryType::A);
            assert_eq!(query.questions[0].query_class, QueryClass::IN);
        }
        DnsBody::Answer(_) => panic!("a query was decoded as an answer"),
    }
}

#[test]
fn answer_frame_decodes_to_an_answer() {
    let packet = Packet::new(&answer_frame(), 2_000).unwrap();
    assert_eq!(
        packet.id(),
        DnsRequestId { lower_endpoint: client(), upper_endpoint: server(), request_id: 0x1234 }
    );
    match packet.body() {
        DnsBody::Answer(answer) => {
            assert_eq!(answer.timestamp, 2_000);
            assert_eq!(answer.records.len(), 1);
            assert_eq!(answer.records[0].name, "example.com");
            assert_eq!(answer.records[0].ttl, 300);
            assert_eq!(answer.records[0].resource_class, Class::IN);
            assert_eq!(answer.records[0].data, ResourceData::A);
        }
        DnsBody::Query(_) => panic!("an answer was decoded as a query"),
    }
}

#[test]
fn query_and_answer_share_one_fingerprint() {
    let query = Packet::new(&query_frame(), 1).unwrap();
    let answer = Packet::new(&answer_frame(), 2).unwrap();
    assert_eq!(query.id(), answer.id());
}

#[test]
fn ipv6_frame_decodes() {
    let mut source = [0u8; 16];
    source[0] = 0x20;
    source[1] = 0x01;
    source[15] = 1;
    let mut destination = [0u8; 16];
    destination[0] = 0x20;
    destination[1] = 0x01;
    destination[15] = 2;
    let frame = ethernet(0x86dd, &ipv6(17, source, destination, &udp(40000, 53, &dns_query(7))));
    let packet = Packet::new(&frame, 5).unwrap();
    let id = packet.id();
    assert_eq!(id.lower_endpoint.address, IpAddress::V6(0x2001_0000_0000_0000_0000_0000_0000_0001));
    assert_eq!(id.lower_endpoint.port, 40000);
    assert_eq!(id.upper_endpoint.address, IpAddress::V6(0x2001_0000_0000_0000_0000_0000_0000_0002));
    assert_eq!(id.upper_endpoint.port, 53);
    assert_eq!(id.request_id, 7);
}

#[test]
fn tcp_frame_is_rejected() {
    let frame = ethernet(0x0800, &ipv4(6, [10, 0, 0, 1], [10, 0, 0, 2], &tcp(54321, 53, &dns_query(1))));
    assert_eq!(Packet::new(&frame, 0).unwrap_err(), Error::NotUdp);
}

#[test]
fn arp_frame_has_no_ip_layer() {
    let frame = ethernet(0x0806, &[0u8; 28]);
    assert_eq!(Packet::new(&frame, 0).unwrap_err(), Error::NoIpLayer);
}

#[test]
fn icmp_packet_has_no_transport_layer() {
    let frame = ethernet(0x0800, &ipv4(1, [10, 0, 0, 1], [10, 0, 0, 2], &[8, 0, 0, 0, 0, 0, 0, 0]));
    assert_eq!(Packet::new(&frame, 0).unwrap_err(), Error::NoTransportLayer);
}

#[test]
fn truncated_frames_fail_to_parse() {
    let frame = query_frame();
    assert_eq!(Packet::new(&[], 0).unwrap_err(), Error::PacketParse);
    assert_eq!(Packet::new(&frame[..10], 0).unwrap_err(), Error::PacketParse);
    assert_eq!(Packet::new(&frame[..20], 0).unwrap_err(), Error::PacketParse);
    assert_eq!(Packet::new(&frame[..14 + 20 + 4], 0).unwrap_err(), Error::PacketParse);
}

#[test]
fn truncated_dns_payload_fails_to_parse() {
    let frame = query_frame();
    assert_eq!(Packet::new(&frame[..14 + 20 + 8], 0).unwrap_err(), Error::DnsParse);
    assert_eq!(Packet::new(&frame[..14 + 20 + 8 + 11], 0).unwrap_err(), Error::DnsParse);
    assert_eq!(Packet::new(&frame[..frame.len() - 1], 0).unwrap_err(), Error::DnsParse);
}

#[test]
fn unassigned_query_type_fails_to_parse() {
    let message = dns_query_of(9, &example_com(), 0x7777, 1);
    let frame = ethernet(0x0800, &ipv4(17, [10, 0, 0, 1], [10, 0, 0, 2], &udp(1, 53, &message)));
    assert_eq!(Packet::new(&frame, 0).unwrap_err(), Error::DnsParse);
}

#[test]
fn question_types_and_classes_are_decoded() {
    let cases = [
        (2u16, 1u16, QueryType::NS, QueryClass::IN),
        (15, 3, QueryType::MX, QueryClass::CH),
        (28, 1, QueryType::AAAA, QueryClass::IN),
        (33, 4, QueryType::SRV, QueryClass::HS),
        (255, 255, QueryType::All, QueryClass::Any),
    ];
    for (type_code, class_code, query_type, query_class) in cases {
        let message = dns_query_of(3, &example_com(), type_code, class_code);
        let frame = ethernet(0x0800, &ipv4(17, [10, 0, 0, 1], [10, 0, 0, 2], &udp(1, 53, &message)));
        match Packet::new(&frame, 0).unwrap().body() {
            DnsBody::Query(query) => {
                assert_eq!(query.questions[0].query_type, query_type);
                assert_eq!(query.questions[0].query_class, query_class);
            }
            DnsBody::Answer(_) => panic!("a query was decoded as an answer"),
        }
    }
}

#[test]
fn record_kinds_are_decoded() {
    let mut text = vec![5];
    text.extend_from_slice(b"hello");
    let cases: [(u16, Vec<u8>, ResourceData); 4] = [
        (1, vec![1, 2, 3, 4], ResourceData::A),
        (28, vec![0; 16], ResourceData::AAAA),
        (16, text, ResourceData::TXT),
        (13, vec![1, 2, 3], ResourceData::Unknown),
    ];
    for (type_code, data, kind) in cases {
        let message = dns_answer_of(3, type_code, 60, &data);
        let frame = ethernet(0x0800, &ipv4(17, [10, 0, 0, 2], [10, 0, 0, 1], &udp(53, 1, &message)));
        match Packet::new(&frame, 0).unwrap().body() {
            DnsBody::Answer(answer) => assert_eq!(answer.records[0].data, kind),
            DnsBody::Query(_) => panic!("an answer was decoded as a query"),
        }
    }
}

#[test]
fn udp_flow_names_the_failing_layer() {
    let payload = [1u8, 2, 3];
    let addresses = Some((IpAddress::V4(1), IpAddress::V4(2)));
    let udp = Some(Transport::Udp { source_port: 10, destination_port: 20 });
    let no_ip = Layers { addresses: None, transport: udp, payload: &payload };
    assert_eq!(Packet::udp_flow(&no_ip), Err(Error::NoIpLayer));
    let no_transport = Layers { addresses, transport: None, payload: &payload };
    assert_eq!(Packet::udp_flow(&no_transport), Err(Error::NoTransportLayer));
    let tcp = Layers { addresses, transport: Some(Transport::Tcp), payload: &payload };
    assert_eq!(Packet::udp_flow(&tcp), Err(Error::NotUdp));
    let good = Layers { addresses, transport: udp, payload: &payload };
    assert_eq!(
        Packet::udp_flow(&good),
        Ok((
            Endpoint { address: IpAddress::V4(1), port: 10 },
            Endpoint { address: IpAddress::V4(2), port: 20 },
        ))
    );
}

#[test]
fn error_messages() {
    assert_eq!(Error::PacketParse.message(), "packet parse");
    assert_eq!(Error::DnsParse.message(), "DNS parse");
    assert_eq!(Error::NoIpLayer.message(), "no IP layer");
    assert_eq!(Error::NoTransportLayer.message(), "no transport layer");
    assert_eq!(Error::NotUdp.message(), "not an UDP packet");
}
