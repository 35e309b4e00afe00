use dns_metrics::dns::{
    Class, DnsRequestId, Endpoint, IpAddress, QueryClass, QueryType, Question, ResourceData,
    ResourceRecord,
};

fn endpoint(address: IpAddress, port: u16) -> Endpoint {
    Endpoint { address, port }
}

#[test]
fn fingerprint_is_the_same_in_both_directions() {
    let client = IpAddress::V4(0x0a00_0001);
    let server = IpAddress::V4(0x0a00_0002);
    let query = DnsRequestId::new(client, 54321, server, 53, 0x1234);
    let answer = DnsRequestId::new(server, 53, client, 54321, 0x1234);
    assert_eq!(query, answer);
    assert_eq!(query.lower_endpoint, endpoint(client, 54321));
    assert_eq!(query.upper_endpoint, endpoint(server, 53));
    assert_eq!(query.request_id, 0x1234);
}

#[test]
fn fingerprint_orders_by_address_not_by_port() {
    let low = IpAddress::V4(1);
    let high = IpAddress::V4(2);
    let id = DnsRequestId::new(high, 1, low, 65535, 9);
    assert_eq!(id.lower_endpoint, endpoint(low, 65535));
    assert_eq!(id.upper_endpoint, endpoint(high, 1));
}

#[test]
fn fingerprint_puts_ipv4_before_ipv6() {
    let v4 = IpAddress::V4(u32::MAX);
    let v6 = IpAddress::V6(0);
    let one_way = DnsRequestId::new(v6, 53, v4, 4000, 1);
    let other_way = DnsRequestId::new(v4, 4000, v6, 53, 1);
    assert_eq!(one_way, other_way);
    assert_eq!(one_way.lower_endpoint, endpoint(v4, 4000));
    assert_eq!(one_way.upper_endpoint, endpoint(v6, 53));
}

#[test]
fn fingerprint_orders_ipv6_by_number() {
    let low = IpAddress::V6(0x2001_0db8_0000_0000_0000_0000_0000_0001);
    let high = IpAddress::V6(0x2001_0db8_0000_0000_0000_0000_0000_0002);
    let id = DnsRequestId::new(high, 53, low, 4000, 1);
    assert_eq!(id.lower_endpoint, endpoint(low, 4000));
    assert_eq!(id.upper_endpoint, endpoint(high, 53));
}

#[test]
fn fingerprint_with_one_address_takes_the_target_as_lower() {
    let host = IpAddress::V4(0x7f00_0001);
    let query = DnsRequestId::new(host, 40000, host, 53, 5);
    assert_eq!(query.lower_endpoint, endpoint(host, 53));
    assert_eq!(query.upper_endpoint, endpoint(host, 40000));
    let answer = DnsRequestId::new(host, 53, host, 40000, 5);
    assert_eq!(answer.lower_endpoint, endpoint(host, 40000));
    assert_eq!(answer.upper_endpoint, endpoint(host, 53));
    assert_ne!(query, answer);
    let same_ports = DnsRequestId::new(host, 53, host, 53, 5);
    assert_eq!(same_ports, DnsRequestId::new(host, 53, host, 53, 5));
}

#[test]
fn fingerprint_changes_with_each_part() {
    let a = IpAddress::V4(1);
    let b = IpAddress::V4(2);
    let c = IpAddress::V4(3);
    let base = DnsRequestId::new(a, 1000, b, 53, 7);
    assert_ne!(base, DnsRequestId::new(a, 1000, b, 53, 8));
    assert_ne!(base, DnsRequestId::new(a, 1001, b, 53, 7));
    assert_ne!(base, DnsRequestId::new(a, 1000, b, 54, 7));
    assert_ne!(base, DnsRequestId::new(c, 1000, b, 53, 7));
    assert_ne!(base, DnsRequestId::new(a, 1000, c, 53, 7));
    assert_ne!(base, DnsRequestId::new(a, 53, b, 1000, 7));
    assert_ne!(base, DnsRequestId::new(IpAddress::V6(1), 1000, IpAddress::V6(2), 53, 7));
}

#[test]
fn address_order() {
    assert!(IpAddress::V4(1).is_before(&IpAddress::V4(2)));
    assert!(!IpAddress::V4(2).is_before(&IpAddress::V4(1)));
    assert!(!IpAddress::V4(2).is_before(&IpAddress::V4(2)));
    assert!(IpAddress::V4(u32::MAX).is_before(&IpAddress::V6(0)));
    assert!(!IpAddress::V6(0).is_before(&IpAddress::V4(u32::MAX)));
    assert!(IpAddress::V6(1).is_before(&IpAddress::V6(2)));
    assert!(!IpAddress::V6(2).is_before(&IpAddress::V6(2)));
}

#[test]
fn address_order_agrees_with_the_comparison_operators() {
    let addresses = [
        IpAddress::V4(0),
        IpAddress::V4(7),
        IpAddress::V4(u32::MAX),
        IpAddress::V6(0),
        IpAddress::V6(7),
        IpAddress::V6(u128::MAX),
    ];
    for a in addresses {
        for b in addresses {
            assert_eq!(a.is_before(&b), a < b);
        }
    }
}

#[test]
fn key_spells_out_the_fingerprint() {
    let id = DnsRequestId::new(IpAddress::V6(9), 53, IpAddress::V4(8), 4000, 0xabcd);
    assert_eq!(id.key(), (4, 8, 4000, 6, 9, 53, 0xabcd));
    let v4_then_v6 = DnsRequestId::new(IpAddress::V4(1), 1, IpAddress::V6(1), 1, 1);
    let v4_then_v4 = DnsRequestId::new(IpAddress::V4(1), 1, IpAddress::V4(1), 1, 1);
    assert_ne!(v4_then_v6.key(), v4_then_v4.key());
}

#[test]
fn query_types_by_code() {
    let known = [
        (1u16, QueryType::A, "A"),
        (2, QueryType::NS, "NS"),
        (4, QueryType::MF, "MF"),
        (5, QueryType::CNAME, "CNAME"),
        (6, QueryType::SOA, "SOA"),
        (7, QueryType::MB, "MB"),
        (8, QueryType::MG, "MG"),
        (9, QueryType::MR, "MR"),
        (10, QueryType::NULL, "NULL"),
        (11, QueryType::WKS, "WKS"),
        (12, QueryType::PTR, "PTR"),
        (13, QueryType::HINFO, "HINFO"),
        (14, QueryType::MINFO, "MINFO"),
        (15, QueryType::MX, "MX"),
        (16, QueryType::TXT, "TXT"),
        (28, QueryType::AAAA, "AAAA"),
        (33, QueryType::SRV, "SRV"),
        (252, QueryType::AXFR, "AXFR"),
        (253, QueryType::MAILB, "MAILB"),
        (254, QueryType::MAILA, "MAILA"),
        (255, QueryType::All, "All"),
    ];
    for (code, query_type, label) in known {
        assert_eq!(QueryType::from_code(code), query_type);
        assert_eq!(query_type.label(), label);
        assert_eq!(format!("{:?}", query_type), label);
    }
    for code in [0u16, 3, 17, 27, 29, 251, 256, 65535] {
        assert_eq!(QueryType::from_code(code), QueryType::Unknown);
    }
    assert_eq!(QueryType::Unknown.label(), "Unknown");
}

#[test]
fn query_classes_by_code() {
    let known = [
        (1u16, QueryClass::IN, "IN"),
        (2, QueryClass::CS, "CS"),
        (3, QueryClass::CH, "CH"),
        (4, QueryClass::HS, "HS"),
        (255, QueryClass::Any, "Any"),
    ];
    for (code, query_class, label) in known {
        assert_eq!(QueryClass::from_code(code), query_class);
        assert_eq!(query_class.label(), label);
        assert_eq!(format!("{:?}", query_class), label);
    }
    for code in [0u16, 5, 254, 256] {
        assert_eq!(QueryClass::from_code(code), QueryClass::Unknown);
    }
    assert_eq!(QueryClass::Unknown.label(), "Unknown");
}

#[test]
fn record_classes_by_code() {
    let known = [(1u16, Class::IN, "IN"), (2, Class::CS, "CS"), (3, Class::CH, "CH"), (4, Class::HS, "HS")];
    for (code, class, label) in known {
        assert_eq!(Class::from_code(code), class);
        assert_eq!(class.label(), label);
    }
    for code in [0u16, 5, 255] {
        assert_eq!(Class::from_code(code), Class::Unknown);
    }
    assert_eq!(Class::Unknown.label(), "Unknown");
}

#[test]
fn question_from_wire() {
    let question = Question::from_wire(String::from("example.com"), 28, 1);
    assert_eq!(question.name, "example.com");
    assert_eq!(question.query_type, QueryType::AAAA);
    assert_eq!(question.query_class, QueryClass::IN);
    let odd = Question::from_wire(String::new(), 999, 999);
    assert_eq!(odd.name, "");
    assert_eq!(odd.query_type, QueryType::Unknown);
    assert_eq!(odd.query_class, QueryClass::Unknown);
}

#[test]
fn record_from_wire() {
    let record = ResourceRecord::from_wire(String::from("example.com"), 300, 1, ResourceData::MX);
    assert_eq!(record.name, "example.com");
    assert_eq!(record.ttl, 300);
    assert_eq!(record.resource_class, Class::IN);
    assert_eq!(record.data, ResourceData::MX);
    let odd = ResourceRecord::from_wire(String::from("x"), 0, 77, ResourceData::Unknown);
    assert_eq!(odd.resource_class, Class::Unknown);
    assert_eq!(odd.data, ResourceData::Unknown);
}

#[test]
fn record_kind_of_parsed_data() {
    let unparsed = [1u8, 2, 3];
    assert_eq!(ResourceData::from(&dns_parser::RData::Unknown(&unparsed)), ResourceData::Unknown);
}
