//! The vocabulary of a DNS exchange: addresses, exchange identifiers,
//! questions, resource records and message bodies.

use vstd::prelude::*;

verus! {

/// An IP address, held as the number that its bytes spell in network order.
#[derive(Debug, Clone, Copy, PartialEq, Eq, PartialOrd, Ord, Hash, Structural)]
pub enum IpAddress {
    V4(u32),
    V6(u128),
}

impl IpAddress {
    /// The strict order of addresses: every IPv4 address comes before every
    /// IPv6 address, and within one family the smaller number comes first.
    pub open spec fn precedes(self, other: IpAddress) -> bool {
        match (self, other) {
            (IpAddress::V4(a), IpAddress::V4(b)) => a < b,
            (IpAddress::V4(_), IpAddress::V6(_)) => true,
            (IpAddress::V6(_), IpAddress::V4(_)) => false,
            (IpAddress::V6(a), IpAddress::V6(b)) => a < b,
        }
    }

    /// Says whether `self` comes strictly before `other`.
    pub fn is_before(&self, other: &IpAddress) -> (r: bool)
        ensures
            r == self.precedes(*other),
    {
        match (*self, *other) {
            (IpAddress::V4(a), IpAddress::V4(b)) => a < b,
            (IpAddress::V4(_), IpAddress::V6(_)) => true,
            (IpAddress::V6(_), IpAddress::V4(_)) => false,
            (IpAddress::V6(a), IpAddress::V6(b)) => a < b,
        }
    }

    /// The address family as a number: 4 or 6.
    pub open spec fn family(self) -> u8 {
        match self {
            IpAddress::V4(_) => 4,
            IpAddress::V6(_) => 6,
        }
    }

    /// The address as a number, whatever its family.
    pub open spec fn bits(self) -> u128 {
        match self {
            IpAddress::V4(a) => a as u128,
            IpAddress::V6(a) => a,
        }
    }
}

/// One side of an exchange: an address and a UDP port.
#[derive(Debug, Clone, Copy, PartialEq, Eq, PartialOrd, Ord, Hash, Structural)]
pub struct Endpoint {
    pub address: IpAddress,
    pub port: u16,
}

/// What an exchange identifier is ordered and looked up by: both endpoints
/// and the transaction id, spelled out as integers.
pub type RequestKey = (u8, u128, u16, u8, u128, u16, u16);

/// Identifies a DNS exchange by its transaction id and its two endpoints,
/// whichever of them sent the frame at hand.
#[derive(Debug, Clone, Copy, PartialEq, Eq, PartialOrd, Ord, Hash, Structural)]
pub struct DnsRequestId {
    pub lower_endpoint: Endpoint,
    pub upper_endpoint: Endpoint,
    pub request_id: u16,
}

impl DnsRequestId {
    /// The identifier of the exchange between a source and a target endpoint.
    /// The endpoint whose address comes first is the lower one; when neither
    /// address comes before the other, the target is the lower one.
    pub open spec fn make(
        source_address: IpAddress,
        source_port: u16,
        target_address: IpAddress,
        target_port: u16,
        request_id: u16,
    ) -> DnsRequestId {
        let source = Endpoint { address: source_address, port: source_port };
        let target = Endpoint { address: target_address, port: target_port };
        if source_address.precedes(target_address) {
            DnsRequestId { lower_endpoint: source, upper_endpoint: target, request_id }
        } else {
            DnsRequestId { lower_endpoint: target, upper_endpoint: source, request_id }
        }
    }

    /// An identifier is normalized when its upper address does not come
    /// before its lower one.
    pub open spec fn normalized(self) -> bool {
        !self.upper_endpoint.address.precedes(self.lower_endpoint.address)
    }

    pub fn new(
        source_address: IpAddress,
        source_port: u16,
        target_address: IpAddress,
        target_port: u16,
        request_id: u16,
    ) -> (id: Self)
        ensures
            id == Self::make(source_address, source_port, target_address, target_port, request_id),
            id.normalized(),
    {
        let source = Endpoint { address: source_address, port: source_port };
        let target = Endpoint { address: target_address, port: target_port };
        if source_address.is_before(&target_address) {
            DnsRequestId { lower_endpoint: source, upper_endpoint: target, request_id }
        } else {
            DnsRequestId { lower_endpoint: target, upper_endpoint: source, request_id }
        }
    }

    /// The integers that stand for this identifier in an ordered index.
    pub open spec fn key_of(self) -> RequestKey {
        (
            self.lower_endpoint.address.family(),
            self.lower_endpoint.address.bits(),
            self.lower_endpoint.port,
            self.upper_endpoint.address.family(),
            self.upper_endpoint.address.bits(),
            self.upper_endpoint.port,
            self.request_id,
        )
    }

    pub fn key(&self) -> (k: RequestKey)
        ensures
            k == self.key_of(),
    {
        let (lower_family, lower_bits): (u8, u128) = match self.lower_endpoint.address {
            IpAddress::V4(a) => (4, a as u128),
            IpAddress::V6(a) => (6, a),
        };
        let (upper_family, upper_bits): (u8, u128) = match self.upper_endpoint.address {
            IpAddress::V4(a) => (4, a as u128),
            IpAddress::V6(a) => (6, a),
        };
        (
            lower_family,
            lower_bits,
            self.lower_endpoint.port,
            upper_family,
            upper_bits,
            self.upper_endpoint.port,
            self.request_id,
        )
    }

    /// Two identifiers with the same key are the same identifier.
    pub proof fn lemma_key_injective(a: DnsRequestId, b: DnsRequestId)
        requires
            a.key_of() == b.key_of(),
        ensures
            a == b,
    {
        assert(a.lower_endpoint.address == b.lower_endpoint.address);
        assert(a.upper_endpoint.address == b.upper_endpoint.address);
    }

    /// An exchange has one identifier, whichever side is taken as the source,
    /// as long as the two addresses differ or the two ports agree.
    pub proof fn lemma_symmetric(
        a_address: IpAddress,
        a_port: u16,
        b_address: IpAddress,
        b_port: u16,
        request_id: u16,
    )
        requires
            a_address != b_address || a_port == b_port,
        ensures
            Self::make(a_address, a_port, b_address, b_port, request_id) == Self::make(
                b_address,
                b_port,
                a_address,
                a_port,
                request_id,
            ),
    {
    }

    /// Two exchanges with the same identifier have the same transaction id
    /// and the same pair of endpoints, in one order or the other.
    pub proof fn lemma_distinct(
        a_address: IpAddress,
        a_port: u16,
        b_address: IpAddress,
        b_port: u16,
        first_id: u16,
        c_address: IpAddress,
        c_port: u16,
        d_address: IpAddress,
        d_port: u16,
        second_id: u16,
    )
        requires
            Self::make(a_address, a_port, b_address, b_port, first_id) == Self::make(
                c_address,
                c_port,
                d_address,
                d_port,
                second_id,
            ),
        ensures
            first_id == second_id,
            ({
                let a = Endpoint { address: a_address, port: a_port };
                let b = Endpoint { address: b_address, port: b_port };
                let c = Endpoint { address: c_address, port: c_port };
                let d = Endpoint { address: d_address, port: d_port };
                (a == c && b == d) || (a == d && b == c)
            }),
    {
    }
}

/// The type that a question asks for.
#[derive(Debug, Clone, Copy, PartialEq, Eq, Hash, Structural)]
pub enum QueryType {
    A,
    NS,
    MF,
    CNAME,
    SOA,
    MB,
    MG,
    MR,
    NULL,
    WKS,
    PTR,
    HINFO,
    MINFO,
    MX,
    TXT,
    AAAA,
    SRV,
    AXFR,
    MAILB,
    MAILA,
    All,
    Unknown,
}

impl QueryType {
    /// The query type that a 16-bit code on the wire stands for; a code that
    /// stands for none is `Unknown`.
    pub open spec fn of_code(code: u16) -> QueryType {
        if code == 1 {
            QueryType::A
        } else if code == 2 {
            QueryType::NS
        } else if code == 4 {
            QueryType::MF
        } else if code == 5 {
            QueryType::CNAME
        } else if code == 6 {
            QueryType::SOA
        } else if code == 7 {
            QueryType::MB
        } else if code == 8 {
            QueryType::MG
        } else if code == 9 {
            QueryType::MR
        } else if code == 10 {
            QueryType::NULL
        } else if code == 11 {
            QueryType::WKS
        } else if code == 12 {
            QueryType::PTR
        } else if code == 13 {
            QueryType::HINFO
        } else if code == 14 {
            QueryType::MINFO
        } else if code == 15 {
            QueryType::MX
        } else if code == 16 {
            QueryType::TXT
        } else if code == 28 {
            QueryType::AAAA
        } else if code == 33 {
            QueryType::SRV
        } else if code == 252 {
            QueryType::AXFR
        } else if code == 253 {
            QueryType::MAILB
        } else if code == 254 {
            QueryType::MAILA
        } else if code == 255 {
            QueryType::All
        } else {
            QueryType::Unknown
        }
    }

    pub fn from_code(code: u16) -> (r: QueryType)
        ensures
            r == Self::of_code(code),
    {
        match code {
            1 => QueryType::A,
            2 => QueryType::NS,
            4 => QueryType::MF,
            5 => QueryType::CNAME,
            6 => QueryType::SOA,
            7 => QueryType::MB,
            8 => QueryType::MG,
            9 => QueryType::MR,
            10 => QueryType::NULL,
            11 => QueryType::WKS,
            12 => QueryType::PTR,
            13 => QueryType::HINFO,
            14 => QueryType::MINFO,
            15 => QueryType::MX,
            16 => QueryType::TXT,
            28 => QueryType::AAAA,
            33 => QueryType::SRV,
            252 => QueryType::AXFR,
            253 => QueryType::MAILB,
            254 => QueryType::MAILA,
            255 => QueryType::All,
            _ => QueryType::Unknown,
        }
    }

    /// The name under which this query type is counted.
    pub open spec fn label_of(self) -> Seq<char> {
        match self {
            QueryType::A => "A"@,
            QueryType::NS => "NS"@,
            QueryType::MF => "MF"@,
            QueryType::CNAME => "CNAME"@,
            QueryType::SOA => "SOA"@,
            QueryType::MB => "MB"@,
            QueryType::MG => "MG"@,
            QueryType::MR => "MR"@,
            QueryType::NULL => "NULL"@,
            QueryType::WKS => "WKS"@,
            QueryType::PTR => "PTR"@,
            QueryType::HINFO => "HINFO"@,
            QueryType::MINFO => "MINFO"@,
            QueryType::MX => "MX"@,
            QueryType::TXT => "TXT"@,
            QueryType::AAAA => "AAAA"@,
            QueryType::SRV => "SRV"@,
            QueryType::AXFR => "AXFR"@,
            QueryType::MAILB => "MAILB"@,
            QueryType::MAILA => "MAILA"@,
            QueryType::All => "All"@,
            QueryType::Unknown => "Unknown"@,
        }
    }

    pub fn label(&self) -> (r: &'static str)
        ensures
            r@ == self.label_of(),
    {
        match self {
            QueryType::A => "A",
            QueryType::NS => "NS",
            QueryType::MF => "MF",
            QueryType::CNAME => "CNAME",
            QueryType::SOA => "SOA",
            QueryType::MB => "MB",
            QueryType::MG => "MG",
            QueryType::MR => "MR",
            QueryType::NULL => "NULL",
            QueryType::WKS => "WKS",
            QueryType::PTR => "PTR",
            QueryType::HINFO => "HINFO",
            QueryType::MINFO => "MINFO",
            QueryType::MX => "MX",
            QueryType::TXT => "TXT",
            QueryType::AAAA => "AAAA",
            QueryType::SRV => "SRV",
            QueryType::AXFR => "AXFR",
            QueryType::MAILB => "MAILB",
            QueryType::MAILA => "MAILA",
            QueryType::All => "All",
            QueryType::Unknown => "Unknown",
        }
    }
}

/// The class that a question asks in.
#[derive(Debug, Clone, Copy, PartialEq, Eq, Hash, Structural)]
pub enum QueryClass {
    IN,
    CS,
    CH,
    HS,
    Any,
    Unknown,
}

impl QueryClass {
    /// The query class that a 16-bit code on the wire stands for; a code that
    /// stands for none is `Unknown`.
    pub open spec fn of_code(code: u16) -> QueryClass {
        if code == 1 {
            QueryClass::IN
        } else if code == 2 {
            QueryClass::CS
        } else if code == 3 {
            QueryClass::CH
        } else if code == 4 {
            QueryClass::HS
        } else if code == 255 {
            QueryClass::Any
        } else {
            QueryClass::Unknown
        }
    }

    pub fn from_code(code: u16) -> (r: QueryClass)
        ensures
            r == Self::of_code(code),
    {
        match code {
            1 => QueryClass::IN,
            2 => QueryClass::CS,
            3 => QueryClass::CH,
            4 => QueryClass::HS,
            255 => QueryClass::Any,
            _ => QueryClass::Unknown,
        }
    }

    /// The name under which this query class is counted.
    pub open spec fn label_of(self) -> Seq<char> {
        match self {
            QueryClass::IN => "IN"@,
            QueryClass::CS => "CS"@,
            QueryClass::CH => "CH"@,
            QueryClass::HS => "HS"@,
            QueryClass::Any => "Any"@,
            QueryClass::Unknown => "Unknown"@,
        }
    }

    pub fn label(&self) -> (r: &'static str)
        ensures
            r@ == self.label_of(),
    {
        match self {
            QueryClass::IN => "IN",
            QueryClass::CS => "CS",
            QueryClass::CH => "CH",
            QueryClass::HS => "HS",
            QueryClass::Any => "Any",
            QueryClass::Unknown => "Unknown",
        }
    }
}

/// The class of a resource record.
#[derive(Debug, Clone, Copy, PartialEq, Eq, Hash, Structural)]
pub enum Class {
    IN,
    CS,
    CH,
    HS,
    Unknown,
}

impl Class {
    /// The record class that a 16-bit code on the wire stands for; a code that
    /// stands for none is `Unknown`.
    pub open spec fn of_code(code: u16) -> Class {
        if code == 1 {
            Class::IN
        } else if code == 2 {
            Class::CS
        } else if code == 3 {
            Class::CH
        } else if code == 4 {
            Class::HS
        } else {
            Class::Unknown
        }
    }

    pub fn from_code(code: u16) -> (r: Class)
        ensures
            r == Self::of_code(code),
    {
        match code {
            1 => Class::IN,
            2 => Class::CS,
            3 => Class::CH,
            4 => Class::HS,
            _ => Class::Unknown,
        }
    }

    /// The name under which this record class is counted.
    pub open spec fn label_of(self) -> Seq<char> {
        match self {
            Class::IN => "IN"@,
            Class::CS => "CS"@,
            Class::CH => "CH"@,
            Class::HS => "HS"@,
            Class::Unknown => "Unknown"@,
        }
    }

    pub fn label(&self) -> (r: &'static str)
        ensures
            r@ == self.label_of(),
    {
        match self {
            Class::IN => "IN",
            Class::CS => "CS",
            Class::CH => "CH",
            Class::HS => "HS",
            Class::Unknown => "Unknown",
        }
    }
}
/// Which kind of data a resource record carries. The data itself is not kept.
#[derive(Debug, Clone, Copy, PartialEq, Eq, Hash, Structural)]
pub enum ResourceData {
    A,
    AAAA,
    CNAME,
    MX,
    NS,
    PTR,
    SOA,
    SRV,
    TXT,
    Unknown,
}

/// One entry of a message's question section.
#[derive(Debug)]
pub struct Question {
    pub name: String,
    pub query_type: QueryType,
    pub query_class: QueryClass,
}

/// What a [`Question`] holds.
pub struct QuestionView {
    pub name: Seq<char>,
    pub query_type: QueryType,
    pub query_class: QueryClass,
}

impl View for Question {
    type V = QuestionView;

    open spec fn view(&self) -> QuestionView {
        QuestionView {
            name: self.name@,
            query_type: self.query_type,
            query_class: self.query_class,
        }
    }
}

impl Question {
    /// The question that a name and the two codes beside it on the wire
    /// stand for.
    pub fn from_wire(name: String, type_code: u16, class_code: u16) -> (question: Question)
        ensures
            question@ == (QuestionView {
                name: name@,
                query_type: QueryType::of_code(type_code),
                query_class: QueryClass::of_code(class_code),
            }),
    {
        Question {
            name,
            query_type: QueryType::from_code(type_code),
            query_class: QueryClass::from_code(class_code),
        }
    }
}

/// One entry of a message's answer section.
#[derive(Debug)]
pub struct ResourceRecord {
    pub name: String,
    pub ttl: u32,
    pub resource_class: Class,
    pub data: ResourceData,
}

/// What a [`ResourceRecord`] holds.
pub struct ResourceRecordView {
    pub name: Seq<char>,
    pub ttl: u32,
    pub resource_class: Class,
    pub data: ResourceData,
}

impl View for ResourceRecord {
    type V = ResourceRecordView;

    open spec fn view(&self) -> ResourceRecordView {
        ResourceRecordView {
            name: self.name@,
            ttl: self.ttl,
            resource_class: self.resource_class,
            data: self.data,
        }
    }
}

impl ResourceRecord {
    /// The record that a name, a time to live, a class code and a kind of
    /// data stand for.
    pub fn from_wire(name: String, ttl: u32, class_code: u16, data: ResourceData) -> (record:
        ResourceRecord)
        ensures
            record@ == (ResourceRecordView {
                name: name@,
                ttl,
                resource_class: Class::of_code(class_code),
                data,
            }),
    {
        ResourceRecord { name, ttl, resource_class: Class::from_code(class_code), data }
    }
}

/// What each question of a sequence holds.
pub open spec fn question_views(questions: Seq<Question>) -> Seq<QuestionView> {
    questions.map_values(|q: Question| q@)
}

/// What each record of a sequence holds.
pub open spec fn record_views(records: Seq<ResourceRecord>) -> Seq<ResourceRecordView> {
    records.map_values(|r: ResourceRecord| r@)
}

/// A query as it was captured. The timestamp counts nanoseconds since the
/// Unix epoch.
#[derive(Debug)]
pub struct DnsQuery {
    pub timestamp: u64,
    pub questions: Vec<Question>,
}

/// What a [`DnsQuery`] holds.
pub struct DnsQueryView {
    pub timestamp: u64,
    pub questions: Seq<QuestionView>,
}

impl View for DnsQuery {
    type V = DnsQueryView;

    open spec fn view(&self) -> DnsQueryView {
        DnsQueryView { timestamp: self.timestamp, questions: question_views(self.questions@) }
    }
}

/// An answer as it was captured. The timestamp counts nanoseconds since the
/// Unix epoch.
#[derive(Debug)]
pub struct DnsAnswer {
    pub timestamp: u64,
    pub records: Vec<ResourceRecord>,
}

/// What a [`DnsAnswer`] holds.
pub struct DnsAnswerView {
    pub timestamp: u64,
    pub records: Seq<ResourceRecordView>,
}

impl View for DnsAnswer {
    type V = DnsAnswerView;

    open spec fn view(&self) -> DnsAnswerView {
        DnsAnswerView { timestamp: self.timestamp, records: record_views(self.records@) }
    }
}

/// The part of a DNS message that is kept: the questions of a query or the
/// records of an answer.
#[derive(Debug)]
pub enum DnsBody {
    Query(DnsQuery),
    Answer(DnsAnswer),
}

/// What a [`DnsBody`] holds.
pub enum DnsBodyView {
    Query(DnsQueryView),
    Answer(DnsAnswerView),
}

impl View for DnsBody {
    type V = DnsBodyView;

    open spec fn view(&self) -> DnsBodyView {
        match self {
            DnsBody::Query(query) => DnsBodyView::Query(query@),
            DnsBody::Answer(answer) => DnsBodyView::Answer(answer@),
        }
    }
}

} // verus!
