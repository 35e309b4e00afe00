//! Decoding of a captured Ethernet frame down to the DNS message it carries.

use crate::dns::{
    question_views, record_views, Class, DnsAnswer, DnsAnswerView, DnsBody, DnsBodyView, DnsQuery,
    DnsQueryView, DnsRequestId, Endpoint, IpAddress, QueryClass, QueryType, Question,
    QuestionView, ResourceData, ResourceRecord, ResourceRecordView,
};
use dns_parser::RData;
use etherparse::{InternetSlice, SlicedPacket, TransportSlice};
use vstd::prelude::*;
use vstd::std_specs::convert::FromSpecImpl;

verus! {

/// The data of a resource record as `dns_parser` hands it out. Its variants
/// are read as the parser declares them; what each variant carries stays
/// closed.
#[verifier::external_type_specification]
pub struct ExRData<'a>(RData<'a>);

/// What `RData::A` carries. Nothing is said of it.
#[verifier::external_type_specification]
#[verifier::external_body]
pub struct ExRecordA(dns_parser::rdata::A);

/// What `RData::AAAA` carries. Nothing is said of it.
#[verifier::external_type_specification]
#[verifier::external_body]
pub struct ExRecordAaaa(dns_parser::rdata::Aaaa);

/// What `RData::CNAME` carries. Nothing is said of it.
#[verifier::external_type_specification]
#[verifier::external_body]
pub struct ExRecordCname<'a>(dns_parser::rdata::Cname<'a>);

/// What `RData::MX` carries. Nothing is said of it.
#[verifier::external_type_specification]
#[verifier::external_body]
pub struct ExRecordMx<'a>(dns_parser::rdata::Mx<'a>);

/// What `RData::NS` carries. Nothing is said of it.
#[verifier::external_type_specification]
#[verifier::external_body]
pub struct ExRecordNs<'a>(dns_parser::rdata::Ns<'a>);

/// What `RData::PTR` carries. Nothing is said of it.
#[verifier::external_type_specification]
#[verifier::external_body]
pub struct ExRecordPtr<'a>(dns_parser::rdata::Ptr<'a>);

/// What `RData::SOA` carries. Nothing is said of it.
#[verifier::external_type_specification]
#[verifier::external_body]
pub struct ExRecordSoa<'a>(dns_parser::rdata::Soa<'a>);

/// What `RData::SRV` carries. Nothing is said of it.
#[verifier::external_type_specification]
#[verifier::external_body]
pub struct ExRecordSrv<'a>(dns_parser::rdata::Srv<'a>);

/// What `RData::TXT` carries. Nothing is said of it.
#[verifier::external_type_specification]
#[verifier::external_body]
pub struct ExRecordTxt<'a>(dns_parser::rdata::Txt<'a>);

impl ResourceData {
    /// The kind of a record's data: the variant it came in, with data that
    /// the parser left unparsed as `Unknown`.
    pub open spec fn kind_of(data: RData) -> ResourceData {
        match data {
            RData::A(_) => ResourceData::A,
            RData::AAAA(_) => ResourceData::AAAA,
            RData::CNAME(_) => ResourceData::CNAME,
            RData::MX(_) => ResourceData::MX,
            RData::NS(_) => ResourceData::NS,
            RData::PTR(_) => ResourceData::PTR,
            RData::SOA(_) => ResourceData::SOA,
            RData::SRV(_) => ResourceData::SRV,
            RData::TXT(_) => ResourceData::TXT,
            RData::Unknown(_) => ResourceData::Unknown,
        }
    }
}

impl<'a, 'b> From<&'b RData<'a>> for ResourceData {
    fn from(data: &'b RData<'a>) -> (kind: Self) {
        match data {
            RData::A(_) => ResourceData::A,
            RData::AAAA(_) => ResourceData::AAAA,
            RData::CNAME(_) => ResourceData::CNAME,
            RData::MX(_) => ResourceData::MX,
            RData::NS(_) => ResourceData::NS,
            RData::PTR(_) => ResourceData::PTR,
            RData::SOA(_) => ResourceData::SOA,
            RData::SRV(_) => ResourceData::SRV,
            RData::TXT(_) => ResourceData::TXT,
            RData::Unknown(_) => ResourceData::Unknown,
        }
    }
}

impl<'a, 'b> FromSpecImpl<&'b RData<'a>> for ResourceData {
    open spec fn obeys_from_spec() -> bool {
        true
    }

    open spec fn from_spec(data: &'b RData<'a>) -> Self {
        ResourceData::kind_of(*data)
    }
}

/// Why a frame was not decoded.
#[derive(Debug, Clone, Copy, PartialEq, Eq, Structural)]
pub enum Error {
    /// The frame is cut short or malformed below the DNS payload.
    PacketParse,
    /// The UDP payload is no DNS message.
    DnsParse,
    /// The frame carries neither IPv4 nor IPv6.
    NoIpLayer,
    /// The IP packet carries neither UDP nor TCP.
    NoTransportLayer,
    /// The IP packet carries TCP.
    NotUdp,
}

impl Error {
    /// The error in words.
    pub open spec fn message_of(self) -> Seq<char> {
        match self {
            Error::PacketParse => "packet parse"@,
            Error::DnsParse => "DNS parse"@,
            Error::NoIpLayer => "no IP layer"@,
            Error::NoTransportLayer => "no transport layer"@,
            Error::NotUdp => "not an UDP packet"@,
        }
    }

    pub fn message(&self) -> (r: &'static str)
        ensures
            r@ == self.message_of(),
    {
        match self {
            Error::PacketParse => "packet parse",
            Error::DnsParse => "DNS parse",
            Error::NoIpLayer => "no IP layer",
            Error::NoTransportLayer => "no transport layer",
            Error::NotUdp => "not an UDP packet",
        }
    }
}

/// The transport header found in a frame.
#[derive(Debug, Clone, Copy, PartialEq, Eq, Structural)]
pub enum Transport {
    Udp { source_port: u16, destination_port: u16 },
    Tcp,
}

/// The layers of a frame below its payload, as far as they were found.
#[derive(Debug)]
pub struct Layers<'a> {
    /// Source and destination address, where the frame carries IP.
    pub addresses: Option<(IpAddress, IpAddress)>,
    /// The transport header, where the IP packet carries UDP or TCP.
    pub transport: Option<Transport>,
    /// The bytes behind the last header found.
    pub payload: &'a [u8],
}

/// What a [`Layers`] holds.
pub struct LayersView {
    pub addresses: Option<(IpAddress, IpAddress)>,
    pub transport: Option<Transport>,
    pub payload: Seq<u8>,
}

impl<'a> View for Layers<'a> {
    type V = LayersView;

    open spec fn view(&self) -> LayersView {
        LayersView {
            addresses: self.addresses,
            transport: self.transport,
            payload: self.payload@,
        }
    }
}

/// A question as it stands in a message: its type and class are still the
/// 16-bit codes.
#[derive(Debug)]
pub struct WireQuestion {
    pub name: String,
    pub type_code: u16,
    pub class_code: u16,
}

/// What a [`WireQuestion`] holds.
pub struct WireQuestionView {
    pub name: Seq<char>,
    pub type_code: u16,
    pub class_code: u16,
}

impl View for WireQuestion {
    type V = WireQuestionView;

    open spec fn view(&self) -> WireQuestionView {
        WireQuestionView {
            name: self.name@,
            type_code: self.type_code,
            class_code: self.class_code,
        }
    }
}

/// A resource record as it stands in a message: its class is still the
/// 16-bit code, and its data is what the parser made of it.
#[derive(Debug)]
pub struct WireRecord<'a> {
    pub name: String,
    pub ttl: u32,
    pub class_code: u16,
    pub data: RData<'a>,
}

/// What matters of a [`WireRecord`]: of its data, only the kind.
pub struct WireRecordView {
    pub name: Seq<char>,
    pub ttl: u32,
    pub class_code: u16,
    pub kind: ResourceData,
}

impl<'a> View for WireRecord<'a> {
    type V = WireRecordView;

    open spec fn view(&self) -> WireRecordView {
        WireRecordView {
            name: self.name@,
            ttl: self.ttl,
            class_code: self.class_code,
            kind: ResourceData::kind_of(self.data),
        }
    }
}

/// A DNS message as the parser read it.
#[derive(Debug)]
pub struct WireMessage<'a> {
    /// The transaction id.
    pub id: u16,
    /// Whether the message is a query (and not a response).
    pub query: bool,
    pub questions: Vec<WireQuestion>,
    pub answers: Vec<WireRecord<'a>>,
}

/// What a [`WireMessage`] holds.
pub struct WireMessageView {
    pub id: u16,
    pub query: bool,
    pub questions: Seq<WireQuestionView>,
    pub answers: Seq<WireRecordView>,
}

impl<'a> View for WireMessage<'a> {
    type V = WireMessageView;

    open spec fn view(&self) -> WireMessageView {
        WireMessageView {
            id: self.id,
            query: self.query,
            questions: self.questions@.map_values(|q: WireQuestion| q@),
            answers: self.answers@.map_values(|r: WireRecord| r@),
        }
    }
}

/// The question that a question on the wire stands for: a code that stands
/// for no type or class gives `Unknown`.
pub open spec fn question_of(wire: WireQuestionView) -> QuestionView {
    QuestionView {
        name: wire.name,
        query_type: QueryType::of_code(wire.type_code),
        query_class: QueryClass::of_code(wire.class_code),
    }
}

/// The record that a record on the wire stands for: a code that stands for
/// no class gives `Unknown`.
pub open spec fn record_of(wire: WireRecordView) -> ResourceRecordView {
    ResourceRecordView {
        name: wire.name,
        ttl: wire.ttl,
        resource_class: Class::of_code(wire.class_code),
        data: wire.kind,
    }
}

/// The message that a message on the wire stands for: its questions and
/// records one for one, in their order.
pub open spec fn message_of(wire: WireMessageView) -> DnsMessageView {
    DnsMessageView {
        id: wire.id,
        query: wire.query,
        questions: wire.questions.map_values(|q: WireQuestionView| question_of(q)),
        answers: wire.answers.map_values(|r: WireRecordView| record_of(r)),
    }
}

/// The parts of a DNS message that are kept.
#[derive(Debug)]
pub struct DnsMessage {
    /// The transaction id.
    pub id: u16,
    /// Whether the message is a query (and not a response).
    pub query: bool,
    pub questions: Vec<Question>,
    pub answers: Vec<ResourceRecord>,
}

/// What a [`DnsMessage`] holds.
pub struct DnsMessageView {
    pub id: u16,
    pub query: bool,
    pub questions: Seq<QuestionView>,
    pub answers: Seq<ResourceRecordView>,
}

impl View for DnsMessage {
    type V = DnsMessageView;

    open spec fn view(&self) -> DnsMessageView {
        DnsMessageView {
            id: self.id,
            query: self.query,
            questions: question_views(self.questions@),
            answers: record_views(self.answers@),
        }
    }
}

impl DnsMessage {
    /// Decodes the codes of a message on the wire and keeps, of each
    /// record's data, the kind.
    pub fn from_wire(wire: WireMessage) -> (message: DnsMessage)
        ensures
            message@ == message_of(wire@),
    {
        let ghost target = message_of(wire@);
        let ghost wire_questions = wire.questions@;
        let ghost wire_answers = wire.answers@;
        let mut questions: Vec<Question> = Vec::new();
        for question in entries: wire.questions
            invariant
                entries.seq() == wire_questions,
                questions@.len() == entries.index(),
                forall|i: int|
                    0 <= i < questions@.len() ==> (#[trigger] questions@[i])@ == question_of(
                        wire_questions[i]@,
                    ),
        {
            questions.push(
                Question::from_wire(question.name, question.type_code, question.class_code),
            );
        }
        let mut answers: Vec<ResourceRecord> = Vec::new();
        for record in entries: wire.answers
            invariant
                entries.seq() == wire_answers,
                answers@.len() == entries.index(),
                forall|i: int|
                    0 <= i < answers@.len() ==> (#[trigger] answers@[i])@ == record_of(
                        wire_answers[i]@,
                    ),
        {
            let kind = ResourceData::from(&record.data);
            answers.push(
                ResourceRecord::from_wire(record.name, record.ttl, record.class_code, kind),
            );
        }
        let message = DnsMessage { id: wire.id, query: wire.query, questions, answers };
        proof {
            assert(message@.questions =~= target.questions);
            assert(message@.answers =~= target.answers);
        }
        message
    }
}

/// The layers that `etherparse::SlicedPacket::from_ethernet` finds in a frame,
/// or `None` where it fails.
pub uninterp spec fn ethernet_layers(frame: Seq<u8>) -> Option<LayersView>;

/// What `dns_parser::Packet::parse` reads from a payload, with each name as
/// the text that its `to_string` gives, or `None` where the parsing fails.
pub uninterp spec fn dns_wire(payload: Seq<u8>) -> Option<WireMessageView>;

/// Calls `etherparse::SlicedPacket::from_ethernet` and copies out the
/// addresses of the IP header (each as the number that `u32::from` or
/// `u128::from` gives), the ports of a UDP header and the payload. The
/// contract claims only that the outcome is a function of the frame's bytes:
/// the layers that [`ethernet_layers`] names, and none where the slicing
/// fails.
#[verifier::external_body]
fn slice_ethernet<'a>(frame: &'a [u8]) -> (r: Option<Layers<'a>>)
    ensures
        match r {
            Some(layers) => ethernet_layers(frame@) == Some(layers@),
            None => ethernet_layers(frame@) is None,
        },
{
    let p = SlicedPacket::from_ethernet(frame).ok()?;
    let addresses = p.ip.map(|ip| match ip {
        InternetSlice::Ipv4(h) => (IpAddress::V4(h.source_addr().into()), IpAddress::V4(h.destination_addr().into())),
        InternetSlice::Ipv6(h, _) => (IpAddress::V6(h.source_addr().into()), IpAddress::V6(h.destination_addr().into())),
    });
    let transport = p.transport.map(|t| match t {
        TransportSlice::Udp(u) => Transport::Udp { source_port: u.source_port(), destination_port: u.destination_port() },
        TransportSlice::Tcp(_) => Transport::Tcp,
    });
    Some(Layers { addresses, transport, payload: p.payload })
}

/// Calls `dns_parser::Packet::parse` and hands on the header's id and query
/// flag, the questions and the answer records: each name as the text that
/// its `to_string` gives, each type and class as the number of its variant,
/// each record's data as it is. The contract claims only that the outcome is
/// a function of the payload's bytes: what [`dns_wire`] names, and nothing
/// where the parsing fails.
#[verifier::external_body]
fn parse_dns<'a>(payload: &'a [u8]) -> (r: Option<WireMessage<'a>>)
    ensures
        match r {
            Some(wire) => dns_wire(payload@) == Some(wire@),
            None => dns_wire(payload@) is None,
        },
{
    let p = dns_parser::Packet::parse(payload).ok()?;
    let questions = p.questions.iter()
        .map(|q| WireQuestion { name: q.qname.to_string(), type_code: q.qtype as u16, class_code: q.qclass as u16 })
        .collect();
    let answers = p.answers.into_iter()
        .map(|a| WireRecord { name: a.name.to_string(), ttl: a.ttl, class_code: a.cls as u16, data: a.data })
        .collect();
    Some(WireMessage { id: p.header.id, query: p.header.query, questions, answers })
}

/// A decoded frame: a DNS message with the UDP endpoints it travelled
/// between and the time of its capture.
#[derive(Debug)]
pub struct Packet {
    source: Endpoint,
    destination: Endpoint,
    message: DnsMessage,
    timestamp: u64,
}

/// What a [`Packet`] holds.
pub struct PacketView {
    pub source: Endpoint,
    pub destination: Endpoint,
    pub message: DnsMessageView,
    pub timestamp: u64,
}

impl PacketView {
    /// The identifier of the exchange that the packet belongs to.
    pub open spec fn id(self) -> DnsRequestId {
        DnsRequestId::make(
            self.source.address,
            self.source.port,
            self.destination.address,
            self.destination.port,
            self.message.id,
        )
    }

    /// The body of the packet: the questions of a query, the answer records
    /// of a response, each with the packet's timestamp.
    pub open spec fn body(self) -> DnsBodyView {
        if self.message.query {
            DnsBodyView::Query(
                DnsQueryView { timestamp: self.timestamp, questions: self.message.questions },
            )
        } else {
            DnsBodyView::Answer(
                DnsAnswerView { timestamp: self.timestamp, records: self.message.answers },
            )
        }
    }
}

impl View for Packet {
    type V = PacketView;

    closed spec fn view(&self) -> PacketView {
        PacketView {
            source: self.source,
            destination: self.destination,
            message: self.message@,
            timestamp: self.timestamp,
        }
    }
}

/// The UDP endpoints of a frame's layers, or the reason why it has none.
pub open spec fn udp_flow_of(layers: LayersView) -> Result<(Endpoint, Endpoint), Error> {
    match layers.addresses {
        None => Err(Error::NoIpLayer),
        Some((source, destination)) => match layers.transport {
            None => Err(Error::NoTransportLayer),
            Some(Transport::Tcp) => Err(Error::NotUdp),
            Some(Transport::Udp { source_port, destination_port }) => Ok(
                (
                    Endpoint { address: source, port: source_port },
                    Endpoint { address: destination, port: destination_port },
                ),
            ),
        },
    }
}

/// What decoding a frame captured at `timestamp` gives: the packet, or the
/// first layer at which decoding fails.
pub open spec fn decoded(frame: Seq<u8>, timestamp: u64) -> Result<PacketView, Error> {
    match ethernet_layers(frame) {
        None => Err(Error::PacketParse),
        Some(layers) => match udp_flow_of(layers) {
            Err(e) => Err(e),
            Ok((source, destination)) => match dns_wire(layers.payload) {
                None => Err(Error::DnsParse),
                Some(wire) => Ok(
                    PacketView { source, destination, message: message_of(wire), timestamp },
                ),
            },
        },
    }
}

impl LayersView {
    /// Whether the layers are those of a UDP datagram in an IP packet.
    pub open spec fn carries_udp(self) -> bool {
        self.addresses is Some && self.transport is Some && self.transport->0 is Udp
    }
}

/// Only DNS over UDP over IP over Ethernet decodes: a frame gives a packet
/// exactly where its layers are those of a UDP datagram in an IP packet and
/// its payload is a DNS message. Every other frame gives the error of the
/// first layer that fails: the frame itself, the IP layer, the transport
/// layer (none, or TCP), the DNS payload.
pub proof fn lemma_decode_strict(frame: Seq<u8>, timestamp: u64)
    ensures
        match ethernet_layers(frame) {
            None => decoded(frame, timestamp) == Err::<PacketView, Error>(Error::PacketParse),
            Some(layers) => {
                &&& layers.addresses is None ==> decoded(frame, timestamp) == Err::<
                    PacketView,
                    Error,
                >(Error::NoIpLayer)
                &&& layers.addresses is Some && layers.transport is None ==> decoded(
                    frame,
                    timestamp,
                ) == Err::<PacketView, Error>(Error::NoTransportLayer)
                &&& layers.addresses is Some && layers.transport == Some(Transport::Tcp)
                    ==> decoded(frame, timestamp) == Err::<PacketView, Error>(Error::NotUdp)
                &&& layers.carries_udp() && dns_wire(layers.payload) is None ==> decoded(
                    frame,
                    timestamp,
                ) == Err::<PacketView, Error>(Error::DnsParse)
                &&& decoded(frame, timestamp) is Ok <==> layers.carries_udp() && dns_wire(
                    layers.payload,
                ) is Some
            },
        },
{
}

impl Packet {
    /// Decodes a frame that starts with an Ethernet II header and was
    /// captured at `timestamp`.
    pub fn new(payload: &[u8], timestamp: u64) -> (r: Result<Packet, Error>)
        ensures
            match decoded(payload@, timestamp) {
                Ok(view) => r matches Ok(packet) && packet@ == view,
                Err(e) => r matches Err(f) && f == e,
            },
    {
        let layers = match slice_ethernet(payload) {
            Some(layers) => layers,
            None => return Err(Error::PacketParse),
        };
        let (source, destination) = match Packet::udp_flow(&layers) {
            Ok(flow) => flow,
            Err(e) => return Err(e),
        };
        let wire = match parse_dns(layers.payload) {
            Some(wire) => wire,
            None => return Err(Error::DnsParse),
        };
        Ok(Packet::assemble(source, destination, DnsMessage::from_wire(wire), timestamp))
    }

    /// Picks the UDP endpoints out of a frame's layers.
    pub fn udp_flow(layers: &Layers) -> (r: Result<(Endpoint, Endpoint), Error>)
        ensures
            r == udp_flow_of(layers@),
    {
        let (source, destination) = match layers.addresses {
            Some(addresses) => addresses,
            None => return Err(Error::NoIpLayer),
        };
        match layers.transport {
            None => Err(Error::NoTransportLayer),
            Some(Transport::Tcp) => Err(Error::NotUdp),
            Some(Transport::Udp { source_port, destination_port }) => Ok(
                (
                    Endpoint { address: source, port: source_port },
                    Endpoint { address: destination, port: destination_port },
                ),
            ),
        }
    }

    /// The packet that carried `message` from `source` to `destination` and
    /// was captured at `timestamp`.
    pub fn assemble(source: Endpoint, destination: Endpoint, message: DnsMessage, timestamp: u64) -> (packet: Packet)
        ensures
            packet@ == (PacketView { source, destination, message: message@, timestamp }),
    {
        Packet { source, destination, message, timestamp }
    }

    /// The identifier of the exchange that the packet belongs to.
    pub fn id(&self) -> (id: DnsRequestId)
        ensures
            id == self@.id(),
    {
        DnsRequestId::new(
            self.source.address,
            self.source.port,
            self.destination.address,
            self.destination.port,
            self.message.id,
        )
    }

    /// Whether the packet carries a query (and not a response).
    pub fn is_query(&self) -> (r: bool)
        ensures
            r == self@.message.query,
    {
        self.message.query
    }

    /// The time of capture, in nanoseconds since the Unix epoch.
    pub fn timestamp(&self) -> (r: u64)
        ensures
            r == self@.timestamp,
    {
        self.timestamp
    }

    /// Takes the packet apart for its body.
    pub fn body(self) -> (body: DnsBody)
        ensures
            body@ == self@.body(),
    {
        if self.message.query {
            DnsBody::Query(DnsQuery { timestamp: self.timestamp, questions: self.message.questions })
        } else {
            DnsBody::Answer(DnsAnswer { timestamp: self.timestamp, records: self.message.answers })
        }
    }
}

} // verus!
