//! The header of a DNS message and the fixed answer of the stub responder.

use vstd::prelude::*;

verus! {

/// The twelve-byte header that opens every DNS message.
#[derive(Clone, Copy, Debug, PartialEq, Eq)]
pub struct DnsHeader {
    pub id: u16,
    pub flags: u16,
    pub questions: u16,
    pub answer_rrs: u16,
    pub authority_rrs: u16,
    pub additional_rrs: u16,
}

/// The length of a header on the wire.
pub const HEADER_LEN: usize = 12;

/// The flags of a standard response with recursion available.
pub const RESPONSE_FLAGS: u16 = 0x8180;

/// A 16-bit number in network order: the high byte first.
pub open spec fn be16(x: u16) -> Seq<u8> {
    seq![(x / 256) as u8, (x % 256) as u8]
}

/// The 16-bit number that two bytes in network order stand for.
pub open spec fn from_be16(high: u8, low: u8) -> u16 {
    (high as int * 256 + low as int) as u16
}

/// What follows the header in every response: the question for the name
/// `localhost`, type A, class IN, and one answer that points back at the
/// name, with a time to live of one hour and the address 127.0.0.1.
pub open spec fn localhost_answer() -> Seq<u8> {
    seq![
        0x05u8, 0x6c, 0x6f, 0x63, 0x61, 0x6c, 0x68, 0x6f, 0x73, 0x74, 0x00,
        0x00, 0x01,
        0x00, 0x01,
        0xc0, 0x0c,
        0x00, 0x01,
        0x00, 0x01,
        0x00, 0x00, 0x0e, 0x10,
        0x00, 0x04,
        0x7f, 0x00, 0x00, 0x01,
    ]
}

impl DnsHeader {
    /// The header on the wire: its six fields in order, each in network order.
    pub open spec fn wire(self) -> Seq<u8> {
        be16(self.id) + be16(self.flags) + be16(self.questions) + be16(self.answer_rrs) + be16(
            self.authority_rrs,
        ) + be16(self.additional_rrs)
    }

    /// The header of the response to a query with this identifier and this
    /// number of questions: one answer, nothing else.
    pub open spec fn response(id: u16, questions: u16) -> DnsHeader {
        DnsHeader {
            id,
            flags: RESPONSE_FLAGS,
            questions,
            answer_rrs: 1,
            authority_rrs: 0,
            additional_rrs: 0,
        }
    }

    /// Writes the header as it goes over the wire.
    pub fn to_bytes(&self) -> (bytes: Vec<u8>)
        ensures
            bytes@ == self.wire(),
            bytes@.len() == HEADER_LEN,
    {
        let mut bytes: Vec<u8> = Vec::new();
        push_be16(&mut bytes, self.id);
        push_be16(&mut bytes, self.flags);
        push_be16(&mut bytes, self.questions);
        push_be16(&mut bytes, self.answer_rrs);
        push_be16(&mut bytes, self.authority_rrs);
        push_be16(&mut bytes, self.additional_rrs);
        assert(bytes@ =~= self.wire());
        bytes
    }
}

/// Appends a 16-bit number in network order.
fn push_be16(bytes: &mut Vec<u8>, x: u16)
    ensures
        final(bytes)@ == old(bytes)@ + be16(x),
{
    bytes.push((x / 256) as u8);
    bytes.push((x % 256) as u8);
    assert(bytes@ =~= old(bytes)@ + be16(x));
}

/// Reads a 16-bit number in network order.
fn read_be16(high: u8, low: u8) -> (x: u16)
    ensures
        x == from_be16(high, low),
        be16(x) == seq![high, low],
{
    let x: u16 = (high as u16) * 256 + (low as u16);
    assert(be16(x) =~= seq![high, low]);
    x
}

/// The response to `query`: none for a datagram too short to hold a header;
/// otherwise the response header, which repeats the identifier and the
/// number of questions of the query, followed by the fixed answer.
pub open spec fn response_for(query: Seq<u8>) -> Option<Seq<u8>> {
    if query.len() < HEADER_LEN {
        None
    } else {
        Some(
            DnsHeader::response(from_be16(query[0], query[1]), from_be16(query[4], query[5])).wire()
                + localhost_answer(),
        )
    }
}

/// Builds the response to one query datagram, if it deserves one.
pub fn respond(query: &[u8]) -> (response: Option<Vec<u8>>)
    ensures
        response.deep_view() == response_for(query@),
        response matches Some(bytes) ==> bytes@.len() == 43 && bytes@.subrange(0, 2)
            == query@.subrange(0, 2),
{
    if query.len() < HEADER_LEN {
        return None;
    }
    let id: u16 = read_be16(query[0], query[1]);
    let questions: u16 = read_be16(query[4], query[5]);
    let header = DnsHeader {
        id,
        flags: RESPONSE_FLAGS,
        questions,
        answer_rrs: 1,
        authority_rrs: 0,
        additional_rrs: 0,
    };
    let mut response: Vec<u8> = header.to_bytes();
    let mut answer: Vec<u8> = vec![
        0x05u8, 0x6c, 0x6f, 0x63, 0x61, 0x6c, 0x68, 0x6f, 0x73, 0x74, 0x00,
        0x00, 0x01,
        0x00, 0x01,
        0xc0, 0x0c,
        0x00, 0x01,
        0x00, 0x01,
        0x00, 0x00, 0x0e, 0x10,
        0x00, 0x04,
        0x7f, 0x00, 0x00, 0x01,
    ];
    assert(answer@ =~= localhost_answer());
    response.append(&mut answer);
    proof {
        assert(response@ =~= header.wire() + localhost_answer());
        assert(response@.subrange(0, 2) =~= query@.subrange(0, 2));
        assert(response.deep_view() =~= response@);
    }
    Some(response)
}

} // verus!
