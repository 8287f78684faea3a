//! The request frame, in which a client names the destination it wants to
//! reach.

use crate::address::{Address, AddressView, IpAddress, Request, RequestView};
use crate::address::{ATYP_DOMAIN, ATYP_IPV4, ATYP_IPV6};
use crate::reply::{Reply, SOCKS_VERSION};
use crate::wire::{append_bytes, be_bytes, be_u16, read_u16, write_u16, Decoded};
use crate::wire::{lemma_be_bytes_of_be_u16, lemma_be_u16_of_be_bytes};
use vstd::prelude::*;
use vstd::slice::{slice_subrange, slice_to_vec};
use vstd::utf8::{decode_utf8, encode_utf8, valid_utf8};

verus! {

/// The command byte of a request to open a TCP connection, the only command
/// that is served.
pub const CMD_CONNECT: u8 = 0x01;

/// The server's verdict on a request frame.
#[derive(Debug, PartialEq, Eq)]
pub enum RequestVerdict {
    /// A well-formed request to connect.
    Connect(Request),
    /// A frame that is answered with a failure reply.
    Rejected(Reply),
    /// A frame with an address type that is not known. The length of its
    /// address cannot be told, and it gets no answer.
    BadAddressType,
}

/// What a `RequestVerdict` is in contracts.
pub enum RequestVerdictView {
    Connect(RequestView),
    Rejected(Reply),
    BadAddressType,
}

impl View for RequestVerdict {
    type V = RequestVerdictView;

    open spec fn view(&self) -> RequestVerdictView {
        match self {
            RequestVerdict::Connect(request) => RequestVerdictView::Connect(request@),
            RequestVerdict::Rejected(reply) => RequestVerdictView::Rejected(*reply),
            RequestVerdict::BadAddressType => RequestVerdictView::BadAddressType,
        }
    }
}

/// The IPv4 address whose four octets start at `at` in `buf`.
pub open spec fn ipv4_at(buf: Seq<u8>, at: int) -> IpAddress {
    IpAddress::V4([buf[at], buf[at + 1], buf[at + 2], buf[at + 3]])
}

/// The IPv6 address whose sixteen octets start at `at` in `buf`.
pub open spec fn ipv6_at(buf: Seq<u8>, at: int) -> IpAddress {
    IpAddress::V6(
        [
            buf[at],
            buf[at + 1],
            buf[at + 2],
            buf[at + 3],
            buf[at + 4],
            buf[at + 5],
            buf[at + 6],
            buf[at + 7],
            buf[at + 8],
            buf[at + 9],
            buf[at + 10],
            buf[at + 11],
            buf[at + 12],
            buf[at + 13],
            buf[at + 14],
            buf[at + 15],
        ],
    )
}

/// The verdict on the bytes `buf` received from a client whose greeting was
/// accepted.
///
/// The header is four bytes: version, command, a reserved byte that is not
/// looked at, and the address type. A wrong version and a command other than
/// `CMD_CONNECT` are rejected on the header alone, in that order. The address
/// follows, four octets, sixteen octets or a length byte and a name, and then
/// the port in network byte order. A name that is not UTF-8 is rejected once
/// the frame is complete.
pub open spec fn request_outcome(buf: Seq<u8>) -> Decoded<RequestVerdictView> {
    if buf.len() < 4 {
        Decoded::NeedMore(4)
    } else if buf[0] != SOCKS_VERSION {
        Decoded::Ready(RequestVerdictView::Rejected(Reply::SocksFailure))
    } else if buf[1] != CMD_CONNECT {
        Decoded::Ready(RequestVerdictView::Rejected(Reply::CommandNotSupported))
    } else if buf[3] == ATYP_IPV4 {
        if buf.len() < 10 {
            Decoded::NeedMore(10)
        } else {
            Decoded::Ready(
                RequestVerdictView::Connect(
                    RequestView {
                        address: AddressView::IpAddr(ipv4_at(buf, 4)),
                        dport: be_u16(buf[8], buf[9]),
                    },
                ),
            )
        }
    } else if buf[3] == ATYP_IPV6 {
        if buf.len() < 22 {
            Decoded::NeedMore(22)
        } else {
            Decoded::Ready(
                RequestVerdictView::Connect(
                    RequestView {
                        address: AddressView::IpAddr(ipv6_at(buf, 4)),
                        dport: be_u16(buf[20], buf[21]),
                    },
                ),
            )
        }
    } else if buf[3] == ATYP_DOMAIN {
        if buf.len() < 5 {
            Decoded::NeedMore(5)
        } else if buf.len() < 7 + buf[4] {
            Decoded::NeedMore((7 + buf[4]) as usize)
        } else {
            let name = buf.subrange(5, 5 + buf[4]);
            if valid_utf8(name) {
                Decoded::Ready(
                    RequestVerdictView::Connect(
                        RequestView {
                            address: AddressView::DomainName(decode_utf8(name)),
                            dport: be_u16(buf[5 + buf[4]], buf[6 + buf[4]]),
                        },
                    ),
                )
            } else {
                Decoded::Ready(RequestVerdictView::Rejected(Reply::AddressNotSupported))
            }
        }
    } else {
        Decoded::Ready(RequestVerdictView::BadAddressType)
    }
}

/// `String::from_utf8`: gives the string that `bytes` encode, and nothing
/// when they are not valid UTF-8.
#[verifier::external_body]
fn string_from_utf8(bytes: Vec<u8>) -> (text: Option<String>)
    ensures
        text is Some <==> valid_utf8(bytes@),
        text matches Some(s) ==> s@ == decode_utf8(bytes@),
{
    match String::from_utf8(bytes) {
        Ok(s) => Some(s),
        Err(_) => None,
    }
}

/// Decodes the request frame at the start of `buf`. Bytes beyond the frame
/// are not looked at.
pub fn decode_request(buf: &[u8]) -> (outcome: Decoded<RequestVerdict>)
    ensures
        outcome@ == request_outcome(buf@),
{
    if buf.len() < 4 {
        return Decoded::NeedMore(4);
    }
    if buf[0] != SOCKS_VERSION {
        return Decoded::Ready(RequestVerdict::Rejected(Reply::SocksFailure));
    }
    if buf[1] != CMD_CONNECT {
        return Decoded::Ready(RequestVerdict::Rejected(Reply::CommandNotSupported));
    }
    let address_type = buf[3];
    if address_type == ATYP_IPV4 {
        if buf.len() < 10 {
            return Decoded::NeedMore(10);
        }
        let ip = IpAddress::V4([buf[4], buf[5], buf[6], buf[7]]);
        let dport = read_u16(slice_subrange(buf, 8, 10));
        Decoded::Ready(RequestVerdict::Connect(Request { address: Address::IpAddr(ip), dport }))
    } else if address_type == ATYP_IPV6 {
        if buf.len() < 22 {
            return Decoded::NeedMore(22);
        }
        let ip = IpAddress::V6(
            [
                buf[4],
                buf[5],
                buf[6],
                buf[7],
                buf[8],
                buf[9],
                buf[10],
                buf[11],
                buf[12],
                buf[13],
                buf[14],
                buf[15],
                buf[16],
                buf[17],
                buf[18],
                buf[19],
            ],
        );
        let dport = read_u16(slice_subrange(buf, 20, 22));
        Decoded::Ready(RequestVerdict::Connect(Request { address: Address::IpAddr(ip), dport }))
    } else if address_type == ATYP_DOMAIN {
        if buf.len() < 5 {
            return Decoded::NeedMore(5);
        }
        let len: usize = buf[4] as usize;
        if buf.len() < 7 + len {
            return Decoded::NeedMore(7 + len);
        }
        let name = slice_to_vec(slice_subrange(buf, 5, 5 + len));
        match string_from_utf8(name) {
            Some(name) => {
                let dport = read_u16(slice_subrange(buf, 5 + len, 7 + len));
                Decoded::Ready(
                    RequestVerdict::Connect(Request { address: Address::DomainName(name), dport }),
                )
            },
            None => Decoded::Ready(RequestVerdict::Rejected(Reply::AddressNotSupported)),
        }
    } else {
        Decoded::Ready(RequestVerdict::BadAddressType)
    }
}

/// The decoder asks for more bytes than it was given, and never for more
/// than the longest request frame has.
pub proof fn lemma_request_needs_more(buf: Seq<u8>, total: usize)
    requires
        request_outcome(buf) == Decoded::<RequestVerdictView>::NeedMore(total),
    ensures
        buf.len() < total <= 7 + MAX_DOMAIN_LEN,
{
}

/// Once the verdict is reached, bytes that follow do not change it.
pub proof fn lemma_request_verdict_stands(buf: Seq<u8>, more: Seq<u8>)
    requires
        request_outcome(buf) is Ready,
    ensures
        request_outcome(buf + more) == request_outcome(buf),
{
    broadcast use vstd::array::group_array_axioms;

    let longer = buf + more;
    assert(forall|i: int| 0 <= i < buf.len() ==> longer[i] == buf[i]);
    if buf[0] == SOCKS_VERSION && buf[1] == CMD_CONNECT {
        if buf[3] == ATYP_IPV4 {
            assert(ipv4_at(longer, 4)->V4_0 =~= ipv4_at(buf, 4)->V4_0);
        } else if buf[3] == ATYP_IPV6 {
            assert(ipv6_at(longer, 4)->V6_0 =~= ipv6_at(buf, 4)->V6_0);
        } else if buf[3] == ATYP_DOMAIN {
            assert(longer.subrange(5, 5 + buf[4]) =~= buf.subrange(5, 5 + buf[4]));
        }
    }
}

/// The longest domain name, in bytes, that the one length byte can announce.
pub const MAX_DOMAIN_LEN: usize = 255;

/// Whether `request` can be put on the wire: a domain name must fit the
/// length byte.
pub open spec fn encodable(request: RequestView) -> bool {
    request.address matches AddressView::DomainName(name) ==> encode_utf8(name).len()
        <= MAX_DOMAIN_LEN
}

/// The address type and the address, as a request frame carries them.
pub open spec fn address_bytes(address: AddressView) -> Seq<u8> {
    match address {
        AddressView::IpAddr(ip) => seq![ip.address_type()] + ip.octets(),
        AddressView::DomainName(name) => seq![ATYP_DOMAIN, encode_utf8(name).len() as u8]
            + encode_utf8(name),
    }
}

/// The frame that asks to connect to `request`: version, `CMD_CONNECT`, a
/// reserved zero, the address and the port in network byte order.
pub open spec fn request_frame(request: RequestView) -> Seq<u8> {
    seq![SOCKS_VERSION, CMD_CONNECT, 0x00] + address_bytes(request.address) + be_bytes(
        request.dport,
    )
}

impl Request {
    /// Serialises the request as a client sends it. There is no frame for a
    /// domain name longer than `MAX_DOMAIN_LEN` bytes.
    pub fn to_bytes(&self) -> (frame: Option<Vec<u8>>)
        ensures
            frame is Some <==> encodable(self@),
            frame matches Some(bytes) ==> bytes@ == request_frame(self@),
    {
        let mut out: Vec<u8> = Vec::new();
        out.push(SOCKS_VERSION);
        out.push(CMD_CONNECT);
        out.push(0x00);
        match &self.address {
            Address::IpAddr(IpAddress::V4(octets)) => {
                out.push(ATYP_IPV4);
                append_bytes(&mut out, octets.as_slice());
            },
            Address::IpAddr(IpAddress::V6(octets)) => {
                out.push(ATYP_IPV6);
                append_bytes(&mut out, octets.as_slice());
            },
            Address::DomainName(name) => {
                let bytes = name.as_str().as_bytes();
                if bytes.len() > MAX_DOMAIN_LEN {
                    return None;
                }
                out.push(ATYP_DOMAIN);
                out.push(bytes.len() as u8);
                append_bytes(&mut out, bytes);
            },
        }
        let mut port: [u8; 2] = [0, 0];
        write_u16(&mut port, self.dport);
        append_bytes(&mut out, port.as_slice());
        assert(out@ =~= request_frame(self@));
        Some(out)
    }
}

/// A frame that decodes to a request is that request's own frame, but for
/// the reserved byte, which the decoder does not look at and the encoder
/// writes as zero.
pub proof fn lemma_decoded_request_reencodes(buf: Seq<u8>, request: RequestView)
    requires
        request_outcome(buf) == Decoded::Ready(RequestVerdictView::Connect(request)),
    ensures
        encodable(request),
        request_frame(request).len() <= buf.len(),
        request_frame(request) == buf.subrange(0, request_frame(request).len() as int).update(
            2,
            0x00,
        ),
{
    broadcast use vstd::array::group_array_axioms;

    let frame = request_frame(request);
    if buf[3] == ATYP_IPV4 {
        lemma_be_bytes_of_be_u16(buf[8], buf[9]);
        assert(ipv4_at(buf, 4).octets() =~= buf.subrange(4, 8));
        assert(frame =~= buf.subrange(0, 10).update(2, 0x00));
    } else if buf[3] == ATYP_IPV6 {
        lemma_be_bytes_of_be_u16(buf[20], buf[21]);
        assert(ipv6_at(buf, 4).octets() =~= buf.subrange(4, 20));
        assert(frame =~= buf.subrange(0, 22).update(2, 0x00));
    } else {
        let len = buf[4] as int;
        let name = buf.subrange(5, 5 + len);
        vstd::utf8::decode_utf8_encode_utf8(name);
        lemma_be_bytes_of_be_u16(buf[5 + len], buf[6 + len]);
        assert(encode_utf8(decode_utf8(name)) == name);
        assert(frame =~= buf.subrange(0, 7 + len).update(2, 0x00));
    }
}

/// The frame of a request that can be put on the wire decodes to that
/// request.
pub proof fn lemma_request_frame_decodes(request: RequestView)
    requires
        encodable(request),
    ensures
        request_outcome(request_frame(request)) == Decoded::Ready(
            RequestVerdictView::Connect(request),
        ),
{
    broadcast use vstd::array::group_array_axioms;

    let frame = request_frame(request);
    lemma_be_u16_of_be_bytes(request.dport);
    match request.address {
        AddressView::IpAddr(IpAddress::V4(octets)) => {
            assert(frame.len() == 10);
            assert(frame.subrange(4, 8) =~= octets@);
            assert(ipv4_at(frame, 4)->V4_0 =~= octets);
        },
        AddressView::IpAddr(IpAddress::V6(octets)) => {
            assert(frame.len() == 22);
            assert(frame.subrange(4, 20) =~= octets@);
            assert(ipv6_at(frame, 4)->V6_0 =~= octets);
        },
        AddressView::DomainName(name) => {
            let bytes = encode_utf8(name);
            vstd::utf8::encode_utf8_valid_utf8(name);
            vstd::utf8::encode_utf8_decode_utf8(name);
            assert(frame.len() == 7 + bytes.len());
            assert(frame[4] == bytes.len());
            assert(frame.subrange(5, 5 + frame[4]) =~= bytes);
        },
    }
}

} // verus!
