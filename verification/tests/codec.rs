use socks5_gateway::address::{Address, IpAddress, Request, SocketAddress};
use socks5_gateway::greeting::{decode_greeting, Greeting};
use socks5_gateway::wire::Decoded;
use socks5_gateway::reply::{Frame, Reply};
use socks5_gateway::request::{decode_request, RequestVerdict};

fn connect_to(address: Address, dport: u16) -> Decoded<RequestVerdict> {
    Decoded::Ready(RequestVerdict::Connect(Request { address, dport }))
}

#[test]
fn greeting_offering_no_auth_is_accepted() {
    assert_eq!(decode_greeting(&[0x05, 0x01, 0x00]), Decoded::Ready(Greeting::Accepted));
    assert_eq!(
        decode_greeting(&[0x05, 0x03, 0x02, 0x01, 0x00]),
        Decoded::Ready(Greeting::Accepted)
    );
}

#[test]
fn greeting_without_no_auth_is_refused() {
    assert_eq!(decode_greeting(&[0x05, 0x02, 0x01, 0x02]), Decoded::Ready(Greeting::Refused));
}

#[test]
fn greeting_is_awaited_in_two_steps() {
    assert_eq!(decode_greeting(&[]), Decoded::NeedMore(2));
    assert_eq!(decode_greeting(&[0x05]), Decoded::NeedMore(2));
    assert_eq!(decode_greeting(&[0x05, 0x02]), Decoded::NeedMore(4));
    assert_eq!(decode_greeting(&[0x05, 0x02, 0x00]), Decoded::NeedMore(4));
    assert_eq!(decode_greeting(&[0x05, 0xfe]), Decoded::NeedMore(256));
}

#[test]
fn greeting_with_wrong_version_is_refused_on_the_header() {
    assert_eq!(decode_greeting(&[0x04, 0x01]), Decoded::Ready(Greeting::Refused));
    assert_eq!(decode_greeting(&[0x04, 0x01, 0x00]), Decoded::Ready(Greeting::Refused));
}

#[test]
fn greeting_with_too_many_methods_is_refused_on_the_header() {
    assert_eq!(decode_greeting(&[0x05, 0xff]), Decoded::Ready(Greeting::Refused));
}

#[test]
fn greeting_with_no_methods_is_refused() {
    assert_eq!(decode_greeting(&[0x05, 0x00]), Decoded::Ready(Greeting::Refused));
}

#[test]
fn greeting_with_the_most_methods_is_searched_to_the_end() {
    let mut frame = vec![0x05u8, 0xfe];
    frame.extend(std::iter::repeat(0x02u8).take(253));
    frame.push(0x00);
    assert_eq!(frame.len(), 256);
    assert_eq!(decode_greeting(&frame), Decoded::Ready(Greeting::Accepted));
    frame[255] = 0x01;
    assert_eq!(decode_greeting(&frame), Decoded::Ready(Greeting::Refused));
}

#[test]
fn greeting_ignores_bytes_after_the_methods() {
    assert_eq!(decode_greeting(&[0x05, 0x01, 0x02, 0x00]), Decoded::Ready(Greeting::Refused));
}

#[test]
fn method_selection_frames() {
    assert_eq!(Frame::MethodSelected.to_bytes(), vec![0x05, 0x00]);
    assert_eq!(Frame::NoAcceptableMethod.to_bytes(), vec![0x05, 0xff]);
}

#[test]
fn reply_codes() {
    assert_eq!(Reply::SocksFailure.as_u8(), 0x01);
    assert_eq!(Reply::ConnectionNotAllowed.as_u8(), 0x02);
    assert_eq!(Reply::NetworkUnreachable.as_u8(), 0x03);
    assert_eq!(Reply::ConnectionRefused.as_u8(), 0x04);
    assert_eq!(Reply::TtlExpired.as_u8(), 0x05);
    assert_eq!(Reply::CommandNotSupported.as_u8(), 0x07);
    assert_eq!(Reply::AddressNotSupported.as_u8(), 0x08);
}

#[test]
fn failure_frames_follow_the_template() {
    let replies = [
        Reply::SocksFailure,
        Reply::ConnectionNotAllowed,
        Reply::NetworkUnreachable,
        Reply::ConnectionRefused,
        Reply::TtlExpired,
        Reply::CommandNotSupported,
        Reply::AddressNotSupported,
    ];
    for reply in replies {
        let code = reply.as_u8();
        assert_ne!(code, 0);
        assert_eq!(reply.error_frame(), [0x05, code, 0x00, 0x01, 0, 0, 0, 0, 0, 0]);
        assert_eq!(
            Frame::Failure(reply).to_bytes(),
            vec![0x05, code, 0x00, 0x01, 0, 0, 0, 0, 0, 0]
        );
    }
}

#[test]
fn success_frame_for_an_ipv4_socket() {
    let local = SocketAddress { ip: IpAddress::V4([127, 0, 0, 1]), port: 0xc350 };
    assert_eq!(
        Frame::Connected(local).to_bytes(),
        vec![0x05, 0x00, 0x00, 0x01, 0x7f, 0x00, 0x00, 0x01, 0xc3, 0x50]
    );
}

#[test]
fn success_frame_for_an_ipv6_socket() {
    let octets = [0x20, 0x01, 0x0d, 0xb8, 0, 0, 0, 0, 0, 0, 0, 0, 0, 0, 0, 0x01];
    let local = SocketAddress { ip: IpAddress::V6(octets), port: 443 };
    let mut expected = vec![0x05, 0x00, 0x00, 0x04];
    expected.extend_from_slice(&octets);
    expected.extend_from_slice(&[0x01, 0xbb]);
    assert_eq!(Frame::Connected(local).to_bytes(), expected);
}

#[test]
fn request_for_an_ipv4_address() {
    let frame = [0x05, 0x01, 0x00, 0x01, 0x7f, 0x00, 0x00, 0x01, 0x00, 0x09];
    assert_eq!(
        decode_request(&frame),
        connect_to(Address::IpAddr(IpAddress::V4([127, 0, 0, 1])), 9)
    );
}

#[test]
fn request_port_is_big_endian() {
    let frame = [0x05, 0x01, 0x00, 0x01, 0x0a, 0x00, 0x00, 0x01, 0x1f, 0x90];
    assert_eq!(
        decode_request(&frame),
        connect_to(Address::IpAddr(IpAddress::V4([10, 0, 0, 1])), 8080)
    );
}

#[test]
fn request_for_an_ipv6_address() {
    let octets = [0xfe, 0x80, 0, 0, 0, 0, 0, 0, 1, 2, 3, 4, 5, 6, 7, 8];
    let mut frame = vec![0x05, 0x01, 0x00, 0x04];
    frame.extend_from_slice(&octets);
    frame.extend_from_slice(&[0x01, 0xbb]);
    assert_eq!(decode_request(&frame), connect_to(Address::IpAddr(IpAddress::V6(octets)), 443));
}

#[test]
fn request_for_a_domain_name() {
    let mut frame = vec![0x05, 0x01, 0x00, 0x03, 0x0f];
    frame.extend_from_slice(b"example.invalid");
    frame.extend_from_slice(&[0x00, 0x50]);
    assert_eq!(
        decode_request(&frame),
        connect_to(Address::DomainName(String::from("example.invalid")), 80)
    );
}

#[test]
fn request_for_a_domain_name_outside_ascii() {
    let name = "b\u{fc}cher.example";
    let mut frame = vec![0x05, 0x01, 0x00, 0x03, name.len() as u8];
    frame.extend_from_slice(name.as_bytes());
    frame.extend_from_slice(&[0x00, 0x50]);
    assert_eq!(decode_request(&frame), connect_to(Address::DomainName(String::from(name)), 80));
}

#[test]
fn request_for_an_empty_domain_name() {
    let frame = [0x05, 0x01, 0x00, 0x03, 0x00, 0x00, 0x50];
    assert_eq!(decode_request(&frame), connect_to(Address::DomainName(String::new()), 80));
}

#[test]
fn request_for_the_longest_domain_name() {
    let name = "a".repeat(255);
    let mut frame = vec![0x05, 0x01, 0x00, 0x03, 0xff];
    frame.extend_from_slice(name.as_bytes());
    assert_eq!(decode_request(&frame), Decoded::NeedMore(262));
    frame.extend_from_slice(&[0xff, 0xff]);
    assert_eq!(decode_request(&frame), connect_to(Address::DomainName(name), 65535));
}

#[test]
fn request_with_a_name_that_is_not_utf8_is_rejected() {
    let frame = [0x05, 0x01, 0x00, 0x03, 0x02, 0xc3, 0x28, 0x00, 0x50];
    assert_eq!(
        decode_request(&frame),
        Decoded::Ready(RequestVerdict::Rejected(Reply::AddressNotSupported))
    );
}

#[test]
fn request_is_awaited_step_by_step() {
    assert_eq!(decode_request(&[]), Decoded::NeedMore(4));
    assert_eq!(decode_request(&[0x05, 0x01, 0x00]), Decoded::NeedMore(4));
    assert_eq!(decode_request(&[0x05, 0x01, 0x00, 0x01]), Decoded::NeedMore(10));
    assert_eq!(decode_request(&[0x05, 0x01, 0x00, 0x01, 1, 2, 3, 4, 0]), Decoded::NeedMore(10));
    assert_eq!(decode_request(&[0x05, 0x01, 0x00, 0x04]), Decoded::NeedMore(22));
    assert_eq!(decode_request(&[0x05, 0x01, 0x00, 0x03]), Decoded::NeedMore(5));
    assert_eq!(decode_request(&[0x05, 0x01, 0x00, 0x03, 0x0f]), Decoded::NeedMore(22));
    assert_eq!(decode_request(&[0x05, 0x01, 0x00, 0x03, 0x00]), Decoded::NeedMore(7));
}

#[test]
fn request_with_wrong_version_is_a_general_failure() {
    assert_eq!(
        decode_request(&[0x04, 0x01, 0x00, 0x01]),
        Decoded::Ready(RequestVerdict::Rejected(Reply::SocksFailure))
    );
}

#[test]
fn request_with_wrong_version_and_command_reports_the_version() {
    assert_eq!(
        decode_request(&[0x04, 0x02, 0x00, 0x09]),
        Decoded::Ready(RequestVerdict::Rejected(Reply::SocksFailure))
    );
}

#[test]
fn request_to_bind_is_not_supported() {
    let frame = [0x05, 0x02, 0x00, 0x01, 0x7f, 0x00, 0x00, 0x01, 0x00, 0x09];
    assert_eq!(
        decode_request(&frame),
        Decoded::Ready(RequestVerdict::Rejected(Reply::CommandNotSupported))
    );
}

#[test]
fn request_for_udp_is_not_supported_whatever_the_address_type() {
    assert_eq!(
        decode_request(&[0x05, 0x03, 0x00, 0x09]),
        Decoded::Ready(RequestVerdict::Rejected(Reply::CommandNotSupported))
    );
}

#[test]
fn request_with_unknown_address_type() {
    assert_eq!(
        decode_request(&[0x05, 0x01, 0x00, 0x02]),
        Decoded::Ready(RequestVerdict::BadAddressType)
    );
    assert_eq!(
        decode_request(&[0x05, 0x01, 0x00, 0x00, 1, 2, 3, 4, 5, 6]),
        Decoded::Ready(RequestVerdict::BadAddressType)
    );
}

#[test]
fn request_reserved_byte_is_not_validated() {
    let frame = [0x05, 0x01, 0xaa, 0x01, 0x7f, 0x00, 0x00, 0x01, 0x00, 0x09];
    assert_eq!(
        decode_request(&frame),
        connect_to(Address::IpAddr(IpAddress::V4([127, 0, 0, 1])), 9)
    );
}

#[test]
fn request_ignores_bytes_after_the_frame() {
    let frame = [0x05, 0x01, 0x00, 0x01, 0x7f, 0x00, 0x00, 0x01, 0x00, 0x09, 0xde, 0xad];
    assert_eq!(
        decode_request(&frame),
        connect_to(Address::IpAddr(IpAddress::V4([127, 0, 0, 1])), 9)
    );
}

#[test]
fn request_frames_for_each_kind_of_address() {
    let v4 = Request { address: Address::IpAddr(IpAddress::V4([192, 0, 2, 5])), dport: 0x0102 };
    assert_eq!(
        v4.to_bytes(),
        Some(vec![0x05, 0x01, 0x00, 0x01, 192, 0, 2, 5, 0x01, 0x02])
    );
    let octets = [1, 2, 3, 4, 5, 6, 7, 8, 9, 10, 11, 12, 13, 14, 15, 16];
    let v6 = Request { address: Address::IpAddr(IpAddress::V6(octets)), dport: 80 };
    let mut expected = vec![0x05, 0x01, 0x00, 0x04];
    expected.extend_from_slice(&octets);
    expected.extend_from_slice(&[0x00, 0x50]);
    assert_eq!(v6.to_bytes(), Some(expected));
    let name = Request { address: Address::DomainName(String::from("a.example")), dport: 443 };
    let mut expected = vec![0x05, 0x01, 0x00, 0x03, 0x09];
    expected.extend_from_slice(b"a.example");
    expected.extend_from_slice(&[0x01, 0xbb]);
    assert_eq!(name.to_bytes(), Some(expected));
}

#[test]
fn request_with_an_overlong_name_has_no_frame() {
    let longest = Request { address: Address::DomainName("a".repeat(255)), dport: 1 };
    assert_eq!(longest.to_bytes().map(|frame| frame.len()), Some(262));
    let too_long = Request { address: Address::DomainName("a".repeat(256)), dport: 1 };
    assert_eq!(too_long.to_bytes(), None);
    let too_long_in_bytes = Request { address: Address::DomainName("\u{fc}".repeat(128)), dport: 1 };
    assert_eq!(too_long_in_bytes.to_bytes(), None);
}

#[test]
fn decoding_then_encoding_gives_the_frame_with_reserved_byte_zeroed() {
    let mut frames: Vec<Vec<u8>> = Vec::new();
    frames.push(vec![0x05, 0x01, 0x00, 0x01, 0x7f, 0x00, 0x00, 0x01, 0x00, 0x09]);
    frames.push(vec![0x05, 0x01, 0x7f, 0x01, 0x0a, 0x00, 0x00, 0x01, 0xff, 0xfe]);
    let mut v6 = vec![0x05, 0x01, 0x01, 0x04];
    v6.extend_from_slice(&[0xfe, 0x80, 0, 0, 0, 0, 0, 0, 1, 2, 3, 4, 5, 6, 7, 8]);
    v6.extend_from_slice(&[0x1f, 0x90]);
    frames.push(v6);
    let mut name = vec![0x05, 0x01, 0xff, 0x03, 0x0f];
    name.extend_from_slice(b"example.invalid");
    name.extend_from_slice(&[0x00, 0x50]);
    frames.push(name);
    frames.push(vec![0x05, 0x01, 0x00, 0x03, 0x00, 0x12, 0x34]);
    for frame in frames {
        let request = match decode_request(&frame) {
            Decoded::Ready(RequestVerdict::Connect(request)) => request,
            other => panic!("{:?} decoded to {:?}", frame, other),
        };
        let mut expected = frame.clone();
        expected[2] = 0x00;
        assert_eq!(request.to_bytes(), Some(expected));
    }
}

#[test]
fn encoding_then_decoding_gives_the_request() {
    let requests = vec![
        Request { address: Address::IpAddr(IpAddress::V4([0, 0, 0, 0])), dport: 0 },
        Request { address: Address::IpAddr(IpAddress::V6([0xff; 16])), dport: 65535 },
        Request { address: Address::DomainName(String::from("example.org")), dport: 8443 },
        Request { address: Address::DomainName(String::from("\u{65e5}\u{672c}.example")), dport: 1 },
    ];
    for request in requests {
        let frame = request.to_bytes().unwrap();
        assert_eq!(decode_request(&frame), Decoded::Ready(RequestVerdict::Connect(request)));
    }
}

#[test]
fn cloned_request_equals_its_source() {
    let request = Request { address: Address::DomainName(String::from("example.org")), dport: 7 };
    assert_eq!(request.clone(), request);
    let request = Request { address: Address::IpAddr(IpAddress::V4([1, 2, 3, 4])), dport: 7 };
    assert_eq!(request.clone(), request);
}
