//! Reply frames sent by the server: the method selection that answers a
//! greeting, the failure reply and the success reply that answer a request.

use crate::address::{IpAddress, SocketAddress, ATYP_IPV4, ATYP_IPV6};
use crate::wire::{append_bytes, be_bytes, write_u16};
use vstd::prelude::*;

verus! {

/// The protocol version carried in the first byte of every frame.
pub const SOCKS_VERSION: u8 = 0x05;

/// The reasons for which a request is refused. Each has a non-zero code on
/// the wire; the code zero announces success and is never a `Reply`.
#[derive(Clone, Copy, Debug, PartialEq, Eq, Structural)]
pub enum Reply {
    SocksFailure,
    ConnectionNotAllowed,
    NetworkUnreachable,
    ConnectionRefused,
    TtlExpired,
    CommandNotSupported,
    AddressNotSupported,
}

impl Reply {
    /// The code of this reply on the wire.
    pub open spec fn code(self) -> u8 {
        match self {
            Reply::SocksFailure => 0x01,
            Reply::ConnectionNotAllowed => 0x02,
            Reply::NetworkUnreachable => 0x03,
            Reply::ConnectionRefused => 0x04,
            Reply::TtlExpired => 0x05,
            Reply::CommandNotSupported => 0x07,
            Reply::AddressNotSupported => 0x08,
        }
    }

    /// The failure frame of this reply: version, code, a reserved zero, the
    /// IPv4 address type, the address 0.0.0.0 and the port 0.
    pub open spec fn failure_frame(self) -> Seq<u8> {
        seq![SOCKS_VERSION, self.code(), 0x00, ATYP_IPV4, 0, 0, 0, 0, 0, 0]
    }

    pub fn as_u8(&self) -> (code: u8)
        ensures
            code == self.code(),
            code != 0,
    {
        match self {
            Reply::SocksFailure => 0x01,
            Reply::ConnectionNotAllowed => 0x02,
            Reply::NetworkUnreachable => 0x03,
            Reply::ConnectionRefused => 0x04,
            Reply::TtlExpired => 0x05,
            Reply::CommandNotSupported => 0x07,
            Reply::AddressNotSupported => 0x08,
        }
    }

    /// The ten bytes to write to the client when a request fails.
    pub fn error_frame(&self) -> (frame: [u8; 10])
        ensures
            frame@ == self.failure_frame(),
    {
        let code = self.as_u8();
        let frame: [u8; 10] = [SOCKS_VERSION, code, 0x00, ATYP_IPV4, 0, 0, 0, 0, 0, 0];
        assert(frame@ =~= self.failure_frame());
        frame
    }
}

/// The method byte that selects "no authentication required".
pub const METHOD_NO_AUTH: u8 = 0x00;

/// The method byte that tells the client that none of its methods is
/// acceptable.
pub const METHOD_NONE_ACCEPTABLE: u8 = 0xff;

/// A frame that the server sends to the client.
#[derive(Clone, Copy, Debug, PartialEq, Eq)]
pub enum Frame {
    /// Answer to a greeting that offered "no authentication".
    MethodSelected,
    /// Answer to any other greeting.
    NoAcceptableMethod,
    /// Answer to a request that is refused.
    Failure(Reply),
    /// Answer to a request that was carried out; it names the local end of
    /// the outbound connection.
    Connected(SocketAddress),
}

impl Frame {
    /// The bytes of this frame on the wire.
    pub open spec fn bytes(self) -> Seq<u8> {
        match self {
            Frame::MethodSelected => seq![SOCKS_VERSION, METHOD_NO_AUTH],
            Frame::NoAcceptableMethod => seq![SOCKS_VERSION, METHOD_NONE_ACCEPTABLE],
            Frame::Failure(reply) => reply.failure_frame(),
            Frame::Connected(local) => seq![SOCKS_VERSION, 0x00, 0x00, local.ip.address_type()]
                + local.ip.octets() + be_bytes(local.port),
        }
    }

    /// Serialises the frame.
    pub fn to_bytes(&self) -> (out: Vec<u8>)
        ensures
            out@ == self.bytes(),
    {
        match self {
            Frame::MethodSelected => vec![SOCKS_VERSION, METHOD_NO_AUTH],
            Frame::NoAcceptableMethod => vec![SOCKS_VERSION, METHOD_NONE_ACCEPTABLE],
            Frame::Failure(reply) => {
                let frame = reply.error_frame();
                let mut out: Vec<u8> = Vec::new();
                append_bytes(&mut out, frame.as_slice());
                assert(out@ =~= reply.failure_frame());
                out
            },
            Frame::Connected(local) => {
                let mut out: Vec<u8> = Vec::new();
                out.push(SOCKS_VERSION);
                out.push(0x00);
                out.push(0x00);
                match &local.ip {
                    IpAddress::V4(octets) => {
                        out.push(ATYP_IPV4);
                        append_bytes(&mut out, octets.as_slice());
                    },
                    IpAddress::V6(octets) => {
                        out.push(ATYP_IPV6);
                        append_bytes(&mut out, octets.as_slice());
                    },
                }
                let mut port: [u8; 2] = [0, 0];
                write_u16(&mut port, local.port);
                append_bytes(&mut out, port.as_slice());
                assert(out@ =~= self.bytes());
                out
            },
        }
    }
}

/// Every failure reply is ten bytes: `05`, the reply's code, which is not
/// zero, `00`, `01`, and six zero bytes for the address 0.0.0.0 and the
/// port 0.
pub proof fn lemma_failure_frame_shape(reply: Reply)
    ensures
        Frame::Failure(reply).bytes().len() == 10,
        Frame::Failure(reply).bytes() == seq![
            0x05u8,
            reply.code(),
            0x00u8,
            0x01u8,
            0x00u8,
            0x00u8,
            0x00u8,
            0x00u8,
            0x00u8,
            0x00u8,
        ],
        reply.code() != 0,
{
}

} // verus!
