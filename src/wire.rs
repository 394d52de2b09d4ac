//! The SOCKS5 wire codec: the greeting and the address request, decoded
//! incrementally from the bytes read so far, and the fixed replies.
use vstd::prelude::*;
use vstd::utf8::{decode_utf8, valid_utf8};
use crate::text::{format_ipv4, format_ipv6, ipv4_text, ipv6_text, utf8_to_string};

verus! {

/// The protocol version byte that opens every SOCKS5 message.
pub const SOCKS_VERSION: u8 = 0x05;
/// Request command: relay a TCP connection.
pub const CMD_TCP: u8 = 0x01;
/// Request command: relay UDP datagrams.
pub const CMD_UDP: u8 = 0x03;
/// Address type: four raw IPv4 bytes.
pub const ATYP_IPV4: u8 = 0x01;
/// Address type: a length byte, then that many bytes of a domain name.
pub const ATYP_DOMAIN: u8 = 0x03;
/// Address type: sixteen raw IPv6 bytes.
pub const ATYP_IPV6: u8 = 0x04;

/// The transport that a request asks the server to open towards the target.
#[derive(PartialEq, Eq, Structural, Clone, Copy, Debug)]
pub enum ConnectionType {
    TCP,
    UDP,
}

/// The form in which a request names its target.
#[derive(PartialEq, Eq, Structural, Clone, Copy, Debug)]
pub enum NameType {
    IPV4,
    IPV6,
    DOMAIN,
}

/// Why a byte stream is not an acceptable SOCKS5 handshake.
#[derive(PartialEq, Eq, Structural, Clone, Copy, Debug)]
pub enum Socks5Error {
    /// The first byte of a message is not the version byte.
    NotSocks5,
    /// The request's command byte is neither TCP nor UDP.
    InvalidCommand,
    /// The request's address type byte is not one of the three known tags.
    InvalidAddressType,
    /// The domain name bytes are not well-formed UTF-8.
    InvalidDomain,
    /// The session was fed after it had already resolved or failed.
    SessionOver,
}

/// A resolved target: how to connect, where, and on which port.
pub struct Socks5 {
    conn_type: ConnectionType,
    target: String,
    port: u16,
}

/// The mathematical content of a [`Socks5`].
pub struct Socks5View {
    pub conn_type: ConnectionType,
    pub target: Seq<char>,
    pub port: u16,
}

impl View for Socks5 {
    type V = Socks5View;

    closed spec fn view(&self) -> Socks5View {
        Socks5View { conn_type: self.conn_type, target: self.target@, port: self.port }
    }
}

impl Socks5 {
    pub fn new(conn_type: ConnectionType, target: String, port: u16) -> (r: Socks5)
        ensures
            r@ == (Socks5View { conn_type, target: target@, port }),
    {
        Socks5 { conn_type, target, port }
    }

    pub fn get_conn_type(&self) -> (r: ConnectionType)
        ensures
            r == self@.conn_type,
    {
        self.conn_type
    }

    pub fn get_target(&self) -> (r: String)
        ensures
            r@ == self@.target,
    {
        self.target.clone()
    }

    pub fn get_port(&self) -> (r: u16)
        ensures
            r == self@.port,
    {
        self.port
    }
}

/// Where an incremental decode stands on the bytes seen so far.
pub enum Decoded<T> {
    /// The message is not yet complete: this many bytes in all are needed
    /// before the decoder can go further.
    Need(usize),
    /// The bytes can never form an acceptable message.
    Malformed(Socks5Error),
    /// The message is complete.
    Complete(T),
}

impl<T: View> View for Decoded<T> {
    type V = Decoded<T::V>;

    open spec fn view(&self) -> Decoded<T::V> {
        match self {
            Decoded::Need(n) => Decoded::Need(*n),
            Decoded::Malformed(e) => Decoded::Malformed(*e),
            Decoded::Complete(t) => Decoded::Complete(t@),
        }
    }
}

/// The greeting `[version, nmethods, methods...]`: complete with its total
/// length once all offered methods have arrived. The methods themselves are
/// not evaluated.
pub open spec fn greeting_spec(b: Seq<u8>) -> Decoded<usize> {
    if b.len() < 2 {
        Decoded::Need(2)
    } else if b[0] != SOCKS_VERSION {
        Decoded::Malformed(Socks5Error::NotSocks5)
    } else if b.len() < 2 + b[1] {
        Decoded::Need((2 + b[1]) as usize)
    } else {
        Decoded::Complete((2 + b[1]) as usize)
    }
}

/// The connection type that a command byte stands for.
pub open spec fn command_spec(cmd: u8) -> Option<ConnectionType> {
    if cmd == CMD_TCP {
        Some(ConnectionType::TCP)
    } else if cmd == CMD_UDP {
        Some(ConnectionType::UDP)
    } else {
        None
    }
}

/// The name type that an address type byte stands for.
pub open spec fn address_type_spec(atyp: u8) -> Option<NameType> {
    if atyp == ATYP_IPV4 {
        Some(NameType::IPV4)
    } else if atyp == ATYP_DOMAIN {
        Some(NameType::DOMAIN)
    } else if atyp == ATYP_IPV6 {
        Some(NameType::IPV6)
    } else {
        None
    }
}

/// A big-endian port.
pub open spec fn port_spec(hi: u8, lo: u8) -> u16 {
    (hi as int * 256 + lo as int) as u16
}

/// The address request `[version, cmd, reserved, atyp, addr..., port_hi, port_lo]`.
/// The command and the address type are judged from the four-byte header
/// alone, before any address byte; a domain name is judged as soon as its
/// bytes have arrived, before the port.
pub open spec fn request_spec(b: Seq<u8>) -> Decoded<Socks5View> {
    if b.len() < 4 {
        Decoded::Need(4)
    } else if b[0] != SOCKS_VERSION {
        Decoded::Malformed(Socks5Error::NotSocks5)
    } else if command_spec(b[1]) is None {
        Decoded::Malformed(Socks5Error::InvalidCommand)
    } else if address_type_spec(b[3]) is None {
        Decoded::Malformed(Socks5Error::InvalidAddressType)
    } else {
        let conn_type = command_spec(b[1])->0;
        match address_type_spec(b[3])->0 {
            NameType::IPV4 => if b.len() < 10 {
                Decoded::Need(10)
            } else {
                Decoded::Complete(
                    Socks5View {
                        conn_type,
                        target: ipv4_text(b.subrange(4, 8)),
                        port: port_spec(b[8], b[9]),
                    },
                )
            },
            NameType::IPV6 => if b.len() < 22 {
                Decoded::Need(22)
            } else {
                Decoded::Complete(
                    Socks5View {
                        conn_type,
                        target: ipv6_text(b.subrange(4, 20)),
                        port: port_spec(b[20], b[21]),
                    },
                )
            },
            NameType::DOMAIN => if b.len() < 5 {
                Decoded::Need(5)
            } else if b.len() < 5 + b[4] {
                Decoded::Need((5 + b[4]) as usize)
            } else if !valid_utf8(b.subrange(5, 5 + b[4])) {
                Decoded::Malformed(Socks5Error::InvalidDomain)
            } else if b.len() < 7 + b[4] {
                Decoded::Need((7 + b[4]) as usize)
            } else {
                let n = b[4] as int;
                Decoded::Complete(
                    Socks5View {
                        conn_type,
                        target: decode_utf8(b.subrange(5, 5 + n)),
                        port: port_spec(b[5 + n], b[6 + n]),
                    },
                )
            },
        }
    }
}

/// The reply to a greeting: version 5, no authentication.
pub open spec fn greeting_reply_spec() -> Seq<u8> {
    seq![SOCKS_VERSION, 0x00]
}

/// The reply after a successful outbound connect: a fixed template that
/// reports the bound address `0.0.0.0:0`.
pub open spec fn success_reply_spec() -> Seq<u8> {
    seq![SOCKS_VERSION, 0x00, 0x00, ATYP_IPV4, 0, 0, 0, 0, 0, 0]
}

pub fn greeting_reply() -> (r: Vec<u8>)
    ensures
        r@ == greeting_reply_spec(),
{
    let r = vec![SOCKS_VERSION, 0x00];
    assert(r@ =~= greeting_reply_spec());
    r
}

pub fn success_reply() -> (r: Vec<u8>)
    ensures
        r@ == success_reply_spec(),
{
    let r = vec![SOCKS_VERSION, 0x00, 0x00, ATYP_IPV4, 0, 0, 0, 0, 0, 0];
    assert(r@ =~= success_reply_spec());
    r
}

/// Decodes a big-endian port.
pub fn port_from_bytes(hi: u8, lo: u8) -> (r: u16)
    ensures
        r == port_spec(hi, lo),
{
    (hi as u16) * 256 + (lo as u16)
}

/// Decodes a command byte.
pub fn parse_command(cmd: u8) -> (r: Option<ConnectionType>)
    ensures
        r == command_spec(cmd),
{
    if cmd == CMD_TCP {
        Some(ConnectionType::TCP)
    } else if cmd == CMD_UDP {
        Some(ConnectionType::UDP)
    } else {
        None
    }
}

/// Decodes an address type byte.
pub fn parse_address_type(atyp: u8) -> (r: Option<NameType>)
    ensures
        r == address_type_spec(atyp),
{
    if atyp == ATYP_IPV4 {
        Some(NameType::IPV4)
    } else if atyp == ATYP_DOMAIN {
        Some(NameType::DOMAIN)
    } else if atyp == ATYP_IPV6 {
        Some(NameType::IPV6)
    } else {
        None
    }
}

/// Decodes as much of a greeting as `b` holds.
pub fn decode_greeting(b: &[u8]) -> (r: Decoded<usize>)
    ensures
        r@ == greeting_spec(b@),
{
    if b.len() < 2 {
        Decoded::Need(2)
    } else if b[0] != SOCKS_VERSION {
        Decoded::Malformed(Socks5Error::NotSocks5)
    } else {
        let total: usize = 2 + b[1] as usize;
        if b.len() < total {
            Decoded::Need(total)
        } else {
            Decoded::Complete(total)
        }
    }
}

/// Copies `b[from..to]` into a vector.
pub(crate) fn copy_range(b: &[u8], from: usize, to: usize) -> (r: Vec<u8>)
    requires
        from <= to <= b@.len(),
    ensures
        r@ == b@.subrange(from as int, to as int),
{
    let mut r: Vec<u8> = Vec::new();
    let mut i: usize = from;
    while i < to
        invariant
            from <= i <= to <= b@.len(),
            r@ == b@.subrange(from as int, i as int),
        decreases to - i,
    {
        r.push(b[i]);
        assert(r@ =~= b@.subrange(from as int, i + 1));
        i = i + 1;
    }
    r
}

/// Decodes as much of an address request as `b` holds.
pub fn decode_request(b: &[u8]) -> (r: Decoded<Socks5>)
    ensures
        r@ == request_spec(b@),
{
    if b.len() < 4 {
        return Decoded::Need(4);
    }
    if b[0] != SOCKS_VERSION {
        return Decoded::Malformed(Socks5Error::NotSocks5);
    }
    let conn_type = match parse_command(b[1]) {
        Some(c) => c,
        None => return Decoded::Malformed(Socks5Error::InvalidCommand),
    };
    let name = match parse_address_type(b[3]) {
        Some(n) => n,
        None => return Decoded::Malformed(Socks5Error::InvalidAddressType),
    };
    match name {
        NameType::IPV4 => {
            if b.len() < 10 {
                return Decoded::Need(10);
            }
            let addr = copy_range(b, 4, 8);
            let target = format_ipv4(addr.as_slice());
            let port = port_from_bytes(b[8], b[9]);
            Decoded::Complete(Socks5::new(conn_type, target, port))
        },
        NameType::IPV6 => {
            if b.len() < 22 {
                return Decoded::Need(22);
            }
            let addr = copy_range(b, 4, 20);
            let target = format_ipv6(addr.as_slice());
            let port = port_from_bytes(b[20], b[21]);
            Decoded::Complete(Socks5::new(conn_type, target, port))
        },
        NameType::DOMAIN => {
            if b.len() < 5 {
                return Decoded::Need(5);
            }
            let n: usize = b[4] as usize;
            if b.len() < 5 + n {
                return Decoded::Need(5 + n);
            }
            let name_bytes = copy_range(b, 5, 5 + n);
            let target = match utf8_to_string(name_bytes) {
                Some(s) => s,
                None => return Decoded::Malformed(Socks5Error::InvalidDomain),
            };
            if b.len() < 7 + n {
                return Decoded::Need(7 + n);
            }
            let port = port_from_bytes(b[5 + n], b[6 + n]);
            Decoded::Complete(Socks5::new(conn_type, target, port))
        },
    }
}

/// The command byte for a connection type.
pub open spec fn command_byte(c: ConnectionType) -> u8 {
    match c {
        ConnectionType::TCP => CMD_TCP,
        ConnectionType::UDP => CMD_UDP,
    }
}

/// The address type byte for a name type.
pub open spec fn address_type_byte(n: NameType) -> u8 {
    match n {
        NameType::IPV4 => ATYP_IPV4,
        NameType::IPV6 => ATYP_IPV6,
        NameType::DOMAIN => ATYP_DOMAIN,
    }
}

/// Address bytes of the right shape for their type: four or sixteen raw
/// bytes, or a domain name of at most 255 bytes.
pub open spec fn address_fits(name: NameType, addr: Seq<u8>) -> bool {
    match name {
        NameType::IPV4 => addr.len() == 4,
        NameType::IPV6 => addr.len() == 16,
        NameType::DOMAIN => addr.len() <= 255,
    }
}

/// The human-readable form of the address bytes of a request.
pub open spec fn address_text(name: NameType, addr: Seq<u8>) -> Seq<char> {
    match name {
        NameType::IPV4 => ipv4_text(addr),
        NameType::IPV6 => ipv6_text(addr),
        NameType::DOMAIN => decode_utf8(addr),
    }
}

/// The bytes of an address request.
pub open spec fn request_bytes(conn: ConnectionType, name: NameType, addr: Seq<u8>, port: u16) -> Seq<u8> {
    let length_prefix = match name {
        NameType::DOMAIN => seq![addr.len() as u8],
        _ => Seq::<u8>::empty(),
    };
    seq![SOCKS_VERSION, command_byte(conn), 0x00, address_type_byte(name)] + length_prefix + addr
        + seq![(port / 256) as u8, (port % 256) as u8]
}

/// Appends every byte of `src` to `dst`.
pub(crate) fn append_bytes(dst: &mut Vec<u8>, src: &[u8])
    ensures
        final(dst)@ == old(dst)@ + src@,
{
    let mut i: usize = 0;
    while i < src.len()
        invariant
            i <= src@.len(),
            dst@ == old(dst)@ + src@.subrange(0, i as int),
        decreases src@.len() - i,
    {
        dst.push(src[i]);
        assert(dst@ =~= old(dst)@ + src@.subrange(0, i + 1));
        i = i + 1;
    }
    assert(src@.subrange(0, src@.len() as int) =~= src@);
}

/// Encodes an address request for `addr`, whose bytes are taken as they are.
pub fn encode_request(conn: ConnectionType, name: NameType, addr: &[u8], port: u16) -> (r: Vec<u8>)
    requires
        address_fits(name, addr@),
    ensures
        r@ == request_bytes(conn, name, addr@, port),
{
    let cmd = match conn {
        ConnectionType::TCP => CMD_TCP,
        ConnectionType::UDP => CMD_UDP,
    };
    let atyp = match name {
        NameType::IPV4 => ATYP_IPV4,
        NameType::IPV6 => ATYP_IPV6,
        NameType::DOMAIN => ATYP_DOMAIN,
    };
    let mut r = vec![SOCKS_VERSION, cmd, 0x00, atyp];
    if name == NameType::DOMAIN {
        r.push(addr.len() as u8);
    }
    append_bytes(&mut r, addr);
    r.push((port / 256) as u8);
    r.push((port % 256) as u8);
    assert(r@ =~= request_bytes(conn, name, addr@, port));
    r
}

/// Splitting a port into its two big-endian bytes and joining them again
/// gives the port back.
pub proof fn lemma_port_round_trip(port: u16)
    ensures
        port_spec((port / 256) as u8, (port % 256) as u8) == port,
{
}

/// Round trip: decoding the request that encodes a connection type, address
/// bytes of the right shape (for a domain, well-formed UTF-8) and a port gives
/// back that connection type and port, with the address in its
/// human-readable form.
pub proof fn lemma_request_round_trip(conn: ConnectionType, name: NameType, addr: Seq<u8>, port: u16)
    requires
        address_fits(name, addr),
        name == NameType::DOMAIN ==> valid_utf8(addr),
    ensures
        request_spec(request_bytes(conn, name, addr, port)) == Decoded::Complete(
            Socks5View { conn_type: conn, target: address_text(name, addr), port },
        ),
{
    let b = request_bytes(conn, name, addr, port);
    lemma_port_round_trip(port);
    match name {
        NameType::IPV4 => {
            assert(b.subrange(4, 8) =~= addr);
            assert(b[8] == (port / 256) as u8);
        },
        NameType::IPV6 => {
            assert(b.subrange(4, 20) =~= addr);
            assert(b[20] == (port / 256) as u8);
        },
        NameType::DOMAIN => {
            let n = addr.len() as int;
            assert(b[4] == addr.len() as u8);
            assert(b.subrange(5, 5 + n) =~= addr);
            assert(b[5 + n] == (port / 256) as u8);
            assert(b[6 + n] == (port % 256) as u8);
        },
    }
}

/// A request whose address type byte is none of the three known tags is
/// rejected as malformed; when its version and command are good, the reason
/// given is the address type.
pub proof fn lemma_unknown_address_type_rejected(b: Seq<u8>)
    requires
        b.len() >= 4,
        b[3] != ATYP_IPV4 && b[3] != ATYP_DOMAIN && b[3] != ATYP_IPV6,
    ensures
        request_spec(b) is Malformed,
        b[0] == SOCKS_VERSION && command_spec(b[1]) is Some ==> request_spec(b) == Decoded::<
            Socks5View,
        >::Malformed(Socks5Error::InvalidAddressType),
{
}

/// A request whose command byte is neither TCP nor UDP is rejected on its
/// four-byte header alone: no address byte takes part in the verdict, and
/// until the header is complete the decoder asks for the header only.
pub proof fn lemma_unknown_command_rejected_early(b: Seq<u8>)
    requires
        b.len() >= 4,
        b[1] != CMD_TCP && b[1] != CMD_UDP,
    ensures
        request_spec(b) is Malformed,
        request_spec(b) == request_spec(b.subrange(0, 4)),
        b[0] == SOCKS_VERSION ==> request_spec(b) == Decoded::<Socks5View>::Malformed(
            Socks5Error::InvalidCommand,
        ),
        forall|k: int| 0 <= k < 4 ==> request_spec(#[trigger] b.subrange(0, k)) == Decoded::<Socks5View>::Need(4),
{
}

} // verus!
