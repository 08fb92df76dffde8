//! The handshake codec: the protocol byte and the big-endian port.

use vstd::prelude::*;

verus! {

/// The transport personality that a client asks for.
#[derive(Clone, Copy, Debug, PartialEq, Eq, Structural)]
pub enum Protocol {
    Tcp,
    Udp,
}

/// The message returned for a byte that names no protocol.
pub open spec fn invalid_byte_text() -> Seq<char> {
    "Invalid protocol byte. Use 0x0 for TCP or 0x1 for UDP."@
}

/// The message returned for a word that names no protocol.
pub open spec fn invalid_name_text() -> Seq<char> {
    "Invalid protocol. Use 'tcp' or 'udp'."@
}

/// `c` is the letter `lower` in either case.
pub open spec fn is_letter(c: char, lower: char, upper: char) -> bool {
    c == lower || c == upper
}

/// The port whose big-endian bytes are `hi`, `lo`.
pub open spec fn port_of(hi: u8, lo: u8) -> u16 {
    (hi as int * 256 + lo as int) as u16
}

/// The two big-endian bytes of `port`.
pub open spec fn port_bytes(port: u16) -> Seq<u8> {
    seq![(port / 256) as u8, (port % 256) as u8]
}

/// The port carried by a datagram: exactly two bytes, big-endian.
pub open spec fn decoded_port(datagram: Seq<u8>) -> Option<u16> {
    if datagram.len() == 2 {
        Some(port_of(datagram[0], datagram[1]))
    } else {
        None
    }
}

impl Protocol {
    /// The byte that stands for this protocol on the wire.
    pub open spec fn byte(self) -> u8 {
        match self {
            Protocol::Tcp => 0u8,
            Protocol::Udp => 1u8,
        }
    }

    /// The protocol that a wire byte stands for, if any.
    pub open spec fn of_byte(value: u8) -> Option<Protocol> {
        if value == 0 {
            Some(Protocol::Tcp)
        } else if value == 1 {
            Some(Protocol::Udp)
        } else {
            None
        }
    }

    /// The lower-case word for this protocol.
    pub open spec fn word(self) -> Seq<char> {
        match self {
            Protocol::Tcp => seq!['t', 'c', 'p'],
            Protocol::Udp => seq!['u', 'd', 'p'],
        }
    }

    /// The upper-case label for this protocol.
    pub open spec fn label(self) -> Seq<char> {
        match self {
            Protocol::Tcp => seq!['T', 'C', 'P'],
            Protocol::Udp => seq!['U', 'D', 'P'],
        }
    }

    /// The protocol that a word names, whatever the case of its letters.
    pub open spec fn of_word(s: Seq<char>) -> Option<Protocol> {
        if s.len() == 3 && is_letter(s[0], 't', 'T') && is_letter(s[1], 'c', 'C') && is_letter(
            s[2],
            'p',
            'P',
        ) {
            Some(Protocol::Tcp)
        } else if s.len() == 3 && is_letter(s[0], 'u', 'U') && is_letter(s[1], 'd', 'D')
            && is_letter(s[2], 'p', 'P') {
            Some(Protocol::Udp)
        } else {
            None
        }
    }

    /// Encodes the protocol as its wire byte.
    pub fn to_byte(self) -> (b: u8)
        ensures
            b == self.byte(),
            Protocol::of_byte(b) == Some(self),
    {
        match self {
            Protocol::Tcp => 0u8,
            Protocol::Udp => 1u8,
        }
    }

    /// Decodes a wire byte: `0x00` is TCP, `0x01` is UDP, anything else an error.
    pub fn try_from(value: u8) -> (r: Result<Protocol, String>)
        ensures
            match r {
                Ok(p) => Protocol::of_byte(value) == Some(p),
                Err(e) => Protocol::of_byte(value).is_none() && e@ == invalid_byte_text(),
            },
    {
        if value == 0 {
            Ok(Protocol::Tcp)
        } else if value == 1 {
            Ok(Protocol::Udp)
        } else {
            Err("Invalid protocol byte. Use 0x0 for TCP or 0x1 for UDP.".to_owned())
        }
    }

    /// Reads `tcp` or `udp`, in any mix of cases.
    pub fn from_str(s: &str) -> (r: Result<Protocol, String>)
        ensures
            match r {
                Ok(p) => Protocol::of_word(s@) == Some(p),
                Err(e) => Protocol::of_word(s@).is_none() && e@ == invalid_name_text(),
            },
    {
        if s.unicode_len() == 3 {
            let a = s.get_char(0);
            let b = s.get_char(1);
            let c = s.get_char(2);
            if (a == 't' || a == 'T') && (b == 'c' || b == 'C') && (c == 'p' || c == 'P') {
                return Ok(Protocol::Tcp);
            }
            if (a == 'u' || a == 'U') && (b == 'd' || b == 'D') && (c == 'p' || c == 'P') {
                return Ok(Protocol::Udp);
            }
        }
        Err("Invalid protocol. Use 'tcp' or 'udp'.".to_owned())
    }

    /// The lower-case word, as the command line takes it.
    pub fn as_str(self) -> (s: &'static str)
        ensures
            s@ == self.word(),
            Protocol::of_word(s@) == Some(self),
    {
        match self {
            Protocol::Tcp => {
                proof {
                    reveal_strlit("tcp");
                    assert("tcp"@ =~= Protocol::Tcp.word());
                }
                "tcp"
            },
            Protocol::Udp => {
                proof {
                    reveal_strlit("udp");
                    assert("udp"@ =~= Protocol::Udp.word());
                }
                "udp"
            },
        }
    }

    /// The upper-case label shown to the user.
    pub fn to_string(&self) -> (s: String)
        ensures
            s@ == self.label(),
            Protocol::of_word(s@) == Some(*self),
    {
        match self {
            Protocol::Tcp => {
                proof {
                    reveal_strlit("TCP");
                    assert("TCP"@ =~= Protocol::Tcp.label());
                }
                "TCP".to_owned()
            },
            Protocol::Udp => {
                proof {
                    reveal_strlit("UDP");
                    assert("UDP"@ =~= Protocol::Udp.label());
                }
                "UDP".to_owned()
            },
        }
    }
}

/// Encodes a port as two big-endian bytes.
pub fn encode_port(port: u16) -> (bytes: [u8; 2])
    ensures
        bytes@ == port_bytes(port),
        decoded_port(bytes@) == Some(port),
{
    let hi: u8 = (port / 256) as u8;
    let lo: u8 = (port % 256) as u8;
    let bytes = [hi, lo];
    assert(bytes@ =~= port_bytes(port));
    bytes
}

/// Decodes a port from a datagram of exactly two big-endian bytes.
pub fn decode_port(datagram: &[u8]) -> (r: Option<u16>)
    ensures
        r == decoded_port(datagram@),
{
    if datagram.len() == 2 {
        let hi: u16 = datagram[0] as u16;
        let lo: u16 = datagram[1] as u16;
        Some(hi * 256 + lo)
    } else {
        None
    }
}

/// The two datagrams that open a session: the protocol byte, then the port.
pub fn handshake_datagrams(protocol: Protocol, port: u16) -> (r: (Vec<u8>, Vec<u8>))
    ensures
        r.0@ == seq![protocol.byte()],
        r.1@ == port_bytes(port),
{
    let first = vec![protocol.to_byte()];
    let pair = encode_port(port);
    let second = vec![pair[0], pair[1]];
    assert(first@ =~= seq![protocol.byte()]);
    assert(second@ =~= port_bytes(port));
    (first, second)
}

/// Decoding the wire byte of a protocol gives the protocol back.
pub proof fn byte_round_trip(p: Protocol)
    ensures
        Protocol::of_byte(p.byte()) == Some(p),
{
}

/// Reading the word of a protocol gives the protocol back, whatever the case
/// of the letters.
pub proof fn word_round_trip(p: Protocol)
    ensures
        Protocol::of_word(p.word()) == Some(p),
        Protocol::of_word(p.label()) == Some(p),
{
}

/// Decoding the two bytes of a port gives the port back, for every port.
pub proof fn port_round_trip(port: u16)
    ensures
        decoded_port(port_bytes(port)) == Some(port),
{
}

/// The arithmetic reading of two big-endian bytes is the shifted one.
pub proof fn port_of_is_shift(hi: u8, lo: u8)
    ensures
        port_of(hi, lo) == ((hi as u16) << 8) | (lo as u16),
{
    assert((hi as u16) * 256 + (lo as u16) == ((hi as u16) << 8) | (lo as u16)) by (bit_vector);
}

} // verus!
