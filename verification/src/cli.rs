//! The command line as plain values, and the reading of a port mapping.

use crate::protocol::Protocol;
use std::path::PathBuf;
use vstd::prelude::*;

verus! {

/// The options of one invocation.
#[derive(Debug)]
pub struct Opts {
    pub command: Command,
    /// Use a key that is generated for this run and not stored.
    pub ephemeral: bool,
    /// The file that holds the private key.
    pub private_key: Option<PathBuf>,
    /// Replace the stored private key by a new one.
    pub regenerate: bool,
}

#[derive(Debug)]
pub enum Command {
    /// Run the server until interrupted.
    Server {  },
    /// Dial a host and forward a local port to it.
    Client { to: String, mapping: (u16, u16), protocol: Protocol },
    /// Show this node's identity.
    Id { short: bool },
    /// Manage the known hosts.
    Hosts { command: HostCommand },
    /// Manage the authorized keys.
    Auth { command: AuthCommand },
    /// Show where the configuration lives.
    Config { show_path: bool },
}

#[derive(Debug)]
pub enum HostCommand {
    Add { name: String, id: String },
    Remove { identifier: String },
    List { full: bool },
}

#[derive(Debug)]
pub enum AuthCommand {
    List,
    Add { key: String },
    Remove { key: String },
    MyKey,
}

/// What is wrong with a mapping.
#[derive(Clone, Copy, Debug, PartialEq, Eq, Structural)]
pub enum MappingError {
    /// It does not consist of two parts with one colon between.
    Format,
    /// The part before the colon is no port.
    LocalPort,
    /// The part after the colon is no port.
    RemotePort,
}

impl MappingError {
    pub open spec fn text(self) -> Seq<char> {
        match self {
            MappingError::Format => "Mapping must be in the format 'local_port:remote_port'"@,
            MappingError::LocalPort => "Invalid local port"@,
            MappingError::RemotePort => "Invalid remote port"@,
        }
    }

    /// The message shown to the user.
    pub fn message(&self) -> (s: String)
        ensures
            s@ == self.text(),
    {
        match self {
            MappingError::Format => "Mapping must be in the format 'local_port:remote_port'".to_owned(),
            MappingError::LocalPort => "Invalid local port".to_owned(),
            MappingError::RemotePort => "Invalid remote port".to_owned(),
        }
    }
}

/// The value of a decimal digit.
pub open spec fn digit_value(c: char) -> Option<nat> {
    if 48 <= c as u32 <= 57 {
        Some((c as u32 - 48) as nat)
    } else {
        None
    }
}

/// The number that a string of decimal digits spells; none where a
/// character is no digit. The empty string spells zero.
pub open spec fn number(digits: Seq<char>) -> Option<nat>
    decreases digits.len(),
{
    if digits.len() == 0 {
        Some(0)
    } else {
        match (number(digits.drop_last()), digit_value(digits.last())) {
            (Some(front), Some(d)) => Some(front * 10 + d),
            _ => None,
        }
    }
}

/// The port that a text spells: decimal digits, at least one, after an
/// optional plus sign, with a value of at most 65535.
pub open spec fn port_in_text(text: Seq<char>) -> Option<u16> {
    let digits = if text.len() > 0 && text[0] == '+' {
        text.skip(1)
    } else {
        text
    };
    if digits.len() == 0 {
        None
    } else {
        match number(digits) {
            Some(v) => if v <= 65535 {
                Some(v as u16)
            } else {
                None
            },
            None => None,
        }
    }
}

/// The text has exactly one colon, at `p`.
pub open spec fn splits_at(text: Seq<char>, p: int) -> bool {
    &&& 0 <= p < text.len()
    &&& text[p] == ':'
    &&& forall|k: int| 0 <= k < text.len() && k != p ==> text[k] != ':'
}

/// What a mapping text stands for: two ports with one colon between.
pub open spec fn mapping_in(text: Seq<char>) -> Result<(u16, u16), MappingError> {
    if exists|p: int| splits_at(text, p) {
        let p = choose|p: int| splits_at(text, p);
        match port_in_text(text.take(p)) {
            None => Err(MappingError::LocalPort),
            Some(local) => match port_in_text(text.skip(p + 1)) {
                None => Err(MappingError::RemotePort),
                Some(remote) => Ok((local, remote)),
            },
        }
    } else {
        Err(MappingError::Format)
    }
}

proof fn number_of_prefix(digits: Seq<char>, i: int)
    requires
        0 <= i <= digits.len(),
    ensures
        number(digits) matches Some(v) ==> (number(digits.take(i)) matches Some(w) && w <= v),
    decreases digits.len(),
{
    if i == digits.len() {
        assert(digits.take(i) =~= digits);
    } else {
        number_of_prefix(digits.drop_last(), i);
        assert(digits.drop_last().take(i) =~= digits.take(i));
    }
}

fn read_port_text(text: &str) -> (r: Option<u16>)
    ensures
        r == port_in_text(text@),
{
    let n = text.unicode_len();
    let mut i: usize = 0;
    if n > 0 && text.get_char(0) == '+' {
        i = 1;
    }
    let start = i;
    let ghost digits = text@.skip(start as int);
    proof {
        assert(text@.skip(0) =~= text@);
        assert(digits == if text@.len() > 0 && text@[0] == '+' {
            text@.skip(1)
        } else {
            text@
        });
    }
    if i == n {
        return None;
    }
    let mut value: u32 = 0;
    assert(digits.take(0) =~= Seq::<char>::empty());
    while i < n
        invariant
            start <= i <= n,
            n == text@.len(),
            digits == text@.skip(start as int),
            digits == if text@.len() > 0 && text@[0] == '+' {
                text@.skip(1)
            } else {
                text@
            },
            digits.len() == n - start,
            digits.len() > 0,
            number(digits.take(i - start)) == Some(value as nat),
            value <= 65535,
        decreases n - i,
    {
        let c = text.get_char(i);
        let code: u32 = c as u32;
        proof {
            let k = i - start;
            assert(digits.take(k + 1).drop_last() =~= digits.take(k));
            assert(digits.take(k + 1).last() == c);
            assert(digit_value(c) == if 48 <= code <= 57 {
                Some((code - 48) as nat)
            } else {
                None
            });
            number_of_prefix(digits, k + 1);
        }
        if code < 48 || code > 57 {
            return None;
        }
        let next: u32 = value * 10 + (code - 48);
        if next > 65535 {
            return None;
        }
        value = next;
        i += 1;
    }
    assert(digits.take(n - start) =~= digits);
    Some(value as u16)
}

fn find_colon(text: &str, from: usize) -> (r: Option<usize>)
    requires
        from <= text@.len(),
    ensures
        match r {
            Some(p) => from <= p < text@.len() && text@[p as int] == ':' && forall|k: int|
                from <= k < p ==> text@[k] != ':',
            None => forall|k: int| from <= k < text@.len() ==> text@[k] != ':',
        },
{
    let n = text.unicode_len();
    let mut i: usize = from;
    while i < n
        invariant
            from <= i <= n,
            n == text@.len(),
            forall|k: int| from <= k < i ==> text@[k] != ':',
        decreases n - i,
    {
        if text.get_char(i) == ':' {
            return Some(i);
        }
        i += 1;
    }
    None
}

/// Reads a mapping: what kind of error it has, or its two ports.
pub fn read_mapping(s: &str) -> (r: Result<(u16, u16), MappingError>)
    ensures
        r == mapping_in(s@),
{
    let n = s.unicode_len();
    let p = match find_colon(s, 0) {
        Some(p) => p,
        None => {
            return Err(MappingError::Format);
        },
    };
    if find_colon(s, p + 1).is_some() {
        return Err(MappingError::Format);
    }
    assert(splits_at(s@, p as int));
    let local = match read_port_text(s.substring_char(0, p)) {
        Some(port) => port,
        None => {
            return Err(MappingError::LocalPort);
        },
    };
    let remote = match read_port_text(s.substring_char(p + 1, n)) {
        Some(port) => port,
        None => {
            return Err(MappingError::RemotePort);
        },
    };
    Ok((local, remote))
}

/// Reads a mapping of the form `local_port:remote_port`.
pub fn parse_mapping(s: &str) -> (r: Result<(u16, u16), String>)
    ensures
        match r {
            Ok(pair) => mapping_in(s@) == Ok::<(u16, u16), MappingError>(pair),
            Err(message) => mapping_in(s@) matches Err(e) && message@ == e.text(),
        },
{
    match read_mapping(s) {
        Ok(pair) => Ok(pair),
        Err(e) => Err(e.message()),
    }
}

} // verus!
