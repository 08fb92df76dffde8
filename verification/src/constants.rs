//! Fixed values of the tunnel.

use vstd::prelude::*;

verus! {

/// How often a failed dial is tried again.
pub const MAX_RETRIES: usize = 5;

/// The seconds between two dial attempts.
pub const RETRY_DELAY_SECS: u64 = 1;

/// The milliseconds a client waits for a refusal after its handshake.
pub const AUTHORIZATION_WINDOW_MILLIS: u64 = 100;

/// The size of the buffer through which datagrams are forwarded.
pub const UDP_BUFFER_SIZE: usize = 65536;

/// The file name of the private key below the configuration directory.
pub const PRIVATE_KEY_PATH: &'static str = "private_key";

/// The length of a private key file.
pub const PRIVATE_KEY_LENGTH: usize = 32;

pub const DEFAULT_TIMEOUT: u64 = 30;

pub const DEFAULT_RETRIES: usize = 5;

pub const DEFAULT_MAX_CONNECTIONS: usize = 100;

pub const DEFAULT_MIN_PORT: u16 = 1024;

pub const DEFAULT_MAX_PORT: u16 = 65535;

/// The lowest port that a server may allow.
pub const LOWEST_ALLOWED_PORT: u16 = 1024;

/// The bytes of the protocol identifier `punch/0`.
pub open spec fn alpn_bytes() -> Seq<u8> {
    seq![112u8, 117u8, 110u8, 99u8, 104u8, 47u8, 48u8]
}

/// The protocol identifier negotiated at session setup.
pub fn alpn() -> (id: Vec<u8>)
    ensures
        id@ == alpn_bytes(),
{
    let id = vec![112u8, 117u8, 110u8, 99u8, 104u8, 47u8, 48u8];
    assert(id@ =~= alpn_bytes());
    id
}

} // verus!
