//! The settings that the RADIUS client is set up with, chosen from the
//! configuration for each server.

use vstd::prelude::*;
use vstd::utf8::encode_utf8;
use crate::config::{Radius, Server};

verus! {

/// Why the configured servers cannot be used.
#[derive(Debug, PartialEq, Eq, Structural)]
pub enum ClientError {
    /// No server is configured.
    NoServer,
    /// A server has no shared secret, and there is no global one.
    NoSharedSecret,
    /// A shared secret is longer than 256 bytes.
    SharedSecretTooLong,
}

/// Longest shared secret, in bytes, that the client library accepts.
pub const MAX_SECRET_LEN: usize = 256;

/// Timeout, in seconds, when neither the server nor the configuration gives one.
pub const DEFAULT_TIMEOUT: u16 = 10;

/// Bounds of the timeout, in seconds.
pub const MIN_TIMEOUT: u16 = 1;

pub const MAX_TIMEOUT: u16 = 30;

/// The settings for one server, ready for the client library.
#[derive(Debug)]
pub struct ServerSettings {
    /// The address as configured.
    pub address: String,
    /// The address with the standard authentication port, for an address
    /// that names none.
    pub fallback_address: String,
    pub shared_secret: String,
    pub timeout: u16,
}

/// The server's own secret, else the global one.
pub open spec fn secret_for(radius: Radius, server: Server) -> Option<Seq<char>> {
    match server.shared_secret {
        Some(s) => Some(s@),
        None => match radius.shared_secret {
            Some(s) => Some(s@),
            None => None,
        },
    }
}

/// The server's own timeout, else the global one, else the default; then
/// brought within `MIN_TIMEOUT..=MAX_TIMEOUT`.
pub open spec fn timeout_for(radius: Radius, server: Server) -> u16 {
    let t = match server.timeout {
        Some(t) => t,
        None => match radius.timeout {
            Some(t) => t,
            None => DEFAULT_TIMEOUT,
        },
    };
    if t < MIN_TIMEOUT {
        MIN_TIMEOUT
    } else if t > MAX_TIMEOUT {
        MAX_TIMEOUT
    } else {
        t
    }
}

/// What is wrong with one server's settings, if anything.
pub open spec fn server_problem(radius: Radius, server: Server) -> Option<ClientError> {
    match secret_for(radius, server) {
        None => Some(ClientError::NoSharedSecret),
        Some(s) => if encode_utf8(s).len() > MAX_SECRET_LEN {
            Some(ClientError::SharedSecretTooLong)
        } else {
            None
        },
    }
}

/// The problem of the first server, from `from` on, that has one.
pub open spec fn first_problem(radius: Radius, from: int) -> Option<ClientError>
    decreases radius.servers@.len() - from,
{
    if from < 0 || from >= radius.servers@.len() {
        None
    } else {
        match server_problem(radius, radius.servers@[from]) {
            Some(e) => Some(e),
            None => first_problem(radius, from + 1),
        }
    }
}

pub open spec fn default_port_suffix() -> Seq<char> {
    seq![':', '1', '8', '1', '2']
}

/// `s` holds the settings that `server` gets under `radius`.
pub open spec fn settings_for(s: ServerSettings, radius: Radius, server: Server) -> bool {
    &&& s.address@ == server.address@
    &&& s.fallback_address@ == server.address@ + default_port_suffix()
    &&& secret_for(radius, server) == Some(s.shared_secret@)
    &&& s.timeout == timeout_for(radius, server)
}

fn pick_secret(radius: &Radius, server: &Server) -> (r: Option<String>)
    ensures
        match secret_for(*radius, *server) {
            Some(s) => r matches Some(t) && t@ == s,
            None => r is None,
        },
{
    match &server.shared_secret {
        Some(s) => Some(s.clone()),
        None => match &radius.shared_secret {
            Some(s) => Some(s.clone()),
            None => None,
        },
    }
}

fn pick_timeout(radius: &Radius, server: &Server) -> (r: u16)
    ensures
        r == timeout_for(*radius, *server),
{
    let t = match server.timeout {
        Some(t) => t,
        None => match radius.timeout {
            Some(t) => t,
            None => DEFAULT_TIMEOUT,
        },
    };
    if t < MIN_TIMEOUT {
        MIN_TIMEOUT
    } else if t > MAX_TIMEOUT {
        MAX_TIMEOUT
    } else {
        t
    }
}

/// Chooses the settings of every configured server, in order. With no
/// server it is `NoServer`; otherwise the first server with a problem
/// decides the error.
pub fn server_settings(radius: &Radius) -> (r: Result<Vec<ServerSettings>, ClientError>)
    ensures
        radius.servers@.len() == 0 ==> r == Err::<Vec<ServerSettings>, ClientError>(ClientError::NoServer),
        radius.servers@.len() > 0 ==> match first_problem(*radius, 0) {
            Some(e) => r == Err::<Vec<ServerSettings>, ClientError>(e),
            None => r matches Ok(v) && v@.len() == radius.servers@.len() && forall|i: int|
                0 <= i < v@.len() ==> settings_for(#[trigger] v@[i], *radius, radius.servers@[i]),
        },
{
    if radius.servers.len() == 0 {
        return Err(ClientError::NoServer);
    }
    let mut out: Vec<ServerSettings> = Vec::new();
    let mut i: usize = 0;
    while i < radius.servers.len()
        invariant
            i <= radius.servers@.len(),
            first_problem(*radius, 0) == first_problem(*radius, i as int),
            out@.len() == i,
            forall|k: int| 0 <= k < i ==> settings_for(#[trigger] out@[k], *radius, radius.servers@[k]),
        decreases radius.servers@.len() - i,
    {
        let server = &radius.servers[i];
        let secret = match pick_secret(radius, server) {
            Some(s) => s,
            None => {
                return Err(ClientError::NoSharedSecret);
            },
        };
        let secret_bytes = secret.as_str().as_bytes().len();
        assert(secret_bytes == encode_utf8(secret@).len());
        if secret_bytes > MAX_SECRET_LEN {
            return Err(ClientError::SharedSecretTooLong);
        }
        assert(server_problem(*radius, radius.servers@[i as int]) is None);
        let mut fallback = server.address.clone();
        proof {
            reveal_strlit(":1812");
        }
        fallback.append(":1812");
        assert(":1812"@ == default_port_suffix());
        out.push(
            ServerSettings {
                address: server.address.clone(),
                fallback_address: fallback,
                shared_secret: secret,
                timeout: pick_timeout(radius, server),
            },
        );
        i = i + 1;
    }
    Ok(out)
}

} // verus!
