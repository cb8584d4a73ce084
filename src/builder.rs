//! Settings of a stand-alone RADIUS client, assembled by chained calls.

use vstd::prelude::*;

verus! {

/// One server for the stand-alone client; a timeout of 0 defers to the
/// client's own.
#[derive(Debug)]
pub struct Server {
    pub address: String,
    pub shared_secret: Option<String>,
    pub timeout: u16,
}

impl From<String> for Server {
    fn from(address: String) -> (r: Server) {
        Server { address, shared_secret: None, timeout: 0 }
    }
}

impl vstd::std_specs::convert::FromSpecImpl<String> for Server {
    open spec fn obeys_from_spec() -> bool {
        true
    }

    open spec fn from_spec(address: String) -> Server {
        Server { address, shared_secret: None, timeout: 0 }
    }
}

impl Server {
    /// A server with its own timeout.
    pub fn with_timeout(address: &str, timeout: u16) -> (r: Server)
        ensures
            r.address@ == address@,
            r.shared_secret is None,
            r.timeout == timeout,
    {
        Server { address: address.to_owned(), shared_secret: None, timeout }
    }

    /// A server with its own shared secret.
    pub fn with_secret(address: &str, secret: &str) -> (r: Server)
        ensures
            r.address@ == address@,
            r.shared_secret matches Some(s) && s@ == secret@,
            r.timeout == 0,
    {
        Server { address: address.to_owned(), shared_secret: Some(secret.to_owned()), timeout: 0 }
    }

    /// A server with its own shared secret and timeout.
    pub fn with_secret_and_timeout(address: &str, secret: &str, timeout: u16) -> (r: Server)
        ensures
            r.address@ == address@,
            r.shared_secret matches Some(s) && s@ == secret@,
            r.timeout == timeout,
    {
        Server { address: address.to_owned(), shared_secret: Some(secret.to_owned()), timeout }
    }
}

/// Settings of the stand-alone client.
#[derive(Debug)]
pub struct Config {
    pub shared_secret: Option<String>,
    pub servers: Vec<Server>,
    pub debug: bool,
    pub timeout: u16,
    pub attributes: Vec<(u32, u8)>,
}

impl Config {
    /// No server, no secret, a timeout of 10 seconds, no debugging, no
    /// attributes asked for.
    pub fn new() -> (r: Config)
        ensures
            r.servers@.len() == 0,
            r.shared_secret is None,
            r.timeout == 10,
            !r.debug,
            r.attributes@.len() == 0,
    {
        Config { servers: Vec::new(), shared_secret: None, timeout: 10, debug: false, attributes: Vec::new() }
    }

    /// Adds a server; while no secret is set, the server's secret becomes the
    /// client's.
    pub fn server(self, opts: Server) -> (r: Config)
        ensures
            r.servers@ == self.servers@.push(opts),
            r.shared_secret == (match self.shared_secret {
                Some(s) => Some(s),
                None => opts.shared_secret,
            }),
            r.debug == self.debug,
            r.timeout == self.timeout,
            r.attributes@ == self.attributes@,
    {
        let mut c = self;
        if c.shared_secret.is_none() {
            c.shared_secret = match &opts.shared_secret {
                Some(s) => Some(s.clone()),
                None => None,
            };
        }
        c.servers.push(opts);
        c
    }

    pub fn shared_secret(self, secret: &str) -> (r: Config)
        ensures
            r.shared_secret matches Some(s) && s@ == secret@,
            r.servers@ == self.servers@,
            r.debug == self.debug,
            r.timeout == self.timeout,
            r.attributes@ == self.attributes@,
    {
        let mut c = self;
        c.shared_secret = Some(secret.to_owned());
        c
    }

    pub fn debug(self) -> (r: Config)
        ensures
            r.debug,
            r.servers@ == self.servers@,
            r.shared_secret == self.shared_secret,
            r.timeout == self.timeout,
            r.attributes@ == self.attributes@,
    {
        let mut c = self;
        c.debug = true;
        c
    }

    pub fn no_debug(self) -> (r: Config)
        ensures
            !r.debug,
            r.servers@ == self.servers@,
            r.shared_secret == self.shared_secret,
            r.timeout == self.timeout,
            r.attributes@ == self.attributes@,
    {
        let mut c = self;
        c.debug = false;
        c
    }

    pub fn timeout(self, timeout: u16) -> (r: Config)
        ensures
            r.timeout == timeout,
            r.servers@ == self.servers@,
            r.shared_secret == self.shared_secret,
            r.debug == self.debug,
            r.attributes@ == self.attributes@,
    {
        let mut c = self;
        c.timeout = timeout;
        c
    }

    /// Asks for these attributes too, after those already asked for.
    pub fn attributes(self, attrs: &[(u32, u8)]) -> (r: Config)
        ensures
            r.attributes@ == self.attributes@ + attrs@,
            r.servers@ == self.servers@,
            r.shared_secret == self.shared_secret,
            r.debug == self.debug,
            r.timeout == self.timeout,
    {
        let mut c = self;
        let mut i: usize = 0;
        while i < attrs.len()
            invariant
                i <= attrs@.len(),
                c.attributes@ == self.attributes@ + attrs@.subrange(0, i as int),
                c.servers@ == self.servers@,
                c.shared_secret == self.shared_secret,
                c.debug == self.debug,
                c.timeout == self.timeout,
            decreases attrs@.len() - i,
        {
            c.attributes.push(attrs[i]);
            assert(attrs@.subrange(0, i + 1) =~= attrs@.subrange(0, i as int).push(attrs@[i as int]));
            i = i + 1;
        }
        assert(attrs@.subrange(0, i as int) =~= attrs@);
        c
    }

    /// Asks for one more attribute.
    pub fn attribute(self, attr: (u32, u8)) -> (r: Config)
        ensures
            r.attributes@ == self.attributes@.push(attr),
            r.servers@ == self.servers@,
            r.shared_secret == self.shared_secret,
            r.debug == self.debug,
            r.timeout == self.timeout,
    {
        let mut c = self;
        c.attributes.push(attr);
        c
    }
}

} // verus!
