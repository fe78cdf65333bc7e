//! Configuration and builder for the BACnet client: the local interface
//! and port to bind, the per-request timeout and the retry count.

use vstd::prelude::*;

use core::time::Duration;

use crate::clock::{duration_from_secs, seconds_span};
use crate::text::{chars_of, concat, dec_text, push_decimal, text_of};

verus! {

/// Default per-request timeout, in seconds, used when none is configured.
pub const DEFAULT_TIMEOUT_SECS: u64 = 5;

/// Default host to bind to (all interfaces).
pub const DEFAULT_HOST: &'static str = "0.0.0.0";

/// The address `host:port`.
pub open spec fn bind_address(host: Seq<char>, port: u16) -> Seq<char> {
    host + ":"@ + dec_text(port as nat)
}

/// Configuration parameters for a BACnet client.
#[derive(Debug)]
pub struct ClientConfig {
    /// Local host/interface to bind the UDP socket to.
    pub host: String,
    /// Local UDP port to bind. `0` lets the OS assign an ephemeral port.
    pub port: u16,
    /// How long to wait for a response before giving up.
    pub timeout: Duration,
    /// Number of times to retry a request after the first attempt times out.
    pub retries: u8,
}

impl Default for ClientConfig {
    /// Host "0.0.0.0", port 0, a five-second timeout, no retries.
    fn default() -> (r: Self)
        ensures
            r.host@ == DEFAULT_HOST@,
            r.port == 0,
            r.timeout == seconds_span(DEFAULT_TIMEOUT_SECS),
            r.retries == 0,
    {
        ClientConfig {
            host: chars_of(DEFAULT_HOST),
            port: 0,
            timeout: duration_from_secs(DEFAULT_TIMEOUT_SECS),
            retries: 0,
        }
    }
}

impl ClientConfig {
    /// The address string (`host:port`) the socket will bind to.
    pub fn bind_addr(&self) -> (r: String)
        ensures
            r@ == bind_address(self.host@, self.port),
    {
        let mut digits: Vec<char> = Vec::new();
        push_decimal(&mut digits, self.port as u64);
        let d = text_of(&digits);
        let host = self.host.clone();
        concat(concat(host, ":"), d.as_str())
    }
}

/// Fluent builder for a client configuration.
#[derive(Debug)]
pub struct ClientBuilder {
    config: ClientConfig,
}

impl Default for ClientBuilder {
    fn default() -> (r: Self)
        ensures
            r.spec_config().host@ == DEFAULT_HOST@,
            r.spec_config().port == 0,
            r.spec_config().timeout == seconds_span(DEFAULT_TIMEOUT_SECS),
            r.spec_config().retries == 0,
    {
        ClientBuilder { config: ClientConfig::default() }
    }
}

impl ClientBuilder {
    /// The configuration built so far.
    pub closed spec fn spec_config(&self) -> ClientConfig {
        self.config
    }

    /// Creates a builder with the default configuration.
    pub fn new() -> (r: Self)
        ensures
            r.spec_config().host@ == DEFAULT_HOST@,
            r.spec_config().port == 0,
            r.spec_config().timeout == seconds_span(DEFAULT_TIMEOUT_SECS),
            r.spec_config().retries == 0,
    {
        ClientBuilder::default()
    }

    /// Sets the local host/interface to bind to.
    pub fn local_addr(self, host: &str) -> (r: Self)
        ensures
            r.spec_config().host@ == host@,
            r.spec_config().port == self.spec_config().port,
            r.spec_config().timeout == self.spec_config().timeout,
            r.spec_config().retries == self.spec_config().retries,
    {
        let mut b = self;
        b.config.host = chars_of(host);
        b
    }

    /// Sets the local UDP port to bind.
    pub fn port(self, port: u16) -> (r: Self)
        ensures
            r.spec_config() == (ClientConfig { port, ..self.spec_config() }),
    {
        let mut b = self;
        b.config.port = port;
        b
    }

    /// Sets the per-request timeout.
    pub fn timeout(self, timeout: Duration) -> (r: Self)
        ensures
            r.spec_config() == (ClientConfig { timeout, ..self.spec_config() }),
    {
        let mut b = self;
        b.config.timeout = timeout;
        b
    }

    /// Sets the number of retries after an initial timeout.
    pub fn retries(self, retries: u8) -> (r: Self)
        ensures
            r.spec_config() == (ClientConfig { retries, ..self.spec_config() }),
    {
        let mut b = self;
        b.config.retries = retries;
        b
    }

    /// The configuration built, taking the builder.
    pub fn into_config(self) -> (r: ClientConfig)
        ensures
            r == self.spec_config(),
    {
        self.config
    }
}

} // verus!
