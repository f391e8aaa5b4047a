//! The client façade: what a caller collects before dialing, and the
//! per-connection record the consumer side threads through its setup.

use vstd::prelude::*;
use crate::config::{Config, ConfigResponse};

verus! {

/// An immutable handle consumed by one publish or consume lifecycle:
/// the broker address, the requested configuration, and the caller-side
/// credentials that never go into feature negotiation.
pub struct Client {
    /// The broker address, `host:port`.
    pub addr: String,
    /// The requested configuration.
    pub config: Config,
    /// The authentication token, if the server demands one.
    pub auth: Option<String>,
    /// The certificate bundle path for the TLS upgrade.
    pub cafile: Option<String>,
}

impl Client {
    /// Collect everything one connection lifecycle needs.
    pub fn new(addr: String, config: Config, auth: Option<String>, cafile: Option<String>) -> (r:
        Client)
        ensures
            r.addr == addr,
            r.config == config,
            r.auth == auth,
            r.cafile == cafile,
    {
        Client { addr, config, auth, cafile }
    }
}

/// The consumer-side connection record: what the subscription step needs
/// once the handshake has delivered the negotiated configuration.
pub struct TcpConnection {
    auth: Option<String>,
    config: ConfigResponse,
    channel: String,
    topic: String,
    rdy: u32,
}

impl TcpConnection {
    /// The authentication token.
    pub closed spec fn spec_auth(&self) -> Option<String> {
        self.auth
    }

    /// The negotiated configuration.
    pub closed spec fn spec_config(&self) -> ConfigResponse {
        self.config
    }

    /// The subscribed channel.
    pub closed spec fn spec_channel(&self) -> Seq<char> {
        self.channel@
    }

    /// The subscribed topic.
    pub closed spec fn spec_topic(&self) -> Seq<char> {
        self.topic@
    }

    /// The requested flow-control credit.
    pub closed spec fn spec_rdy(&self) -> u32 {
        self.rdy
    }

    /// An empty record: no token, a default configuration, empty names.
    pub fn new() -> (r: TcpConnection)
        ensures
            r.spec_auth() is None,
            r.spec_channel() == Seq::<char>::empty(),
            r.spec_topic() == Seq::<char>::empty(),
            r.spec_rdy() == 0,
    {
        TcpConnection {
            auth: None,
            config: ConfigResponse::default(),
            channel: String::new(),
            topic: String::new(),
            rdy: 0u32,
        }
    }

    /// Set the authentication token.
    pub fn auth(self, auth: Option<String>) -> (r: TcpConnection)
        ensures
            r.spec_auth() == auth,
            r.spec_config() == self.spec_config(),
            r.spec_channel() == self.spec_channel(),
            r.spec_topic() == self.spec_topic(),
            r.spec_rdy() == self.spec_rdy(),
    {
        TcpConnection { auth, ..self }
    }

    /// Set the negotiated configuration.
    pub fn config(self, cfg: ConfigResponse) -> (r: TcpConnection)
        ensures
            r.spec_config() == cfg,
            r.spec_auth() == self.spec_auth(),
            r.spec_channel() == self.spec_channel(),
            r.spec_topic() == self.spec_topic(),
            r.spec_rdy() == self.spec_rdy(),
    {
        TcpConnection { config: cfg, ..self }
    }

    /// Set the channel and topic to subscribe.
    pub fn channel(self, channel: String, topic: String) -> (r: TcpConnection)
        ensures
            r.spec_channel() == channel@,
            r.spec_topic() == topic@,
            r.spec_auth() == self.spec_auth(),
            r.spec_config() == self.spec_config(),
            r.spec_rdy() == self.spec_rdy(),
    {
        TcpConnection { channel, topic, ..self }
    }

    /// Set the requested flow-control credit.
    pub fn rdy(self, rdy: u32) -> (r: TcpConnection)
        ensures
            r.spec_rdy() == rdy,
            r.spec_auth() == self.spec_auth(),
            r.spec_config() == self.spec_config(),
            r.spec_channel() == self.spec_channel(),
            r.spec_topic() == self.spec_topic(),
    {
        TcpConnection { rdy, ..self }
    }
}

impl Default for TcpConnection {
    /// The same empty record as `new`.
    fn default() -> (r: TcpConnection)
        ensures
            r.spec_auth() is None,
            r.spec_channel() == Seq::<char>::empty(),
            r.spec_topic() == Seq::<char>::empty(),
            r.spec_rdy() == 0,
    {
        TcpConnection::new()
    }
}

} // verus!
