//! Configuration model: the features this side requests in the
//! feature-negotiation step, and the configuration the server answers with.

use vstd::prelude::*;
use vstd::string::StringSliceAdditionalSpecFns;
use crate::json::{
    push_json_bool, push_json_key, push_json_null, push_json_string, spec_json_bool,
    spec_json_key, spec_json_null, spec_json_string,
};
use crate::wire::{push_dec_i64, push_dec_u64, spec_dec_i64, spec_dec_u64};

verus! {

/// Relies on `hostname::get`: the machine's hostname, an outcome that
/// depends on the environment and is promised nothing about.
#[verifier::external_body]
fn get_hostname() -> (r: Option<String>)
{
    match hostname::get() {
        Ok(h) => h.into_string().ok(),
        Err(_) => None,
    }
}

/// The features requested from the server. The first thirteen fields are
/// rendered into the feature-negotiation JSON, in this order; the rest stay
/// on this side of the wire.
pub struct Config {
    /// Identifier of this client. Rendered.
    pub client_id: Option<String>,
    /// Hostname of this client. Rendered.
    pub hostname: Option<String>,
    /// Must stay true for the server's answer to be observed. Rendered.
    pub feature_negotiation: bool,
    /// Milliseconds between heartbeats; `-1` disables them. Rendered.
    pub heartbeat_interval: i64,
    /// Server-side write buffer in bytes. Rendered.
    pub output_buffer_size: u64,
    /// Milliseconds before the server flushes its buffer. Rendered.
    pub output_buffer_timeout: u32,
    /// Request an upgrade to TLS. Rendered.
    pub tls_v1: bool,
    /// Request snappy compression. Rendered.
    pub snappy: bool,
    /// Request deflate compression. Rendered.
    pub deflate: bool,
    /// Deflate level, 1 up to the server's maximum. Rendered.
    pub deflate_level: u16,
    /// Percentage of messages delivered, 0 meaning all. Rendered.
    pub sample_rate: u16,
    /// The agent string of this library. Rendered.
    pub user_agent: String,
    /// Server-side message timeout in milliseconds, 0 for the default. Rendered.
    pub message_timeout: u32,
    /// Certificate bundle path for the TLS upgrade. Never rendered.
    pub cafile: Option<String>,
    /// Authentication token. Never rendered.
    pub auth: Option<String>,
    /// Consumer channel. Never rendered.
    pub channel: Option<String>,
    /// Consumer topic. Never rendered.
    pub topic: Option<String>,
    /// Requested flow-control credit. Never rendered.
    pub rdy: u32,
}

/// A rendered optional string: `null` when absent.
pub open spec fn spec_json_opt_string(s: Option<Seq<char>>) -> Seq<u8> {
    match s {
        Some(cs) => spec_json_string(cs),
        None => spec_json_null(),
    }
}

/// The view of an optional string.
pub open spec fn spec_opt_view(s: Option<String>) -> Option<Seq<char>> {
    match s {
        Some(x) => Some(x@),
        None => None,
    }
}

/// The exact feature-negotiation JSON of a configuration: every rendered
/// field, in declaration order, none omitted, `-1` sentinels numeric.
pub open spec fn spec_config_json(c: Config) -> Seq<u8> {
    seq![123u8]  // {
     + spec_json_key("client_id".spec_bytes()) + spec_json_opt_string(spec_opt_view(c.client_id))
        + seq![44u8] + spec_json_key("hostname".spec_bytes()) + spec_json_opt_string(
        spec_opt_view(c.hostname),
    ) + seq![44u8] + spec_json_key("feature_negotiation".spec_bytes()) + spec_json_bool(
        c.feature_negotiation,
    ) + seq![44u8] + spec_json_key("heartbeat_interval".spec_bytes()) + spec_dec_i64(
        c.heartbeat_interval as int,
    ) + seq![44u8] + spec_json_key("output_buffer_size".spec_bytes()) + spec_dec_u64(
        c.output_buffer_size as nat,
    ) + seq![44u8] + spec_json_key("output_buffer_timeout".spec_bytes()) + spec_dec_u64(
        c.output_buffer_timeout as nat,
    ) + seq![44u8] + spec_json_key("tls_v1".spec_bytes()) + spec_json_bool(c.tls_v1) + seq![44u8]
        + spec_json_key("snappy".spec_bytes()) + spec_json_bool(c.snappy) + seq![44u8]
        + spec_json_key("deflate".spec_bytes()) + spec_json_bool(c.deflate) + seq![44u8]
        + spec_json_key("deflate_level".spec_bytes()) + spec_dec_u64(c.deflate_level as nat)
        + seq![44u8] + spec_json_key("sample_rate".spec_bytes()) + spec_dec_u64(
        c.sample_rate as nat,
    ) + seq![44u8] + spec_json_key("user_agent".spec_bytes()) + spec_json_string(c.user_agent@)
        + seq![44u8] + spec_json_key("message_timeout".spec_bytes()) + spec_dec_u64(
        c.message_timeout as nat,
    ) + seq![125u8]  // }

}

/// Append an optional string as JSON.
fn push_json_opt_string(out: &mut Vec<u8>, s: &Option<String>)
    ensures
        final(out)@ == old(out)@ + spec_json_opt_string(spec_opt_view(*s)),
{
    match s {
        Some(x) => push_json_string(out, x.as_str()),
        None => push_json_null(out),
    }
}

impl Config {
    /// Render the feature-negotiation JSON of this configuration.
    #[verifier::rlimit(60)]
    pub fn to_json(&self) -> (r: Vec<u8>)
        ensures
            r@ == spec_config_json(*self),
    {
        let mut r: Vec<u8> = Vec::new();
        r.push(123);
        push_json_key(&mut r, "client_id");
        push_json_opt_string(&mut r, &self.client_id);
        r.push(44);
        push_json_key(&mut r, "hostname");
        push_json_opt_string(&mut r, &self.hostname);
        r.push(44);
        push_json_key(&mut r, "feature_negotiation");
        push_json_bool(&mut r, self.feature_negotiation);
        r.push(44);
        push_json_key(&mut r, "heartbeat_interval");
        push_dec_i64(&mut r, self.heartbeat_interval);
        r.push(44);
        push_json_key(&mut r, "output_buffer_size");
        push_dec_u64(&mut r, self.output_buffer_size);
        r.push(44);
        push_json_key(&mut r, "output_buffer_timeout");
        push_dec_u64(&mut r, self.output_buffer_timeout as u64);
        r.push(44);
        push_json_key(&mut r, "tls_v1");
        push_json_bool(&mut r, self.tls_v1);
        r.push(44);
        push_json_key(&mut r, "snappy");
        push_json_bool(&mut r, self.snappy);
        r.push(44);
        push_json_key(&mut r, "deflate");
        push_json_bool(&mut r, self.deflate);
        r.push(44);
        push_json_key(&mut r, "deflate_level");
        push_dec_u64(&mut r, self.deflate_level as u64);
        r.push(44);
        push_json_key(&mut r, "sample_rate");
        push_dec_u64(&mut r, self.sample_rate as u64);
        r.push(44);
        push_json_key(&mut r, "user_agent");
        push_json_string(&mut r, self.user_agent.as_str());
        r.push(44);
        push_json_key(&mut r, "message_timeout");
        push_dec_u64(&mut r, self.message_timeout as u64);
        r.push(125);
        proof {
            assert(r@ =~= spec_config_json(*self));
        }
        r
    }
}

/// The field values every fresh configuration starts from, identity fields
/// aside.
pub open spec fn spec_default_fields(
    c: Config,
    user_agent: Seq<char>,
    deflate: bool,
    deflate_level: u16,
    snappy: bool,
    tls_v1: bool,
    feature_negotiation: bool,
    heartbeat_interval: i64,
    message_timeout: u32,
    output_buffer_size: u64,
    output_buffer_timeout: u32,
    sample_rate: u16,
) -> bool {
    &&& c.user_agent@ == user_agent
    &&& c.deflate == deflate
    &&& c.deflate_level == deflate_level
    &&& c.snappy == snappy
    &&& c.tls_v1 == tls_v1
    &&& c.feature_negotiation == feature_negotiation
    &&& c.heartbeat_interval == heartbeat_interval
    &&& c.message_timeout == message_timeout
    &&& c.output_buffer_size == output_buffer_size
    &&& c.output_buffer_timeout == output_buffer_timeout
    &&& c.sample_rate == sample_rate
    &&& c.cafile is None
    &&& c.auth is None
    &&& c.channel is None
    &&& c.topic is None
    &&& c.rdy == 0
}

impl Default for Config {
    /// The documented defaults: no compression, no TLS, feature negotiation
    /// on, a 30-second heartbeat, and the machine's hostname as identity.
    fn default() -> (r: Config)
        ensures
            spec_default_fields(r, "rust nsq"@, false, 6, false, false, true, 30000, 0, 16384, 250, 0),
    {
        Config {
            client_id: get_hostname(),
            user_agent: "rust nsq".to_owned(),
            hostname: get_hostname(),
            deflate: false,
            deflate_level: 6,
            snappy: false,
            tls_v1: false,
            feature_negotiation: true,
            heartbeat_interval: 30000,
            message_timeout: 0,
            output_buffer_size: 16384,
            output_buffer_timeout: 250,
            sample_rate: 0,
            cafile: None,
            auth: None,
            channel: None,
            topic: None,
            rdy: 0,
        }
    }
}

/// The configuration the server answers the feature-negotiation request
/// with, authoritative for the negotiated features.
pub struct ConfigResponse {
    /// The largest flow-control credit the server accepts.
    pub max_rdy_count: u32,
    /// The server's version string.
    pub version: String,
    /// The largest message timeout the server grants.
    pub max_msg_timeout: u64,
    /// The negotiated message timeout.
    pub msg_timeout: u64,
    /// Whether the connection upgrades to TLS.
    pub tls_v1: bool,
    /// Whether deflate compression was negotiated.
    pub deflate: bool,
    /// The negotiated deflate level.
    pub deflate_level: u16,
    /// The largest deflate level the server accepts.
    pub max_deflate_level: u16,
    /// Whether snappy compression was negotiated.
    pub snappy: bool,
    /// The negotiated sample rate.
    pub sample_rate: u16,
    /// Whether the server demands authentication.
    pub auth_required: bool,
    /// The negotiated server-side buffer size.
    pub output_buffer_size: u64,
    /// The negotiated server-side buffer timeout.
    pub output_buffer_timeout: u32,
}

impl Default for ConfigResponse {
    /// All features off, all counts zero.
    fn default() -> (r: ConfigResponse)
        ensures
            r.max_rdy_count == 0,
            r.version@ == Seq::<char>::empty(),
            r.max_msg_timeout == 0,
            r.msg_timeout == 0,
            !r.tls_v1,
            !r.deflate,
            r.deflate_level == 0,
            r.max_deflate_level == 0,
            !r.snappy,
            r.sample_rate == 0,
            !r.auth_required,
            r.output_buffer_size == 0,
            r.output_buffer_timeout == 0,
    {
        ConfigResponse {
            max_rdy_count: 0,
            version: String::new(),
            max_msg_timeout: 0,
            msg_timeout: 0,
            tls_v1: false,
            deflate: false,
            deflate_level: 0,
            max_deflate_level: 0,
            snappy: false,
            sample_rate: 0,
            auth_required: false,
            output_buffer_size: 0,
            output_buffer_timeout: 0,
        }
    }
}

/// Per-field construction of a `Config`, the supported construction path.
pub struct ConfigBuilder {
    config: Config,
}

impl ConfigBuilder {
    /// The configuration this builder holds so far.
    pub closed spec fn view(&self) -> Config {
        self.config
    }

    /// Start from the documented defaults.
    pub fn new() -> (r: ConfigBuilder)
        ensures
            spec_default_fields(r@, "rust nsq"@, false, 6, false, false, true, 30000, 0, 16384, 250, 0),
    {
        ConfigBuilder { config: Config::default() }
    }

    /// Finish: the configuration as built.
    pub fn build(self) -> (r: Config)
        ensures
            r == self@,
    {
        self.config
    }

    /// Set the client identifier.
    pub fn client_id(self, id: Option<String>) -> (r: ConfigBuilder)
        ensures
            r@ == (Config { client_id: id, ..self@ }),
    {
        ConfigBuilder { config: Config { client_id: id, ..self.config } }
    }

    /// Set the agent string.
    pub fn user_agent(self, ua: String) -> (r: ConfigBuilder)
        ensures
            r@ == (Config { user_agent: ua, ..self@ }),
    {
        ConfigBuilder { config: Config { user_agent: ua, ..self.config } }
    }

    /// Set the hostname sent to the server.
    pub fn hostname(self, hostname: Option<String>) -> (r: ConfigBuilder)
        ensures
            r@ == (Config { hostname: hostname, ..self@ }),
    {
        ConfigBuilder { config: Config { hostname: hostname, ..self.config } }
    }

    /// Request deflate compression.
    pub fn deflate(self, d: bool) -> (r: ConfigBuilder)
        ensures
            r@ == (Config { deflate: d, ..self@ }),
    {
        ConfigBuilder { config: Config { deflate: d, ..self.config } }
    }

    /// Set the deflate level.
    pub fn deflate_level(self, dl: u16) -> (r: ConfigBuilder)
        ensures
            r@ == (Config { deflate_level: dl, ..self@ }),
    {
        ConfigBuilder { config: Config { deflate_level: dl, ..self.config } }
    }

    /// Request snappy compression.
    pub fn snappy(self, s: bool) -> (r: ConfigBuilder)
        ensures
            r@ == (Config { snappy: s, ..self@ }),
    {
        ConfigBuilder { config: Config { snappy: s, ..self.config } }
    }

    /// Request the TLS upgrade.
    pub fn tls_v1(self, tls: bool) -> (r: ConfigBuilder)
        ensures
            r@ == (Config { tls_v1: tls, ..self@ }),
    {
        ConfigBuilder { config: Config { tls_v1: tls, ..self.config } }
    }

    /// Switch feature negotiation on or off.
    pub fn feature_negotiation(self, negotiation: bool) -> (r: ConfigBuilder)
        ensures
            r@ == (Config { feature_negotiation: negotiation, ..self@ }),
    {
        ConfigBuilder { config: Config { feature_negotiation: negotiation, ..self.config } }
    }

    /// Set the heartbeat interval in milliseconds; `-1` disables heartbeats.
    pub fn heartbeat_interval(self, interval: i64) -> (r: ConfigBuilder)
        ensures
            r@ == (Config { heartbeat_interval: interval, ..self@ }),
    {
        ConfigBuilder { config: Config { heartbeat_interval: interval, ..self.config } }
    }

    /// Set the server-side message timeout; 0 keeps the server default.
    pub fn message_timeout(self, timeout: u32) -> (r: ConfigBuilder)
        ensures
            r@ == (Config { message_timeout: timeout, ..self@ }),
    {
        ConfigBuilder { config: Config { message_timeout: timeout, ..self.config } }
    }

    /// Set the server-side buffer size in bytes.
    pub fn output_buffer_size(self, size: u64) -> (r: ConfigBuilder)
        ensures
            r@ == (Config { output_buffer_size: size, ..self@ }),
    {
        ConfigBuilder { config: Config { output_buffer_size: size, ..self.config } }
    }

    /// Set the server-side buffer timeout in milliseconds.
    pub fn output_buffer_timeout(self, timeout: u32) -> (r: ConfigBuilder)
        ensures
            r@ == (Config { output_buffer_timeout: timeout, ..self@ }),
    {
        ConfigBuilder { config: Config { output_buffer_timeout: timeout, ..self.config } }
    }

    /// Set the sampled percentage of the channel.
    pub fn sample_rate(self, rate: u16) -> (r: ConfigBuilder)
        ensures
            r@ == (Config { sample_rate: rate, ..self@ }),
    {
        ConfigBuilder { config: Config { sample_rate: rate, ..self.config } }
    }

    /// Set the certificate bundle for the TLS upgrade.
    pub fn cafile(self, cafile: String) -> (r: ConfigBuilder)
        ensures
            r@ == (Config { cafile: Some(cafile), ..self@ }),
    {
        ConfigBuilder { config: Config { cafile: Some(cafile), ..self.config } }
    }

    /// Set the authentication token.
    pub fn auth(self, auth: String) -> (r: ConfigBuilder)
        ensures
            r@ == (Config { auth: Some(auth), ..self@ }),
    {
        ConfigBuilder { config: Config { auth: Some(auth), ..self.config } }
    }

    /// Set the consumer channel and topic.
    pub fn channel(self, channel: String, topic: String) -> (r: ConfigBuilder)
        ensures
            r@ == (Config { channel: Some(channel), topic: Some(topic), ..self@ }),
    {
        ConfigBuilder {
            config: Config { channel: Some(channel), topic: Some(topic), ..self.config },
        }
    }

    /// Set the requested flow-control credit.
    pub fn rdy(self, rdy: u32) -> (r: ConfigBuilder)
        ensures
            r@ == (Config { rdy: rdy, ..self@ }),
    {
        ConfigBuilder { config: Config { rdy: rdy, ..self.config } }
    }
}

impl Default for ConfigBuilder {
    /// The same defaults as a fresh configuration.
    fn default() -> (r: ConfigBuilder)
        ensures
            spec_default_fields(r@, "rust nsq"@, false, 6, false, false, true, 30000, 0, 16384, 250, 0),
    {
        ConfigBuilder::new()
    }
}

} // verus!
