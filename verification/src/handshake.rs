//! The handshake engine: magic, feature negotiation, the optional TLS
//! upgrade, the optional authentication, then ready.
//!
//! The engine is a pure state machine. A driver performs each returned
//! action and hands the outcome back as the next event: after `Write` it
//! reports `Sent`; after `Read` it feeds the next `Frame`; after
//! `ParseConfig` or `ParseAuth` it parses the JSON and feeds the parsed
//! value; after `StartTls` it upgrades the transport and reports
//! `TlsEstablished`; `Finish` and `Fail` end the handshake.
//!
//! The engine performs at most one feature negotiation, at most one TLS
//! upgrade and at most one authentication per connection: the three write
//! counters never pass one. The TLS upgrade happens exactly when both the
//! requested and the negotiated configuration ask for it; authentication
//! happens exactly when the negotiated configuration demands it, and without
//! a token it fails before anything else is written.

use vstd::prelude::*;
use vstd::string::{StrSliceExecFns, StringExecFns};
use vstd::utf8::encode_utf8;
use crate::auth::AuthResponse;
use crate::codec::{
    encode_auth_bytes, encode_identify_bytes, spec_auth, spec_identify, spec_magic, Encoder, Magic,
};
use crate::config::{spec_config_json, Config, ConfigResponse};
use crate::error::NsqError;
use crate::frame::Frame;
use crate::response::Response;

verus! {

/// Where the handshake stands. Transitions are linear; any error lands in
/// `Failed`.
#[derive(Clone, Copy, Debug, PartialEq, Eq, Structural)]
pub enum HandshakeState {
    /// Nothing written yet.
    Start,
    /// The magic has been handed to the driver.
    MagicSent,
    /// The feature-negotiation request has been handed to the driver.
    IdentifySent,
    /// Waiting for the feature-negotiation response frame.
    AwaitingIdentify,
    /// The response JSON is out for parsing.
    AwaitingConfig,
    /// The TLS upgrade is in the driver's hands.
    TlsStarting,
    /// Waiting for the server's confirmation frame on the fresh TLS stream.
    AwaitingTlsOk,
    /// The authentication request has been handed to the driver.
    AuthSent,
    /// Waiting for the authentication response frame.
    AwaitingAuth,
    /// The authentication JSON is out for parsing.
    AwaitingAuthParse,
    /// The handshake is complete.
    Ready,
    /// The handshake is over with an error.
    Failed,
}

/// What the driver hands the engine.
pub enum HsEvent {
    /// Start the handshake.
    Begin,
    /// The last `Write` action went out whole.
    Sent,
    /// The next frame from the wire.
    Frame(Frame),
    /// The parsed feature-negotiation response.
    ConfigParsed(ConfigResponse),
    /// The transport now runs over TLS.
    TlsEstablished,
    /// The parsed authentication response.
    AuthParsed(AuthResponse),
}

/// What the engine asks the driver to do next.
pub enum HsAction {
    /// Write these bytes, then report `Sent`.
    Write(Vec<u8>),
    /// Read one frame, then feed it back.
    Read,
    /// Parse this feature-negotiation JSON, then feed the result back.
    ParseConfig(String),
    /// Upgrade the transport to TLS, then report `TlsEstablished`.
    StartTls,
    /// Parse this authentication JSON, then feed the result back.
    ParseAuth(String),
    /// The handshake is complete.
    Finish,
    /// The handshake failed; close the connection.
    Fail(NsqError),
}

/// What follows once the negotiated configuration's authentication demand is
/// known: authenticate with the token, fail for want of one, or be ready.
pub open spec fn spec_auth_decision(
    token: Option<String>,
    auth_required: bool,
    post_state: HandshakeState,
    r: HsAction,
    pre_auth_writes: u32,
    post_auth_writes: u32,
) -> bool {
    if auth_required {
        match token {
            Some(tok) => {
                &&& post_state is AuthSent
                &&& r matches HsAction::Write(b) && b@ == spec_auth(encode_utf8(tok@))
                &&& post_auth_writes == pre_auth_writes + 1
            },
            None => {
                &&& post_state is Failed
                &&& r matches HsAction::Fail(n) && n matches NsqError::ConfigMismatch(m) && m@
                    == "auth token required"@
                &&& post_auth_writes == pre_auth_writes
            },
        }
    } else {
        &&& post_state is Ready
        &&& r is Finish
        &&& post_auth_writes == pre_auth_writes
    }
}

/// The handshake engine for one connection.
pub struct Handshake {
    config: Config,
    state: HandshakeState,
    negotiated: Option<ConfigResponse>,
    identify_writes: u32,
    tls_upgrades: u32,
    auth_writes: u32,
}

impl Handshake {
    /// The requested configuration.
    pub closed spec fn cfgreq(&self) -> Config {
        self.config
    }

    /// Where the handshake stands.
    pub closed spec fn spec_state(&self) -> HandshakeState {
        self.state
    }

    /// The negotiated configuration, once the response is parsed.
    pub closed spec fn spec_negotiated(&self) -> Option<ConfigResponse> {
        self.negotiated
    }

    /// How many feature-negotiation requests have been written.
    pub closed spec fn identify_writes(&self) -> u32 {
        self.identify_writes
    }

    /// How many TLS upgrades have been started.
    pub closed spec fn tls_upgrades(&self) -> u32 {
        self.tls_upgrades
    }

    /// How many authentication requests have been written.
    pub closed spec fn auth_writes(&self) -> u32 {
        self.auth_writes
    }

    /// The engine's invariant. Above all: no more than one feature
    /// negotiation, one TLS upgrade and one authentication per connection.
    pub closed spec fn inv(&self) -> bool {
        &&& self.identify_writes <= 1
        &&& self.tls_upgrades <= 1
        &&& self.auth_writes <= 1
        &&& (self.state is Start || self.state is MagicSent ==> self.identify_writes == 0)
        &&& (self.state is Start || self.state is MagicSent || self.state is IdentifySent
            || self.state is AwaitingIdentify || self.state is AwaitingConfig ==> self.tls_upgrades
            == 0 && self.auth_writes == 0)
        &&& (self.state is TlsStarting || self.state is AwaitingTlsOk ==> self.auth_writes == 0)
        &&& (self.state is TlsStarting || self.state is AwaitingTlsOk || self.state is AuthSent
            || self.state is AwaitingAuth || self.state is AwaitingAuthParse || self.state is Ready
            ==> self.negotiated is Some)
        &&& (self.config.auth matches Some(t) ==> encode_utf8(t@).len() <= 0xFFFF_FFFF)
        &&& spec_config_json(self.config).len() <= 0xFFFF_FFFF
    }

    /// A fresh engine for one connection.
    ///
    /// The length bounds are machine limits: the configuration JSON and the
    /// token must fit their 32-bit length fields.
    pub fn new(config: Config) -> (r: Handshake)
        requires
            spec_config_json(config).len() <= 0xFFFF_FFFF,
            config.auth matches Some(t) ==> encode_utf8(t@).len() <= 0xFFFF_FFFF,
        ensures
            r.inv(),
            r.spec_state() is Start,
            r.cfgreq() == config,
            r.spec_negotiated() is None,
            r.identify_writes() == 0,
            r.tls_upgrades() == 0,
            r.auth_writes() == 0,
    {
        Handshake {
            config,
            state: HandshakeState::Start,
            negotiated: None,
            identify_writes: 0,
            tls_upgrades: 0,
            auth_writes: 0,
        }
    }

    /// The negotiated configuration, surrendered once the handshake is done.
    pub fn into_negotiated(self) -> (r: Option<ConfigResponse>)
        ensures
            r == self.spec_negotiated(),
    {
        self.negotiated
    }

    /// Whether the handshake has completed.
    pub fn is_ready(&self) -> (r: bool)
        ensures
            r == (self.spec_state() is Ready),
    {
        match self.state {
            HandshakeState::Ready => true,
            _ => false,
        }
    }

    /// Drive the handshake one step: consume an event, move, and return the
    /// one action the driver performs next.
    pub fn step(&mut self, ev: HsEvent) -> (r: HsAction)
        requires
            old(self).inv(),
        ensures
            final(self).inv(),
            final(self).cfgreq() == old(self).cfgreq(),
            // The single-shot law: write counters never shrink and never pass one.
            old(self).identify_writes() <= final(self).identify_writes() <= 1,
            old(self).tls_upgrades() <= final(self).tls_upgrades() <= 1,
            old(self).auth_writes() <= final(self).auth_writes() <= 1,
            // A counter moves exactly with its write or upgrade going out.
            final(self).identify_writes() != old(self).identify_writes() ==> (r matches
                HsAction::Write(b) && b@ == spec_identify(spec_config_json(old(self).cfgreq()))),
            final(self).tls_upgrades() != old(self).tls_upgrades() ==> r is StartTls,
            final(self).auth_writes() != old(self).auth_writes() ==> (r matches HsAction::Write(b)
                && (old(self).cfgreq().auth matches Some(tok) && b@ == spec_auth(
                encode_utf8(tok@),
            ))),
            // The transition table.
            (old(self).spec_state() is Start && ev is Begin) ==> {
                &&& final(self).spec_state() is MagicSent
                &&& r matches HsAction::Write(b) && b@ == spec_magic()
            },
            (old(self).spec_state() is MagicSent && ev is Sent) ==> {
                &&& final(self).spec_state() is IdentifySent
                &&& r matches HsAction::Write(b) && b@ == spec_identify(
                    spec_config_json(old(self).cfgreq()),
                )
                &&& final(self).identify_writes() == old(self).identify_writes() + 1
            },
            (old(self).spec_state() is IdentifySent && ev is Sent) ==> {
                &&& final(self).spec_state() is AwaitingIdentify
                &&& r is Read
            },
            old(self).spec_state() is AwaitingIdentify ==> (ev matches HsEvent::Frame(f)
                ==> match f {
                Frame::Response(Response::Json(s)) => final(self).spec_state() is AwaitingConfig
                    && (r matches HsAction::ParseConfig(js) && js == s),
                Frame::Error(e) => final(self).spec_state() is Failed && (r matches
                    HsAction::Fail(n) && n == NsqError::Protocol(e)),
                _ => final(self).spec_state() is Failed && (r matches HsAction::Fail(n)
                    && n is Decode),
            }),
            old(self).spec_state() is AwaitingConfig ==> (ev matches HsEvent::ConfigParsed(cfg)
                ==> {
                &&& final(self).spec_negotiated() == Some(cfg)
                &&& if old(self).cfgreq().tls_v1 && cfg.tls_v1 {
                    &&& final(self).spec_state() is TlsStarting
                    &&& r is StartTls
                    &&& final(self).tls_upgrades() == old(self).tls_upgrades() + 1
                } else {
                    spec_auth_decision(
                        old(self).cfgreq().auth,
                        cfg.auth_required,
                        final(self).spec_state(),
                        r,
                        old(self).auth_writes(),
                        final(self).auth_writes(),
                    )
                }
            }),
            (old(self).spec_state() is TlsStarting && ev is TlsEstablished) ==> {
                &&& final(self).spec_state() is AwaitingTlsOk
                &&& r is Read
            },
            old(self).spec_state() is AwaitingTlsOk ==> (ev matches HsEvent::Frame(f)
                ==> match f {
                Frame::Response(Response::Okay) => spec_auth_decision(
                    old(self).cfgreq().auth,
                    old(self).spec_negotiated()->Some_0.auth_required,
                    final(self).spec_state(),
                    r,
                    old(self).auth_writes(),
                    final(self).auth_writes(),
                ),
                Frame::Error(e) => final(self).spec_state() is Failed && (r matches
                    HsAction::Fail(n) && n == NsqError::Protocol(e)),
                _ => final(self).spec_state() is Failed && (r matches HsAction::Fail(n)
                    && n is Decode),
            }),
            (old(self).spec_state() is AuthSent && ev is Sent) ==> {
                &&& final(self).spec_state() is AwaitingAuth
                &&& r is Read
            },
            old(self).spec_state() is AwaitingAuth ==> (ev matches HsEvent::Frame(f)
                ==> match f {
                Frame::Response(Response::Json(s)) => final(self).spec_state() is AwaitingAuthParse
                    && (r matches HsAction::ParseAuth(js) && js == s),
                Frame::Error(e) => final(self).spec_state() is Failed && (r matches
                    HsAction::Fail(n) && n == NsqError::Protocol(e)),
                _ => final(self).spec_state() is Failed && (r matches HsAction::Fail(n)
                    && n is Decode),
            }),
            (old(self).spec_state() is AwaitingAuthParse && ev is AuthParsed) ==> {
                &&& final(self).spec_state() is Ready
                &&& r is Finish
            },
            (old(self).spec_state() is Ready) ==> {
                &&& final(self).spec_state() is Ready
                &&& r is Finish
            },
    {
        let state = self.state;
        match (state, ev) {
            (HandshakeState::Start, HsEvent::Begin) => {
                self.state = HandshakeState::MagicSent;
                HsAction::Write(Magic.encode())
            },
            (HandshakeState::MagicSent, HsEvent::Sent) => {
                self.state = HandshakeState::IdentifySent;
                self.identify_writes = self.identify_writes + 1;
                let json = self.config.to_json();
                HsAction::Write(encode_identify_bytes(json.as_slice()))
            },
            (HandshakeState::IdentifySent, HsEvent::Sent) => {
                self.state = HandshakeState::AwaitingIdentify;
                HsAction::Read
            },
            (HandshakeState::AwaitingIdentify, HsEvent::Frame(f)) => match f {
                Frame::Response(Response::Json(s)) => {
                    self.state = HandshakeState::AwaitingConfig;
                    HsAction::ParseConfig(s)
                },
                Frame::Error(e) => {
                    self.state = HandshakeState::Failed;
                    HsAction::Fail(NsqError::Protocol(e))
                },
                _ => {
                    self.state = HandshakeState::Failed;
                    HsAction::Fail(
                        NsqError::Decode(
                            String::from_str("unexpected frame in feature negotiation"),
                        ),
                    )
                },
            },
            (HandshakeState::AwaitingConfig, HsEvent::ConfigParsed(cfg)) => {
                let tls = self.config.tls_v1 && cfg.tls_v1;
                let auth_required = cfg.auth_required;
                self.negotiated = Some(cfg);
                if tls {
                    self.state = HandshakeState::TlsStarting;
                    self.tls_upgrades = self.tls_upgrades + 1;
                    HsAction::StartTls
                } else {
                    self.auth_or_finish(auth_required)
                }
            },
            (HandshakeState::TlsStarting, HsEvent::TlsEstablished) => {
                self.state = HandshakeState::AwaitingTlsOk;
                HsAction::Read
            },
            (HandshakeState::AwaitingTlsOk, HsEvent::Frame(f)) => match f {
                Frame::Response(Response::Okay) => {
                    let auth_required = match &self.negotiated {
                        Some(n) => n.auth_required,
                        None => false,
                    };
                    self.auth_or_finish(auth_required)
                },
                Frame::Error(e) => {
                    self.state = HandshakeState::Failed;
                    HsAction::Fail(NsqError::Protocol(e))
                },
                _ => {
                    self.state = HandshakeState::Failed;
                    HsAction::Fail(
                        NsqError::Decode(
                            String::from_str("unexpected frame after the upgrade"),
                        ),
                    )
                },
            },
            (HandshakeState::AuthSent, HsEvent::Sent) => {
                self.state = HandshakeState::AwaitingAuth;
                HsAction::Read
            },
            (HandshakeState::AwaitingAuth, HsEvent::Frame(f)) => match f {
                Frame::Response(Response::Json(s)) => {
                    self.state = HandshakeState::AwaitingAuthParse;
                    HsAction::ParseAuth(s)
                },
                Frame::Error(e) => {
                    self.state = HandshakeState::Failed;
                    HsAction::Fail(NsqError::Protocol(e))
                },
                _ => {
                    self.state = HandshakeState::Failed;
                    HsAction::Fail(
                        NsqError::Decode(String::from_str("unexpected frame in authentication")),
                    )
                },
            },
            (HandshakeState::AwaitingAuthParse, HsEvent::AuthParsed(_)) => {
                self.state = HandshakeState::Ready;
                HsAction::Finish
            },
            (HandshakeState::Ready, _) => HsAction::Finish,
            _ => {
                self.state = HandshakeState::Failed;
                HsAction::Fail(
                    NsqError::Decode(String::from_str("unexpected event for this handshake state")),
                )
            },
        }
    }

    /// The single-shot law: under the engine's invariant, no connection ever
    /// sees more than one feature negotiation, one TLS upgrade or one
    /// authentication, whatever events arrive. Every step keeps the
    /// invariant and only ever raises a counter together with its write.
    pub proof fn lemma_single_shot(&self)
        requires
            self.inv(),
        ensures
            self.identify_writes() <= 1,
            self.tls_upgrades() <= 1,
            self.auth_writes() <= 1,
    {
    }

    /// Once the authentication demand is known: write the token, fail for
    /// want of one, or finish.
    #[verifier::rlimit(60)]
    fn auth_or_finish(&mut self, auth_required: bool) -> (r: HsAction)
        requires
            old(self).inv(),
            old(self).auth_writes() == 0,
            old(self).spec_negotiated() is Some,
        ensures
            final(self).inv(),
            final(self).cfgreq() == old(self).cfgreq(),
            final(self).spec_negotiated() == old(self).spec_negotiated(),
            final(self).identify_writes() == old(self).identify_writes(),
            final(self).tls_upgrades() == old(self).tls_upgrades(),
            spec_auth_decision(
                old(self).cfgreq().auth,
                auth_required,
                final(self).spec_state(),
                r,
                old(self).auth_writes(),
                final(self).auth_writes(),
            ),
    {
        if auth_required {
            let token_bytes: Option<Vec<u8>> = match &self.config.auth {
                Some(t) => Some(t.as_str().as_bytes_vec()),
                None => None,
            };
            match token_bytes {
                Some(tb) => {
                    self.state = HandshakeState::AuthSent;
                    self.auth_writes = self.auth_writes + 1;
                    HsAction::Write(encode_auth_bytes(tb.as_slice()))
                },
                None => {
                    self.state = HandshakeState::Failed;
                    HsAction::Fail(
                        NsqError::ConfigMismatch(String::from_str("auth token required")),
                    )
                },
            }
        } else {
            self.state = HandshakeState::Ready;
            HsAction::Finish
        }
    }
}

} // verus!
