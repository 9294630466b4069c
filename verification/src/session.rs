//! The session handler: a state machine that drives registration, login,
//! query, messaging, and the chat drain over one shared inbound envelope
//! stream.
//!
//! The handler makes every protocol decision but performs no I/O: starting
//! a flow returns the envelope to send and the persistence command to run,
//! and each received envelope is handed to [`MessageHandler::handle_incoming`],
//! which says what to do next. The caller owns the loop: it sends, waits,
//! and feeds envelopes back in arrival order. Because envelopes are routed
//! by `(action, context)` alone, only one flow may be active at a time,
//! which the `requires` clauses enforce.

use vstd::prelude::*;
use crate::CryptoError;
use crate::crypto::Crypto;
use crate::crypto::OSSL_MAX_LEN;
use crate::crypto::pub_pem_of;
use crate::crypto::sig_valid;
use crate::envelope::DbWrite;
use crate::envelope::Envelope;
use crate::envelope::Incoming;
use crate::envelope::Outbound;
use crate::envelope::action_is;
use crate::envelope::ctx_is;
use crate::envelope::has_ctx;
use crate::hexfmt::hex_encode;
use crate::hexfmt::hex_of;
use crate::jsontext::json_chat_ciphertext;
use crate::jsontext::json_get_chat_ciphertext;
use crate::jsontext::json_get_str;
use crate::jsontext::json_obj1;
use crate::jsontext::json_obj1_of;
use crate::jsontext::json_obj2;
use crate::jsontext::json_obj2_of;
use crate::jsontext::json_obj3;
use crate::jsontext::json_obj3_of;
use crate::jsontext::json_str_field;
use crate::textutil::bytes_to_string;
use crate::textutil::string_eq_str;

verus! {

/// Which challenge-response flow is running.
#[derive(Debug, Clone, Copy, PartialEq, Eq, Structural)]
pub enum FlowKind {
    Registration,
    Login,
}

/// The pending flow guarding the shared inbound stream.
#[derive(Debug)]
pub enum Flow {
    Idle,
    /// A registration or login awaiting the server's challenge or verdict.
    Authenticating { kind: FlowKind, username: String },
    /// A directory query awaiting the server's response.
    Querying { username: String },
}

/// A session error surfaced to the caller.
#[derive(Debug, Clone, Copy, PartialEq, Eq, Structural)]
pub enum SessionError {
    /// An operation needed the local private key and none is loaded.
    NoLocalKey,
    /// A cryptographic primitive failed.
    Crypto(CryptoError),
}

/// What starting a flow hands back: the request envelope to send and, for
/// registration, the persistence command to run.
#[derive(Debug)]
pub struct StartedFlow {
    pub outbound: Outbound,
    pub write: Option<DbWrite>,
}

/// What one received envelope amounts to.
#[derive(Debug)]
pub enum Step {
    /// Not for the active flow; nothing changed.
    Ignored,
    /// A challenge was answered; the flow is still awaiting its verdict.
    Replied { outbound: Outbound },
    /// An authentication flow ended; on success the per-user storage is to
    /// be initialised.
    AuthDone { kind: FlowKind, username: String, success: bool, write: Option<DbWrite> },
    /// A query ended, with the pair found and the contact to persist, if
    /// any.
    QueryDone { result: Option<(String, String)>, write: Option<DbWrite> },
}

/// Chat messages drained from the inbound stream, with the persistence
/// commands recording them.
#[derive(Debug)]
pub struct DrainResult {
    pub messages: Vec<(String, String)>,
    pub writes: Vec<DbWrite>,
}

/// Session state: the identity, its key material, and the pending flow.
#[derive(Debug)]
pub struct MessageHandler {
    /// Currently authenticated username, absent until a flow succeeds.
    pub current_user: Option<String>,
    /// The user's PEM private key; never leaves the session.
    pub private_key: Option<Vec<u8>>,
    /// The user's PEM public key.
    pub public_key: Option<Vec<u8>>,
    /// The flow currently awaiting envelopes.
    pub flow: Flow,
}

/// The context tag of an authentication flow.
pub open spec fn flow_ctx(kind: FlowKind) -> Seq<char> {
    match kind {
        FlowKind::Registration => "registration"@,
        FlowKind::Login => "login"@,
    }
}

/// Whether the envelope is the server challenge of this flow.
pub open spec fn is_challenge_for(env: Envelope, kind: FlowKind) -> bool {
    env.action@ == "challenge"@ && has_ctx(env, flow_ctx(kind))
}

/// Whether the envelope is the server verdict of this flow.
pub open spec fn is_result_for(env: Envelope, kind: FlowKind) -> bool {
    env.action@ == "challengeResponse"@ && has_ctx(env, flow_ctx(kind))
}

/// Whether the envelope is a query response.
pub open spec fn is_query_response(env: Envelope) -> bool {
    env.action@ == "queryResponse"@ && has_ctx(env, "query"@)
}

/// The nonce of a challenge envelope, if its content carries one.
pub open spec fn challenge_nonce(env: Envelope) -> Option<Seq<char>> {
    match env.content {
        Some(c) => json_str_field(c@, "nonce"@),
        None => None,
    }
}

/// The name messages are sent under: the current user, or empty before
/// authentication.
pub open spec fn sender_name(h: MessageHandler) -> Seq<char> {
    match h.current_user {
        Some(u) => u@,
        None => Seq::empty(),
    }
}

/// Whether an optional username is present and equals this name.
pub open spec fn user_is(u: Option<String>, name: Seq<char>) -> bool {
    match u {
        Some(cu) => cu@ == name,
        None => false,
    }
}

/// The step that answers a challenge: a `challengeResponse` envelope in the
/// flow's context whose content carries the username and the hex of a
/// signature over the nonce's bytes that is valid for the public key
/// matching `sk`.
pub open spec fn challenge_reply(
    s: Step,
    kind: FlowKind,
    username: Seq<char>,
    sk: Seq<u8>,
    nonce: Seq<char>,
) -> bool {
    match s {
        Step::Replied { outbound } => {
            &&& outbound.recipient is None
            &&& outbound.signature is None
            &&& outbound.envelope.action@ == "challengeResponse"@
            &&& has_ctx(outbound.envelope, flow_ctx(kind))
            &&& match outbound.envelope.content {
                Some(c) => exists|raw: Seq<u8>|
                    c@ == json_obj2_of("signature"@, hex_of(raw), "username"@, username)
                        && #[trigger] sig_valid(
                        pub_pem_of(sk),
                        vstd::utf8::encode_utf8(nonce),
                        raw,
                    ),
                None => false,
            }
        },
        _ => false,
    }
}

/// The outbound direct message: a chat envelope to `recipient` whose
/// content is the canonical payload document and whose detached signature
/// is the hex of a signature over the payload's exact bytes, valid for
/// the public key matching `sk`.
pub open spec fn message_outbound(
    ob: Outbound,
    recipient: Seq<char>,
    text: Seq<char>,
    sender: Seq<char>,
    sk: Seq<u8>,
) -> bool {
    &&& match ob.recipient {
        Some(rt) => rt@ == recipient,
        None => false,
    }
    &&& ob.envelope.action@ == "message"@
    &&& has_ctx(ob.envelope, "chat"@)
    &&& match (ob.envelope.content, ob.signature) {
        (Some(c), Some(sg)) => c@ == json_obj3_of(
            "body"@,
            text,
            "recipient"@,
            recipient,
            "sender"@,
            sender,
        ) && exists|raw: Seq<u8>|
            sg@ == hex_of(raw) && #[trigger] sig_valid(
                pub_pem_of(sk),
                vstd::utf8::encode_utf8(c@),
                raw,
            ),
        _ => false,
    }
}

/// The step that ends an authentication flow with this verdict; on success
/// it carries the command to initialise the user's storage.
pub open spec fn auth_done(s: Step, kind: FlowKind, username: Seq<char>, success: bool) -> bool {
    match s {
        Step::AuthDone { kind: k, username: u, success: ok, write } => {
            &&& k == kind
            &&& u@ == username
            &&& ok == success
            &&& if success {
                match write {
                    Some(DbWrite::InitUser { username: wu }) => wu@ == username,
                    _ => false,
                }
            } else {
                write is None
            }
        },
        _ => false,
    }
}

/// The step that ends a query: the pair from the response's content, and
/// the contact written for the current user; "not found" when the content
/// is absent or does not carry both fields.
pub open spec fn query_outcome(s: Step, env: Envelope, me: Option<String>) -> bool {
    match s {
        Step::QueryDone { result, write } => match env.content {
            None => result is None && write is None,
            Some(doc) => match (
                json_str_field(doc@, "username"@),
                json_str_field(doc@, "publicKey"@),
            ) {
                (Some(u), Some(p)) => {
                    &&& match result {
                        Some(pair) => pair.0@ == u && pair.1@ == p,
                        None => false,
                    }
                    &&& match me {
                        Some(owner) => match write {
                            Some(
                                DbWrite::AddContact { owner: o, username: cu, public_key_pem: cp },
                            ) => o@ == owner@ && cu@ == u && cp@ == p,
                            _ => false,
                        },
                        None => write is None,
                    }
                },
                _ => result is None && write is None,
            },
        },
        _ => false,
    }
}

/// Whether a handler is abandoning a registration that never succeeded, in
/// which case its fresh key material is discarded.
pub open spec fn aborting_registration(h: MessageHandler) -> bool {
    match h.flow {
        Flow::Authenticating { kind, username } => kind == FlowKind::Registration
            && h.current_user is None,
        _ => false,
    }
}

/// The chat text of a received document: the nested ciphertext when the
/// content carries one, else the raw content.
pub open spec fn chat_text(doc: Seq<char>) -> Seq<char> {
    match json_chat_ciphertext(doc) {
        Some(c) => c,
        None => doc,
    }
}

/// The chat message an envelope carries: its sender and text, or `None`
/// for anything that is not a well-formed chat message.
pub open spec fn chat_extract(env: Envelope) -> Option<(Seq<char>, Seq<char>)> {
    if env.action@ == "incomingMessage"@ && has_ctx(env, "chat"@) {
        match env.content {
            Some(doc) => match json_str_field(doc@, "sender"@) {
                Some(sender) => Some((sender, chat_text(doc@))),
                None => None,
            },
            None => None,
        }
    } else {
        None
    }
}

/// The chat messages of a batch, in arrival order, each with its receipt
/// timestamp.
pub open spec fn drained(batch: Seq<Incoming>) -> Seq<(Seq<char>, Seq<char>, i64)>
    decreases batch.len(),
{
    if batch.len() == 0 {
        Seq::empty()
    } else {
        drained(batch.drop_last()) + (match chat_extract(batch.last().envelope) {
            Some(m) => seq![(m.0, m.1, batch.last().ts)],
            None => Seq::empty(),
        })
    }
}

impl MessageHandler {
    /// A session is well formed when an authentication flow only ever runs
    /// with a private key at hand.
    pub open spec fn wf(self) -> bool {
        self.flow matches Flow::Authenticating { kind, username } ==> self.private_key is Some
    }

    /// A fresh, unauthenticated session with no key material and no
    /// pending flow.
    pub fn new() -> (h: MessageHandler)
        ensures
            h.current_user is None,
            h.private_key is None,
            h.public_key is None,
            h.flow is Idle,
            h.wf(),
    {
        MessageHandler { current_user: None, private_key: None, public_key: None, flow: Flow::Idle }
    }

    /// Start registering `username`: generate a fresh key pair, hold it in
    /// the session, and hand back the registration request envelope
    /// carrying the public key PEM together with the command persisting
    /// it. The session then awaits the server's challenge.
    pub fn register_user(&mut self, username: &str) -> (r: Result<StartedFlow, SessionError>)
        requires
            old(self).flow is Idle,
            old(self).wf(),
        ensures
            final(self).wf(),
            r is Err ==> *final(self) == *old(self),
            r matches Ok(out) ==> {
                &&& final(self).flow matches Flow::Authenticating { kind, username: u }
                    && kind == FlowKind::Registration && u@ == username@
                &&& final(self).private_key matches Some(sk) && final(self).public_key matches Some(
                    pk,
                ) && pk@ == pub_pem_of(sk@)
                &&& final(self).current_user == old(self).current_user
                &&& out.outbound.recipient is None
                &&& out.outbound.signature is None
                &&& out.outbound.envelope.action@ == "registrationRequest"@
                &&& has_ctx(out.outbound.envelope, "registration"@)
                &&& out.write matches Some(DbWrite::RegisterUser { username: wu, public_key_pem: wp })
                    && wu@ == username@ && (final(self).public_key matches Some(pk)
                    && vstd::utf8::encode_utf8(wp@) == pk@) && (
                out.outbound.envelope.content matches Some(c) && c@ == json_obj2_of(
                    "publicKey"@,
                    wp@,
                    "username"@,
                    username@,
                ))
            },
    {
        let (sk, pk) = match Crypto::generate_keypair() {
            Ok(kp) => kp,
            Err(e) => {
                return Err(SessionError::Crypto(e));
            },
        };
        let pem = match bytes_to_string(&pk) {
            Ok(s) => s,
            Err(e) => {
                return Err(SessionError::Crypto(e));
            },
        };
        let content = json_obj2("publicKey", pem.as_str(), "username", username);
        self.private_key = Some(sk);
        self.public_key = Some(pk);
        self.flow = Flow::Authenticating {
            kind: FlowKind::Registration,
            username: String::from_str(username),
        };
        Ok(
            StartedFlow {
                outbound: Outbound {
                    recipient: None,
                    envelope: Envelope {
                        action: String::from_str("registrationRequest"),
                        context: Some(String::from_str("registration")),
                        content: Some(content),
                    },
                    signature: None,
                },
                write: Some(
                    DbWrite::RegisterUser {
                        username: String::from_str(username),
                        public_key_pem: pem,
                    },
                ),
            },
        )
    }

    /// Start logging in `username`. The private key must already be in the
    /// session: without one this fails at once, before anything reaches
    /// the transport. Otherwise the login request envelope is handed back
    /// and the session awaits the server's challenge.
    pub fn login_user(&mut self, username: &str) -> (r: Result<StartedFlow, SessionError>)
        requires
            old(self).flow is Idle,
            old(self).wf(),
        ensures
            final(self).wf(),
            old(self).private_key is None <==> r == Err::<StartedFlow, SessionError>(
                SessionError::NoLocalKey,
            ),
            old(self).private_key is Some ==> r is Ok,
            r is Err ==> *final(self) == *old(self),
            r matches Ok(out) ==> {
                &&& final(self).flow matches Flow::Authenticating { kind, username: u }
                    && kind == FlowKind::Login && u@ == username@
                &&& final(self).private_key == old(self).private_key
                &&& final(self).public_key == old(self).public_key
                &&& final(self).current_user == old(self).current_user
                &&& out.outbound.recipient is None
                &&& out.outbound.signature is None
                &&& out.outbound.envelope.action@ == "loginRequest"@
                &&& has_ctx(out.outbound.envelope, "login"@)
                &&& out.outbound.envelope.content matches Some(c) && c@ == json_obj1_of(
                    "username"@,
                    username@,
                )
                &&& out.write is None
            },
    {
        if self.private_key.is_none() {
            return Err(SessionError::NoLocalKey);
        }
        self.flow = Flow::Authenticating {
            kind: FlowKind::Login,
            username: String::from_str(username),
        };
        Ok(
            StartedFlow {
                outbound: Outbound {
                    recipient: None,
                    envelope: Envelope {
                        action: String::from_str("loginRequest"),
                        context: Some(String::from_str("login")),
                        content: Some(json_obj1("username", username)),
                    },
                    signature: None,
                },
                write: None,
            },
        )
    }

    /// Start a directory query for `username`: hand back the query request
    /// envelope; the session then awaits the server's response.
    pub fn query_user(&mut self, username: &str) -> (out: StartedFlow)
        requires
            old(self).flow is Idle,
            old(self).wf(),
        ensures
            final(self).wf(),
            final(self).flow matches Flow::Querying { username: u } && u@ == username@,
            final(self).private_key == old(self).private_key,
            final(self).public_key == old(self).public_key,
            final(self).current_user == old(self).current_user,
            out.outbound.recipient is None,
            out.outbound.signature is None,
            out.outbound.envelope.action@ == "queryRequest"@,
            has_ctx(out.outbound.envelope, "query"@),
            out.outbound.envelope.content matches Some(c) && c@ == json_obj1_of(
                "username"@,
                username@,
            ),
            out.write is None,
    {
        self.flow = Flow::Querying { username: String::from_str(username) };
        StartedFlow {
            outbound: Outbound {
                recipient: None,
                envelope: Envelope {
                    action: String::from_str("queryRequest"),
                    context: Some(String::from_str("query")),
                    content: Some(json_obj1("username", username)),
                },
                signature: None,
            },
            write: None,
        }
    }

    /// Route one received envelope to the active flow. An envelope whose
    /// `(action, context)` does not belong to that flow is consumed with
    /// no effect: the state does not advance and nothing is emitted. A
    /// matching challenge is answered by signing its nonce; a matching
    /// verdict or query response ends the flow.
    pub fn handle_incoming(&mut self, inc: Incoming) -> (r: Result<Step, SessionError>)
        requires
            old(self).wf(),
        ensures
            final(self).wf(),
            r is Err ==> *final(self) == *old(self),
            r is Err ==> (old(self).flow matches Flow::Authenticating { kind, username }
                && is_challenge_for(inc.envelope, kind)),
            old(self).flow is Idle ==> (r matches Ok(s) && s is Ignored && *final(self) == *old(self)),
            old(self).flow matches Flow::Authenticating { kind, username } ==> {
                &&& (!is_challenge_for(inc.envelope, kind) && !is_result_for(inc.envelope, kind))
                    ==> (r matches Ok(s) && s is Ignored && *final(self) == *old(self))
                &&& is_challenge_for(inc.envelope, kind) ==> {
                    &&& *final(self) == *old(self)
                    &&& challenge_nonce(inc.envelope) is None ==> (r matches Ok(s)
                        && s is Ignored)
                    &&& challenge_nonce(inc.envelope) matches Some(n) ==> (old(self).private_key matches Some(sk) ==> (r matches Ok(s) ==> challenge_reply(
                        s,
                        kind,
                        username@,
                        sk@,
                        n,
                    )))
                }
                &&& is_result_for(inc.envelope, kind) ==> {
                    &&& inc.envelope.content is None ==> (r matches Ok(s) && s is Ignored
                        && *final(self) == *old(self))
                    &&& inc.envelope.content matches Some(res) ==> {
                        &&& final(self).flow is Idle
                        &&& final(self).private_key == old(self).private_key
                        &&& final(self).public_key == old(self).public_key
                        &&& res@ == "success"@ ==> (r matches Ok(s) && auth_done(
                            s,
                            kind,
                            username@,
                            true,
                        ) && user_is(final(self).current_user, username@))
                        &&& res@ != "success"@ ==> (r matches Ok(s) && auth_done(
                            s,
                            kind,
                            username@,
                            false,
                        ) && final(self).current_user == old(self).current_user)
                    }
                }
            },
            old(self).flow matches Flow::Querying { username } ==> {
                &&& !is_query_response(inc.envelope) ==> (r matches Ok(s) && s is Ignored
                    && *final(self) == *old(self))
                &&& is_query_response(inc.envelope) ==> {
                    &&& final(self).flow is Idle
                    &&& final(self).private_key == old(self).private_key
                    &&& final(self).public_key == old(self).public_key
                    &&& final(self).current_user == old(self).current_user
                    &&& (r matches Ok(s) && query_outcome(s, inc.envelope, old(self).current_user))
                }
            },
    {
        let env = inc.envelope;
        let mut is_query = false;
        let mut k = FlowKind::Registration;
        let mut uname = String::new();
        match &self.flow {
            Flow::Idle => {
                return Ok(Step::Ignored);
            },
            Flow::Authenticating { kind, username } => {
                k = *kind;
                uname = username.clone();
            },
            Flow::Querying { username: _ } => {
                is_query = true;
            },
        }
        if is_query {
            if !(action_is(&env, "queryResponse") && ctx_is(&env, "query")) {
                return Ok(Step::Ignored);
            }
            self.flow = Flow::Idle;
            match &env.content {
                None => Ok(Step::QueryDone { result: None, write: None }),
                Some(doc) => {
                    let found_user = json_get_str(doc.as_str(), "username");
                    let found_key = json_get_str(doc.as_str(), "publicKey");
                    match (found_user, found_key) {
                        (Some(u), Some(p)) => {
                            let write = match &self.current_user {
                                Some(me) => Some(
                                    DbWrite::AddContact {
                                        owner: me.clone(),
                                        username: u.clone(),
                                        public_key_pem: p.clone(),
                                    },
                                ),
                                None => None,
                            };
                            Ok(Step::QueryDone { result: Some((u, p)), write })
                        },
                        _ => Ok(Step::QueryDone { result: None, write: None }),
                    }
                },
            }
        } else {
            let ctx = match k {
                FlowKind::Registration => "registration",
                FlowKind::Login => "login",
            };
            proof {
                assert(ctx@ == flow_ctx(k));
                reveal_strlit("challenge");
                reveal_strlit("challengeResponse");
                assert("challenge"@.len() == 9);
                assert("challengeResponse"@.len() == 17);
            }
            if action_is(&env, "challenge") && ctx_is(&env, ctx) {
                match &env.content {
                    None => Ok(Step::Ignored),
                    Some(doc) => match json_get_str(doc.as_str(), "nonce") {
                        None => Ok(Step::Ignored),
                        Some(nonce) => match &self.private_key {
                            None => {
                                proof {
                                    assert(false);
                                }
                                Ok(Step::Ignored)
                            },
                            Some(sk) => {
                                let msg = nonce.as_str().as_bytes();
                                if sk.len() > OSSL_MAX_LEN || msg.len() > OSSL_MAX_LEN {
                                    return Err(SessionError::Crypto(CryptoError::Primitive));
                                }
                                match Crypto::sign(sk.as_slice(), msg) {
                                Err(e) => Err(SessionError::Crypto(e)),
                                Ok(raw) => {
                                    let sig = hex_encode(&raw);
                                    let reply = json_obj2(
                                        "signature",
                                        sig.as_str(),
                                        "username",
                                        uname.as_str(),
                                    );
                                    proof {
                                        assert(sig_valid(
                                            pub_pem_of(sk@),
                                            vstd::utf8::encode_utf8(nonce@),
                                            raw@,
                                        ));
                                    }
                                    Ok(
                                        Step::Replied {
                                            outbound: Outbound {
                                                recipient: None,
                                                envelope: Envelope {
                                                    action: String::from_str("challengeResponse"),
                                                    context: Some(String::from_str(ctx)),
                                                    content: Some(reply),
                                                },
                                                signature: None,
                                            },
                                        },
                                    )
                                },
                                }
                            },
                        },
                    },
                }
            } else if action_is(&env, "challengeResponse") && ctx_is(&env, ctx) {
                match &env.content {
                    None => Ok(Step::Ignored),
                    Some(res) => {
                        self.flow = Flow::Idle;
                        if string_eq_str(res, "success") {
                            self.current_user = Some(uname.clone());
                            Ok(
                                Step::AuthDone {
                                    kind: k,
                                    username: uname.clone(),
                                    success: true,
                                    write: Some(DbWrite::InitUser { username: uname }),
                                },
                            )
                        } else {
                            Ok(
                                Step::AuthDone {
                                    kind: k,
                                    username: uname,
                                    success: false,
                                    write: None,
                                },
                            )
                        }
                    },
                }
            } else {
                Ok(Step::Ignored)
            }
        }
    }

    /// Build a direct message to `recipient`. The chat log write comes
    /// first and is handed back unconditionally, so the log reflects the
    /// intent to send even when signing fails; the envelope carries the
    /// canonical payload document with a detached signature over its exact
    /// bytes.
    pub fn send_direct_message(&self, recipient: &str, text: &str, now_ts: i64) -> (r: (
        DbWrite,
        Result<Outbound, SessionError>,
    ))
        ensures
            r.0 matches DbWrite::SaveMessage { owner, contact, sent, text: t, ts } && owner@
                == sender_name(*self) && contact@ == recipient@ && sent && t@ == text@ && ts
                == now_ts,
            self.private_key is None <==> r.1 == Err::<Outbound, SessionError>(
                SessionError::NoLocalKey,
            ),
            r.1 matches Ok(ob) ==> (self.private_key matches Some(sk) && message_outbound(
                ob,
                recipient@,
                text@,
                sender_name(*self),
                sk@,
            )),
    {
        let sender = match &self.current_user {
            Some(u) => u.clone(),
            None => String::new(),
        };
        let write = DbWrite::SaveMessage {
            owner: sender.clone(),
            contact: String::from_str(recipient),
            sent: true,
            text: String::from_str(text),
            ts: now_ts,
        };
        let sk = match &self.private_key {
            Some(sk) => sk,
            None => {
                return (write, Err(SessionError::NoLocalKey));
            },
        };
        let payload = json_obj3("body", text, "recipient", recipient, "sender", sender.as_str());
        let msg = payload.as_str().as_bytes();
        if sk.len() > OSSL_MAX_LEN || msg.len() > OSSL_MAX_LEN {
            return (write, Err(SessionError::Crypto(CryptoError::Primitive)));
        }
        let raw = match Crypto::sign(sk.as_slice(), msg) {
            Ok(rw) => rw,
            Err(e) => {
                return (write, Err(SessionError::Crypto(e)));
            },
        };
        let sig = hex_encode(&raw);
        proof {
            assert(msg@ == vstd::utf8::encode_utf8(payload@));
            assert(sig_valid(pub_pem_of(sk@), vstd::utf8::encode_utf8(payload@), raw@));
        }
        let ob = Outbound {
            recipient: Some(String::from_str(recipient)),
            envelope: Envelope {
                action: String::from_str("message"),
                context: Some(String::from_str("chat")),
                content: Some(payload),
            },
            signature: Some(sig),
        };
        proof {
            assert(message_outbound(ob, recipient@, text@, sender_name(*self), sk@));
        }
        (write, Ok(ob))
    }

    /// Build a handshake envelope for `recipient`.
    pub fn send_handshake(&self, recipient: &str) -> (ob: Outbound)
        ensures
            ob.recipient matches Some(rt) && rt@ == recipient@,
            ob.envelope.action@ == "handshake"@,
            has_ctx(ob.envelope, "chat"@),
            ob.envelope.content is None,
            ob.signature is None,
    {
        Outbound {
            recipient: Some(String::from_str(recipient)),
            envelope: Envelope {
                action: String::from_str("handshake"),
                context: Some(String::from_str("chat")),
                content: None,
            },
            signature: None,
        }
    }

    /// Extract every chat message of an already-drained batch, in arrival
    /// order, each paired with the command recording it for the current
    /// user. An empty batch yields no messages and no writes.
    pub fn drain_incoming(&self, batch: Vec<Incoming>) -> (r: DrainResult)
        ensures
            r.messages@.len() == drained(batch@).len(),
            forall|i: int|
                0 <= i < drained(batch@).len() ==> (#[trigger] r.messages@[i]).0@ == drained(
                    batch@,
                )[i].0 && r.messages@[i].1@ == drained(batch@)[i].1,
            self.current_user is None ==> r.writes@.len() == 0,
            self.current_user matches Some(me) ==> r.writes@.len() == drained(batch@).len()
                && forall|i: int|
                0 <= i < drained(batch@).len() ==> match #[trigger] r.writes@[i] {
                    DbWrite::SaveMessage { owner, contact, sent, text, ts } => owner@ == me@
                        && contact@ == drained(batch@)[i].0 && !sent && text@ == drained(
                        batch@,
                    )[i].1 && ts == drained(batch@)[i].2,
                    _ => false,
                },
            batch@.len() == 0 ==> r.messages@.len() == 0 && r.writes@.len() == 0,
    {
        let mut messages: Vec<(String, String)> = Vec::new();
        let mut writes: Vec<DbWrite> = Vec::new();
        let mut i: usize = 0;
        proof {
            assert(batch@.take(0int) =~= Seq::<Incoming>::empty());
        }
        while i < batch.len()
            invariant
                i <= batch@.len(),
                messages@.len() == drained(batch@.take(i as int)).len(),
                forall|j: int|
                    0 <= j < drained(batch@.take(i as int)).len() ==> (#[trigger] messages@[j]).0@
                        == drained(batch@.take(i as int))[j].0 && messages@[j].1@ == drained(
                        batch@.take(i as int),
                    )[j].1,
                self.current_user is None ==> writes@.len() == 0,
                self.current_user matches Some(me) ==> writes@.len() == drained(
                    batch@.take(i as int),
                ).len() && forall|j: int|
                    0 <= j < drained(batch@.take(i as int)).len() ==> match #[trigger] writes@[j] {
                        DbWrite::SaveMessage { owner, contact, sent, text, ts } => owner@ == me@
                            && contact@ == drained(batch@.take(i as int))[j].0 && !sent && text@
                            == drained(batch@.take(i as int))[j].1 && ts == drained(
                            batch@.take(i as int),
                        )[j].2,
                        _ => false,
                    },
            decreases batch@.len() - i,
        {
            let ghost prefix = batch@.take(i as int);
            let env = &batch[i].envelope;
            if action_is(env, "incomingMessage") && ctx_is(env, "chat") {
                match &env.content {
                    Some(doc) => match json_get_str(doc.as_str(), "sender") {
                        Some(sender) => {
                            let text = match json_get_chat_ciphertext(doc.as_str()) {
                                Some(c) => c,
                                None => doc.clone(),
                            };
                            match &self.current_user {
                                Some(me) => {
                                    writes.push(
                                        DbWrite::SaveMessage {
                                            owner: me.clone(),
                                            contact: sender.clone(),
                                            sent: false,
                                            text: text.clone(),
                                            ts: batch[i].ts,
                                        },
                                    );
                                },
                                None => {},
                            }
                            messages.push((sender, text));
                        },
                        None => {},
                    },
                    None => {},
                }
            }
            proof {
                let t = batch@.take(i + 1int);
                assert(t.drop_last() =~= prefix);
                assert(t.last() == batch@[i as int]);
                match chat_extract(batch@[i as int].envelope) {
                    Some(m) => {
                        assert(drained(t) =~= drained(prefix).push(
                            (m.0, m.1, batch@[i as int].ts),
                        ));
                    },
                    None => {
                        assert(drained(t) =~= drained(prefix));
                    },
                }
            }
            i = i + 1;
        }
        proof {
            assert(batch@.take(batch@.len() as int) =~= batch@);
        }
        DrainResult { messages, writes }
    }

    /// Abandon the active flow: the session returns to idle with no
    /// partially applied identity, and key material generated by a
    /// registration that never succeeded is discarded, not kept.
    pub fn cancel_flow(&mut self)
        ensures
            final(self).wf(),
            final(self).flow is Idle,
            final(self).current_user == old(self).current_user,
            aborting_registration(*old(self)) ==> final(self).private_key is None && final(self).public_key is None,
            !aborting_registration(*old(self)) ==> final(self).private_key == old(self).private_key
                && final(self).public_key == old(self).public_key,
    {
        let discard = match &self.flow {
            Flow::Authenticating { kind, username: _ } => match kind {
                FlowKind::Registration => self.current_user.is_none(),
                FlowKind::Login => false,
            },
            _ => false,
        };
        self.flow = Flow::Idle;
        if discard {
            self.private_key = None;
            self.public_key = None;
        }
    }
}

} // verus!

