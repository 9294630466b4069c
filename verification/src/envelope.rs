//! The wire unit exchanged with the transport, and the commands a session
//! step hands back to its caller.
//!
//! An envelope routes by its `(action, context)` pair alone: there is no
//! request identifier, so at most one authentication or query flow may be
//! in flight per session.

use vstd::prelude::*;
use crate::textutil::string_eq_str;

verus! {

/// The unit of exchange with the transport.
#[derive(Debug, Clone)]
pub struct Envelope {
    /// Protocol step, e.g. `"challenge"` or `"queryResponse"`.
    pub action: String,
    /// Protocol flow the action belongs to, e.g. `"registration"`.
    pub context: Option<String>,
    /// Flow-specific document, often JSON.
    pub content: Option<String>,
}

/// A received envelope with its receipt timestamp in Unix seconds.
#[derive(Debug, Clone)]
pub struct Incoming {
    pub envelope: Envelope,
    pub ts: i64,
}

/// An envelope to hand to the transport. `recipient` is `None` when the
/// envelope goes to the service provider rather than to a contact; a
/// detached signature travels outside the envelope's content.
#[derive(Debug, Clone)]
pub struct Outbound {
    pub recipient: Option<String>,
    pub envelope: Envelope,
    pub signature: Option<String>,
}

/// A persistence command for the storage collaborator.
#[derive(Debug, Clone)]
pub enum DbWrite {
    /// Record a user and their public key.
    RegisterUser { username: String, public_key_pem: String },
    /// Create the per-user storage for a freshly authenticated user.
    InitUser { username: String },
    /// Record or update a contact of `owner`.
    AddContact { owner: String, username: String, public_key_pem: String },
    /// Record one chat message of `owner` with `contact`; `sent` tells the
    /// direction, `ts` is in Unix seconds.
    SaveMessage { owner: String, contact: String, sent: bool, text: String, ts: i64 },
}

/// Whether the envelope carries this context tag.
pub open spec fn has_ctx(env: Envelope, ctx: Seq<char>) -> bool {
    match env.context {
        Some(c) => c@ == ctx,
        None => false,
    }
}

/// True exactly when the envelope's action equals the tag.
pub(crate) fn action_is(env: &Envelope, action: &str) -> (r: bool)
    ensures
        r == (env.action@ == action@),
{
    string_eq_str(&env.action, action)
}

/// True exactly when the envelope carries this context tag.
pub(crate) fn ctx_is(env: &Envelope, ctx: &str) -> (r: bool)
    ensures
        r == has_ctx(*env, ctx@),
{
    match &env.context {
        Some(c) => string_eq_str(c, ctx),
        None => false,
    }
}

} // verus!
