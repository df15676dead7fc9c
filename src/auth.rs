use vstd::prelude::*;
use steam_auth::Error as SteamAuthError;
use steam_auth::Verifier;
use crate::connection::PoolError;
use crate::error::{db_error_message, DbError};
use crate::models::{insert_user, QueryPlan};
use crate::row::Value;
use crate::steam_id::{decimal, u64_bits_of, SteamId};

verus! {

/// The identity provider's error values, carried through unread.
#[verifier::external_type_specification]
#[verifier::external_body]
pub struct ExSteamAuthError(SteamAuthError);

/// Why a sign-in was refused.
#[derive(Debug)]
pub enum AuthError {
    /// The provider's redirect parameters could not be turned into a check.
    Provider(SteamAuthError),
    /// The check could not be sent, or no reply came back.
    Request,
    /// The reply to the check was not text.
    Deserialize,
    /// The provider did not confirm the sign-in.
    Invalid,
    /// Recording the user failed.
    Db(String),
    /// No connection could be had in time to record the user.
    DbTimeout,
}

/// The provider endpoint that checks a sign-in.
pub open spec fn provider_url() -> Seq<char> {
    "https://steamcommunity.com/openid/login"@
}

/// `body` has a line, between newlines or the ends of the text, that is
/// exactly `line`.
pub open spec fn has_line(body: Seq<char>, line: Seq<char>) -> bool {
    exists|i: int|
        {
            &&& 0 <= i && i + line.len() <= body.len()
            &&& #[trigger] body.subrange(i, i + line.len()) == line
            &&& i == 0 || body[i - 1] == '\n'
            &&& i + line.len() == body.len() || body[i + line.len()] == '\n'
        }
}

/// The provider's reply to a check confirms the sign-in: one of its
/// `key:value` lines is `is_valid:true`.
pub open spec fn reply_confirms(body: Seq<char>) -> bool {
    has_line(body, "is_valid:true"@)
}

/// The request that asks the provider to confirm a sign-in.
#[derive(Clone, Debug)]
pub struct CheckRequest {
    pub method: String,
    pub uri: String,
    pub headers: Vec<(String, Vec<u8>)>,
    pub body: Vec<u8>,
}

/// The identifier that steam_auth's `Verifier::from_querystring` takes from
/// the `openid.claimed_id` of a redirect's query string; `None` where it
/// refuses the query. It depends on the query alone.
pub uninterp spec fn redirect_claim(query: Seq<char>) -> Option<u64>;

/// The form body that steam_auth's `Verifier::from_querystring` builds from a
/// redirect's query string: the redirect's parameters, with `openid.mode`
/// set to `check_authentication`. It depends on the query alone.
pub uninterp spec fn check_form(query: Seq<char>) -> Seq<u8>;

/// The bytes of an ASCII text.
pub open spec fn ascii_bytes(s: Seq<char>) -> Seq<u8> {
    s.map_values(|c: char| c as u8)
}

/// Relies on steam_auth's `Verifier::from_querystring`: it reads the
/// provider's redirect parameters and builds a POST to the provider's login
/// endpoint, with one `Content-Type: application/x-www-form-urlencoded`
/// header, whose body carries the same parameters with the mode set to
/// `check_authentication`.
#[verifier::external_body]
fn check_request(query: &str) -> (r: Result<CheckRequest, SteamAuthError>)
    ensures
        r is Ok <==> redirect_claim(query@) is Some,
        r matches Ok(req) ==> {
            &&& req.method@ == "POST"@
            &&& req.uri@ == provider_url()
            &&& req.headers@.len() == 1
            &&& req.headers@[0].0@ == "content-type"@
            &&& req.headers@[0].1@ == ascii_bytes("application/x-www-form-urlencoded"@)
            &&& req.body@ == check_form(query@)
        },
{
    let (req, _) = Verifier::from_querystring(query)?;
    let (parts, body) = req.into_parts();
    let headers =
        parts.headers.iter().map(|(k, v)| (k.as_str().to_owned(), v.as_bytes().to_vec())).collect();
    let method = parts.method.as_str().to_owned();
    Ok(CheckRequest { method, uri: parts.uri.to_string(), headers, body })
}

/// Relies on steam_auth's `Verifier::verify_response`, applied to the
/// verifier that `Verifier::from_querystring` makes of the redirect's query:
/// the reply is accepted exactly when one of its newline-separated
/// `key:value` lines has the key `is_valid` and the value `true`, and the
/// identifier returned is the one the redirect claimed.
#[verifier::external_body]
fn verify_reply(query: &str, body: String) -> (r: Result<u64, SteamAuthError>)
    ensures
        r is Ok <==> (redirect_claim(query@) is Some && reply_confirms(body@)),
        r matches Ok(x) ==> redirect_claim(query@) == Some(x),
{
    let (_, verifier) = Verifier::from_querystring(query)?;
    verifier.verify_response(body)
}

/// What the provider answered to a check.
#[derive(Debug)]
pub enum CheckReply {
    /// The reply's body.
    Body(String),
    /// A reply whose body is not UTF-8 text.
    NotText,
    /// No reply: the check could not be sent or read.
    Failed,
}

/// What the caller does next in a sign-in.
#[derive(Debug)]
pub enum CallbackStep {
    /// Send this check to the provider, then report with `on_reply`.
    SendCheck(CheckRequest),
    /// Run this statement, then report with `on_recorded`.
    RecordUser(QueryPlan),
    /// Remember `cookie` in the signed session and redirect to `location`.
    SignIn { cookie: String, location: String },
    /// Refuse the sign-in; nothing is remembered.
    Refuse(AuthError),
}

/// Where a sign-in stands.
pub enum CallbackStage {
    /// Waiting for the provider's reply to the check of this redirect query.
    AwaitingReply(String),
    AwaitingRecord(SteamId),
    Finished,
}

/// One sign-in through the provider's redirect back to the site.
pub struct CallbackFlow {
    stage: CallbackStage,
}

/// `step` records user `id`, with its signed 64-bit database value.
pub open spec fn records(step: CallbackStep, id: SteamId) -> bool {
    &&& step matches CallbackStep::RecordUser(plan)
    &&& plan.statement == crate::queries::StatementName::PostLoginInsertUser
    &&& plan.params@.len() == 1
    &&& plan.params@[0] matches Value::Int8(x) && u64_bits_of(x) == id.0
}

/// The step after the provider's reply to the check of redirect `query`: a
/// confirming reply records the user that the redirect claimed; anything
/// else refuses the sign-in.
pub open spec fn reply_step(
    query: Seq<char>,
    reply: CheckReply,
    next: CallbackFlow,
    step: CallbackStep,
) -> bool {
    match reply {
        CheckReply::Body(b) => if redirect_claim(query) is Some && reply_confirms(b@) {
            let id = SteamId(redirect_claim(query)->0);
            next.stage() == CallbackStage::AwaitingRecord(id) && records(step, id)
        } else {
            next.stage() is Finished && step matches CallbackStep::Refuse(AuthError::Invalid)
        },
        CheckReply::NotText => next.stage() is Finished && step matches CallbackStep::Refuse(
            AuthError::Deserialize,
        ),
        CheckReply::Failed => next.stage() is Finished && step matches CallbackStep::Refuse(
            AuthError::Request,
        ),
    }
}

/// The text recorded for a failure of the connection pool itself.
pub open spec fn pool_failure_text() -> Seq<char> {
    "connection pool failure"@
}

/// The step after recording user `id`: on success the session remembers
/// the identifier's decimal text and the browser goes home.
pub open spec fn recorded_step(id: SteamId, outcome: Result<(), PoolError>, step: CallbackStep) -> bool {
    match outcome {
        Ok(_) => step matches CallbackStep::SignIn { cookie, location } && cookie@ == decimal(
            id.0 as nat,
        ) && location@ == "/"@,
        Err(PoolError::TimedOut) => step matches CallbackStep::Refuse(AuthError::DbTimeout),
        Err(PoolError::External(d)) => step matches CallbackStep::Refuse(AuthError::Db(n)) && n@
            == db_error_message(d),
        Err(PoolError::Internal) => step matches CallbackStep::Refuse(AuthError::Db(n)) && n@
            == pool_failure_text(),
    }
}

impl CallbackFlow {
    pub closed spec fn stage(&self) -> CallbackStage {
        self.stage
    }

    /// Whether the sign-in waits for the provider's reply.
    pub fn awaiting_reply(&self) -> (r: bool)
        ensures
            r == self.stage() is AwaitingReply,
    {
        match self.stage {
            CallbackStage::AwaitingReply(_) => true,
            _ => false,
        }
    }

    /// Whether the sign-in waits for the user to be recorded.
    pub fn awaiting_record(&self) -> (r: bool)
        ensures
            r == self.stage() is AwaitingRecord,
    {
        match self.stage {
            CallbackStage::AwaitingRecord(_) => true,
            _ => false,
        }
    }

    /// Begins a sign-in from the query string of the provider's redirect:
    /// the provider is asked to confirm it exactly where the query claims an
    /// identifier; otherwise the sign-in is refused.
    pub fn start(query: &str) -> (r: (CallbackFlow, CallbackStep))
        ensures
            (r.1 is SendCheck) <==> redirect_claim(query@) is Some,
            match r.1 {
                CallbackStep::SendCheck(req) => {
                    &&& r.0.stage() matches CallbackStage::AwaitingReply(q) && q@ == query@
                    &&& req.method@ == "POST"@
                    &&& req.uri@ == provider_url()
                    &&& req.headers@.len() == 1
                    &&& req.headers@[0].0@ == "content-type"@
                    &&& req.headers@[0].1@ == ascii_bytes("application/x-www-form-urlencoded"@)
                    &&& req.body@ == check_form(query@)
                },
                CallbackStep::Refuse(AuthError::Provider(_)) => r.0.stage() is Finished,
                _ => false,
            },
    {
        match check_request(query) {
            Ok(req) => (
                CallbackFlow { stage: CallbackStage::AwaitingReply(String::from_str(query)) },
                CallbackStep::SendCheck(req),
            ),
            Err(e) => (
                CallbackFlow { stage: CallbackStage::Finished },
                CallbackStep::Refuse(AuthError::Provider(e)),
            ),
        }
    }

    /// Takes the provider's reply to the check.
    pub fn on_reply(self, reply: CheckReply) -> (r: (CallbackFlow, CallbackStep))
        requires
            self.stage() is AwaitingReply,
        ensures
            reply_step(self.stage()->AwaitingReply_0@, reply, r.0, r.1),
    {
        let query = match self.stage {
            CallbackStage::AwaitingReply(v) => v,
            _ => {
                assert(false);
                return (
                    CallbackFlow { stage: CallbackStage::Finished },
                    CallbackStep::Refuse(AuthError::Invalid),
                );
            },
        };
        match reply {
            CheckReply::Body(body) => match verify_reply(query.as_str(), body) {
                Ok(raw) => {
                    let id = SteamId(raw);
                    (
                        CallbackFlow { stage: CallbackStage::AwaitingRecord(id) },
                        CallbackStep::RecordUser(insert_user(id)),
                    )
                },
                Err(_) => (
                    CallbackFlow { stage: CallbackStage::Finished },
                    CallbackStep::Refuse(AuthError::Invalid),
                ),
            },
            CheckReply::NotText => (
                CallbackFlow { stage: CallbackStage::Finished },
                CallbackStep::Refuse(AuthError::Deserialize),
            ),
            CheckReply::Failed => (
                CallbackFlow { stage: CallbackStage::Finished },
                CallbackStep::Refuse(AuthError::Request),
            ),
        }
    }

    /// Takes the outcome of recording the user: getting a connection and
    /// running the statement.
    pub fn on_recorded(self, outcome: Result<(), PoolError>) -> (r: (CallbackFlow, CallbackStep))
        requires
            self.stage() is AwaitingRecord,
        ensures
            r.0.stage() is Finished,
            recorded_step(self.stage()->AwaitingRecord_0, outcome, r.1),
    {
        let id = match self.stage {
            CallbackStage::AwaitingRecord(id) => id,
            _ => {
                assert(false);
                return (
                    CallbackFlow { stage: CallbackStage::Finished },
                    CallbackStep::Refuse(AuthError::Invalid),
                );
            },
        };
        let step = match outcome {
            Ok(_) => CallbackStep::SignIn { cookie: id.to_string(), location: String::from_str("/") },
            Err(PoolError::TimedOut) => CallbackStep::Refuse(AuthError::DbTimeout),
            Err(PoolError::External(d)) => {
                let m = match d {
                    DbError::NotFound => String::from_str("no rows returned"),
                    DbError::Other(m) => m,
                };
                CallbackStep::Refuse(AuthError::Db(m))
            },
            Err(PoolError::Internal) => {
                CallbackStep::Refuse(AuthError::Db(String::from_str("connection pool failure")))
            },
        };
        (CallbackFlow { stage: CallbackStage::Finished }, step)
    }
}

/// A sign-in ends with a remembered session only where the provider
/// confirmed it and the user was recorded; the user recorded is the one the
/// redirect claimed, and the session holds the decimal text of that
/// identifier.
pub proof fn sign_in_needs_confirmation_and_record(
    query: Seq<char>,
    reply: CheckReply,
    middle: CallbackFlow,
    first: CallbackStep,
    outcome: Result<(), PoolError>,
    last: CallbackStep,
)
    requires
        reply_step(query, reply, middle, first),
        middle.stage() is AwaitingRecord,
        recorded_step(middle.stage()->AwaitingRecord_0, outcome, last),
        last is SignIn,
    ensures
        reply matches CheckReply::Body(b) && reply_confirms(b@),
        redirect_claim(query) is Some,
        outcome is Ok,
        records(first, SteamId(redirect_claim(query)->0)),
        last->cookie@ == decimal(redirect_claim(query)->0 as nat),
{
}

} // verus!
