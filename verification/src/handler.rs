//! The credential verifier itself: from a submitted form and the account
//! store's answer to one of three decisions — authenticated, rejected with
//! the uniform fragment, or fatal.

use vstd::prelude::*;

use crate::credential::bcrypt_check;
use crate::credential::verify_secret;
use crate::render::login_partial;
use crate::render::partial_of;
use crate::render::rejection_body;
use crate::render::rejection_message;
use crate::render::success_body;
use crate::render::success_body_text;
use crate::store::LookupModel;
use crate::store::LookupOutcome;

verus! {

/// The submitted credentials: `username` is the identifier (it may be an
/// email address, despite the name), `password` the plaintext secret.
pub struct LoginForm {
    pub username: String,
    pub password: String,
}

/// The handler's decision. `Authenticated` carries what the session issuer
/// needs; `Rejected` carries the rendered body; `Fatal` propagates an
/// internal failure that must not be shown as a login failure.
pub enum Decision {
    Authenticated { user_id: i32, username: String },
    Rejected { body: String },
    Fatal,
}

/// The mathematical shape of a decision.
pub enum DecisionModel {
    Authenticated { user_id: int, username: Seq<char> },
    Rejected { body: Seq<char> },
    Fatal,
}

impl View for Decision {
    type V = DecisionModel;

    open spec fn view(&self) -> DecisionModel {
        match self {
            Decision::Authenticated { user_id, username } => DecisionModel::Authenticated {
                user_id: *user_id as int,
                username: username@,
            },
            Decision::Rejected { body } => DecisionModel::Rejected { body: body@ },
            Decision::Fatal => DecisionModel::Fatal,
        }
    }
}

/// The decision owed for a submitted form and a lookup outcome: a store
/// failure and a malformed stored hash are fatal; a missing account and a
/// wrong secret are rejected with one and the same body; a verified secret
/// authenticates and carries the account id and the submitted identifier.
pub open spec fn decide(
    username: Seq<char>,
    password: Seq<char>,
    lookup: LookupModel,
) -> DecisionModel {
    match lookup {
        LookupModel::StoreFailure => DecisionModel::Fatal,
        LookupModel::NotFound => DecisionModel::Rejected { body: rejection_body() },
        LookupModel::Found { id, password_hash } => match bcrypt_check(password, password_hash) {
            Option::None => DecisionModel::Fatal,
            Option::Some(true) => DecisionModel::Authenticated { user_id: id, username: username },
            Option::Some(false) => DecisionModel::Rejected { body: rejection_body() },
        },
    }
}

/// Decide a login attempt from the submitted form and the store's answer.
pub fn login(form: LoginForm, lookup: LookupOutcome) -> (d: Decision)
    ensures
        d@ == decide(form.username@, form.password@, lookup@),
{
    match lookup {
        LookupOutcome::StoreFailure => Decision::Fatal,
        LookupOutcome::NotFound => Decision::Rejected {
            body: login_partial("Wrong username or password"),
        },
        LookupOutcome::Found(rec) => {
            match verify_secret(form.password.as_str(), rec.password_hash.as_str()) {
                Result::Err(_) => Decision::Fatal,
                Result::Ok(true) => Decision::Authenticated {
                    user_id: rec.id,
                    username: form.username,
                },
                Result::Ok(false) => Decision::Rejected {
                    body: login_partial("Wrong username or password"),
                },
            }
        },
    }
}

/// The HTTP shape of the handler's answer: a status code, and the body owed
/// with it — `None` when an internal failure leaves no body guarantee.
pub struct LoginResponse {
    pub status: u16,
    pub body: Option<String>,
}

/// The mathematical shape of a response.
pub struct ResponseModel {
    pub status: int,
    pub body: Option<Seq<char>>,
}

impl View for LoginResponse {
    type V = ResponseModel;

    open spec fn view(&self) -> ResponseModel {
        ResponseModel {
            status: self.status as int,
            body: match &self.body {
                Option::Some(b) => Option::Some(b@),
                Option::None => Option::None,
            },
        }
    }
}

/// The response owed for a decision, once the session issuer has answered:
/// a rejection is served as an ordinary page; an authenticated attempt is
/// served the redirect page only when its token was issued, and an issuance
/// failure — like every fatal outcome — surfaces as an internal error with
/// no body guarantee.
pub open spec fn response_of(d: DecisionModel, issued: bool) -> ResponseModel {
    match d {
        DecisionModel::Authenticated { .. } => if issued {
            ResponseModel { status: 200, body: Option::Some(success_body_text()) }
        } else {
            ResponseModel { status: 500, body: Option::None }
        },
        DecisionModel::Rejected { body } => ResponseModel {
            status: 200,
            body: Option::Some(body),
        },
        DecisionModel::Fatal => ResponseModel { status: 500, body: Option::None },
    }
}

/// Build the response for a decision. `issued` reports the session issuer's
/// answer; it is read only for an authenticated decision.
pub fn respond(d: Decision, issued: bool) -> (r: LoginResponse)
    ensures
        r@ == response_of(d@, issued),
{
    match d {
        Decision::Authenticated { .. } => if issued {
            LoginResponse { status: 200, body: Some(success_body()) }
        } else {
            LoginResponse { status: 500, body: None }
        },
        Decision::Rejected { body } => LoginResponse { status: 200, body: Some(body) },
        Decision::Fatal => LoginResponse { status: 500, body: None },
    }
}

/// Uniform rejection: any identifier the store does not hold, with any
/// secret, is decided exactly as a held identifier with a wrong secret —
/// the very same rejected body for both.
pub proof fn lemma_uniform_rejection(
    u1: Seq<char>,
    p1: Seq<char>,
    u2: Seq<char>,
    p2: Seq<char>,
    id: int,
    stored: Seq<char>,
    i1: bool,
    i2: bool,
)
    requires
        bcrypt_check(p2, stored) == Some(false),
    ensures
        decide(u1, p1, LookupModel::NotFound) == decide(
            u2,
            p2,
            (LookupModel::Found { id, password_hash: stored }),
        ),
        decide(u1, p1, LookupModel::NotFound) == (DecisionModel::Rejected {
            body: rejection_body(),
        }),
        response_of(decide(u1, p1, LookupModel::NotFound), i1) == response_of(
            decide(u2, p2, (LookupModel::Found { id, password_hash: stored })),
            i2,
        ),
        response_of(decide(u1, p1, LookupModel::NotFound), i1) == (ResponseModel {
            status: 200,
            body: Option::Some(rejection_body()),
        }),
{
}

/// Correct-path success: when the secret verifies against the stored hash,
/// the decision is authenticated and carries the account id and the
/// submitted identifier.
pub proof fn lemma_correct_path(u: Seq<char>, p: Seq<char>, id: int, stored: Seq<char>)
    requires
        bcrypt_check(p, stored) == Some(true),
    ensures
        decide(u, p, (LookupModel::Found { id, password_hash: stored })) == (
        DecisionModel::Authenticated { user_id: id, username: u }),
        response_of(decide(u, p, (LookupModel::Found { id, password_hash: stored })), true) == (
        ResponseModel { status: 200, body: Option::Some(success_body_text()) }),
        response_of(decide(u, p, (LookupModel::Found { id, password_hash: stored })), false) == (
        ResponseModel { status: 500, body: Option::None }),
{
}

/// Verification routing: the decision for a held account tracks hash
/// verification exactly — a verified secret authenticates, a failed one is
/// rejected, a malformed stored hash is fatal.
pub proof fn lemma_verification_routing(u: Seq<char>, p: Seq<char>, id: int, stored: Seq<char>)
    ensures
        bcrypt_check(p, stored) == Some(true) ==> decide(
            u,
            p,
            (LookupModel::Found { id, password_hash: stored }),
        ) is Authenticated,
        bcrypt_check(p, stored) == Some(false) ==> decide(
            u,
            p,
            (LookupModel::Found { id, password_hash: stored }),
        ) is Rejected,
        bcrypt_check(p, stored) is None ==> decide(
            u,
            p,
            (LookupModel::Found { id, password_hash: stored }),
        ) is Fatal,
{
}

/// Fatal propagation: a store failure is never answered as a login
/// rejection, whatever was submitted.
pub proof fn lemma_fatal_propagation(u: Seq<char>, p: Seq<char>, issued: bool)
    ensures
        decide(u, p, LookupModel::StoreFailure) is Fatal,
        decide(u, p, LookupModel::StoreFailure) !is Rejected,
        response_of(decide(u, p, LookupModel::StoreFailure), issued) == (ResponseModel {
            status: 500,
            body: Option::None,
        }),
        response_of(decide(u, p, LookupModel::StoreFailure), issued).status != 200,
{
}

/// Whether `needle` occurs contiguously inside `hay`.
pub open spec fn contains_substring(hay: Seq<char>, needle: Seq<char>) -> bool {
    exists|i: int|
        0 <= i && i + needle.len() <= hay.len() && #[trigger] hay.subrange(i, i + needle.len())
            == needle
}

/// No credential echo: a rejected body never carries the submitted
/// identifier or secret, for every submission whose text does not already
/// occur in the fixed fragment itself.
pub proof fn lemma_no_credential_echo(u: Seq<char>, p: Seq<char>, lookup: LookupModel)
    requires
        !contains_substring(partial_of(rejection_message()), u),
        !contains_substring(partial_of(rejection_message()), p),
    ensures
        decide(u, p, lookup) matches DecisionModel::Rejected { body } ==> !contains_substring(
            body,
            u,
        ) && !contains_substring(body, p),
{
}

} // verus!
