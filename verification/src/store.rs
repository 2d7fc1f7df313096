//! The account store as this library sees it: the query an identifier
//! demands, one fetched row, and the folding of the store driver's answer
//! into the three outcomes the handler branches on.

use vstd::prelude::*;

use crate::classify::Identifier;
use crate::classify::is_email;

verus! {

/// One account row, as the store holds it: the account id and the stored
/// password hash.
pub struct AccountRecord {
    pub id: i32,
    pub password_hash: String,
}

/// How a single-row fetch can fail, as the store driver reports it: either
/// no row matched, or the store itself failed (unreachable, malformed
/// answer). Only the first is an ordinary miss.
pub enum FetchError {
    RowNotFound,
    Other,
}

/// The lookup outcome the handler branches on.
pub enum LookupOutcome {
    Found(AccountRecord),
    NotFound,
    StoreFailure,
}

/// The mathematical shape of a lookup outcome.
pub enum LookupModel {
    Found { id: int, password_hash: Seq<char> },
    NotFound,
    StoreFailure,
}

impl View for LookupOutcome {
    type V = LookupModel;

    open spec fn view(&self) -> LookupModel {
        match self {
            LookupOutcome::Found(rec) => LookupModel::Found {
                id: rec.id as int,
                password_hash: rec.password_hash@,
            },
            LookupOutcome::NotFound => LookupModel::NotFound,
            LookupOutcome::StoreFailure => LookupModel::StoreFailure,
        }
    }
}

/// The parameterized query text that reads the email column.
pub open spec fn email_sql() -> Seq<char> {
    "SELECT id, password_hash FROM users WHERE email = $1"@
}

/// The parameterized query text that reads the username column.
pub open spec fn username_sql() -> Seq<char> {
    "SELECT id, password_hash FROM users WHERE username = $1"@
}

/// A planned store read: the parameterized query text and the one value to
/// bind to it. No identifier text is ever interpolated into the query.
pub struct LookupQuery {
    pub sql: String,
    pub param: String,
}

/// The query a classified identifier demands: the email column for an
/// email, the username column for everything else, with the identifier
/// itself as the single bound parameter.
pub fn lookup_query(identifier: Identifier) -> (q: LookupQuery)
    ensures
        q.param@ == identifier.text(),
        identifier is Email ==> q.sql@ == email_sql(),
        identifier is Username ==> q.sql@ == username_sql(),
{
    match identifier {
        Identifier::Email(s) => LookupQuery {
            sql: "SELECT id, password_hash FROM users WHERE email = $1".to_owned(),
            param: s,
        },
        Identifier::Username(s) => LookupQuery {
            sql: "SELECT id, password_hash FROM users WHERE username = $1".to_owned(),
            param: s,
        },
    }
}

/// Plan the store read for a raw identifier: classify it once, then route.
/// The bound parameter is always the identifier itself.
pub fn plan_lookup(identifier: String) -> (q: LookupQuery)
    ensures
        q.param@ == identifier@,
        is_email(identifier@) ==> q.sql@ == email_sql(),
        !is_email(identifier@) ==> q.sql@ == username_sql(),
{
    let id = crate::classify::classify(identifier);
    lookup_query(id)
}

/// Fold the store driver's answer: a fetched row is a hit, a missing row is
/// an ordinary miss, and any other driver failure is fatal. The miss and
/// the failure are never collapsed into one case.
pub fn fold_fetch(fetched: Result<AccountRecord, FetchError>) -> (r: LookupOutcome)
    ensures
        fetched matches Ok(rec) ==> r@ == (LookupModel::Found {
            id: rec.id as int,
            password_hash: rec.password_hash@,
        }),
        fetched matches Err(FetchError::RowNotFound) ==> r@ == LookupModel::NotFound,
        fetched matches Err(FetchError::Other) ==> r@ == LookupModel::StoreFailure,
{
    match fetched {
        Ok(rec) => LookupOutcome::Found(rec),
        Err(FetchError::RowNotFound) => LookupOutcome::NotFound,
        Err(FetchError::Other) => LookupOutcome::StoreFailure,
    }
}

} // verus!
