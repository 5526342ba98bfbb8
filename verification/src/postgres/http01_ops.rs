//! The answers to HTTP-01 challenges as they are stored.
use vstd::prelude::*;

use super::mapping;
use crate::http01;
use crate::http01::Http01ChallengeKey;
use crate::http01::Http01ChallengeRecord;
use crate::http01::Http01ChallengeRecordView;
use crate::outcome;
use crate::store::StoreError;
use crate::store::StoreErrorView;

verus! {

/// A stored answer to a challenge.
#[derive(Debug, PartialEq, Eq)]
pub struct Http01Row {
    pub host: String,
    pub token: String,
    pub key_authorization: String,
    pub expires_at_unix_millis: i64,
}

/// What a [`Http01Row`] holds.
#[verifier::ext_equal]
pub struct Http01RowView {
    pub host: Seq<char>,
    pub token: Seq<char>,
    pub key_authorization: Seq<char>,
    pub expires_at_unix_millis: i64,
}

impl DeepView for Http01Row {
    type V = Http01RowView;

    open spec fn deep_view(&self) -> Http01RowView {
        Http01RowView {
            host: self.host.deep_view(),
            token: self.token.deep_view(),
            key_authorization: self.key_authorization.deep_view(),
            expires_at_unix_millis: self.expires_at_unix_millis.deep_view(),
        }
    }
}

impl Clone for Http01Row {
    fn clone(&self) -> (r: Self)
        ensures
            r.deep_view() == self.deep_view(),
    {
        Http01Row {
            host: self.host.clone(),
            token: self.token.clone(),
            key_authorization: self.key_authorization.clone(),
            expires_at_unix_millis: self.expires_at_unix_millis,
        }
    }
}

/// The answer that a row holds. It may be out of date, but not from before the Unix
/// epoch.
pub open spec fn answer_of(row: Http01RowView) -> Result<
    Http01ChallengeRecordView,
    StoreErrorView,
> {
    match http01::challenge_key(row.host, row.token) {
        Err(error) => Err(mapping::invalid_stored(http01::invalid_challenge_message(error))),
        Ok(key) => match http01::answer_problem(
            row.key_authorization,
            row.expires_at_unix_millis,
            0,
        ) {
            Some(error) => Err(mapping::invalid_stored(http01::invalid_challenge_message(error))),
            None => Ok(
                Http01ChallengeRecordView {
                    key,
                    key_authorization: row.key_authorization,
                    expires_at_unix_millis: row.expires_at_unix_millis,
                },
            ),
        },
    }
}

/// The answer that a row holds.
pub fn http01_from_row(row: &Http01Row) -> (r: Result<Http01ChallengeRecord, StoreError>)
    ensures
        outcome::of(r) == answer_of(row.deep_view()),
{
    let key = match Http01ChallengeKey::new(row.host.as_str(), row.token.as_str()) {
        Ok(key) => key,
        Err(error) => return Err(mapping::invalid_stored_data(error.to_string().as_str())),
    };
    match Http01ChallengeRecord::new(
        key,
        row.key_authorization.as_str(),
        row.expires_at_unix_millis,
        0,
    ) {
        Ok(record) => Ok(record),
        Err(error) => Err(mapping::invalid_stored_data(error.to_string().as_str())),
    }
}

/// How many answers are dropped at once, as it is stored.
pub open spec fn limit_of(limit: Option<usize>) -> Result<Option<i64>, StoreErrorView> {
    match limit {
        None => Ok(None),
        Some(limit) => if limit <= i64::MAX {
            Ok(Some(limit as i64))
        } else {
            Err(mapping::refused("HTTP-01 expire limit does not fit in Postgres bigint"@))
        },
    }
}

/// How many answers are dropped at once, as it is stored.
pub fn expire_limit(limit: Option<usize>) -> (r: Result<Option<i64>, StoreError>)
    ensures
        outcome::of(r) == limit_of(limit),
{
    match limit {
        None => Ok(None),
        Some(limit) => {
            if limit as u128 > i64::MAX as u128 {
                return Err(
                    StoreError::invalid_argument(
                        "HTTP-01 expire limit does not fit in Postgres bigint",
                    ),
                );
            }
            Ok(Some(limit as i64))
        },
    }
}

/// How many answers were dropped.
pub fn expired_count(deleted: u64) -> (r: Result<usize, StoreError>)
    ensures
        outcome::of(r) == if deleted <= usize::MAX {
            Ok(deleted as usize)
        } else {
            Err(mapping::broken("deleted HTTP-01 count did not fit in usize"@))
        },
{
    if deleted as u128 > usize::MAX as u128 {
        return Err(StoreError::internal("deleted HTTP-01 count did not fit in usize"));
    }
    Ok(deleted as usize)
}

} // verus!
