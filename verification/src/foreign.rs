use vstd::prelude::*;
use chrono::NaiveDateTime;
use uuid::Uuid;
use crate::data_error::DieselFailure;
use bb8::RunError;
use diesel::result::Error as DieselError;
use diesel_async::pooled_connection::PoolError;
use r2d2::Error as R2d2Error;
use serde_json::Error as SerdeJsonError;
use std::num::ParseIntError;

verus! {

/// Identifiers of rows and requests, carried through the library unchanged.
#[verifier::external_type_specification]
#[verifier::external_body]
pub struct ExUuid(Uuid);

/// Timestamps of rows, carried through the library unchanged.
#[verifier::external_type_specification]
#[verifier::external_body]
pub struct ExNaiveDateTime(NaiveDateTime);

/// `Uuid::clone`: `Uuid` is `Copy`, and its `Clone` returns the same value.
pub assume_specification[ <Uuid as Clone>::clone ](u: &Uuid) -> (r: Uuid)
    ensures
        r == *u,
;

/// `NaiveDateTime::clone`: `NaiveDateTime` is `Copy`, and its `Clone` returns
/// the same value.
pub assume_specification[ <NaiveDateTime as Clone>::clone ](t: &NaiveDateTime) -> (r: NaiveDateTime)
    ensures
        r == *t,
;

/// A failure to read or write JSON.
#[verifier::external_type_specification]
#[verifier::external_body]
pub struct ExSerdeJsonError(SerdeJsonError);

/// A failure of the blocking connection pool.
#[verifier::external_type_specification]
#[verifier::external_body]
pub struct ExR2d2Error(R2d2Error);

/// A failure reported by the database layer.
#[verifier::external_type_specification]
#[verifier::external_body]
pub struct ExDieselError(DieselError);

/// A failure of the asynchronous connection pool: the user's error, or a
/// timeout.
#[verifier::external_type_specification]
#[verifier::external_body]
#[verifier::reject_recursive_types(E)]
pub struct ExRunError<E>(RunError<E>);

/// A failure to set up or check a pooled database connection.
#[verifier::external_type_specification]
#[verifier::external_body]
pub struct ExPoolError(PoolError);

/// A failure to read an integer from text.
#[verifier::external_type_specification]
#[verifier::external_body]
pub struct ExParseIntError(ParseIntError);

/// The `Display` text of a `serde_json::Error`: a description of the
/// failure and where in the input it happened, which depends on the error
/// alone.
pub uninterp spec fn serde_error_text_of(e: SerdeJsonError) -> Seq<char>;

/// What a `diesel::result::Error` is, as far as the service tells it
/// apart; it depends on the error alone.
pub uninterp spec fn diesel_failure_of(e: DieselError) -> DieselFailure;

/// `Display` of `serde_json::Error`: the error's text, under its name.
#[verifier::external_body]
pub(crate) fn serde_error_text(e: &SerdeJsonError) -> (r: String)
    ensures
        r@ == serde_error_text_of(*e),
{
    e.to_string()
}

/// Tells the variants of a `diesel::result::Error` apart: a failure the
/// database reported, with the message `DatabaseErrorInformation::message`
/// gives; no row found; or any other failure, with its `Display` text.
/// Which variant comes out is stated only under the name
/// `diesel_failure_of`: the error is opaque here.
#[verifier::external_body]
pub(crate) fn diesel_failure(e: DieselError) -> (r: DieselFailure)
    ensures
        r == diesel_failure_of(e),
{
    match e {
        DieselError::DatabaseError(_, info) => DieselFailure::Database(info.message().to_string()),
        DieselError::NotFound => DieselFailure::NotFound,
        other => DieselFailure::Other(other.to_string()),
    }
}

} // verus!
