//! A verified core for tailing a MongoDB-style replica-set change log
//! (oplog): decoding raw log records into typed operations and driving a
//! cancellable, backpressured subscription.
//!
//! The library works on its own model of BSON values ([`bson::Bson`],
//! [`bson::Document`]), so that every decoding and dispatch decision is
//! verified; reading records from a live server and re-typing payloads with
//! serde stay outside, in an unverified shell that converts at the boundary.
use vstd::prelude::*;

pub mod bson;
pub mod operation;
pub mod subscription;

verus! {

/// What an [`Error`] denotes.
pub enum ErrorModel {
    /// A connectivity or cursor fault reported by the log reader.
    Database(Seq<char>),
    /// A required field was absent or had the wrong kind.
    MissingField { field: Seq<char>, kind: crate::bson::FieldErrorKind },
    /// The record's operation code is not one of the known ones.
    UnknownOperation(Seq<char>),
    /// A batch entry held something that is not a record, or batches were
    /// nested past the defensive depth bound.
    InvalidOperation,
}

/// Which required field a decode failed on, and how.
#[derive(Debug)]
pub struct FieldError {
    /// The name of the field.
    pub field: String,
    /// Whether it was absent or of the wrong kind.
    pub kind: crate::bson::FieldErrorKind,
}

/// The conditions under which tailing a change log can fail.
#[derive(Debug)]
pub enum Error {
    /// A connectivity or cursor fault reported by the log reader, carried as
    /// the reader's own message. Only this condition ends a subscription.
    Database(String),
    /// A record lacked a field its operation code requires, or the field had
    /// the wrong kind.
    MissingField(FieldError),
    /// A record's operation code is not one of the known ones; the code is
    /// preserved verbatim.
    UnknownOperation(String),
    /// A batch record held an entry that is not itself a record, or batches
    /// were nested past the defensive depth bound.
    InvalidOperation,
}

impl View for Error {
    type V = ErrorModel;

    open spec fn view(&self) -> ErrorModel {
        match *self {
            Error::Database(ref s) => ErrorModel::Database(s@),
            Error::MissingField(ref fe) => ErrorModel::MissingField {
                field: fe.field@,
                kind: fe.kind,
            },
            Error::UnknownOperation(ref code) => ErrorModel::UnknownOperation(code@),
            Error::InvalidOperation => ErrorModel::InvalidOperation,
        }
    }
}

/// The message [`Error::message`] renders for each error.
pub open spec fn error_message_model(e: ErrorModel) -> Seq<char> {
    match e {
        ErrorModel::Database(s) => s,
        ErrorModel::MissingField { field, kind } => match kind {
            crate::bson::FieldErrorKind::NotPresent => "missing field: "@ + field,
            crate::bson::FieldErrorKind::UnexpectedType => "unexpected type for field: "@ + field,
        },
        ErrorModel::UnknownOperation(code) => "Unknown operation type found: "@ + code,
        ErrorModel::InvalidOperation => "Invalid operation"@,
    }
}

impl Error {
    /// A human-readable description of the error.
    pub fn message(&self) -> (r: String)
        ensures
            r@ == error_message_model(self@),
    {
        match self {
            Error::Database(s) => s.clone(),
            Error::MissingField(fe) => match fe.kind {
                crate::bson::FieldErrorKind::NotPresent => {
                    let mut m = String::from_str("missing field: ");
                    m.append(fe.field.as_str());
                    m
                },
                crate::bson::FieldErrorKind::UnexpectedType => {
                    let mut m = String::from_str("unexpected type for field: ");
                    m.append(fe.field.as_str());
                    m
                },
            },
            Error::UnknownOperation(code) => {
                let mut m = String::from_str("Unknown operation type found: ");
                m.append(code.as_str());
                m
            },
            Error::InvalidOperation => String::from_str("Invalid operation"),
        }
    }
}

/// A change event delivered to a subscriber: the payload of an insert,
/// update or delete re-typed into the caller's shape `T`, or the reason the
/// payload did not fit that shape. A payload mismatch is deliberately
/// non-fatal: it is delivered as an event rather than ending the
/// subscription.
#[derive(Clone, Debug, PartialEq)]
pub enum Event<T> {
    Added(T),
    Updated(T),
    Deleted(T),
    Error(String),
}

} // verus!
