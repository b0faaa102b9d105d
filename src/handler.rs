//! The delivery handler: what becomes of one delivery body.
use vstd::prelude::*;

use crate::payload::{decode_text, utf8_text, CreateWithPassword, DecodeError, User, UserFields};

verus! {

/// What a delivery body decodes to: it must be UTF-8 text that decodes as a
/// request.
pub open spec fn body_decodes(body: Seq<u8>) -> Result<UserFields, DecodeError> {
    match utf8_text(body) {
        None => Err(DecodeError::NotText),
        Some(t) => decode_text(t),
    }
}

/// What the handler does with one delivery.
pub enum HandlerAction {
    /// Hand this record to the persistence gateway, once.
    Persist(User),
    /// Drop the delivery for this reason; the gateway is not called.
    Reject(DecodeError),
}

/// The handler's decision for one delivery body: the record to store, or
/// the reason it is rejected.
pub fn plan_delivery(body: &Vec<u8>) -> (r: HandlerAction)
    ensures
        match body_decodes(body@) {
            Ok(u) => r is Persist && r->Persist_0@ == u,
            Err(e) => r is Reject && r->Reject_0 == e,
        },
{
    match CreateWithPassword::decode_body(body) {
        Ok(req) => HandlerAction::Persist(User::from_request(req)),
        Err(e) => HandlerAction::Reject(e),
    }
}

} // verus!
