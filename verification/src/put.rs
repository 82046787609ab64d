//! The save-by-id entry point: validates the request, saves the entry, and
//! maps the outcome to a response.

use vstd::prelude::*;
use crate::apigw::{extract_identifier, is_response, respond, spec_identifier, Request, Response};
use crate::store::{save_model, ItemSaver, StorageError};

verus! {

/// Maps a save outcome to a response: success is 200 "All good!"; failure is
/// 500 with the failure's textual description, exactly.
pub fn save_response(res: &Result<(), StorageError>) -> (r: Response)
    ensures
        res is Ok ==> is_response(r, 200, "All good!"@),
        res matches Err(e) ==> is_response(r, 500, e.message_spec()),
{
    match res {
        Ok(_) => respond(200, String::from_str("All good!")),
        Err(e) => respond(500, e.message()),
    }
}

/// Handles one save-by-id request: a request without the path identifier is
/// answered 400 "Bad request" and the store is left untouched; otherwise the
/// entry is saved, success is answered 200 "All good!", and a failure is
/// answered 500 carrying the failure's own description.
pub fn handler<S: ItemSaver>(store: &mut S, req: &Request) -> (resp: Response)
    ensures
        spec_identifier(*req) is None ==> is_response(resp, 400, "Bad request"@)
            && final(store).saved() == old(store).saved(),
        spec_identifier(*req) matches Some(id) ==> {
            ||| is_response(resp, 200, "All good!"@)
                && final(store).saved() == save_model(old(store).saved(), id)
            ||| exists|e: StorageError| is_response(resp, 500, e.message_spec())
        },
{
    let id = match extract_identifier(req) {
        Some(id) => id,
        None => {
            return respond(400, String::from_str("Bad request"));
        },
    };
    let res = store.save_item(id);
    let resp = save_response(&res);
    proof {
        if res is Err {
            assert(is_response(resp, 500, res->Err_0.message_spec()));
        }
    }
    resp
}

} // verus!
