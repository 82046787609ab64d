//! The fetch-by-id entry point: validates the request, reads the entry, and
//! maps the outcome to a response.

use vstd::prelude::*;
use crate::apigw::{extract_identifier, is_response, respond, spec_identifier, Request, Response};
use crate::json::{entry_json, entry_json_spec};
use crate::store::{get_model, Entry, ItemGetter, StorageError};

verus! {

/// Maps a get outcome to a response: success is 200 with the entry
/// serialized as JSON; every failure, absence included, is 404 "Not found".
pub fn get_response(res: &Result<Entry, StorageError>) -> (r: Response)
    ensures
        res matches Ok(e) ==> is_response(r, 200, entry_json_spec(e.id@)),
        res is Err ==> is_response(r, 404, "Not found"@),
{
    match res {
        Ok(e) => respond(200, entry_json(e)),
        Err(_) => respond(404, String::from_str("Not found")),
    }
}

/// Handles one fetch-by-id request: a request without the path identifier is
/// answered 400 "Bad request"; an entry the store holds comes back as 200
/// with the entry serialized as JSON; every failure, absence included, is
/// answered 404 "Not found".
pub fn handler<G: ItemGetter>(store: &G, req: &Request) -> (resp: Response)
    ensures
        spec_identifier(*req) is None ==> is_response(resp, 400, "Bad request"@),
        spec_identifier(*req) matches Some(id) ==> (is_response(resp, 200, entry_json_spec(id))
            && get_model(store.stored(), id) == Some(id)) || is_response(resp, 404, "Not found"@),
{
    let id = match extract_identifier(req) {
        Some(id) => id,
        None => {
            return respond(400, String::from_str("Bad request"));
        },
    };
    let res = store.get_item(id);
    get_response(&res)
}

} // verus!
