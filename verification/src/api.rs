//! The response envelope of each operation: status branch and decode.
//!
//! Every operation of the service answers with an HTTP status and a JSON
//! body. The unverified HTTP shell hands both in; these functions hold the
//! whole envelope rule: a body that is not well-formed JSON fails with the
//! decode error; a status outside the 2xx range fails with the API error
//! carrying the body as sent; a well-formed body of the wrong shape fails
//! with the decode error; otherwise the typed response comes back, decorated
//! with its convenience links where the operation derives them.
use vstd::prelude::*;

use crate::decode::{
    decode_check, decode_delete, decode_get, decode_list, decode_store, spec_decode_check,
    spec_decode_delete, spec_decode_get, spec_decode_list, spec_decode_store,
};
use crate::error::{NFTStorageError, NFTStorageErrorV};
use crate::json::{json_parse, parse_json};
use crate::links::{
    convenience_links, decorate_entries, decorate_metadata_entries, plain_decorated,
    spec_decorate_all, spec_metadata_listing,
};
use crate::types::{
    CheckCidNftResponse, DeleteNftResponse, GetNftResponse, GetNftResponseV, ListNftResponse,
    ListNftResponseV, StoreNftResponse,
};

verus! {

/// Finish the listing operation: decode the body, filter to metadata entries
/// when asked, and set each entry's convenience links.
pub fn list_response(status_success: bool, body: &[u8], only_metadata: bool) -> (r: Result<
    ListNftResponse,
    NFTStorageError,
>)
    ensures
        (match r {
            Ok(res) => {
                &&& status_success
                &&& json_parse(body@) matches Some(doc)
                &&& spec_decode_list(doc) matches Some(lv)
                &&& res@ == (ListNftResponseV {
                    ok: lv.ok,
                    value: if only_metadata {
                        spec_metadata_listing(lv.value)
                    } else {
                        spec_decorate_all(lv.value)
                    },
                })
            },
            Err(e) => match e@ {
                NFTStorageErrorV::ApiError(doc) => !status_success && json_parse(body@) == Some(
                    doc,
                ),
                NFTStorageErrorV::InvalidJson => json_parse(body@) is None || (status_success
                    && spec_decode_list(json_parse(body@)->Some_0) is None),
                NFTStorageErrorV::InvalidRequest(_) => false,
            },
        }),
{
    let doc = match parse_json(body) {
        Some(d) => d,
        None => {
            return Err(NFTStorageError::InvalidJson);
        },
    };
    if !status_success {
        return Err(NFTStorageError::ApiError(doc));
    }
    let decoded = match decode_list(&doc) {
        Some(x) => x,
        None => {
            return Err(NFTStorageError::InvalidJson);
        },
    };
    let value = if only_metadata {
        decorate_metadata_entries(decoded.value)
    } else {
        decorate_entries(decoded.value)
    };
    Ok(ListNftResponse { ok: decoded.ok, value })
}

/// Finish an upload operation: decode the body into the stored entry.
pub fn store_response(status_success: bool, body: &[u8]) -> (r: Result<
    StoreNftResponse,
    NFTStorageError,
>)
    ensures
        (match r {
            Ok(res) => {
                &&& status_success
                &&& json_parse(body@) matches Some(doc)
                &&& spec_decode_store(doc) == Some(res@)
            },
            Err(e) => match e@ {
                NFTStorageErrorV::ApiError(doc) => !status_success && json_parse(body@) == Some(
                    doc,
                ),
                NFTStorageErrorV::InvalidJson => json_parse(body@) is None || (status_success
                    && spec_decode_store(json_parse(body@)->Some_0) is None),
                NFTStorageErrorV::InvalidRequest(_) => false,
            },
        }),
{
    let doc = match parse_json(body) {
        Some(d) => d,
        None => {
            return Err(NFTStorageError::InvalidJson);
        },
    };
    if !status_success {
        return Err(NFTStorageError::ApiError(doc));
    }
    match decode_store(&doc) {
        Some(x) => Ok(x),
        None => Err(NFTStorageError::InvalidJson),
    }
}

/// Finish the fetch operation: decode the body and set the entry's
/// convenience links.
pub fn get_response(status_success: bool, body: &[u8]) -> (r: Result<
    GetNftResponse,
    NFTStorageError,
>)
    ensures
        (match r {
            Ok(res) => {
                &&& status_success
                &&& json_parse(body@) matches Some(doc)
                &&& spec_decode_get(doc) matches Some(gv)
                &&& res@ == (GetNftResponseV { ok: gv.ok, value: plain_decorated(gv.value) })
            },
            Err(e) => match e@ {
                NFTStorageErrorV::ApiError(doc) => !status_success && json_parse(body@) == Some(
                    doc,
                ),
                NFTStorageErrorV::InvalidJson => json_parse(body@) is None || (status_success
                    && spec_decode_get(json_parse(body@)->Some_0) is None),
                NFTStorageErrorV::InvalidRequest(_) => false,
            },
        }),
{
    let doc = match parse_json(body) {
        Some(d) => d,
        None => {
            return Err(NFTStorageError::InvalidJson);
        },
    };
    if !status_success {
        return Err(NFTStorageError::ApiError(doc));
    }
    let mut decoded = match decode_get(&doc) {
        Some(x) => x,
        None => {
            return Err(NFTStorageError::InvalidJson);
        },
    };
    let links = convenience_links(&decoded.value.cid);
    decoded.value.link = links;
    Ok(decoded)
}

/// Finish the deletion operation: decode the acknowledgement.
pub fn delete_response(status_success: bool, body: &[u8]) -> (r: Result<
    DeleteNftResponse,
    NFTStorageError,
>)
    ensures
        (match r {
            Ok(res) => {
                &&& status_success
                &&& json_parse(body@) matches Some(doc)
                &&& spec_decode_delete(doc) == Some(res@)
            },
            Err(e) => match e@ {
                NFTStorageErrorV::ApiError(doc) => !status_success && json_parse(body@) == Some(
                    doc,
                ),
                NFTStorageErrorV::InvalidJson => json_parse(body@) is None || (status_success
                    && spec_decode_delete(json_parse(body@)->Some_0) is None),
                NFTStorageErrorV::InvalidRequest(_) => false,
            },
        }),
{
    let doc = match parse_json(body) {
        Some(d) => d,
        None => {
            return Err(NFTStorageError::InvalidJson);
        },
    };
    if !status_success {
        return Err(NFTStorageError::ApiError(doc));
    }
    match decode_delete(&doc) {
        Some(x) => Ok(x),
        None => Err(NFTStorageError::InvalidJson),
    }
}

/// Finish the existence check: decode what the service reports.
pub fn check_response(status_success: bool, body: &[u8]) -> (r: Result<
    CheckCidNftResponse,
    NFTStorageError,
>)
    ensures
        (match r {
            Ok(res) => {
                &&& status_success
                &&& json_parse(body@) matches Some(doc)
                &&& spec_decode_check(doc) == Some(res@)
            },
            Err(e) => match e@ {
                NFTStorageErrorV::ApiError(doc) => !status_success && json_parse(body@) == Some(
                    doc,
                ),
                NFTStorageErrorV::InvalidJson => json_parse(body@) is None || (status_success
                    && spec_decode_check(json_parse(body@)->Some_0) is None),
                NFTStorageErrorV::InvalidRequest(_) => false,
            },
        }),
{
    let doc = match parse_json(body) {
        Some(d) => d,
        None => {
            return Err(NFTStorageError::InvalidJson);
        },
    };
    if !status_success {
        return Err(NFTStorageError::ApiError(doc));
    }
    match decode_check(&doc) {
        Some(x) => Ok(x),
        None => Err(NFTStorageError::InvalidJson),
    }
}

} // verus!
