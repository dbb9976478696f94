use nft_storage::api::{
    check_response, delete_response, get_response, list_response, store_response,
};
use nft_storage::error::NFTStorageError;
use nft_storage::json::Json;
use nft_storage::types::{
    CheckCidNftResponse, DeleteNftResponse, GetNftResponse, ListNftResponse, NftValue,
    StoreNftResponse,
};
use nft_storage::NftStorage;

#[test]
fn new_keeps_url_and_token() {
    let client = NftStorage::new(
        "https://api.nft.storage".to_string(),
        "SECRET-REDACTED".to_string(),
    );
    assert_eq!(client.url, "https://api.nft.storage");
    assert_eq!(client.token, "SECRET-REDACTED");
}

#[test]
fn list_url_with_both_parameters() {
    let client = NftStorage::new("https://api.nft.storage".to_string(), "t".to_string());
    assert_eq!(
        client.list_url(Some("2021-12-01T08:52:33"), Some("10")),
        "https://api.nft.storage/?before=2021-12-01T08:52:33&limit=10"
    );
}

#[test]
fn list_url_without_parameters() {
    let client = NftStorage::new("https://api.nft.storage".to_string(), "t".to_string());
    assert_eq!(
        client.list_url(None, None),
        "https://api.nft.storage/?before=&limit="
    );
}

#[test]
fn item_check_and_upload_urls() {
    let client = NftStorage::new("https://api.nft.storage".to_string(), "t".to_string());
    assert_eq!(client.item_url("abc"), "https://api.nft.storage/abc");
    assert_eq!(client.check_url("abc"), "https://api.nft.storage/check/abc");
    assert_eq!(client.upload_url(), "https://api.nft.storage/upload");
}

#[test]
fn api_error_carries_the_parsed_document() {
    // the error body comes back as the parsed tree; serde_json's map
    // iterates keys in sorted order
    let r = store_response(false, br#"{"b":[1,true,null,"s"],"a":-3}"#);
    let expected = Json::Obj(vec![
        ("a".to_string(), Json::Num(Some(-3))),
        (
            "b".to_string(),
            Json::Arr(vec![
                Json::Num(Some(1)),
                Json::Bool(true),
                Json::Null,
                Json::Str("s".to_string()),
            ]),
        ),
    ]);
    match r {
        Err(NFTStorageError::ApiError(b)) => assert_eq!(b, expected),
        other => panic!("expected the API error variant, got {:?}", other),
    }
}

#[test]
fn malformed_bytes_fail_even_outside_2xx() {
    assert!(matches!(
        store_response(false, b"{not json"),
        Err(NFTStorageError::InvalidJson)
    ));
    assert!(matches!(
        store_response(true, b""),
        Err(NFTStorageError::InvalidJson)
    ));
}

#[test]
fn non_2xx_returns_api_error_with_exact_body() {
    let body = br#"{"ok":false,"error":{"name":"HTTPError","message":"NFT not found"}}"#;
    let r: Result<GetNftResponse, NFTStorageError> = get_response(false, body);
    let expected = Json::Obj(vec![
        (
            "error".to_string(),
            Json::Obj(vec![
                ("message".to_string(), Json::Str("NFT not found".to_string())),
                ("name".to_string(), Json::Str("HTTPError".to_string())),
            ]),
        ),
        ("ok".to_string(), Json::Bool(false)),
    ]);
    match r {
        Err(NFTStorageError::ApiError(b)) => assert_eq!(b, expected),
        other => panic!("expected the API error variant, got {:?}", other),
    }
}

#[test]
fn non_2xx_returns_api_error_for_every_operation() {
    let body = br#"{"ok":false}"#;
    assert!(matches!(
        list_response(false, body, false),
        Err(NFTStorageError::ApiError(_))
    ));
    assert!(matches!(
        store_response(false, body),
        Err(NFTStorageError::ApiError(_))
    ));
    assert!(matches!(
        delete_response(false, body),
        Err(NFTStorageError::ApiError(_))
    ));
    assert!(matches!(
        check_response(false, body),
        Err(NFTStorageError::ApiError(_))
    ));
}

#[test]
fn malformed_json_returns_decode_error() {
    let body = b"<html>gateway timeout</html>";
    assert!(matches!(
        list_response(true, body, false),
        Err(NFTStorageError::InvalidJson)
    ));
    assert!(matches!(
        store_response(true, body),
        Err(NFTStorageError::InvalidJson)
    ));
    assert!(matches!(
        get_response(true, body),
        Err(NFTStorageError::InvalidJson)
    ));
    assert!(matches!(
        delete_response(true, body),
        Err(NFTStorageError::InvalidJson)
    ));
    assert!(matches!(
        check_response(true, body),
        Err(NFTStorageError::InvalidJson)
    ));
}

#[test]
fn wrongly_typed_field_returns_decode_error() {
    assert!(matches!(
        delete_response(true, br#"{"ok":"yes"}"#),
        Err(NFTStorageError::InvalidJson)
    ));
    assert!(matches!(
        store_response(true, br#"{"ok":true,"value":{"size":"big"}}"#),
        Err(NFTStorageError::InvalidJson)
    ));
}

#[test]
fn missing_fields_default_to_empty_and_zero() {
    let r: StoreNftResponse = store_response(true, b"{}").unwrap();
    assert!(!r.ok);
    assert_eq!(r.value.cid, "");
    assert_eq!(r.value.size, 0);
    assert_eq!(r.value.pin.status, "");
    assert!(r.value.files.is_empty());
    assert!(r.value.deals.is_empty());
}

#[test]
fn size_outside_i32_range_returns_decode_error() {
    let r = store_response(true, br#"{"ok":true,"value":{"size":2147483648}}"#);
    assert!(matches!(r, Err(NFTStorageError::InvalidJson)));
    let ok = store_response(true, br#"{"ok":true,"value":{"size":2147483647}}"#).unwrap();
    assert_eq!(ok.value.size, 2147483647);
}

#[test]
fn fractional_number_in_read_field_returns_decode_error() {
    let r = store_response(true, br#"{"ok":true,"value":{"size":1.5}}"#);
    assert!(matches!(r, Err(NFTStorageError::InvalidJson)));
}

#[test]
fn fractional_number_in_ignored_field_is_fine() {
    let r = store_response(true, br#"{"ok":true,"junk":1.5}"#).unwrap();
    assert!(r.ok);
}

#[test]
fn store_response_decodes_the_stored_entry() {
    let body = br#"{
        "ok": true,
        "value": {
            "cid": "bafyfile",
            "size": 132614,
            "created": "2021-03-12T17:03:07.787Z",
            "file_type": "image/jpeg",
            "scope": "default",
            "pin": {"cid": "bafyfile", "status": "pinned", "created": "2021-03-12T17:03:07.787Z", "size": 132614},
            "files": [{"name": "img.jpg", "file_type": "image/jpeg"}],
            "deals": [{"batchRootCid": "bafyroot", "miner": "f05678", "status": "published", "chainDealID": 138},
                      {"miner": "f09999", "status": "queued"}]
        }
    }"#;
    let r: StoreNftResponse = store_response(true, body).unwrap();
    assert!(r.ok);
    assert_eq!(r.value.cid, "bafyfile");
    assert_eq!(r.value.size, 132614);
    assert_eq!(r.value.file_type, "image/jpeg");
    assert_eq!(r.value.scope, "default");
    assert_eq!(r.value.pin.status, "pinned");
    assert_eq!(r.value.pin.size, 132614);
    assert_eq!(r.value.files.len(), 1);
    assert_eq!(r.value.files[0].name, "img.jpg");
    assert_eq!(r.value.deals.len(), 2);
    assert_eq!(r.value.deals[0].batch_root_cid, "bafyroot");
    assert_eq!(r.value.deals[0].chain_deal_id, 138);
    assert_eq!(r.value.deals[1].miner, "f09999");
    assert_eq!(r.value.deals[1].chain_deal_id, 0);
    // the upload operation derives no links
    assert!(r.value.link.is_empty());
}

#[test]
fn get_response_decorates_the_entry_with_links() {
    let body = br#"{"ok":true,"value":{"cid":"X"}}"#;
    let r: GetNftResponse = get_response(true, body).unwrap();
    assert!(r.ok);
    assert_eq!(r.value.cid, "X");
    assert_eq!(
        r.value.link,
        vec![
            "https://X.ipfs.dweb.link".to_string(),
            "https://ipfs.io/ipfs/X".to_string(),
            "ipfs://X".to_string(),
        ]
    );
}

#[test]
fn delete_response_decodes_the_acknowledgement() {
    let r: DeleteNftResponse = delete_response(true, br#"{"ok":true}"#).unwrap();
    assert!(r.ok);
}

#[test]
fn check_response_decodes_the_report() {
    let body = br#"{
        "ok": true,
        "value": {
            "cid": "bafycheck",
            "pin": {"cid": "bafycheck", "status": "pinned", "size": 7},
            "deals": [{"miner": "f1", "chainDealID": 7, "statusText": "on chain"}]
        }
    }"#;
    let r: CheckCidNftResponse = check_response(true, body).unwrap();
    assert!(r.ok);
    assert_eq!(r.value.cid, "bafycheck");
    assert_eq!(r.value.pin.status, "pinned");
    assert_eq!(r.value.pin.size, 7);
    assert_eq!(r.value.deals.len(), 1);
    assert_eq!(r.value.deals[0].miner, "f1");
    assert_eq!(r.value.deals[0].chain_deal_id, 7);
    assert_eq!(r.value.deals[0].status_text, "on chain");
}

fn listing_body() -> &'static [u8] {
    br#"{
        "ok": true,
        "value": [
            {"cid": "c1", "files": [{"name": "metadata.json", "file_type": "application/json"}]},
            {"cid": "c2", "files": [{"name": "img.png", "file_type": "image/png"}]},
            {"cid": "c3"},
            {"cid": "c4", "files": [{"name": "metadata.json"}, {"name": "img.png"}]}
        ]
    }"#
}

#[test]
fn listing_without_filter_keeps_every_entry_and_links_each() {
    let r: ListNftResponse = list_response(true, listing_body(), false).unwrap();
    assert!(r.ok);
    assert_eq!(r.value.len(), 4);
    let cids: Vec<&str> = r.value.iter().map(|v| v.cid.as_str()).collect();
    assert_eq!(cids, vec!["c1", "c2", "c3", "c4"]);
    for v in &r.value {
        assert_eq!(
            v.link,
            vec![
                format!("https://{}.ipfs.dweb.link", v.cid),
                format!("https://ipfs.io/ipfs/{}", v.cid),
                format!("ipfs://{}", v.cid),
            ]
        );
    }
}

#[test]
fn listing_with_filter_keeps_only_metadata_entries() {
    let r: ListNftResponse = list_response(true, listing_body(), true).unwrap();
    assert!(r.ok);
    assert_eq!(r.value.len(), 2);
    let cids: Vec<&str> = r.value.iter().map(|v| v.cid.as_str()).collect();
    assert_eq!(cids, vec!["c1", "c4"]);
    for v in &r.value {
        assert_eq!(v.files[0].name, "metadata.json");
        assert_eq!(
            v.link,
            vec![
                format!("https://{}.ipfs.dweb.link/metadata.json", v.cid),
                format!("https://ipfs.io/ipfs/{}/metadata.json", v.cid),
                format!("ipfs://{}/metadata.json", v.cid),
            ]
        );
    }
}

#[test]
fn listing_with_filter_of_an_empty_page_is_empty() {
    let r: ListNftResponse = list_response(true, br#"{"ok":true,"value":[]}"#, true).unwrap();
    assert!(r.ok);
    assert!(r.value.is_empty());
}

#[test]
fn error_messages_describe_the_failure() {
    assert_eq!(
        NFTStorageError::InvalidRequest("connection refused".to_string()).message(),
        "connection refused"
    );
    assert_eq!(NFTStorageError::InvalidJson.message(), "Unable to parse json");
    assert_eq!(
        NFTStorageError::ApiError(Json::Null).message(),
        "the service answered outside the 2xx range"
    );
}

#[test]
fn default_records_are_empty() {
    let v = NftValue::default();
    assert_eq!(v.cid, "");
    assert_eq!(v.size, 0);
    assert!(v.files.is_empty());
    assert!(v.deals.is_empty());
    assert!(v.link.is_empty());
    let l = ListNftResponse::default();
    assert!(!l.ok);
    assert!(l.value.is_empty());
}
