use nft_storage::api::store_response;
use nft_storage::encode::{json_escape, metadata_payload};
use nft_storage::flow::{DeleteAllAction, DeleteAllFlow, StoreDirectoryFlow, StoreNftFlow};
use nft_storage::types::ListNftResponse;

#[test]
fn json_escape_leaves_plain_text_alone() {
    assert_eq!(json_escape("My NFT"), "My NFT");
    assert_eq!(json_escape(""), "");
    assert_eq!(json_escape("naïve ☃"), "naïve ☃");
}

#[test]
fn json_escape_escapes_quotes_backslashes_and_controls() {
    assert_eq!(json_escape("a\"b\\c"), "a\\\"b\\\\c");
    assert_eq!(json_escape("\n\t\r\u{8}\u{c}"), "\\n\\t\\r\\b\\f");
    assert_eq!(json_escape("x\u{1}y\u{1f}"), "x\\u0001y\\u001f");
}

#[test]
fn metadata_payload_is_the_exact_document() {
    let p = metadata_payload("My NFT", "Best one", "bafyabc");
    assert_eq!(
        p,
        br#"{"name":"My NFT","description":"Best one","files":"bafyabc"}"#.to_vec()
    );
}

#[test]
fn metadata_payload_escapes_its_strings() {
    let p = metadata_payload("a\"b", "c\\d", "e\nf");
    assert_eq!(
        p,
        b"{\"name\":\"a\\\"b\",\"description\":\"c\\\\d\",\"files\":\"e\\nf\"}".to_vec()
    );
}

#[test]
fn store_flow_uploads_the_file_then_the_metadata() {
    let file = vec![1u8, 2, 3];
    let mut flow = StoreNftFlow::new(file.clone(), "My NFT".to_string(), "Best one".to_string());

    // first upload: the file itself
    assert_eq!(flow.next_upload(), Some(&file));

    // the service answers with the file's identifier
    let first = store_response(true, br#"{"ok":true,"value":{"cid":"bafyfile"}}"#).unwrap();
    flow.on_response(&first);

    // second upload: the metadata document referencing that identifier
    let expected = br#"{"name":"My NFT","description":"Best one","files":"bafyfile"}"#.to_vec();
    assert_eq!(flow.next_upload(), Some(&expected));

    // after the second answer nothing is left to upload: exactly two
    let second = store_response(true, br#"{"ok":true,"value":{"cid":"bafymeta"}}"#).unwrap();
    flow.on_response(&second);
    assert_eq!(flow.next_upload(), None);
}

#[test]
fn directory_flow_uploads_the_files_then_one_metadata_file() {
    let files = vec![vec![1u8], vec![2u8]];
    let names = vec!["a.png".to_string(), "b.png".to_string()];
    let mut flow = StoreDirectoryFlow::new(
        files.clone(),
        names.clone(),
        "N".to_string(),
        "D".to_string(),
    );

    let first_upload = flow.next_upload().unwrap();
    assert_eq!(first_upload.files, files);
    assert_eq!(first_upload.file_names, names);

    // the service answers with the directory identifier and the files it holds
    let body = br#"{"ok":true,"value":{"cid":"bafydir",
        "files":[{"name":"a.png"},{"name":"b.png"}]}}"#;
    let first = store_response(true, body).unwrap();
    flow.on_response(&first);

    let second_upload = flow.next_upload().unwrap();
    assert_eq!(second_upload.file_names, vec!["metadata.json".to_string()]);
    assert_eq!(second_upload.files.len(), 1);
    assert_eq!(
        second_upload.files[0],
        br#"{"name":"N","description":"D","files":["ipfs://bafydir/a.png","ipfs://bafydir/b.png"]}"#
            .to_vec()
    );

    let second = store_response(true, br#"{"ok":true,"value":{"cid":"bafymeta"}}"#).unwrap();
    flow.on_response(&second);
    assert!(flow.next_upload().is_none());
}

fn page(bodies: &[&str]) -> ListNftResponse {
    let mut value = String::from("[");
    for (i, b) in bodies.iter().enumerate() {
        if i > 0 {
            value.push(',');
        }
        value.push_str(b);
    }
    value.push(']');
    let body = format!("{{\"ok\":true,\"value\":{}}}", value);
    nft_storage::api::list_response(true, body.as_bytes(), false).unwrap()
}

#[test]
fn delete_all_terminates_on_an_empty_page() {
    let mut flow = DeleteAllFlow::new();
    assert!(matches!(flow.next_action(), DeleteAllAction::List));
    flow.on_list(&page(&[]));
    assert!(matches!(flow.next_action(), DeleteAllAction::Finished));
}

#[test]
fn delete_all_deletes_each_listed_entry_then_lists_again() {
    let mut flow = DeleteAllFlow::new();
    assert!(matches!(flow.next_action(), DeleteAllAction::List));

    flow.on_list(&page(&[r#"{"cid":"c1"}"#, r#"{"cid":"c2"}"#]));
    match flow.next_action() {
        DeleteAllAction::Delete(cid) => assert_eq!(cid, "c1"),
        other => panic!("expected a deletion, got {:?}", other),
    }
    flow.on_deleted();
    match flow.next_action() {
        DeleteAllAction::Delete(cid) => assert_eq!(cid, "c2"),
        other => panic!("expected a deletion, got {:?}", other),
    }
    flow.on_deleted();
    assert!(matches!(flow.next_action(), DeleteAllAction::List));

    flow.on_list(&page(&[]));
    assert!(matches!(flow.next_action(), DeleteAllAction::Finished));
}

#[test]
fn delete_all_page_limit_is_one_hundred() {
    assert_eq!(nft_storage::flow::delete_all_page_limit(), "100");
}
