use nft_storage::{EndpointUrl, JWTClaim, NFTStorage, ResponseValue, StoreError, StorePlan, UploadResponse};

fn file_endpoint() -> EndpointUrl {
    EndpointUrl::parse("file:///tmp/foo.txt").unwrap()
}

fn object_response(entries: Vec<(String, ResponseValue)>) -> UploadResponse {
    UploadResponse { ok: true, value: ResponseValue::Object(entries) }
}

#[test]
fn construct_client() {
    let token = "header.payload.signature";
    let storage_client = NFTStorage::new(token, Some(file_endpoint())).unwrap();
    assert_eq!(storage_client.endpoint.text, "file:///tmp/foo.txt");
    assert_eq!(storage_client.token, token);

    let cid = match storage_client.plan_store().unwrap() {
        StorePlan::Offline { cid } => cid,
        StorePlan::Post { .. } => panic!("a file-scheme endpoint must stay offline"),
    };
    assert!(cid.starts_with("bafkrei"));
}

#[test]
fn default_endpoint_when_none_given() {
    let client = NFTStorage::new("tok", None).unwrap();
    assert_eq!(client.endpoint.text, "https://api.nft.storage/");
    assert_eq!(client.endpoint.scheme, "https");
}

#[test]
fn given_endpoint_is_kept() {
    let endpoint = EndpointUrl::parse("https://example.com/base/").unwrap();
    let client = NFTStorage::new("tok", Some(endpoint)).unwrap();
    assert_eq!(client.endpoint.text, "https://example.com/base/");
    assert_eq!(client.endpoint.scheme, "https");
}

#[test]
fn file_scheme_store_is_offline_with_placeholder_cid() {
    let client = NFTStorage::new("any token at all", Some(file_endpoint())).unwrap();
    match client.plan_store().unwrap() {
        StorePlan::Offline { cid } => assert_eq!(cid, "bafkrei"),
        StorePlan::Post { .. } => panic!("a file-scheme endpoint must stay offline"),
    }
}

#[test]
fn http_scheme_store_posts_to_upload_path() {
    let client = NFTStorage::new("tok", None).unwrap();
    match client.plan_store().unwrap() {
        StorePlan::Offline { .. } => panic!("an https endpoint must go to the network"),
        StorePlan::Post { url, headers } => {
            assert_eq!(url, "https://api.nft.storage/upload");
            assert_eq!(headers.len(), 2);
            assert_eq!(headers[0].0, "Content-Type");
            assert_eq!(headers[0].1, "application/octet-stream");
            assert_eq!(headers[1].0, "Authorization");
            assert_eq!(headers[1].1, "Bearer tok");
        }
    }
}

#[test]
fn upload_path_replaces_endpoint_path() {
    let endpoint = EndpointUrl::parse("https://example.com/some/deep/path").unwrap();
    let client = NFTStorage::new("tok", Some(endpoint)).unwrap();
    match client.plan_store().unwrap() {
        StorePlan::Post { url, .. } => assert_eq!(url, "https://example.com/upload"),
        StorePlan::Offline { .. } => panic!("an https endpoint must go to the network"),
    }
}

#[test]
fn unresolvable_upload_path_is_a_url_error() {
    let endpoint = EndpointUrl::parse("mailto:user@example.com").unwrap();
    let client = NFTStorage::new("tok", Some(endpoint)).unwrap();
    match client.plan_store() {
        Err(StoreError::Url) => {}
        other => panic!("expected a URL resolution error, got {:?}", other.map(|_| ())),
    }
}

#[test]
fn response_with_string_cid_yields_it() {
    let resp = object_response(vec![(
        "cid".to_string(),
        ResponseValue::Text("bafkrei123abc".to_string()),
    )]);
    assert_eq!(resp.extract_cid().unwrap(), "bafkrei123abc");
}

#[test]
fn response_with_other_fields_still_yields_cid() {
    let resp = object_response(vec![
        ("size".to_string(), ResponseValue::Other),
        ("cid".to_string(), ResponseValue::Text("bafkreixyz".to_string())),
        ("type".to_string(), ResponseValue::Text("image/png".to_string())),
    ]);
    assert_eq!(resp.extract_cid().unwrap(), "bafkreixyz");
}

#[test]
fn response_with_empty_object_is_a_shape_error() {
    let resp = object_response(vec![]);
    assert!(matches!(resp.extract_cid(), Err(StoreError::ResponseShape)));
}

#[test]
fn response_with_non_string_cid_is_a_shape_error() {
    let resp = object_response(vec![("cid".to_string(), ResponseValue::Other)]);
    assert!(matches!(resp.extract_cid(), Err(StoreError::ResponseShape)));
}

#[test]
fn response_with_non_object_value_is_a_shape_error() {
    let resp = UploadResponse {
        ok: true,
        value: ResponseValue::Text("not-an-object".to_string()),
    };
    assert!(matches!(resp.extract_cid(), Err(StoreError::ResponseShape)));
}

#[test]
fn malformed_endpoint_string_is_a_config_error() {
    assert!(matches!(EndpointUrl::parse("not a url"), Err(StoreError::Config)));
}

#[test]
fn parse_normalizes_the_url_text() {
    let endpoint = EndpointUrl::parse("HTTPS://API.NFT.STORAGE").unwrap();
    assert_eq!(endpoint.text, "https://api.nft.storage/");
    assert_eq!(endpoint.scheme, "https");
}

#[test]
fn two_store_calls_on_one_client_are_independent() {
    let client = NFTStorage::new("tok", None).unwrap();

    let first = object_response(vec![(
        "cid".to_string(),
        ResponseValue::Text("bafkreiaaa".to_string()),
    )]);
    let second = object_response(vec![(
        "cid".to_string(),
        ResponseValue::Text("bafkreibbb".to_string()),
    )]);

    let url_before = client.endpoint.text.clone();
    assert_eq!(first.extract_cid().unwrap(), "bafkreiaaa");
    assert_eq!(second.extract_cid().unwrap(), "bafkreibbb");

    // The client holds no mutable state a call could leave behind.
    assert_eq!(client.endpoint.text, url_before);
    assert_eq!(client.token, "tok");
}

#[test]
fn duplicate_keys_resolve_to_the_first_entry() {
    let resp = object_response(vec![
        ("cid".to_string(), ResponseValue::Text("bafkreifirst".to_string())),
        ("cid".to_string(), ResponseValue::Text("bafkreisecond".to_string())),
    ]);
    assert_eq!(resp.extract_cid().unwrap(), "bafkreifirst");
}

#[test]
fn default_claim_holds_the_documented_values() {
    let claim = JWTClaim::default();
    assert_eq!(claim.sub, "did:ethr:0x39c221E391b43034847677f2eFe7584F536f389a");
    assert_eq!(claim.iss, "nft-storage");
    assert_eq!(claim.iat, 1629229027112);
    assert_eq!(claim.name, "My NFT App");
}

#[test]
fn error_descriptions_name_each_failure() {
    assert_eq!(StoreError::Config.describe(), "invalid endpoint URL");
    assert_eq!(StoreError::Url.describe(), "cannot resolve upload path against endpoint");
    assert_eq!(
        StoreError::Transport("connection reset".to_string()).describe(),
        "transport failure"
    );
    assert_eq!(
        StoreError::ResponseShape.describe(),
        "response held no string `cid` field"
    );
}
#[test]
fn metadata_carries_the_descriptive_fields() {
    let rt = tokio::runtime::Builder::new_current_thread()
        .enable_all()
        .build()
        .unwrap();
    let image = rt
        .block_on(tokio::fs::File::create("/tmp/nft_storage_test_image.bin"))
        .unwrap();
    let metadata = nft_storage::Metadata {
        name: "hello".to_string(),
        description: "bar".to_string(),
        image,
        url: None,
    };
    assert_eq!(metadata.name, "hello");
    assert_eq!(metadata.description, "bar");
    assert!(metadata.url.is_none());
}
