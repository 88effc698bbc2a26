use modrinth::base62::encode;
use modrinth::decode::{decode_hit, decode_page, decode_page_response, decode_search_response};
use modrinth::json::{parse_json, JsonNode};
use modrinth::response::{ApiResponse, Error};
use modrinth::types::{ProjectType, SideSupport};

const URL: &str = "https://api.example.test/v2/search?limit=1";

fn hit_json(project_id: &str, downloads: &str) -> String {
    let head = "{\"project_id\":\"";
    let mid = "\",\"project_type\":\"mod\",\"slug\":\"sodium\",\"author\":\"someone\",\"title\":\"Sodium\",\"description\":\"fast\",\"categories\":[\"optimization\"],\"versions\":[\"1.19\"],\"latest_version\":\"1.19.2\",\"downloads\":";
    let tail = ",\"follows\":7,\"icon_url\":\"https://example.test/icon.png\",\"date_created\":\"2021-01-01T00:00:00Z\",\"date_modified\":\"2022-01-01T00:00:00Z\",\"license\":\"mit\",\"client_side\":\"required\",\"server_side\":\"optional\",\"gallery\":[]}";
    format!("{}{}{}{}{}", head, project_id, mid, downloads, tail)
}

fn page_json(hits: &[String], offset: u64, limit: u64, total: &str) -> Vec<u8> {
    format!(
        "{{\"hits\":[{}],\"offset\":{},\"limit\":{},\"total_hits\":{}}}",
        hits.join(","),
        offset,
        limit,
        total
    )
    .into_bytes()
}

#[test]
fn well_shaped_page_decodes() {
    let body = page_json(&[hit_json("3D7", "42")], 0, 1, "7");
    let resp = decode_search_response(URL, 200, body.clone()).unwrap();
    assert_eq!(resp.get_bytes(), &body);
    let page = resp.get_value();
    assert_eq!(page.offset, 0);
    assert_eq!(page.limit, 1);
    assert_eq!(page.total_hits, 7);
    assert_eq!(page.hits.len(), 1);
    let hit = &page.hits[0];
    assert_eq!(hit.project_id, 12345);
    assert_eq!(encode(hit.project_id), "3D7");
    assert_eq!(hit.project_type, ProjectType::Mod);
    assert_eq!(hit.slug.as_deref(), Some("sodium"));
    assert_eq!(hit.downloads, 42);
    assert_eq!(hit.follows, 7);
    assert_eq!(hit.client_side, SideSupport::Required);
    assert_eq!(hit.server_side, SideSupport::Optional);
    assert_eq!(hit.date_created, "2021-01-01T00:00:00Z");
}

#[test]
fn negative_count_is_kept_not_rejected() {
    // The server has been seen to answer -1 for a count.
    let body = page_json(&[hit_json("3D7", "-1")], 0, 1, "7");
    let resp = decode_search_response(URL, 200, body).unwrap();
    assert_eq!(resp.get_value().hits[0].downloads, -1);
}

#[test]
fn unknown_enum_names_fall_back_to_unknown() {
    let hit = hit_json("3D7", "1").replace("\"mod\"", "\"datapack\"");
    let body = page_json(&[hit], 0, 1, "1");
    let resp = decode_search_response(URL, 200, body).unwrap();
    assert_eq!(resp.get_value().hits[0].project_type, ProjectType::Unknown);
}

#[test]
fn non_200_status_reports_status_url_and_bytes() {
    let body = b"{\"error\":\"oh no\"}".to_vec();
    let err = decode_search_response(URL, 500, body.clone()).unwrap_err();
    match err {
        Error::StatusNotOk { status, url, bytes } => {
            assert_eq!(status, 500);
            assert_eq!(url, URL);
            assert_eq!(bytes, body);
        }
        other => panic!("expected StatusNotOk, got {:?}", other),
    }
}

#[test]
fn wrong_typed_envelope_field_reports_its_path() {
    // total_hits of -1 does not fit an unsigned count: the path points at
    // exactly that field.
    let body = page_json(&[], 0, 1, "-1");
    let err = decode_search_response(URL, 200, body.clone()).unwrap_err();
    match err {
        Error::Deserialize { path, url, bytes, .. } => {
            assert_eq!(path, "total_hits");
            assert_eq!(url, URL);
            assert_eq!(bytes, body);
        }
        other => panic!("expected Deserialize, got {:?}", other),
    }
}

#[test]
fn wrong_typed_hit_field_reports_its_exact_path() {
    let good = hit_json("3D7", "1");
    let bad = hit_json("3D7", "\"many\"");
    let body = page_json(&[good, bad], 0, 2, "2");
    let err = decode_search_response(URL, 200, body).unwrap_err();
    match err {
        Error::Deserialize { path, .. } => assert_eq!(path, "hits[1].downloads"),
        other => panic!("expected Deserialize, got {:?}", other),
    }
}

#[test]
fn bad_identifier_reports_its_path() {
    let bad = hit_json("not-base62!", "1");
    let body = page_json(&[bad], 0, 1, "1");
    let err = decode_search_response(URL, 200, body).unwrap_err();
    match err {
        Error::Deserialize { path, .. } => assert_eq!(path, "hits[0].project_id"),
        other => panic!("expected Deserialize, got {:?}", other),
    }
}

#[test]
fn syntax_error_keeps_bytes_and_parser_words() {
    let body = b"{not json".to_vec();
    let err = decode_search_response(URL, 200, body.clone()).unwrap_err();
    match err {
        Error::Deserialize { path, bytes, message, .. } => {
            assert_eq!(path, "");
            assert_eq!(bytes, body);
            assert!(!message.is_empty());
        }
        other => panic!("expected Deserialize, got {:?}", other),
    }
}

#[test]
fn missing_hits_field_reports_hits() {
    let body = b"{\"offset\":0,\"limit\":1,\"total_hits\":0}".to_vec();
    match decode_page_response(URL, 200, body) {
        Err(Error::Deserialize { path, .. }) => assert_eq!(path, "hits"),
        Err(other) => panic!("expected Deserialize, got {:?}", other),
        Ok(_) => panic!("expected an error"),
    }
}

#[test]
fn page_decode_keeps_raw_hit_nodes() {
    let body = page_json(&[hit_json("3D7", "1")], 3, 1, "9");
    let node = match parse_json(&body) {
        Ok(n) => n,
        Err(e) => panic!("parse failed: {e}"),
    };
    let page = match decode_page(node) {
        Ok(p) => p,
        Err(f) => panic!("decode failed at {}", f.path),
    };
    assert_eq!(page.offset, 3);
    assert_eq!(page.limit, 1);
    assert_eq!(page.total_hits, 9);
    assert_eq!(page.hits.len(), 1);
    assert!(matches!(page.hits[0], JsonNode::Obj { .. }));
    let hit = match decode_hit(&page.hits[0]) {
        Ok(h) => h,
        Err(f) => panic!("decode failed at {}", f.path),
    };
    assert_eq!(hit.title, "Sodium");
}

#[test]
fn missing_hit_field_reports_its_name() {
    let body = page_json(&[hit_json("3D7", "1")], 0, 1, "1");
    let node = match parse_json(&body) {
        Ok(n) => n,
        Err(e) => panic!("parse failed: {e}"),
    };
    let page = match decode_page(node) {
        Ok(p) => p,
        Err(f) => panic!("decode failed at {}", f.path),
    };
    // Strip the author field out of the hit and decode it alone.
    let with_missing = hit_json("3D7", "1").replace("\"author\":\"someone\",", "");
    let lone = match parse_json(with_missing.as_bytes()) {
        Ok(n) => n,
        Err(e) => panic!("parse failed: {e}"),
    };
    let failure = match decode_hit(&lone) {
        Err(f) => f,
        Ok(_) => panic!("expected a failure"),
    };
    assert_eq!(failure.path, "author");
    // The intact hit still decodes.
    assert!(decode_hit(&page.hits[0]).is_ok());
}

#[test]
fn api_response_pairs_bytes_and_value() {
    let mut resp = ApiResponse::new(vec![1u8, 2, 3], 7u32);
    assert_eq!(resp.get_bytes(), &vec![1u8, 2, 3]);
    assert_eq!(*resp.get_value(), 7);
    *resp.get_value_mut() = 8;
    resp.get_bytes_mut().push(4);
    assert_eq!(resp.get_bytes(), &vec![1u8, 2, 3, 4]);
    let (bytes, value) = resp.into_bytes_value();
    assert_eq!(bytes, vec![1u8, 2, 3, 4]);
    assert_eq!(value, 8);
    let resp = ApiResponse::new(vec![9u8], 1u8);
    assert_eq!(resp.into_bytes(), vec![9u8]);
    let resp = ApiResponse::new(vec![9u8], 5u8);
    assert_eq!(resp.into_value(), 5);
}
