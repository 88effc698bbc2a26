use modrinth::base62::Base62;
use modrinth::endpoints::{
    default_api_base, project_path, project_versions_path, projects_path, search_path,
    search_projects_iter, version_file_path, version_path, versions_path,
};
use modrinth::pagination::PollResult;
use modrinth::params::{FileHashes, ProjectIdentifier, ProjectSearchParams};
use modrinth::response::Error;
use modrinth::types::{ProjectStatus, ProjectType, SideSupport, VersionType};
use modrinth::json_string::JsonString;

#[test]
fn api_base_is_the_public_endpoint() {
    assert_eq!(default_api_base(), "https://api.modrinth.com/v2/");
}

#[test]
fn search_path_carries_the_query_string() {
    let mut params = ProjectSearchParams::new();
    params.limit = Some(3);
    assert_eq!(search_path(&params), "search?limit=3");
    assert_eq!(search_path(&ProjectSearchParams::new()), "search?");
}

#[test]
fn project_paths_use_id_or_slug() {
    assert_eq!(
        project_path(&ProjectIdentifier::id(Base62::new(12345))),
        "project/3D7"
    );
    assert_eq!(project_path(&ProjectIdentifier::slug("sodium")), "project/sodium");
    assert_eq!(
        project_versions_path(&ProjectIdentifier::slug("sodium")),
        "project/sodium/version"
    );
}

#[test]
fn version_paths_encode_identifiers() {
    assert_eq!(version_path(12345), "version/3D7");
    // The ids parameter carries the JSON array of base-62 strings,
    // url-encoded: [\"3D7\",\"0\"]
    assert_eq!(
        projects_path(&vec![12345, 0]),
        "projects?ids=%5B%223D7%22%2C%220%22%5D"
    );
    assert_eq!(
        versions_path(&vec![12345]),
        "versions?ids=%5B%223D7%22%5D"
    );
}

#[test]
fn version_file_lookup_prefers_sha512() {
    let h = FileHashes::sha512("aaa");
    assert_eq!(
        version_file_path(&h).unwrap(),
        "version_file/aaa?algorithm=sha512"
    );
    let h = FileHashes::sha1("bbb");
    assert_eq!(
        version_file_path(&h).unwrap(),
        "version_file/bbb?algorithm=sha1"
    );
    let both = FileHashes { sha512: Some("aaa".to_owned()), sha1: Some("bbb".to_owned()) };
    assert_eq!(
        version_file_path(&both).unwrap(),
        "version_file/aaa?algorithm=sha512"
    );
}

#[test]
fn version_file_lookup_without_digest_is_an_input_error() {
    let none = FileHashes { sha512: None, sha1: None };
    match version_file_path(&none) {
        Err(Error::Input(_)) => {}
        other => panic!("expected an input error, got {:?}", other),
    }
}

#[test]
fn search_iter_starts_with_the_probe() {
    let mut paginator = search_projects_iter(ProjectSearchParams::new());
    match paginator.poll_next() {
        PollResult::Fetch(query) => assert_eq!(query, "offset=0&limit=1"),
        _ => panic!("expected the probe request"),
    }
}

#[test]
fn enum_wire_names_round_trip() {
    assert_eq!(ProjectType::parse("mod"), ProjectType::Mod);
    assert_eq!(ProjectType::parse("modpack"), ProjectType::Modpack);
    assert_eq!(ProjectType::parse("plugin"), ProjectType::Unknown);
    assert_eq!(ProjectType::Mod.as_str(), "mod");
    assert_eq!(ProjectStatus::parse("approved"), ProjectStatus::Approved);
    assert_eq!(ProjectStatus::parse("odd"), ProjectStatus::Unknown);
    assert_eq!(SideSupport::parse("unsupported"), SideSupport::Unsupported);
    assert_eq!(SideSupport::Optional.as_str(), "optional");
    assert_eq!(VersionType::Release.as_str(), "release");
}

#[test]
fn json_string_wraps_and_unwraps() {
    let wrapped = JsonString::new(vec![1u64, 2]);
    assert_eq!(wrapped.clone().into_inner(), vec![1u64, 2]);
    assert_eq!(wrapped, JsonString(vec![1u64, 2]));
}
