//! The decode pipeline of the executor: given the resolved URL, the HTTP
//! status and the raw body bytes, produce either the typed page envelope
//! paired with its bytes, or an error that names the exact field that
//! failed — never a bare "invalid JSON" message.

use vstd::prelude::*;

use crate::base62::{decode, spec_decode, DecodeError};
use crate::json::{json_doc_of, lookup, lookup_pos, parse_json, spec_lookup, JsonNode};
use crate::response::{ApiResponse, Error, PaginatedResponse};
use crate::text::{decimal_string, spec_decimal};
use crate::types::{
    spec_parse_project_type, spec_parse_side_support, ProjectSearchResult, ProjectType,
    SideSupport,
};

verus! {

/// Where and why fitting a JSON document to a shape failed.
#[derive(Clone, Debug, PartialEq, Eq)]
pub struct DecodeFailure {
    /// Path of the failing field inside the document, such as `total_hits`;
    /// empty when the document as a whole has the wrong shape.
    pub path: String,
    /// What was wrong there.
    pub message: String,
}

fn fail(path: &str, message: &str) -> (r: DecodeFailure)
    ensures
        r.path@ == path@,
        r.message@ == message@,
{
    DecodeFailure { path: path.to_owned(), message: message.to_owned() }
}

/// Whether an envelope number field holds an unsigned value that fits the
/// platform's size type.
pub open spec fn page_num_ok(v: Option<JsonNode>) -> bool {
    match v {
        Some(JsonNode::UInt(u)) => u <= usize::MAX,
        _ => false,
    }
}

/// The path of the first defect of a page envelope, checked in the order
/// `hits`, `offset`, `limit`, `total_hits`; `None` when the envelope is
/// well-shaped. The empty path marks a document that is no JSON object.
pub open spec fn spec_page_err(n: JsonNode) -> Option<Seq<char>> {
    match n {
        JsonNode::Obj { names, values } => {
            if !(spec_lookup(names@, values@, "hits"@) matches Some(JsonNode::Arr(_))) {
                Some("hits"@)
            } else if !page_num_ok(spec_lookup(names@, values@, "offset"@)) {
                Some("offset"@)
            } else if !page_num_ok(spec_lookup(names@, values@, "limit"@)) {
                Some("limit"@)
            } else if !page_num_ok(spec_lookup(names@, values@, "total_hits"@)) {
                Some("total_hits"@)
            } else {
                None
            }
        },
        _ => Some(Seq::empty()),
    }
}

/// Whether `page` holds exactly what the envelope `n` carries.
pub open spec fn page_matches(n: JsonNode, page: PaginatedResponse<JsonNode>) -> bool {
    match n {
        JsonNode::Obj { names, values } => {
            &&& (spec_lookup(names@, values@, "hits"@) matches Some(JsonNode::Arr(items))
                && page.hits@ == items@)
            &&& spec_lookup(names@, values@, "offset"@) == Some(
                JsonNode::UInt(page.offset as u64),
            )
            &&& spec_lookup(names@, values@, "limit"@) == Some(JsonNode::UInt(page.limit as u64))
            &&& spec_lookup(names@, values@, "total_hits"@) == Some(
                JsonNode::UInt(page.total_hits as u64),
            )
        },
        _ => false,
    }
}

fn read_num(names: &Vec<String>, values: &Vec<JsonNode>, key: &str) -> (r: Option<usize>)
    ensures
        match r {
            Some(u) => page_num_ok(spec_lookup(names@, values@, key@)) && spec_lookup(
                names@,
                values@,
                key@,
            ) == Some(JsonNode::UInt(u as u64)),
            None => !page_num_ok(spec_lookup(names@, values@, key@)),
        },
{
    match lookup_pos(names, values, key) {
        Some(i) => match &values[i] {
            JsonNode::UInt(u) => {
                if *u <= usize::MAX as u64 {
                    Some(*u as usize)
                } else {
                    None
                }
            },
            _ => None,
        },
        None => None,
    }
}

/// Fits a parsed document to the page envelope `{hits, offset, limit,
/// total_hits}`. Succeeds exactly on well-shaped envelopes; on failure the
/// reported path names the first defective field.
pub fn decode_page(n: JsonNode) -> (r: Result<PaginatedResponse<JsonNode>, DecodeFailure>)
    ensures
        r is Ok <==> spec_page_err(n) is None,
        r matches Ok(page) ==> page_matches(n, page),
        r matches Err(f) ==> spec_page_err(n) == Some(f.path@),
{
    let (names, mut values) = match n {
        JsonNode::Obj { names, values } => (names, values),
        _ => {
            proof {
                reveal_strlit("");
                assert(""@ =~= Seq::<char>::empty());
            }
            return Err(fail("", "expected a JSON object"));
        },
    };
    let hits_pos = match lookup_pos(&names, &values, "hits") {
        Some(i) => i,
        None => {
            return Err(fail("hits", "missing field"));
        },
    };
    match &values[hits_pos] {
        JsonNode::Arr(_) => {},
        _ => {
            return Err(fail("hits", "expected an array"));
        },
    }
    let offset = match read_num(&names, &values, "offset") {
        Some(u) => u,
        None => {
            return Err(fail("offset", "expected an unsigned integer"));
        },
    };
    let limit = match read_num(&names, &values, "limit") {
        Some(u) => u,
        None => {
            return Err(fail("limit", "expected an unsigned integer"));
        },
    };
    let total_hits = match read_num(&names, &values, "total_hits") {
        Some(u) => u,
        None => {
            return Err(fail("total_hits", "expected an unsigned integer"));
        },
    };
    let hits_node = values.remove(hits_pos);
    let hits = match hits_node {
        JsonNode::Arr(items) => items,
        _ => {
            proof {
                assert(false);
            }
            return Err(fail("hits", "expected an array"));
        },
    };
    Ok(PaginatedResponse { hits, offset, limit, total_hits })
}

/// Evaluates one GET response of the search endpoint: a non-200 status
/// fails with the status, URL and raw bytes; a body that is no JSON fails
/// with the parser's words; a JSON body that does not fit the page envelope
/// fails with the exact field path; and a well-shaped body yields the typed
/// page paired with its raw bytes.
pub fn decode_page_response(url: &str, status: u16, bytes: Vec<u8>) -> (r: Result<
    ApiResponse<PaginatedResponse<JsonNode>>,
    Error,
>)
    ensures
        status != 200 ==> (r matches Err(e) && e matches Error::StatusNotOk {
            status: s,
            url: u,
            bytes: b,
        } && s == status && u@ == url@ && b == bytes),
        status == 200 && json_doc_of(bytes@) is None ==> (r matches Err(e) && e
            matches Error::Deserialize { path, url: u, bytes: b, .. } && path@ == Seq::<
            char,
        >::empty() && u@ == url@ && b == bytes),
        status == 200 ==> (json_doc_of(bytes@) matches Some(n) ==> (spec_page_err(n)
            matches Some(p) ==> (r matches Err(e) && e matches Error::Deserialize {
            path,
            url: u,
            bytes: b,
            ..
        } && path@ == p && u@ == url@ && b == bytes))),
        status == 200 ==> (json_doc_of(bytes@) matches Some(n) ==> (spec_page_err(n) is None ==> (
        r matches Ok(resp) && resp.bytes == bytes && page_matches(n, resp.value)))),
{
    if status != 200 {
        return Err(Error::StatusNotOk { status, url: url.to_owned(), bytes });
    }
    let node = match parse_json(bytes.as_slice()) {
        Ok(n) => n,
        Err(message) => {
            return Err(
                Error::Deserialize {
                    path: String::new(),
                    url: url.to_owned(),
                    bytes,
                    message,
                },
            );
        },
    };
    match decode_page(node) {
        Ok(page) => Ok(ApiResponse::new(bytes, page)),
        Err(f) => Err(
            Error::Deserialize { path: f.path, url: url.to_owned(), bytes, message: f.message },
        ),
    }
}


/// Whether a field holds a string.
pub open spec fn str_field_ok(ns: Seq<String>, vs: Seq<JsonNode>, key: Seq<char>) -> bool {
    spec_lookup(ns, vs, key) matches Some(JsonNode::Str(_))
}

/// The characters of a string field, where it holds one.
pub open spec fn str_field_val(ns: Seq<String>, vs: Seq<JsonNode>, key: Seq<char>) -> Seq<char> {
    match spec_lookup(ns, vs, key) {
        Some(JsonNode::Str(s)) => s@,
        _ => Seq::empty(),
    }
}

/// Whether a field is an optional string: absent, null, or a string.
pub open spec fn opt_str_field_ok(ns: Seq<String>, vs: Seq<JsonNode>, key: Seq<char>) -> bool {
    match spec_lookup(ns, vs, key) {
        None => true,
        Some(JsonNode::Null) => true,
        Some(JsonNode::Str(_)) => true,
        _ => false,
    }
}

/// Whether `out` holds exactly what an optional string field carries.
pub open spec fn opt_str_field_matches(
    ns: Seq<String>,
    vs: Seq<JsonNode>,
    key: Seq<char>,
    out: Option<String>,
) -> bool {
    match spec_lookup(ns, vs, key) {
        Some(JsonNode::Str(s)) => out matches Some(o) && o@ == s@,
        _ => out is None,
    }
}

/// Whether a field holds a count: an unsigned value within `i64`, or a
/// signed value such as the `-1` the server has been observed to answer.
pub open spec fn count_field_ok(ns: Seq<String>, vs: Seq<JsonNode>, key: Seq<char>) -> bool {
    match spec_lookup(ns, vs, key) {
        Some(JsonNode::UInt(u)) => u <= i64::MAX,
        Some(JsonNode::Int(_)) => true,
        _ => false,
    }
}

/// The value of a count field, where it holds one.
pub open spec fn count_field_val(ns: Seq<String>, vs: Seq<JsonNode>, key: Seq<char>) -> int {
    match spec_lookup(ns, vs, key) {
        Some(JsonNode::UInt(u)) => u as int,
        Some(JsonNode::Int(i)) => i as int,
        _ => 0,
    }
}

/// Whether every element of an array is a string.
pub open spec fn str_items_ok(items: Seq<JsonNode>) -> bool {
    forall|j: int| 0 <= j < items.len() ==> items[j] is Str
}

/// Whether a field holds an array of strings.
pub open spec fn str_arr_field_ok(ns: Seq<String>, vs: Seq<JsonNode>, key: Seq<char>) -> bool {
    match spec_lookup(ns, vs, key) {
        Some(JsonNode::Arr(items)) => str_items_ok(items@),
        _ => false,
    }
}

/// Whether `out` holds exactly the strings of `items`.
pub open spec fn str_arr_matches(items: Seq<JsonNode>, out: Seq<String>) -> bool {
    &&& out.len() == items.len()
    &&& forall|j: int|
        0 <= j < items.len() ==> (#[trigger] items[j] matches JsonNode::Str(s) && out[j]@ == s@)
}

/// Whether `out` holds exactly what a string-array field carries.
pub open spec fn str_arr_field_matches(
    ns: Seq<String>,
    vs: Seq<JsonNode>,
    key: Seq<char>,
    out: Seq<String>,
) -> bool {
    match spec_lookup(ns, vs, key) {
        Some(JsonNode::Arr(items)) => str_arr_matches(items@, out),
        _ => false,
    }
}

/// Whether a field holds a base-62 identifier string.
pub open spec fn id_field_ok(ns: Seq<String>, vs: Seq<JsonNode>, key: Seq<char>) -> bool {
    match spec_lookup(ns, vs, key) {
        Some(JsonNode::Str(s)) => spec_decode(s@) is Ok,
        _ => false,
    }
}

fn get_str(names: &Vec<String>, values: &Vec<JsonNode>, key: &str) -> (r: Option<String>)
    ensures
        r is Some <==> str_field_ok(names@, values@, key@),
        r matches Some(s) ==> s@ == str_field_val(names@, values@, key@),
{
    match lookup(names, values, key) {
        Some(JsonNode::Str(s)) => Some(s.clone()),
        _ => None,
    }
}

fn get_opt_str(names: &Vec<String>, values: &Vec<JsonNode>, key: &str) -> (r: Option<
    Option<String>,
>)
    ensures
        r is Some <==> opt_str_field_ok(names@, values@, key@),
        r matches Some(o) ==> opt_str_field_matches(names@, values@, key@, o),
{
    match lookup(names, values, key) {
        None => Some(None),
        Some(JsonNode::Null) => Some(None),
        Some(JsonNode::Str(s)) => Some(Some(s.clone())),
        _ => None,
    }
}

fn get_count(names: &Vec<String>, values: &Vec<JsonNode>, key: &str) -> (r: Option<i64>)
    ensures
        r is Some <==> count_field_ok(names@, values@, key@),
        r matches Some(c) ==> c as int == count_field_val(names@, values@, key@),
{
    match lookup(names, values, key) {
        Some(JsonNode::UInt(u)) => {
            if *u <= i64::MAX as u64 {
                Some(*u as i64)
            } else {
                None
            }
        },
        Some(JsonNode::Int(i)) => Some(*i),
        _ => None,
    }
}

fn get_str_arr(names: &Vec<String>, values: &Vec<JsonNode>, key: &str) -> (r: Option<Vec<String>>)
    ensures
        r is Some <==> str_arr_field_ok(names@, values@, key@),
        r matches Some(v) ==> str_arr_field_matches(names@, values@, key@, v@),
{
    match lookup(names, values, key) {
        Some(JsonNode::Arr(items)) => {
            let mut out: Vec<String> = Vec::new();
            let len = items.len();
            let mut j: usize = 0;
            while j < len
                invariant
                    j <= len,
                    len == items@.len(),
                    out@.len() == j,
                    spec_lookup(names@, values@, key@) == Some(JsonNode::Arr(*items)),
                    forall|k: int|
                        0 <= k < j ==> (#[trigger] items@[k] matches JsonNode::Str(s) && out@[k]@
                            == s@),
                decreases len - j,
            {
                match &items[j] {
                    JsonNode::Str(s) => {
                        out.push(s.clone());
                    },
                    _ => {
                        proof {
                            assert(!(items@[j as int] is Str));
                            assert(!str_items_ok(items@));
                        }
                        return None;
                    },
                }
                j += 1;
            }
            Some(out)
        },
        _ => None,
    }
}

fn get_id(names: &Vec<String>, values: &Vec<JsonNode>, key: &str) -> (r: Option<u64>)
    ensures
        r is Some <==> id_field_ok(names@, values@, key@),
        r matches Some(u) ==> (spec_lookup(names@, values@, key@) matches Some(JsonNode::Str(s))
            && spec_decode(s@) == Ok::<u64, DecodeError>(u)),
{
    match lookup(names, values, key) {
        Some(JsonNode::Str(s)) => match decode(s.as_str()) {
            Ok(u) => Some(u),
            Err(_) => None,
        },
        _ => None,
    }
}

/// The path of the first defect of one search hit, relative to the hit and
/// checked in field order; `None` when the hit is well-shaped. The empty
/// path marks a hit that is no JSON object.
pub open spec fn spec_hit_err(n: JsonNode) -> Option<Seq<char>> {
    match n {
        JsonNode::Obj { names, values } => {
            let ns = names@;
            let vs = values@;
            if !id_field_ok(ns, vs, "project_id"@) {
                Some("project_id"@)
            } else if !str_field_ok(ns, vs, "project_type"@) {
                Some("project_type"@)
            } else if !opt_str_field_ok(ns, vs, "slug"@) {
                Some("slug"@)
            } else if !str_field_ok(ns, vs, "author"@) {
                Some("author"@)
            } else if !str_field_ok(ns, vs, "title"@) {
                Some("title"@)
            } else if !str_field_ok(ns, vs, "description"@) {
                Some("description"@)
            } else if !str_arr_field_ok(ns, vs, "categories"@) {
                Some("categories"@)
            } else if !str_arr_field_ok(ns, vs, "versions"@) {
                Some("versions"@)
            } else if !opt_str_field_ok(ns, vs, "latest_version"@) {
                Some("latest_version"@)
            } else if !count_field_ok(ns, vs, "downloads"@) {
                Some("downloads"@)
            } else if !count_field_ok(ns, vs, "follows"@) {
                Some("follows"@)
            } else if !str_field_ok(ns, vs, "icon_url"@) {
                Some("icon_url"@)
            } else if !str_field_ok(ns, vs, "date_created"@) {
                Some("date_created"@)
            } else if !str_field_ok(ns, vs, "date_modified"@) {
                Some("date_modified"@)
            } else if !str_field_ok(ns, vs, "license"@) {
                Some("license"@)
            } else if !str_field_ok(ns, vs, "client_side"@) {
                Some("client_side"@)
            } else if !str_field_ok(ns, vs, "server_side"@) {
                Some("server_side"@)
            } else if !str_arr_field_ok(ns, vs, "gallery"@) {
                Some("gallery"@)
            } else {
                None
            }
        },
        _ => Some(Seq::empty()),
    }
}

/// Whether `h` holds exactly what the hit object `n` carries.
pub open spec fn hit_matches(n: JsonNode, h: ProjectSearchResult) -> bool {
    match n {
        JsonNode::Obj { names, values } => {
            let ns = names@;
            let vs = values@;
            &&& (spec_lookup(ns, vs, "project_id"@) matches Some(JsonNode::Str(s)) && spec_decode(
                s@,
            ) == Ok::<u64, DecodeError>(h.project_id))
            &&& h.project_type == spec_parse_project_type(
                str_field_val(ns, vs, "project_type"@),
            )
            &&& opt_str_field_matches(ns, vs, "slug"@, h.slug)
            &&& h.author@ == str_field_val(ns, vs, "author"@)
            &&& h.title@ == str_field_val(ns, vs, "title"@)
            &&& h.description@ == str_field_val(ns, vs, "description"@)
            &&& str_arr_field_matches(ns, vs, "categories"@, h.categories@)
            &&& str_arr_field_matches(ns, vs, "versions"@, h.versions@)
            &&& opt_str_field_matches(ns, vs, "latest_version"@, h.latest_version)
            &&& h.downloads as int == count_field_val(ns, vs, "downloads"@)
            &&& h.follows as int == count_field_val(ns, vs, "follows"@)
            &&& h.icon_url@ == str_field_val(ns, vs, "icon_url"@)
            &&& h.date_created@ == str_field_val(ns, vs, "date_created"@)
            &&& h.date_modified@ == str_field_val(ns, vs, "date_modified"@)
            &&& h.license@ == str_field_val(ns, vs, "license"@)
            &&& h.client_side == spec_parse_side_support(str_field_val(ns, vs, "client_side"@))
            &&& h.server_side == spec_parse_side_support(str_field_val(ns, vs, "server_side"@))
            &&& str_arr_field_matches(ns, vs, "gallery"@, h.gallery@)
        },
        _ => false,
    }
}

/// Fits one hit object to `ProjectSearchResult`. Succeeds exactly on
/// well-shaped hits; on failure the reported path names the first defective
/// field.
#[verifier::rlimit(60)]
pub fn decode_hit(n: &JsonNode) -> (r: Result<ProjectSearchResult, DecodeFailure>)
    ensures
        r is Ok <==> spec_hit_err(*n) is None,
        r matches Ok(h) ==> hit_matches(*n, h),
        r matches Err(f) ==> spec_hit_err(*n) == Some(f.path@),
{
    let (names, values) = match n {
        JsonNode::Obj { names, values } => (names, values),
        _ => {
            proof {
                reveal_strlit("");
                assert(""@ =~= Seq::<char>::empty());
            }
            return Err(fail("", "expected a JSON object"));
        },
    };
    let project_id = match get_id(names, values, "project_id") {
        Some(u) => u,
        None => {
            return Err(fail("project_id", "expected a base-62 identifier string"));
        },
    };
    let project_type = match get_str(names, values, "project_type") {
        Some(s) => ProjectType::parse(s.as_str()),
        None => {
            return Err(fail("project_type", "expected a string"));
        },
    };
    let slug = match get_opt_str(names, values, "slug") {
        Some(o) => o,
        None => {
            return Err(fail("slug", "expected a string or null"));
        },
    };
    let author = match get_str(names, values, "author") {
        Some(s) => s,
        None => {
            return Err(fail("author", "expected a string"));
        },
    };
    let title = match get_str(names, values, "title") {
        Some(s) => s,
        None => {
            return Err(fail("title", "expected a string"));
        },
    };
    let description = match get_str(names, values, "description") {
        Some(s) => s,
        None => {
            return Err(fail("description", "expected a string"));
        },
    };
    let categories = match get_str_arr(names, values, "categories") {
        Some(v) => v,
        None => {
            return Err(fail("categories", "expected an array of strings"));
        },
    };
    let versions = match get_str_arr(names, values, "versions") {
        Some(v) => v,
        None => {
            return Err(fail("versions", "expected an array of strings"));
        },
    };
    let latest_version = match get_opt_str(names, values, "latest_version") {
        Some(o) => o,
        None => {
            return Err(fail("latest_version", "expected a string or null"));
        },
    };
    let downloads = match get_count(names, values, "downloads") {
        Some(c) => c,
        None => {
            return Err(fail("downloads", "expected an integer count"));
        },
    };
    let follows = match get_count(names, values, "follows") {
        Some(c) => c,
        None => {
            return Err(fail("follows", "expected an integer count"));
        },
    };
    let icon_url = match get_str(names, values, "icon_url") {
        Some(s) => s,
        None => {
            return Err(fail("icon_url", "expected a string"));
        },
    };
    let date_created = match get_str(names, values, "date_created") {
        Some(s) => s,
        None => {
            return Err(fail("date_created", "expected a string"));
        },
    };
    let date_modified = match get_str(names, values, "date_modified") {
        Some(s) => s,
        None => {
            return Err(fail("date_modified", "expected a string"));
        },
    };
    let license = match get_str(names, values, "license") {
        Some(s) => s,
        None => {
            return Err(fail("license", "expected a string"));
        },
    };
    let client_side = match get_str(names, values, "client_side") {
        Some(s) => SideSupport::parse(s.as_str()),
        None => {
            return Err(fail("client_side", "expected a string"));
        },
    };
    let server_side = match get_str(names, values, "server_side") {
        Some(s) => SideSupport::parse(s.as_str()),
        None => {
            return Err(fail("server_side", "expected a string"));
        },
    };
    let gallery = match get_str_arr(names, values, "gallery") {
        Some(v) => v,
        None => {
            return Err(fail("gallery", "expected an array of strings"));
        },
    };
    Ok(
        ProjectSearchResult {
            project_id,
            project_type,
            slug,
            author,
            title,
            description,
            categories,
            versions,
            latest_version,
            downloads,
            follows,
            icon_url,
            date_created,
            date_modified,
            license,
            client_side,
            server_side,
            gallery,
        },
    )
}


/// The index of the first defective hit, or `None` when every hit is
/// well-shaped.
pub open spec fn spec_hits_err(hits: Seq<JsonNode>) -> Option<int>
    decreases hits.len(),
{
    if hits.len() == 0 {
        None
    } else if spec_hit_err(hits[0]) is Some {
        Some(0int)
    } else {
        match spec_hits_err(hits.drop_first()) {
            Some(i) => Some(i + 1),
            None => None,
        }
    }
}

proof fn lemma_hits_err_at(hits: Seq<JsonNode>, i: int)
    requires
        0 <= i < hits.len(),
        spec_hit_err(hits[i]) is Some,
        forall|j: int| 0 <= j < i ==> spec_hit_err(hits[j]) is None,
    ensures
        spec_hits_err(hits) == Some(i),
    decreases i,
{
    if i > 0 {
        lemma_hits_err_at(hits.drop_first(), i - 1);
    }
}

proof fn lemma_hits_err_none(hits: Seq<JsonNode>)
    requires
        forall|j: int| 0 <= j < hits.len() ==> spec_hit_err(hits[j]) is None,
    ensures
        spec_hits_err(hits) is None,
    decreases hits.len(),
{
    if hits.len() > 0 {
        lemma_hits_err_none(hits.drop_first());
    }
}

/// The full path of a defect inside hit `i`: `hits[i]` alone when the hit
/// as a whole is malformed, `hits[i].field` otherwise.
pub open spec fn hit_path_chars(i: int, field: Seq<char>) -> Seq<char> {
    if field.len() == 0 {
        "hits["@ + spec_decimal(i as nat) + "]"@
    } else {
        "hits["@ + spec_decimal(i as nat) + "]."@ + field
    }
}

fn build_hit_path(i: usize, field: &str) -> (r: String)
    ensures
        r@ == hit_path_chars(i as int, field@),
{
    let mut v: Vec<char> = Vec::new();
    crate::query_string::push_str_chars(&mut v, "hits[");
    let d = decimal_string(i as u64);
    crate::query_string::push_str_chars(&mut v, d.as_str());
    if field.unicode_len() == 0 {
        crate::query_string::push_str_chars(&mut v, "]");
        proof {
            assert(field@ =~= Seq::<char>::empty());
            assert(v@ =~= hit_path_chars(i as int, field@));
        }
    } else {
        crate::query_string::push_str_chars(&mut v, "].");
        crate::query_string::push_str_chars(&mut v, field);
        proof {
            assert(v@ =~= hit_path_chars(i as int, field@));
        }
    }
    crate::text::chars_string(v)
}

/// Fits every hit of a page to `ProjectSearchResult`. Succeeds exactly when
/// every hit is well-shaped; on failure the reported path points into the
/// first defective hit, such as `hits[3].project_id`.
pub fn decode_hits(hits: Vec<JsonNode>) -> (r: Result<Vec<ProjectSearchResult>, DecodeFailure>)
    ensures
        r is Ok <==> spec_hits_err(hits@) is None,
        r matches Ok(out) ==> out@.len() == hits@.len() && (forall|j: int|
            0 <= j < hits@.len() ==> hit_matches(hits@[j], #[trigger] out@[j])),
        r matches Err(f) ==> (spec_hits_err(hits@) matches Some(i) && spec_hit_err(hits@[i])
            matches Some(p) && f.path@ == hit_path_chars(i, p)),
{
    let mut out: Vec<ProjectSearchResult> = Vec::new();
    let len = hits.len();
    let mut i: usize = 0;
    while i < len
        invariant
            i <= len,
            len == hits@.len(),
            out@.len() == i,
            forall|j: int| 0 <= j < i ==> spec_hit_err(hits@[j]) is None,
            forall|j: int| 0 <= j < i ==> hit_matches(hits@[j], #[trigger] out@[j]),
        decreases len - i,
    {
        match decode_hit(&hits[i]) {
            Ok(h) => {
                out.push(h);
            },
            Err(f) => {
                proof {
                    lemma_hits_err_at(hits@, i as int);
                }
                let path = build_hit_path(i, f.path.as_str());
                return Err(DecodeFailure { path, message: f.message });
            },
        }
        i += 1;
    }
    proof {
        lemma_hits_err_none(hits@);
    }
    Ok(out)
}

/// Whether `page` holds exactly what the search response document `n`
/// carries: the envelope numbers and every hit, decoded.
pub open spec fn search_matches(n: JsonNode, page: PaginatedResponse<ProjectSearchResult>) -> bool {
    match n {
        JsonNode::Obj { names, values } => {
            &&& (spec_lookup(names@, values@, "hits"@) matches Some(JsonNode::Arr(items))
                && page.hits@.len() == items@.len() && (forall|j: int|
                0 <= j < items@.len() ==> hit_matches(items@[j], #[trigger] page.hits@[j])))
            &&& spec_lookup(names@, values@, "offset"@) == Some(
                JsonNode::UInt(page.offset as u64),
            )
            &&& spec_lookup(names@, values@, "limit"@) == Some(JsonNode::UInt(page.limit as u64))
            &&& spec_lookup(names@, values@, "total_hits"@) == Some(
                JsonNode::UInt(page.total_hits as u64),
            )
        },
        _ => false,
    }
}

/// The path of the first defect of a whole search response: an envelope
/// defect first, else the first defect inside the hits.
pub open spec fn spec_search_err(n: JsonNode) -> Option<Seq<char>> {
    match spec_page_err(n) {
        Some(p) => Some(p),
        None => match n {
            JsonNode::Obj { names, values } => match spec_lookup(names@, values@, "hits"@) {
                Some(JsonNode::Arr(items)) => match spec_hits_err(items@) {
                    Some(i) => match spec_hit_err(items@[i]) {
                        Some(p) => Some(hit_path_chars(i, p)),
                        None => None,
                    },
                    None => None,
                },
                _ => None,
            },
            _ => None,
        },
    }
}

/// Evaluates one GET response of the search endpoint all the way to typed
/// hits: a non-200 status fails with status, URL and raw bytes; a body that
/// is no JSON fails with the parser's words; a body that does not fit the
/// page envelope or whose hits do not fit the hit shape fails with the
/// exact field path; a well-shaped body yields the typed page paired with
/// its raw bytes.
pub fn decode_search_response(url: &str, status: u16, bytes: Vec<u8>) -> (r: Result<
    ApiResponse<PaginatedResponse<ProjectSearchResult>>,
    Error,
>)
    ensures
        status != 200 ==> (r matches Err(e) && e matches Error::StatusNotOk {
            status: s,
            url: u,
            bytes: b,
        } && s == status && u@ == url@ && b@ == bytes@),
        status == 200 && json_doc_of(bytes@) is None ==> (r matches Err(e) && e
            matches Error::Deserialize { path, url: u, bytes: b, .. } && path@ == Seq::<
            char,
        >::empty() && u@ == url@ && b@ == bytes@),
        status == 200 ==> (json_doc_of(bytes@) matches Some(n) ==> (spec_search_err(n)
            matches Some(p) ==> (r matches Err(e) && e matches Error::Deserialize {
            path,
            url: u,
            bytes: b,
            ..
        } && path@ == p && u@ == url@ && b@ == bytes@))),
        status == 200 ==> (json_doc_of(bytes@) matches Some(n) ==> (spec_search_err(n) is None
            ==> (r matches Ok(resp) && resp.bytes@ == bytes@ && search_matches(n, resp.value)))),
{
    let page = match decode_page_response(url, status, bytes.clone()) {
        Ok(resp) => resp.into_value(),
        Err(e) => {
            return Err(e);
        },
    };
    let PaginatedResponse { hits, offset, limit, total_hits } = page;
    match decode_hits(hits) {
        Ok(typed) => Ok(
            ApiResponse::new(
                bytes,
                PaginatedResponse { hits: typed, offset, limit, total_hits },
            ),
        ),
        Err(f) => Err(
            Error::Deserialize { path: f.path, url: url.to_owned(), bytes, message: f.message },
        ),
    }
}

} // verus!
