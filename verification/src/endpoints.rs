//! Builders of the relative request URLs of the REST endpoints. Each
//! function computes the full path-and-query text that the transport
//! appends to the API base; none of them performs any I/O.

use vstd::prelude::*;

use crate::base62::{encode, spec_encode};
use crate::json::JsonNode;
use crate::pagination::SearchResultsPaginator;
use crate::params::{identifier_chars, FileHashes, ProjectIdentifier, ProjectSearchParams};
use crate::query_string::{
    json_string_chars, json_string_of, make_pair, push_str_chars, query_string_chars, urlencoded,
};
use crate::response::Error;
use crate::text::chars_string;

verus! {

/// The public API base every relative path is resolved against.
pub fn default_api_base() -> (r: &'static str)
    ensures
        r@ == "https://api.modrinth.com/v2/"@,
{
    "https://api.modrinth.com/v2/"
}

/// The relative URL of a search request: the `search` endpoint with the
/// parameters' query string.
pub open spec fn search_path_chars(p: ProjectSearchParams) -> Seq<char> {
    "search?"@ + query_string_chars(p)
}

/// Builds the relative URL of a search request.
pub fn search_path(params: &ProjectSearchParams) -> (r: String)
    ensures
        r@ == search_path_chars(*params),
{
    let mut out: Vec<char> = Vec::new();
    push_str_chars(&mut out, "search?");
    let q = params.to_query_string();
    push_str_chars(&mut out, q.as_str());
    proof {
        assert(out@ =~= search_path_chars(*params));
    }
    chars_string(out)
}

/// The relative URL of one project: ids in base-62 form, slugs verbatim.
pub open spec fn project_path_chars(ident: ProjectIdentifier) -> Seq<char> {
    "project/"@ + identifier_chars(ident)
}

/// Builds the relative URL of one project.
pub fn project_path(ident: &ProjectIdentifier) -> (r: String)
    ensures
        r@ == project_path_chars(*ident),
{
    let mut out: Vec<char> = Vec::new();
    push_str_chars(&mut out, "project/");
    let seg = ident.render();
    push_str_chars(&mut out, seg.as_str());
    proof {
        assert(out@ =~= project_path_chars(*ident));
    }
    chars_string(out)
}

/// The relative URL of a project's version list.
pub open spec fn project_versions_path_chars(ident: ProjectIdentifier) -> Seq<char> {
    "project/"@ + identifier_chars(ident) + "/version"@
}

/// Builds the relative URL of a project's version list.
pub fn project_versions_path(ident: &ProjectIdentifier) -> (r: String)
    ensures
        r@ == project_versions_path_chars(*ident),
{
    let mut out: Vec<char> = Vec::new();
    push_str_chars(&mut out, "project/");
    let seg = ident.render();
    push_str_chars(&mut out, seg.as_str());
    push_str_chars(&mut out, "/version");
    proof {
        assert(out@ =~= project_versions_path_chars(*ident));
    }
    chars_string(out)
}

/// The relative URL of one version, addressed by its numeric identifier in
/// base-62 form.
pub open spec fn version_path_chars(version_id: u64) -> Seq<char> {
    "version/"@ + spec_encode(version_id as nat)
}

/// Builds the relative URL of one version.
pub fn version_path(version_id: u64) -> (r: String)
    ensures
        r@ == version_path_chars(version_id),
{
    let mut out: Vec<char> = Vec::new();
    push_str_chars(&mut out, "version/");
    let seg = encode(version_id);
    push_str_chars(&mut out, seg.as_str());
    proof {
        assert(out@ =~= version_path_chars(version_id));
    }
    chars_string(out)
}

/// The comma-separated items of an identifier list: each identifier's
/// base-62 form as a JSON string literal.
pub open spec fn ids_items(ids: Seq<u64>) -> Seq<char>
    decreases ids.len(),
{
    if ids.len() == 0 {
        Seq::empty()
    } else if ids.len() == 1 {
        json_string_chars(spec_encode(ids[0] as nat))
    } else {
        ids_items(ids.drop_last()) + seq![','] + json_string_chars(spec_encode(ids.last() as nat))
    }
}

/// An identifier list as a JSON array of base-62 strings.
pub open spec fn ids_json(ids: Seq<u64>) -> Seq<char> {
    seq!['['] + ids_items(ids) + seq![']']
}

proof fn lemma_ids_items_step(ids: Seq<u64>, j: int)
    requires
        0 <= j < ids.len(),
    ensures
        ids_items(ids.take(j + 1)) == if j == 0 {
            json_string_chars(spec_encode(ids[0] as nat))
        } else {
            ids_items(ids.take(j)) + seq![','] + json_string_chars(spec_encode(ids[j] as nat))
        },
{
    assert(ids.take(j + 1).drop_last() =~= ids.take(j));
    assert(ids.take(j + 1).last() == ids[j]);
    assert(ids.take(j + 1)[0] == ids[0]);
}

/// Renders an identifier list as its JSON array text.
pub fn ids_json_string(ids: &Vec<u64>) -> (r: String)
    ensures
        r@ == ids_json(ids@),
{
    let mut v: Vec<char> = Vec::new();
    v.push('[');
    let len = ids.len();
    let mut i: usize = 0;
    while i < len
        invariant
            i <= len,
            len == ids@.len(),
            v@ == seq!['['] + ids_items(ids@.take(i as int)),
        decreases len - i,
    {
        proof {
            lemma_ids_items_step(ids@, i as int);
        }
        if i > 0 {
            v.push(',');
        }
        let b62 = encode(ids[i]);
        let js = json_string_of(b62.as_str());
        push_str_chars(&mut v, js.as_str());
        proof {
            assert(v@ =~= seq!['['] + ids_items(ids@.take(i + 1)));
        }
        i += 1;
    }
    v.push(']');
    proof {
        assert(ids@.take(len as int) =~= ids@);
        assert(v@ =~= ids_json(ids@));
    }
    chars_string(v)
}

/// The relative URL of a bulk project request: the identifier list rides in
/// the `ids` parameter as url-encoded JSON text.
pub open spec fn projects_path_chars(ids: Seq<u64>) -> Seq<char> {
    "projects?"@ + "ids"@ + seq!['='] + urlencoded(ids_json(ids))
}

/// Builds the relative URL of a bulk project request.
pub fn projects_path(ids: &Vec<u64>) -> (r: String)
    ensures
        r@ == projects_path_chars(ids@),
{
    let mut out: Vec<char> = Vec::new();
    push_str_chars(&mut out, "projects?");
    let json = ids_json_string(ids);
    let pair = make_pair("ids", json.as_str());
    push_str_chars(&mut out, pair.as_str());
    proof {
        assert(out@ =~= projects_path_chars(ids@));
    }
    chars_string(out)
}

/// The relative URL of a bulk version request.
pub open spec fn versions_path_chars(ids: Seq<u64>) -> Seq<char> {
    "versions?"@ + "ids"@ + seq!['='] + urlencoded(ids_json(ids))
}

/// Builds the relative URL of a bulk version request.
pub fn versions_path(ids: &Vec<u64>) -> (r: String)
    ensures
        r@ == versions_path_chars(ids@),
{
    let mut out: Vec<char> = Vec::new();
    push_str_chars(&mut out, "versions?");
    let json = ids_json_string(ids);
    let pair = make_pair("ids", json.as_str());
    push_str_chars(&mut out, pair.as_str());
    proof {
        assert(out@ =~= versions_path_chars(ids@));
    }
    chars_string(out)
}

/// The relative URL of a version-file lookup. The SHA-512 digest is
/// preferred when both are present.
pub open spec fn version_file_path_chars(h: FileHashes) -> Seq<char> {
    match h.sha512 {
        Some(s) => "version_file/"@ + s@ + "?algorithm=sha512"@,
        None => match h.sha1 {
            Some(s) => "version_file/"@ + s@ + "?algorithm=sha1"@,
            None => Seq::empty(),
        },
    }
}

/// Builds the relative URL of a version-file lookup. A lookup with no
/// digest at all is a caller error, rejected before any request is made.
pub fn version_file_path(hash: &FileHashes) -> (r: Result<String, Error>)
    ensures
        r is Ok <==> (hash.sha512 is Some || hash.sha1 is Some),
        r matches Ok(s) ==> s@ == version_file_path_chars(*hash),
        r matches Err(e) ==> e is Input,
{
    let digest: &String = match &hash.sha512 {
        Some(s) => s,
        None => match &hash.sha1 {
            Some(s) => s,
            None => {
                return Err(
                    Error::Input(
                        "a version-file lookup needs at least one digest".to_owned(),
                    ),
                );
            },
        },
    };
    let mut out: Vec<char> = Vec::new();
    push_str_chars(&mut out, "version_file/");
    push_str_chars(&mut out, digest.as_str());
    if hash.sha512.is_some() {
        push_str_chars(&mut out, "?algorithm=sha512");
    } else {
        push_str_chars(&mut out, "?algorithm=sha1");
    }
    proof {
        assert(out@ =~= version_file_path_chars(*hash));
    }
    Ok(chars_string(out))
}

/// Creates the auto-paginating sequence over a search: the state machine
/// that a blocking iterator or a suspending stream drives.
pub fn search_projects_iter(params: ProjectSearchParams) -> (r: SearchResultsPaginator<JsonNode>)
    ensures
        r.wf(),
        r.total_hits is None,
        r.buffer@.len() == 0,
        r.pending_error is None,
        !r.errored,
        r.spec_needs_fetch(),
{
    SearchResultsPaginator::new(params)
}

} // verus!
