//! Typed search parameters: the facet predicates, sort index, paging fields
//! and identifier forms that requests are built from.

use vstd::prelude::*;

use crate::base62::{spec_encode, Base62};

verus! {

/// One search predicate. Facets combine by AND inside a group and by OR
/// across groups; each renders as `name:'value'` on the wire.
#[derive(Clone, Debug, PartialEq, Eq, Hash)]
pub enum SearchFacet {
    Category(String),
    Version(String),
    License(String),
    ProjectType(String),
    Custom(String, String),
}

/// The wire rendering of a facet: its field name, a colon, and the value in
/// single quotes.
pub open spec fn facet_chars(f: SearchFacet) -> Seq<char> {
    match f {
        SearchFacet::Category(v) => "categories:'"@ + v@ + "'"@,
        SearchFacet::Version(v) => "versions:'"@ + v@ + "'"@,
        SearchFacet::License(v) => "license:'"@ + v@ + "'"@,
        SearchFacet::ProjectType(v) => "project_type:'"@ + v@ + "'"@,
        SearchFacet::Custom(n, v) => n@ + ":'"@ + v@ + "'"@,
    }
}

impl SearchFacet {
    /// A predicate on the `categories` facet field.
    pub fn category(value: &str) -> (r: Self)
        ensures
            r matches SearchFacet::Category(v) && v@ == value@,
            facet_chars(r) == "categories:'"@ + value@ + "'"@,
    {
        SearchFacet::Category(value.to_owned())
    }

    /// A predicate on the `versions` facet field.
    pub fn version(value: &str) -> (r: Self)
        ensures
            r matches SearchFacet::Version(v) && v@ == value@,
            facet_chars(r) == "versions:'"@ + value@ + "'"@,
    {
        SearchFacet::Version(value.to_owned())
    }

    /// A predicate on the `license` facet field.
    pub fn license(value: &str) -> (r: Self)
        ensures
            r matches SearchFacet::License(v) && v@ == value@,
            facet_chars(r) == "license:'"@ + value@ + "'"@,
    {
        SearchFacet::License(value.to_owned())
    }

    /// A predicate on the `project_type` facet field.
    pub fn project_type(value: &str) -> (r: Self)
        ensures
            r matches SearchFacet::ProjectType(v) && v@ == value@,
            facet_chars(r) == "project_type:'"@ + value@ + "'"@,
    {
        SearchFacet::ProjectType(value.to_owned())
    }

    /// A predicate on an arbitrary facet field.
    pub fn custom(name: &str, value: &str) -> (r: Self)
        ensures
            r matches SearchFacet::Custom(n, v) && n@ == name@ && v@ == value@,
            facet_chars(r) == name@ + ":'"@ + value@ + "'"@,
    {
        SearchFacet::Custom(name.to_owned(), value.to_owned())
    }

    /// Renders this facet as `name:'value'`.
    pub fn render(&self) -> (r: String)
        ensures
            r@ == facet_chars(*self),
    {
        let mut s = String::new();
        match self {
            SearchFacet::Category(v) => {
                s.append("categories:'");
                s.append(v.as_str());
                s.append("'");
            },
            SearchFacet::Version(v) => {
                s.append("versions:'");
                s.append(v.as_str());
                s.append("'");
            },
            SearchFacet::License(v) => {
                s.append("license:'");
                s.append(v.as_str());
                s.append("'");
            },
            SearchFacet::ProjectType(v) => {
                s.append("project_type:'");
                s.append(v.as_str());
                s.append("'");
            },
            SearchFacet::Custom(n, v) => {
                s.append(n.as_str());
                s.append(":'");
                s.append(v.as_str());
                s.append("'");
            },
        }
        s
    }
}

/// The sort order a search may ask for.
#[derive(Clone, Copy, Debug, PartialEq, Eq, Hash)]
pub enum SearchIndex {
    Relevance,
    Downloads,
    Follows,
    Newest,
    Updated,
}

/// The wire name of a sort order.
pub open spec fn index_chars(ix: SearchIndex) -> Seq<char> {
    match ix {
        SearchIndex::Relevance => "relevance"@,
        SearchIndex::Downloads => "downloads"@,
        SearchIndex::Follows => "follows"@,
        SearchIndex::Newest => "newest"@,
        SearchIndex::Updated => "updated"@,
    }
}

impl SearchIndex {
    /// The wire name of this sort order.
    pub fn as_str(&self) -> (r: &'static str)
        ensures
            r@ == index_chars(*self),
    {
        match self {
            SearchIndex::Relevance => "relevance",
            SearchIndex::Downloads => "downloads",
            SearchIndex::Follows => "follows",
            SearchIndex::Newest => "newest",
            SearchIndex::Updated => "updated",
        }
    }
}

/// Parameters of one project search. Absent fields are left out of the query
/// string entirely; the server treats an absent and an explicit null
/// parameter differently.
#[derive(Clone, Debug, PartialEq, Eq, Hash)]
pub struct ProjectSearchParams {
    /// Free-text query.
    pub query: Option<String>,
    /// Facet groups: OR across groups, AND within one group.
    pub facets: Option<Vec<Vec<SearchFacet>>>,
    /// Sort order.
    pub index: Option<SearchIndex>,
    /// Zero-based index of the next item to fetch.
    pub offset: Option<usize>,
    /// Page size.
    pub limit: Option<usize>,
    /// Free-form filter expressions, combined like facets.
    pub filters: Option<Vec<Vec<String>>>,
}

impl ProjectSearchParams {
    /// Parameters with every field absent.
    pub fn new() -> (r: Self)
        ensures
            r.query is None,
            r.facets is None,
            r.index is None,
            r.offset is None,
            r.limit is None,
            r.filters is None,
    {
        ProjectSearchParams {
            query: None,
            facets: None,
            index: None,
            offset: None,
            limit: None,
            filters: None,
        }
    }
}

impl Default for ProjectSearchParams {
    /// Same as `new`: every field absent.
    fn default() -> (r: Self)
        ensures
            r.query is None,
            r.facets is None,
            r.index is None,
            r.offset is None,
            r.limit is None,
            r.filters is None,
    {
        ProjectSearchParams::new()
    }
}

/// The historical name of the same parameter set.
pub type SearchParams = ProjectSearchParams;

/// Either a numeric project identifier or its human-readable slug.
#[derive(Clone, Debug, PartialEq, Eq, Hash)]
pub enum ProjectIdentifier {
    Id(Base62),
    Slug(String),
}

/// How an identifier appears inside a request path: ids in base-62 form,
/// slugs verbatim.
pub open spec fn identifier_chars(ident: ProjectIdentifier) -> Seq<char> {
    match ident {
        ProjectIdentifier::Id(b) => spec_encode(b.0 as nat),
        ProjectIdentifier::Slug(s) => s@,
    }
}

impl ProjectIdentifier {
    /// Wraps a numeric identifier.
    pub fn id(other: Base62) -> (r: Self)
        ensures
            r == ProjectIdentifier::Id(other),
    {
        ProjectIdentifier::Id(other)
    }

    /// Wraps a slug.
    pub fn slug(other: &str) -> (r: Self)
        ensures
            r matches ProjectIdentifier::Slug(s) && s@ == other@,
    {
        ProjectIdentifier::Slug(other.to_owned())
    }

    /// Renders the path form of this identifier.
    pub fn render(&self) -> (r: String)
        ensures
            r@ == identifier_chars(*self),
    {
        match self {
            ProjectIdentifier::Id(b) => b.render(),
            ProjectIdentifier::Slug(s) => s.clone(),
        }
    }
}

/// The digests a version file may be looked up by. At least one variant must
/// be present for a hash lookup to be valid.
#[derive(Clone, Debug, PartialEq, Eq, Hash)]
pub struct FileHashes {
    pub sha512: Option<String>,
    pub sha1: Option<String>,
}

impl FileHashes {
    /// A lookup by SHA-512 digest alone.
    pub fn sha512(hash: &str) -> (r: Self)
        ensures
            r.sha512 matches Some(h) && h@ == hash@,
            r.sha1 is None,
    {
        FileHashes { sha512: Some(hash.to_owned()), sha1: None }
    }

    /// A lookup by SHA-1 digest alone.
    pub fn sha1(hash: &str) -> (r: Self)
        ensures
            r.sha512 is None,
            r.sha1 matches Some(h) && h@ == hash@,
    {
        FileHashes { sha512: None, sha1: Some(hash.to_owned()) }
    }
}

} // verus!
