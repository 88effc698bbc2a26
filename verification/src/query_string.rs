//! The query encoder: renders search parameters as a URL-encoded query
//! string with one `key=value` pair per present field, where each value is
//! the field's compact JSON rendering. Absent fields are omitted entirely,
//! because the server treats an explicit null differently from an absent
//! parameter.

use vstd::prelude::*;
use vstd::utf8::encode_utf8;

use crate::params::{facet_chars, index_chars, ProjectSearchParams, SearchFacet};
use crate::text::{chars_string, spec_decimal, decimal_string};

verus! {

/// Lower-case hexadecimal digit, as JSON `\u00..` escapes use.
pub open spec fn hex_lower(v: nat) -> char
    recommends
        v < 16,
{
    if v < 10 {
        ((48 + v) as u8) as char
    } else {
        ((87 + v) as u8) as char
    }
}

/// Upper-case hexadecimal digit, as percent-encoding uses.
pub open spec fn hex_upper(v: nat) -> char
    recommends
        v < 16,
{
    if v < 10 {
        ((48 + v) as u8) as char
    } else {
        ((55 + v) as u8) as char
    }
}

fn hex_lower_exec(v: u8) -> (c: char)
    requires
        v < 16,
    ensures
        c == hex_lower(v as nat),
{
    if v < 10 {
        (48 + v) as char
    } else {
        (87 + v) as char
    }
}

fn hex_upper_exec(v: u8) -> (c: char)
    requires
        v < 16,
    ensures
        c == hex_upper(v as nat),
{
    if v < 10 {
        (48 + v) as char
    } else {
        (55 + v) as char
    }
}

/// How one character appears inside a JSON string literal: quote and
/// backslash get a backslash escape, the named control characters get their
/// short escapes, other control characters get `\u00..`, and everything else
/// stands as itself.
pub open spec fn json_escape_char(c: char) -> Seq<char> {
    if c == '"' {
        seq!['\\', '"']
    } else if c == '\\' {
        seq!['\\', '\\']
    } else if c == '\u{8}' {
        seq!['\\', 'b']
    } else if c == '\u{c}' {
        seq!['\\', 'f']
    } else if c == '\n' {
        seq!['\\', 'n']
    } else if c == '\r' {
        seq!['\\', 'r']
    } else if c == '\t' {
        seq!['\\', 't']
    } else if (c as u32) < 32 {
        seq!['\\', 'u', '0', '0', hex_lower((c as u32 / 16) as nat), hex_lower(
            (c as u32 % 16) as nat,
        )]
    } else {
        seq![c]
    }
}

/// The body of a JSON string literal holding `s`.
pub open spec fn json_escape(s: Seq<char>) -> Seq<char>
    decreases s.len(),
{
    if s.len() == 0 {
        Seq::empty()
    } else {
        json_escape(s.drop_last()) + json_escape_char(s.last())
    }
}

/// The JSON string literal holding `s`, quotes included.
pub open spec fn json_string_chars(s: Seq<char>) -> Seq<char> {
    seq!['"'] + json_escape(s) + seq!['"']
}

proof fn lemma_json_escape_step(s: Seq<char>, i: int)
    requires
        0 <= i < s.len(),
    ensures
        json_escape(s.take(i + 1)) == json_escape(s.take(i)) + json_escape_char(s[i]),
{
    assert(s.take(i + 1).drop_last() =~= s.take(i));
    assert(s.take(i + 1).last() == s[i]);
}

fn json_escape_into(s: &str, out: &mut Vec<char>)
    ensures
        final(out)@ == old(out)@ + json_escape(s@),
{
    let len = s.unicode_len();
    let mut i: usize = 0;
    while i < len
        invariant
            i <= len,
            len == s@.len(),
            out@ == old(out)@ + json_escape(s@.take(i as int)),
        decreases len - i,
    {
        let c = s.get_char(i);
        proof {
            lemma_json_escape_step(s@, i as int);
        }
        if c == '"' {
            out.push('\\');
            out.push('"');
        } else if c == '\\' {
            out.push('\\');
            out.push('\\');
        } else if c == '\u{8}' {
            out.push('\\');
            out.push('b');
        } else if c == '\u{c}' {
            out.push('\\');
            out.push('f');
        } else if c == '\n' {
            out.push('\\');
            out.push('n');
        } else if c == '\r' {
            out.push('\\');
            out.push('r');
        } else if c == '\t' {
            out.push('\\');
            out.push('t');
        } else if (c as u32) < 32 {
            let u = c as u32;
            out.push('\\');
            out.push('u');
            out.push('0');
            out.push('0');
            out.push(hex_lower_exec((u / 16) as u8));
            out.push(hex_lower_exec((u % 16) as u8));
        } else {
            out.push(c);
        }
        proof {
            assert(out@ =~= old(out)@ + json_escape(s@.take(i + 1)));
        }
        i += 1;
    }
    proof {
        assert(s@.take(len as int) =~= s@);
    }
}

/// Renders `s` as a JSON string literal.
pub fn json_string_of(s: &str) -> (r: String)
    ensures
        r@ == json_string_chars(s@),
{
    let mut v: Vec<char> = Vec::new();
    v.push('"');
    json_escape_into(s, &mut v);
    v.push('"');
    proof {
        assert(v@ =~= json_string_chars(s@));
    }
    chars_string(v)
}

/// Bytes that stand for themselves in `application/x-www-form-urlencoded`
/// output: ASCII letters and digits, `*`, `-`, `.` and `_`.
pub open spec fn is_form_safe(b: u8) -> bool {
    (48 <= b && b <= 57) || (65 <= b && b <= 90) || (97 <= b && b <= 122) || b == 42 || b == 45
        || b == 46 || b == 95
}

/// How one byte appears in form-urlencoded output: space becomes `+`, safe
/// bytes stand as themselves, and every other byte becomes `%` with two
/// upper-case hexadecimal digits.
pub open spec fn urlencode_byte(b: u8) -> Seq<char> {
    if b == 32 {
        seq!['+']
    } else if is_form_safe(b) {
        seq![b as char]
    } else {
        seq!['%', hex_upper(b as nat / 16), hex_upper(b as nat % 16)]
    }
}

/// Form-urlencoding of a byte sequence.
pub open spec fn urlencode_bytes(bs: Seq<u8>) -> Seq<char>
    decreases bs.len(),
{
    if bs.len() == 0 {
        Seq::empty()
    } else {
        urlencode_bytes(bs.drop_last()) + urlencode_byte(bs.last())
    }
}

/// Form-urlencoding of a character sequence: its UTF-8 bytes, byte by byte.
pub open spec fn urlencoded(s: Seq<char>) -> Seq<char> {
    urlencode_bytes(encode_utf8(s))
}

proof fn lemma_urlencode_step(bs: Seq<u8>, i: int)
    requires
        0 <= i < bs.len(),
    ensures
        urlencode_bytes(bs.take(i + 1)) == urlencode_bytes(bs.take(i)) + urlencode_byte(bs[i]),
{
    assert(bs.take(i + 1).drop_last() =~= bs.take(i));
    assert(bs.take(i + 1).last() == bs[i]);
}

pub(crate) fn urlencode_into(s: &str, out: &mut Vec<char>)
    ensures
        final(out)@ == old(out)@ + urlencoded(s@),
{
    let bytes = s.as_bytes_vec();
    let len = bytes.len();
    let mut i: usize = 0;
    while i < len
        invariant
            i <= len,
            len == bytes@.len(),
            bytes@ == encode_utf8(s@),
            out@ == old(out)@ + urlencode_bytes(bytes@.take(i as int)),
        decreases len - i,
    {
        let b = bytes[i];
        proof {
            lemma_urlencode_step(bytes@, i as int);
        }
        if b == 32 {
            out.push('+');
        } else if (48 <= b && b <= 57) || (65 <= b && b <= 90) || (97 <= b && b <= 122) || b == 42
            || b == 45 || b == 46 || b == 95 {
            out.push(b as char);
        } else {
            out.push('%');
            out.push(hex_upper_exec(b / 16));
            out.push(hex_upper_exec(b % 16));
        }
        proof {
            assert(out@ =~= old(out)@ + urlencode_bytes(bytes@.take(i + 1)));
        }
        i += 1;
    }
    proof {
        assert(bytes@.take(len as int) =~= bytes@);
    }
}

pub(crate) fn push_str_chars(out: &mut Vec<char>, s: &str)
    ensures
        final(out)@ == old(out)@ + s@,
{
    let len = s.unicode_len();
    let mut i: usize = 0;
    while i < len
        invariant
            i <= len,
            len == s@.len(),
            out@ == old(out)@ + s@.take(i as int),
        decreases len - i,
    {
        out.push(s.get_char(i));
        proof {
            assert(out@ =~= old(out)@ + s@.take(i + 1));
        }
        i += 1;
    }
    proof {
        assert(s@.take(len as int) =~= s@);
    }
}

/// One facet inside the facet array: the JSON string literal of its
/// `name:'value'` rendering.
pub open spec fn facet_item_chars(f: SearchFacet) -> Seq<char> {
    json_string_chars(facet_chars(f))
}

/// The comma-separated items of one facet group.
pub open spec fn facet_group_items(g: Seq<SearchFacet>) -> Seq<char>
    decreases g.len(),
{
    if g.len() == 0 {
        Seq::empty()
    } else if g.len() == 1 {
        facet_item_chars(g[0])
    } else {
        facet_group_items(g.drop_last()) + seq![','] + facet_item_chars(g.last())
    }
}

/// One facet group as a JSON array of facet strings.
pub open spec fn facet_group_chars(g: Seq<SearchFacet>) -> Seq<char> {
    seq!['['] + facet_group_items(g) + seq![']']
}

/// The comma-separated groups of the facet array.
pub open spec fn facet_groups_items(gs: Seq<Vec<SearchFacet>>) -> Seq<char>
    decreases gs.len(),
{
    if gs.len() == 0 {
        Seq::empty()
    } else if gs.len() == 1 {
        facet_group_chars(gs[0]@)
    } else {
        facet_groups_items(gs.drop_last()) + seq![','] + facet_group_chars(gs.last()@)
    }
}

/// The whole facet filter as a JSON array of arrays of facet strings.
pub open spec fn facets_json(gs: Seq<Vec<SearchFacet>>) -> Seq<char> {
    seq!['['] + facet_groups_items(gs) + seq![']']
}

/// The comma-separated items of one filter group.
pub open spec fn filter_group_items(g: Seq<String>) -> Seq<char>
    decreases g.len(),
{
    if g.len() == 0 {
        Seq::empty()
    } else if g.len() == 1 {
        json_string_chars(g[0]@)
    } else {
        filter_group_items(g.drop_last()) + seq![','] + json_string_chars(g.last()@)
    }
}

/// One filter group as a JSON array of strings.
pub open spec fn filter_group_chars(g: Seq<String>) -> Seq<char> {
    seq!['['] + filter_group_items(g) + seq![']']
}

/// The comma-separated groups of the filter array.
pub open spec fn filter_groups_items(gs: Seq<Vec<String>>) -> Seq<char>
    decreases gs.len(),
{
    if gs.len() == 0 {
        Seq::empty()
    } else if gs.len() == 1 {
        filter_group_chars(gs[0]@)
    } else {
        filter_groups_items(gs.drop_last()) + seq![','] + filter_group_chars(gs.last()@)
    }
}

/// The whole filter list as a JSON array of arrays of strings.
pub open spec fn filters_json(gs: Seq<Vec<String>>) -> Seq<char> {
    seq!['['] + filter_groups_items(gs) + seq![']']
}

proof fn lemma_facet_group_items_step(g: Seq<SearchFacet>, j: int)
    requires
        0 <= j < g.len(),
    ensures
        facet_group_items(g.take(j + 1)) == if j == 0 {
            facet_item_chars(g[0])
        } else {
            facet_group_items(g.take(j)) + seq![','] + facet_item_chars(g[j])
        },
{
    assert(g.take(j + 1).drop_last() =~= g.take(j));
    assert(g.take(j + 1).last() == g[j]);
    assert(g.take(j + 1)[0] == g[0]);
}

proof fn lemma_facet_groups_items_step(gs: Seq<Vec<SearchFacet>>, j: int)
    requires
        0 <= j < gs.len(),
    ensures
        facet_groups_items(gs.take(j + 1)) == if j == 0 {
            facet_group_chars(gs[0]@)
        } else {
            facet_groups_items(gs.take(j)) + seq![','] + facet_group_chars(gs[j]@)
        },
{
    assert(gs.take(j + 1).drop_last() =~= gs.take(j));
    assert(gs.take(j + 1).last() == gs[j]);
    assert(gs.take(j + 1)[0] == gs[0]);
}

proof fn lemma_filter_group_items_step(g: Seq<String>, j: int)
    requires
        0 <= j < g.len(),
    ensures
        filter_group_items(g.take(j + 1)) == if j == 0 {
            json_string_chars(g[0]@)
        } else {
            filter_group_items(g.take(j)) + seq![','] + json_string_chars(g[j]@)
        },
{
    assert(g.take(j + 1).drop_last() =~= g.take(j));
    assert(g.take(j + 1).last() == g[j]);
    assert(g.take(j + 1)[0] == g[0]);
}

proof fn lemma_filter_groups_items_step(gs: Seq<Vec<String>>, j: int)
    requires
        0 <= j < gs.len(),
    ensures
        filter_groups_items(gs.take(j + 1)) == if j == 0 {
            filter_group_chars(gs[0]@)
        } else {
            filter_groups_items(gs.take(j)) + seq![','] + filter_group_chars(gs[j]@)
        },
{
    assert(gs.take(j + 1).drop_last() =~= gs.take(j));
    assert(gs.take(j + 1).last() == gs[j]);
    assert(gs.take(j + 1)[0] == gs[0]);
}

/// Renders the facet filter as compact JSON text.
pub fn facets_json_string(gs: &Vec<Vec<SearchFacet>>) -> (r: String)
    ensures
        r@ == facets_json(gs@),
{
    let mut v: Vec<char> = Vec::new();
    v.push('[');
    let glen = gs.len();
    let mut i: usize = 0;
    while i < glen
        invariant
            i <= glen,
            glen == gs@.len(),
            v@ == seq!['['] + facet_groups_items(gs@.take(i as int)),
        decreases glen - i,
    {
        proof {
            lemma_facet_groups_items_step(gs@, i as int);
        }
        if i > 0 {
            v.push(',');
        }
        v.push('[');
        let ghost v_before_items = v@;
        let g = &gs[i];
        let ilen = g.len();
        let mut j: usize = 0;
        while j < ilen
            invariant
                j <= ilen,
                ilen == g@.len(),
                v@ == v_before_items + facet_group_items(g@.take(j as int)),
            decreases ilen - j,
        {
            proof {
                lemma_facet_group_items_step(g@, j as int);
            }
            if j > 0 {
                v.push(',');
            }
            let fs = g[j].render();
            let js = json_string_of(fs.as_str());
            push_str_chars(&mut v, js.as_str());
            proof {
                assert(v@ =~= v_before_items + facet_group_items(g@.take(j + 1)));
            }
            j += 1;
        }
        v.push(']');
        proof {
            assert(g@.take(ilen as int) =~= g@);
            assert(v@ =~= seq!['['] + facet_groups_items(gs@.take(i + 1)));
        }
        i += 1;
    }
    v.push(']');
    proof {
        assert(gs@.take(glen as int) =~= gs@);
        assert(v@ =~= facets_json(gs@));
    }
    chars_string(v)
}

/// Renders the filter list as compact JSON text.
pub fn filters_json_string(gs: &Vec<Vec<String>>) -> (r: String)
    ensures
        r@ == filters_json(gs@),
{
    let mut v: Vec<char> = Vec::new();
    v.push('[');
    let glen = gs.len();
    let mut i: usize = 0;
    while i < glen
        invariant
            i <= glen,
            glen == gs@.len(),
            v@ == seq!['['] + filter_groups_items(gs@.take(i as int)),
        decreases glen - i,
    {
        proof {
            lemma_filter_groups_items_step(gs@, i as int);
        }
        if i > 0 {
            v.push(',');
        }
        v.push('[');
        let ghost v_before_items = v@;
        let g = &gs[i];
        let ilen = g.len();
        let mut j: usize = 0;
        while j < ilen
            invariant
                j <= ilen,
                ilen == g@.len(),
                v@ == v_before_items + filter_group_items(g@.take(j as int)),
            decreases ilen - j,
        {
            proof {
                lemma_filter_group_items_step(g@, j as int);
            }
            if j > 0 {
                v.push(',');
            }
            let js = json_string_of(g[j].as_str());
            push_str_chars(&mut v, js.as_str());
            proof {
                assert(v@ =~= v_before_items + filter_group_items(g@.take(j + 1)));
            }
            j += 1;
        }
        v.push(']');
        proof {
            assert(g@.take(ilen as int) =~= g@);
            assert(v@ =~= seq!['['] + filter_groups_items(gs@.take(i + 1)));
        }
        i += 1;
    }
    v.push(']');
    proof {
        assert(gs@.take(glen as int) =~= gs@);
        assert(v@ =~= filters_json(gs@));
    }
    chars_string(v)
}

/// The `query` pair: key, `=`, and the url-encoded JSON string literal.
pub open spec fn pair_query(q: Seq<char>) -> Seq<char> {
    "query"@ + seq!['='] + urlencoded(json_string_chars(q))
}

/// The `facets` pair.
pub open spec fn pair_facets(gs: Seq<Vec<SearchFacet>>) -> Seq<char> {
    "facets"@ + seq!['='] + urlencoded(facets_json(gs))
}

/// The `index` pair.
pub open spec fn pair_index(ix: crate::params::SearchIndex) -> Seq<char> {
    "index"@ + seq!['='] + urlencoded(json_string_chars(index_chars(ix)))
}

/// The `offset` pair; numbers render as bare decimal digits.
pub open spec fn pair_offset(n: nat) -> Seq<char> {
    "offset"@ + seq!['='] + urlencoded(spec_decimal(n))
}

/// The `limit` pair.
pub open spec fn pair_limit(n: nat) -> Seq<char> {
    "limit"@ + seq!['='] + urlencoded(spec_decimal(n))
}

/// The `filters` pair.
pub open spec fn pair_filters(gs: Seq<Vec<String>>) -> Seq<char> {
    "filters"@ + seq!['='] + urlencoded(filters_json(gs))
}

/// The pairs of the present fields, in declaration order. Absent fields
/// contribute no pair at all.
pub open spec fn present_pairs(p: ProjectSearchParams) -> Seq<Seq<char>> {
    (match p.query {
        Some(q) => seq![pair_query(q@)],
        None => Seq::empty(),
    }) + (match p.facets {
        Some(gs) => seq![pair_facets(gs@)],
        None => Seq::empty(),
    }) + (match p.index {
        Some(ix) => seq![pair_index(ix)],
        None => Seq::empty(),
    }) + (match p.offset {
        Some(n) => seq![pair_offset(n as nat)],
        None => Seq::empty(),
    }) + (match p.limit {
        Some(n) => seq![pair_limit(n as nat)],
        None => Seq::empty(),
    }) + (match p.filters {
        Some(gs) => seq![pair_filters(gs@)],
        None => Seq::empty(),
    })
}

/// Pairs joined with `&`.
pub open spec fn join_amp(xs: Seq<Seq<char>>) -> Seq<char>
    decreases xs.len(),
{
    if xs.len() == 0 {
        Seq::empty()
    } else if xs.len() == 1 {
        xs[0]
    } else {
        join_amp(xs.drop_last()) + seq!['&'] + xs.last()
    }
}

/// The full query string of a parameter set.
pub open spec fn query_string_chars(p: ProjectSearchParams) -> Seq<char> {
    join_amp(present_pairs(p))
}

proof fn lemma_join_amp_push(xs: Seq<Seq<char>>, x: Seq<char>)
    ensures
        join_amp(xs.push(x)) == if xs.len() == 0 {
            x
        } else {
            join_amp(xs) + seq!['&'] + x
        },
{
    assert(xs.push(x).drop_last() =~= xs);
    assert(xs.push(x).last() == x);
    assert(xs.push(x)[0] == if xs.len() == 0 { x } else { xs[0] });
}

/// Law: a parameter set with every field absent renders as the empty query
/// string; absent fields contribute nothing.
pub proof fn lemma_all_absent_renders_empty(p: ProjectSearchParams)
    requires
        p.query is None,
        p.facets is None,
        p.index is None,
        p.offset is None,
        p.limit is None,
        p.filters is None,
    ensures
        query_string_chars(p) == Seq::<char>::empty(),
{
    assert(present_pairs(p) =~= Seq::<Seq<char>>::empty());
}

/// Law: the query string holds exactly one pair per present field.
pub proof fn lemma_one_pair_per_present_field(p: ProjectSearchParams)
    ensures
        present_pairs(p).len() == (if p.query is Some { 1int } else { 0 }) + (if p.facets is Some {
            1int
        } else {
            0
        }) + (if p.index is Some { 1int } else { 0 }) + (if p.offset is Some { 1int } else { 0 })
            + (if p.limit is Some { 1int } else { 0 }) + (if p.filters is Some {
            1int
        } else {
            0
        }),
{
}

pub(crate) fn make_pair(key: &str, val: &str) -> (r: String)
    ensures
        r@ == key@ + seq!['='] + urlencoded(val@),
{
    let mut v: Vec<char> = Vec::new();
    push_str_chars(&mut v, key);
    v.push('=');
    urlencode_into(val, &mut v);
    proof {
        assert(v@ =~= key@ + seq!['='] + urlencoded(val@));
    }
    chars_string(v)
}

fn query_pair(q: &String) -> (r: String)
    ensures
        r@ == pair_query(q@),
{
    let jv = json_string_of(q.as_str());
    make_pair("query", jv.as_str())
}

fn facets_pair(gs: &Vec<Vec<SearchFacet>>) -> (r: String)
    ensures
        r@ == pair_facets(gs@),
{
    let jv = facets_json_string(gs);
    make_pair("facets", jv.as_str())
}

fn index_pair(ix: &crate::params::SearchIndex) -> (r: String)
    ensures
        r@ == pair_index(*ix),
{
    let jv = json_string_of(ix.as_str());
    make_pair("index", jv.as_str())
}

fn offset_pair(n: usize) -> (r: String)
    ensures
        r@ == pair_offset(n as nat),
{
    let jv = decimal_string(n as u64);
    make_pair("offset", jv.as_str())
}

fn limit_pair(n: usize) -> (r: String)
    ensures
        r@ == pair_limit(n as nat),
{
    let jv = decimal_string(n as u64);
    make_pair("limit", jv.as_str())
}

fn filters_pair(gs: &Vec<Vec<String>>) -> (r: String)
    ensures
        r@ == pair_filters(gs@),
{
    let jv = filters_json_string(gs);
    make_pair("filters", jv.as_str())
}

fn append_one(out: &mut Vec<char>, Ghost(parts): Ghost<Seq<Seq<char>>>, any: bool, pair: &String)
    -> (r: Ghost<Seq<Seq<char>>>)
    requires
        any <==> parts.len() > 0,
        old(out)@ == join_amp(parts),
    ensures
        r@ == parts.push(pair@),
        final(out)@ == join_amp(r@),
{
    proof {
        lemma_join_amp_push(parts, pair@);
    }
    if any {
        out.push('&');
    }
    push_str_chars(out, pair.as_str());
    proof {
        assert(out@ =~= join_amp(parts.push(pair@)));
    }
    Ghost(parts.push(pair@))
}

impl ProjectSearchParams {
    /// Renders these parameters as a URL-encoded query string, one
    /// `key=value` pair per present field, each value its compact JSON
    /// rendering, and absent fields omitted.
    pub fn to_query_string(&self) -> (r: String)
        ensures
            r@ == query_string_chars(*self),
    {
        let mut out: Vec<char> = Vec::new();
        let ghost mut parts: Seq<Seq<char>> = Seq::empty();
        let mut any: bool = false;
        if let Some(q) = &self.query {
            let pair = query_pair(q);
            let g = append_one(&mut out, Ghost(parts), any, &pair);
            proof {
                parts = g@;
            }
            any = true;
        }
        if let Some(gs) = &self.facets {
            let pair = facets_pair(gs);
            let g = append_one(&mut out, Ghost(parts), any, &pair);
            proof {
                parts = g@;
            }
            any = true;
        }
        if let Some(ix) = &self.index {
            let pair = index_pair(ix);
            let g = append_one(&mut out, Ghost(parts), any, &pair);
            proof {
                parts = g@;
            }
            any = true;
        }
        if let Some(n) = &self.offset {
            let pair = offset_pair(*n);
            let g = append_one(&mut out, Ghost(parts), any, &pair);
            proof {
                parts = g@;
            }
            any = true;
        }
        if let Some(n) = &self.limit {
            let pair = limit_pair(*n);
            let g = append_one(&mut out, Ghost(parts), any, &pair);
            proof {
                parts = g@;
            }
            any = true;
        }
        if let Some(gs) = &self.filters {
            let pair = filters_pair(gs);
            let g = append_one(&mut out, Ghost(parts), any, &pair);
            proof {
                parts = g@;
            }
            any = true;
        }
        proof {
            assert(parts =~= present_pairs(*self));
        }
        chars_string(out)
    }
}


} // verus!
