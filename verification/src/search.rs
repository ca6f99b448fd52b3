use vstd::prelude::*;
use vstd::string::StrSliceExecFns;
use vstd::string::StringExecFns;

use crate::errors::SynrinthErr;
use crate::strutil::concat_strs;

verus! {

/// The searchable fields of the metadata service.
#[derive(Debug, Clone, Copy, PartialEq, Eq, Structural)]
pub enum FacetType {
    ProjectType,
    Categories,
    Versions,
    ClientSide,
    ServerSide,
    OpenSource,
    Title,
    Author,
    Follows,
    ProjectId,
    License,
    Downloads,
    Color,
    CreatedTimestamp,
    ModifiedTimestamp,
}

/// The comparison a facet filter applies.
#[derive(Debug, Clone, Copy, PartialEq, Eq, Structural)]
pub enum FacetOp {
    Eq,
    Neq,
    Gte,
    Gt,
    Lte,
    Lt,
}

impl FacetType {
    /// The field name the service expects in a facet expression.
    pub open spec fn spec_str(self) -> Seq<char> {
        match self {
            FacetType::ProjectType => "project_type"@,
            FacetType::Categories => "categories"@,
            FacetType::Versions => "versions"@,
            FacetType::ClientSide => "client_side"@,
            FacetType::ServerSide => "server_side"@,
            FacetType::OpenSource => "open_source"@,
            FacetType::Title => "title"@,
            FacetType::Author => "author"@,
            FacetType::Follows => "follows"@,
            FacetType::ProjectId => "project_id"@,
            FacetType::License => "license"@,
            FacetType::Downloads => "downloads"@,
            FacetType::Color => "color"@,
            FacetType::CreatedTimestamp => "created_timestamp"@,
            FacetType::ModifiedTimestamp => "modified_timestamp"@,
        }
    }

    /// The field name the service expects in a facet expression.
    pub fn as_str(self) -> (r: &'static str)
        ensures
            r@ == self.spec_str(),
    {
        match self {
            FacetType::ProjectType => "project_type",
            FacetType::Categories => "categories",
            FacetType::Versions => "versions",
            FacetType::ClientSide => "client_side",
            FacetType::ServerSide => "server_side",
            FacetType::OpenSource => "open_source",
            FacetType::Title => "title",
            FacetType::Author => "author",
            FacetType::Follows => "follows",
            FacetType::ProjectId => "project_id",
            FacetType::License => "license",
            FacetType::Downloads => "downloads",
            FacetType::Color => "color",
            FacetType::CreatedTimestamp => "created_timestamp",
            FacetType::ModifiedTimestamp => "modified_timestamp",
        }
    }
}

impl FacetOp {
    /// The comparison symbol the service expects; equality is the bare
    /// colon separator.
    pub open spec fn spec_symbol(self) -> Seq<char> {
        match self {
            FacetOp::Eq => ":"@,
            FacetOp::Neq => "!="@,
            FacetOp::Gte => ">="@,
            FacetOp::Gt => ">"@,
            FacetOp::Lte => "<="@,
            FacetOp::Lt => "<"@,
        }
    }

    /// The comparison symbol the service expects.
    pub fn symbol(self) -> (r: &'static str)
        ensures
            r@ == self.spec_symbol(),
    {
        match self {
            FacetOp::Eq => ":",
            FacetOp::Neq => "!=",
            FacetOp::Gte => ">=",
            FacetOp::Gt => ">",
            FacetOp::Lte => "<=",
            FacetOp::Lt => "<",
        }
    }
}

/// One facet filter: a field, a comparison and the value compared with.
#[derive(Debug, Clone)]
pub struct FacetFilter {
    pub facet: FacetType,
    pub op: FacetOp,
    pub value: String,
}

pub ghost struct FacetFilterView {
    pub facet: FacetType,
    pub op: FacetOp,
    pub value: Seq<char>,
}

impl View for FacetFilter {
    type V = FacetFilterView;

    open spec fn view(&self) -> FacetFilterView {
        FacetFilterView { facet: self.facet, op: self.op, value: self.value@ }
    }
}

impl DeepView for FacetFilter {
    type V = FacetFilterView;

    open spec fn deep_view(&self) -> FacetFilterView {
        self.view()
    }
}

/// The rendered form of one filter: field, symbol, value, concatenated.
pub open spec fn spec_facet_string(f: FacetFilterView) -> Seq<char> {
    f.facet.spec_str() + f.op.spec_symbol() + f.value
}

impl FacetFilter {
    /// Renders this filter the way the service parses it.
    pub fn to_query_string(&self) -> (r: String)
        ensures
            r@ == spec_facet_string(self@),
    {
        let mut s = String::from_str(self.facet.as_str());
        s.append(self.op.symbol());
        s.append(self.value.as_str());
        s
    }
}

/// Parameters of one search request.
#[derive(Debug, Clone)]
pub struct QueryParams {
    pub query: Option<String>,
    pub facets: Option<Vec<Vec<FacetFilter>>>,
}

pub open spec fn spec_group_strings(g: Seq<FacetFilterView>) -> Seq<Seq<char>> {
    g.map_values(|f: FacetFilterView| spec_facet_string(f))
}

/// The rendered facet groups, empty groups dropped, in order.
pub open spec fn spec_nonempty_group_strings(fs: Seq<Seq<FacetFilterView>>) -> Seq<Seq<Seq<char>>>
    decreases fs.len(),
{
    if fs.len() == 0 {
        Seq::empty()
    } else {
        let rest = spec_nonempty_group_strings(fs.drop_last());
        if fs.last().len() > 0 {
            rest.push(spec_group_strings(fs.last()))
        } else {
            rest
        }
    }
}

/// What serde_json::to_string yields on nested lists of strings; the text
/// is a function of the strings alone.
pub uninterp spec fn json_of_string_groups(gs: Seq<Seq<Seq<char>>>) -> Seq<char>;

/// Relies on serde_json::to_string over `Vec<Vec<String>>`: per its
/// documentation it can fail only on a failing `Serialize` impl or a map
/// with non-string keys, so on this shape it always succeeds, and its text
/// depends on the values alone.
#[verifier::external_body]
fn json_encode_groups(groups: &Vec<Vec<String>>) -> (r: String)
    ensures
        r@ == json_of_string_groups(groups.deep_view()),
{
    serde_json::to_string(groups).unwrap()
}

/// The facet expression for a facet list: each non-empty group rendered in
/// order and encoded as nested JSON lists; `None` when no group remains.
pub open spec fn spec_build_facets(fs: Seq<Seq<FacetFilterView>>) -> Option<Seq<char>> {
    if fs.len() == 0 || spec_nonempty_group_strings(fs).len() == 0 {
        None
    } else {
        Some(json_of_string_groups(spec_nonempty_group_strings(fs)))
    }
}

/// Renders a facet list to the `facets=` expression text, dropping empty
/// groups; `None` when nothing remains to filter by.
pub fn build_facets(facets: &Vec<Vec<FacetFilter>>) -> (r: Result<Option<String>, SynrinthErr>)
    ensures
        r is Ok,
        r matches Ok(o) ==> ((o matches Some(s) && spec_build_facets(facets.deep_view()) == Some(
            s@,
        )) || (o is None && spec_build_facets(facets.deep_view()) is None)),
{
    let n = facets.len();
    if n == 0 {
        return Ok(None);
    }
    let mut groups: Vec<Vec<String>> = Vec::new();
    let mut i: usize = 0;
    while i < n
        invariant
            i <= n,
            n == facets@.len(),
            groups.deep_view() == spec_nonempty_group_strings(
                facets.deep_view().subrange(0, i as int),
            ),
        decreases n - i,
    {
        let ghost fv = facets.deep_view();
        let group = &facets[i];
        let m = group.len();
        if m > 0 {
            let mut rendered: Vec<String> = Vec::new();
            let mut j: usize = 0;
            while j < m
                invariant
                    j <= m,
                    m == group@.len(),
                    rendered.deep_view() == spec_group_strings(
                        group.deep_view().subrange(0, j as int),
                    ),
                decreases m - j,
            {
                let ghost prev = rendered.deep_view();
                rendered.push(group[j].to_query_string());
                proof {
                    assert(rendered.deep_view() =~= prev.push(spec_facet_string(group@[j as int]@)));
                    assert(group.deep_view()[j as int] == group@[j as int].deep_view());
                    assert(spec_group_strings(group.deep_view().subrange(0, j + 1)) =~= prev.push(
                        spec_facet_string(group.deep_view()[j as int]),
                    ));
                }
                j = j + 1;
            }
            proof {
                assert(group.deep_view().subrange(0, m as int) =~= group.deep_view());
            }
            let ghost prevg = groups.deep_view();
            groups.push(rendered);
            proof {
                assert(groups.deep_view() =~= prevg.push(spec_group_strings(group.deep_view())));
            }
        }
        proof {
            assert(fv.subrange(0, i + 1).drop_last() =~= fv.subrange(0, i as int));
            assert(fv.subrange(0, i + 1).last() == fv[i as int]);
            assert(fv[i as int] == facets@[i as int].deep_view());
            if group@.len() == 0 {
                assert(fv[i as int].len() == 0);
            } else {
                assert(fv[i as int].len() > 0);
            }
        }
        i = i + 1;
    }
    proof {
        assert(facets.deep_view().subrange(0, n as int) =~= facets.deep_view());
    }
    if groups.len() == 0 {
        return Ok(None);
    }
    Ok(Some(json_encode_groups(&groups)))
}

/// The Unicode white-space code points, matching what the standard
/// library's trimming considers blank.
pub open spec fn is_space_char(c: char) -> bool {
    let u = c as u32;
    (0x9 <= u && u <= 0xD) || u == 0x20 || u == 0x85 || u == 0xA0 || u == 0x1680 || (0x2000 <= u
        && u <= 0x200A) || u == 0x2028 || u == 0x2029 || u == 0x202F || u == 0x205F || u == 0x3000
}

pub open spec fn all_space(s: Seq<char>) -> bool {
    forall|i: int| 0 <= i < s.len() ==> is_space_char(#[trigger] s[i])
}

fn is_space(c: char) -> (r: bool)
    ensures
        r == is_space_char(c),
{
    let u = c as u32;
    (0x9 <= u && u <= 0xD) || u == 0x20 || u == 0x85 || u == 0xA0 || u == 0x1680 || (0x2000 <= u
        && u <= 0x200A) || u == 0x2028 || u == 0x2029 || u == 0x202F || u == 0x205F || u == 0x3000
}

/// Whether a query string is blank: empty or white space throughout, in
/// which case the search URL omits it.
pub fn is_blank(s: &str) -> (r: bool)
    ensures
        r == all_space(s@),
{
    let n = s.unicode_len();
    for i in 0..n
        invariant
            n == s@.len(),
            forall|j: int| 0 <= j < i ==> is_space_char(#[trigger] s@[j]),
    {
        if !is_space(s.get_char(i)) {
            return false;
        }
    }
    true
}

/// The search endpoint URL for the given parameters: the fixed base, then
/// a `query=` part for a non-blank query and a `facets=` part for a
/// non-empty facet expression, joined with `&`.
pub open spec fn spec_search_url(q: Option<Seq<char>>, f: Option<Seq<Seq<FacetFilterView>>>) -> Seq<
    char,
> {
    let base = "https://api.modrinth.com/v2/search"@;
    let qpart: Option<Seq<char>> = match q {
        Some(qs) => if !all_space(qs) {
            Some("query="@ + qs)
        } else {
            None
        },
        None => None,
    };
    let fpart: Option<Seq<char>> = match f {
        Some(gs) => match spec_build_facets(gs) {
            Some(s) => Some("facets="@ + s),
            None => None,
        },
        None => None,
    };
    match (qpart, fpart) {
        (None, None) => base,
        (Some(a), None) => base + "?"@ + a,
        (None, Some(b)) => base + "?"@ + b,
        (Some(a), Some(b)) => base + "?"@ + a + "&"@ + b,
    }
}

pub open spec fn query_view(q: Option<String>) -> Option<Seq<char>> {
    match q {
        Some(s) => Some(s@),
        None => None,
    }
}

pub open spec fn facets_opt_view(f: Option<Vec<Vec<FacetFilter>>>) -> Option<
    Seq<Seq<FacetFilterView>>,
> {
    match f {
        Some(fs) => Some(fs.deep_view()),
        None => None,
    }
}

/// Builds the search request URL from the parameters; the request itself
/// is the caller's business.
pub fn build_search_url(params: &QueryParams) -> (r: Result<String, SynrinthErr>)
    ensures
        r is Ok,
        r matches Ok(s) ==> s@ == spec_search_url(
            query_view(params.query),
            facets_opt_view(params.facets),
        ),
{
    let qpart: Option<String> = match &params.query {
        Some(q) => {
            if !is_blank(q.as_str()) {
                Some(concat_strs("query=", q.as_str()))
            } else {
                None
            }
        },
        None => None,
    };
    let fpart: Option<String> = match &params.facets {
        Some(f) => {
            match build_facets(f) {
                Ok(Some(s)) => Some(concat_strs("facets=", s.as_str())),
                Ok(None) => None,
                Err(e) => {
                    return Err(e);
                },
            }
        },
        None => None,
    };
    let base = "https://api.modrinth.com/v2/search";
    match (qpart, fpart) {
        (None, None) => Ok(String::from_str(base)),
        (Some(a), None) => {
            let mut s = concat_strs(base, "?");
            s.append(a.as_str());
            Ok(s)
        },
        (None, Some(b)) => {
            let mut s = concat_strs(base, "?");
            s.append(b.as_str());
            Ok(s)
        },
        (Some(a), Some(b)) => {
            let mut s = concat_strs(base, "?");
            s.append(a.as_str());
            s.append("&");
            s.append(b.as_str());
            Ok(s)
        },
    }
}

/// The project endpoint URL for a slug.
pub fn project_url(slug: &str) -> (r: String)
    ensures
        r@ == "https://api.modrinth.com/v2/project/"@ + slug@,
{
    concat_strs("https://api.modrinth.com/v2/project/", slug)
}

/// The endpoint URL listing every version of a project.
pub fn project_versions_url(slug: &str) -> (r: String)
    ensures
        r@ == "https://api.modrinth.com/v2/project/"@ + slug@ + "/version"@,
{
    let mut s = concat_strs("https://api.modrinth.com/v2/project/", slug);
    s.append("/version");
    s
}

/// The endpoint URL of one project version.
pub fn project_version_url(slug: &str, version: &str) -> (r: String)
    ensures
        r@ == "https://api.modrinth.com/v2/project/"@ + slug@ + "/version/"@ + version@,
{
    let mut s = concat_strs("https://api.modrinth.com/v2/project/", slug);
    s.append("/version/");
    s.append(version);
    s
}

} // verus!
