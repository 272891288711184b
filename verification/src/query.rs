//! The query a market listing is asked with: which parameters are present,
//! how they are written into a URL, and the key under which the answer is cached.

use vstd::prelude::*;
use vstd::string::*;
use crate::json::{json_quoted, quote};
use crate::text::{bool_text, bool_to_text, decimal, decimal_digits, plain_text, text_eq};

verus! {

/// The parameters of a market listing. An absent parameter is left out of
/// the request; amounts are given as their decimal text.
#[derive(Debug, Clone)]
pub struct MarketsQueryParams {
    pub limit: Option<u32>,
    pub offset: Option<u32>,
    pub order: Option<String>,
    pub ascending: Option<bool>,
    pub active: Option<bool>,
    pub closed: Option<bool>,
    pub archived: Option<bool>,
    pub liquidity_num_min: Option<String>,
    pub liquidity_num_max: Option<String>,
    pub volume_num_min: Option<String>,
    pub volume_num_max: Option<String>,
    pub start_date_min: Option<String>,
    pub start_date_max: Option<String>,
    pub end_date_min: Option<String>,
    pub end_date_max: Option<String>,
    pub tag_id: Option<String>,
    pub related_tags: Option<bool>,
}

/// What a query says: its parameters, with texts as character sequences.
pub struct QueryView {
    pub limit: Option<u32>,
    pub offset: Option<u32>,
    pub order: Option<Seq<char>>,
    pub ascending: Option<bool>,
    pub active: Option<bool>,
    pub closed: Option<bool>,
    pub archived: Option<bool>,
    pub liquidity_num_min: Option<Seq<char>>,
    pub liquidity_num_max: Option<Seq<char>>,
    pub volume_num_min: Option<Seq<char>>,
    pub volume_num_max: Option<Seq<char>>,
    pub start_date_min: Option<Seq<char>>,
    pub start_date_max: Option<Seq<char>>,
    pub end_date_min: Option<Seq<char>>,
    pub end_date_max: Option<Seq<char>>,
    pub tag_id: Option<Seq<char>>,
    pub related_tags: Option<bool>,
}

impl View for MarketsQueryParams {
    type V = QueryView;

    open spec fn view(&self) -> QueryView {
        QueryView {
            limit: self.limit,
            offset: self.offset,
            order: plain_text(self.order),
            ascending: self.ascending,
            active: self.active,
            closed: self.closed,
            archived: self.archived,
            liquidity_num_min: plain_text(self.liquidity_num_min),
            liquidity_num_max: plain_text(self.liquidity_num_max),
            volume_num_min: plain_text(self.volume_num_min),
            volume_num_max: plain_text(self.volume_num_max),
            start_date_min: plain_text(self.start_date_min),
            start_date_max: plain_text(self.start_date_max),
            end_date_min: plain_text(self.end_date_min),
            end_date_max: plain_text(self.end_date_max),
            tag_id: plain_text(self.tag_id),
            related_tags: self.related_tags,
        }
    }
}

/// The query that is asked where none is given: the first twenty active,
/// unarchived markets, the most liquid first.
pub open spec fn default_query() -> QueryView {
    QueryView {
        limit: Some(20u32),
        offset: Some(0u32),
        order: Some("liquidity"@),
        ascending: Some(false),
        active: Some(true),
        closed: None,
        archived: Some(false),
        liquidity_num_min: None,
        liquidity_num_max: None,
        volume_num_min: None,
        volume_num_max: None,
        start_date_min: None,
        start_date_max: None,
        end_date_min: None,
        end_date_max: None,
        tag_id: None,
        related_tags: None,
    }
}

/// The JSON string literal of an optional text.
pub open spec fn quoted(v: Option<Seq<char>>) -> Option<Seq<char>> {
    match v {
        Some(s) => Some(json_quoted(s)),
        None => None,
    }
}

/// The text of an optional count.
pub open spec fn count_text(v: Option<u32>) -> Option<Seq<char>> {
    match v {
        Some(n) => Some(decimal_digits(n as nat)),
        None => None,
    }
}

/// The text of an optional flag.
pub open spec fn flag_text(v: Option<bool>) -> Option<Seq<char>> {
    match v {
        Some(b) => Some(bool_text(b)),
        None => None,
    }
}

/// `acc` with `name=value` added where the value is present: behind `?` as
/// the first parameter, behind `&` after another one.
pub open spec fn with_pair(acc: Seq<char>, name: Seq<char>, value: Option<Seq<char>>) -> Seq<char> {
    match value {
        Some(v) => acc + (if acc.len() == 0 {
            "?"@
        } else {
            "&"@
        }) + name + "="@ + v,
        None => acc,
    }
}

/// `acc` with the member `"name":value` added, `null` standing for an absent
/// value; members after the first follow a comma.
pub open spec fn with_member(acc: Seq<char>, name: Seq<char>, value: Option<Seq<char>>) -> Seq<char> {
    acc + (if acc.len() == 0 {
        "{"@
    } else {
        ","@
    }) + "\""@ + name + "\":"@ + (match value {
        Some(v) => v,
        None => "null"@,
    })
}

fn count_string(v: Option<u32>) -> (r: Option<String>)
    ensures
        plain_text(r) == count_text(v),
{
    match v {
        Some(n) => Some(decimal(n as u64)),
        None => None,
    }
}

fn flag_string(v: Option<bool>) -> (r: Option<String>)
    ensures
        plain_text(r) == flag_text(v),
{
    match v {
        Some(b) => Some(String::from_str(bool_to_text(b))),
        None => None,
    }
}

fn quoted_string(v: &Option<String>) -> (r: Option<String>)
    ensures
        plain_text(r) == quoted(plain_text(*v)),
{
    match v {
        Some(s) => Some(quote(s.as_str())),
        None => None,
    }
}

fn push_pair(acc: &mut String, name: &str, value: &Option<String>)
    ensures
        final(acc)@ == with_pair(old(acc)@, name@, plain_text(*value)),
{
    if let Some(v) = value {
        if acc.as_str().is_empty() {
            acc.append("?");
        } else {
            acc.append("&");
        }
        acc.append(name);
        acc.append("=");
        acc.append(v.as_str());
    }
}

fn push_member(acc: &mut String, name: &str, value: &Option<String>)
    ensures
        final(acc)@ == with_member(old(acc)@, name@, plain_text(*value)),
{
    if acc.as_str().is_empty() {
        acc.append("{");
    } else {
        acc.append(",");
    }
    acc.append("\"");
    acc.append(name);
    acc.append("\":");
    match value {
        Some(v) => acc.append(v.as_str()),
        None => acc.append("null"),
    }
}

impl Default for MarketsQueryParams {
    /// The first twenty active, unarchived markets, the most liquid first.
    fn default() -> (p: MarketsQueryParams)
        ensures
            p@ == default_query(),
    {
        MarketsQueryParams {
            limit: Some(20),
            offset: Some(0),
            order: Some(String::from_str("liquidity")),
            ascending: Some(false),
            active: Some(true),
            closed: None,
            archived: Some(false),
            liquidity_num_min: None,
            liquidity_num_max: None,
            volume_num_min: None,
            volume_num_max: None,
            start_date_min: None,
            start_date_max: None,
            end_date_min: None,
            end_date_max: None,
            tag_id: None,
            related_tags: None,
        }
    }
}

/// The query part of the URL: empty where no parameter is present, else `?`
/// and the present parameters as `name=value`, joined by `&`, in the order
/// of the fields.
pub open spec fn query_text(v: QueryView) -> Seq<char> {
    let q = Seq::<char>::empty();
    let q = with_pair(q, "limit"@, count_text(v.limit));
    let q = with_pair(q, "offset"@, count_text(v.offset));
    let q = with_pair(q, "order"@, v.order);
    let q = with_pair(q, "ascending"@, flag_text(v.ascending));
    let q = with_pair(q, "active"@, flag_text(v.active));
    let q = with_pair(q, "closed"@, flag_text(v.closed));
    let q = with_pair(q, "archived"@, flag_text(v.archived));
    let q = with_pair(q, "liquidity_num_min"@, v.liquidity_num_min);
    let q = with_pair(q, "liquidity_num_max"@, v.liquidity_num_max);
    let q = with_pair(q, "volume_num_min"@, v.volume_num_min);
    let q = with_pair(q, "volume_num_max"@, v.volume_num_max);
    let q = with_pair(q, "start_date_min"@, v.start_date_min);
    let q = with_pair(q, "start_date_max"@, v.start_date_max);
    let q = with_pair(q, "end_date_min"@, v.end_date_min);
    let q = with_pair(q, "end_date_max"@, v.end_date_max);
    let q = with_pair(q, "tag_id"@, v.tag_id);
    let q = with_pair(q, "related_tags"@, flag_text(v.related_tags));
    q
}

/// The canonical text of a query: a JSON object with one member for each
/// field, in the order of the fields, `null` for an absent one.
#[verifier::opaque]
pub open spec fn canonical_text(v: QueryView) -> Seq<char> {
    let c = Seq::<char>::empty();
    let c = with_member(c, "limit"@, count_text(v.limit));
    let c = with_member(c, "offset"@, count_text(v.offset));
    let c = with_member(c, "order"@, quoted(v.order));
    let c = with_member(c, "ascending"@, flag_text(v.ascending));
    let c = with_member(c, "active"@, flag_text(v.active));
    let c = with_member(c, "closed"@, flag_text(v.closed));
    let c = with_member(c, "archived"@, flag_text(v.archived));
    let c = with_member(c, "liquidity_num_min"@, quoted(v.liquidity_num_min));
    let c = with_member(c, "liquidity_num_max"@, quoted(v.liquidity_num_max));
    let c = with_member(c, "volume_num_min"@, quoted(v.volume_num_min));
    let c = with_member(c, "volume_num_max"@, quoted(v.volume_num_max));
    let c = with_member(c, "start_date_min"@, quoted(v.start_date_min));
    let c = with_member(c, "start_date_max"@, quoted(v.start_date_max));
    let c = with_member(c, "end_date_min"@, quoted(v.end_date_min));
    let c = with_member(c, "end_date_max"@, quoted(v.end_date_max));
    let c = with_member(c, "tag_id"@, quoted(v.tag_id));
    let c = with_member(c, "related_tags"@, flag_text(v.related_tags));
    c + "}"@
}

/// The key under which the answer to a query is cached.
pub open spec fn cache_key_text(v: QueryView) -> Seq<char> {
    "markets_"@ + canonical_text(v)
}

impl MarketsQueryParams {
    /// Writes the query part of the URL.
    pub fn to_query_string(&self) -> (r: String)
        ensures
            r@ == query_text(self@),
    {
        let mut q = String::new();
        push_pair(&mut q, "limit", &count_string(self.limit));
        push_pair(&mut q, "offset", &count_string(self.offset));
        push_pair(&mut q, "order", &self.order);
        push_pair(&mut q, "ascending", &flag_string(self.ascending));
        push_pair(&mut q, "active", &flag_string(self.active));
        push_pair(&mut q, "closed", &flag_string(self.closed));
        push_pair(&mut q, "archived", &flag_string(self.archived));
        push_pair(&mut q, "liquidity_num_min", &self.liquidity_num_min);
        push_pair(&mut q, "liquidity_num_max", &self.liquidity_num_max);
        push_pair(&mut q, "volume_num_min", &self.volume_num_min);
        push_pair(&mut q, "volume_num_max", &self.volume_num_max);
        push_pair(&mut q, "start_date_min", &self.start_date_min);
        push_pair(&mut q, "start_date_max", &self.start_date_max);
        push_pair(&mut q, "end_date_min", &self.end_date_min);
        push_pair(&mut q, "end_date_max", &self.end_date_max);
        push_pair(&mut q, "tag_id", &self.tag_id);
        push_pair(&mut q, "related_tags", &flag_string(self.related_tags));
        q
    }

    /// Writes the canonical text of the parameters.
    pub fn to_canonical_string(&self) -> (r: String)
        ensures
            r@ == canonical_text(self@),
    {
        reveal(canonical_text);
        let mut c = String::new();
        push_member(&mut c, "limit", &count_string(self.limit));
        push_member(&mut c, "offset", &count_string(self.offset));
        push_member(&mut c, "order", &quoted_string(&self.order));
        push_member(&mut c, "ascending", &flag_string(self.ascending));
        push_member(&mut c, "active", &flag_string(self.active));
        push_member(&mut c, "closed", &flag_string(self.closed));
        push_member(&mut c, "archived", &flag_string(self.archived));
        push_member(&mut c, "liquidity_num_min", &quoted_string(&self.liquidity_num_min));
        push_member(&mut c, "liquidity_num_max", &quoted_string(&self.liquidity_num_max));
        push_member(&mut c, "volume_num_min", &quoted_string(&self.volume_num_min));
        push_member(&mut c, "volume_num_max", &quoted_string(&self.volume_num_max));
        push_member(&mut c, "start_date_min", &quoted_string(&self.start_date_min));
        push_member(&mut c, "start_date_max", &quoted_string(&self.start_date_max));
        push_member(&mut c, "end_date_min", &quoted_string(&self.end_date_min));
        push_member(&mut c, "end_date_max", &quoted_string(&self.end_date_max));
        push_member(&mut c, "tag_id", &quoted_string(&self.tag_id));
        push_member(&mut c, "related_tags", &flag_string(self.related_tags));
        c.append("}");
        c
    }

    /// Writes the key under which the answer to this query is cached.
    pub fn cache_key(&self) -> (r: String)
        ensures
            r@ == cache_key_text(self@),
    {
        let mut k = String::from_str("markets_");
        k.append(self.to_canonical_string().as_str());
        k
    }
}

fn same_text(a: &Option<String>, b: &Option<String>) -> (r: bool)
    ensures
        r == (plain_text(*a) == plain_text(*b)),
{
    match (a, b) {
        (Some(x), Some(y)) => text_eq(x.as_str(), y.as_str()),
        (None, None) => true,
        _ => false,
    }
}

impl MarketsQueryParams {
    /// Tells whether two queries say the same: every parameter is present
    /// in both or absent in both, with the same value.
    pub fn same_as(&self, other: &MarketsQueryParams) -> (r: bool)
        ensures
            r == (self@ == other@),
    {
        self.limit == other.limit
            && self.offset == other.offset
            && same_text(&self.order, &other.order)
            && self.ascending == other.ascending
            && self.active == other.active
            && self.closed == other.closed
            && self.archived == other.archived
            && same_text(&self.liquidity_num_min, &other.liquidity_num_min)
            && same_text(&self.liquidity_num_max, &other.liquidity_num_max)
            && same_text(&self.volume_num_min, &other.volume_num_min)
            && same_text(&self.volume_num_max, &other.volume_num_max)
            && same_text(&self.start_date_min, &other.start_date_min)
            && same_text(&self.start_date_max, &other.start_date_max)
            && same_text(&self.end_date_min, &other.end_date_min)
            && same_text(&self.end_date_max, &other.end_date_max)
            && same_text(&self.tag_id, &other.tag_id)
            && self.related_tags == other.related_tags
    }
}

/// `limit`, or `fallback` where none is given.
pub open spec fn limit_or(limit: Option<u32>, fallback: u32) -> u32 {
    match limit {
        Some(l) => l,
        None => fallback,
    }
}

/// The query for the page that a keyword search filters: the default one
/// with the given limit, twenty where none is given.
pub open spec fn search_query(limit: Option<u32>) -> QueryView {
    QueryView { limit: Some(limit_or(limit, 20)), ..default_query() }
}

/// The query for the markets with the highest volume: active ones by falling
/// volume, ten where no limit is given.
pub open spec fn trending_query(limit: Option<u32>) -> QueryView {
    QueryView {
        limit: Some(limit_or(limit, 10)),
        order: Some("volume"@),
        ascending: Some(false),
        active: Some(true),
        ..default_query()
    }
}

/// The query for the active markets: active and not archived, fifty where
/// no limit is given.
pub open spec fn active_query(limit: Option<u32>) -> QueryView {
    QueryView {
        limit: Some(limit_or(limit, 50)),
        active: Some(true),
        archived: Some(false),
        ..default_query()
    }
}

fn or_limit(limit: Option<u32>, fallback: u32) -> (r: u32)
    ensures
        r == limit_or(limit, fallback),
{
    match limit {
        Some(l) => l,
        None => fallback,
    }
}

impl MarketsQueryParams {
    /// The query for the page that a keyword search filters.
    pub fn search(limit: Option<u32>) -> (p: MarketsQueryParams)
        ensures
            p@ == search_query(limit),
    {
        let mut p = MarketsQueryParams::default();
        p.limit = Some(or_limit(limit, 20));
        p
    }

    /// The query for the markets with the highest volume.
    pub fn trending(limit: Option<u32>) -> (p: MarketsQueryParams)
        ensures
            p@ == trending_query(limit),
    {
        let mut p = MarketsQueryParams::default();
        p.limit = Some(or_limit(limit, 10));
        p.order = Some(String::from_str("volume"));
        p.ascending = Some(false);
        p.active = Some(true);
        p
    }

    /// The query for the active markets.
    pub fn active(limit: Option<u32>) -> (p: MarketsQueryParams)
        ensures
            p@ == active_query(limit),
    {
        let mut p = MarketsQueryParams::default();
        p.limit = Some(or_limit(limit, 50));
        p.active = Some(true);
        p.archived = Some(false);
        p
    }
}

/// The request for the active markets asks for active, unarchived markets,
/// and says so at the end of its query text.
pub proof fn lemma_active_query_filters(limit: Option<u32>)
    ensures
        active_query(limit).active == Some(true),
        active_query(limit).archived == Some(false),
        query_text(active_query(limit)) == "?limit="@ + decimal_digits(limit_or(limit, 50) as nat)
            + "&offset="@ + decimal_digits(0) + "&order=liquidity&ascending=false"@
            + "&active=true&archived=false"@,
{
    reveal_strlit("?");
    reveal_strlit("&");
    reveal_strlit("=");
    reveal_strlit("limit");
    reveal_strlit("offset");
    reveal_strlit("order");
    reveal_strlit("liquidity");
    reveal_strlit("ascending");
    reveal_strlit("active");
    reveal_strlit("archived");
    reveal_strlit("true");
    reveal_strlit("false");
    reveal_strlit("?limit=");
    reveal_strlit("&offset=");
    reveal_strlit("&order=liquidity&ascending=false");
    reveal_strlit("&active=true&archived=false");
    let q = active_query(limit);
    let t0 = Seq::<char>::empty();
    let t1 = with_pair(t0, "limit"@, count_text(q.limit));
    let t2 = with_pair(t1, "offset"@, count_text(q.offset));
    let t3 = with_pair(t2, "order"@, q.order);
    let t4 = with_pair(t3, "ascending"@, flag_text(q.ascending));
    let t5 = with_pair(t4, "active"@, flag_text(q.active));
    let t7 = with_pair(t5, "archived"@, flag_text(q.archived));
    assert(t1 =~= "?limit="@ + decimal_digits(limit_or(limit, 50) as nat));
    assert(t2 =~= t1 + "&offset="@ + decimal_digits(0));
    assert(t4 =~= t2 + "&order=liquidity&ascending=false"@);
    assert(t7 =~= t4 + "&active=true&archived=false"@);
    assert(query_text(q) == t7);
}

} // verus!
