use vstd::prelude::*;
use vstd::string::*;

use crate::enums::{Method, Publicity, RankingMode, SearchMode, SearchOrder, SearchPeriod};
use crate::params::{
    find_key, keys_unique, lemma_find_key, params_view, set_param, set_raw, ParamSeq,
};
use crate::text::{
    clean_parts, comma_delimited, decimal, decimal_string, join_strings, join_with,
    lemma_join_injective, string_views, views_of,
};

verus! {

/// Opaque encoding error of `serde_urlencoded`.
#[verifier::external_type_specification]
#[verifier::external_body]
pub struct ExUrlEncodeError(serde_urlencoded::ser::Error);

/// What `serde_urlencoded::to_string` makes of the single pair `(k, v)`.
pub uninterp spec fn urlencoded_pair(k: Seq<char>, v: Seq<char>) -> Seq<char>;

/// Whether chrono parses `s` as a calendar date in the format `fmt`.
pub uninterp spec fn parses_as_date_in(s: Seq<char>, fmt: Seq<char>) -> bool;

/// The form that the `date` param takes: year, month and day joined by `-`,
/// without zero-padding required, such as `2018-2-22`.
pub open spec fn is_ymd_date(s: Seq<char>) -> bool {
    parses_as_date_in(s, "%Y-%m-%d"@)
}

/// Relies on `serde_urlencoded::to_string` applied to a one-pair slice of
/// strings: a pair of strings always serializes, into the form-urlencoded
/// name, `=`, and the form-urlencoded value; form-urlencoding escapes `&`, so
/// the text holds no `&`.
#[verifier::external_body]
fn encode_pair(k: &str, v: &str) -> (r: Result<String, serde_urlencoded::ser::Error>)
    ensures
        r is Ok,
        r matches Ok(s) ==> s@ == urlencoded_pair(k@, v@) && s@.contains('=')
            && !s@.contains('&'),
{
    serde_urlencoded::to_string(&[(k, v)])
}

/// Relies on `chrono::NaiveDate::parse_from_str`: whether it parses `s` as a
/// date in the format `fmt`.
#[verifier::external_body]
fn parses_as_date(s: &str, fmt: &str) -> (r: bool)
    ensures
        r == parses_as_date_in(s@, fmt@),
{
    chrono::NaiveDate::parse_from_str(s, fmt).is_ok()
}

/// Absolute URL of a request: scheme and host, path, and an optional query.
#[derive(Debug, Clone)]
pub struct Url {
    /// Scheme and authority, such as `https://app-api.pixiv.net`.
    pub origin: String,
    /// Path, starting with `/`.
    pub path: String,
    /// Query, without the leading `?`.
    pub query: Option<String>,
}

impl Url {
    /// The URL's text.
    pub open spec fn text(&self) -> Seq<char> {
        self.origin@ + self.path@ + match self.query {
            Some(q) => seq!['?'] + q@,
            None => Seq::empty(),
        }
    }

    /// A URL without query.
    pub fn new(origin: String, path: String) -> (r: Url)
        ensures
            r.origin@ == origin@,
            r.path@ == path@,
            r.query is None,
    {
        Url { origin, path, query: None }
    }

    /// The URL's text: origin, path, and `?query` where there is a query.
    pub fn as_string(&self) -> (r: String)
        ensures
            r@ == self.text(),
    {
        let mut r = self.origin.clone();
        r.append(self.path.as_str());
        match &self.query {
            Some(q) => {
                r.append("?");
                r.append(q.as_str());
                proof {
                    reveal_strlit("?");
                }
                assert(r@ =~= self.text());
            },
            None => {
                assert(r@ =~= self.text());
            },
        }
        r
    }
}

/// The referer that every request carries.
pub open spec fn referer_headers() -> Seq<(Seq<char>, Seq<char>)> {
    seq![("referer"@, "http://spapi.pixiv.net/"@)]
}

/// Pixiv request, made by `PixivRequestBuilder::build`, to inspect before sending.
#[derive(Debug, Clone)]
pub struct PixivRequest {
    pub method: Method,
    pub url: Url,
    pub headers: Vec<(String, String)>,
}

impl PixivRequest {
    /// Creates a `PixivRequest`; `PixivRequestBuilder::build` is the usual way.
    pub fn new(method: Method, url: Url, headers: Vec<(String, String)>) -> (r: PixivRequest)
        ensures
            r.method == method,
            r.url == url,
            r.headers == headers,
    {
        PixivRequest { method, url, headers }
    }

    /// The method.
    pub fn method(&self) -> (r: &Method)
        ensures
            *r == self.method,
    {
        &self.method
    }

    /// A mutable reference to the method.
    pub fn method_mut(&mut self) -> (r: &mut Method)
        ensures
            *r == old(self).method,
            final(self).method == *final(r),
            final(self).url == old(self).url,
            final(self).headers == old(self).headers,
    {
        &mut self.method
    }

    /// The url.
    pub fn url(&self) -> (r: &Url)
        ensures
            *r == self.url,
    {
        &self.url
    }

    /// A mutable reference to the url.
    pub fn url_mut(&mut self) -> (r: &mut Url)
        ensures
            *r == old(self).url,
            final(self).url == *final(r),
            final(self).method == old(self).method,
            final(self).headers == old(self).headers,
    {
        &mut self.url
    }

    /// The headers.
    pub fn headers(&self) -> (r: &Vec<(String, String)>)
        ensures
            *r == self.headers,
    {
        &self.headers
    }

    /// A mutable reference to the headers.
    pub fn headers_mut(&mut self) -> (r: &mut Vec<(String, String)>)
        ensures
            *r == old(self).headers,
            final(self).headers == *final(r),
            final(self).method == old(self).method,
            final(self).url == old(self).url,
    {
        &mut self.headers
    }
}

/// Internal failure while rendering a request.
#[derive(Debug, Clone, Copy, PartialEq, Eq, Structural)]
pub enum BuildError {
    /// A parameter could not be form-urlencoded.
    Encoding,
}

/// The parameter list after setting each pair in turn, later pairs winning.
pub open spec fn set_all(s: ParamSeq, ps: ParamSeq) -> ParamSeq
    decreases ps.len(),
{
    if ps.len() == 0 {
        s
    } else {
        set_param(set_all(s, ps.drop_last()), ps.last().0, ps.last().1)
    }
}

/// Setting pairs with distinct names, in turn, into an empty list gives
/// exactly those pairs in that order.
pub proof fn lemma_set_all_distinct(ps: ParamSeq)
    requires
        keys_unique(ps),
    ensures
        set_all(Seq::empty(), ps) == ps,
    decreases ps.len(),
{
    if ps.len() > 0 {
        let d = ps.drop_last();
        assert(keys_unique(d)) by {
            assert forall|i: int, j: int| 0 <= i < j < d.len() implies d[i].0 != d[j].0 by {
                assert(d[i] == ps[i] && d[j] == ps[j]);
            }
        }
        lemma_set_all_distinct(d);
        lemma_find_key(d, ps.last().0);
        if find_key(d, ps.last().0) >= 0 {
            assert(ps[find_key(d, ps.last().0)] == d[find_key(d, ps.last().0)]);
        }
        assert(d.push(ps.last()) =~= ps);
    }
}

/// The views of a slice of string pairs.
pub open spec fn pair_views(ps: Seq<(&str, &str)>) -> ParamSeq {
    ps.map_values(|p: (&str, &str)| (p.0@, p.1@))
}

/// The encoded `name=value` text of each parameter, in list order.
pub open spec fn encoded_params(s: ParamSeq) -> Seq<Seq<char>> {
    s.map_values(|p: (Seq<char>, Seq<char>)| urlencoded_pair(p.0, p.1))
}

/// The query that a parameter list renders to: its encoded pairs joined by `&`.
pub open spec fn query_of(s: ParamSeq) -> Seq<char> {
    join_with(encoded_params(s), '&')
}

/// The query of a built request decodes: split at `&` into non-empty pieces
/// without `&`, it gives back exactly one encoded `name=value` pair per
/// parameter, in list order, and no other split of that kind exists.
pub proof fn lemma_query_decodes(s: ParamSeq, pieces: Seq<Seq<char>>)
    requires
        clean_parts(encoded_params(s), '&'),
        clean_parts(pieces, '&'),
        join_with(pieces, '&') == query_of(s),
    ensures
        pieces == encoded_params(s),
        pieces.len() == s.len(),
{
    lemma_join_injective(pieces, encoded_params(s), '&');
}

/// Pixiv request builder: an endpoint's method, URL and referer, and the
/// parameters accumulated so far, no name twice.
#[derive(Debug, Clone)]
pub struct PixivRequestBuilder {
    request: PixivRequest,
    params: Vec<(String, String)>,
}

impl PixivRequestBuilder {
    /// The parameters set so far, in insertion order.
    pub closed spec fn params_seq(&self) -> ParamSeq {
        params_view(self.params@)
    }

    /// The request that `build` completes with the query.
    pub closed spec fn request_of(&self) -> PixivRequest {
        self.request
    }

    /// The builder's invariant: no parameter name occurs twice.
    pub open spec fn wf(&self) -> bool {
        keys_unique(self.params_seq())
    }

    /// The builder after setting `key` to `value`, all else unchanged.
    pub open spec fn sets(&self, r: PixivRequestBuilder, key: Seq<char>, value: Seq<char>) -> bool {
        &&& r.wf()
        &&& r.request_of() == self.request_of()
        &&& r.params_seq() == set_param(self.params_seq(), key, value)
    }

    fn referer() -> (r: Vec<(String, String)>)
        ensures
            params_view(r@) == referer_headers(),
    {
        let mut h: Vec<(String, String)> = Vec::new();
        h.push((String::from_str("referer"), String::from_str("http://spapi.pixiv.net/")));
        assert(params_view(h@) =~= referer_headers());
        h
    }

    /// Creates a builder; the pairs of `params` are set in turn, so a later
    /// pair of the same name wins.
    pub fn new(method: Method, url: Url, params: Vec<(String, String)>) -> (r: Self)
        ensures
            r.wf(),
            r.request_of().method == method,
            r.request_of().url == url,
            params_view(r.request_of().headers@) == referer_headers(),
            r.params_seq() == set_all(Seq::empty(), params_view(params@)),
    {
        let ghost ps = params_view(params@);
        let mut acc: Vec<(String, String)> = Vec::new();
        let mut i: usize = 0;
        assert(params_view(acc@) =~= set_all(Seq::empty(), ps.subrange(0, 0)));
        while i < params.len()
            invariant
                i <= params.len(),
                ps == params_view(params@),
                keys_unique(params_view(acc@)),
                params_view(acc@) == set_all(Seq::empty(), ps.subrange(0, i as int)),
            decreases params.len() - i,
        {
            assert(ps.subrange(0, i + 1).drop_last() =~= ps.subrange(0, i as int));
            let k = params[i].0.clone();
            let v = params[i].1.clone();
            set_raw(&mut acc, k, v);
            i = i + 1;
        }
        assert(ps.subrange(0, params.len() as int) =~= ps);
        let request = PixivRequest { method, url, headers: Self::referer() };
        PixivRequestBuilder { request, params: acc }
    }

    /// A builder for an endpoint, seeded with its default parameters.
    pub(crate) fn with_defaults(method: Method, url: Url, defaults: &[(&str, &str)]) -> (r: Self)
        ensures
            r.wf(),
            r.request_of().method == method,
            r.request_of().url == url,
            params_view(r.request_of().headers@) == referer_headers(),
            r.params_seq() == set_all(Seq::empty(), pair_views(defaults@)),
    {
        let ghost ps = pair_views(defaults@);
        let mut acc: Vec<(String, String)> = Vec::new();
        let mut i: usize = 0;
        assert(params_view(acc@) =~= set_all(Seq::empty(), ps.subrange(0, 0)));
        while i < defaults.len()
            invariant
                i <= defaults.len(),
                ps == pair_views(defaults@),
                keys_unique(params_view(acc@)),
                params_view(acc@) == set_all(Seq::empty(), ps.subrange(0, i as int)),
            decreases defaults.len() - i,
        {
            assert(ps.subrange(0, i + 1).drop_last() =~= ps.subrange(0, i as int));
            let (k, v) = defaults[i];
            set_raw(&mut acc, String::from_str(k), String::from_str(v));
            i = i + 1;
        }
        assert(ps.subrange(0, defaults.len() as int) =~= ps);
        let request = PixivRequest { method, url, headers: Self::referer() };
        PixivRequestBuilder { request, params: acc }
    }

    /// Sets parameter `key` to `value`, replacing any earlier value; the typed
    /// setters all come down to this.
    pub fn raw_param(self, key: &str, value: String) -> (r: Self)
        requires
            self.wf(),
        ensures
            self.sets(r, key@, value@),
    {
        let mut b = self;
        set_raw(&mut b.params, String::from_str(key), value);
        b
    }

    /// The parameters set so far, in insertion order.
    pub fn params(&self) -> (r: &Vec<(String, String)>)
        ensures
            params_view(r@) == self.params_seq(),
    {
        &self.params
    }

    /// The request that `build` completes: method, URL without the new query,
    /// headers.
    pub fn request(&self) -> (r: &PixivRequest)
        ensures
            *r == self.request_of(),
    {
        &self.request
    }

    /// Sets the `page` param.
    pub fn page(self, value: usize) -> (r: Self)
        requires
            self.wf(),
        ensures
            self.sets(r, "page"@, decimal(value as nat)),
    {
        self.raw_param("page", decimal_string(value))
    }

    /// Sets the `per_page` param.
    pub fn per_page(self, value: usize) -> (r: Self)
        requires
            self.wf(),
        ensures
            self.sets(r, "per_page"@, decimal(value as nat)),
    {
        self.raw_param("per_page", decimal_string(value))
    }

    /// Sets the `max_id` param.
    pub fn max_id(self, value: usize) -> (r: Self)
        requires
            self.wf(),
        ensures
            self.sets(r, "max_id"@, decimal(value as nat)),
    {
        self.raw_param("max_id", decimal_string(value))
    }

    /// Sets the `image_sizes` param. Available types: `px_128x128`, `small`,
    /// `medium`, `large`, `px_480mw`.
    pub fn image_sizes(self, values: &[&str]) -> (r: Self)
        requires
            self.wf(),
        ensures
            self.sets(r, "image_sizes"@, join_with(views_of(values@), ',')),
    {
        self.raw_param("image_sizes", comma_delimited(values))
    }

    /// Sets the `profile_image_sizes` param. Available types: `px_170x170`, `px_50x50`.
    pub fn profile_image_sizes(self, values: &[&str]) -> (r: Self)
        requires
            self.wf(),
        ensures
            self.sets(r, "profile_image_sizes"@, join_with(views_of(values@), ',')),
    {
        self.raw_param("profile_image_sizes", comma_delimited(values))
    }

    /// Sets the `publicity` param.
    pub fn publicity(self, value: Publicity) -> (r: Self)
        requires
            self.wf(),
        ensures
            self.sets(r, "publicity"@, value.token()),
    {
        self.raw_param("publicity", String::from_str(value.as_str()))
    }

    /// Sets the `show_r18` param: `1` includes R-18 works, `0` leaves them out.
    pub fn show_r18(self, value: bool) -> (r: Self)
        requires
            self.wf(),
        ensures
            self.sets(r, "show_r18"@, if value { "1"@ } else { "0"@ }),
    {
        if value {
            self.raw_param("show_r18", String::from_str("1"))
        } else {
            self.raw_param("show_r18", String::from_str("0"))
        }
    }

    /// Sets the `include_stats` param to `true` or `false`.
    pub fn include_stats(self, value: bool) -> (r: Self)
        requires
            self.wf(),
        ensures
            self.sets(r, "include_stats"@, if value { "true"@ } else { "false"@ }),
    {
        if value {
            self.raw_param("include_stats", String::from_str("true"))
        } else {
            self.raw_param("include_stats", String::from_str("false"))
        }
    }

    /// Sets the `include_sanity_level` param to `true` or `false`.
    pub fn include_sanity_level(self, value: bool) -> (r: Self)
        requires
            self.wf(),
        ensures
            self.sets(r, "include_sanity_level"@, if value { "true"@ } else { "false"@ }),
    {
        if value {
            self.raw_param("include_sanity_level", String::from_str("true"))
        } else {
            self.raw_param("include_sanity_level", String::from_str("false"))
        }
    }

    /// Sets the `mode` param of a ranking request.
    pub fn ranking_mode(self, value: RankingMode) -> (r: Self)
        requires
            self.wf(),
        ensures
            self.sets(r, "mode"@, value.token()),
    {
        self.raw_param("mode", String::from_str(value.as_str()))
    }

    /// Sets the `date` param, which must be a date of the form `%Y-%m-%d`,
    /// such as `2018-2-22`.
    pub fn date(self, value: String) -> (r: Self)
        requires
            self.wf(),
            is_ymd_date(value@),
        ensures
            self.sets(r, "date"@, value@),
    {
        self.raw_param("date", value)
    }

    /// Sets the `date` param where `value` is a date of the form `%Y-%m-%d`;
    /// gives `None` for any other text.
    pub fn try_date(self, value: String) -> (r: Option<Self>)
        requires
            self.wf(),
        ensures
            is_ymd_date(value@) ==> (r matches Some(b) && self.sets(b, "date"@, value@)),
            !is_ymd_date(value@) ==> r is None,
    {
        if parses_as_date(value.as_str(), "%Y-%m-%d") {
            Some(self.date(value))
        } else {
            None
        }
    }

    /// Sets the `period` param of a search.
    pub fn search_period(self, value: SearchPeriod) -> (r: Self)
        requires
            self.wf(),
        ensures
            self.sets(r, "period"@, value.token()),
    {
        self.raw_param("period", String::from_str(value.as_str()))
    }

    /// Sets the `mode` param of a search.
    pub fn search_mode(self, value: SearchMode) -> (r: Self)
        requires
            self.wf(),
        ensures
            self.sets(r, "mode"@, value.token()),
    {
        self.raw_param("mode", String::from_str(value.as_str()))
    }

    /// Sets the `order` param of a search.
    pub fn search_order(self, value: SearchOrder) -> (r: Self)
        requires
            self.wf(),
        ensures
            self.sets(r, "order"@, value.token()),
    {
        self.raw_param("order", String::from_str(value.as_str()))
    }

    /// Sets the `sort` param of a search to any text.
    pub fn search_sort(self, value: String) -> (r: Self)
        requires
            self.wf(),
        ensures
            self.sets(r, "sort"@, value@),
    {
        self.raw_param("sort", value)
    }

    /// Sets the `types` param of a search. Available values: `illustration`,
    /// `manga`, `ugoira`.
    pub fn search_types(self, values: &[&str]) -> (r: Self)
        requires
            self.wf(),
        ensures
            self.sets(r, "types"@, join_with(views_of(values@), ',')),
    {
        self.raw_param("types", comma_delimited(values))
    }

    /// The request with `query` as its URL's query, in place of any query
    /// that the URL had; method, headers, origin and path stay.
    pub fn with_query(self, query: String) -> (r: PixivRequest)
        ensures
            r.method == self.request_of().method,
            r.headers == self.request_of().headers,
            r.url.origin == self.request_of().url.origin,
            r.url.path == self.request_of().url.path,
            r.url.query == Some(query),
    {
        let mut req = self.request;
        req.url.query = Some(query);
        req
    }

    /// Renders the parameters as a form-urlencoded query on the endpoint's
    /// URL: one `name=value` pair per parameter, in list order, joined by `&`.
    /// Always succeeds on a well-formed builder: the encoder takes every pair
    /// of strings.
    pub fn build(self) -> (r: Result<PixivRequest, BuildError>)
        requires
            self.wf(),
        ensures
            r is Ok,
            r matches Ok(req) ==> {
                &&& req.method == self.request_of().method
                &&& req.headers == self.request_of().headers
                &&& req.url.origin == self.request_of().url.origin
                &&& req.url.path == self.request_of().url.path
                &&& req.url.query matches Some(q) && q@ == query_of(self.params_seq())
                &&& req.url.text() == self.request_of().url.origin@ + self.request_of().url.path@
                    + seq!['?'] + query_of(self.params_seq())
                &&& clean_parts(encoded_params(self.params_seq()), '&')
            },
    {
        let ghost s = self.params_seq();
        let mut parts: Vec<String> = Vec::new();
        let mut i: usize = 0;
        while i < self.params.len()
            invariant
                i <= self.params.len(),
                s == params_view(self.params@),
                parts.len() == i,
                forall|j: int|
                    0 <= j < i ==> #[trigger] parts@[j]@ == urlencoded_pair(s[j].0, s[j].1)
                        && parts@[j]@.contains('=') && !parts@[j]@.contains('&'),
            decreases self.params.len() - i,
        {
            match encode_pair(self.params[i].0.as_str(), self.params[i].1.as_str()) {
                Ok(pair) => parts.push(pair),
                Err(_) => return Err(BuildError::Encoding),
            }
            i = i + 1;
        }
        proof {
            reveal_strlit("&");
        }
        let query = join_strings(&parts, "&");
        assert(string_views(parts@) =~= encoded_params(s));
        assert(clean_parts(encoded_params(s), '&')) by {
            assert forall|j: int| 0 <= j < s.len() implies #[trigger] encoded_params(s)[j].len() > 0
                && !encoded_params(s)[j].contains('&') by {
                assert(parts@[j]@.contains('='));
            }
        }
        let req = self.with_query(query);
        assert(req.url.text() =~= req.url.origin@ + req.url.path@ + seq!['?'] + query_of(s));
        Ok(req)
    }
}

} // verus!
