use vstd::prelude::*;
use vstd::string::*;

use crate::enums::{Method, RankingType};
use crate::params::{params_view, set_param};
use crate::request::{pair_views, referer_headers, set_all, PixivRequestBuilder, Url};
use crate::text::{comma_delimited_ids, decimal, decimal_string, decimals_of, join_with};

verus! {

/// Host of the public API.
pub open spec fn api_origin() -> Seq<char> {
    "https://public-api.secure.pixiv.net"@
}

/// Host of the app API.
pub open spec fn app_origin() -> Seq<char> {
    "https://app-api.pixiv.net"@
}

/// `prefix`, `n` in decimal, then `suffix`.
fn id_path(prefix: &str, n: usize, suffix: &str) -> (r: String)
    ensures
        r@ == prefix@ + decimal(n as nat) + suffix@,
{
    let mut r = String::from_str(prefix);
    let d = decimal_string(n);
    r.append(d.as_str());
    r.append(suffix);
    r
}

impl PixivRequestBuilder {
    /// The builder is freshly made for an endpoint: its method, its URL without
    /// query, the referer header, and the parameters `params`.
    pub open spec fn is_endpoint(
        &self,
        method: Method,
        origin: Seq<char>,
        path: Seq<char>,
        params: Seq<(Seq<char>, Seq<char>)>,
    ) -> bool {
        &&& self.wf()
        &&& self.request_of().method == method
        &&& self.request_of().url.origin@ == origin
        &&& self.request_of().url.path@ == path
        &&& self.request_of().url.query is None
        &&& params_view(self.request_of().headers@) == referer_headers()
        &&& self.params_seq() == params
    }

    /// Builds a request for `bad_words.json`.
    pub fn bad_words() -> (r: Self)
        ensures
            r.is_endpoint(
                Method::Get,
                api_origin(),
                "/v1.1/bad_words.json"@,
                set_all(Seq::empty(), Seq::empty()),
            ),
    {
        let path = String::from_str("/v1.1/bad_words.json");
        let url = Url::new(String::from_str("https://public-api.secure.pixiv.net"), path);
        let defaults: [(&str, &str); 0] = [];
        assert(pair_views(defaults@) =~= Seq::empty());
        PixivRequestBuilder::with_defaults(Method::Get, url, &defaults)
    }

    /// Builds a request for the information of a work.
    pub fn work(illust_id: usize) -> (r: Self)
        ensures
            r.is_endpoint(
                Method::Get,
                api_origin(),
                "/v1/works/"@ + decimal(illust_id as nat) + ".json"@,
                set_all(Seq::empty(), seq![
                    ("image_sizes"@, "px_128x128,small,medium,large,px_480mw"@),
                    ("include_stats"@, "true"@),
                ]),
            ),
    {
        let path = id_path("/v1/works/", illust_id, ".json");
        let url = Url::new(String::from_str("https://public-api.secure.pixiv.net"), path);
        let defaults: [(&str, &str); 2] = [
            ("image_sizes", "px_128x128,small,medium,large,px_480mw"),
            ("include_stats", "true"),
        ];
        assert(pair_views(defaults@) =~= seq![
            ("image_sizes"@, "px_128x128,small,medium,large,px_480mw"@),
            ("include_stats"@, "true"@),
        ]);
        PixivRequestBuilder::with_defaults(Method::Get, url, &defaults)
    }

    /// Builds a request for the information of a user.
    pub fn user(user_id: usize) -> (r: Self)
        ensures
            r.is_endpoint(
                Method::Get,
                api_origin(),
                "/v1/users/"@ + decimal(user_id as nat) + ".json"@,
                set_all(Seq::empty(), seq![
                    ("profile_image_sizes"@, "px_170x170,px_50x50"@),
                    ("image_sizes"@, "px_128x128,small,medium,large,px_480mw"@),
                    ("include_stats"@, "1"@),
                    ("include_profile"@, "1"@),
                    ("include_workspace"@, "1"@),
                    ("include_contacts"@, "1"@),
                ]),
            ),
    {
        let path = id_path("/v1/users/", user_id, ".json");
        let url = Url::new(String::from_str("https://public-api.secure.pixiv.net"), path);
        let defaults: [(&str, &str); 6] = [
            ("profile_image_sizes", "px_170x170,px_50x50"),
            ("image_sizes", "px_128x128,small,medium,large,px_480mw"),
            ("include_stats", "1"),
            ("include_profile", "1"),
            ("include_workspace", "1"),
            ("include_contacts", "1"),
        ];
        assert(pair_views(defaults@) =~= seq![
            ("profile_image_sizes"@, "px_170x170,px_50x50"@),
            ("image_sizes"@, "px_128x128,small,medium,large,px_480mw"@),
            ("include_stats"@, "1"@),
            ("include_profile"@, "1"@),
            ("include_workspace"@, "1"@),
            ("include_contacts"@, "1"@),
        ]);
        PixivRequestBuilder::with_defaults(Method::Get, url, &defaults)
    }

    /// Builds a request for your account's feed.
    pub fn feed() -> (r: Self)
        ensures
            r.is_endpoint(
                Method::Get,
                api_origin(),
                "/v1/me/feeds.json"@,
                set_all(Seq::empty(), seq![
                    ("relation"@, "all"@),
                    ("type"@, "touch_nottext"@),
                    ("show_r18"@, "1"@),
                ]),
            ),
    {
        let path = String::from_str("/v1/me/feeds.json");
        let url = Url::new(String::from_str("https://public-api.secure.pixiv.net"), path);
        let defaults: [(&str, &str); 3] = [
            ("relation", "all"),
            ("type", "touch_nottext"),
            ("show_r18", "1"),
        ];
        assert(pair_views(defaults@) =~= seq![
            ("relation"@, "all"@),
            ("type"@, "touch_nottext"@),
            ("show_r18"@, "1"@),
        ]);
        PixivRequestBuilder::with_defaults(Method::Get, url, &defaults)
    }

    /// Builds a request for the works favorited on your account.
    pub fn favorite_works() -> (r: Self)
        ensures
            r.is_endpoint(
                Method::Get,
                api_origin(),
                "/v1/me/favorite_works.json"@,
                set_all(Seq::empty(), seq![
                    ("page"@, "1"@),
                    ("per_page"@, "50"@),
                    ("publicity"@, "public"@),
                    ("image_sizes"@, "px_128x128,px_480mw,large"@),
                ]),
            ),
    {
        let path = String::from_str("/v1/me/favorite_works.json");
        let url = Url::new(String::from_str("https://public-api.secure.pixiv.net"), path);
        let defaults: [(&str, &str); 4] = [
            ("page", "1"),
            ("per_page", "50"),
            ("publicity", "public"),
            ("image_sizes", "px_128x128,px_480mw,large"),
        ];
        assert(pair_views(defaults@) =~= seq![
            ("page"@, "1"@),
            ("per_page"@, "50"@),
            ("publicity"@, "public"@),
            ("image_sizes"@, "px_128x128,px_480mw,large"@),
        ]);
        PixivRequestBuilder::with_defaults(Method::Get, url, &defaults)
    }

    /// Builds a request to favorite a work on your account.
    pub fn favorite_work_add(work_id: usize) -> (r: Self)
        ensures
            r.is_endpoint(
                Method::Post,
                api_origin(),
                "/v1/me/favorite_works.json"@,
                set_param(
                set_all(Seq::empty(), seq![("publicity"@, "public"@)]),
                "work_id"@,
                decimal(work_id as nat),
            ),
            ),
    {
        let path = String::from_str("/v1/me/favorite_works.json");
        let url = Url::new(String::from_str("https://public-api.secure.pixiv.net"), path);
        let defaults: [(&str, &str); 1] = [("publicity", "public")];
        assert(pair_views(defaults@) =~= seq![("publicity"@, "public"@)]);
        let b = PixivRequestBuilder::with_defaults(Method::Post, url, &defaults);
        b.raw_param("work_id", decimal_string(work_id))
    }

    /// Builds a request to remove favorited works from your account; the ids
    /// go out comma-delimited, none giving an empty value.
    pub fn favorite_works_remove(work_ids: &[usize]) -> (r: Self)
        ensures
            r.is_endpoint(
                Method::Delete,
                api_origin(),
                "/v1/me/favorite_works.json"@,
                set_param(
                set_all(Seq::empty(), seq![("publicity"@, "public"@)]),
                "ids"@,
                join_with(decimals_of(work_ids@), ','),
            ),
            ),
    {
        let path = String::from_str("/v1/me/favorite_works.json");
        let url = Url::new(String::from_str("https://public-api.secure.pixiv.net"), path);
        let defaults: [(&str, &str); 1] = [("publicity", "public")];
        assert(pair_views(defaults@) =~= seq![("publicity"@, "public"@)]);
        let b = PixivRequestBuilder::with_defaults(Method::Delete, url, &defaults);
        b.raw_param("ids", comma_delimited_ids(work_ids))
    }

    /// Builds a request for the newest works of whoever your account follows.
    pub fn following_works() -> (r: Self)
        ensures
            r.is_endpoint(
                Method::Get,
                api_origin(),
                "/v1/me/following/works.json"@,
                set_all(Seq::empty(), seq![
                    ("page"@, "1"@),
                    ("per_page"@, "30"@),
                    ("image_sizes"@, "px_128x128,px480mw,large"@),
                    ("include_stats"@, "true"@),
                    ("include_sanity_level"@, "true"@),
                ]),
            ),
    {
        let path = String::from_str("/v1/me/following/works.json");
        let url = Url::new(String::from_str("https://public-api.secure.pixiv.net"), path);
        let defaults: [(&str, &str); 5] = [
            ("page", "1"),
            ("per_page", "30"),
            ("image_sizes", "px_128x128,px480mw,large"),
            ("include_stats", "true"),
            ("include_sanity_level", "true"),
        ];
        assert(pair_views(defaults@) =~= seq![
            ("page"@, "1"@),
            ("per_page"@, "30"@),
            ("image_sizes"@, "px_128x128,px480mw,large"@),
            ("include_stats"@, "true"@),
            ("include_sanity_level"@, "true"@),
        ]);
        PixivRequestBuilder::with_defaults(Method::Get, url, &defaults)
    }

    /// Builds a request for the users your account follows.
    pub fn following() -> (r: Self)
        ensures
            r.is_endpoint(
                Method::Get,
                api_origin(),
                "/v1/me/following.json"@,
                set_all(Seq::empty(), seq![
                    ("page"@, "1"@),
                    ("per_page"@, "30"@),
                    ("publicity"@, "public"@),
                ]),
            ),
    {
        let path = String::from_str("/v1/me/following.json");
        let url = Url::new(String::from_str("https://public-api.secure.pixiv.net"), path);
        let defaults: [(&str, &str); 3] = [
            ("page", "1"),
            ("per_page", "30"),
            ("publicity", "public"),
        ];
        assert(pair_views(defaults@) =~= seq![
            ("page"@, "1"@),
            ("per_page"@, "30"@),
            ("publicity"@, "public"@),
        ]);
        PixivRequestBuilder::with_defaults(Method::Get, url, &defaults)
    }

    /// Builds a request to follow a user on your account.
    pub fn following_add(user_id: usize) -> (r: Self)
        ensures
            r.is_endpoint(
                Method::Post,
                api_origin(),
                "/v1/me/favorite-users.json"@,
                set_param(
                set_all(Seq::empty(), seq![("publicity"@, "public"@)]),
                "target_user_id"@,
                decimal(user_id as nat),
            ),
            ),
    {
        let path = String::from_str("/v1/me/favorite-users.json");
        let url = Url::new(String::from_str("https://public-api.secure.pixiv.net"), path);
        let defaults: [(&str, &str); 1] = [("publicity", "public")];
        assert(pair_views(defaults@) =~= seq![("publicity"@, "public"@)]);
        let b = PixivRequestBuilder::with_defaults(Method::Post, url, &defaults);
        b.raw_param("target_user_id", decimal_string(user_id))
    }

    /// Builds a request to unfollow users on your account; the ids go out
    /// comma-delimited, none giving an empty value.
    pub fn following_remove(user_ids: &[usize]) -> (r: Self)
        ensures
            r.is_endpoint(
                Method::Delete,
                api_origin(),
                "/v1/me/favorite-users.json"@,
                set_param(
                set_all(Seq::empty(), seq![("publicity"@, "public"@)]),
                "delete_ids"@,
                join_with(decimals_of(user_ids@), ','),
            ),
            ),
    {
        let path = String::from_str("/v1/me/favorite-users.json");
        let url = Url::new(String::from_str("https://public-api.secure.pixiv.net"), path);
        let defaults: [(&str, &str); 1] = [("publicity", "public")];
        assert(pair_views(defaults@) =~= seq![("publicity"@, "public"@)]);
        let b = PixivRequestBuilder::with_defaults(Method::Delete, url, &defaults);
        b.raw_param("delete_ids", comma_delimited_ids(user_ids))
    }

    /// Builds a request for the works submitted by a user.
    pub fn user_works(user_id: usize) -> (r: Self)
        ensures
            r.is_endpoint(
                Method::Get,
                api_origin(),
                "/v1/users/"@ + decimal(user_id as nat) + "/works.json"@,
                set_all(Seq::empty(), seq![
                    ("page"@, "1"@),
                    ("per_page"@, "30"@),
                    ("image_sizes"@, "px_128x128,px480mw,large"@),
                    ("include_stats"@, "true"@),
                    ("include_sanity_level"@, "true"@),
                ]),
            ),
    {
        let path = id_path("/v1/users/", user_id, "/works.json");
        let url = Url::new(String::from_str("https://public-api.secure.pixiv.net"), path);
        let defaults: [(&str, &str); 5] = [
            ("page", "1"),
            ("per_page", "30"),
            ("image_sizes", "px_128x128,px480mw,large"),
            ("include_stats", "true"),
            ("include_sanity_level", "true"),
        ];
        assert(pair_views(defaults@) =~= seq![
            ("page"@, "1"@),
            ("per_page"@, "30"@),
            ("image_sizes"@, "px_128x128,px480mw,large"@),
            ("include_stats"@, "true"@),
            ("include_sanity_level"@, "true"@),
        ]);
        PixivRequestBuilder::with_defaults(Method::Get, url, &defaults)
    }

    /// Builds a request for the works favorited by a user.
    pub fn user_favorite_works(user_id: usize) -> (r: Self)
        ensures
            r.is_endpoint(
                Method::Get,
                api_origin(),
                "/v1/users/"@ + decimal(user_id as nat) + "/favorite_works.json"@,
                set_all(Seq::empty(), seq![
                    ("page"@, "1"@),
                    ("per_page"@, "30"@),
                    ("image_sizes"@, "px_128x128,px480mw,large"@),
                    ("include_sanity_level"@, "true"@),
                ]),
            ),
    {
        let path = id_path("/v1/users/", user_id, "/favorite_works.json");
        let url = Url::new(String::from_str("https://public-api.secure.pixiv.net"), path);
        let defaults: [(&str, &str); 4] = [
            ("page", "1"),
            ("per_page", "30"),
            ("image_sizes", "px_128x128,px480mw,large"),
            ("include_sanity_level", "true"),
        ];
        assert(pair_views(defaults@) =~= seq![
            ("page"@, "1"@),
            ("per_page"@, "30"@),
            ("image_sizes"@, "px_128x128,px480mw,large"@),
            ("include_sanity_level"@, "true"@),
        ]);
        PixivRequestBuilder::with_defaults(Method::Get, url, &defaults)
    }

    /// Builds a request for a user's feed.
    pub fn user_feed(user_id: usize) -> (r: Self)
        ensures
            r.is_endpoint(
                Method::Get,
                api_origin(),
                "/v1/users/"@ + decimal(user_id as nat) + "/feeds.json"@,
                set_all(Seq::empty(), seq![
                    ("relation"@, "all"@),
                    ("type"@, "touch_nottext"@),
                    ("show_r18"@, "1"@),
                ]),
            ),
    {
        let path = id_path("/v1/users/", user_id, "/feeds.json");
        let url = Url::new(String::from_str("https://public-api.secure.pixiv.net"), path);
        let defaults: [(&str, &str); 3] = [
            ("relation", "all"),
            ("type", "touch_nottext"),
            ("show_r18", "1"),
        ];
        assert(pair_views(defaults@) =~= seq![
            ("relation"@, "all"@),
            ("type"@, "touch_nottext"@),
            ("show_r18"@, "1"@),
        ]);
        PixivRequestBuilder::with_defaults(Method::Get, url, &defaults)
    }

    /// Builds a request for the users a user follows.
    pub fn user_following(user_id: usize) -> (r: Self)
        ensures
            r.is_endpoint(
                Method::Get,
                api_origin(),
                "/v1/users/"@ + decimal(user_id as nat) + "/following.json"@,
                set_all(Seq::empty(), seq![("page"@, "1"@), ("per_page"@, "30"@)]),
            ),
    {
        let path = id_path("/v1/users/", user_id, "/following.json");
        let url = Url::new(String::from_str("https://public-api.secure.pixiv.net"), path);
        let defaults: [(&str, &str); 2] = [("page", "1"), ("per_page", "30")];
        assert(pair_views(defaults@) =~= seq![("page"@, "1"@), ("per_page"@, "30"@)]);
        PixivRequestBuilder::with_defaults(Method::Get, url, &defaults)
    }

    /// Builds a request for a ranking list.
    pub fn ranking(ranking_type: RankingType) -> (r: Self)
        ensures
            r.is_endpoint(
                Method::Get,
                api_origin(),
                "/v1/ranking/"@ + ranking_type.token() + ".json"@,
                set_all(Seq::empty(), seq![
                    ("mode"@, "daily"@),
                    ("page"@, "1"@),
                    ("per_page"@, "50"@),
                    ("include_stats"@, "True"@),
                    ("include_sanity_level"@, "True"@),
                    ("image_sizes"@, "px_128x128,small,medium,large,px_480mw"@),
                    ("profile_image_sizes"@, "px_170x170,px_50x50"@),
                ]),
            ),
    {
        let mut path = String::from_str("/v1/ranking/");
        path.append(ranking_type.as_str());
        path.append(".json");
        let url = Url::new(String::from_str("https://public-api.secure.pixiv.net"), path);
        let defaults: [(&str, &str); 7] = [
            ("mode", "daily"),
            ("page", "1"),
            ("per_page", "50"),
            ("include_stats", "True"),
            ("include_sanity_level", "True"),
            ("image_sizes", "px_128x128,small,medium,large,px_480mw"),
            ("profile_image_sizes", "px_170x170,px_50x50"),
        ];
        assert(pair_views(defaults@) =~= seq![
            ("mode"@, "daily"@),
            ("page"@, "1"@),
            ("per_page"@, "50"@),
            ("include_stats"@, "True"@),
            ("include_sanity_level"@, "True"@),
            ("image_sizes"@, "px_128x128,small,medium,large,px_480mw"@),
            ("profile_image_sizes"@, "px_170x170,px_50x50"@),
        ]);
        PixivRequestBuilder::with_defaults(Method::Get, url, &defaults)
    }

    /// Builds a request to search works for `query`.
    pub fn search_works(query: String) -> (r: Self)
        ensures
            r.is_endpoint(
                Method::Get,
                api_origin(),
                "/v1/search/works.json"@,
                set_param(
                set_all(Seq::empty(), seq![
                    ("page"@, "1"@),
                    ("per_page"@, "30"@),
                    ("mode"@, "text"@),
                    ("period"@, "all"@),
                    ("order"@, "desc"@),
                    ("sort"@, "date"@),
                    ("types"@, "illustration,manga,ugoira"@),
                    ("include_stats"@, "true"@),
                    ("include_sanity_level"@, "true"@),
                    ("image_sizes"@, "px_128x128,px480mw,large"@),
                ]),
                "q"@,
                query@,
            ),
            ),
    {
        let path = String::from_str("/v1/search/works.json");
        let url = Url::new(String::from_str("https://public-api.secure.pixiv.net"), path);
        let defaults: [(&str, &str); 10] = [
            ("page", "1"),
            ("per_page", "30"),
            ("mode", "text"),
            ("period", "all"),
            ("order", "desc"),
            ("sort", "date"),
            ("types", "illustration,manga,ugoira"),
            ("include_stats", "true"),
            ("include_sanity_level", "true"),
            ("image_sizes", "px_128x128,px480mw,large"),
        ];
        assert(pair_views(defaults@) =~= seq![
            ("page"@, "1"@),
            ("per_page"@, "30"@),
            ("mode"@, "text"@),
            ("period"@, "all"@),
            ("order"@, "desc"@),
            ("sort"@, "date"@),
            ("types"@, "illustration,manga,ugoira"@),
            ("include_stats"@, "true"@),
            ("include_sanity_level"@, "true"@),
            ("image_sizes"@, "px_128x128,px480mw,large"@),
        ]);
        let b = PixivRequestBuilder::with_defaults(Method::Get, url, &defaults);
        b.raw_param("q", query)
    }

    /// Builds a request for the latest works submitted by everyone.
    pub fn latest_works() -> (r: Self)
        ensures
            r.is_endpoint(
                Method::Get,
                api_origin(),
                "/v1/works.json"@,
                set_all(Seq::empty(), seq![
                    ("page"@, "1"@),
                    ("per_page"@, "30"@),
                    ("include_stats"@, "true"@),
                    ("include_sanity_level"@, "true"@),
                    ("image_sizes"@, "px_128x128,px480mw,large"@),
                    ("profile_image_sizes"@, "px_170x170,px_50x50"@),
                ]),
            ),
    {
        let path = String::from_str("/v1/works.json");
        let url = Url::new(String::from_str("https://public-api.secure.pixiv.net"), path);
        let defaults: [(&str, &str); 6] = [
            ("page", "1"),
            ("per_page", "30"),
            ("include_stats", "true"),
            ("include_sanity_level", "true"),
            ("image_sizes", "px_128x128,px480mw,large"),
            ("profile_image_sizes", "px_170x170,px_50x50"),
        ];
        assert(pair_views(defaults@) =~= seq![
            ("page"@, "1"@),
            ("per_page"@, "30"@),
            ("include_stats"@, "true"@),
            ("include_sanity_level"@, "true"@),
            ("image_sizes"@, "px_128x128,px480mw,large"@),
            ("profile_image_sizes"@, "px_170x170,px_50x50"@),
        ]);
        PixivRequestBuilder::with_defaults(Method::Get, url, &defaults)
    }

    /// Builds a request for the detail of an illustration.
    pub fn illustration(illust_id: usize) -> (r: Self)
        ensures
            r.is_endpoint(
                Method::Get,
                app_origin(),
                "/v1/illust/detail"@,
                set_param(
                set_all(Seq::empty(), Seq::empty()),
                "illust_id"@,
                decimal(illust_id as nat),
            ),
            ),
    {
        let path = String::from_str("/v1/illust/detail");
        let url = Url::new(String::from_str("https://app-api.pixiv.net"), path);
        let defaults: [(&str, &str); 0] = [];
        assert(pair_views(defaults@) =~= Seq::empty());
        let b = PixivRequestBuilder::with_defaults(Method::Get, url, &defaults);
        b.raw_param("illust_id", decimal_string(illust_id))
    }
}

} // verus!
