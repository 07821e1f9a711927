use pixiv::{
    comma_delimited, comma_delimited_ids, decimal_string, AuthError, Duration, Method,
    PixivRequest, PixivRequestBuilder, Publicity, RankingMode, RankingType, SearchMode,
    SearchOrder, SearchPeriod, SearchSort, SearchTarget, Url, IllustrationSearchRequestArg,
};

fn pairs(items: &[(&str, &str)]) -> Vec<(String, String)> {
    items.iter().map(|(k, v)| (k.to_string(), v.to_string())).collect()
}

fn decoded_query(req: &PixivRequest) -> Vec<(String, String)> {
    let query = req.url.query.clone().expect("a built request has a query");
    serde_urlencoded::from_str::<Vec<(String, String)>>(&query).expect("query decodes")
}

fn sorted(mut v: Vec<(String, String)>) -> Vec<(String, String)> {
    v.sort();
    v
}

#[test]
fn test_into_iterator() {
    let slice: &[usize] = &[0, 1, 2];
    let vec = slice.to_owned();
    let iter: Vec<usize> = vec.clone().into_iter().chain(Some(3)).collect();

    PixivRequestBuilder::favorite_works_remove(slice);
    PixivRequestBuilder::favorite_works_remove(&vec.clone());
    PixivRequestBuilder::favorite_works_remove(&iter.clone());

    PixivRequestBuilder::following_remove(slice);
    PixivRequestBuilder::following_remove(&vec);
    PixivRequestBuilder::following_remove(&iter);
}

#[test]
fn user_works_defaults_and_path() {
    let b = PixivRequestBuilder::user_works(42);
    assert_eq!(
        b.params(),
        &pairs(&[
            ("page", "1"),
            ("per_page", "30"),
            ("image_sizes", "px_128x128,px480mw,large"),
            ("include_stats", "true"),
            ("include_sanity_level", "true"),
        ])
    );
    assert_eq!(b.request().method, Method::Get);
    assert_eq!(b.request().url.path, "/v1/users/42/works.json");
    let req = b.build().unwrap();
    assert_eq!(req.url.origin, "https://public-api.secure.pixiv.net");
    assert_eq!(req.url.path, "/v1/users/42/works.json");
    assert_eq!(
        decoded_query(&req),
        pairs(&[
            ("page", "1"),
            ("per_page", "30"),
            ("image_sizes", "px_128x128,px480mw,large"),
            ("include_stats", "true"),
            ("include_sanity_level", "true"),
        ])
    );
    assert_eq!(req.headers, pairs(&[("referer", "http://spapi.pixiv.net/")]));
}

#[test]
fn last_write_wins() {
    let req = PixivRequestBuilder::following_works().page(1).page(2).build().unwrap();
    let q = decoded_query(&req);
    let pages: Vec<&(String, String)> = q.iter().filter(|(k, _)| k == "page").collect();
    assert_eq!(pages.len(), 1);
    assert_eq!(pages[0].1, "2");
}

#[test]
fn per_page_sets_per_page() {
    let b = PixivRequestBuilder::following_works().per_page(7);
    assert!(b.params().contains(&("per_page".to_string(), "7".to_string())));
    assert!(!b.params().iter().any(|(k, _)| k == "value"));
}

#[test]
fn image_sizes_comma_delimited() {
    let req = PixivRequestBuilder::bad_words().image_sizes(&["a", "b", "c"]).build().unwrap();
    assert_eq!(decoded_query(&req), pairs(&[("image_sizes", "a,b,c")]));
    assert_eq!(req.url.as_string(), "https://public-api.secure.pixiv.net/v1.1/bad_words.json?image_sizes=a%2Cb%2Cc");
}

#[test]
fn image_sizes_empty_is_present() {
    let req = PixivRequestBuilder::bad_words().image_sizes(&[]).build().unwrap();
    assert_eq!(decoded_query(&req), pairs(&[("image_sizes", "")]));
}

#[test]
fn profile_image_sizes_and_types() {
    let b = PixivRequestBuilder::bad_words()
        .profile_image_sizes(&["px_170x170"])
        .search_types(&["manga", "ugoira"]);
    assert_eq!(b.params(), &pairs(&[("profile_image_sizes", "px_170x170"), ("types", "manga,ugoira")]));
}

fn assert_distinct(tokens: &[&str]) {
    for (i, a) in tokens.iter().enumerate() {
        assert!(!a.is_empty());
        for b in &tokens[i + 1..] {
            assert_ne!(a, b);
        }
    }
}

#[test]
fn enum_tokens_are_distinct() {
    assert_distinct(&[Publicity::Public.as_str(), Publicity::Private.as_str()]);
    assert_distinct(&[
        RankingType::All.as_str(),
        RankingType::Illust.as_str(),
        RankingType::Manga.as_str(),
        RankingType::Ugoira.as_str(),
    ]);
    let modes = [
        RankingMode::Daily, RankingMode::Weekly, RankingMode::Monthly, RankingMode::Rookie,
        RankingMode::Original, RankingMode::Male, RankingMode::Female, RankingMode::DailyR18,
        RankingMode::WeeklyR18, RankingMode::MaleR18, RankingMode::FemaleR18, RankingMode::R18G,
    ];
    let mode_tokens: Vec<&str> = modes.iter().map(|m| m.as_str()).collect();
    assert_distinct(&mode_tokens);
    assert_distinct(&[
        SearchPeriod::All.as_str(),
        SearchPeriod::Day.as_str(),
        SearchPeriod::Week.as_str(),
        SearchPeriod::Month.as_str(),
    ]);
    assert_distinct(&[
        SearchMode::Text.as_str(),
        SearchMode::Tag.as_str(),
        SearchMode::ExactTag.as_str(),
        SearchMode::Caption.as_str(),
    ]);
    assert_distinct(&[SearchOrder::Descending.as_str(), SearchOrder::Ascending.as_str()]);
    assert_distinct(&[
        SearchTarget::TagsPartial.as_str(),
        SearchTarget::TagsExact.as_str(),
        SearchTarget::TitleAndCaption.as_str(),
    ]);
    assert_distinct(&[
        SearchSort::DateDescending.as_str(),
        SearchSort::DateAscending.as_str(),
        SearchSort::PopularDescending.as_str(),
    ]);
    assert_distinct(&[Duration::LastDay.as_str(), Duration::LastWeek.as_str(), Duration::LastMonth.as_str()]);
    assert_distinct(&[Method::Get.as_str(), Method::Post.as_str(), Method::Delete.as_str()]);
}

#[test]
fn enum_token_values() {
    assert_eq!(Publicity::Private.as_str(), "private");
    assert_eq!(RankingMode::DailyR18.as_str(), "daily_r18");
    assert_eq!(RankingMode::R18G.as_str(), "r18g");
    assert_eq!(SearchMode::ExactTag.as_str(), "exact_tag");
    assert_eq!(SearchOrder::Descending.as_str(), "desc");
    assert_eq!(SearchPeriod::Month.as_str(), "month");
}

#[test]
fn enum_setters() {
    let b = PixivRequestBuilder::search_works("cat".to_string())
        .search_mode(SearchMode::Tag)
        .search_period(SearchPeriod::Week)
        .search_order(SearchOrder::Ascending)
        .search_sort("popular".to_string())
        .publicity(Publicity::Private);
    let p = b.params();
    assert!(p.contains(&("mode".to_string(), "tag".to_string())));
    assert!(p.contains(&("period".to_string(), "week".to_string())));
    assert!(p.contains(&("order".to_string(), "asc".to_string())));
    assert!(p.contains(&("sort".to_string(), "popular".to_string())));
    assert!(p.contains(&("publicity".to_string(), "private".to_string())));
    assert!(p.contains(&("q".to_string(), "cat".to_string())));
    let r = PixivRequestBuilder::ranking(RankingType::Manga).ranking_mode(RankingMode::WeeklyR18);
    assert_eq!(r.request().url.path, "/v1/ranking/manga.json");
    assert!(r.params().contains(&("mode".to_string(), "weekly_r18".to_string())));
}

#[test]
fn boolean_tokens() {
    let b = PixivRequestBuilder::bad_words()
        .show_r18(false)
        .include_stats(false)
        .include_sanity_level(true);
    assert_eq!(
        b.params(),
        &pairs(&[("show_r18", "0"), ("include_stats", "false"), ("include_sanity_level", "true")])
    );
    let b = b.show_r18(true).include_stats(true).include_sanity_level(false);
    assert_eq!(
        b.params(),
        &pairs(&[("show_r18", "1"), ("include_stats", "true"), ("include_sanity_level", "false")])
    );
}

#[test]
fn favorite_works_remove_batches() {
    let empty: &[usize] = &[];
    let req = PixivRequestBuilder::favorite_works_remove(empty).build().unwrap();
    assert_eq!(req.method, Method::Delete);
    assert_eq!(sorted(decoded_query(&req)), sorted(pairs(&[("publicity", "public"), ("ids", "")])));
    let req = PixivRequestBuilder::favorite_works_remove(&[1, 2, 3]).build().unwrap();
    assert_eq!(sorted(decoded_query(&req)), sorted(pairs(&[("publicity", "public"), ("ids", "1,2,3")])));
    let req = PixivRequestBuilder::favorite_works_remove(&[9]).build().unwrap();
    assert_eq!(sorted(decoded_query(&req)), sorted(pairs(&[("publicity", "public"), ("ids", "9")])));
}

#[test]
fn following_remove_batches() {
    let req = PixivRequestBuilder::following_remove(&[10, 200]).build().unwrap();
    assert_eq!(req.url.path, "/v1/me/favorite-users.json");
    assert_eq!(sorted(decoded_query(&req)), sorted(pairs(&[("publicity", "public"), ("delete_ids", "10,200")])));
}

#[test]
fn single_id_endpoints() {
    let b = PixivRequestBuilder::favorite_work_add(5);
    assert_eq!(b.request().method, Method::Post);
    assert_eq!(b.params(), &pairs(&[("publicity", "public"), ("work_id", "5")]));
    let b = PixivRequestBuilder::following_add(77);
    assert_eq!(b.params(), &pairs(&[("publicity", "public"), ("target_user_id", "77")]));
    let b = PixivRequestBuilder::illustration(75523989);
    assert_eq!(b.request().url.origin, "https://app-api.pixiv.net");
    assert_eq!(b.request().url.path, "/v1/illust/detail");
    assert_eq!(b.params(), &pairs(&[("illust_id", "75523989")]));
}

#[test]
fn date_validation() {
    let b = PixivRequestBuilder::latest_works().try_date("2018-2-22".to_string());
    let b = b.expect("a valid date is accepted");
    assert!(b.params().contains(&("date".to_string(), "2018-2-22".to_string())));
    assert!(PixivRequestBuilder::latest_works().try_date("not-a-date".to_string()).is_none());
    assert!(PixivRequestBuilder::latest_works().try_date("2018-2-30".to_string()).is_none());
}

#[test]
fn work_url_composition() {
    let req = PixivRequestBuilder::work(66024340).build().unwrap();
    assert_eq!(req.url.path, "/v1/works/66024340.json");
    let text = req.url.as_string();
    let (base, query) = text.split_once('?').unwrap();
    assert_eq!(base, "https://public-api.secure.pixiv.net/v1/works/66024340.json");
    assert_eq!(query, "image_sizes=px_128x128%2Csmall%2Cmedium%2Clarge%2Cpx_480mw&include_stats=true");
    assert_eq!(
        decoded_query(&req),
        pairs(&[("image_sizes", "px_128x128,small,medium,large,px_480mw"), ("include_stats", "true")])
    );
}

#[test]
fn values_are_percent_encoded() {
    let req = PixivRequestBuilder::bad_words()
        .raw_param("q", "a&b c=d".to_string())
        .build()
        .unwrap();
    assert_eq!(req.url.query.as_deref(), Some("q=a%26b+c%3Dd"));
    assert_eq!(decoded_query(&req), pairs(&[("q", "a&b c=d")]));
}

#[test]
fn catalog_defaults() {
    let b = PixivRequestBuilder::user(6996493);
    assert_eq!(b.request().url.path, "/v1/users/6996493.json");
    assert_eq!(
        b.params(),
        &pairs(&[
            ("profile_image_sizes", "px_170x170,px_50x50"),
            ("image_sizes", "px_128x128,small,medium,large,px_480mw"),
            ("include_stats", "1"),
            ("include_profile", "1"),
            ("include_workspace", "1"),
            ("include_contacts", "1"),
        ])
    );
    let b = PixivRequestBuilder::feed();
    assert_eq!(b.params(), &pairs(&[("relation", "all"), ("type", "touch_nottext"), ("show_r18", "1")]));
    let b = PixivRequestBuilder::user_feed(3);
    assert_eq!(b.request().url.path, "/v1/users/3/feeds.json");
    let b = PixivRequestBuilder::user_following(3).max_id(99);
    assert_eq!(b.params(), &pairs(&[("page", "1"), ("per_page", "30"), ("max_id", "99")]));
    let b = PixivRequestBuilder::user_favorite_works(8);
    assert_eq!(b.request().url.path, "/v1/users/8/favorite_works.json");
    assert_eq!(b.params().len(), 4);
    let b = PixivRequestBuilder::favorite_works();
    assert_eq!(b.params()[1], ("per_page".to_string(), "50".to_string()));
    let b = PixivRequestBuilder::following();
    assert_eq!(b.params(), &pairs(&[("page", "1"), ("per_page", "30"), ("publicity", "public")]));
    let b = PixivRequestBuilder::search_works("cat".to_string());
    assert_eq!(b.params().len(), 11);
    assert_eq!(b.params()[10], ("q".to_string(), "cat".to_string()));
    let b = PixivRequestBuilder::ranking(RankingType::All);
    assert_eq!(b.params()[3], ("include_stats".to_string(), "True".to_string()));
    assert!(PixivRequestBuilder::bad_words().params().is_empty());
    assert_eq!(PixivRequestBuilder::latest_works().params().len(), 6);
}

#[test]
fn builder_new_last_pair_wins() {
    let url = Url::new("https://example.org".to_string(), "/a".to_string());
    let b = PixivRequestBuilder::new(Method::Get, url, pairs(&[("x", "1"), ("y", "2"), ("x", "3")]));
    assert_eq!(b.params(), &pairs(&[("x", "3"), ("y", "2")]));
}

#[test]
fn with_query_replaces_query() {
    let b = PixivRequestBuilder::feed();
    let req = b.with_query("a=1".to_string());
    assert_eq!(req.url.as_string(), "https://public-api.secure.pixiv.net/v1/me/feeds.json?a=1");
    let mut req = PixivRequest::new(Method::Post, req.url.clone(), Vec::new());
    *req.method_mut() = Method::Delete;
    assert_eq!(*req.method(), Method::Delete);
    req.url_mut().query = None;
    assert_eq!(req.url().as_string(), "https://public-api.secure.pixiv.net/v1/me/feeds.json");
    req.headers_mut().push(("x".to_string(), "y".to_string()));
    assert_eq!(req.headers().len(), 1);
}

#[test]
fn decimal_rendering() {
    assert_eq!(decimal_string(0), "0");
    assert_eq!(decimal_string(7), "7");
    assert_eq!(decimal_string(10), "10");
    assert_eq!(decimal_string(66024340), "66024340");
    assert_eq!(decimal_string(usize::MAX), usize::MAX.to_string());
}

#[test]
fn comma_joins() {
    assert_eq!(comma_delimited(&[]), "");
    assert_eq!(comma_delimited(&["x"]), "x");
    assert_eq!(comma_delimited(&["x", "", "y"]), "x,,y");
    assert_eq!(comma_delimited_ids(&[]), "");
    assert_eq!(comma_delimited_ids(&[0, 12, 345]), "0,12,345");
}

#[test]
fn search_arg_parameters() {
    let mut it = IllustrationSearchRequestArg::new("cat".to_string()).into_iter();
    assert_eq!(it.next(), Some(("word".to_string(), "cat".to_string())));
    assert_eq!(it.next(), Some(("search_target".to_string(), "partial_match_for_tags".to_string())));
    assert_eq!(it.next(), Some(("sort".to_string(), "date_desc".to_string())));
    assert_eq!(it.next(), None);
    assert_eq!(it.next(), None);

    let mut it = IllustrationSearchRequestArg::new("dog".to_string())
        .set_search_target(SearchTarget::TitleAndCaption)
        .set_sort(SearchSort::PopularDescending)
        .set_duration(Duration::LastWeek)
        .set_offset(30)
        .into_iter();
    let mut all = Vec::new();
    while let Some(p) = it.next() {
        all.push(p);
    }
    assert_eq!(
        all,
        pairs(&[
            ("word", "dog"),
            ("search_target", "title_and_caption"),
            ("sort", "popular_desc"),
            ("duration", "within_last_week"),
            ("offset", "30"),
        ])
    );
}

#[test]
fn auth_error_reason() {
    let e = AuthError::new("bad password".to_string());
    assert_eq!(e.reason(), "bad password");
    assert_eq!(e.description(), "An error occurred while trying to authenticate.");
}
