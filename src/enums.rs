use vstd::prelude::*;

verus! {

/// Enum to set the `publicity` param.
#[derive(Debug, Clone, Copy, PartialEq, Eq, Structural)]
pub enum Publicity {
    Public,
    Private,
}

impl Publicity {
    /// The token that stands for this variant on the wire.
    pub open spec fn token(self) -> Seq<char> {
        match self {
            Publicity::Public => "public"@,
            Publicity::Private => "private"@,
        }
    }

    pub fn as_str(&self) -> (r: &'static str)
        ensures
            r@ == self.token(),
    {
        match *self {
            Publicity::Public => "public",
            Publicity::Private => "private",
        }
    }
}

/// Enum to set the ranking type, which picks the ranking list's path.
#[derive(Debug, Clone, Copy, PartialEq, Eq, Structural)]
pub enum RankingType {
    All,
    Illust,
    Manga,
    Ugoira,
}

impl RankingType {
    /// The token that stands for this variant on the wire.
    pub open spec fn token(self) -> Seq<char> {
        match self {
            RankingType::All => "all"@,
            RankingType::Illust => "illust"@,
            RankingType::Manga => "manga"@,
            RankingType::Ugoira => "ugoira"@,
        }
    }

    pub fn as_str(&self) -> (r: &'static str)
        ensures
            r@ == self.token(),
    {
        match *self {
            RankingType::All => "all",
            RankingType::Illust => "illust",
            RankingType::Manga => "manga",
            RankingType::Ugoira => "ugoira",
        }
    }
}

/// Enum to set the ranking `mode` param.
#[derive(Debug, Clone, Copy, PartialEq, Eq, Structural)]
pub enum RankingMode {
    Daily,
    Weekly,
    Monthly,
    Rookie,
    Original,
    Male,
    Female,
    DailyR18,
    WeeklyR18,
    MaleR18,
    FemaleR18,
    R18G,
}

impl RankingMode {
    /// The token that stands for this variant on the wire.
    pub open spec fn token(self) -> Seq<char> {
        match self {
            RankingMode::Daily => "daily"@,
            RankingMode::Weekly => "weekly"@,
            RankingMode::Monthly => "monthly"@,
            RankingMode::Rookie => "rookie"@,
            RankingMode::Original => "original"@,
            RankingMode::Male => "male"@,
            RankingMode::Female => "female"@,
            RankingMode::DailyR18 => "daily_r18"@,
            RankingMode::WeeklyR18 => "weekly_r18"@,
            RankingMode::MaleR18 => "male_r18"@,
            RankingMode::FemaleR18 => "female_r18"@,
            RankingMode::R18G => "r18g"@,
        }
    }

    pub fn as_str(&self) -> (r: &'static str)
        ensures
            r@ == self.token(),
    {
        match *self {
            RankingMode::Daily => "daily",
            RankingMode::Weekly => "weekly",
            RankingMode::Monthly => "monthly",
            RankingMode::Rookie => "rookie",
            RankingMode::Original => "original",
            RankingMode::Male => "male",
            RankingMode::Female => "female",
            RankingMode::DailyR18 => "daily_r18",
            RankingMode::WeeklyR18 => "weekly_r18",
            RankingMode::MaleR18 => "male_r18",
            RankingMode::FemaleR18 => "female_r18",
            RankingMode::R18G => "r18g",
        }
    }
}

/// Enum to set the search `period` param.
#[derive(Debug, Clone, Copy, PartialEq, Eq, Structural)]
pub enum SearchPeriod {
    All,
    Day,
    Week,
    Month,
}

impl SearchPeriod {
    /// The token that stands for this variant on the wire.
    pub open spec fn token(self) -> Seq<char> {
        match self {
            SearchPeriod::All => "all"@,
            SearchPeriod::Day => "day"@,
            SearchPeriod::Week => "week"@,
            SearchPeriod::Month => "month"@,
        }
    }

    pub fn as_str(&self) -> (r: &'static str)
        ensures
            r@ == self.token(),
    {
        match *self {
            SearchPeriod::All => "all",
            SearchPeriod::Day => "day",
            SearchPeriod::Week => "week",
            SearchPeriod::Month => "month",
        }
    }
}

/// Enum to set the search `mode` param.
#[derive(Debug, Clone, Copy, PartialEq, Eq, Structural)]
pub enum SearchMode {
    Text,
    Tag,
    ExactTag,
    Caption,
}

impl SearchMode {
    /// The token that stands for this variant on the wire.
    pub open spec fn token(self) -> Seq<char> {
        match self {
            SearchMode::Text => "text"@,
            SearchMode::Tag => "tag"@,
            SearchMode::ExactTag => "exact_tag"@,
            SearchMode::Caption => "caption"@,
        }
    }

    pub fn as_str(&self) -> (r: &'static str)
        ensures
            r@ == self.token(),
    {
        match *self {
            SearchMode::Text => "text",
            SearchMode::Tag => "tag",
            SearchMode::ExactTag => "exact_tag",
            SearchMode::Caption => "caption",
        }
    }
}

/// Enum to set the search `order` param.
#[derive(Debug, Clone, Copy, PartialEq, Eq, Structural)]
pub enum SearchOrder {
    Descending,
    Ascending,
}

impl SearchOrder {
    /// The token that stands for this variant on the wire.
    pub open spec fn token(self) -> Seq<char> {
        match self {
            SearchOrder::Descending => "desc"@,
            SearchOrder::Ascending => "asc"@,
        }
    }

    pub fn as_str(&self) -> (r: &'static str)
        ensures
            r@ == self.token(),
    {
        match *self {
            SearchOrder::Descending => "desc",
            SearchOrder::Ascending => "asc",
        }
    }
}

/// Which fields an illustration search matches against.
#[derive(Debug, Clone, Copy, PartialEq, Eq, Structural)]
pub enum SearchTarget {
    TagsPartial,
    TagsExact,
    TitleAndCaption,
}

impl SearchTarget {
    /// The token that stands for this variant on the wire.
    pub open spec fn token(self) -> Seq<char> {
        match self {
            SearchTarget::TagsPartial => "partial_match_for_tags"@,
            SearchTarget::TagsExact => "exact_match_for_tags"@,
            SearchTarget::TitleAndCaption => "title_and_caption"@,
        }
    }

    pub fn as_str(&self) -> (r: &'static str)
        ensures
            r@ == self.token(),
    {
        match *self {
            SearchTarget::TagsPartial => "partial_match_for_tags",
            SearchTarget::TagsExact => "exact_match_for_tags",
            SearchTarget::TitleAndCaption => "title_and_caption",
        }
    }
}

/// Result order of an illustration search.
#[derive(Debug, Clone, Copy, PartialEq, Eq, Structural)]
pub enum SearchSort {
    DateDescending,
    DateAscending,
    PopularDescending,
}

impl SearchSort {
    /// The token that stands for this variant on the wire.
    pub open spec fn token(self) -> Seq<char> {
        match self {
            SearchSort::DateDescending => "date_desc"@,
            SearchSort::DateAscending => "date_asc"@,
            SearchSort::PopularDescending => "popular_desc"@,
        }
    }

    pub fn as_str(&self) -> (r: &'static str)
        ensures
            r@ == self.token(),
    {
        match *self {
            SearchSort::DateDescending => "date_desc",
            SearchSort::DateAscending => "date_asc",
            SearchSort::PopularDescending => "popular_desc",
        }
    }
}

/// Time window of an illustration search.
#[derive(Debug, Clone, Copy, PartialEq, Eq, Structural)]
pub enum Duration {
    LastDay,
    LastWeek,
    LastMonth,
}

impl Duration {
    /// The token that stands for this variant on the wire.
    pub open spec fn token(self) -> Seq<char> {
        match self {
            Duration::LastDay => "within_last_day"@,
            Duration::LastWeek => "within_last_week"@,
            Duration::LastMonth => "within_last_month"@,
        }
    }

    pub fn as_str(&self) -> (r: &'static str)
        ensures
            r@ == self.token(),
    {
        match *self {
            Duration::LastDay => "within_last_day",
            Duration::LastWeek => "within_last_week",
            Duration::LastMonth => "within_last_month",
        }
    }
}

/// HTTP method of a request.
#[derive(Debug, Clone, Copy, PartialEq, Eq, Structural)]
pub enum Method {
    Get,
    Post,
    Delete,
}

impl Method {
    /// The token that stands for this variant on the wire.
    pub open spec fn token(self) -> Seq<char> {
        match self {
            Method::Get => "GET"@,
            Method::Post => "POST"@,
            Method::Delete => "DELETE"@,
        }
    }

    pub fn as_str(&self) -> (r: &'static str)
        ensures
            r@ == self.token(),
    {
        match *self {
            Method::Get => "GET",
            Method::Post => "POST",
            Method::Delete => "DELETE",
        }
    }
}

/// Each `Publicity` variant has a non-empty token of its own: no two variants
/// share one.
pub proof fn lemma_publicity_tokens(a: Publicity, b: Publicity)
    ensures
        a.token().len() > 0,
        a != b ==> a.token() != b.token(),
{
    reveal_strlit("public");
    assert("public"@.len() == 6 && "public"@[0] == 'p');
    reveal_strlit("private");
    assert("private"@.len() == 7 && "private"@[0] == 'p');
}

/// Each `RankingType` variant has a non-empty token of its own: no two variants
/// share one.
pub proof fn lemma_ranking_type_tokens(a: RankingType, b: RankingType)
    ensures
        a.token().len() > 0,
        a != b ==> a.token() != b.token(),
{
    reveal_strlit("all");
    assert("all"@.len() == 3 && "all"@[0] == 'a');
    reveal_strlit("illust");
    assert("illust"@.len() == 6 && "illust"@[0] == 'i');
    reveal_strlit("manga");
    assert("manga"@.len() == 5 && "manga"@[0] == 'm');
    reveal_strlit("ugoira");
    assert("ugoira"@.len() == 6 && "ugoira"@[0] == 'u');
}

/// Each `RankingMode` variant has a non-empty token of its own: no two variants
/// share one.
pub proof fn lemma_ranking_mode_tokens(a: RankingMode, b: RankingMode)
    ensures
        a.token().len() > 0,
        a != b ==> a.token() != b.token(),
{
    reveal_strlit("daily");
    assert("daily"@.len() == 5 && "daily"@[0] == 'd');
    reveal_strlit("weekly");
    assert("weekly"@.len() == 6 && "weekly"@[0] == 'w');
    reveal_strlit("monthly");
    assert("monthly"@.len() == 7 && "monthly"@[0] == 'm');
    reveal_strlit("rookie");
    assert("rookie"@.len() == 6 && "rookie"@[0] == 'r');
    reveal_strlit("original");
    assert("original"@.len() == 8 && "original"@[0] == 'o');
    reveal_strlit("male");
    assert("male"@.len() == 4 && "male"@[0] == 'm');
    reveal_strlit("female");
    assert("female"@.len() == 6 && "female"@[0] == 'f');
    reveal_strlit("daily_r18");
    assert("daily_r18"@.len() == 9 && "daily_r18"@[0] == 'd');
    reveal_strlit("weekly_r18");
    assert("weekly_r18"@.len() == 10 && "weekly_r18"@[0] == 'w');
    reveal_strlit("male_r18");
    assert("male_r18"@.len() == 8 && "male_r18"@[0] == 'm');
    reveal_strlit("female_r18");
    assert("female_r18"@.len() == 10 && "female_r18"@[0] == 'f');
    reveal_strlit("r18g");
    assert("r18g"@.len() == 4 && "r18g"@[0] == 'r');
}

/// Each `SearchPeriod` variant has a non-empty token of its own: no two variants
/// share one.
pub proof fn lemma_search_period_tokens(a: SearchPeriod, b: SearchPeriod)
    ensures
        a.token().len() > 0,
        a != b ==> a.token() != b.token(),
{
    reveal_strlit("all");
    assert("all"@.len() == 3 && "all"@[0] == 'a');
    reveal_strlit("day");
    assert("day"@.len() == 3 && "day"@[0] == 'd');
    reveal_strlit("week");
    assert("week"@.len() == 4 && "week"@[0] == 'w');
    reveal_strlit("month");
    assert("month"@.len() == 5 && "month"@[0] == 'm');
}

/// Each `SearchMode` variant has a non-empty token of its own: no two variants
/// share one.
pub proof fn lemma_search_mode_tokens(a: SearchMode, b: SearchMode)
    ensures
        a.token().len() > 0,
        a != b ==> a.token() != b.token(),
{
    reveal_strlit("text");
    assert("text"@.len() == 4 && "text"@[0] == 't');
    reveal_strlit("tag");
    assert("tag"@.len() == 3 && "tag"@[0] == 't');
    reveal_strlit("exact_tag");
    assert("exact_tag"@.len() == 9 && "exact_tag"@[0] == 'e');
    reveal_strlit("caption");
    assert("caption"@.len() == 7 && "caption"@[0] == 'c');
}

/// Each `SearchOrder` variant has a non-empty token of its own: no two variants
/// share one.
pub proof fn lemma_search_order_tokens(a: SearchOrder, b: SearchOrder)
    ensures
        a.token().len() > 0,
        a != b ==> a.token() != b.token(),
{
    reveal_strlit("desc");
    assert("desc"@.len() == 4 && "desc"@[0] == 'd');
    reveal_strlit("asc");
    assert("asc"@.len() == 3 && "asc"@[0] == 'a');
}

/// Each `SearchTarget` variant has a non-empty token of its own: no two variants
/// share one.
pub proof fn lemma_search_target_tokens(a: SearchTarget, b: SearchTarget)
    ensures
        a.token().len() > 0,
        a != b ==> a.token() != b.token(),
{
    reveal_strlit("partial_match_for_tags");
    assert("partial_match_for_tags"@.len() == 22 && "partial_match_for_tags"@[0] == 'p');
    reveal_strlit("exact_match_for_tags");
    assert("exact_match_for_tags"@.len() == 20 && "exact_match_for_tags"@[0] == 'e');
    reveal_strlit("title_and_caption");
    assert("title_and_caption"@.len() == 17 && "title_and_caption"@[0] == 't');
}

/// Each `SearchSort` variant has a non-empty token of its own: no two variants
/// share one.
pub proof fn lemma_search_sort_tokens(a: SearchSort, b: SearchSort)
    ensures
        a.token().len() > 0,
        a != b ==> a.token() != b.token(),
{
    reveal_strlit("date_desc");
    assert("date_desc"@.len() == 9 && "date_desc"@[0] == 'd');
    reveal_strlit("date_asc");
    assert("date_asc"@.len() == 8 && "date_asc"@[0] == 'd');
    reveal_strlit("popular_desc");
    assert("popular_desc"@.len() == 12 && "popular_desc"@[0] == 'p');
}

/// Each `Duration` variant has a non-empty token of its own: no two variants
/// share one.
pub proof fn lemma_duration_tokens(a: Duration, b: Duration)
    ensures
        a.token().len() > 0,
        a != b ==> a.token() != b.token(),
{
    reveal_strlit("within_last_day");
    assert("within_last_day"@.len() == 15 && "within_last_day"@[0] == 'w');
    reveal_strlit("within_last_week");
    assert("within_last_week"@.len() == 16 && "within_last_week"@[0] == 'w');
    reveal_strlit("within_last_month");
    assert("within_last_month"@.len() == 17 && "within_last_month"@[0] == 'w');
}

/// Each `Method` variant has a non-empty token of its own: no two variants
/// share one.
pub proof fn lemma_method_tokens(a: Method, b: Method)
    ensures
        a.token().len() > 0,
        a != b ==> a.token() != b.token(),
{
    reveal_strlit("GET");
    assert("GET"@.len() == 3 && "GET"@[0] == 'G');
    reveal_strlit("POST");
    assert("POST"@.len() == 4 && "POST"@[0] == 'P');
    reveal_strlit("DELETE");
    assert("DELETE"@.len() == 6 && "DELETE"@[0] == 'D');
}

} // verus!
