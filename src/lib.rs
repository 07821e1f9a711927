//! Request construction for the pixiv REST API: an endpoint catalog that
//! seeds builders with each endpoint's defaults, and a builder that merges
//! overrides and renders the final URL-encoded request descriptor.

pub mod auth;
pub mod catalog;
pub mod enums;
pub mod params;
pub mod request;
pub mod search_arg;
pub mod text;

pub use auth::AuthError;
pub use enums::{
    Duration, Method, Publicity, RankingMode, RankingType, SearchMode, SearchOrder, SearchPeriod,
    SearchSort, SearchTarget,
};
pub use request::{BuildError, PixivRequest, PixivRequestBuilder, Url};
pub use search_arg::{IllustrationSearchParamIterator, IllustrationSearchRequestArg};
pub use text::{comma_delimited, comma_delimited_ids, decimal_string};
