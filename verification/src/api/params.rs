//! Request parameters, and the page sizes the endpoints derive from them.

use vstd::prelude::*;

verus! {

/// The page size for a request: the requested size, or `default`, capped
/// at `max` (a negative request is passed on as it is).
pub open spec fn page_limit_of(requested: Option<i64>, default: i64, max: i64) -> i64 {
    let l = match requested {
        Some(l) => l,
        None => default,
    };
    if l < max {
        l
    } else {
        max
    }
}

/// The page size for a request.
pub fn page_limit(requested: Option<i64>, default: i64, max: i64) -> (r: i64)
    ensures
        r == page_limit_of(requested, default, max),
{
    let l = match requested {
        Some(l) => l,
        None => default,
    };
    if l < max {
        l
    } else {
        max
    }
}

/// A page is never larger than the endpoint's cap.
pub proof fn law_page_limit_capped(requested: Option<i64>, default: i64, max: i64)
    ensures
        page_limit_of(requested, default, max) <= max,
        requested is None && default <= max ==> page_limit_of(requested, default, max) == default,
{
}

/// A requested page size is honoured up to the cap: a request for `l`
/// pages `l` items when `l` is within the cap and the cap otherwise, and
/// the default plays no part once a size is requested.
pub proof fn law_requested_page_size_honoured(l: i64, default: i64, other_default: i64, max: i64)
    ensures
        l <= max ==> page_limit_of(Some(l), default, max) == l,
        l > max ==> page_limit_of(Some(l), default, max) == max,
        page_limit_of(Some(l), default, max) == page_limit_of(Some(l), other_default, max),
{
}

#[derive(Debug)]
pub struct GetProfileParams {
    pub actor: String,
}

#[derive(Debug)]
pub struct GetProfilesParams {
    pub actors: Vec<String>,
}

#[derive(Debug)]
pub struct SearchActorsParams {
    pub term: String,
    pub limit: Option<i64>,
    pub cursor: Option<String>,
}

impl SearchActorsParams {
    /// 25 by default, at most 100.
    pub fn page_size(&self) -> (r: i64)
        ensures
            r == page_limit_of(self.limit, 25, 100),
    {
        page_limit(self.limit, 25, 100)
    }
}

#[derive(Debug)]
pub struct SearchActorsTypeaheadParams {
    pub term: String,
    pub limit: Option<i64>,
}

impl SearchActorsTypeaheadParams {
    /// 10 by default, at most 20.
    pub fn page_size(&self) -> (r: i64)
        ensures
            r == page_limit_of(self.limit, 10, 20),
    {
        page_limit(self.limit, 10, 20)
    }
}

#[derive(Debug)]
pub struct GetSuggestionsParams {
    pub limit: Option<i64>,
    pub cursor: Option<String>,
}

impl GetSuggestionsParams {
    /// 25 by default, at most 50.
    pub fn page_size(&self) -> (r: i64)
        ensures
            r == page_limit_of(self.limit, 25, 50),
    {
        page_limit(self.limit, 25, 50)
    }
}

#[derive(Debug)]
pub struct GetTimelineParams {
    pub algorithm: Option<String>,
    pub limit: Option<i64>,
    pub cursor: Option<String>,
}

impl GetTimelineParams {
    /// 20 by default, at most 100.
    pub fn page_size(&self) -> (r: i64)
        ensures
            r == page_limit_of(self.limit, 20, 100),
    {
        page_limit(self.limit, 20, 100)
    }
}

#[derive(Debug)]
pub struct GetAuthorFeedParams {
    pub actor: String,
    pub limit: Option<i64>,
    pub cursor: Option<String>,
    pub filter: Option<String>,
}

impl GetAuthorFeedParams {
    /// 20 by default, at most 100.
    pub fn page_size(&self) -> (r: i64)
        ensures
            r == page_limit_of(self.limit, 20, 100),
    {
        page_limit(self.limit, 20, 100)
    }

    /// The feed filter, `posts_no_replies` by default.
    pub fn filter_or_default(&self) -> (r: &str)
        ensures
            r@ == match self.filter {
                Some(f) => f@,
                None => "posts_no_replies"@,
            },
    {
        match &self.filter {
            Some(f) => f.as_str(),
            None => "posts_no_replies",
        }
    }
}

#[derive(Debug)]
pub struct GetFeedParams {
    pub feed: String,
    pub limit: Option<i64>,
    pub cursor: Option<String>,
}

#[derive(Debug)]
pub struct GetPostThreadParams {
    pub uri: String,
    pub depth: Option<i64>,
    pub parent_height: Option<i64>,
}

impl GetPostThreadParams {
    /// The reply depth: 6 by default, at most 1000.
    pub fn depth_or_default(&self) -> (r: i64)
        ensures
            r == page_limit_of(self.depth, 6, 1000),
    {
        page_limit(self.depth, 6, 1000)
    }
}

#[derive(Debug)]
pub struct GetPostsParams {
    pub uris: Vec<String>,
}

#[derive(Debug)]
pub struct GetLikesParams {
    pub uri: String,
    pub cid: Option<String>,
    pub limit: Option<i64>,
    pub cursor: Option<String>,
}

impl GetLikesParams {
    /// 50 by default, at most 100.
    pub fn page_size(&self) -> (r: i64)
        ensures
            r == page_limit_of(self.limit, 50, 100),
    {
        page_limit(self.limit, 50, 100)
    }
}

#[derive(Debug)]
pub struct GetRepostedByParams {
    pub uri: String,
    pub cid: Option<String>,
    pub limit: Option<i64>,
    pub cursor: Option<String>,
}

impl GetRepostedByParams {
    /// 50 by default, at most 100.
    pub fn page_size(&self) -> (r: i64)
        ensures
            r == page_limit_of(self.limit, 50, 100),
    {
        page_limit(self.limit, 50, 100)
    }
}

#[derive(Debug)]
pub struct SearchPostsParams {
    pub term: String,
    pub limit: Option<i64>,
    pub cursor: Option<String>,
}

impl SearchPostsParams {
    /// 20 by default, at most 100.
    pub fn page_size(&self) -> (r: i64)
        ensures
            r == page_limit_of(self.limit, 20, 100),
    {
        page_limit(self.limit, 20, 100)
    }
}

#[derive(Debug)]
pub struct GetFeedGeneratorParams {
    pub feed: String,
}

#[derive(Debug)]
pub struct GetFeedGeneratorsParams {
    pub feeds: Vec<String>,
}

#[derive(Debug)]
pub struct GetListFeedParams {
    pub list: String,
    pub limit: Option<i64>,
    pub cursor: Option<String>,
}

/// Parameters of the graph listings that page through one actor's follows
/// or followers, a list's items, or an actor's lists: 20 per page by
/// default, at most 100.
#[derive(Debug)]
pub struct GetFollowsParams {
    pub actor: String,
    pub limit: Option<i64>,
    pub cursor: Option<String>,
}

impl GetFollowsParams {
    pub fn page_size(&self) -> (r: i64)
        ensures
            r == page_limit_of(self.limit, 20, 100),
    {
        page_limit(self.limit, 20, 100)
    }
}

#[derive(Debug)]
pub struct GetFollowersParams {
    pub actor: String,
    pub limit: Option<i64>,
    pub cursor: Option<String>,
}

impl GetFollowersParams {
    pub fn page_size(&self) -> (r: i64)
        ensures
            r == page_limit_of(self.limit, 20, 100),
    {
        page_limit(self.limit, 20, 100)
    }
}

#[derive(Debug)]
pub struct GetKnownFollowersParams {
    pub actor: String,
    pub viewer: String,
    pub limit: Option<i64>,
    pub cursor: Option<String>,
}

impl GetKnownFollowersParams {
    pub fn page_size(&self) -> (r: i64)
        ensures
            r == page_limit_of(self.limit, 20, 100),
    {
        page_limit(self.limit, 20, 100)
    }
}

#[derive(Debug)]
pub struct GetBlocksParams {
    pub limit: Option<i64>,
    pub cursor: Option<String>,
}

impl GetBlocksParams {
    pub fn page_size(&self) -> (r: i64)
        ensures
            r == page_limit_of(self.limit, 20, 100),
    {
        page_limit(self.limit, 20, 100)
    }
}

#[derive(Debug)]
pub struct GetMutesParams {
    pub limit: Option<i64>,
    pub cursor: Option<String>,
}

impl GetMutesParams {
    pub fn page_size(&self) -> (r: i64)
        ensures
            r == page_limit_of(self.limit, 20, 100),
    {
        page_limit(self.limit, 20, 100)
    }
}

#[derive(Debug)]
pub struct GetListParams {
    pub list: String,
    pub limit: Option<i64>,
    pub cursor: Option<String>,
}

impl GetListParams {
    pub fn page_size(&self) -> (r: i64)
        ensures
            r == page_limit_of(self.limit, 20, 100),
    {
        page_limit(self.limit, 20, 100)
    }
}

#[derive(Debug)]
pub struct GetListsParams {
    pub actor: String,
    pub limit: Option<i64>,
    pub cursor: Option<String>,
}

impl GetListsParams {
    pub fn page_size(&self) -> (r: i64)
        ensures
            r == page_limit_of(self.limit, 20, 100),
    {
        page_limit(self.limit, 20, 100)
    }
}

#[derive(Debug)]
pub struct ListNotificationsParams {
    pub limit: Option<i64>,
    pub cursor: Option<String>,
    pub seen_at: Option<String>,
}

impl ListNotificationsParams {
    /// 25 by default, at most 100.
    pub fn page_size(&self) -> (r: i64)
        ensures
            r == page_limit_of(self.limit, 25, 100),
    {
        page_limit(self.limit, 25, 100)
    }
}

#[derive(Debug)]
pub struct GetUnreadCountParams {
    pub seen_at: Option<String>,
}

#[derive(Debug)]
pub struct GetPopularFeedGeneratorsParams {
    pub limit: Option<i64>,
    pub cursor: Option<String>,
}

impl GetPopularFeedGeneratorsParams {
    /// 10 by default, at most 100.
    pub fn page_size(&self) -> (r: i64)
        ensures
            r == page_limit_of(self.limit, 10, 100),
    {
        page_limit(self.limit, 10, 100)
    }
}

} // verus!
