//! The content APIs of bulk data and how long their contents take to be
//! published.

use vstd::prelude::*;
use crate::text::str_equal;

verus! {

/// The content APIs bulk data is spread over, in order.
pub open spec fn bulk_api_names() -> Seq<Seq<char>> {
    seq!["blogs"@, "authors"@, "news"@, "categories"@, "pages"@, "advertisements"@, "tags"@,
        "labels"@, "papers"@, "cards"@]
}

/// Returns the content APIs bulk data is spread over.
pub fn bulk_apis() -> (r: Vec<&'static str>)
    ensures
        r@.len() == 10,
        forall|i: int| 0 <= i < 10 ==> (#[trigger] r@[i])@ == bulk_api_names()[i],
{
    vec!["blogs", "authors", "news", "categories", "pages", "advertisements", "tags", "labels",
        "papers", "cards"]
}

/// How long contents of one API take: days from creation to publication
/// and from the first draft to publication, before per-content variation.
#[derive(Clone, Copy, Debug)]
pub struct ApiTimingProfile {
    pub api: &'static str,
    pub publish_lead_base_days: i64,
    pub draft_to_publish_base_days: i64,
}

/// The profile of an API as (name, publish lead days, draft-to-publish
/// days); APIs outside the bulk set get the default profile named `*`.
pub open spec fn timing_profile_spec(api: Seq<char>) -> (Seq<char>, i64, i64) {
    if api == "blogs"@ {
        ("blogs"@, 1, 4)
    } else if api == "authors"@ {
        ("authors"@, 2, 2)
    } else if api == "news"@ {
        ("news"@, 4, 10)
    } else if api == "categories"@ {
        ("categories"@, 3, 6)
    } else if api == "pages"@ {
        ("pages"@, 8, 18)
    } else if api == "advertisements"@ {
        ("advertisements"@, 5, 7)
    } else if api == "tags"@ {
        ("tags"@, 1, 1)
    } else if api == "labels"@ {
        ("labels"@, 1, 1)
    } else if api == "papers"@ {
        ("papers"@, 14, 24)
    } else if api == "cards"@ {
        ("cards"@, 4, 5)
    } else {
        ("*"@, 5, 8)
    }
}

/// The profile's fields match the specification of `api`.
pub open spec fn profile_of(p: ApiTimingProfile, api: Seq<char>) -> bool {
    let (name, lead, draft) = timing_profile_spec(api);
    p.api@ == name && p.publish_lead_base_days == lead && p.draft_to_publish_base_days == draft
}

fn profile(api: &'static str, lead: i64, draft: i64) -> (p: ApiTimingProfile)
    ensures
        p.api@ == api@,
        p.publish_lead_base_days == lead,
        p.draft_to_publish_base_days == draft,
{
    ApiTimingProfile { api, publish_lead_base_days: lead, draft_to_publish_base_days: draft }
}

/// Returns the timing profile of an API.
pub fn api_timing_profile(api: &str) -> (p: ApiTimingProfile)
    ensures
        profile_of(p, api@),
{
    if str_equal(api, "blogs") {
        profile("blogs", 1, 4)
    } else if str_equal(api, "authors") {
        profile("authors", 2, 2)
    } else if str_equal(api, "news") {
        profile("news", 4, 10)
    } else if str_equal(api, "categories") {
        profile("categories", 3, 6)
    } else if str_equal(api, "pages") {
        profile("pages", 8, 18)
    } else if str_equal(api, "advertisements") {
        profile("advertisements", 5, 7)
    } else if str_equal(api, "tags") {
        profile("tags", 1, 1)
    } else if str_equal(api, "labels") {
        profile("labels", 1, 1)
    } else if str_equal(api, "papers") {
        profile("papers", 14, 24)
    } else if str_equal(api, "cards") {
        profile("cards", 4, 5)
    } else {
        profile("*", 5, 8)
    }
}

impl ApiTimingProfile {
    /// Days from creation to publication of the content with this index:
    /// the base plus `index % 5`.
    pub fn publish_lead_days(self, index: u32) -> (r: i64)
        requires
            self.publish_lead_base_days <= i64::MAX - 4,
        ensures
            r == self.publish_lead_base_days + (index % 5) as i64,
    {
        self.publish_lead_base_days + (index % 5) as i64
    }

    /// Days from the first draft to publication of the content with this
    /// index: the base plus `index % 6`.
    pub fn draft_to_publish_days(self, index: u32) -> (r: i64)
        requires
            self.draft_to_publish_base_days <= i64::MAX - 5,
        ensures
            r == self.draft_to_publish_base_days + (index % 6) as i64,
    {
        self.draft_to_publish_base_days + (index % 6) as i64
    }
}

/// Days from creation to publication of content `index` of `api`.
pub open spec fn publish_lead_days_spec(api: Seq<char>, index: u32) -> int {
    timing_profile_spec(api).1 + index % 5
}

/// Days from the first draft to publication of content `index` of `api`.
pub open spec fn draft_to_publish_days_spec(api: Seq<char>, index: u32) -> int {
    timing_profile_spec(api).2 + index % 6
}

/// Returns the days from creation to publication of content `index` of `api`.
pub fn api_publish_lead_days(api: &str, index: u32) -> (r: i64)
    ensures
        r == publish_lead_days_spec(api@, index),
{
    api_timing_profile(api).publish_lead_days(index)
}

/// Returns the days from the first draft to publication of content `index`
/// of `api`.
pub fn api_draft_to_publish_days(api: &str, index: u32) -> (r: i64)
    ensures
        r == draft_to_publish_days_spec(api@, index),
{
    api_timing_profile(api).draft_to_publish_days(index)
}

/// Every bulk API has a profile of its own, named after it, with positive
/// base durations; so each content's draft-to-publish days lie within five
/// days of its API's base.
pub proof fn lemma_bulk_apis_have_profiles(i: int, index: u32)
    requires
        0 <= i < 10,
    ensures
        timing_profile_spec(bulk_api_names()[i]).0 == bulk_api_names()[i],
        timing_profile_spec(bulk_api_names()[i]).1 > 0,
        timing_profile_spec(bulk_api_names()[i]).2 > 0,
        timing_profile_spec(bulk_api_names()[i]).2 <= draft_to_publish_days_spec(bulk_api_names()[i], index)
            <= timing_profile_spec(bulk_api_names()[i]).2 + 5,
{
    reveal_strlit("blogs");
    reveal_strlit("authors");
    reveal_strlit("news");
    reveal_strlit("categories");
    reveal_strlit("pages");
    reveal_strlit("advertisements");
    reveal_strlit("tags");
    reveal_strlit("labels");
    reveal_strlit("papers");
    reveal_strlit("cards");
}

} // verus!
