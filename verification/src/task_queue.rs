//! Crawl type discriminator for crawl jobs.
use vstd::prelude::*;

use crate::text::{int_to_string, owned, push_chars};

verus! {

/// Crawl type discriminator for `CrawlJob`.
///
/// The codes match the `crawl_type` integer stored in the database and in
/// the job payload: 0 = Ranking, 1 = User, 2 = Bookmarks.
#[derive(Debug, Clone, Copy, PartialEq, Eq, Structural)]
pub enum CrawlType {
    Ranking,
    User,
    Bookmarks,
}

/// The crawl type stored under `code`, if any.
pub open spec fn crawl_type_of_code(code: int) -> Option<CrawlType> {
    if code == 0 {
        Some(CrawlType::Ranking)
    } else if code == 1 {
        Some(CrawlType::User)
    } else if code == 2 {
        Some(CrawlType::Bookmarks)
    } else {
        None
    }
}

/// The code under which a crawl type is stored.
pub open spec fn crawl_type_code(t: CrawlType) -> int {
    match t {
        CrawlType::Ranking => 0,
        CrawlType::User => 1,
        CrawlType::Bookmarks => 2,
    }
}

/// The error text for a code that names no crawl type.
pub open spec fn invalid_crawl_type_message(code: int) -> Seq<char> {
    "Invalid crawl_type: "@ + crate::text::int_text(code)
}

impl CrawlType {
    /// The code of this crawl type.
    pub fn code(&self) -> (r: i32)
        ensures
            r == crawl_type_code(*self),
    {
        match self {
            CrawlType::Ranking => 0,
            CrawlType::User => 1,
            CrawlType::Bookmarks => 2,
        }
    }

    /// The crawl type with the given code; any other code is an error that
    /// quotes it.
    pub fn try_from(value: i32) -> (r: Result<CrawlType, String>)
        ensures
            match crawl_type_of_code(value as int) {
                Some(t) => r == Ok::<CrawlType, String>(t),
                None => r matches Err(e) && e@ == invalid_crawl_type_message(value as int),
            },
    {
        match value {
            0 => Ok(CrawlType::Ranking),
            1 => Ok(CrawlType::User),
            2 => Ok(CrawlType::Bookmarks),
            _ => {
                let mut msg = owned("Invalid crawl_type: ");
                let num = int_to_string(value as i64);
                let digits = crate::text::chars_of(num.as_str());
                push_chars(&mut msg, &digits);
                Err(msg)
            },
        }
    }
}

/// Reading back the code of a crawl type gives that crawl type.
pub proof fn law_crawl_type_code_round_trip(t: CrawlType)
    ensures
        crawl_type_of_code(crawl_type_code(t)) == Some(t),
{
}

} // verus!
