//! The decisions of a crawl: what each kind of crawl asks Pixiv for, and,
//! page after page, whether to fetch another page and from where.
//!
//! The fetching itself happens outside: a caller asks for the page that
//! the pager names, hands back how many illustrations came and the
//! `next_url` that Pixiv returned, and stops when the pager says so.
use vstd::prelude::*;
use crate::clone_util::opt_text;
use crate::illust::{extract_param_from_url, url_param};
use crate::jobs::CrawlJob;
use crate::text::{
    char_byte_len, chars_of, lemma_utf8_prefix_grows, parse_unsigned, parse_unsigned_max,
    string_of, utf8_len,
};

verus! {

// ---------------------------------------------------------------------------
// What each crawl asks for
// ---------------------------------------------------------------------------

/// Where a date text can be cut after its first ten bytes: it is shorter,
/// or ten bytes end at a character boundary.
pub open spec fn cuts_at_ten_bytes(s: Seq<char>) -> bool {
    utf8_len(s) < 10 || exists|k: int| 0 <= k <= s.len() && #[trigger] utf8_len(s.take(k)) == 10
}

/// The ranking date sent for a start date: its first ten bytes (the
/// `YYYY-MM-DD` part of a timestamp), or all of it where it is shorter.
pub open spec fn is_ranking_date(s: Seq<char>, r: Seq<char>) -> bool {
    &&& r.len() <= s.len()
    &&& r == s.take(r.len() as int)
    &&& (utf8_len(s) < 10 ==> r == s)
    &&& (utf8_len(s) >= 10 ==> utf8_len(r) == 10)
}

/// The date a ranking crawl asks for: the first ten bytes of the start
/// date, or all of it where it is shorter. A date whose tenth byte falls
/// inside a character is left out: std refuses to cut there.
pub fn ranking_date(start: &str) -> (r: String)
    requires
        cuts_at_ten_bytes(start@),
    ensures
        is_ranking_date(start@, r@),
{
    let v = chars_of(start);
    let mut out: Vec<char> = Vec::new();
    let mut bytes: u64 = 0;
    let mut i: usize = 0;
    while i < v.len() && bytes < 10
        invariant
            i <= v.len(),
            v@ == start@,
            out@ == v@.take(i as int),
            bytes == utf8_len(v@.take(i as int)),
            i > 0 ==> utf8_len(v@.take(i - 1)) < 10,
        decreases v.len() - i,
    {
        assert(v@.take(i + 1).drop_last() =~= v@.take(i as int));
        let b = char_byte_len(v[i]);
        bytes = bytes + b;
        out.push(v[i]);
        i += 1;
        assert(out@ =~= v@.take(i as int));
    }
    proof {
        assert(v@.take(v.len() as int) =~= v@);
        if i < v.len() {
            lemma_utf8_prefix_grows(v@, i as int, v.len() as int);
        }
        if utf8_len(start@) >= 10 {
            assert(bytes >= 10);
            let k = choose|k: int| 0 <= k <= v@.len() && #[trigger] utf8_len(v@.take(k)) == 10;
            if k < i {
                if k < i - 1 {
                    lemma_utf8_prefix_grows(v@, k, i - 1);
                }
                assert(false);
            } else if k > i {
                lemma_utf8_prefix_grows(v@, i as int, k);
                assert(false);
            }
            assert(utf8_len(out@) == 10);
        } else {
            assert(i == v.len());
            assert(out@ == start@);
        }
        assert(out@ == start@.take(out@.len() as int));
    }
    string_of(&out)
}

/// The ranking mode a crawl asks for; `day` where the job names none.
pub fn ranking_mode(job: &CrawlJob) -> (r: String)
    ensures
        r@ == match opt_text(job.ranking_mode) {
            Some(m) => m,
            None => "day"@,
        },
{
    match &job.ranking_mode {
        Some(m) => m.clone(),
        None => crate::text::owned("day"),
    }
}

/// The kind of illustration a user crawl asks Pixiv for: the filter's one
/// kind where it holds exactly one and that is `illust` or `manga`, else
/// none (all kinds).
pub open spec fn user_illust_type_spec(filter: Option<Seq<String>>) -> Option<Seq<char>> {
    match filter {
        Some(f) => if f.len() == 1 && (f[0]@ == "illust"@ || f[0]@ == "manga"@) {
            Some(f[0]@)
        } else {
            None
        },
        None => None,
    }
}

/// The kind of illustration a user crawl asks Pixiv for.
pub fn user_illust_type(filter: &Option<Vec<String>>) -> (r: Option<String>)
    ensures
        opt_text(r) == user_illust_type_spec(crate::clone_util::opt_strings_view(*filter)),
{
    match filter {
        Some(f) => {
            if f.len() == 1 && (crate::text::str_eq(f[0].as_str(), "illust")
                || crate::text::str_eq(f[0].as_str(), "manga")) {
                Some(f[0].clone())
            } else {
                None
            }
        },
        None => None,
    }
}

/// Why a user crawl cannot start.
#[derive(PartialEq, Eq, Structural, Clone, Copy, Debug)]
pub enum TargetUserError {
    /// The job names no user.
    Missing,
    /// The user's ID is not an unsigned 64-bit number.
    Invalid,
}

impl TargetUserError {
    /// The message the crawl fails with.
    pub fn message(&self) -> (r: String)
        ensures
            r@ == match *self {
                TargetUserError::Missing => "missing target_user_id"@,
                TargetUserError::Invalid => "invalid target_user_id"@,
            },
    {
        match self {
            TargetUserError::Missing => crate::text::owned("missing target_user_id"),
            TargetUserError::Invalid => crate::text::owned("invalid target_user_id"),
        }
    }
}

/// The Pixiv user a user crawl walks through: the job's `target_user_id`
/// read as an unsigned 64-bit decimal.
pub fn target_user(job: &CrawlJob) -> (r: Result<u64, TargetUserError>)
    ensures
        match opt_text(job.target_user_id) {
            None => r == Err::<u64, TargetUserError>(TargetUserError::Missing),
            Some(t) => match parse_unsigned(t, u64::MAX as int) {
                Some(x) => r == Ok::<u64, TargetUserError>(x as u64),
                None => r == Err::<u64, TargetUserError>(TargetUserError::Invalid),
            },
        },
{
    match &job.target_user_id {
        None => Err(TargetUserError::Missing),
        Some(t) => match parse_unsigned_max(t.as_str(), u64::MAX) {
            Some(x) => Ok(x),
            None => Err(TargetUserError::Invalid),
        },
    }
}

/// The tags a bookmarks crawl searches for: the job's search prompt,
/// where it is set and not empty.
pub fn bookmark_tags(job: &CrawlJob) -> (r: Option<String>)
    ensures
        opt_text(r) == match opt_text(job.target_search_prompt) {
            Some(t) => if t.len() > 0 {
                Some(t)
            } else {
                None
            },
            None => None,
        },
{
    match &job.target_search_prompt {
        Some(t) => {
            let v = chars_of(t.as_str());
            if v.len() > 0 {
                Some(t.clone())
            } else {
                None
            }
        },
        None => None,
    }
}

// ---------------------------------------------------------------------------
// Paging
// ---------------------------------------------------------------------------

/// Where the next page of a crawl starts.
#[derive(PartialEq, Eq, Structural, Clone, Copy, Debug)]
pub enum Cursor {
    /// Ranking and user crawls: the number of illustrations already seen.
    Offset(u32),
    /// Bookmark crawls: the bookmark ID the next page starts below, if any.
    Bookmark(Option<u64>),
}

/// The paging state of one crawl.
#[derive(PartialEq, Eq, Structural, Clone, Copy, Debug)]
pub struct CrawlPager {
    /// The most pages to fetch; 0 for no limit.
    pub max_pages: u32,
    /// The pages that held illustrations so far.
    pub pages_processed: u32,
    /// Where the next page starts.
    pub cursor: Cursor,
}

/// What a crawl does after a page: the pager after it, and whether to
/// fetch another page.
pub open spec fn pager_step(p: CrawlPager, count: nat, next_url: Option<Seq<char>>) -> (
    CrawlPager,
    bool,
) {
    if count == 0 {
        (p, false)
    } else {
        let counted = CrawlPager { pages_processed: (p.pages_processed + 1) as u32, ..p };
        if p.max_pages > 0 && p.pages_processed + 1 >= p.max_pages {
            (counted, false)
        } else {
            match next_url {
                None => (counted, false),
                Some(u) => match p.cursor {
                    Cursor::Offset(o) => (
                        CrawlPager { cursor: Cursor::Offset((o + count) as u32), ..counted },
                        true,
                    ),
                    Cursor::Bookmark(_) => match url_param(u, "max_bookmark_id"@) {
                        None => (counted, false),
                        Some(id) => (
                            CrawlPager {
                                cursor: Cursor::Bookmark(
                                    match parse_unsigned(id, u64::MAX as int) {
                                        Some(x) => Some(x as u64),
                                        None => None,
                                    },
                                ),
                                ..counted
                            },
                            true,
                        ),
                    },
                },
            }
        }
    }
}

/// The offset an offset cursor holds.
pub open spec fn offset_of(c: Cursor) -> int {
    match c {
        Cursor::Offset(o) => o as int,
        Cursor::Bookmark(_) => 0,
    }
}

/// Whether the step after a page moves an offset cursor forward.
pub open spec fn moves_offset(p: CrawlPager, count: nat, next_url: Option<Seq<char>>) -> bool {
    &&& count > 0
    &&& !(p.max_pages > 0 && p.pages_processed + 1 >= p.max_pages)
    &&& next_url is Some
    &&& p.cursor is Offset
}

/// The pager's invariant: with a page limit, fewer pages than the limit
/// have been counted while fetching goes on.
pub open spec fn pager_wf(p: CrawlPager) -> bool {
    p.max_pages > 0 ==> p.pages_processed < p.max_pages
}

impl CrawlPager {
    /// A pager at the first page: offset 0 for ranking and user crawls, no
    /// bookmark ID for bookmark crawls; `max_pages` of `None` or 0 means
    /// no limit.
    pub fn new(by_bookmark: bool, max_pages: Option<u32>) -> (r: CrawlPager)
        ensures
            r.max_pages == match max_pages {
                Some(m) => m,
                None => 0,
            },
            r.pages_processed == 0,
            r.cursor == (if by_bookmark {
                Cursor::Bookmark(None)
            } else {
                Cursor::Offset(0)
            }),
            pager_wf(r),
    {
        let m = match max_pages {
            Some(m) => m,
            None => 0,
        };
        CrawlPager {
            max_pages: m,
            pages_processed: 0,
            cursor: if by_bookmark {
                Cursor::Bookmark(None)
            } else {
                Cursor::Offset(0)
            },
        }
    }

    /// After a page with `illust_count` illustrations and Pixiv's
    /// `next_url`: whether to fetch another page, from the cursor the pager
    /// then holds. An empty page ends the crawl without counting; a counted
    /// page that reaches the limit ends it; so does a missing `next_url`,
    /// or, for bookmarks, one without `max_bookmark_id` (a value that is no
    /// number restarts from the top).
    pub fn after_page(&mut self, illust_count: u32, next_url: Option<&str>) -> (more: bool)
        requires
            pager_wf(*old(self)),
            old(self).pages_processed < u32::MAX,
            moves_offset(
                *old(self),
                illust_count as nat,
                match next_url {
                    Some(u) => Some(u@),
                    None => None,
                },
            ) ==> offset_of(old(self).cursor) + illust_count <= u32::MAX,
        ensures
            (*final(self), more) == pager_step(
                *old(self),
                illust_count as nat,
                match next_url {
                    Some(u) => Some(u@),
                    None => None,
                },
            ),
            more ==> pager_wf(*final(self)),
    {
        if illust_count == 0 {
            return false;
        }
        self.pages_processed = self.pages_processed + 1;
        if self.max_pages > 0 && self.pages_processed >= self.max_pages {
            return false;
        }
        let url = match next_url {
            Some(u) => u,
            None => {
                return false;
            },
        };
        match self.cursor {
            Cursor::Offset(o) => {
                self.cursor = Cursor::Offset(o + illust_count);
                true
            },
            Cursor::Bookmark(_) => {
                match extract_param_from_url(url, "max_bookmark_id") {
                    Some(id) => {
                        self.cursor = Cursor::Bookmark(parse_unsigned_max(id.as_str(), u64::MAX));
                        true
                    },
                    None => false,
                }
            },
        }
    }
}

/// With a page limit, a crawl never fetches more pages than the limit:
/// every step that asks for another page leaves the count below it.
pub proof fn law_page_limit_respected(p: CrawlPager, count: nat, next_url: Option<Seq<char>>)
    requires
        pager_wf(p),
        p.pages_processed < u32::MAX,
    ensures
        pager_step(p, count, next_url).1 ==> pager_wf(pager_step(p, count, next_url).0),
        p.max_pages > 0 && pager_step(p, count, next_url).1 ==> pager_step(
            p,
            count,
            next_url,
        ).0.pages_processed < p.max_pages,
{
}

/// An empty page, or one without a next page, ends every crawl.
pub proof fn law_crawl_ends_without_more(p: CrawlPager, count: nat, next_url: Option<Seq<char>>)
    requires
        count == 0 || next_url is None,
    ensures
        !pager_step(p, count, next_url).1,
{
}

} // verus!
