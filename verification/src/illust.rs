//! Pages and query parameters of Pixiv illustrations: which image URLs an
//! illustration offers, which illustrations a crawl keeps, the file name
//! each page is stored under, and the value of a parameter in a paging URL.
use vstd::prelude::*;
use crate::clone_util::opt_text;
use crate::text::{
    chars_contain, chars_of, chars_start_with, dec_text, has_prefix, has_substring, pieces_match,
    push_chars, push_dec, split_chars, split_on, string_of,
};

verus! {

/// The image URLs of one page, in the sizes that Pixiv offers.
pub struct ImageUrls {
    pub original: Option<String>,
    pub large: Option<String>,
    pub medium: Option<String>,
}

/// One page of a multi-page illustration.
pub struct MetaPage {
    pub image_urls: Option<ImageUrls>,
}

/// The single page of a one-page illustration.
pub struct MetaSinglePage {
    pub original_image_url: Option<String>,
}

/// What the crawler reads of an illustration that Pixiv returned.
pub struct Illust {
    pub id: u64,
    /// The illustration's kind in lower case (`illust`, `manga`, `ugoira`).
    pub illust_type: Option<String>,
    pub x_restrict: Option<i32>,
    pub illust_ai_type: Option<i32>,
    pub visible: Option<bool>,
    pub meta_pages: Option<Vec<MetaPage>>,
    pub meta_single_page: Option<MetaSinglePage>,
    pub image_urls: Option<ImageUrls>,
}

// ---------------------------------------------------------------------------
// Pages
// ---------------------------------------------------------------------------

/// The best URL of a page: the original, else the large, else the medium one.
pub open spec fn best_url(u: ImageUrls) -> Option<Seq<char>> {
    if u.original is Some {
        opt_text(u.original)
    } else if u.large is Some {
        opt_text(u.large)
    } else {
        opt_text(u.medium)
    }
}

/// The URL a multi-page entry offers, if any.
pub open spec fn meta_page_url(p: MetaPage) -> Option<Seq<char>> {
    match p.image_urls {
        Some(u) => best_url(u),
        None => None,
    }
}

/// The label of page `i` of illustration `id`: `{id}_p{i}`.
pub open spec fn page_label(id: nat, i: nat) -> Seq<char> {
    dec_text(id) + seq!['_', 'p'] + dec_text(i)
}

/// The pages among the first `n` multi-page entries that offer a URL,
/// each with its label, in order.
pub open spec fn meta_entries(pages: Seq<MetaPage>, id: nat, n: int) -> Seq<(Seq<char>, Seq<char>)>
    decreases n,
{
    if n <= 0 {
        Seq::empty()
    } else {
        let prev = meta_entries(pages, id, n - 1);
        match meta_page_url(pages[n - 1]) {
            Some(u) => prev.push((u, page_label(id, (n - 1) as nat))),
            None => prev,
        }
    }
}

/// The URL of a one-page illustration: the single page's original, else
/// the illustration's original, else its large URL.
pub open spec fn single_page_url(il: Illust) -> Option<Seq<char>> {
    let from_single = match il.meta_single_page {
        Some(m) => opt_text(m.original_image_url),
        None => None,
    };
    if from_single is Some {
        from_single
    } else {
        match il.image_urls {
            Some(u) => if u.original is Some {
                opt_text(u.original)
            } else {
                opt_text(u.large)
            },
            None => None,
        }
    }
}

/// The pages of an illustration with their labels: the multi-page entries
/// that offer a URL, or, where there are none, the single page.
pub open spec fn image_pages(il: Illust) -> Seq<(Seq<char>, Seq<char>)> {
    let metas = match il.meta_pages {
        Some(v) => meta_entries(v@, il.id as nat, v@.len() as int),
        None => Seq::empty(),
    };
    if metas.len() > 0 {
        metas
    } else {
        match single_page_url(il) {
            Some(u) => seq![(u, page_label(il.id as nat, 0))],
            None => Seq::empty(),
        }
    }
}

/// Whether the pairs of strings `r` hold the pairs `s`.
pub open spec fn pairs_match(r: Seq<(String, String)>, s: Seq<(Seq<char>, Seq<char>)>) -> bool {
    r.len() == s.len() && forall|i: int|
        0 <= i < s.len() ==> (#[trigger] r[i]).0@ == s[i].0 && r[i].1@ == s[i].1
}

fn copy_opt(o: &Option<String>) -> (r: Option<String>)
    ensures
        opt_text(r) == opt_text(*o),
{
    match o {
        Some(s) => Some(s.clone()),
        None => None,
    }
}

fn best_url_of(u: &ImageUrls) -> (r: Option<String>)
    ensures
        opt_text(r) == best_url(*u),
{
    if u.original.is_some() {
        copy_opt(&u.original)
    } else if u.large.is_some() {
        copy_opt(&u.large)
    } else {
        copy_opt(&u.medium)
    }
}

/// The label `{id}_p{i}`.
fn page_label_of(id: u64, i: u64) -> (r: String)
    ensures
        r@ == page_label(id as nat, i as nat),
{
    let mut r = String::new();
    push_dec(&mut r, id);
    let sep = chars_of("_p");
    proof {
        reveal_strlit("_p");
    }
    push_chars(&mut r, &sep);
    push_dec(&mut r, i);
    assert(r@ =~= page_label(id as nat, i as nat));
    r
}

fn single_page_url_of(il: &Illust) -> (r: Option<String>)
    ensures
        opt_text(r) == single_page_url(*il),
{
    let from_single = match &il.meta_single_page {
        Some(m) => copy_opt(&m.original_image_url),
        None => None,
    };
    if from_single.is_some() {
        return from_single;
    }
    match &il.image_urls {
        Some(u) => if u.original.is_some() {
            copy_opt(&u.original)
        } else {
            copy_opt(&u.large)
        },
        None => None,
    }
}

/// The image pages of an illustration, each as its URL and its label
/// `{id}_p{index}`: the multi-page entries that offer a URL (the original,
/// else the large, else the medium one), labelled by their position among
/// all entries; where none does, the single page, labelled `{id}_p0`.
pub fn get_image_pages(illust: &Illust) -> (r: Vec<(String, String)>)
    ensures
        pairs_match(r@, image_pages(*illust)),
{
    let mut pages: Vec<(String, String)> = Vec::new();
    let ghost id = illust.id as nat;
    if let Some(meta_pages) = &illust.meta_pages {
        let mut i: usize = 0;
        while i < meta_pages.len()
            invariant
                i <= meta_pages.len(),
                id == illust.id as nat,
                pairs_match(pages@, meta_entries(meta_pages@, id, i as int)),
            decreases meta_pages.len() - i,
        {
            let ghost before = pages@;
            let page = &meta_pages[i];
            if let Some(urls) = &page.image_urls {
                let url = best_url_of(urls);
                if let Some(u) = url {
                    let label = page_label_of(illust.id, i as u64);
                    pages.push((u, label));
                    assert(pages@ == before.push(pages@[before.len() as int]));
                }
            }
            i += 1;
        }
    }
    if pages.len() == 0 {
        let url = single_page_url_of(illust);
        if let Some(u) = url {
            let label = page_label_of(illust.id, 0);
            pages.push((u, label));
        }
    }
    pages
}

// ---------------------------------------------------------------------------
// Which illustrations a crawl keeps
// ---------------------------------------------------------------------------

/// Why a crawl leaves an illustration out.
#[derive(PartialEq, Eq, Structural, Clone, Copy, Debug)]
pub enum SkipReason {
    /// Its kind is not among the kinds asked for.
    TypeFiltered,
    /// It is restricted (R-18 or worse) and restricted works are excluded.
    Restricted,
    /// It is AI-generated and such works are excluded.
    AiGenerated,
    /// Pixiv marks it as not visible.
    Unviewable,
    /// Its first page is a placeholder for a deleted or blocked work.
    Placeholder,
}

/// The placeholder file names that Pixiv serves in place of blocked works.
pub open spec fn is_placeholder_url(u: Seq<char>) -> bool {
    has_substring(u, "limit_unknown"@) || has_substring(u, "limit_unviewable"@) || has_substring(
        u,
        "limit_sanity_level"@,
    )
}

/// Whether the filter of kinds leaves the illustration out: a non-empty
/// filter that does not hold its kind (an unknown kind counts as empty text).
pub open spec fn type_filtered_out(il: Illust, filter: Option<Seq<String>>) -> bool {
    match filter {
        Some(types) => types.len() > 0 && !(exists|k: int|
            0 <= k < types.len() && #[trigger] types[k]@ == match opt_text(il.illust_type) {
                Some(t) => t,
                None => Seq::<char>::empty(),
            }),
        None => false,
    }
}

/// A restricted work: `x_restrict` above zero.
pub open spec fn is_restricted(il: Illust) -> bool {
    match il.x_restrict {
        Some(x) => x > 0,
        None => false,
    }
}

/// An AI-generated work: `illust_ai_type` above zero.
pub open spec fn is_ai_generated(il: Illust) -> bool {
    match il.illust_ai_type {
        Some(a) => a > 0,
        None => false,
    }
}

/// Why a crawl with these settings leaves the illustration out, checked in
/// this order: its kind, restriction, AI generation, visibility, and a
/// placeholder first page; `None` where it is kept.
pub open spec fn skip_reason_spec(
    il: Illust,
    filter: Option<Seq<String>>,
    exclude_r18: Option<bool>,
    exclude_ai: Option<bool>,
) -> Option<SkipReason> {
    let pages = image_pages(il);
    if type_filtered_out(il, filter) {
        Some(SkipReason::TypeFiltered)
    } else if exclude_r18 == Some(true) && is_restricted(il) {
        Some(SkipReason::Restricted)
    } else if exclude_ai == Some(true) && is_ai_generated(il) {
        Some(SkipReason::AiGenerated)
    } else if il.visible == Some(false) {
        Some(SkipReason::Unviewable)
    } else if pages.len() > 0 && is_placeholder_url(pages[0].0) {
        Some(SkipReason::Placeholder)
    } else {
        None
    }
}

/// A work that passes the kind, restriction, AI and visibility checks is
/// skipped as a placeholder exactly when its first page's URL names one of
/// Pixiv's placeholder images (`limit_unknown`, `limit_unviewable` or
/// `limit_sanity_level`), and kept otherwise.
pub proof fn law_placeholder_pages_skipped(
    il: Illust,
    filter: Option<Seq<String>>,
    exclude_r18: Option<bool>,
    exclude_ai: Option<bool>,
)
    requires
        !type_filtered_out(il, filter),
        !(exclude_r18 == Some(true) && is_restricted(il)),
        !(exclude_ai == Some(true) && is_ai_generated(il)),
        il.visible != Some(false),
        image_pages(il).len() > 0,
    ensures
        (skip_reason_spec(il, filter, exclude_r18, exclude_ai) == Some(SkipReason::Placeholder))
            <==> (has_substring(image_pages(il)[0].0, "limit_unknown"@) || has_substring(
            image_pages(il)[0].0,
            "limit_unviewable"@,
        ) || has_substring(image_pages(il)[0].0, "limit_sanity_level"@)),
        skip_reason_spec(il, filter, exclude_r18, exclude_ai) is None <==> !(has_substring(
            image_pages(il)[0].0,
            "limit_unknown"@,
        ) || has_substring(image_pages(il)[0].0, "limit_unviewable"@) || has_substring(
            image_pages(il)[0].0,
            "limit_sanity_level"@,
        )),
{
}

/// A crawl keeps a work exactly when it passes every check: no kind filter
/// (or an empty one) or one that holds its kind, not restricted where
/// restricted works are excluded, not AI-generated where those are
/// excluded, not marked invisible, and no placeholder as its first page.
pub proof fn law_kept_works_pass_every_check(
    il: Illust,
    filter: Option<Seq<String>>,
    exclude_r18: Option<bool>,
    exclude_ai: Option<bool>,
)
    ensures
        skip_reason_spec(il, filter, exclude_r18, exclude_ai) is None <==> {
            let kind = match opt_text(il.illust_type) {
                Some(t) => t,
                None => Seq::<char>::empty(),
            };
            let first = image_pages(il)[0].0;
            &&& match filter {
                Some(types) => types.len() == 0 || exists|k: int|
                    0 <= k < types.len() && #[trigger] types[k]@ == kind,
                None => true,
            }
            &&& !(exclude_r18 == Some(true) && (il.x_restrict matches Some(x) && x > 0))
            &&& !(exclude_ai == Some(true) && (il.illust_ai_type matches Some(a) && a > 0))
            &&& il.visible != Some(false)
            &&& !(image_pages(il).len() > 0 && (has_substring(first, "limit_unknown"@)
                || has_substring(first, "limit_unviewable"@) || has_substring(
                first,
                "limit_sanity_level"@,
            )))
        },
{
}

fn str_in(types: &Vec<String>, t: &Vec<char>) -> (r: bool)
    ensures
        r == exists|k: int| 0 <= k < types@.len() && #[trigger] types@[k]@ == t@,
{
    let mut i: usize = 0;
    while i < types.len()
        invariant
            i <= types.len(),
            forall|k: int| 0 <= k < i ==> #[trigger] types@[k]@ != t@,
        decreases types.len() - i,
    {
        let c = chars_of(types[i].as_str());
        if crate::text::chars_eq(&c, t) {
            assert(types@[i as int]@ == t@);
            return true;
        }
        i += 1;
    }
    false
}

fn contains_text(v: &Vec<char>, p: &str) -> (r: bool)
    ensures
        r == has_substring(v@, p@),
{
    let pv = chars_of(p);
    chars_contain(v, &pv)
}

/// Why a crawl with these settings leaves the illustration out, or `None`
/// where it saves it: a non-empty kind filter without its kind, a
/// restricted work (`x_restrict > 0`) where those are excluded, an
/// AI-generated one (`illust_ai_type > 0`) where those are excluded, one
/// marked not visible, or one whose first page is a placeholder.
pub fn skip_reason(
    illust: &Illust,
    illust_type_filter: &Option<Vec<String>>,
    exclude_r18: Option<bool>,
    exclude_ai: Option<bool>,
) -> (r: Option<SkipReason>)
    ensures
        r == skip_reason_spec(
            *illust,
            crate::clone_util::opt_strings_view(*illust_type_filter),
            exclude_r18,
            exclude_ai,
        ),
{
    if let Some(types) = illust_type_filter {
        if types.len() > 0 {
            let t: Vec<char> = match &illust.illust_type {
                Some(s) => chars_of(s.as_str()),
                None => Vec::new(),
            };
            assert(t@ == match opt_text(illust.illust_type) {
                Some(x) => x,
                None => Seq::<char>::empty(),
            });
            if !str_in(types, &t) {
                return Some(SkipReason::TypeFiltered);
            }
        }
    }
    if exclude_r18 == Some(true) {
        if let Some(x) = illust.x_restrict {
            if x > 0 {
                return Some(SkipReason::Restricted);
            }
        }
    }
    if exclude_ai == Some(true) {
        if let Some(a) = illust.illust_ai_type {
            if a > 0 {
                return Some(SkipReason::AiGenerated);
            }
        }
    }
    if illust.visible == Some(false) {
        return Some(SkipReason::Unviewable);
    }
    let pages = get_image_pages(illust);
    if pages.len() > 0 {
        let first = chars_of(pages[0].0.as_str());
        if contains_text(&first, "limit_unknown") || contains_text(&first, "limit_unviewable")
            || contains_text(&first, "limit_sanity_level") {
            return Some(SkipReason::Placeholder);
        }
    }
    None
}

// ---------------------------------------------------------------------------
// File names
// ---------------------------------------------------------------------------

/// The file name page `idx` of illustration `id` is stored under:
/// `{id}_p{idx}.png` where its URL contains `.png`, else `{id}_p{idx}.jpg`.
pub open spec fn image_file_name(id: nat, idx: nat, url: Seq<char>) -> Seq<char> {
    page_label(id, idx) + if has_substring(url, ".png"@) {
        seq!['.', 'p', 'n', 'g']
    } else {
        seq!['.', 'j', 'p', 'g']
    }
}

/// The file name page `idx` of illustration `id`, found at `url`, is
/// stored under.
pub fn image_path_for(id: u64, idx: u64, url: &str) -> (r: String)
    ensures
        r@ == image_file_name(id as nat, idx as nat, url@),
{
    let u = chars_of(url);
    let png = contains_text(&u, ".png");
    let mut r = page_label_of(id, idx);
    let ext = if png {
        chars_of(".png")
    } else {
        chars_of(".jpg")
    };
    proof {
        reveal_strlit(".png");
        reveal_strlit(".jpg");
    }
    push_chars(&mut r, &ext);
    assert(r@ =~= image_file_name(id as nat, idx as nat, url@));
    r
}

/// Each page of an illustration is stored under a file name of its own:
/// two different page positions never share a file name, whatever their
/// URLs.
pub proof fn law_page_file_names_distinct(id: nat, i: nat, j: nat, u1: Seq<char>, u2: Seq<char>)
    requires
        i != j,
    ensures
        image_file_name(id, i, u1) != image_file_name(id, j, u2),
{
    let a = image_file_name(id, i, u1);
    let b = image_file_name(id, j, u2);
    if a == b {
        let lead = dec_text(id) + seq!['_', 'p'];
        let l = lead.len() as int;
        assert(a =~= lead + dec_text(i) + a.subrange(a.len() - 4, a.len() as int));
        assert(b =~= lead + dec_text(j) + b.subrange(b.len() - 4, b.len() as int));
        assert(a.subrange(l, a.len() - 4) =~= dec_text(i));
        assert(b.subrange(l, b.len() - 4) =~= dec_text(j));
        crate::text::lemma_dec_text_injective(i, j);
    }
}

/// The pages of an illustration that a crawl downloads, each as its URL and
/// the file name it is stored under.
pub fn download_targets(illust: &Illust) -> (r: Vec<(String, String)>)
    ensures
        r@.len() == image_pages(*illust).len(),
        forall|i: int|
            0 <= i < r@.len() ==> (#[trigger] r@[i]).0@ == image_pages(*illust)[i].0 && r@[i].1@
                == image_file_name(illust.id as nat, i as nat, image_pages(*illust)[i].0),
{
    let pages = get_image_pages(illust);
    let mut out: Vec<(String, String)> = Vec::new();
    let mut i: usize = 0;
    while i < pages.len()
        invariant
            i <= pages.len(),
            pairs_match(pages@, image_pages(*illust)),
            out@.len() == i,
            forall|k: int|
                0 <= k < i ==> (#[trigger] out@[k]).0@ == image_pages(*illust)[k].0 && out@[k].1@
                    == image_file_name(illust.id as nat, k as nat, image_pages(*illust)[k].0),
        decreases pages.len() - i,
    {
        let url = pages[i].0.clone();
        let path = image_path_for(illust.id, i as u64, pages[i].0.as_str());
        out.push((url, path));
        i += 1;
    }
    out
}

// ---------------------------------------------------------------------------
// Query parameters
// ---------------------------------------------------------------------------

/// The first entry from position `i` on that starts with `key`.
pub open spec fn find_entry(parts: Seq<Seq<char>>, key: Seq<char>, i: int) -> Option<Seq<char>>
    decreases parts.len() - i,
{
    if i < 0 || i >= parts.len() {
        None
    } else if has_prefix(parts[i], key) {
        Some(parts[i])
    } else {
        find_entry(parts, key, i + 1)
    }
}

/// The value of `param` in `url`: the query is what follows the first `?`
/// up to a second one; its first `&`-separated entry that starts with
/// `param=` gives the text between its first and second `=`.
pub open spec fn url_param(url: Seq<char>, param: Seq<char>) -> Option<Seq<char>> {
    let q = split_on(url, '?');
    if q.len() < 2 {
        None
    } else {
        match find_entry(split_on(q[1], '&'), param.push('='), 0) {
            Some(entry) => {
                let kv = split_on(entry, '=');
                if kv.len() < 2 {
                    None
                } else {
                    Some(kv[1])
                }
            },
            None => None,
        }
    }
}

/// The value of the query parameter `param` in `url`, as the paging URLs
/// that Pixiv returns carry it (`...?a=1&max_bookmark_id=42` gives `42`
/// for `max_bookmark_id`); `None` where the URL has no query or no such
/// parameter.
pub fn extract_param_from_url(url: &str, param: &str) -> (r: Option<String>)
    ensures
        opt_text(r) == url_param(url@, param@),
{
    let u = chars_of(url);
    let q = split_chars(&u, '?');
    if q.len() < 2 {
        return None;
    }
    let entries = split_chars(&q[1], '&');
    let mut key = chars_of(param);
    key.push('=');
    assert(q@[1]@ == split_on(u@, '?')[1]);
    let ghost spec_entries = split_on(q@[1]@, '&');
    let mut i: usize = 0;
    while i < entries.len()
        invariant
            i <= entries.len(),
            pieces_match(entries@, spec_entries),
            u@ == url@,
            pieces_match(q@, split_on(u@, '?')),
            q@.len() >= 2,
            key@ == param@.push('='),
            spec_entries == split_on(q@[1]@, '&'),
            find_entry(spec_entries, key@, 0) == find_entry(spec_entries, key@, i as int),
        decreases entries.len() - i,
    {
        if chars_start_with(&entries[i], &key) {
            let kv = split_chars(&entries[i], '=');
            if kv.len() < 2 {
                return None;
            }
            return Some(string_of(&kv[1]));
        }
        i += 1;
    }
    None
}

} // verus!
