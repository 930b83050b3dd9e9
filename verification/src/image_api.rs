//! The request-side rules of the image endpoints: how an answer is given,
//! the settings of a listing, who may see an image, filters on authors and
//! tags, colour inputs, and which edits of an image are accepted.
use vstd::prelude::*;
use crate::clone_util::opt_text;
use crate::error::AppError;
use crate::text::{
    chars_of, exceeds_bytes, lowercase, owned, parse_signed, parse_signed_range, parse_unsigned,
    parse_unsigned_max, pieces_match, push_chars, split_chars, split_on, str_eq, string_of,
    to_lowercase, trim_chars, trimmed, utf8_len,
};

verus! {

// ---------------------------------------------------------------------------
// How an image is answered
// ---------------------------------------------------------------------------

/// The query of the endpoints that answer with one image.
pub struct ImageQuery {
    pub format: Option<String>,
    pub local: Option<bool>,
}

/// How an image is answered.
#[derive(PartialEq, Eq, Structural, Clone, Copy, Debug)]
pub enum ResponseMode {
    /// The file itself, read from the image directory.
    LocalFile,
    /// A temporary redirect to the image's URL.
    Redirect,
    /// The image's record as JSON.
    Json,
}

impl ImageQuery {
    /// How the image is answered: the local file where `local` is set,
    /// else a redirect where `format` is `image`, else JSON.
    pub fn response_mode(&self) -> (r: ResponseMode)
        ensures
            r == if self.local == Some(true) {
                ResponseMode::LocalFile
            } else if opt_text(self.format) == Some("image"@) {
                ResponseMode::Redirect
            } else {
                ResponseMode::Json
            },
    {
        if self.local == Some(true) {
            return ResponseMode::LocalFile;
        }
        match &self.format {
            Some(f) => if str_eq(f.as_str(), "image") {
                ResponseMode::Redirect
            } else {
                ResponseMode::Json
            },
            None => ResponseMode::Json,
        }
    }
}

/// The public URL of an image: the CDN base followed by its path.
pub fn image_src(cdn_base_url: &str, image_path: &str) -> (r: String)
    ensures
        r@ == cdn_base_url@ + image_path@,
{
    let mut r = owned(cdn_base_url);
    let p = chars_of(image_path);
    push_chars(&mut r, &p);
    r
}

/// Whether an image's details are shown: an image marked inaccessible is
/// shown to administrators only.
pub fn detail_visible(accessible: Option<bool>, is_admin: bool) -> (r: bool)
    ensures
        r == !(accessible == Some(false) && !is_admin),
{
    !(accessible == Some(false) && !is_admin)
}

// ---------------------------------------------------------------------------
// Listings
// ---------------------------------------------------------------------------

/// The orders a listing can be sorted in.
#[derive(PartialEq, Eq, Structural, Clone, Copy, Debug)]
pub enum SortKey {
    Id,
    Width,
    Height,
    AspectRatio,
    SourceCreatedAt,
    CreatedAt,
    Popularity,
    Distance,
}

/// The sort key a name stands for, where it is one of the allowed names.
pub open spec fn sort_key_of(s: Seq<char>) -> Option<SortKey> {
    if s == "id"@ {
        Some(SortKey::Id)
    } else if s == "width"@ {
        Some(SortKey::Width)
    } else if s == "height"@ {
        Some(SortKey::Height)
    } else if s == "aspect_ratio"@ {
        Some(SortKey::AspectRatio)
    } else if s == "source_created_at"@ {
        Some(SortKey::SourceCreatedAt)
    } else if s == "created_at"@ {
        Some(SortKey::CreatedAt)
    } else if s == "popularity"@ {
        Some(SortKey::Popularity)
    } else if s == "distance"@ {
        Some(SortKey::Distance)
    } else {
        None
    }
}

/// The message a listing with an unknown sort name is refused with.
pub open spec fn invalid_sort_message(s: Seq<char>) -> Seq<char> {
    "Invalid sort_by '"@ + s
        + "'. Allowed: id, width, height, aspect_ratio, source_created_at, created_at, popularity, distance"@
}

/// The sort key a listing asks for: `id` where it names none; an unknown
/// name is refused.
pub fn parse_sort_key(sort_by: Option<&str>) -> (r: Result<SortKey, AppError>)
    ensures
        match sort_by {
            None => r == Ok::<SortKey, AppError>(SortKey::Id),
            Some(s) => match sort_key_of(s@) {
                Some(k) => r == Ok::<SortKey, AppError>(k),
                None => r matches Err(AppError::BadRequest(m)) && m@ == invalid_sort_message(s@),
            },
        },
{
    let s = match sort_by {
        None => {
            return Ok(SortKey::Id);
        },
        Some(s) => s,
    };
    if str_eq(s, "id") {
        Ok(SortKey::Id)
    } else if str_eq(s, "width") {
        Ok(SortKey::Width)
    } else if str_eq(s, "height") {
        Ok(SortKey::Height)
    } else if str_eq(s, "aspect_ratio") {
        Ok(SortKey::AspectRatio)
    } else if str_eq(s, "source_created_at") {
        Ok(SortKey::SourceCreatedAt)
    } else if str_eq(s, "created_at") {
        Ok(SortKey::CreatedAt)
    } else if str_eq(s, "popularity") {
        Ok(SortKey::Popularity)
    } else if str_eq(s, "distance") {
        Ok(SortKey::Distance)
    } else {
        let mut m = owned("Invalid sort_by '");
        push_chars(&mut m, &chars_of(s));
        push_chars(
            &mut m,
            &chars_of(
                "'. Allowed: id, width, height, aspect_ratio, source_created_at, created_at, popularity, distance",
            ),
        );
        Err(AppError::BadRequest(m))
    }
}

/// The settings of an image listing.
#[derive(PartialEq, Eq, Structural, Clone, Copy, Debug)]
pub struct ListSettings {
    /// Where the page starts; at most 100000.
    pub offset: u64,
    /// The page size; at most 300.
    pub limit: u64,
    /// Whether the order is descending.
    pub desc: bool,
    pub sort: SortKey,
    /// Which accessibility the images must have, if any.
    pub accessible: Option<bool>,
}

/// The accessibility a listing asks for: administrators may ask for
/// `true` or `false` (any other value asks for none); everyone else sees
/// accessible images only.
pub open spec fn accessible_filter(accessible: Option<Seq<char>>, is_admin: bool) -> Option<bool> {
    if is_admin {
        match accessible {
            Some(a) => if a == "true"@ {
                Some(true)
            } else if a == "false"@ {
                Some(false)
            } else {
                None
            },
            None => None,
        }
    } else {
        Some(true)
    }
}

/// The settings of an image listing: offset 0 unless asked and at most
/// 100000; 30 images unless asked and at most 300; descending unless
/// `desc` is given and is not `true` in any case; the sort key, where its
/// name is allowed; and the accessibility filter.
pub fn list_settings(
    offset: Option<u64>,
    limit: Option<u64>,
    desc: Option<&str>,
    sort_by: Option<&str>,
    accessible: Option<&str>,
    is_admin: bool,
) -> (r: Result<ListSettings, AppError>)
    ensures
        match sort_by {
            Some(s) => sort_key_of(s@) is None ==> (r matches Err(AppError::BadRequest(m)) && m@
                == invalid_sort_message(s@)),
            None => true,
        },
        r matches Ok(st) ==> {
            &&& st.offset == match offset {
                Some(o) => if o < 100_000 {
                    o
                } else {
                    100_000
                },
                None => 0,
            }
            &&& st.limit == match limit {
                Some(l) => if l < 300 {
                    l
                } else {
                    300
                },
                None => 30,
            }
            &&& st.desc == match desc {
                Some(d) => lowercase(d@) == "true"@,
                None => true,
            }
            &&& st.sort == match sort_by {
                Some(s) => sort_key_of(s@)->0,
                None => SortKey::Id,
            }
            &&& st.accessible == accessible_filter(
                match accessible {
                    Some(a) => Some(a@),
                    None => None,
                },
                is_admin,
            )
        },
        r is Ok <==> match sort_by {
            Some(s) => sort_key_of(s@) is Some,
            None => true,
        },
{
    let off = match offset {
        Some(o) => if o < 100_000 {
            o
        } else {
            100_000
        },
        None => 0,
    };
    let lim = match limit {
        Some(l) => if l < 300 {
            l
        } else {
            300
        },
        None => 30,
    };
    let descending = match desc {
        Some(d) => {
            let low = to_lowercase(d);
            str_eq(low.as_str(), "true")
        },
        None => true,
    };
    let acc = if is_admin {
        match accessible {
            Some(a) => if str_eq(a, "true") {
                Some(true)
            } else if str_eq(a, "false") {
                Some(false)
            } else {
                None
            },
            None => None,
        }
    } else {
        Some(true)
    };
    let sort = parse_sort_key(sort_by)?;
    Ok(ListSettings { offset: off, limit: lim, desc: descending, sort, accessible: acc })
}

/// The width and height bounds of a listing: from 0 and up to `i32::MAX`
/// unless asked.
pub fn size_bounds(
    width_floor: Option<i32>,
    width_ceil: Option<i32>,
    height_floor: Option<i32>,
    height_ceil: Option<i32>,
) -> (r: (i32, i32, i32, i32))
    ensures
        r.0 == match width_floor {
            Some(x) => x,
            None => 0,
        },
        r.1 == match width_ceil {
            Some(x) => x,
            None => i32::MAX,
        },
        r.2 == match height_floor {
            Some(x) => x,
            None => 0,
        },
        r.3 == match height_ceil {
            Some(x) => x,
            None => i32::MAX,
        },
{
    (
        match width_floor {
            Some(x) => x,
            None => 0,
        },
        match width_ceil {
            Some(x) => x,
            None => i32::MAX,
        },
        match height_floor {
            Some(x) => x,
            None => 0,
        },
        match height_ceil {
            Some(x) => x,
            None => i32::MAX,
        },
    )
}

/// How a listing filters by author.
#[derive(Debug)]
pub enum AuthorFilter {
    /// The text is a 32-bit integer: the author with that ID.
    ById(i32),
    /// Otherwise: authors whose name contains the text.
    NameContains(String),
}

/// How a listing filters by the author text `s`.
pub fn author_filter(s: &str) -> (r: AuthorFilter)
    ensures
        match parse_signed(s@, i32::MIN as int, i32::MAX as int) {
            Some(id) => r == AuthorFilter::ById(id as i32),
            None => r matches AuthorFilter::NameContains(t) && t@ == s@,
        },
{
    proof {
        crate::text::lemma_parse_signed_bound(s@, i32::MIN as int, i32::MAX as int);
    }
    match parse_signed_range(s, i32::MIN as i64, i32::MAX as i64) {
        Some(id) => AuthorFilter::ById(id as i32),
        None => AuthorFilter::NameContains(owned(s)),
    }
}

/// The tag names of a tag filter: the text split at every comma.
pub fn tag_names(s: &str) -> (r: Vec<String>)
    ensures
        r@.len() == split_on(s@, ',').len(),
        forall|i: int| 0 <= i < r@.len() ==> #[trigger] r@[i]@ == split_on(s@, ',')[i],
{
    let v = chars_of(s);
    let parts = split_chars(&v, ',');
    let mut r: Vec<String> = Vec::new();
    let mut i: usize = 0;
    while i < parts.len()
        invariant
            i <= parts.len(),
            v@ == s@,
            pieces_match(parts@, split_on(v@, ',')),
            r@.len() == i,
            forall|k: int| 0 <= k < i ==> #[trigger] r@[k]@ == split_on(s@, ',')[k],
        decreases parts.len() - i,
    {
        r.push(string_of(&parts[i]));
        i += 1;
    }
    r
}

/// One tag of an image as a listing shows it.
#[derive(Debug)]
pub struct TagInfo {
    pub id: i32,
    pub name: String,
    pub translated_name: Option<String>,
}

impl TagInfo {
    /// A copy of the tag.
    pub fn copy(&self) -> (r: TagInfo)
        ensures
            r == *self,
    {
        TagInfo {
            id: self.id,
            name: self.name.clone(),
            translated_name: crate::clone_util::copy_opt_string(&self.translated_name),
        }
    }
}

/// The tags of image `image_id` among rows of image IDs and tags, in
/// the rows' order.
pub open spec fn tags_of_spec(rows: Seq<(i32, TagInfo)>, image_id: i32) -> Seq<TagInfo>
    decreases rows.len(),
{
    if rows.len() == 0 {
        Seq::empty()
    } else {
        let prev = tags_of_spec(rows.drop_last(), image_id);
        if rows.last().0 == image_id {
            prev.push(rows.last().1)
        } else {
            prev
        }
    }
}

/// The tags of image `image_id` among rows of image IDs and tags, in the
/// rows' order.
pub fn tags_of(rows: &Vec<(i32, TagInfo)>, image_id: i32) -> (r: Vec<TagInfo>)
    ensures
        r@ == tags_of_spec(rows@, image_id),
{
    let mut r: Vec<TagInfo> = Vec::new();
    let mut i: usize = 0;
    while i < rows.len()
        invariant
            i <= rows.len(),
            r@ == tags_of_spec(rows@.take(i as int), image_id),
        decreases rows.len() - i,
    {
        assert(rows@.take(i + 1).drop_last() =~= rows@.take(i as int));
        if rows[i].0 == image_id {
            r.push(rows[i].1.copy());
        }
        i += 1;
    }
    assert(rows@.take(rows.len() as int) =~= rows@);
    r
}

/// The translated name a stored tag takes when it is met again: the new
/// one, where the tag has none yet and a new one is given; else it keeps
/// what it has (`None` here).
pub fn tag_translation_update(existing: &Option<String>, new: Option<&str>) -> (r: Option<String>)
    ensures
        opt_text(r) == if existing is None && new is Some {
            Some(new->0@)
        } else {
            None
        },
{
    if existing.is_none() {
        match new {
            Some(t) => Some(owned(t)),
            None => None,
        }
    } else {
        None
    }
}

// ---------------------------------------------------------------------------
// Colour inputs
// ---------------------------------------------------------------------------

/// The colour channels an `r,g,b` text names: three comma-separated
/// parts, each a number up to 255 once whitespace around it is removed.
pub open spec fn rgb_channel(s: Seq<char>, k: int) -> Option<int> {
    parse_unsigned(trimmed(split_on(s, ',')[k]), 255)
}

/// The message an invalid channel `k` is refused with.
pub open spec fn channel_message(k: int) -> Seq<char> {
    if k == 0 {
        "Invalid red value in rgb parameter"@
    } else if k == 1 {
        "Invalid green value in rgb parameter"@
    } else {
        "Invalid blue value in rgb parameter"@
    }
}

/// The answer to an `r,g,b` text: the three channels, or the first
/// refusal.
pub open spec fn is_rgb_answer(r: Result<(u8, u8, u8), AppError>, s: Seq<char>) -> bool {
    if split_on(s, ',').len() != 3 {
        r matches Err(AppError::BadRequest(m)) && m@
            == "Invalid rgb format. Use rgb=r,g,b with three comma-separated values"@
    } else if rgb_channel(s, 0) is None {
        r matches Err(AppError::BadRequest(m)) && m@ == channel_message(0)
    } else if rgb_channel(s, 1) is None {
        r matches Err(AppError::BadRequest(m)) && m@ == channel_message(1)
    } else if rgb_channel(s, 2) is None {
        r matches Err(AppError::BadRequest(m)) && m@ == channel_message(2)
    } else {
        r matches Ok(c) && c.0 == rgb_channel(s, 0)->0 && c.1 == rgb_channel(s, 1)->0 && c.2
            == rgb_channel(s, 2)->0
    }
}

fn parse_channel(part: &Vec<char>) -> (r: Option<u8>)
    ensures
        match parse_unsigned(trimmed(part@), 255) {
            Some(x) => r matches Some(y) && y == x,
            None => r is None,
        },
{
    let t = trim_chars(part);
    let s = string_of(&t);
    proof {
        crate::text::lemma_parse_unsigned_bound(t@, 255);
    }
    match parse_unsigned_max(s.as_str(), 255) {
        Some(x) => Some(x as u8),
        None => None,
    }
}

/// The three channels of an `r,g,b` colour text, or why it is refused.
pub fn parse_rgb(s: &str) -> (r: Result<(u8, u8, u8), AppError>)
    ensures
        is_rgb_answer(r, s@),
{
    let v = chars_of(s);
    let parts = split_chars(&v, ',');
    if parts.len() != 3 {
        return Err(
            AppError::BadRequest(
                owned("Invalid rgb format. Use rgb=r,g,b with three comma-separated values"),
            ),
        );
    }
    let r = match parse_channel(&parts[0]) {
        Some(x) => x,
        None => {
            return Err(AppError::BadRequest(owned("Invalid red value in rgb parameter")));
        },
    };
    let g = match parse_channel(&parts[1]) {
        Some(x) => x,
        None => {
            return Err(AppError::BadRequest(owned("Invalid green value in rgb parameter")));
        },
    };
    let b = match parse_channel(&parts[2]) {
        Some(x) => x,
        None => {
            return Err(AppError::BadRequest(owned("Invalid blue value in rgb parameter")));
        },
    };
    assert(parts@[0]@ == split_on(s@, ',')[0]);
    assert(parts@[1]@ == split_on(s@, ',')[1]);
    assert(parts@[2]@ == split_on(s@, ',')[2]);
    Ok((r, g, b))
}

/// The three parts of an `l,a,b` colour text with whitespace around each
/// removed, or the refusal of a text that does not have three parts.
pub fn lab_parts(s: &str) -> (r: Result<Vec<String>, AppError>)
    ensures
        split_on(s@, ',').len() != 3 ==> (r matches Err(AppError::BadRequest(m)) && m@
            == "Invalid lab format. Use lab=l,a,b with three comma-separated values"@),
        split_on(s@, ',').len() == 3 ==> (r matches Ok(v) && v@.len() == 3 && forall|k: int|
            0 <= k < 3 ==> #[trigger] v@[k]@ == trimmed(split_on(s@, ',')[k])),
{
    let v = chars_of(s);
    let parts = split_chars(&v, ',');
    if parts.len() != 3 {
        return Err(
            AppError::BadRequest(
                owned("Invalid lab format. Use lab=l,a,b with three comma-separated values"),
            ),
        );
    }
    let mut out: Vec<String> = Vec::new();
    let mut k: usize = 0;
    while k < 3
        invariant
            k <= 3,
            parts@.len() == 3,
            v@ == s@,
            pieces_match(parts@, split_on(v@, ',')),
            out@.len() == k,
            forall|j: int| 0 <= j < k ==> #[trigger] out@[j]@ == trimmed(split_on(s@, ',')[j]),
        decreases 3 - k,
    {
        let t = trim_chars(&parts[k]);
        out.push(string_of(&t));
        k += 1;
    }
    Ok(out)
}

/// The colour-matching mode a request names: `primary` where it names
/// none; only `primary` and `palette` are known.
pub fn color_mode(mode: Option<&str>) -> (r: Option<&'static str>)
    ensures
        match mode {
            None => r == Some("primary"),
            Some(m) => if m@ == "primary"@ {
                r == Some("primary")
            } else if m@ == "palette"@ {
                r == Some("palette")
            } else {
                r is None
            },
        },
{
    match mode {
        None => Some("primary"),
        Some(m) => if str_eq(m, "primary") {
            Some("primary")
        } else if str_eq(m, "palette") {
            Some("palette")
        } else {
            None
        },
    }
}

/// The number of results a colour search returns: 20 unless asked, at
/// most 100.
pub fn search_limit(limit: Option<u64>) -> (r: u64)
    ensures
        r == match limit {
            Some(l) => if l < 100 {
                l
            } else {
                100
            },
            None => 20,
        },
{
    match limit {
        Some(l) => if l < 100 {
            l
        } else {
            100
        },
        None => 20,
    }
}

// ---------------------------------------------------------------------------
// Edits
// ---------------------------------------------------------------------------

/// The kind of a JSON value in an edit request.
#[derive(PartialEq, Eq, Structural, Clone, Copy, Debug)]
pub enum JsonKind {
    Null,
    Bool,
    Number,
    Text,
    Array,
    Object,
}

/// The answer to an edit of an image, checked in this order: the
/// `accessible` value must be a boolean or null, the `colors` value an
/// object or an array, and a title must not be empty nor exceed 1000
/// bytes.
pub open spec fn is_update_answer(
    r: Result<(), AppError>,
    accessible: Option<JsonKind>,
    colors: Option<JsonKind>,
    title: Option<Seq<char>>,
) -> bool {
    if accessible matches Some(k) && k != JsonKind::Bool && k != JsonKind::Null {
        r matches Err(AppError::BadRequest(m)) && m@ == "accessible must be a boolean or null"@
    } else if colors matches Some(k) && k != JsonKind::Object && k != JsonKind::Array {
        r matches Err(AppError::BadRequest(m)) && m@ == "colors must be a JSON object or array"@
    } else if title matches Some(t) && t.len() == 0 {
        r matches Err(AppError::BadRequest(m)) && m@ == "title must not be an empty string"@
    } else if title matches Some(t) && utf8_len(t) > 1000 {
        r matches Err(AppError::BadRequest(m)) && m@ == "title must not exceed 1000 characters"@
    } else {
        r is Ok
    }
}

/// Checks an edit of an image before it is applied.
pub fn validate_update(
    accessible: Option<JsonKind>,
    colors: Option<JsonKind>,
    title: Option<&str>,
) -> (r: Result<(), AppError>)
    ensures
        is_update_answer(
            r,
            accessible,
            colors,
            match title {
                Some(t) => Some(t@),
                None => None,
            },
        ),
{
    if let Some(k) = accessible {
        if k != JsonKind::Bool && k != JsonKind::Null {
            return Err(AppError::BadRequest(owned("accessible must be a boolean or null")));
        }
    }
    if let Some(k) = colors {
        if k != JsonKind::Object && k != JsonKind::Array {
            return Err(AppError::BadRequest(owned("colors must be a JSON object or array")));
        }
    }
    if let Some(t) = title {
        let v = chars_of(t);
        if v.len() == 0 {
            return Err(AppError::BadRequest(owned("title must not be an empty string")));
        }
        if exceeds_bytes(t, 1000) {
            return Err(AppError::BadRequest(owned("title must not exceed 1000 characters")));
        }
    }
    Ok(())
}

/// A field of an image edit as stored: missing, `null`, a boolean, a
/// text, or any other JSON value.
#[derive(Debug)]
pub enum FieldValue {
    Missing,
    Null,
    Bool(bool),
    Text(String),
    Other,
}

/// What an edit changes on an image; `None` leaves a field as it is.
#[derive(Debug)]
pub struct ImageUpdate {
    /// The new title.
    pub title: Option<String>,
    /// The new accessibility (`Some(None)` clears it).
    pub accessible: Option<Option<bool>>,
    /// The new visibility.
    pub is_public: Option<bool>,
    /// The new avatar availability (`Some(None)` clears it).
    pub avatar_available: Option<Option<bool>>,
    /// Whether the colours are replaced by the given value.
    pub set_colors: bool,
}

/// How a nullable boolean field is updated: `null` clears it, a boolean
/// sets it, anything else leaves it.
pub open spec fn nullable_update(v: FieldValue) -> Option<Option<bool>> {
    match v {
        FieldValue::Null => Some(None),
        FieldValue::Bool(b) => Some(Some(b)),
        _ => None,
    }
}

fn nullable_update_of(v: &FieldValue) -> (r: Option<Option<bool>>)
    ensures
        r == nullable_update(*v),
{
    match v {
        FieldValue::Null => Some(None),
        FieldValue::Bool(b) => Some(Some(*b)),
        _ => None,
    }
}

/// What an edit changes: a text title sets the title; `accessible` and
/// `avatar_available` are cleared by `null` and set by a boolean; a
/// boolean `is_public` sets it; any `colors` value present replaces the
/// colours.
pub fn plan_update(
    title: &FieldValue,
    accessible: &FieldValue,
    is_public: &FieldValue,
    avatar_available: &FieldValue,
    colors: &FieldValue,
) -> (r: ImageUpdate)
    ensures
        opt_text(r.title) == match *title {
            FieldValue::Text(t) => Some(t@),
            _ => None,
        },
        r.accessible == nullable_update(*accessible),
        r.is_public == match *is_public {
            FieldValue::Bool(b) => Some(b),
            _ => None,
        },
        r.avatar_available == nullable_update(*avatar_available),
        r.set_colors == !(*colors is Missing),
{
    ImageUpdate {
        title: match title {
            FieldValue::Text(t) => Some(t.clone()),
            _ => None,
        },
        accessible: nullable_update_of(accessible),
        is_public: match is_public {
            FieldValue::Bool(b) => Some(*b),
            _ => None,
        },
        avatar_available: nullable_update_of(avatar_available),
        set_colors: match colors {
            FieldValue::Missing => false,
            _ => true,
        },
    }
}

} // verus!
