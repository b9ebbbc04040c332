//! The article record returned by the service, and its JSON schema.
use vstd::prelude::*;

use crate::error::{DecodeError, Field};
use crate::json::{entry, found, lemma_entry_at, lookup, Json};
use crate::timestamp::{format_instant, instant_of, parse_instant, rfc3339_of, Timestamp};

verus! {

/// Structured data, deserialized from an API response.
#[derive(Clone, Debug, Default, PartialEq, Eq, Hash)]
pub struct Article {
    /// The name of the author.
    pub author: Option<String>,
    /// The main body content.
    pub content: String,
    /// The publication date.
    pub date_published: Option<Timestamp>,
    /// The dek.
    pub dek: Option<String>,
    /// The text direction of `content`.
    pub direction: TextDirection,
    /// A short description.
    pub excerpt: String,
    /// The url of the lead image, kept as the service wrote it.
    pub lead_image_url: Option<String>,
    /// The url of the next page, kept as the service wrote it.
    pub next_page_url: Option<String>,
    /// The number of pages included in `content`.
    pub rendered_pages: u64,
    /// The title of the article.
    pub title: String,
    /// The total number of pages.
    pub total_pages: u64,
    /// The url of the article, as the service reports it.
    pub url: String,
    /// The total number of words.
    pub word_count: u64,
}

/// The value of an article: its texts as character sequences.
pub struct ArticleView {
    pub author: Option<Seq<char>>,
    pub content: Seq<char>,
    pub date_published: Option<Timestamp>,
    pub dek: Option<Seq<char>>,
    pub direction: TextDirection,
    pub excerpt: Seq<char>,
    pub lead_image_url: Option<Seq<char>>,
    pub next_page_url: Option<Seq<char>>,
    pub rendered_pages: u64,
    pub title: Seq<char>,
    pub total_pages: u64,
    pub url: Seq<char>,
    pub word_count: u64,
}

impl ArticleView {
    /// The publication date, if any, is an instant that chrono represents.
    pub open spec fn wf(self) -> bool {
        match self.date_published {
            Some(t) => t.wf(),
            None => true,
        }
    }
}

pub open spec fn opt_view(o: Option<String>) -> Option<Seq<char>> {
    match o {
        Some(s) => Some(s@),
        None => None,
    }
}

impl View for Article {
    type V = ArticleView;

    open spec fn view(&self) -> ArticleView {
        ArticleView {
            author: opt_view(self.author),
            content: self.content@,
            date_published: self.date_published,
            dek: opt_view(self.dek),
            direction: self.direction,
            excerpt: self.excerpt@,
            lead_image_url: opt_view(self.lead_image_url),
            next_page_url: opt_view(self.next_page_url),
            rendered_pages: self.rendered_pages,
            title: self.title@,
            total_pages: self.total_pages,
            url: self.url@,
            word_count: self.word_count,
        }
    }
}

/// An optional text member: absent, `null` or a string.
pub open spec fn valid_opt_text(v: Option<Json>) -> bool {
    match v {
        None => true,
        Some(Json::Null) => true,
        Some(Json::Str(_)) => true,
        _ => false,
    }
}

pub open spec fn opt_text(v: Option<Json>) -> Option<Seq<char>> {
    match v {
        Some(Json::Str(s)) => Some(s@),
        _ => None,
    }
}

/// A text member with a default: absent or a string.
pub open spec fn valid_text(v: Option<Json>) -> bool {
    match v {
        None => true,
        Some(Json::Str(_)) => true,
        _ => false,
    }
}

/// The text of a member, or the empty text where it is absent.
pub open spec fn text_or_empty(v: Option<Json>) -> Seq<char> {
    match v {
        Some(Json::Str(s)) => s@,
        _ => Seq::empty(),
    }
}

/// A count member with a default: absent or an integer in `u64`.
pub open spec fn valid_count(v: Option<Json>) -> bool {
    match v {
        None => true,
        Some(Json::Uint(_)) => true,
        _ => false,
    }
}

pub open spec fn count_or(v: Option<Json>, default: u64) -> u64 {
    match v {
        Some(Json::Uint(n)) => n,
        _ => default,
    }
}

/// The lower-case name of each direction.
pub open spec fn direction_name(d: TextDirection) -> Seq<char> {
    match d {
        TextDirection::Ltr => "ltr"@,
        TextDirection::Rtl => "rtl"@,
    }
}

/// A direction member: absent, `"ltr"` or `"rtl"`.
pub open spec fn valid_direction(v: Option<Json>) -> bool {
    match v {
        None => true,
        Some(Json::Str(s)) => s@ == "ltr"@ || s@ == "rtl"@,
        _ => false,
    }
}

pub open spec fn direction_of(v: Option<Json>) -> TextDirection {
    match v {
        Some(Json::Str(s)) => if s@ == "rtl"@ {
            TextDirection::Rtl
        } else {
            TextDirection::Ltr
        },
        _ => TextDirection::Ltr,
    }
}

pub open spec fn timestamp_of(p: Option<(i64, u32)>) -> Option<Timestamp> {
    match p {
        Some(p) => Some(Timestamp { secs: p.0, nanos: p.1 }),
        None => None,
    }
}

/// A date member: absent, `null`, or a string that chrono reads as an
/// instant in its range.
pub open spec fn valid_date(v: Option<Json>) -> bool {
    match v {
        None => true,
        Some(Json::Null) => true,
        Some(Json::Str(s)) => match timestamp_of(instant_of(s@)) {
            Some(t) => t.wf(),
            None => false,
        },
        _ => false,
    }
}

pub open spec fn date_of(v: Option<Json>) -> Option<Timestamp> {
    match v {
        Some(Json::Str(s)) => timestamp_of(instant_of(s@)),
        _ => None,
    }
}

/// The article that a JSON value describes, or the first reason, in the
/// order of the schema's members, why it describes none. Members that the
/// schema does not name are ignored.
pub open spec fn article_of(j: Json) -> Result<ArticleView, DecodeError> {
    match j {
        Json::Object(ms) => {
            let m = ms@;
            if !valid_opt_text(entry(m, "author"@)) {
                Err(DecodeError::Invalid(Field::Author))
            } else if !valid_text(entry(m, "content"@)) {
                Err(DecodeError::Invalid(Field::Content))
            } else if !valid_date(entry(m, "date_published"@)) {
                Err(DecodeError::Invalid(Field::DatePublished))
            } else if !valid_opt_text(entry(m, "dek"@)) {
                Err(DecodeError::Invalid(Field::Dek))
            } else if !valid_direction(entry(m, "direction"@)) {
                Err(DecodeError::Invalid(Field::Direction))
            } else if !valid_text(entry(m, "excerpt"@)) {
                Err(DecodeError::Invalid(Field::Excerpt))
            } else if !valid_opt_text(entry(m, "lead_image_url"@)) {
                Err(DecodeError::Invalid(Field::LeadImageUrl))
            } else if !valid_opt_text(entry(m, "next_page_url"@)) {
                Err(DecodeError::Invalid(Field::NextPageUrl))
            } else if !valid_count(entry(m, "rendered_pages"@)) {
                Err(DecodeError::Invalid(Field::RenderedPages))
            } else if !valid_text(entry(m, "title"@)) {
                Err(DecodeError::Invalid(Field::Title))
            } else if !valid_count(entry(m, "total_pages"@)) {
                Err(DecodeError::Invalid(Field::TotalPages))
            } else if entry(m, "url"@) is None {
                Err(DecodeError::Missing(Field::Url))
            } else if !valid_text(entry(m, "url"@)) {
                Err(DecodeError::Invalid(Field::Url))
            } else if !valid_count(entry(m, "word_count"@)) {
                Err(DecodeError::Invalid(Field::WordCount))
            } else {
                Ok(
                    ArticleView {
                        author: opt_text(entry(m, "author"@)),
                        content: text_or_empty(entry(m, "content"@)),
                        date_published: date_of(entry(m, "date_published"@)),
                        dek: opt_text(entry(m, "dek"@)),
                        direction: direction_of(entry(m, "direction"@)),
                        excerpt: text_or_empty(entry(m, "excerpt"@)),
                        lead_image_url: opt_text(entry(m, "lead_image_url"@)),
                        next_page_url: opt_text(entry(m, "next_page_url"@)),
                        rendered_pages: count_or(entry(m, "rendered_pages"@), 1),
                        title: text_or_empty(entry(m, "title"@)),
                        total_pages: count_or(entry(m, "total_pages"@), 1),
                        url: text_or_empty(entry(m, "url"@)),
                        word_count: count_or(entry(m, "word_count"@), 0),
                    },
                )
            }
        },
        _ => Err(DecodeError::NotAnObject),
    }
}

fn read_opt_text(v: Option<&Json>, f: Field) -> (r: Result<Option<String>, DecodeError>)
    ensures
        match r {
            Ok(o) => valid_opt_text(found(v)) && opt_view(o) == opt_text(found(v)),
            Err(e) => !valid_opt_text(found(v)) && e == DecodeError::Invalid(f),
        },
{
    match v {
        None => Ok(None),
        Some(Json::Null) => Ok(None),
        Some(Json::Str(s)) => Ok(Some(s.clone())),
        Some(_) => Err(DecodeError::Invalid(f)),
    }
}

fn read_text(v: Option<&Json>, f: Field) -> (r: Result<String, DecodeError>)
    ensures
        match r {
            Ok(s) => valid_text(found(v)) && s@ == text_or_empty(found(v)),
            Err(e) => !valid_text(found(v)) && e == DecodeError::Invalid(f),
        },
{
    match v {
        None => Ok(String::new()),
        Some(Json::Str(s)) => Ok(s.clone()),
        Some(_) => Err(DecodeError::Invalid(f)),
    }
}

fn read_count(v: Option<&Json>, default: u64, f: Field) -> (r: Result<u64, DecodeError>)
    ensures
        match r {
            Ok(n) => valid_count(found(v)) && n == count_or(found(v), default),
            Err(e) => !valid_count(found(v)) && e == DecodeError::Invalid(f),
        },
{
    match v {
        None => Ok(default),
        Some(Json::Uint(n)) => Ok(*n),
        Some(_) => Err(DecodeError::Invalid(f)),
    }
}

fn read_direction(v: Option<&Json>) -> (r: Result<TextDirection, DecodeError>)
    ensures
        match r {
            Ok(d) => valid_direction(found(v)) && d == direction_of(found(v)),
            Err(e) => !valid_direction(found(v)) && e == DecodeError::Invalid(Field::Direction),
        },
{
    let ltr = String::from_str("ltr");
    let rtl = String::from_str("rtl");
    proof {
        reveal_strlit("ltr");
        reveal_strlit("rtl");
        assert("ltr"@[0] != "rtl"@[0]);
    }
    match v {
        None => Ok(TextDirection::Ltr),
        Some(Json::Str(s)) => {
            if *s == ltr {
                Ok(TextDirection::Ltr)
            } else if *s == rtl {
                Ok(TextDirection::Rtl)
            } else {
                Err(DecodeError::Invalid(Field::Direction))
            }
        },
        Some(_) => Err(DecodeError::Invalid(Field::Direction)),
    }
}

fn read_date(v: Option<&Json>) -> (r: Result<Option<Timestamp>, DecodeError>)
    ensures
        match r {
            Ok(d) => valid_date(found(v)) && d == date_of(found(v)),
            Err(e) => !valid_date(found(v)) && e == DecodeError::Invalid(Field::DatePublished),
        },
{
    match v {
        None => Ok(None),
        Some(Json::Null) => Ok(None),
        Some(Json::Str(s)) => match parse_instant(s.as_str()) {
            Some(t) => Ok(Some(t)),
            None => Err(DecodeError::Invalid(Field::DatePublished)),
        },
        Some(_) => Err(DecodeError::Invalid(Field::DatePublished)),
    }
}

/// The names of the schema's members, in the order the schema lists them.
pub open spec fn schema_keys() -> Seq<Seq<char>> {
    seq![
        "author"@,
        "content"@,
        "date_published"@,
        "dek"@,
        "direction"@,
        "excerpt"@,
        "lead_image_url"@,
        "next_page_url"@,
        "rendered_pages"@,
        "title"@,
        "total_pages"@,
        "url"@,
        "word_count"@,
    ]
}

pub open spec fn is_text(v: Json, s: Seq<char>) -> bool {
    v matches Json::Str(x) && x@ == s
}

pub open spec fn is_opt_text(v: Json, o: Option<Seq<char>>) -> bool {
    match o {
        Some(s) => is_text(v, s),
        None => v is Null,
    }
}

pub open spec fn is_date(v: Json, o: Option<Timestamp>) -> bool {
    match o {
        Some(t) => is_text(v, rfc3339_of(t.secs, t.nanos)) && instant_of(rfc3339_of(t.secs, t.nanos))
            == Some((t.secs, t.nanos)),
        None => v is Null,
    }
}

/// `j` is the JSON form of `a`: an object with every member of the schema,
/// in the schema's order, absent values written as `null`.
pub open spec fn encodes(j: Json, a: ArticleView) -> bool {
    match j {
        Json::Object(ms) => {
            let m = ms@;
            &&& m.len() == 13
            &&& forall|i: int| 0 <= i < 13 ==> #[trigger] m[i].0@ == schema_keys()[i]
            &&& is_opt_text(m[0].1, a.author)
            &&& is_text(m[1].1, a.content)
            &&& is_date(m[2].1, a.date_published)
            &&& is_opt_text(m[3].1, a.dek)
            &&& is_text(m[4].1, direction_name(a.direction))
            &&& is_text(m[5].1, a.excerpt)
            &&& is_opt_text(m[6].1, a.lead_image_url)
            &&& is_opt_text(m[7].1, a.next_page_url)
            &&& m[8].1 == Json::Uint(a.rendered_pages)
            &&& is_text(m[9].1, a.title)
            &&& m[10].1 == Json::Uint(a.total_pages)
            &&& is_text(m[11].1, a.url)
            &&& m[12].1 == Json::Uint(a.word_count)
        },
        _ => false,
    }
}

fn text_json(s: &String) -> (r: Json)
    ensures
        is_text(r, s@),
{
    Json::Str(s.clone())
}

fn opt_text_json(o: &Option<String>) -> (r: Json)
    ensures
        is_opt_text(r, opt_view(*o)),
{
    match o {
        Some(s) => Json::Str(s.clone()),
        None => Json::Null,
    }
}

fn date_json(o: &Option<Timestamp>) -> (r: Json)
    requires
        match *o {
            Some(t) => t.wf(),
            None => true,
        },
    ensures
        is_date(r, *o),
{
    match o {
        Some(t) => Json::Str(format_instant(t)),
        None => Json::Null,
    }
}

fn direction_json(d: TextDirection) -> (r: Json)
    ensures
        is_text(r, direction_name(d)),
{
    match d {
        TextDirection::Ltr => Json::Str(String::from_str("ltr")),
        TextDirection::Rtl => Json::Str(String::from_str("rtl")),
    }
}

impl Article {
    /// The article is one that can be written out: its publication date, if
    /// any, is an instant that chrono represents.
    pub open spec fn wf(&self) -> bool {
        self@.wf()
    }

    /// Whether the article can be written out.
    pub fn is_valid(&self) -> (r: bool)
        ensures
            r == self.wf(),
    {
        match &self.date_published {
            Some(t) => t.is_valid(),
            None => true,
        }
    }

    /// Writes the article as a JSON object with every member of the schema,
    /// absent values as `null` and the publication date in RFC 3339 form.
    pub fn to_json(&self) -> (r: Json)
        requires
            self.wf(),
        ensures
            encodes(r, self@),
    {
        let ms: Vec<(String, Json)> = vec![
            (String::from_str("author"), opt_text_json(&self.author)),
            (String::from_str("content"), text_json(&self.content)),
            (String::from_str("date_published"), date_json(&self.date_published)),
            (String::from_str("dek"), opt_text_json(&self.dek)),
            (String::from_str("direction"), direction_json(self.direction)),
            (String::from_str("excerpt"), text_json(&self.excerpt)),
            (String::from_str("lead_image_url"), opt_text_json(&self.lead_image_url)),
            (String::from_str("next_page_url"), opt_text_json(&self.next_page_url)),
            (String::from_str("rendered_pages"), Json::Uint(self.rendered_pages)),
            (String::from_str("title"), text_json(&self.title)),
            (String::from_str("total_pages"), Json::Uint(self.total_pages)),
            (String::from_str("url"), text_json(&self.url)),
            (String::from_str("word_count"), Json::Uint(self.word_count)),
        ];
        let r = Json::Object(ms);
        assert(forall|i: int| 0 <= i < 13 ==> #[trigger] ms@[i].0@ == schema_keys()[i]) by {
            assert(ms@[0].0@ == schema_keys()[0]);
        }
        r
    }

    /// Reads an article from a JSON value. Absent members take their
    /// defaults: empty texts, a page count of 1, a word count of 0,
    /// left-to-right text; only `url` is required.
    pub fn from_json(j: &Json) -> (r: Result<Article, DecodeError>)
        ensures
            match r {
                Ok(a) => article_of(*j) == Ok::<ArticleView, DecodeError>(a@),
                Err(e) => article_of(*j) == Err::<ArticleView, DecodeError>(e),
            },
    {
        match j {
            Json::Object(ms) => {
                let author = match read_opt_text(lookup(ms, "author"), Field::Author) {
                    Ok(x) => x,
                    Err(e) => return Err(e),
                };
                let content = match read_text(lookup(ms, "content"), Field::Content) {
                    Ok(x) => x,
                    Err(e) => return Err(e),
                };
                let date_published = match read_date(lookup(ms, "date_published")) {
                    Ok(x) => x,
                    Err(e) => return Err(e),
                };
                let dek = match read_opt_text(lookup(ms, "dek"), Field::Dek) {
                    Ok(x) => x,
                    Err(e) => return Err(e),
                };
                let direction = match read_direction(lookup(ms, "direction")) {
                    Ok(x) => x,
                    Err(e) => return Err(e),
                };
                let excerpt = match read_text(lookup(ms, "excerpt"), Field::Excerpt) {
                    Ok(x) => x,
                    Err(e) => return Err(e),
                };
                let lead_image_url = match read_opt_text(
                    lookup(ms, "lead_image_url"),
                    Field::LeadImageUrl,
                ) {
                    Ok(x) => x,
                    Err(e) => return Err(e),
                };
                let next_page_url = match read_opt_text(
                    lookup(ms, "next_page_url"),
                    Field::NextPageUrl,
                ) {
                    Ok(x) => x,
                    Err(e) => return Err(e),
                };
                let pages = default_page_field_value();
                let rendered_pages = match read_count(
                    lookup(ms, "rendered_pages"),
                    pages,
                    Field::RenderedPages,
                ) {
                    Ok(x) => x,
                    Err(e) => return Err(e),
                };
                let title = match read_text(lookup(ms, "title"), Field::Title) {
                    Ok(x) => x,
                    Err(e) => return Err(e),
                };
                let total_pages = match read_count(
                    lookup(ms, "total_pages"),
                    pages,
                    Field::TotalPages,
                ) {
                    Ok(x) => x,
                    Err(e) => return Err(e),
                };
                let url = match lookup(ms, "url") {
                    None => return Err(DecodeError::Missing(Field::Url)),
                    Some(Json::Str(s)) => s.clone(),
                    Some(_) => return Err(DecodeError::Invalid(Field::Url)),
                };
                let word_count = match read_count(lookup(ms, "word_count"), 0, Field::WordCount) {
                    Ok(x) => x,
                    Err(e) => return Err(e),
                };
                Ok(
                    Article {
                        author,
                        content,
                        date_published,
                        dek,
                        direction,
                        excerpt,
                        lead_image_url,
                        next_page_url,
                        rendered_pages,
                        title,
                        total_pages,
                        url,
                        word_count,
                    },
                )
            },
            _ => Err(DecodeError::NotAnObject),
        }
    }
}

/// Represents the text direction of parsed body content.
#[derive(Clone, Copy, Debug, PartialEq, Eq, Structural, Hash, PartialOrd, Ord)]
pub enum TextDirection {
    /// Left to right.
    Ltr,
    /// Right to left.
    Rtl,
}

impl TextDirection {
    /// Returns `true` if the direction is left to right.
    pub fn is_ltr(&self) -> (r: bool)
        ensures
            r == (*self == TextDirection::Ltr),
    {
        *self == TextDirection::Ltr
    }

    /// Returns `true` if the direction is right to left.
    pub fn is_rtl(&self) -> (r: bool)
        ensures
            r == (*self == TextDirection::Rtl),
    {
        *self == TextDirection::Rtl
    }
}

impl Default for TextDirection {
    /// Content is left to right unless the service says otherwise.
    fn default() -> (r: TextDirection)
        ensures
            r == TextDirection::Ltr,
    {
        TextDirection::Ltr
    }
}

/// The page count that `rendered_pages` and `total_pages` take when the
/// response leaves them out.
pub fn default_page_field_value() -> (r: u64)
    ensures
        r == 1,
{
    1
}

/// The schema's member names are pairwise distinct.
proof fn lemma_schema_keys_distinct()
    ensures
        forall|i: int, j: int|
            0 <= i < 13 && 0 <= j < 13 && i != j ==> schema_keys()[i] != schema_keys()[j],
{
    reveal_strlit("author");
    reveal_strlit("content");
    reveal_strlit("date_published");
    reveal_strlit("dek");
    reveal_strlit("direction");
    reveal_strlit("excerpt");
    reveal_strlit("lead_image_url");
    reveal_strlit("next_page_url");
    reveal_strlit("rendered_pages");
    reveal_strlit("title");
    reveal_strlit("total_pages");
    reveal_strlit("url");
    reveal_strlit("word_count");
    let k = schema_keys();
    assert(k[0].len() == 6 && k[0][0] == 'a');
    assert(k[1].len() == 7 && k[1][0] == 'c');
    assert(k[2].len() == 14 && k[2][0] == 'd');
    assert(k[3].len() == 3 && k[3][0] == 'd');
    assert(k[4].len() == 9 && k[4][0] == 'd');
    assert(k[5].len() == 7 && k[5][0] == 'e');
    assert(k[6].len() == 14 && k[6][0] == 'l');
    assert(k[7].len() == 13 && k[7][0] == 'n');
    assert(k[8].len() == 14 && k[8][0] == 'r');
    assert(k[9].len() == 5 && k[9][0] == 't');
    assert(k[10].len() == 11 && k[10][0] == 't');
    assert(k[11].len() == 3 && k[11][0] == 'u');
    assert(k[12].len() == 10 && k[12][0] == 'w');
    assert forall|i: int, j: int| 0 <= i < 13 && 0 <= j < 13 && i != j implies k[i] != k[j] by {
        if k[i] == k[j] {
            assert(k[i].len() == k[j].len() && k[i][0] == k[j][0]);
        }
    }
}

/// In the JSON form of an article, each member of the schema is found at
/// its own place.
proof fn lemma_encoded_entries(j: Json, a: ArticleView)
    requires
        encodes(j, a),
    ensures
        forall|i: int|
            0 <= i < 13 ==> entry(j->Object_0@, #[trigger] schema_keys()[i]) == Some(
                j->Object_0@[i].1,
            ),
{
    lemma_schema_keys_distinct();
    let m = j->Object_0@;
    assert forall|i: int| 0 <= i < 13 implies entry(m, #[trigger] schema_keys()[i]) == Some(
        m[i].1,
    ) by {
        assert(m[i].0@ == schema_keys()[i]);
        assert forall|x: int| 0 <= x < i implies m[x].0@ != schema_keys()[i] by {
            assert(m[x].0@ == schema_keys()[x]);
        }
        lemma_entry_at(m, schema_keys()[i], i);
    }
}

/// An article that can be written out reads back from its JSON form as the
/// same article.
pub proof fn lemma_write_then_read(j: Json, a: ArticleView)
    requires
        a.wf(),
        encodes(j, a),
    ensures
        article_of(j) == Ok::<ArticleView, DecodeError>(a),
{
    lemma_encoded_entries(j, a);
    reveal_strlit("ltr");
    reveal_strlit("rtl");
    assert("ltr"@[0] != "rtl"@[0]);
    let k = schema_keys();
    assert(entry(j->Object_0@, k[0]) == Some(j->Object_0@[0].1));
    assert(entry(j->Object_0@, k[1]) == Some(j->Object_0@[1].1));
    assert(entry(j->Object_0@, k[2]) == Some(j->Object_0@[2].1));
    assert(entry(j->Object_0@, k[3]) == Some(j->Object_0@[3].1));
    assert(entry(j->Object_0@, k[4]) == Some(j->Object_0@[4].1));
    assert(entry(j->Object_0@, k[5]) == Some(j->Object_0@[5].1));
    assert(entry(j->Object_0@, k[6]) == Some(j->Object_0@[6].1));
    assert(entry(j->Object_0@, k[7]) == Some(j->Object_0@[7].1));
    assert(entry(j->Object_0@, k[8]) == Some(j->Object_0@[8].1));
    assert(entry(j->Object_0@, k[9]) == Some(j->Object_0@[9].1));
    assert(entry(j->Object_0@, k[10]) == Some(j->Object_0@[10].1));
    assert(entry(j->Object_0@, k[11]) == Some(j->Object_0@[11].1));
    assert(entry(j->Object_0@, k[12]) == Some(j->Object_0@[12].1));
}

/// An article read from JSON can be written out.
pub proof fn lemma_read_article_wf(j: Json)
    requires
        article_of(j) is Ok,
    ensures
        article_of(j)->Ok_0.wf(),
{
}

/// Reading an article from JSON and writing it back out keeps the value of
/// every field: the written JSON reads as the same article. Every member of
/// the schema appears in the written JSON, those that took their default
/// included.
pub proof fn lemma_round_trip(j: Json, out: Json)
    requires
        article_of(j) is Ok,
        encodes(out, article_of(j)->Ok_0),
    ensures
        article_of(out) == article_of(j),
        forall|i: int| 0 <= i < 13 ==> entry(out->Object_0@, #[trigger] schema_keys()[i]) is Some,
{
    lemma_read_article_wf(j);
    lemma_write_then_read(out, article_of(j)->Ok_0);
    lemma_encoded_entries(out, article_of(j)->Ok_0);
}

/// A JSON object without `rendered_pages` and `total_pages` reads with both
/// counts at 1; their absence is never the reason it fails to read.
pub proof fn lemma_absent_page_counts(j: Json)
    requires
        j is Object,
        entry(j->Object_0@, "rendered_pages"@) is None,
        entry(j->Object_0@, "total_pages"@) is None,
    ensures
        article_of(j) is Ok ==> article_of(j)->Ok_0.rendered_pages == 1 && article_of(
            j,
        )->Ok_0.total_pages == 1,
        article_of(j) != Err::<ArticleView, DecodeError>(DecodeError::Invalid(Field::RenderedPages)),
        article_of(j) != Err::<ArticleView, DecodeError>(DecodeError::Invalid(Field::TotalPages)),
{
}

/// A JSON object without `content`, `excerpt` and `title` reads with all
/// three empty; their absence is never the reason it fails to read.
pub proof fn lemma_absent_texts(j: Json)
    requires
        j is Object,
        entry(j->Object_0@, "content"@) is None,
        entry(j->Object_0@, "excerpt"@) is None,
        entry(j->Object_0@, "title"@) is None,
    ensures
        article_of(j) is Ok ==> article_of(j)->Ok_0.content == Seq::<char>::empty() && article_of(
            j,
        )->Ok_0.excerpt == Seq::<char>::empty() && article_of(j)->Ok_0.title == Seq::<
            char,
        >::empty(),
        article_of(j) != Err::<ArticleView, DecodeError>(DecodeError::Invalid(Field::Content)),
        article_of(j) != Err::<ArticleView, DecodeError>(DecodeError::Invalid(Field::Excerpt)),
        article_of(j) != Err::<ArticleView, DecodeError>(DecodeError::Invalid(Field::Title)),
{
}

/// A JSON object without `direction` reads as left-to-right text; the
/// absence is never the reason it fails to read.
pub proof fn lemma_absent_direction(j: Json)
    requires
        j is Object,
        entry(j->Object_0@, "direction"@) is None,
    ensures
        article_of(j) is Ok ==> article_of(j)->Ok_0.direction == TextDirection::Ltr,
        article_of(j) != Err::<ArticleView, DecodeError>(DecodeError::Invalid(Field::Direction)),
{
}

} // verus!
