//! Links to videos: the shapes that are recognised, and the identifier of the
//! video that a link names.

use vstd::prelude::*;
use vstd::string::*;
use crate::error::{result_view, Error, ErrorKind, ErrorView};
use crate::pattern::{anchored_word, is_match, regex_match};
use crate::text::{find, lemma_piece, piece, range_eq, to_chars};

verus! {

/// Matches the path of an embedded player.
pub const PATTERN_EMBED: &'static str = "^\\/embed";

/// Matches the path of a short video.
pub const PATTERN_SHORT: &'static str = "^\\/shorts";

/// Matches the path of a video's own page.
pub const PATTERN_REGULAR: &'static str = "^\\/watch";

/// Matches a link in which an identifier of eleven characters stands where
/// one of the known forms of link has it.
pub const PATTERN_LINK: &'static str =
    r"(?:youtube\.com\/(?:[^\/]+\/.+\/|(?:v|embed|watch|shorts)\/|.*[?&]v=)|youtu\.be\/)([a-zA-Z0-9_-]{11})(?:[&?]|$)";

/// The shape of a link, judged by its path.
#[derive(Clone, Copy, Debug, PartialEq, Eq, Structural)]
pub enum YouTubeURLKind {
    Short,
    Embed,
    Regular,
    Invalid,
}

impl View for YouTubeURLKind {
    type V = YouTubeURLKind;

    open spec fn view(&self) -> YouTubeURLKind {
        *self
    }
}

/// The parts of an absolute URL that the library reads, as a URL parser
/// reported them. Nothing relates the parts to one another here: they are
/// taken as given.
#[derive(Debug, PartialEq)]
pub struct UrlParts {
    /// The whole URL in its normal form.
    pub href: String,
    /// The host, where the URL has one.
    pub host: Option<String>,
    /// The path, with its leading slash.
    pub path: String,
    /// What stands between `?` and `#`, where the URL has a query.
    pub query: Option<String>,
}

/// The parts of a URL as the contracts see them.
pub struct UrlPartsView {
    pub href: Seq<char>,
    pub host: Option<Seq<char>>,
    pub path: Seq<char>,
    pub query: Option<Seq<char>>,
}

/// The characters of an optional string.
pub open spec fn opt_view(s: Option<String>) -> Option<Seq<char>> {
    match s {
        Some(t) => Some(t@),
        None => None,
    }
}

impl View for UrlParts {
    type V = UrlPartsView;

    open spec fn view(&self) -> UrlPartsView {
        UrlPartsView {
            href: self.href@,
            host: opt_view(self.host),
            path: self.path@,
            query: opt_view(self.query),
        }
    }
}

impl Clone for UrlParts {
    fn clone(&self) -> (r: UrlParts)
        ensures
            r@ == self@,
    {
        UrlParts {
            href: self.href.clone(),
            host: match &self.host {
                Some(h) => Some(h.clone()),
                None => None,
            },
            path: self.path.clone(),
            query: match &self.query {
                Some(q) => Some(q.clone()),
                None => None,
            },
        }
    }
}

/// A link to a video, with its shape and the identifier of the video.
#[derive(Debug, PartialEq)]
pub struct YouTubeURL {
    pub url: UrlParts,
    pub kind: YouTubeURLKind,
    pub id: String,
}

/// A link to a video as the contracts see it.
pub struct YouTubeURLView {
    pub url: UrlPartsView,
    pub kind: YouTubeURLKind,
    pub id: Seq<char>,
}

impl View for YouTubeURL {
    type V = YouTubeURLView;

    open spec fn view(&self) -> YouTubeURLView {
        YouTubeURLView { url: self.url@, kind: self.kind, id: self.id@ }
    }
}

impl Clone for YouTubeURL {
    fn clone(&self) -> (r: YouTubeURL)
        ensures
            r@ == self@,
    {
        YouTubeURL { url: self.url.clone(), kind: self.kind, id: self.id.clone() }
    }
}

impl YouTubeURLKind {
    /// The line that stands for the shape in a message shown to the user.
    pub open spec fn display_text(self) -> Seq<char> {
        match self {
            YouTubeURLKind::Short => "Short\n"@,
            YouTubeURLKind::Embed => "Embed\n"@,
            YouTubeURLKind::Regular => "Regular\n"@,
            YouTubeURLKind::Invalid => "Invalid\n"@,
        }
    }

    /// The shape as a line of text.
    pub fn to_string(&self) -> (r: String)
        ensures
            r@ == self.display_text(),
    {
        match self {
            YouTubeURLKind::Short => String::from_str("Short\n"),
            YouTubeURLKind::Embed => String::from_str("Embed\n"),
            YouTubeURLKind::Regular => String::from_str("Regular\n"),
            YouTubeURLKind::Invalid => String::from_str("Invalid\n"),
        }
    }
}

/// The shape of a path of which it is known whether each of the three
/// patterns matches it: the first that matches decides.
pub open spec fn kind_from_matches_spec(regular: bool, short: bool, embed: bool)
    -> YouTubeURLKind {
    if regular {
        YouTubeURLKind::Regular
    } else if short {
        YouTubeURLKind::Short
    } else if embed {
        YouTubeURLKind::Embed
    } else {
        YouTubeURLKind::Invalid
    }
}

/// The shape of a path of which it is known whether each of the three
/// patterns matches it.
pub fn kind_from_matches(regular: bool, short: bool, embed: bool) -> (r: YouTubeURLKind)
    ensures
        r == kind_from_matches_spec(regular, short, embed),
{
    if regular {
        YouTubeURLKind::Regular
    } else if short {
        YouTubeURLKind::Short
    } else if embed {
        YouTubeURLKind::Embed
    } else {
        YouTubeURLKind::Invalid
    }
}

/// The shape of the link whose path is `path`: a path that begins with
/// `/watch` is that of a video's own page, one that begins with `/shorts`
/// that of a short video, one that begins with `/embed` that of an embedded
/// player, and any other path is of no known shape.
pub open spec fn kind_of_path(path: Seq<char>) -> YouTubeURLKind {
    kind_from_matches_spec(
        "/watch"@.is_prefix_of(path),
        "/shorts"@.is_prefix_of(path),
        "/embed"@.is_prefix_of(path),
    )
}

/// Each of the three patterns for paths is anchored, and its word is the one
/// that `kind_of_path` looks for.
pub proof fn lemma_patterns_are_anchored()
    ensures
        anchored_word(PATTERN_REGULAR@) == Some("watch"@),
        anchored_word(PATTERN_SHORT@) == Some("shorts"@),
        anchored_word(PATTERN_EMBED@) == Some("embed"@),
        seq!['/'] + "watch"@ == "/watch"@,
        seq!['/'] + "shorts"@ == "/shorts"@,
        seq!['/'] + "embed"@ == "/embed"@,
{
    reveal_strlit("^\\/watch");
    reveal_strlit("^\\/shorts");
    reveal_strlit("^\\/embed");
    reveal_strlit("watch");
    reveal_strlit("shorts");
    reveal_strlit("embed");
    reveal_strlit("/watch");
    reveal_strlit("/shorts");
    reveal_strlit("/embed");
    assert(PATTERN_REGULAR@.skip(3) =~= "watch"@);
    assert(PATTERN_SHORT@.skip(3) =~= "shorts"@);
    assert(PATTERN_EMBED@.skip(3) =~= "embed"@);
    assert(seq!['/'] + "watch"@ =~= "/watch"@);
    assert(seq!['/'] + "shorts"@ =~= "/shorts"@);
    assert(seq!['/'] + "embed"@ =~= "/embed"@);
}

/// Whether the text `href` of a link matches `PATTERN_LINK`. A pattern that
/// is not taken matches nothing.
pub open spec fn link_matches(href: Seq<char>) -> bool {
    regex_match(PATTERN_LINK@, href) == Some(true)
}

/// The value of the first parameter called `name` in the query `query`,
/// whose parameters are separated by `&` and hold their value after `=`.
pub open spec fn query_value(query: Seq<char>, name: Seq<char>) -> Option<Seq<char>>
    decreases query.len(),
{
    let pair = piece(query, '&');
    let key = piece(pair, '=');
    if key == name {
        Some(
            if key.len() < pair.len() {
                pair.skip(key.len() as int + 1)
            } else {
                Seq::empty()
            },
        )
    } else if pair.len() + 1 <= query.len() {
        query_value(query.skip(pair.len() as int + 1), name)
    } else {
        None
    }
}

/// The segment of `path` that follows the first segment equal to `keyword`;
/// empty where no segment is `keyword` or none follows it.
pub open spec fn segment_after(path: Seq<char>, keyword: Seq<char>) -> Seq<char>
    decreases path.len(),
{
    let segment = piece(path, '/');
    if segment.len() + 1 <= path.len() {
        let rest = path.skip(segment.len() as int + 1);
        if segment == keyword {
            piece(rest, '/')
        } else {
            segment_after(rest, keyword)
        }
    } else {
        Seq::empty()
    }
}

/// The identifier of the video that a link of the shape `kind` names: for a
/// video's own page the value of the parameter `v`, for a short video or an
/// embedded player the segment of the path after `shorts` or `embed`, and
/// the word `invalid` for any other link.
pub open spec fn id_of(url: UrlPartsView, kind: YouTubeURLKind) -> Seq<char> {
    match kind {
        YouTubeURLKind::Invalid => "invalid"@,
        YouTubeURLKind::Regular => match url.query {
            Some(query) => match query_value(query, "v"@) {
                Some(value) => value,
                None => Seq::empty(),
            },
            None => Seq::empty(),
        },
        YouTubeURLKind::Short => segment_after(url.path, "shorts"@),
        YouTubeURLKind::Embed => segment_after(url.path, "embed"@),
    }
}

/// Whether a link is acceptable, when `matched` says whether its text matches
/// `PATTERN_LINK`: it must match, and its shape must be a known one.
pub open spec fn judge_spec(link: YouTubeURLView, matched: bool) -> Result<(), ErrorView> {
    if !matched {
        Err(ErrorView { kind: ErrorKind::InvalidURL, value: "bad url: "@ + link.url.href })
    } else if link.kind is Invalid {
        Err(
            ErrorView {
                kind: ErrorKind::InvalidURLType,
                value: "bad type: "@ + link.kind.display_text(),
            },
        )
    } else {
        Ok(())
    }
}

/// Whether a link is acceptable: its text must match `PATTERN_LINK`, and its
/// shape must be a known one.
pub open spec fn validate_spec(link: YouTubeURLView) -> Result<(), ErrorView> {
    judge_spec(link, link_matches(link.url.href))
}

/// The error that refuses a link for the reason `e`.
pub open spec fn refusal(e: ErrorView) -> ErrorView {
    ErrorView { kind: ErrorKind::InvalidURL, value: "error: "@ + e.debug_text() }
}

/// What becomes of a link once it is judged: it is kept where it is
/// acceptable, and refused for the reason given where it is not.
pub open spec fn accept_spec(link: YouTubeURLView, verdict: Result<(), ErrorView>) -> Result<
    YouTubeURLView,
    ErrorView,
> {
    match verdict {
        Ok(()) => Ok(link),
        Err(e) => Err(refusal(e)),
    }
}

/// The link that `url` is, with its shape and identifier, or the reason why
/// it is not acceptable.
pub open spec fn new_spec(url: UrlPartsView) -> Result<YouTubeURLView, ErrorView> {
    let kind = kind_of_path(url.path);
    let link = YouTubeURLView { url, kind, id: id_of(url, kind) };
    accept_spec(link, validate_spec(link))
}

/// Whether `url` has all that a link to a video needs: a path of one of the
/// three known shapes, and a text that matches `PATTERN_LINK`.
pub open spec fn acceptable(url: UrlPartsView) -> bool {
    &&& !(kind_of_path(url.path) is Invalid)
    &&& link_matches(url.href)
}

/// A link is accepted exactly when it is acceptable, and is then kept as it
/// came, with the shape of its path and the identifier that goes with it.
pub proof fn lemma_new_accepts(url: UrlPartsView)
    ensures
        new_spec(url) is Ok <==> acceptable(url),
        (new_spec(url) matches Ok(link) ==> {
            &&& link.url == url
            &&& link.kind == kind_of_path(url.path)
            &&& !(link.kind is Invalid)
            &&& link.id == id_of(url, link.kind)
        }),
{
}

/// A refusal says why: a text that does not match `PATTERN_LINK` is a bad
/// link, whatever its shape; one that matches but has no known shape is a
/// link of a bad type.
pub proof fn lemma_validate_reasons(link: YouTubeURLView)
    ensures
        validate_spec(link) is Ok <==> link_matches(link.url.href) && !(link.kind is Invalid),
        validate_spec(link) is Err ==> (validate_spec(link)->Err_0.kind == ErrorKind::InvalidURL
            <==> !link_matches(link.url.href)),
        validate_spec(link) is Err ==> (validate_spec(link)->Err_0.kind
            == ErrorKind::InvalidURLType <==> link_matches(link.url.href)),
{
}

/// A value found in a query holds no `&`.
pub proof fn lemma_query_value_is_one_value(query: Seq<char>, name: Seq<char>)
    ensures
        query_value(query, name) matches Some(value) ==> forall|j: int|
            0 <= j < value.len() ==> value[j] != '&',
    decreases query.len(),
{
    let pair = piece(query, '&');
    let key = piece(pair, '=');
    lemma_piece(query, '&');
    lemma_piece(pair, '=');
    if key == name {
        if key.len() < pair.len() {
            let value = pair.skip(key.len() as int + 1);
            assert forall|j: int| 0 <= j < value.len() implies value[j] != '&' by {
                assert(value[j] == pair[key.len() + 1 + j]);
            }
        }
    } else if pair.len() + 1 <= query.len() {
        lemma_query_value_is_one_value(query.skip(pair.len() as int + 1), name);
    }
}

/// A segment found in a path holds no `/`.
pub proof fn lemma_segment_after_is_one_segment(path: Seq<char>, keyword: Seq<char>)
    ensures
        forall|j: int|
            0 <= j < segment_after(path, keyword).len() ==> segment_after(path, keyword)[j] != '/',
    decreases path.len(),
{
    let segment = piece(path, '/');
    if segment.len() + 1 <= path.len() {
        let rest = path.skip(segment.len() as int + 1);
        if segment == keyword {
            lemma_piece(rest, '/');
            assert(segment_after(path, keyword) == piece(rest, '/'));
        } else {
            lemma_segment_after_is_one_segment(rest, keyword);
            assert(segment_after(path, keyword) == segment_after(rest, keyword));
        }
    } else {
        assert(segment_after(path, keyword).len() == 0);
    }
}

/// Whether `haystack` begins with a slash and the word of the anchored
/// pattern `pattern`.
fn begins(pattern: &str, haystack: &str) -> (r: bool)
    requires
        anchored_word(pattern@) is Some,
    ensures
        r == (seq!['/'] + anchored_word(pattern@)->Some_0).is_prefix_of(haystack@),
{
    is_match(pattern, haystack).unwrap()
}

/// The value of the first parameter called `name` in `query`.
pub fn find_query_value(query: &str, name: &str) -> (r: Option<String>)
    ensures
        opt_view(r) == query_value(query@, name@),
{
    let q = to_chars(query);
    let n = to_chars(name);
    let mut start: usize = 0;
    assert(q@.skip(0) =~= q@);
    loop
        invariant
            q@ == query@,
            n@ == name@,
            start <= q.len(),
            query_value(query@, name@) == query_value(q@.skip(start as int), n@),
        decreases q.len() - start,
    {
        let end = find(&q, start, q.len(), '&');
        let eq = find(&q, start, end, '=');
        proof {
            let rest = q@.skip(start as int);
            assert(q@.subrange(start as int, q.len() as int) =~= rest);
            let pair = piece(rest, '&');
            assert(pair =~= q@.subrange(start as int, end as int));
            let key = piece(pair, '=');
            assert(key =~= q@.subrange(start as int, eq as int));
            if end < q.len() {
                assert(rest.skip(pair.len() as int + 1) =~= q@.skip(end + 1));
            }
            if eq < end {
                assert(pair.skip(key.len() as int + 1) =~= q@.subrange(eq + 1, end as int));
            }
        }
        if range_eq(&q, start, eq, &n) {
            if eq < end {
                let value = query.substring_char(eq + 1, end);
                return Some(String::from_str(value));
            } else {
                return Some(String::new());
            }
        } else if end < q.len() {
            start = end + 1;
        } else {
            return None;
        }
    }
}

/// The segment of `path` that follows the first segment equal to `keyword`.
pub fn find_segment_after(path: &str, keyword: &str) -> (r: String)
    ensures
        r@ == segment_after(path@, keyword@),
{
    let p = to_chars(path);
    let k = to_chars(keyword);
    let mut start: usize = 0;
    assert(p@.skip(0) =~= p@);
    loop
        invariant
            p@ == path@,
            k@ == keyword@,
            start <= p.len(),
            segment_after(path@, keyword@) == segment_after(p@.skip(start as int), k@),
        decreases p.len() - start,
    {
        let end = find(&p, start, p.len(), '/');
        proof {
            let rest = p@.skip(start as int);
            assert(p@.subrange(start as int, p.len() as int) =~= rest);
            assert(piece(rest, '/') =~= p@.subrange(start as int, end as int));
            if end < p.len() {
                assert(rest.skip(end - start + 1) =~= p@.skip(end + 1));
            }
        }
        if end < p.len() {
            if range_eq(&p, start, end, &k) {
                let stop = find(&p, end + 1, p.len(), '/');
                proof {
                    let after = p@.skip(end + 1);
                    assert(p@.subrange(end + 1, p.len() as int) =~= after);
                    assert(piece(after, '/') =~= p@.subrange(end + 1, stop as int));
                }
                let segment = path.substring_char(end + 1, stop);
                return String::from_str(segment);
            } else {
                start = end + 1;
            }
        } else {
            return String::new();
        }
    }
}

impl YouTubeURL {
    /// Reads `url` as a link to a video.
    pub fn new(url: UrlParts) -> (r: Result<YouTubeURL, Error>)
        ensures
            result_view(r) == new_spec(url@),
    {
        let kind = match YouTubeURL::get_type(url.clone()) {
            Ok(kind) => kind,
            Err(e) => {
                return Err(e);
            },
        };
        let id = match YouTubeURL::get_id(url.clone(), kind) {
            Ok(id) => id,
            Err(e) => {
                return Err(e);
            },
        };
        let link = YouTubeURL { url, kind, id };
        let verdict = link.validate();
        YouTubeURL::accept(link, verdict)
    }

    /// Keeps `link` where `verdict` finds it acceptable, and refuses it for
    /// the reason that `verdict` gives where it does not.
    pub fn accept(link: YouTubeURL, verdict: Result<(), Error>) -> (r: Result<YouTubeURL, Error>)
        ensures
            result_view(r) == accept_spec(link@, result_view(verdict)),
    {
        match verdict {
            Ok(()) => Ok(link),
            Err(e) => {
                let text = e.to_debug_string();
                let mut value = String::from_str("error: ");
                value.append(text.as_str());
                Err(Error { kind: ErrorKind::InvalidURL, value })
            },
        }
    }

    /// The shape of `url`, judged by its path. It is always found.
    pub fn get_type(url: UrlParts) -> (r: Result<YouTubeURLKind, Error>)
        ensures
            result_view(r) == Ok::<YouTubeURLKind, ErrorView>(kind_of_path(url@.path)),
    {
        proof {
            lemma_patterns_are_anchored();
        }
        let path = url.path.as_str();
        let embed = begins(PATTERN_EMBED, path);
        let short = begins(PATTERN_SHORT, path);
        let regular = begins(PATTERN_REGULAR, path);
        Ok(kind_from_matches(regular, short, embed))
    }

    /// Whether the link is acceptable.
    pub fn validate(&self) -> (r: Result<(), Error>)
        ensures
            result_view(r) == validate_spec(self@),
    {
        let matched = match is_match(PATTERN_LINK, self.url.href.as_str()) {
            Some(matched) => matched,
            None => false,
        };
        self.judge(matched)
    }

    /// Whether the link is acceptable, when `matched` says whether its text
    /// matches `PATTERN_LINK`.
    pub fn judge(&self, matched: bool) -> (r: Result<(), Error>)
        ensures
            result_view(r) == judge_spec(self@, matched),
    {
        if !matched {
            let mut value = String::from_str("bad url: ");
            value.append(self.url.href.as_str());
            Err(Error { kind: ErrorKind::InvalidURL, value })
        } else if self.kind == YouTubeURLKind::Invalid {
            let shape = self.kind.to_string();
            let mut value = String::from_str("bad type: ");
            value.append(shape.as_str());
            Err(Error { kind: ErrorKind::InvalidURLType, value })
        } else {
            Ok(())
        }
    }

    /// The identifier of the video that `url`, a link of the shape `kind`,
    /// names. It is always found, though it may be empty.
    pub fn get_id(url: UrlParts, kind: YouTubeURLKind) -> (r: Result<String, Error>)
        ensures
            result_view(r) == Ok::<Seq<char>, ErrorView>(id_of(url@, kind)),
    {
        match kind {
            YouTubeURLKind::Invalid => Ok(String::from_str("invalid")),
            YouTubeURLKind::Regular => {
                match &url.query {
                    Some(query) => {
                        match find_query_value(query.as_str(), "v") {
                            Some(value) => Ok(value),
                            None => Ok(String::new()),
                        }
                    },
                    None => Ok(String::new()),
                }
            },
            YouTubeURLKind::Short => Ok(find_segment_after(url.path.as_str(), "shorts")),
            YouTubeURLKind::Embed => Ok(find_segment_after(url.path.as_str(), "embed")),
        }
    }
}

} // verus!
