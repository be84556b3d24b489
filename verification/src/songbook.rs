//! Songs of the songbook that the party sings from.

use vstd::prelude::*;

use crate::config::SongbookConfig;
use crate::text::{push_str, str_to_string};

verus! {

/// A song of the songbook. Two songs are the same song when their ids are
/// equal, whatever the other fields hold.
#[derive(Debug)]
pub struct SongbookSong {
    pub id: String,
    pub url: Option<String>,
    pub title: Option<String>,
    pub book: Option<String>,
    pub queued_by: Option<String>,
}

/// A copy of an optional string.
pub fn clone_opt_string(o: &Option<String>) -> (r: Option<String>)
    ensures
        r == *o,
{
    match o {
        Some(s) => Some(s.clone()),
        None => None,
    }
}

impl Clone for SongbookSong {
    fn clone(&self) -> (r: Self)
        ensures
            r == *self,
    {
        SongbookSong {
            id: self.id.clone(),
            url: clone_opt_string(&self.url),
            title: clone_opt_string(&self.title),
            book: clone_opt_string(&self.book),
            queued_by: clone_opt_string(&self.queued_by),
        }
    }
}

impl Default for SongbookSong {
    fn default() -> (r: Self)
        ensures
            r.id@ == Seq::<char>::empty(),
            r.url is None,
            r.title is None,
            r.book is None,
            r.queued_by is None,
    {
        SongbookSong { id: String::new(), url: None, title: None, book: None, queued_by: None }
    }
}

impl PartialEq for SongbookSong {
    fn eq(&self, other: &Self) -> (r: bool) {
        self.id == other.id
    }
}

impl vstd::std_specs::cmp::PartialEqSpecImpl for SongbookSong {
    open spec fn obeys_eq_spec() -> bool {
        true
    }

    open spec fn eq_spec(&self, other: &Self) -> bool {
        self.id@ == other.id@
    }
}

/// The title of a song, or its id when it has none.
pub open spec fn title_or_id(song: SongbookSong) -> Seq<char> {
    match song.title {
        Some(t) => t@,
        None => song.id@,
    }
}

/// How a song is shown to people: its title (or id), followed by the book
/// in parentheses when the book is known.
pub open spec fn display_text(song: SongbookSong) -> Seq<char> {
    match song.book {
        Some(b) => title_or_id(song) + " ("@ + b@ + ")"@,
        None => title_or_id(song),
    }
}

impl SongbookSong {
    /// The title of the song, or its id when it has none.
    pub fn title_or_id(&self) -> (s: String)
        ensures
            s@ == title_or_id(*self),
    {
        match &self.title {
            Some(t) => t.clone(),
            None => self.id.clone(),
        }
    }

    /// The text that shows the song to people, as in "Helan går (TF:s
    /// Sångbok)".
    pub fn to_display_string(&self) -> (s: String)
        ensures
            s@ == display_text(*self),
    {
        let mut s = self.title_or_id();
        match &self.book {
            Some(b) => {
                push_str(&mut s, " (");
                push_str(&mut s, b.as_str());
                push_str(&mut s, ")");
            },
            None => {},
        }
        s
    }
}

/// An optional text by its characters.
pub open spec fn opt_chars(o: Option<String>) -> Option<Seq<char>> {
    match o {
        Some(s) => Some(s@),
        None => None,
    }
}

/// The capture groups of the first match of a pattern in a text (group 0
/// being the whole match), or `None` when it does not match.
pub uninterp spec fn regex_captures(pattern: Seq<char>, text: Seq<char>) -> Option<Seq<Option<Seq<char>>>>;

/// `regex::Regex::captures` for the regular expression written in
/// `pattern`: the groups of the first match in `text` (absent groups as
/// `None`), or `None` when nothing matches or `pattern` is not a valid
/// regular expression. The result is named `regex_captures`; nothing more
/// of it is stated.
#[verifier::external_body]
fn captures(pattern: &str, text: &str) -> (r: Option<Vec<Option<String>>>)
    ensures
        match r {
            Some(groups) => regex_captures(pattern@, text@) == Some(groups@.map_values(|g: Option<String>| opt_chars(g))),
            None => regex_captures(pattern@, text@) is None,
        },
{
    let re = match regex::Regex::new(pattern) {
        Ok(re) => re,
        Err(_) => return None,
    };
    let caps = match re.captures(text) {
        Some(caps) => caps,
        None => return None,
    };
    Some(caps.iter().map(|m| m.map(|m| m.as_str().to_string())).collect())
}

/// The text of the first text node of the first element that a CSS
/// selector picks in an HTML document.
pub uninterp spec fn first_text_of(html: Seq<char>, selector: Seq<char>) -> Option<Seq<char>>;

/// `scraper`: parses `html` as a document (`Html::parse_document`) and gives
/// the first text node of the first element that `selector` picks
/// (`Html::select`, `ElementRef::text`), or `None` when none is picked, it
/// has no text, or `selector` is not valid. The result is named
/// `first_text_of`; nothing more of it is stated.
#[verifier::external_body]
fn select_first_text(html: &str, selector: &str) -> (r: Option<String>)
    ensures
        opt_chars(r) == first_text_of(html@, selector@),
{
    let sel = match scraper::Selector::parse(selector) {
        Ok(sel) => sel,
        Err(_) => return None,
    };
    let doc = scraper::Html::parse_document(html);
    let first = match doc.select(&sel).next() {
        Some(e) => e,
        None => return None,
    };
    first.text().next().map(|t| t.to_string())
}

/// Why the song of a songbook URL could not be found.
#[derive(Clone, Debug)]
pub enum SongInfoError {
    /// The URL is not a songbook URL.
    UrlMismatch { songbook_url: String },
    /// The URL holds no song id.
    NoIdInUrl,
}

/// The text that describes a song lookup error.
pub open spec fn song_info_error_text(e: SongInfoError) -> Seq<char> {
    match e {
        SongInfoError::UrlMismatch { songbook_url } => "URL mismatch, try pasting a URL from "@
            + songbook_url@,
        SongInfoError::NoIdInUrl => "No ID found in URL"@,
    }
}

impl SongInfoError {
    /// The text that describes the error.
    pub fn message(&self) -> (s: String)
        ensures
            s@ == song_info_error_text(*self),
    {
        match self {
            SongInfoError::UrlMismatch { songbook_url } => {
                let mut s = str_to_string("URL mismatch, try pasting a URL from ");
                push_str(&mut s, songbook_url.as_str());
                assert(s@ =~= song_info_error_text(*self));
                s
            },
            SongInfoError::NoIdInUrl => str_to_string("No ID found in URL"),
        }
    }
}

/// The song id in a songbook URL: the second capture group of the
/// configured pattern.
pub open spec fn url_song_id(url: Seq<char>, pattern: Seq<char>) -> Option<Seq<char>> {
    match regex_captures(pattern, url) {
        Some(groups) => if groups.len() > 2 {
            groups[2]
        } else {
            None
        },
        None => None,
    }
}

/// The song id in a songbook URL, or why there is none.
pub fn song_id_from_url(url: &str, config: &SongbookConfig) -> (r: Result<String, SongInfoError>)
    ensures
        match r {
            Ok(id) => regex_captures(config.songbook_re@, url@) is Some && url_song_id(
                url@,
                config.songbook_re@,
            ) == Some(id@),
            Err(SongInfoError::UrlMismatch { songbook_url }) => regex_captures(
                config.songbook_re@,
                url@,
            ) is None && songbook_url@ == config.songbook_url@,
            Err(SongInfoError::NoIdInUrl) => regex_captures(config.songbook_re@, url@) is Some
                && url_song_id(url@, config.songbook_re@) is None,
        },
{
    let groups = match captures(config.songbook_re.as_str(), url) {
        Some(groups) => groups,
        None => return Err(SongInfoError::UrlMismatch { songbook_url: config.songbook_url.clone() }),
    };
    if groups.len() > 2 {
        match &groups[2] {
            Some(id) => Ok(id.clone()),
            None => Err(SongInfoError::NoIdInUrl),
        }
    } else {
        Err(SongInfoError::NoIdInUrl)
    }
}

/// The song of a songbook page: its URL and id, the title from the page's
/// first heading, and the book from its tags, requested by `queued_by`.
pub fn song_from_page(url: &str, id: String, html: &str, queued_by: &String) -> (song: SongbookSong)
    ensures
        song.id@ == id@,
        song.url matches Some(u) && u@ == url@,
        opt_chars(song.title) == first_text_of(html@, "h1"@),
        opt_chars(song.book) == first_text_of(html@, "[class^=SongTags__Wrapper] > *:last-child"@),
        song.queued_by matches Some(q) && q@ == queued_by@,
{
    let title = select_first_text(html, "h1");
    let book = select_first_text(html, "[class^=SongTags__Wrapper] > *:last-child");
    SongbookSong { id, url: Some(str_to_string(url)), title, book, queued_by: Some(queued_by.clone()) }
}

} // verus!
