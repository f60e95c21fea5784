use vstd::prelude::*;

use crate::music::AMusicSongInfo;
use crate::text::{find_sep, find_separator, lemma_find_sep_bounds, separator};

verus! {

/// The pattern of a classical-music line: `By <composer> — <performer> — <album>`.
pub const COMPOSER_PERFORMER: &'static str = "By (.+) \u{2014} (.+) \u{2014} (.+)";

/// Groups 1 to 3 of the leftmost-first match of a regular expression in a text, if it matches.
pub uninterp spec fn captures3_of(pattern: Seq<char>, text: Seq<char>) -> Option<
    (Seq<char>, Seq<char>, Seq<char>),
>;

/// A field of a classical-music line: not empty, with no em dash and no line break.
pub open spec fn plain_field(s: Seq<char>) -> bool {
    s.len() > 0 && forall|i: int| 0 <= i < s.len() ==> #[trigger] s[i] != '\u{2014}' && s[i] != '\n'
}

/// `By <composer> — <performer> — <album>`.
pub open spec fn by_line(composer: Seq<char>, performer: Seq<char>, album: Seq<char>) -> Seq<
    char,
> {
    seq!['B', 'y', ' '] + composer + separator() + performer + separator() + album
}

/// The line holds no two separators that do not overlap.
pub open spec fn fewer_than_two_separators(s: Seq<char>) -> bool {
    match find_sep(s, 0) {
        None => true,
        Some(i) => find_sep(s, i + 3) is None,
    }
}

pub open spec fn captures_view(g: Option<(String, String, String)>) -> Option<
    (Seq<char>, Seq<char>, Seq<char>),
> {
    match g {
        Some(t) => Some((t.0@, t.1@, t.2@)),
        None => None,
    }
}

/// Artist and album of a line split on its separators: the first two parts, or the whole
/// line twice where it holds no separator.
pub open spec fn split_fields(s: Seq<char>) -> (Seq<char>, Seq<char>) {
    match find_sep(s, 0) {
        None => (s, s),
        Some(i) => match find_sep(s, i + 3) {
            None => (s.take(i), s.skip(i + 3)),
            Some(j) => (s.take(i), s.subrange(i + 3, j)),
        },
    }
}

/// Artist and album of a line: from the composer / performer groups where the line is a
/// classical-music line, else from its separators.
pub open spec fn song_fields(
    line: Seq<char>,
    captures: Option<(Seq<char>, Seq<char>, Seq<char>)>,
    composer_as_artist: bool,
) -> (Seq<char>, Seq<char>) {
    match captures {
        Some(g) => (
            if composer_as_artist {
                g.0
            } else {
                g.1
            },
            g.2,
        ),
        None => split_fields(line),
    }
}

/// Relies on regex::Regex::new to compile `pattern` and on Regex::captures for the
/// leftmost-first match in `text`, whose groups 1 to 3 are handed out. `.` matches any
/// character but a line break, and `(.+)` is greedy.
#[verifier::external_body]
fn captures3(pattern: &str, text: &str) -> (r: Option<(String, String, String)>)
    requires
        pattern@ == COMPOSER_PERFORMER@,
    ensures
        captures_view(r) == captures3_of(pattern@, text@),
        forall|a: Seq<char>, b: Seq<char>, c: Seq<char>|
            plain_field(a) && plain_field(b) && plain_field(c) && text@ == #[trigger] by_line(a, b, c)
                ==> captures_view(r) == Some((a, b, c)),
        fewer_than_two_separators(text@) ==> r is None,
{
    let re = regex::Regex::new(pattern).unwrap();
    re.captures(text).map(|c| (c[1].to_string(), c[2].to_string(), c[3].to_string()))
}

/// The song record of a title and an artist / album line, given what the classical-music
/// pattern captured in the line.
pub fn song_from_captures(
    song_name: &str,
    song_album_artist: &str,
    captures: Option<(String, String, String)>,
    composer_as_artist: bool,
) -> (r: AMusicSongInfo)
    ensures
        r.song@ == song_name@,
        (r.artist@, r.album@) == song_fields(
            song_album_artist@,
            captures_view(captures),
            composer_as_artist,
        ),
{
    let song = song_name.to_owned();
    match captures {
        Some((composer, performer, album)) => {
            let artist = if composer_as_artist {
                composer
            } else {
                performer
            };
            AMusicSongInfo { song, artist, album }
        },
        None => {
            let line = song_album_artist;
            let n = line.unicode_len();
            match find_separator(line, n, 0) {
                None => AMusicSongInfo { song, artist: line.to_owned(), album: line.to_owned() },
                Some(i) => {
                    proof {
                        lemma_find_sep_bounds(line@, 0);
                    }
                    let artist = line.substring_char(0, i).to_owned();
                    match find_separator(line, n, i + 3) {
                        None => {
                            let album = line.substring_char(i + 3, n).to_owned();
                            proof {
                                assert(line@.subrange(0, i as int) =~= line@.take(i as int));
                                assert(line@.subrange(i + 3, n as int) =~= line@.skip(i + 3));
                            }
                            AMusicSongInfo { song, artist, album }
                        },
                        Some(j) => {
                            proof {
                                lemma_find_sep_bounds(line@, i + 3);
                                assert(line@.subrange(0, i as int) =~= line@.take(i as int));
                            }
                            let album = line.substring_char(i + 3, j).to_owned();
                            AMusicSongInfo { song, artist, album }
                        },
                    }
                },
            }
        },
    }
}

/// Reads song, artist and album from the title line and the artist / album line.
/// A line `By A — B — C` gives album C and artist B (A where `composer_as_artist`);
/// another line is split on ` — `, its first two parts being artist and album, and a line
/// with no separator is both.
pub fn parse_artist_and_album(
    song_name: &str,
    song_album_artist: &str,
    composer_as_artist: bool,
) -> (r: Option<AMusicSongInfo>)
    ensures
        r is Some,
        r->0.song@ == song_name@,
        (r->0.artist@, r->0.album@) == song_fields(
            song_album_artist@,
            captures3_of(COMPOSER_PERFORMER@, song_album_artist@),
            composer_as_artist,
        ),
        forall|a: Seq<char>, b: Seq<char>, c: Seq<char>|
            plain_field(a) && plain_field(b) && plain_field(c) && song_album_artist@
                == #[trigger] by_line(a, b, c) ==> r->0.artist@ == (if composer_as_artist {
                a
            } else {
                b
            }) && r->0.album@ == c,
        find_sep(song_album_artist@, 0) is None ==> r->0.artist@ == song_album_artist@
            && r->0.album@ == song_album_artist@,
        forall|i: int|
            find_sep(song_album_artist@, 0) == Some(i) && #[trigger] find_sep(
                song_album_artist@,
                i + 3,
            ) is None ==> r->0.artist@ == song_album_artist@.take(i) && r->0.album@
                == song_album_artist@.skip(i + 3),
{
    let captures = captures3(COMPOSER_PERFORMER, song_album_artist);
    Some(song_from_captures(song_name, song_album_artist, captures, composer_as_artist))
}

} // verus!

verus! {

/// One scroll-view line of the field panel: the bottom of its bounding box and its accessible
/// name, each absent where it could not be read.
#[derive(Debug, Clone)]
pub struct SongField {
    pub bottom: Option<i32>,
    pub name: Option<String>,
}

/// Of the first two lines, the title is the one drawn higher (smaller bottom); on a tie the
/// first one. Returns (title, artist / album line).
pub open spec fn title_and_line(first: SongField, second: SongField) -> (SongField, SongField) {
    if first.bottom->0 > second.bottom->0 {
        (second, first)
    } else {
        (first, second)
    }
}

/// The song shown by the scroll-view lines of the field panel. `None` where there are fewer
/// than two lines, or a bottom or a name of the first two cannot be read.
pub fn song_from_fields(fields: &Vec<SongField>) -> (r: Option<AMusicSongInfo>)
    ensures
        fields@.len() < 2 ==> r is None,
        fields@.len() >= 2 ==> {
            let (title, line) = title_and_line(fields@[0], fields@[1]);
            &&& r is Some <==> fields@[0].bottom is Some && fields@[1].bottom is Some
                && title.name is Some && line.name is Some
            &&& r is Some ==> {
                &&& r->0.song@ == title.name->0@
                &&& (r->0.artist@, r->0.album@) == song_fields(
                    line.name->0@,
                    captures3_of(COMPOSER_PERFORMER@, line.name->0@),
                    false,
                )
            }
        },
{
    if fields.len() < 2 {
        return None;
    }
    let first = &fields[0];
    let second = &fields[1];
    let (b0, b1) = match (first.bottom, second.bottom) {
        (Some(b0), Some(b1)) => (b0, b1),
        _ => {
            return None;
        },
    };
    let (title, line) = if b0 > b1 {
        (second, first)
    } else {
        (first, second)
    };
    match (&title.name, &line.name) {
        (Some(t), Some(l)) => parse_artist_and_album(t.as_str(), l.as_str(), false),
        _ => None,
    }
}

} // verus!
