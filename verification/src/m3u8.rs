//! M3U8 playlists: the entries, reading them from text and writing them out.
use vstd::prelude::*;

use crate::duration::Duration;
use crate::path::{
    file_stem, file_stem_of, is_absolute, join, join_path, parent, parent_of, strip_prefix,
    strip_prefix_of,
};
use crate::playlist::PlaylistResult;
use crate::seconds::{
    index_of_char, lemma_decimal_numeral, lemma_find_char_at, lemma_parse_written_seconds,
    parse_seconds, parse_seconds_chars, slice_chars,
};
use crate::text::{
    chars_starts_with, decimal, find, find_char, find_chars, from_chars, is_whitespace,
    lemma_find_extend, lemma_split_first, lemma_split_none, lemma_trim_lengths, lemma_trim_unchanged,
    lemma_trimmed_ends, opt_chars, push_signed_decimal, push_str, signed_decimal, split_char,
    starts_with, to_chars, trim, trim_chars,
};

verus! {

/// An entry in an M3U8 playlist.
#[derive(Clone, Debug)]
pub struct M3u8Entry {
    /// Path to the audio file (relative or absolute)
    pub path: String,
    /// Track duration (if given in EXTINF)
    pub duration: Option<Duration>,
    /// Track title (if given in EXTINF)
    pub title: Option<String>,
    /// Artist name (if taken from the title)
    pub artist: Option<String>,
}

impl M3u8Entry {
    /// An entry with just a path.
    pub fn new(path: String) -> (r: Self)
        ensures
            r == (M3u8Entry { path, duration: None, title: None, artist: None }),
    {
        M3u8Entry { path, duration: None, title: None, artist: None }
    }

    /// An entry with full metadata.
    pub fn with_metadata(
        path: String,
        duration: Option<Duration>,
        title: Option<String>,
        artist: Option<String>,
    ) -> (r: Self)
        ensures
            r == (M3u8Entry { path, duration, title, artist }),
    {
        M3u8Entry { path, duration, title, artist }
    }
}

/// A parsed M3U8 playlist.
#[derive(Clone, Debug)]
pub struct M3u8Playlist {
    /// Playlist name (from the file name)
    pub name: String,
    /// Playlist entries
    pub entries: Vec<M3u8Entry>,
    /// Whether this is an extended M3U (with the `#EXTM3U` header)
    pub extended: bool,
}

/// The total of the durations of `entries`, or `None` as soon as one has no
/// duration.
pub open spec fn total_duration_of(entries: Seq<M3u8Entry>) -> Option<nat>
    decreases entries.len(),
{
    if entries.len() == 0 {
        Some(0)
    } else {
        match (total_duration_of(entries.drop_last()), entries.last().duration) {
            (Some(t), Some(d)) => Some(t + d.total()),
            _ => None,
        }
    }
}

/// Whether summing the durations of `entries` one by one, up to the first
/// entry without one, stays within what a duration can hold.
pub open spec fn durations_fit(entries: Seq<M3u8Entry>) -> bool {
    forall|k: int|
        0 <= k <= entries.len() ==> match #[trigger] total_duration_of(entries.take(k)) {
            Some(t) => t <= Duration::max_nanos(),
            None => true,
        }
}

impl M3u8Playlist {
    /// A new empty, extended playlist.
    pub fn new(name: &str) -> (r: Self)
        ensures
            r.name@ == name@,
            r.entries@ == Seq::<M3u8Entry>::empty(),
            r.extended,
    {
        let v = to_chars(name);
        M3u8Playlist { name: from_chars(&v), entries: Vec::new(), extended: true }
    }

    /// Adds an entry at the end.
    pub fn add(&mut self, entry: M3u8Entry)
        ensures
            final(self).entries@ == old(self).entries@.push(entry),
            final(self).name == old(self).name,
            final(self).extended == old(self).extended,
    {
        self.entries.push(entry);
    }

    /// Adds an entry with just a path at the end.
    pub fn add_path(&mut self, path: String)
        ensures
            final(self).entries@ == old(self).entries@.push(
                M3u8Entry { path, duration: None, title: None, artist: None },
            ),
            final(self).name == old(self).name,
            final(self).extended == old(self).extended,
    {
        self.entries.push(M3u8Entry::new(path));
    }

    /// The number of entries.
    pub fn len(&self) -> (r: usize)
        ensures
            r == self.entries@.len(),
    {
        self.entries.len()
    }

    /// Whether the playlist has no entries.
    pub fn is_empty(&self) -> (r: bool)
        ensures
            r == (self.entries@.len() == 0),
    {
        self.entries.len() == 0
    }

    /// The total duration, if every entry has one.
    pub fn total_duration(&self) -> (r: Option<Duration>)
        requires
            durations_fit(self.entries@),
        ensures
            match r {
                Some(d) => total_duration_of(self.entries@) == Some(d.total()),
                None => total_duration_of(self.entries@) is None,
            },
    {
        let mut total = Duration::zero();
        let mut i: usize = 0;
        while i < self.entries.len()
            invariant
                i <= self.entries@.len(),
                durations_fit(self.entries@),
                total_duration_of(self.entries@.take(i as int)) == Some(total.total()),
            decreases self.entries.len() - i,
        {
            assert(self.entries@.take(i + 1).drop_last() == self.entries@.take(i as int));
            match self.entries[i].duration {
                Some(d) => {
                    assert(total_duration_of(self.entries@.take(i + 1)) == Some(
                        total.total() + d.total(),
                    ));
                    match total.checked_add(d) {
                        Some(t) => {
                            total = t;
                        },
                        None => {
                            assert(false);
                            return None;
                        },
                    }
                },
                None => {
                    proof {
                        lemma_total_none_extends(self.entries@, i + 1);
                    }
                    return None;
                },
            }
            i = i + 1;
        }
        assert(self.entries@.take(i as int) == self.entries@);
        Some(total)
    }
}

/// Once a prefix has an unknown total duration, so has every longer list.
proof fn lemma_total_none_extends(entries: Seq<M3u8Entry>, k: int)
    requires
        0 <= k <= entries.len(),
        total_duration_of(entries.take(k)) is None,
    ensures
        total_duration_of(entries) is None,
    decreases entries.len() - k,
{
    if k < entries.len() {
        assert(entries.take(k + 1).drop_last() == entries.take(k));
        lemma_total_none_extends(entries, k + 1);
    } else {
        assert(entries.take(k) == entries);
    }
}


/// What an entry holds, with strings taken by their characters and the
/// duration by its seconds and nanoseconds.
pub struct EntryModel {
    pub path: Seq<char>,
    pub duration: Option<(u64, u32)>,
    pub title: Option<Seq<char>>,
    pub artist: Option<Seq<char>>,
}

/// A duration, when there is one, by its seconds and nanoseconds.
pub open spec fn opt_duration(d: Option<Duration>) -> Option<(u64, u32)> {
    match d {
        Some(x) => Some(x@),
        None => None,
    }
}

/// The characters of an optional string slice.
pub open spec fn opt_str(o: Option<&str>) -> Option<Seq<char>> {
    match o {
        Some(s) => Some(s@),
        None => None,
    }
}

impl View for M3u8Entry {
    type V = EntryModel;

    open spec fn view(&self) -> EntryModel {
        EntryModel {
            path: self.path@,
            duration: opt_duration(self.duration),
            title: opt_chars(self.title),
            artist: opt_chars(self.artist),
        }
    }
}

/// The models of a sequence of entries.
pub open spec fn entry_models(es: Seq<M3u8Entry>) -> Seq<EntryModel> {
    es.map_values(|e: M3u8Entry| e@)
}

/// `#EXTM3U`, the header of an extended playlist.
pub open spec fn extm3u_tag() -> Seq<char> {
    seq!['#', 'E', 'X', 'T', 'M', '3', 'U']
}

/// `#EXTINF:`, which starts the line of a track's duration and title.
pub open spec fn extinf_tag() -> Seq<char> {
    seq!['#', 'E', 'X', 'T', 'I', 'N', 'F', ':']
}

/// ` - `, between artist and title.
pub open spec fn title_separator() -> Seq<char> {
    seq![' ', '-', ' ']
}

/// What an `#EXTINF:` line gives after its tag: the duration before the
/// first comma (none when negative or not a number) and the trimmed title
/// after it (none without a comma).
pub open spec fn extinf_fields(info: Seq<char>) -> (Option<(u64, u32)>, Option<Seq<char>>) {
    match find_char(info, ',') {
        Some(i) => (parse_seconds(trim(info.take(i))), Some(trim(info.skip(i + 1)))),
        None => (parse_seconds(trim(info)), None),
    }
}

/// Artist and title from `Artist - Title`: split at the first separator and
/// trimmed; a title without a separator has no artist.
pub open spec fn title_fields(title: Option<Seq<char>>) -> (Option<Seq<char>>, Option<Seq<char>>) {
    match title {
        None => (None, None),
        Some(t) => match find(t, title_separator()) {
            Some(i) => (Some(trim(t.take(i))), Some(trim(t.skip(i + 3)))),
            None => (None, Some(t)),
        },
    }
}

/// The path of an entry line: absolute paths as they are, relative ones
/// joined onto the base directory when there is one.
pub open spec fn line_path(t: Seq<char>, base: Option<Seq<char>>) -> Seq<char> {
    if is_absolute(t) {
        t
    } else {
        match base {
            Some(b) => join(b, t),
            None => t,
        }
    }
}

/// The entry for a path line, with the metadata of the `#EXTINF:` line
/// before it when there was one.
pub open spec fn entry_for(
    path: Seq<char>,
    pending: Option<(Option<(u64, u32)>, Option<Seq<char>>)>,
) -> EntryModel {
    match pending {
        Some((d, title)) => EntryModel {
            path,
            duration: d,
            title: title_fields(title).1,
            artist: title_fields(title).0,
        },
        None => EntryModel { path, duration: None, title: None, artist: None },
    }
}

/// What reading one line does to the entries so far and the pending
/// `#EXTINF:` metadata. Blank lines, the header and other `#` lines change
/// nothing.
pub open spec fn read_line(
    st: (Seq<EntryModel>, Option<(Option<(u64, u32)>, Option<Seq<char>>)>),
    line: Seq<char>,
    base: Option<Seq<char>>,
) -> (Seq<EntryModel>, Option<(Option<(u64, u32)>, Option<Seq<char>>)>) {
    let t = trim(line);
    if t.len() == 0 || starts_with(t, extm3u_tag()) {
        st
    } else if starts_with(t, extinf_tag()) {
        (st.0, Some(extinf_fields(t.skip(8))))
    } else if t[0] == '#' {
        st
    } else {
        (st.0.push(entry_for(line_path(t, base), st.1)), None)
    }
}

/// Reading the lines in order.
pub open spec fn read_lines(
    lines: Seq<Seq<char>>,
    base: Option<Seq<char>>,
    st: (Seq<EntryModel>, Option<(Option<(u64, u32)>, Option<Seq<char>>)>),
) -> (Seq<EntryModel>, Option<(Option<(u64, u32)>, Option<Seq<char>>)>)
    decreases lines.len(),
{
    if lines.len() == 0 {
        st
    } else {
        read_lines(lines.drop_first(), base, read_line(st, lines[0], base))
    }
}

/// The entries of a playlist text.
pub open spec fn read_entries(text: Seq<char>, base: Option<Seq<char>>) -> Seq<EntryModel> {
    read_lines(split_char(text, '\n'), base, (seq![], None)).0
}

/// Whether a line, trimmed, starts with the `#EXTM3U` header.
pub open spec fn is_header_line(line: Seq<char>) -> bool {
    starts_with(trim(line), extm3u_tag())
}

/// Whether one of the lines is a header line.
pub open spec fn any_header_line(lines: Seq<Seq<char>>) -> bool
    decreases lines.len(),
{
    if lines.len() == 0 {
        false
    } else {
        is_header_line(lines[0]) || any_header_line(lines.drop_first())
    }
}

/// Whether a playlist text carries the `#EXTM3U` header on one of its lines,
/// which makes it an extended playlist.
pub open spec fn has_header(text: Seq<char>) -> bool {
    any_header_line(split_char(text, '\n'))
}

/// Reads playlists.
pub struct M3u8Reader;

/// The characters of a string, or `None`.
fn chars_string(v: &[char]) -> (r: String)
    ensures
        r@ == v@,
{
    from_chars(v)
}

impl M3u8Reader {
    /// The name of a playlist read from a file: the file's stem, or
    /// `Untitled`.
    pub fn playlist_name(path: &str) -> (r: String)
        ensures
            r@ == match file_stem_of(path@) {
                Some(s) => s,
                None => "Untitled"@,
            },
    {
        match file_stem(path) {
            Some(s) => s,
            None => "Untitled".to_owned(),
        }
    }

    /// The directory that the relative paths of a playlist file are taken
    /// from: the file's parent.
    pub fn base_dir(path: &str) -> (r: Option<String>)
        ensures
            opt_chars(r) == parent_of(path@),
    {
        parent(path)
    }

    /// Reads a playlist from its text. `base_dir` is the directory that
    /// relative paths are taken from. Lines are split at `\n` and trimmed.
    pub fn read_from_reader(text: &str, name: String, base_dir: Option<&str>) -> (r:
        PlaylistResult<M3u8Playlist>)
        ensures
            r matches Ok(p) && p.name == name && p.extended == has_header(text@) && entry_models(
                p.entries@,
            ) == read_entries(text@, opt_str(base_dir)),
    {
        let v = to_chars(text);
        let ghost base = opt_str(base_dir);
        let ghost init: (Seq<EntryModel>, Option<(Option<(u64, u32)>, Option<Seq<char>>)>) = (
            seq![],
            None,
        );
        let mut entries: Vec<M3u8Entry> = Vec::new();
        let mut pending: Option<(Option<Duration>, Option<String>)> = None;
        let mut start: usize = 0;
        let mut done = false;
        let mut seen = false;
        assert(v@.skip(0) =~= v@);
        assert(entry_models(entries@) =~= Seq::<EntryModel>::empty());
        while !done
            invariant
                v@ == text@,
                base == opt_str(base_dir),
                start <= v@.len(),
                !done ==> read_lines(split_char(v@.skip(start as int), '\n'), base, (
                    entry_models(entries@),
                    pending_model(pending),
                )) == read_lines(split_char(v@, '\n'), base, init),
                done ==> (entry_models(entries@), pending_model(pending)) == read_lines(
                    split_char(v@, '\n'),
                    base,
                    init,
                ),
                !done ==> (seen || any_header_line(split_char(v@.skip(start as int), '\n')))
                    == has_header(v@),
                done ==> seen == has_header(v@),
            decreases v@.len() - start, if done {
                0int
            } else {
                1int
            },
        {
            let ghost t = v@.skip(start as int);
            let ghost st = (entry_models(entries@), pending_model(pending));
            let j = index_of_char(&v, '\n', start);
            proof {
                assert forall|k: int| 0 <= k < j - start implies t[k] != '\n' by {
                    assert(t[k] == v@[start + k]);
                }
                if j < v.len() {
                    assert(t[j - start] == v@[j as int]);
                }
                lemma_find_char_at(t, '\n', j - start);
            }
            let line = slice_chars(&v, start, j);
            assert(line@ =~= t.take(j - start));
            let ghost lines = split_char(t, '\n');
            assert(lines[0] == line@);
            let header = Self::read_one_line(&line, base_dir, &mut entries, &mut pending);
            seen = seen || header;
            let ghost st2 = (entry_models(entries@), pending_model(pending));
            assert(any_header_line(lines) == (header || any_header_line(lines.drop_first())));
            assert(read_lines(lines, base, st) == read_lines(lines.drop_first(), base, st2));
            if j < v.len() {
                assert(t.skip(j - start + 1) =~= v@.skip(j + 1));
                assert(lines.drop_first() =~= split_char(v@.skip(j + 1), '\n'));
                start = j + 1;
            } else {
                assert(lines.drop_first() =~= Seq::<Seq<char>>::empty());
                assert(!any_header_line(lines.drop_first()));
                assert(read_lines(lines.drop_first(), base, st2) == st2);
                done = true;
            }
        }
        let mut p = M3u8Playlist { name, entries: Vec::new(), extended: seen };
        p.entries = entries;
        Ok(p)
    }

    /// Handles one line: records `#EXTINF:` metadata, or adds the entry of
    /// a path line.
    fn read_one_line(
        line: &Vec<char>,
        base_dir: Option<&str>,
        entries: &mut Vec<M3u8Entry>,
        pending: &mut Option<(Option<Duration>, Option<String>)>,
    ) -> (header: bool)
        ensures
            header == is_header_line(line@),
            (entry_models(final(entries)@), pending_model(*final(pending))) == read_line(
                (entry_models(old(entries)@), pending_model(*old(pending))),
                line@,
                opt_str(base_dir),
            ),
    {
        let t = trim_chars(line);
        proof {
            reveal_strlit("#EXTM3U");
            reveal_strlit("#EXTINF:");
            assert("#EXTM3U"@ =~= extm3u_tag());
            assert("#EXTINF:"@ =~= extinf_tag());
        }
        let header = chars_starts_with(&t, "#EXTM3U");
        if t.len() == 0 || header {
            return header;
        }
        if chars_starts_with(&t, "#EXTINF:") {
            let info = slice_chars(&t, 8, t.len());
            assert(info@ =~= t@.skip(8));
            let fields = Self::parse_extinf_chars(&info);
            *pending = Some(fields);
            return false;
        }
        if t[0] == '#' {
            return false;
        }
        let ts = chars_string(&t);
        let path = if path_chars_absolute(&t) {
            ts
        } else {
            match base_dir {
                Some(b) => join_path(b, ts.as_str()),
                None => ts,
            }
        };
        let ghost old_pending = pending_model(*pending);
        let entry = match pending.take() {
            Some((duration, title)) => {
                let (artist, track_title) = match &title {
                    Some(x) => Self::parse_title(Some(x.as_str())),
                    None => Self::parse_title(None),
                };
                M3u8Entry::with_metadata(path, duration, track_title, artist)
            },
            None => M3u8Entry::new(path),
        };
        assert(entry@ == entry_for(line_path(t@, opt_str(base_dir)), old_pending));
        let ghost before = entries@;
        entries.push(entry);
        assert(entry_models(entries@) =~= entry_models(before).push(entry@));
        false
    }

    /// The duration and title of an `#EXTINF:` line, given what follows
    /// the tag.
    pub fn parse_extinf(info: &str) -> (r: (Option<Duration>, Option<String>))
        ensures
            (opt_duration(r.0), opt_chars(r.1)) == extinf_fields(info@),
    {
        let v = to_chars(info);
        Self::parse_extinf_chars(&v)
    }

    fn parse_extinf_chars(v: &Vec<char>) -> (r: (Option<Duration>, Option<String>))
        ensures
            (opt_duration(r.0), opt_chars(r.1)) == extinf_fields(v@),
    {
        let n = v.len();
        let comma = index_of_char(v, ',', 0);
        proof {
            lemma_find_char_at(v@, ',', comma as int);
        }
        let head = slice_chars(v, 0, comma);
        assert(comma == n ==> head@ =~= v@);
        assert(head@ =~= v@.take(comma as int));
        let ht = trim_chars(&head);
        let d = parse_seconds_chars(&ht);
        if comma < n {
            let tail = slice_chars(v, comma + 1, n);
            assert(tail@ =~= v@.skip(comma + 1));
            let tt = trim_chars(&tail);
            (d, Some(chars_string(&tt)))
        } else {
            (d, None)
        }
    }

    /// Artist and title from a title of the form `Artist - Title`.
    pub fn parse_title(title: Option<&str>) -> (r: (Option<String>, Option<String>))
        ensures
            (opt_chars(r.0), opt_chars(r.1)) == title_fields(opt_str(title)),
    {
        match title {
            None => (None, None),
            Some(t) => {
                let v = to_chars(t);
                let sep = to_chars(" - ");
                proof {
                    reveal_strlit(" - ");
                }
                assert(sep@ =~= title_separator());
                let n = v.len();
                match find_chars(&v, &sep, 0) {
                    Some(i) => {
                        proof {
                            crate::text::lemma_find_from_bounds(v@, sep@, 0);
                            assert(i + 3 <= v@.len());
                        }
                        let a = slice_chars(&v, 0, i);
                        let b = slice_chars(&v, i + 3, n);
                        assert(a@ =~= v@.take(i as int));
                        assert(b@ =~= v@.skip(i + 3));
                        let at = trim_chars(&a);
                        let bt = trim_chars(&b);
                        (Some(chars_string(&at)), Some(chars_string(&bt)))
                    },
                    None => (None, Some(chars_string(&v))),
                }
            },
        }
    }
}

/// Whether a path, given by its characters, is absolute.
fn path_chars_absolute(v: &[char]) -> (r: bool)
    ensures
        r == is_absolute(v@),
{
    v.len() > 0 && v[0] == '/'
}

/// The pending `#EXTINF:` metadata, by its model.
pub open spec fn pending_model(p: Option<(Option<Duration>, Option<String>)>) -> Option<
    (Option<(u64, u32)>, Option<Seq<char>>),
> {
    match p {
        Some((d, t)) => Some((opt_duration(d), opt_chars(t))),
        None => None,
    }
}

/// The title written on an `#EXTINF:` line: `Artist - Title`, or whichever
/// of the two there is.
pub open spec fn extinf_title(e: EntryModel) -> Seq<char> {
    match (e.artist, e.title) {
        (Some(a), Some(t)) => a + title_separator() + t,
        (None, Some(t)) => t,
        (Some(a), None) => a,
        (None, None) => seq![],
    }
}

/// The seconds written on an `#EXTINF:` line: the whole seconds taken as an
/// `i64`, or -1 for an unknown duration.
pub open spec fn extinf_seconds(d: Option<(u64, u32)>) -> int {
    match d {
        Some(x) => (x.0 as i64) as int,
        None => -1,
    }
}

/// The path as written: relative to the base directory where it lies
/// under it.
pub open spec fn written_path(p: Seq<char>, base: Option<Seq<char>>) -> Seq<char> {
    match base {
        Some(b) => match strip_prefix_of(p, b) {
            Some(r) => r,
            None => p,
        },
        None => p,
    }
}

/// The lines written for one entry: an `#EXTINF:` line when the playlist is
/// extended and the entry has a duration or a title, then the path.
pub open spec fn entry_text(e: EntryModel, extended: bool, base: Option<Seq<char>>) -> Seq<char> {
    (if extended && (e.duration is Some || e.title is Some) {
        extinf_tag() + signed_decimal(extinf_seconds(e.duration)) + seq![','] + extinf_title(e)
            + seq!['\n']
    } else {
        seq![]
    }) + written_path(e.path, base) + seq!['\n']
}

/// The lines written for the entries, in order.
pub open spec fn entries_text(es: Seq<EntryModel>, extended: bool, base: Option<Seq<char>>) -> Seq<
    char,
>
    decreases es.len(),
{
    if es.len() == 0 {
        seq![]
    } else {
        entries_text(es.drop_last(), extended, base) + entry_text(es.last(), extended, base)
    }
}

/// The text of a playlist: the `#EXTM3U` header when it is extended, then
/// the entries.
pub open spec fn playlist_text(extended: bool, es: Seq<EntryModel>, base: Option<Seq<char>>) -> Seq<
    char,
> {
    (if extended {
        extm3u_tag() + seq!['\n']
    } else {
        seq![]
    }) + entries_text(es, extended, base)
}

/// Writes playlists.
pub struct M3u8Writer;

impl M3u8Writer {
    /// The text of a playlist. Paths under `base_dir` are written relative
    /// to it.
    pub fn write_to_writer(playlist: &M3u8Playlist, base_dir: Option<&str>) -> (r: String)
        ensures
            r@ == playlist_text(
                playlist.extended,
                entry_models(playlist.entries@),
                opt_str(base_dir),
            ),
    {
        let ghost base = opt_str(base_dir);
        let ghost es = entry_models(playlist.entries@);
        let mut out = String::new();
        proof {
            reveal_strlit("#EXTM3U");
        }
        if playlist.extended {
            push_str(&mut out, "#EXTM3U");
            out.push('\n');
        }
        assert(out@ =~= playlist_text(playlist.extended, es.take(0), base));
        let mut i: usize = 0;
        while i < playlist.entries.len()
            invariant
                i <= playlist.entries@.len(),
                es == entry_models(playlist.entries@),
                base == opt_str(base_dir),
                out@ == playlist_text(playlist.extended, es.take(i as int), base),
            decreases playlist.entries.len() - i,
        {
            let ghost before = out@;
            Self::write_entry(&mut out, &playlist.entries[i], playlist.extended, base_dir);
            assert(es.take(i + 1).drop_last() =~= es.take(i as int));
            assert(es.take(i + 1).last() == playlist.entries@[i as int]@);
            i = i + 1;
        }
        assert(es.take(i as int) =~= es);
        out
    }

    fn write_entry(out: &mut String, e: &M3u8Entry, extended: bool, base_dir: Option<&str>)
        ensures
            final(out)@ == old(out)@ + entry_text(e@, extended, opt_str(base_dir)),
    {
        proof {
            reveal_strlit("#EXTINF:");
            reveal_strlit(" - ");
        }
        let ghost start = out@;
        if extended && (e.duration.is_some() || e.title.is_some()) {
            push_str(out, "#EXTINF:");
            let secs: i64 = match e.duration {
                Some(d) => d.as_secs() as i64,
                None => -1,
            };
            push_signed_decimal(out, secs);
            out.push(',');
            match (&e.artist, &e.title) {
                (Some(a), Some(t)) => {
                    push_str(out, a.as_str());
                    push_str(out, " - ");
                    push_str(out, t.as_str());
                },
                (None, Some(t)) => {
                    push_str(out, t.as_str());
                },
                (Some(a), None) => {
                    push_str(out, a.as_str());
                },
                (None, None) => {},
            }
            out.push('\n');
            assert(out@ =~= start + (extinf_tag() + signed_decimal(extinf_seconds(e@.duration))
                + seq![','] + extinf_title(e@) + seq!['\n']));
        } else {
            assert(start =~= start + Seq::<char>::empty());
        }
        let ghost mid = out@;
        match base_dir {
            Some(b) => match strip_prefix(e.path.as_str(), b) {
                Some(rel) => push_str(out, rel.as_str()),
                None => push_str(out, e.path.as_str()),
            },
            None => push_str(out, e.path.as_str()),
        }
        out.push('\n');
        assert(out@ =~= mid + written_path(e@.path, opt_str(base_dir)) + seq!['\n']);
    }
}

// Reading back what was written

/// Whether `s` has no line break.
pub open spec fn no_newline(s: Seq<char>) -> bool {
    forall|k: int| 0 <= k < s.len() ==> s[k] != '\n'
}

/// Whether an entry reads back as it was written: its path is a non-empty
/// trimmed line that does not start with `#`; its duration, if any, is a
/// whole number of seconds that fits an `i64`; it has a title whenever it
/// has a duration or an artist; its title and artist are trimmed single
/// lines; a title without an artist holds no ` - `; and with an artist,
/// both are non-empty and the first ` - ` is the one after the artist.
pub open spec fn writable(e: EntryModel) -> bool {
    &&& e.path.len() > 0
    &&& trim(e.path) == e.path
    &&& e.path[0] != '#'
    &&& no_newline(e.path)
    &&& match e.duration {
        Some(d) => d.1 == 0 && d.0 <= i64::MAX,
        None => true,
    }
    &&& (e.duration is Some || e.artist is Some) ==> e.title is Some
    &&& match (e.artist, e.title) {
        (Some(a), Some(t)) => {
            &&& a.len() > 0
            &&& t.len() > 0
            &&& trim(a) == a
            &&& trim(t) == t
            &&& no_newline(a)
            &&& no_newline(t)
            &&& find(a + title_separator(), title_separator()) == Some(a.len() as int)
        },
        (None, Some(t)) => trim(t) == t && no_newline(t) && find(t, title_separator()) is None,
        _ => true,
    }
}

/// The `#EXTINF:` line of an entry, without its line break.
pub open spec fn extinf_line(e: EntryModel) -> Seq<char> {
    extinf_tag() + signed_decimal(extinf_seconds(e.duration)) + seq![','] + extinf_title(e)
}

/// Writing an extended playlist and reading the text back gives an
/// extended playlist with the same entries, when every entry is one that
/// reads back as written.
pub proof fn law_read_back_written(es: Seq<EntryModel>)
    requires
        forall|i: int| 0 <= i < es.len() ==> writable(#[trigger] es[i]),
    ensures
        has_header(playlist_text(true, es, None)),
        read_entries(playlist_text(true, es, None), None) == es,
{
    let head = extm3u_tag();
    let body = entries_text(es, true, None);
    assert(playlist_text(true, es, None) == head + seq!['\n'] + body);
    assert forall|k: int| 0 <= k < head.len() implies head[k] != '\n' by {}
    lemma_split_first(head, body, '\n');
    let lines = split_char(playlist_text(true, es, None), '\n');
    assert(lines == seq![head] + split_char(body, '\n'));
    assert(lines.drop_first() =~= split_char(body, '\n'));
    let init: (Seq<EntryModel>, Option<(Option<(u64, u32)>, Option<Seq<char>>)>) = (seq![], None);
    assert(trim(head) == head) by {
        lemma_trim_unchanged(head);
    }
    assert(head.subrange(0, 7) =~= head);
    assert(is_header_line(lines[0]));
    assert(read_line(init, head, None) == init);
    lemma_read_entries_text(es, seq![]);
    assert(Seq::<EntryModel>::empty() + es =~= es);
}

/// The text of the entries, taken from the front.
proof fn lemma_entries_text_front(es: Seq<EntryModel>, extended: bool, base: Option<Seq<char>>)
    requires
        es.len() > 0,
    ensures
        entries_text(es, extended, base) == entry_text(es[0], extended, base) + entries_text(
            es.drop_first(),
            extended,
            base,
        ),
    decreases es.len(),
{
    if es.len() == 1 {
        assert(es.drop_last() =~= Seq::<EntryModel>::empty());
        assert(es.drop_first() =~= Seq::<EntryModel>::empty());
        assert(es.last() == es[0]);
        assert(entries_text(es.drop_last(), extended, base) =~= Seq::<char>::empty());
        assert(entries_text(es.drop_first(), extended, base) =~= Seq::<char>::empty());
        assert(entries_text(es, extended, base) =~= entry_text(es[0], extended, base));
        assert(entry_text(es[0], extended, base) + Seq::<char>::empty() =~= entry_text(
            es[0],
            extended,
            base,
        ));
    } else {
        let d = es.drop_last();
        lemma_entries_text_front(d, extended, base);
        assert(d.drop_first() =~= es.drop_first().drop_last());
        assert(es.drop_first().last() == es.last());
        assert(d[0] == es[0]);
        assert(entries_text(es, extended, base) =~= entry_text(es[0], extended, base)
            + entries_text(es.drop_first(), extended, base));
    }
}

/// Reading the written entries after those already read.
#[verifier::spinoff_prover]
#[verifier::rlimit(40)]
proof fn lemma_read_entries_text(es: Seq<EntryModel>, acc: Seq<EntryModel>)
    requires
        forall|i: int| 0 <= i < es.len() ==> writable(#[trigger] es[i]),
    ensures
        read_lines(split_char(entries_text(es, true, None), '\n'), None, (acc, None)) == (
            acc + es,
            None::<(Option<(u64, u32)>, Option<Seq<char>>)>,
        ),
    decreases es.len(),
{
    let st: (Seq<EntryModel>, Option<(Option<(u64, u32)>, Option<Seq<char>>)>) = (acc, None);
    if es.len() == 0 {
        let t = entries_text(es, true, None);
        assert(t =~= Seq::<char>::empty());
        lemma_split_none(t, '\n');
        let lines = split_char(t, '\n');
        assert(lines.drop_first() =~= Seq::<Seq<char>>::empty());
        lemma_trim_lengths(t);
        assert(lines[0] == t);
        assert(read_line(st, lines[0], None) == st);
        assert(read_lines(lines.drop_first(), None, st) == st);
        assert(read_lines(lines, None, st) == st);
        assert(acc + es =~= acc);
    } else {
        let e = es[0];
        let rest = es.drop_first();
        assert(writable(e));
        assert forall|i: int| 0 <= i < rest.len() implies writable(#[trigger] rest[i]) by {
            assert(rest[i] == es[i + 1]);
        }
        lemma_entries_text_front(es, true, None);
        let r = entries_text(rest, true, None);
        let p = e.path;
        let after_path = split_char(p + seq!['\n'] + r, '\n');
        lemma_split_first(p, r, '\n');
        assert(after_path == seq![p] + split_char(r, '\n'));
        lemma_path_line(p);
        let mid = if e.duration is Some || e.title is Some {
            let l = extinf_line(e);
            lemma_extinf_line(e);
            assert(entry_text(e, true, None) == l + seq!['\n'] + p + seq!['\n']);
            assert(entries_text(es, true, None) =~= l + seq!['\n'] + (p + seq!['\n'] + r));
            lemma_split_first(l, p + seq!['\n'] + r, '\n');
            let lines = split_char(entries_text(es, true, None), '\n');
            assert(lines == seq![l] + after_path);
            assert(lines.drop_first() =~= after_path);
            let st1 = read_line(st, l, None);
            assert(st1 == (acc, Some(extinf_fields(l.skip(8)))));
            assert(read_lines(lines, None, st) == read_lines(after_path, None, st1));
            assert(entry_for(line_path(p, None), st1.1) == e);
            st1
        } else {
            assert(entry_text(e, true, None) =~= p + seq!['\n']);
            assert(entries_text(es, true, None) =~= p + seq!['\n'] + r);
            assert(entry_for(line_path(p, None), st.1) == e);
            st
        };
        assert(read_lines(split_char(entries_text(es, true, None), '\n'), None, st) == read_lines(
            after_path,
            None,
            mid,
        ));
        assert(after_path.drop_first() =~= split_char(r, '\n'));
        assert(after_path[0] == p);
        let st2 = read_line(mid, p, None);
        assert(st2 == (acc.push(e), None::<(Option<(u64, u32)>, Option<Seq<char>>)>));
        assert(read_lines(after_path, None, mid) == read_lines(split_char(r, '\n'), None, st2));
        lemma_read_entries_text(rest, acc.push(e));
        assert(acc.push(e) + rest =~= acc + es);
        assert(read_lines(split_char(entries_text(es, true, None), '\n'), None, st) == (
            acc + es,
            None::<(Option<(u64, u32)>, Option<Seq<char>>)>,
        ));
    }
}

/// A path line of a writable entry is read as a path.
proof fn lemma_path_line(p: Seq<char>)
    requires
        p.len() > 0,
        trim(p) == p,
        p[0] != '#',
    ensures
        !starts_with(p, extm3u_tag()),
        !starts_with(p, extinf_tag()),
        line_path(p, None) == p,
{
    if starts_with(p, extm3u_tag()) {
        assert(p.subrange(0, 7)[0] == p[0]);
    }
    if starts_with(p, extinf_tag()) {
        assert(p.subrange(0, 8)[0] == p[0]);
    }
}

/// The title written for a writable entry is a trimmed single line that
/// reads back as its artist and title.
proof fn lemma_extinf_title(e: EntryModel)
    requires
        writable(e),
        e.title is Some,
    ensures
        trim(extinf_title(e)) == extinf_title(e),
        no_newline(extinf_title(e)),
        title_fields(Some(extinf_title(e))) == (e.artist, e.title),
{
    let title = extinf_title(e);
    match (e.artist, e.title) {
        (Some(a), Some(t)) => {
            lemma_trimmed_ends(a);
            lemma_trimmed_ends(t);
            assert(title == a + title_separator() + t);
            assert(title[0] == a[0]);
            assert(title.last() == t.last());
            lemma_trim_unchanged(title);
            lemma_find_extend(a + title_separator(), t, title_separator(), 0);
            assert(title.take(a.len() as int) =~= a);
            assert(title.skip(a.len() as int + 3) =~= t);
            assert forall|k: int| 0 <= k < title.len() implies title[k] != '\n' by {
                if k < a.len() {
                    assert(title[k] == a[k]);
                } else if k >= a.len() + 3 {
                    assert(title[k] == t[k - a.len() - 3]);
                }
            }
        },
        (None, Some(t)) => {},
        _ => {},
    }
}

/// The `#EXTINF:` line of a writable entry is a trimmed single line with
/// the tag, and reading it gives back the entry's duration, title and
/// artist.
#[verifier::spinoff_prover]
#[verifier::rlimit(40)]
proof fn lemma_extinf_line(e: EntryModel)
    requires
        writable(e),
        e.duration is Some || e.title is Some,
    ensures
        trim(extinf_line(e)) == extinf_line(e),
        extinf_line(e).len() > 8,
        no_newline(extinf_line(e)),
        starts_with(extinf_line(e), extinf_tag()),
        !starts_with(extinf_line(e), extm3u_tag()),
        extinf_fields(extinf_line(e).skip(8)) == (e.duration, Some(extinf_title(e))),
        title_fields(Some(extinf_title(e))) == (e.artist, e.title),
{
    let n = extinf_seconds(e.duration);
    let sd = signed_decimal(n);
    let title = extinf_title(e);
    let l = extinf_line(e);
    let info = sd + seq![','] + title;
    assert(e.title is Some);
    match e.duration {
        Some(d) => {
            assert(n == d.0);
            lemma_parse_written_seconds(n);
            lemma_decimal_numeral(d.0 as nat);
        },
        None => {
            lemma_parse_written_seconds(-1);
            lemma_decimal_numeral(1);
            assert(decimal(1) =~= seq!['1']);
            assert(sd =~= seq!['-', '1']);
        },
    }
    assert(forall|k: int| 0 <= k < sd.len() ==> sd[k] == '-' || ('0' <= #[trigger] sd[k] && sd[k] <= '9'));
    assert(sd.len() > 0);
    lemma_extinf_title(e);
    assert(trim(title) == title);
    // the whole line
    assert(l =~= extinf_tag() + info);
    assert(l.skip(8) =~= info);
    assert(l.subrange(0, 8) =~= extinf_tag());
    assert(l[4] == 'I');
    if starts_with(l, extm3u_tag()) {
        assert(l.subrange(0, 7)[4] == l[4]);
    }
    assert(no_newline(l)) by {
        assert forall|k: int| 0 <= k < l.len() implies l[k] != '\n' by {
            if 8 <= k < 8 + sd.len() {
                assert(l[k] == sd[k - 8]);
            } else if k > 8 + sd.len() {
                assert(l[k] == title[k - 9 - sd.len()]);
            }
        }
    }
    assert(!is_whitespace(l.last())) by {
        if title.len() > 0 {
            lemma_trimmed_ends(title);
            assert(l.last() == title.last());
        } else {
            assert(l.last() == ',');
        }
    }
    lemma_trim_unchanged(l);
    // the fields after the tag
    assert forall|k: int| 0 <= k < sd.len() implies info[k] != ',' by {
        assert(info[k] == sd[k]);
    }
    lemma_find_char_at(info, ',', sd.len() as int);
    assert(info.take(sd.len() as int) =~= sd);
    assert(info.skip(sd.len() as int + 1) =~= title);
    assert(trim(sd) == sd) by {
        lemma_trim_unchanged(sd);
    }
}

} // verus!
