use vstd::prelude::*;
use vstd::string::StringExecFns;
use crate::format::{padded, pad_or_trim_string};
use crate::lyrics::{Lyrics, Song, SongFormat, Time, UnsyncedSong, line_text};
use crate::search::{as_int, find_lyric_line, is_boundary, resolve, sorted_by_time};

verus! {

/// The message shown when a synchronised song has no lyrics, unless the
/// session was given another.
pub const DEFAULT_NO_LYRICS_MESSAGE: &'static str = "No Lyrics found ;(";

/// The notice shown for a song whose lyrics carry no timing.
pub const UNSYNCED_MESSAGE: &'static str = "This song is unsynced :(";

/// The placeholder shown while playback is before the song's first line.
pub const NO_LINE_YET: &'static str = "\u{f0388}";

/// What a session last emitted since its song was loaded.
#[derive(Debug, PartialEq, Eq, Structural)]
pub enum LastEmitted {
    /// Nothing yet.
    Unset,
    /// The no-lyrics or unsynced notice.
    Notice,
    /// The line at this index, or the placeholder for `None`.
    Line(Option<usize>),
}

/// The state of one session: the loaded song, what was last emitted, and the
/// session's display settings.
pub struct LyricWriter {
    pub song: SongFormat,
    pub index: LastEmitted,
    pub no_lyrics_message: String,
    pub output_size: Option<usize>,
}

/// `text` fitted to `width` characters when a width is set, else unchanged.
pub open spec fn fitted(text: Seq<char>, width: Option<usize>) -> Seq<char> {
    match width {
        Some(w) => padded(text, w as nat),
        None => text,
    }
}

/// Fits `text` to the display width when one is set.
pub fn format_line(text: String, width: Option<usize>) -> (r: String)
    ensures
        r@ == fitted(text@, width),
{
    match width {
        Some(w) => pad_or_trim_string(text.as_str(), w),
        None => text,
    }
}

/// The lines of a synchronised song that has lyrics.
pub open spec fn synced_lines(song: SongFormat) -> Option<Seq<Lyrics>> {
    match song {
        SongFormat::Synced(s) => match s.lyrics {
            Some(v) => Some(v@),
            None => None,
        },
        SongFormat::Unsynced(_) => None,
    }
}

/// A song is well formed when its synchronised lines are sorted by time.
pub open spec fn song_valid(song: SongFormat) -> bool {
    match synced_lines(song) {
        Some(lines) => sorted_by_time(lines),
        None => true,
    }
}

/// The text emitted for the line at `r` (the placeholder for `None`).
pub open spec fn shown_text(lines: Seq<Lyrics>, r: Option<usize>, width: Option<usize>) -> Seq<
    char,
> {
    match r {
        Some(i) => fitted(line_text(lines[i as int].words@), width),
        None => fitted(NO_LINE_YET@, width),
    }
}

/// An optional string as optional characters.
pub open spec fn opt_view(r: Option<String>) -> Option<Seq<char>> {
    match r {
        Some(s) => Some(s@),
        None => None,
    }
}

/// Both states have the same display settings.
pub open spec fn same_settings(w: LyricWriter, w2: LyricWriter) -> bool {
    &&& w2.no_lyrics_message == w.no_lyrics_message
    &&& w2.output_size == w.output_size
}

/// `w2` is `w` after loading `song`: the song replaced, nothing emitted yet.
pub open spec fn load_post(w: LyricWriter, song: SongFormat, w2: LyricWriter) -> bool {
    &&& w2.song == song
    &&& w2.index == LastEmitted::Unset
    &&& same_settings(w, w2)
}

/// The notice for a song without usable lines.
pub open spec fn notice(w: LyricWriter) -> Seq<char> {
    match w.song {
        SongFormat::Unsynced(_) => UNSYNCED_MESSAGE@,
        SongFormat::Synced(_) => w.no_lyrics_message@,
    }
}

/// `w2` and `out` are the state and the output after `w` advances to time `t`.
/// With lines, the line resolved for `t` is recorded and emitted (fitted to the
/// width) when it differs from what was last emitted. Without lines, the
/// notice is emitted once after each load.
pub open spec fn advance_post(w: LyricWriter, t: usize, w2: LyricWriter, out: Option<Seq<char>>) -> bool {
    &&& w2.song == w.song
    &&& same_settings(w, w2)
    &&& match synced_lines(w.song) {
        Some(lines) => {
            &&& w2.index is Line
            &&& is_boundary(lines, t, w2.index->Line_0)
            &&& sorted_by_time(lines) ==> as_int(w2.index->Line_0) == resolve(lines, t)
            &&& out == if w2.index == w.index {
                None
            } else {
                Some(shown_text(lines, w2.index->Line_0, w.output_size))
            }
        },
        None => if w.index == LastEmitted::Unset {
            w2.index == LastEmitted::Notice && out == Some(notice(w))
        } else {
            w2.index == w.index && out is None
        },
    }
}

/// Advancing twice in a row to the same time emits nothing the second time.
pub proof fn lemma_advance_twice_is_silent(
    w0: LyricWriter,
    t: usize,
    w1: LyricWriter,
    out1: Option<Seq<char>>,
    w2: LyricWriter,
    out2: Option<Seq<char>>,
)
    requires
        song_valid(w0.song),
        advance_post(w0, t, w1, out1),
        advance_post(w1, t, w2, out2),
    ensures
        out2 is None,
{
    if let Some(lines) = synced_lines(w0.song) {
        let r1 = w1.index->Line_0;
        let r2 = w2.index->Line_0;
        assert(as_int(r1) == as_int(r2));
        assert(r1 == r2);
    }
}

/// Loading a song resets what was emitted: whatever two sessions with the same
/// settings did before, once both load the same song and advance to the same
/// time, they emit the same text, and they do emit.
pub proof fn lemma_load_resets(
    wa: LyricWriter,
    wb: LyricWriter,
    song: SongFormat,
    t: usize,
    wa1: LyricWriter,
    wb1: LyricWriter,
    wa2: LyricWriter,
    wb2: LyricWriter,
    out_a: Option<Seq<char>>,
    out_b: Option<Seq<char>>,
)
    requires
        same_settings(wa, wb),
        song_valid(song),
        load_post(wa, song, wa1),
        load_post(wb, song, wb1),
        advance_post(wa1, t, wa2, out_a),
        advance_post(wb1, t, wb2, out_b),
    ensures
        out_a is Some,
        out_a == out_b,
        wa2.index == wb2.index,
{
    if let Some(lines) = synced_lines(song) {
        let ra = wa2.index->Line_0;
        let rb = wb2.index->Line_0;
        assert(as_int(ra) == as_int(rb));
        assert(ra == rb);
    }
}

/// A decoded inbound message of a session.
pub enum Inbound {
    /// A playback time update.
    Time(Time),
    /// A synchronised song (possibly without lyrics).
    Synced(Song),
    /// A song without timing.
    Unsynced(UnsyncedSong),
    /// The peer closes the connection.
    Close,
    /// A message of no known shape.
    Unknown,
}

/// What the connection does after a message.
pub enum Action {
    /// Write this text out.
    Emit(String),
    /// A song was loaded: write the blank separator line.
    Loaded,
    /// Close the connection.
    Close,
    /// Nothing to write.
    Quiet,
    /// Report an unrecognised message; the state is unchanged.
    Unrecognized,
}

/// The text an action emits, if any.
pub open spec fn emitted(a: Action) -> Option<Seq<char>> {
    match a {
        Action::Emit(s) => Some(s@),
        _ => None,
    }
}

impl LyricWriter {
    /// A session with no song loaded yet (treated as a synchronised song
    /// without lyrics), the given width, and the given no-lyrics message or
    /// the default one.
    pub fn new(output_size: Option<usize>, no_lyrics_message: Option<String>) -> (r: Self)
        ensures
            synced_lines(r.song) is None,
            r.song is Synced,
            r.index == LastEmitted::Unset,
            r.output_size == output_size,
            r.no_lyrics_message@ == match no_lyrics_message {
                Some(m) => m@,
                None => DEFAULT_NO_LYRICS_MESSAGE@,
            },
    {
        let message = match no_lyrics_message {
            Some(m) => m,
            None => String::from_str(DEFAULT_NO_LYRICS_MESSAGE),
        };
        LyricWriter {
            song: SongFormat::Synced(Song { lyrics: None }),
            index: LastEmitted::Unset,
            output_size: output_size,
            no_lyrics_message: message,
        }
    }

    /// Loads `song`, forgetting what was emitted for the previous one.
    pub fn set_song(&mut self, song: SongFormat)
        ensures
            load_post(*old(self), song, *final(self)),
    {
        self.index = LastEmitted::Unset;
        self.song = song;
    }

    /// Advances to playback time `time`, and returns the text to show if the
    /// shown line changes.
    pub fn output_lyrics(&mut self, time: Time) -> (r: Option<String>)
        ensures
            advance_post(*old(self), time.time, *final(self), opt_view(r)),
    {
        match &self.song {
            SongFormat::Unsynced(_) => {
                if self.index == LastEmitted::Unset {
                    self.index = LastEmitted::Notice;
                    Some(String::from_str(UNSYNCED_MESSAGE))
                } else {
                    None
                }
            },
            SongFormat::Synced(Song { lyrics }) => match lyrics {
                None => {
                    if self.index == LastEmitted::Unset {
                        self.index = LastEmitted::Notice;
                        Some(self.no_lyrics_message.clone())
                    } else {
                        None
                    }
                },
                Some(lines) => {
                    let current = find_lyric_line(lines, time);
                    if self.index != LastEmitted::Line(current) {
                        self.index = LastEmitted::Line(current);
                        let text = match current {
                            Some(i) => lines[i].to_line(),
                            None => String::from_str(NO_LINE_YET),
                        };
                        Some(format_line(text, self.output_size))
                    } else {
                        None
                    }
                },
            },
        }
    }

    /// Applies one inbound message to the session and says what to do next.
    pub fn handle_message(&mut self, msg: Inbound) -> (a: Action)
        ensures
            match msg {
                Inbound::Time(t) => {
                    &&& advance_post(*old(self), t.time, *final(self), emitted(a))
                    &&& (a is Emit || a is Quiet)
                },
                Inbound::Synced(song) => {
                    &&& load_post(*old(self), SongFormat::Synced(song), *final(self))
                    &&& a is Loaded
                },
                Inbound::Unsynced(song) => {
                    &&& load_post(*old(self), SongFormat::Unsynced(song), *final(self))
                    &&& a is Loaded
                },
                Inbound::Close => *final(self) == *old(self) && a is Close,
                Inbound::Unknown => *final(self) == *old(self) && a is Unrecognized,
            },
    {
        match msg {
            Inbound::Time(t) => match self.output_lyrics(t) {
                Some(line) => Action::Emit(line),
                None => Action::Quiet,
            },
            Inbound::Synced(song) => {
                self.set_song(SongFormat::Synced(song));
                Action::Loaded
            },
            Inbound::Unsynced(song) => {
                self.set_song(SongFormat::Unsynced(song));
                Action::Loaded
            },
            Inbound::Close => Action::Close,
            Inbound::Unknown => Action::Unrecognized,
        }
    }
}

} // verus!
