use vstd::prelude::*;
use vstd::string::{StrSliceExecFns, StringExecFns};

verus! {

/// One displayable token of a lyric line.
#[derive(Debug)]
pub struct Word {
    pub string: String,
}

/// A synchronised lyric line: the time at which it starts, and its words.
#[derive(Debug)]
pub struct Lyrics {
    pub time: usize,
    pub words: Vec<Word>,
}

/// A lyric line without timing information.
pub struct UnsyncedLyrics {
    pub words: Vec<Word>,
}

/// A synchronised song; `None` means that no lyrics are available for it.
pub struct Song {
    pub lyrics: Option<Vec<Lyrics>>,
}

/// A song whose lyrics carry no timing.
pub struct UnsyncedSong {
    pub lyrics: Vec<UnsyncedLyrics>,
}

/// A playback position.
pub struct Time {
    pub time: usize,
}

/// The song that a session holds.
pub enum SongFormat {
    Unsynced(UnsyncedSong),
    Synced(Song),
}

/// What `char::is_whitespace` says of a character.
pub uninterp spec fn white_space(c: char) -> bool;

/// Relies on `char::is_whitespace`: whether `c` has Unicode's White_Space
/// property; a plain space has it.
#[verifier::external_body]
fn is_white_space(c: char) -> (r: bool)
    ensures
        r == white_space(c),
        c == ' ' ==> r,
{
    c.is_whitespace()
}

/// `s` without its leading whitespace.
pub open spec fn trim_start(s: Seq<char>) -> Seq<char>
    decreases s.len(),
{
    if s.len() > 0 && white_space(s[0]) {
        trim_start(s.drop_first())
    } else {
        s
    }
}

/// `s` without its trailing whitespace.
pub open spec fn trim_end(s: Seq<char>) -> Seq<char>
    decreases s.len(),
{
    if s.len() > 0 && white_space(s.last()) {
        trim_end(s.drop_last())
    } else {
        s
    }
}

/// `s` without whitespace at either end.
pub open spec fn trimmed(s: Seq<char>) -> Seq<char> {
    trim_end(trim_start(s))
}

/// The words' texts joined by single spaces.
pub open spec fn joined(words: Seq<Word>) -> Seq<char>
    decreases words.len(),
{
    if words.len() == 0 {
        Seq::empty()
    } else if words.len() == 1 {
        words[0].string@
    } else {
        joined(words.drop_last()) + seq![' '] + words.last().string@
    }
}

/// The text shown for a line made of `words`.
pub open spec fn line_text(words: Seq<Word>) -> Seq<char> {
    trimmed(joined(words))
}

/// `s` with the whitespace at both of its ends removed.
pub fn trim(s: &str) -> (r: String)
    ensures
        r@ == trimmed(s@),
{
    let n = s.unicode_len();
    let mut i: usize = 0;
    assert(s@.subrange(0, n as int) =~= s@);
    while i < n && is_white_space(s.get_char(i))
        invariant
            i <= n == s@.len(),
            trim_start(s@.subrange(i as int, n as int)) == trim_start(s@),
        decreases n - i,
    {
        assert(s@.subrange(i as int, n as int).drop_first() =~= s@.subrange(i + 1, n as int));
        i = i + 1;
    }
    assert(trim_start(s@) == s@.subrange(i as int, n as int));
    let mut j: usize = n;
    while j > i && is_white_space(s.get_char(j - 1))
        invariant
            i <= j <= n == s@.len(),
            trim_end(s@.subrange(i as int, j as int)) == trimmed(s@),
        decreases j - i,
    {
        assert(s@.subrange(i as int, j as int).drop_last() =~= s@.subrange(i as int, j - 1));
        j = j - 1;
    }
    String::from_str(s.substring_char(i, j))
}

impl Lyrics {
    /// The line's text: its words joined by single spaces, then trimmed.
    pub fn to_line(&self) -> (r: String)
        ensures
            r@ == line_text(self.words@),
    {
        let mut line = String::new();
        let mut k: usize = 0;
        while k < self.words.len()
            invariant
                k <= self.words@.len(),
                line@ == joined(self.words@.take(k as int)),
            decreases self.words@.len() - k,
        {
            if k > 0 {
                proof {
                    reveal_strlit(" ");
                }
                line.append(" ");
            }
            line.append(self.words[k].string.as_str());
            k = k + 1;
            assert(self.words@.take(k as int).drop_last() =~= self.words@.take(k - 1));
            assert(line@ =~= joined(self.words@.take(k as int)));
        }
        assert(self.words@.take(k as int) =~= self.words@);
        trim(line.as_str())
    }
}

} // verus!
