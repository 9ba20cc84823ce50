//! A terminal surface split into single-line tracks, one per download.
//!
//! The manager keeps the text of each track and computes the bytes that redraw
//! one row; whoever owns the terminal writes them out in one flush.
use vstd::prelude::*;
use crate::text::{
    cut_to_visible, cut_visible, decimal, push_all, push_char, push_decimal, visible_len,
    visible_width,
};

verus! {

/// Terminal width assumed when the real one is unknown.
pub const DEFAULT_WIDTH: usize = 120;

/// The rows of the terminal, one per registered track.
pub struct ProgressManager {
    tracks: Vec<String>,
}

impl View for ProgressManager {
    /// The text of each track, by id.
    type V = Seq<Seq<char>>;

    closed spec fn view(&self) -> Seq<Seq<char>> {
        self.tracks@.map_values(|t: String| t@)
    }
}

/// `ESC [ n <letter>`: moves the cursor `n` rows up (`A`) or down (`B`).
pub open spec fn cursor_move(rows: nat, letter: char) -> Seq<char> {
    seq!['\u{1b}', '['] + decimal(rows) + seq![letter]
}

/// The number of visible characters a row may hold on a terminal of `width`
/// columns (120 when unknown): one less than the width, so that the last
/// column stays free.
pub open spec fn row_budget(width: Option<usize>) -> nat {
    let w: int = match width {
        Some(w) => w as int,
        None => DEFAULT_WIDTH as int,
    };
    if w >= 1 { (w - 1) as nat } else { 0 }
}

/// What is shown of `text` on one row: cut to the row's budget of visible
/// characters when it reaches it, with its escape sequences kept whole.
pub open spec fn fitted(text: Seq<char>, width: Option<usize>) -> Seq<char> {
    if visible_width(text) >= row_budget(width) {
        cut_visible(text, row_budget(width))
    } else {
        text
    }
}

/// The output that rewrites the row `rows` lines above the cursor with `shown`
/// and then puts the cursor back where it was: auto-wrap off, cursor up,
/// carriage return, erase the line, the text, cursor down as far, auto-wrap on.
pub open spec fn redraw(rows: nat, shown: Seq<char>) -> Seq<char> {
    seq!['\u{1b}', '[', '?', '7', 'l'] + cursor_move(rows, 'A') + seq!['\r']
        + seq!['\u{1b}', '[', '2', 'K'] + shown + cursor_move(rows, 'B') + seq![
        '\u{1b}',
        '[',
        '?',
        '7',
        'h',
    ]
}

fn push_cursor_move(out: &mut String, rows: usize, letter: char)
    ensures
        final(out)@ == old(out)@ + cursor_move(rows as nat, letter),
{
    push_char(out, '\u{1b}');
    push_char(out, '[');
    push_decimal(out, rows as u128);
    push_char(out, letter);
    assert(final(out)@ =~= old(out)@ + cursor_move(rows as nat, letter));
}

impl ProgressManager {
    /// A manager with no tracks.
    pub fn new() -> (r: ProgressManager)
        ensures
            r@ == Seq::<Seq<char>>::empty(),
    {
        let r = ProgressManager { tracks: Vec::new() };
        assert(r@ =~= Seq::<Seq<char>>::empty());
        r
    }

    /// The number of tracks registered so far.
    pub fn track_count(&self) -> (r: usize)
        ensures
            r == self@.len(),
    {
        self.tracks.len()
    }

    /// Reserves a new, empty track below the others and returns its id, the
    /// number of tracks before the call. The caller prints one blank line to
    /// give the track its row.
    pub fn register(&mut self) -> (id: usize)
        requires
            old(self)@.len() < usize::MAX,
        ensures
            id == old(self)@.len(),
            final(self)@ == old(self)@.push(Seq::<char>::empty()),
    {
        let id = self.tracks.len();
        self.tracks.push(String::new());
        assert(self@ =~= old(self)@.push(Seq::<char>::empty()));
        id
    }

    /// Sets the text of track `id` and returns the output that redraws its
    /// row alone, on a terminal of `width` columns (120 when unknown); the
    /// cursor, kept on the line below the last track, ends where it started.
    /// An id that was never registered changes nothing and gives `None`.
    pub fn update(&mut self, id: usize, text: &str, width: Option<usize>) -> (r: Option<String>)
        ensures
            id < old(self)@.len() ==> final(self)@ == old(self)@.update(id as int, text@) && (r
                matches Some(out) && out@ == redraw(
                (old(self)@.len() - id) as nat,
                fitted(text@, width),
            )),
            id >= old(self)@.len() ==> final(self)@ == old(self)@ && r is None,
    {
        if id >= self.tracks.len() {
            return None;
        }
        let rows = self.tracks.len() - id;
        self.tracks.set(id, text.to_owned());
        assert(self@ =~= old(self)@.update(id as int, text@));
        let w = match width {
            Some(w) => w,
            None => DEFAULT_WIDTH,
        };
        let budget = if w >= 1 { w - 1 } else { 0 };
        let mut out = String::new();
        push_char(&mut out, '\u{1b}');
        push_char(&mut out, '[');
        push_char(&mut out, '?');
        push_char(&mut out, '7');
        push_char(&mut out, 'l');
        push_cursor_move(&mut out, rows, 'A');
        push_char(&mut out, '\r');
        push_char(&mut out, '\u{1b}');
        push_char(&mut out, '[');
        push_char(&mut out, '2');
        push_char(&mut out, 'K');
        let ghost head = out@;
        if visible_len(text) >= budget {
            let shown = cut_to_visible(text, budget);
            push_all(&mut out, shown.as_str());
        } else {
            push_all(&mut out, text);
        }
        assert(out@ == head + fitted(text@, width));
        push_cursor_move(&mut out, rows, 'B');
        push_char(&mut out, '\u{1b}');
        push_char(&mut out, '[');
        push_char(&mut out, '?');
        push_char(&mut out, '7');
        push_char(&mut out, 'h');
        assert(out@ =~= redraw(rows as nat, fitted(text@, width)));
        Some(out)
    }
}

} // verus!
