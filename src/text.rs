//! Text helpers: decimal rendering, fixed-point rendering, and measuring and
//! cutting text that carries ANSI CSI escape sequences.
use vstd::prelude::*;

verus! {

/// Appends one character to a string.
/// Relies on std's `String::push`: the character is added at the end.
#[verifier::external_body]
pub(crate) fn push_char(s: &mut String, c: char)
    ensures
        final(s)@ == old(s)@.push(c),
{
    s.push(c)
}

/// Appends the characters of `s`.
pub fn push_all(out: &mut String, s: &str)
    ensures
        final(out)@ == old(out)@ + s@,
{
    let n = s.unicode_len();
    let mut i: usize = 0;
    while i < n
        invariant
            n == s@.len(),
            i <= n,
            out@ == old(out)@ + s@.subrange(0, i as int),
        decreases n - i,
    {
        let ghost before = out@;
        push_char(out, s.get_char(i));
        assert(s@.subrange(0, i + 1) =~= s@.subrange(0, i as int).push(s@[i as int]));
        i = i + 1;
    }
    assert(s@.subrange(0, n as int) =~= s@);
}

/// The character of a decimal digit.
pub open spec fn digit_char(d: nat) -> char
    recommends
        d < 10,
{
    if d == 0 { '0' }
    else if d == 1 { '1' }
    else if d == 2 { '2' }
    else if d == 3 { '3' }
    else if d == 4 { '4' }
    else if d == 5 { '5' }
    else if d == 6 { '6' }
    else if d == 7 { '7' }
    else if d == 8 { '8' }
    else { '9' }
}

/// The decimal digits of `n`, most significant first, without leading zeros.
pub open spec fn decimal(n: nat) -> Seq<char>
    decreases n,
{
    if n < 10 {
        seq![digit_char(n)]
    } else {
        decimal(n / 10).push(digit_char(n % 10))
    }
}

/// `h` hundredths written with two decimals: `1234` is `12.34`.
pub open spec fn hundredths(h: nat) -> Seq<char> {
    decimal(h / 100).push('.').push(digit_char((h / 10) % 10)).push(digit_char(h % 10))
}

fn digit_of(d: u128) -> (c: char)
    requires
        d < 10,
    ensures
        c == digit_char(d as nat),
{
    if d == 0 { '0' }
    else if d == 1 { '1' }
    else if d == 2 { '2' }
    else if d == 3 { '3' }
    else if d == 4 { '4' }
    else if d == 5 { '5' }
    else if d == 6 { '6' }
    else if d == 7 { '7' }
    else if d == 8 { '8' }
    else { '9' }
}

/// Appends the decimal digits of `n`.
pub fn push_decimal(out: &mut String, n: u128)
    ensures
        final(out)@ == old(out)@ + decimal(n as nat),
    decreases n,
{
    if n >= 10 {
        push_decimal(out, n / 10);
    }
    push_char(out, digit_of(n % 10));
    proof {
        if n >= 10 {
            assert(decimal(n as nat) == decimal((n / 10) as nat).push(digit_char((n % 10) as nat)));
        } else {
            assert(decimal(n as nat) == seq![digit_char(n as nat)]);
        }
        assert(final(out)@ =~= old(out)@ + decimal(n as nat));
    }
}

/// Appends `h` hundredths written with two decimals.
pub fn push_hundredths(out: &mut String, h: u128)
    ensures
        final(out)@ == old(out)@ + hundredths(h as nat),
{
    push_decimal(out, h / 100);
    push_char(out, '.');
    push_char(out, digit_of((h / 10) % 10));
    push_char(out, digit_of(h % 10));
    assert(final(out)@ =~= old(out)@ + hundredths(h as nat));
}

/// Scanner state over text with escape sequences: plain text.
pub const MODE_TEXT: u8 = 0;

/// Scanner state: an escape character has just been read.
pub const MODE_ESC: u8 = 1;

/// Scanner state: inside a control sequence, waiting for its final letter.
pub const MODE_CSI: u8 = 2;

pub open spec fn is_ascii_letter(c: char) -> bool {
    ('a' <= c && c <= 'z') || ('A' <= c && c <= 'Z')
}

/// The scanner state after reading `c` in state `mode`.
pub open spec fn next_mode(mode: u8, c: char) -> u8 {
    if mode == MODE_ESC {
        if c == '[' { MODE_CSI } else if c == '\u{1b}' { MODE_ESC } else { MODE_TEXT }
    } else if mode == MODE_CSI {
        if is_ascii_letter(c) { MODE_TEXT } else { MODE_CSI }
    } else {
        if c == '\u{1b}' { MODE_ESC } else { MODE_TEXT }
    }
}

/// Whether `c`, read in state `mode`, is shown on the terminal.
pub open spec fn shows(mode: u8, c: char) -> bool {
    (mode == MODE_ESC && c != '[' && c != '\u{1b}') || (mode != MODE_ESC && mode != MODE_CSI
        && c != '\u{1b}')
}

/// Number of shown characters of `s` from index `i` on, in state `mode` there.
pub open spec fn width_from(s: Seq<char>, i: int, mode: u8) -> nat
    decreases s.len() - i,
{
    if i < 0 || i >= s.len() {
        0
    } else if shows(mode, s[i]) {
        1 + width_from(s, i + 1, next_mode(mode, s[i]))
    } else {
        width_from(s, i + 1, next_mode(mode, s[i]))
    }
}

/// The visible width of `s`: its characters once escape sequences are removed.
pub open spec fn visible_width(s: Seq<char>) -> nat {
    width_from(s, 0, MODE_TEXT)
}

/// What is kept of `s` from index `i` on, in state `mode` there, when at most
/// `budget` more shown characters may be kept: characters are copied in order,
/// escape sequences whole, up to the first shown character over the budget.
pub open spec fn cut_from(s: Seq<char>, i: int, mode: u8, budget: nat) -> Seq<char>
    decreases s.len() - i,
{
    if i < 0 || i >= s.len() {
        seq![]
    } else if shows(mode, s[i]) {
        if budget == 0 {
            seq![]
        } else {
            seq![s[i]] + cut_from(s, i + 1, next_mode(mode, s[i]), (budget - 1) as nat)
        }
    } else {
        seq![s[i]] + cut_from(s, i + 1, next_mode(mode, s[i]), budget)
    }
}

/// `s` cut to at most `budget` visible characters, escape sequences kept whole.
pub open spec fn cut_visible(s: Seq<char>, budget: nat) -> Seq<char> {
    cut_from(s, 0, MODE_TEXT, budget)
}

/// Adding one character adds at most one to the shown width.
pub proof fn lemma_width_push(s: Seq<char>, c: char, i: int, mode: u8)
    requires
        0 <= i <= s.len(),
    ensures
        width_from(s.push(c), i, mode) <= width_from(s, i, mode) + 1,
    decreases s.len() - i,
{
    let t = s.push(c);
    if i == s.len() {
        assert(width_from(t, i + 1, next_mode(mode, c)) == 0);
    } else {
        assert(t[i] == s[i]);
        lemma_width_push(s, c, i + 1, next_mode(mode, s[i]));
    }
}

/// What a cut keeps is a run of the text from `i` on, with at most `budget`
/// shown characters.
pub proof fn lemma_cut_is_prefix(s: Seq<char>, i: int, mode: u8, budget: nat)
    requires
        0 <= i <= s.len(),
    ensures
        i + cut_from(s, i, mode, budget).len() <= s.len(),
        cut_from(s, i, mode, budget) == s.subrange(i, i + cut_from(s, i, mode, budget).len()),
        width_from(s.subrange(0, i + cut_from(s, i, mode, budget).len()), i, mode) <= budget,
    decreases s.len() - i,
{
    let c = cut_from(s, i, mode, budget);
    if i >= s.len() || (shows(mode, s[i]) && budget == 0) {
        assert(c.len() == 0);
        assert(width_from(s.subrange(0, i), i, mode) == 0);
        assert(s.subrange(i, i) =~= Seq::<char>::empty());
    } else {
        let m = next_mode(mode, s[i]);
        let b: nat = if shows(mode, s[i]) { (budget - 1) as nat } else { budget };
        lemma_cut_is_prefix(s, i + 1, m, b);
        let rest = cut_from(s, i + 1, m, b);
        assert(c == seq![s[i]] + rest);
        let j = i + 1 + rest.len();
        assert(c =~= s.subrange(i, j));
        let u = s.subrange(0, j);
        assert(u[i] == s[i]);
        assert(width_from(u, i, mode) == (if shows(mode, s[i]) { 1nat } else { 0nat })
            + width_from(u, i + 1, m));
    }
}

fn step_mode(mode: u8, c: char) -> (r: (u8, bool))
    ensures
        r.0 == next_mode(mode, c),
        r.1 == shows(mode, c),
{
    if mode == MODE_ESC {
        if c == '[' {
            (MODE_CSI, false)
        } else if c == '\u{1b}' {
            (MODE_ESC, false)
        } else {
            (MODE_TEXT, true)
        }
    } else if mode == MODE_CSI {
        if ('a' <= c && c <= 'z') || ('A' <= c && c <= 'Z') {
            (MODE_TEXT, false)
        } else {
            (MODE_CSI, false)
        }
    } else {
        if c == '\u{1b}' {
            (MODE_ESC, false)
        } else {
            (MODE_TEXT, true)
        }
    }
}

/// The number of visible characters of `s`.
pub fn visible_len(s: &str) -> (r: usize)
    ensures
        r == visible_width(s@),
{
    let n = s.unicode_len();
    let mut i: usize = 0;
    let mut mode: u8 = MODE_TEXT;
    let mut count: usize = 0;
    while i < n
        invariant
            n == s@.len(),
            i <= n,
            count <= i,
            count + width_from(s@, i as int, mode) == visible_width(s@),
        decreases n - i,
    {
        let c = s.get_char(i);
        let (m, shown) = step_mode(mode, c);
        if shown {
            count = count + 1;
        }
        mode = m;
        i = i + 1;
    }
    count
}

/// `s` cut to at most `budget` visible characters; escape sequences are copied
/// whole and do not count.
pub fn cut_to_visible(s: &str, budget: usize) -> (r: String)
    ensures
        r@ == cut_visible(s@, budget as nat),
{
    let n = s.unicode_len();
    let mut out = String::new();
    let mut i: usize = 0;
    let mut mode: u8 = MODE_TEXT;
    let mut left: usize = budget;
    while i < n
        invariant
            n == s@.len(),
            i <= n,
            out@ + cut_from(s@, i as int, mode, left as nat) == cut_visible(s@, budget as nat),
        decreases n - i,
    {
        let c = s.get_char(i);
        let (m, shown) = step_mode(mode, c);
        if shown {
            if left == 0 {
                assert(out@ + seq![] =~= out@);
                return out;
            }
            left = left - 1;
        }
        let ghost before = out@;
        push_char(&mut out, c);
        assert(out@ + cut_from(s@, i + 1, m, left as nat) =~= before + (seq![c] + cut_from(
            s@,
            i + 1,
            m,
            left as nat,
        )));
        mode = m;
        i = i + 1;
    }
    assert(out@ + seq![] =~= out@);
    out
}

} // verus!
