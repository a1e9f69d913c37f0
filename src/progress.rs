//! The progress parser: turns one line of the downloader's output into a
//! progress record, or into nothing when the line is not a progress line.
//!
//! A progress line holds, anywhere in it, the marker `[download]`, blanks, a
//! percentage (`12` or `12.3`) and `%`, blanks, `of`, blanks, an optional `~`
//! with optional blanks after it, a size (`10.00MiB`; units `GiB`, `MiB`,
//! `KiB`), blanks, `at`, blanks, a rate (`1.20MiB/s`, or `900.00B/s`), blanks,
//! `ETA`, blanks, and an ETA that is `minutes:seconds` or `Unknown`. The
//! first place in the line where all of this is found gives the record; each
//! token runs as far as its characters go, and fields are copied verbatim.
use vstd::prelude::*;
use crate::text::{chars_of, occurs_at, occurs_at_exec};

verus! {

/// One progress record, with its fields as they stood in the line.
pub struct Progress {
    pub percent: String,
    pub size_downloaded: String,
    pub speed: String,
    pub eta: String,
}

/// The fields of a `Progress`.
pub struct ProgressView {
    pub percent: Seq<char>,
    pub size_downloaded: Seq<char>,
    pub speed: Seq<char>,
    pub eta: Seq<char>,
}

impl View for Progress {
    type V = ProgressView;

    open spec fn view(&self) -> ProgressView {
        ProgressView {
            percent: self.percent@,
            size_downloaded: self.size_downloaded@,
            speed: self.speed@,
            eta: self.eta@,
        }
    }
}

pub open spec fn is_digit(c: char) -> bool {
    '0' <= c && c <= '9'
}

/// Space, tab, line feed, carriage return, vertical tab or form feed.
pub open spec fn is_blank(c: char) -> bool {
    c == ' ' || c == '\t' || c == '\n' || c == '\r' || c == '\x0B' || c == '\x0C'
}

/// The first letter of a binary unit: `G`, `M` or `K`.
pub open spec fn is_unit_prefix(c: char) -> bool {
    c == 'G' || c == 'M' || c == 'K'
}

/// End of the run of digits that starts at `i`.
pub open spec fn digits_end(s: Seq<char>, i: int) -> int
    decreases s.len() - i,
{
    if 0 <= i < s.len() && is_digit(s[i]) {
        digits_end(s, i + 1)
    } else {
        i
    }
}

/// End of the run of blanks that starts at `i`.
pub open spec fn blanks_end(s: Seq<char>, i: int) -> int
    decreases s.len() - i,
{
    if 0 <= i < s.len() && is_blank(s[i]) {
        blanks_end(s, i + 1)
    } else {
        i
    }
}

// Each token below reads `s` from the position `p` reached so far, and gives
// the position after the token, or `None` where the token is missing; a
// `None` position stays `None`.

/// The character `c`.
pub open spec fn char_tok(s: Seq<char>, p: Option<int>, c: char) -> Option<int> {
    match p {
        Some(i) => if 0 <= i < s.len() && s[i] == c {
            Some(i + 1)
        } else {
            None
        },
        None => None,
    }
}

/// The text `t`.
pub open spec fn text_tok(s: Seq<char>, p: Option<int>, t: Seq<char>) -> Option<int> {
    match p {
        Some(i) => if occurs_at(s, t, i) {
            Some(i + t.len())
        } else {
            None
        },
        None => None,
    }
}

/// One digit or more.
pub open spec fn digits_tok(s: Seq<char>, p: Option<int>) -> Option<int> {
    match p {
        Some(i) => if digits_end(s, i) > i {
            Some(digits_end(s, i))
        } else {
            None
        },
        None => None,
    }
}

/// One blank or more.
pub open spec fn blanks_tok(s: Seq<char>, p: Option<int>) -> Option<int> {
    match p {
        Some(i) => if blanks_end(s, i) > i {
            Some(blanks_end(s, i))
        } else {
            None
        },
        None => None,
    }
}

/// Any number of blanks, none included.
pub open spec fn opt_blanks_tok(s: Seq<char>, p: Option<int>) -> Option<int> {
    match p {
        Some(i) => Some(blanks_end(s, i)),
        None => None,
    }
}

/// `G`, `M` or `K`.
pub open spec fn unit_prefix_tok(s: Seq<char>, p: Option<int>) -> Option<int> {
    match p {
        Some(i) => if 0 <= i < s.len() && is_unit_prefix(s[i]) {
            Some(i + 1)
        } else {
            None
        },
        None => None,
    }
}

/// Digits, then a `.` and digits if they follow.
pub open spec fn number_tok(s: Seq<char>, p: Option<int>) -> Option<int> {
    let whole = digits_tok(s, p);
    let frac = digits_tok(s, char_tok(s, whole, '.'));
    if frac is Some {
        frac
    } else {
        whole
    }
}

/// Digits, a `.`, digits.
pub open spec fn decimal_tok(s: Seq<char>, p: Option<int>) -> Option<int> {
    digits_tok(s, char_tok(s, digits_tok(s, p), '.'))
}

/// A size: a number and a binary unit, as in `10.00MiB`.
pub open spec fn size_tok(s: Seq<char>, p: Option<int>) -> Option<int> {
    text_tok(s, unit_prefix_tok(s, number_tok(s, p)), "iB"@)
}

/// A rate: a decimal number, an optional unit prefix with `i`, and `B/s`.
pub open spec fn speed_tok(s: Seq<char>, p: Option<int>) -> Option<int> {
    let num = decimal_tok(s, p);
    let prefix = char_tok(s, unit_prefix_tok(s, num), 'i');
    text_tok(s, if prefix is Some { prefix } else { num }, "B/s"@)
}

/// An ETA: `minutes:seconds`, or `Unknown`.
pub open spec fn eta_tok(s: Seq<char>, p: Option<int>) -> Option<int> {
    let clock = digits_tok(s, char_tok(s, digits_tok(s, p), ':'));
    if clock is Some {
        clock
    } else {
        text_tok(s, p, "Unknown"@)
    }
}

/// An optional `~` with the blanks after it.
pub open spec fn approx_tok(s: Seq<char>, p: Option<int>) -> Option<int> {
    let tilde = char_tok(s, p, '~');
    if tilde is Some {
        opt_blanks_tok(s, tilde)
    } else {
        p
    }
}

/// The marker that opens a progress line.
pub open spec fn marker() -> Seq<char> {
    "[download]"@
}

/// The progress record of a progress line that starts at position `i` of `s`.
pub open spec fn progress_at(s: Seq<char>, i: int) -> Option<ProgressView> {
    let pct_start = blanks_tok(s, text_tok(s, Some(i), marker()));
    let pct_end = number_tok(s, pct_start);
    let size_start = approx_tok(
        s,
        blanks_tok(s, text_tok(s, blanks_tok(s, char_tok(s, pct_end, '%')), "of"@)),
    );
    let size_end = size_tok(s, size_start);
    let speed_start = blanks_tok(s, text_tok(s, blanks_tok(s, size_end), "at"@));
    let speed_end = speed_tok(s, speed_start);
    let eta_start = blanks_tok(s, text_tok(s, blanks_tok(s, speed_end), "ETA"@));
    let eta_end = eta_tok(s, eta_start);
    if eta_end is Some {
        Some(
            ProgressView {
                percent: s.subrange(pct_start->0, pct_end->0),
                size_downloaded: s.subrange(size_start->0, size_end->0),
                speed: s.subrange(speed_start->0, speed_end->0),
                eta: s.subrange(eta_start->0, eta_end->0),
            },
        )
    } else {
        None
    }
}

/// The record of the first progress line found in `s` at a position from `i`.
pub open spec fn progress_from(s: Seq<char>, i: int) -> Option<ProgressView>
    decreases s.len() + 1 - i,
{
    if i < 0 || i > s.len() {
        None
    } else if progress_at(s, i) is Some {
        progress_at(s, i)
    } else {
        progress_from(s, i + 1)
    }
}

/// The progress record of a line: the first progress line found in it.
pub open spec fn parse_progress_spec(s: Seq<char>) -> Option<ProgressView> {
    progress_from(s, 0)
}

/// A position of the executable parser, read as a position of the grammar.
pub open spec fn lift(p: Option<usize>) -> Option<int> {
    match p {
        Some(i) => Some(i as int),
        None => None,
    }
}

/// The position is inside `s` or at its end.
pub open spec fn within(s: Seq<char>, p: Option<usize>) -> bool {
    match p {
        Some(i) => i <= s.len(),
        None => true,
    }
}

fn is_digit_exec(c: char) -> (r: bool)
    ensures
        r == is_digit(c),
{
    '0' <= c && c <= '9'
}

fn is_blank_exec(c: char) -> (r: bool)
    ensures
        r == is_blank(c),
{
    c == ' ' || c == '\t' || c == '\n' || c == '\r' || c == '\x0B' || c == '\x0C'
}

fn is_unit_prefix_exec(c: char) -> (r: bool)
    ensures
        r == is_unit_prefix(c),
{
    c == 'G' || c == 'M' || c == 'K'
}

fn digits_end_exec(s: &Vec<char>, i: usize) -> (r: usize)
    requires
        i <= s@.len(),
    ensures
        r == digits_end(s@, i as int),
        i <= r <= s@.len(),
{
    let mut j: usize = i;
    while j < s.len() && is_digit_exec(s[j])
        invariant
            i <= j <= s@.len(),
            digits_end(s@, j as int) == digits_end(s@, i as int),
        decreases s@.len() - j,
    {
        j = j + 1;
    }
    j
}

fn blanks_end_exec(s: &Vec<char>, i: usize) -> (r: usize)
    requires
        i <= s@.len(),
    ensures
        r == blanks_end(s@, i as int),
        i <= r <= s@.len(),
{
    let mut j: usize = i;
    while j < s.len() && is_blank_exec(s[j])
        invariant
            i <= j <= s@.len(),
            blanks_end(s@, j as int) == blanks_end(s@, i as int),
        decreases s@.len() - j,
    {
        j = j + 1;
    }
    j
}

fn char_tok_exec(s: &Vec<char>, p: Option<usize>, c: char) -> (r: Option<usize>)
    requires
        within(s@, p),
    ensures
        lift(r) == char_tok(s@, lift(p), c),
        within(s@, r),
{
    match p {
        Some(i) => if i < s.len() && s[i] == c {
            Some(i + 1)
        } else {
            None
        },
        None => None,
    }
}

fn text_tok_exec(s: &Vec<char>, p: Option<usize>, t: &Vec<char>) -> (r: Option<usize>)
    requires
        within(s@, p),
    ensures
        lift(r) == text_tok(s@, lift(p), t@),
        within(s@, r),
{
    match p {
        Some(i) => if occurs_at_exec(s, t, i) {
            assert(i + t@.len() <= s@.len() == s.len());
            Some(i + t.len())
        } else {
            None
        },
        None => None,
    }
}

fn digits_tok_exec(s: &Vec<char>, p: Option<usize>) -> (r: Option<usize>)
    requires
        within(s@, p),
    ensures
        lift(r) == digits_tok(s@, lift(p)),
        within(s@, r),
{
    match p {
        Some(i) => {
            let j = digits_end_exec(s, i);
            if j > i {
                Some(j)
            } else {
                None
            }
        },
        None => None,
    }
}

fn blanks_tok_exec(s: &Vec<char>, p: Option<usize>) -> (r: Option<usize>)
    requires
        within(s@, p),
    ensures
        lift(r) == blanks_tok(s@, lift(p)),
        within(s@, r),
{
    match p {
        Some(i) => {
            let j = blanks_end_exec(s, i);
            if j > i {
                Some(j)
            } else {
                None
            }
        },
        None => None,
    }
}

fn opt_blanks_tok_exec(s: &Vec<char>, p: Option<usize>) -> (r: Option<usize>)
    requires
        within(s@, p),
    ensures
        lift(r) == opt_blanks_tok(s@, lift(p)),
        within(s@, r),
{
    match p {
        Some(i) => Some(blanks_end_exec(s, i)),
        None => None,
    }
}

fn unit_prefix_tok_exec(s: &Vec<char>, p: Option<usize>) -> (r: Option<usize>)
    requires
        within(s@, p),
    ensures
        lift(r) == unit_prefix_tok(s@, lift(p)),
        within(s@, r),
{
    match p {
        Some(i) => if i < s.len() && is_unit_prefix_exec(s[i]) {
            Some(i + 1)
        } else {
            None
        },
        None => None,
    }
}

fn number_tok_exec(s: &Vec<char>, p: Option<usize>) -> (r: Option<usize>)
    requires
        within(s@, p),
    ensures
        lift(r) == number_tok(s@, lift(p)),
        within(s@, r),
{
    let whole = digits_tok_exec(s, p);
    let frac = digits_tok_exec(s, char_tok_exec(s, whole, '.'));
    if frac.is_some() {
        frac
    } else {
        whole
    }
}

fn decimal_tok_exec(s: &Vec<char>, p: Option<usize>) -> (r: Option<usize>)
    requires
        within(s@, p),
    ensures
        lift(r) == decimal_tok(s@, lift(p)),
        within(s@, r),
{
    digits_tok_exec(s, char_tok_exec(s, digits_tok_exec(s, p), '.'))
}

/// The fixed words of the grammar, as characters.
struct Words {
    marker: Vec<char>,
    of: Vec<char>,
    at: Vec<char>,
    eta: Vec<char>,
    ib: Vec<char>,
    per_second: Vec<char>,
    unknown: Vec<char>,
}

impl Words {
    spec fn wf(&self) -> bool {
        &&& self.marker@ == marker()
        &&& self.of@ == "of"@
        &&& self.at@ == "at"@
        &&& self.eta@ == "ETA"@
        &&& self.ib@ == "iB"@
        &&& self.per_second@ == "B/s"@
        &&& self.unknown@ == "Unknown"@
    }

    fn new() -> (r: Words)
        ensures
            r.wf(),
    {
        Words {
            marker: chars_of("[download]"),
            of: chars_of("of"),
            at: chars_of("at"),
            eta: chars_of("ETA"),
            ib: chars_of("iB"),
            per_second: chars_of("B/s"),
            unknown: chars_of("Unknown"),
        }
    }
}

fn size_tok_exec(s: &Vec<char>, p: Option<usize>, w: &Words) -> (r: Option<usize>)
    requires
        within(s@, p),
        w.wf(),
    ensures
        lift(r) == size_tok(s@, lift(p)),
        within(s@, r),
{
    text_tok_exec(s, unit_prefix_tok_exec(s, number_tok_exec(s, p)), &w.ib)
}

fn speed_tok_exec(s: &Vec<char>, p: Option<usize>, w: &Words) -> (r: Option<usize>)
    requires
        within(s@, p),
        w.wf(),
    ensures
        lift(r) == speed_tok(s@, lift(p)),
        within(s@, r),
{
    let num = decimal_tok_exec(s, p);
    let prefix = char_tok_exec(s, unit_prefix_tok_exec(s, num), 'i');
    let before_unit = if prefix.is_some() {
        prefix
    } else {
        num
    };
    text_tok_exec(s, before_unit, &w.per_second)
}

fn eta_tok_exec(s: &Vec<char>, p: Option<usize>, w: &Words) -> (r: Option<usize>)
    requires
        within(s@, p),
        w.wf(),
    ensures
        lift(r) == eta_tok(s@, lift(p)),
        within(s@, r),
{
    let clock = digits_tok_exec(s, char_tok_exec(s, digits_tok_exec(s, p), ':'));
    if clock.is_some() {
        clock
    } else {
        text_tok_exec(s, p, &w.unknown)
    }
}

fn approx_tok_exec(s: &Vec<char>, p: Option<usize>) -> (r: Option<usize>)
    requires
        within(s@, p),
    ensures
        lift(r) == approx_tok(s@, lift(p)),
        within(s@, r),
{
    let tilde = char_tok_exec(s, p, '~');
    if tilde.is_some() {
        opt_blanks_tok_exec(s, tilde)
    } else {
        p
    }
}

/// The text of `line` between two positions of the grammar's tokens.
fn field(line: &str, from: Option<usize>, to: Option<usize>) -> (r: String)
    requires
        from is Some,
        to is Some,
        from->0 <= to->0 <= line@.len(),
    ensures
        r@ == line@.subrange(from->0 as int, to->0 as int),
{
    String::from_str(line.substring_char(from.unwrap(), to.unwrap()))
}

/// The record of a progress line starting at position `i` of `line`.
fn progress_at_exec(line: &str, s: &Vec<char>, i: usize, w: &Words) -> (r: Option<Progress>)
    requires
        s@ == line@,
        i <= s@.len(),
        w.wf(),
    ensures
        match r {
            Some(p) => progress_at(s@, i as int) == Some(p@),
            None => progress_at(s@, i as int) is None,
        },
{
    let pct_start = blanks_tok_exec(s, text_tok_exec(s, Some(i), &w.marker));
    let pct_end = number_tok_exec(s, pct_start);
    let size_start = approx_tok_exec(
        s,
        blanks_tok_exec(
            s,
            text_tok_exec(s, blanks_tok_exec(s, char_tok_exec(s, pct_end, '%')), &w.of),
        ),
    );
    let size_end = size_tok_exec(s, size_start, w);
    let speed_start = blanks_tok_exec(s, text_tok_exec(s, blanks_tok_exec(s, size_end), &w.at));
    let speed_end = speed_tok_exec(s, speed_start, w);
    let eta_start = blanks_tok_exec(s, text_tok_exec(s, blanks_tok_exec(s, speed_end), &w.eta));
    let eta_end = eta_tok_exec(s, eta_start, w);
    if eta_end.is_none() {
        return None;
    }
    proof {
        lemma_tokens_advance(s@, i as int);
    }
    Some(
        Progress {
            percent: field(line, pct_start, pct_end),
            size_downloaded: field(line, size_start, size_end),
            speed: field(line, speed_start, speed_end),
            eta: field(line, eta_start, eta_end),
        },
    )
}

/// In a progress line, each field ends no earlier than it starts.
proof fn lemma_tokens_advance(s: Seq<char>, i: int)
    requires
        0 <= i <= s.len(),
    ensures
        ({
            let pct_start = blanks_tok(s, text_tok(s, Some(i), marker()));
            let pct_end = number_tok(s, pct_start);
            let size_start = approx_tok(
                s,
                blanks_tok(s, text_tok(s, blanks_tok(s, char_tok(s, pct_end, '%')), "of"@)),
            );
            let size_end = size_tok(s, size_start);
            let speed_start = blanks_tok(s, text_tok(s, blanks_tok(s, size_end), "at"@));
            let speed_end = speed_tok(s, speed_start);
            let eta_start = blanks_tok(s, text_tok(s, blanks_tok(s, speed_end), "ETA"@));
            let eta_end = eta_tok(s, eta_start);
            eta_end is Some ==> {
                &&& pct_start->0 <= pct_end->0
                &&& size_start->0 <= size_end->0
                &&& speed_start->0 <= speed_end->0
                &&& eta_start->0 <= eta_end->0
            }
        }),
{
}

/// The progress record of `line`: the first progress line found in it, or
/// `None` when there is none.
pub fn parse_progress(line: &str) -> (r: Option<Progress>)
    ensures
        match r {
            Some(p) => parse_progress_spec(line@) == Some(p@),
            None => parse_progress_spec(line@) is None,
        },
{
    let s = chars_of(line);
    let w = Words::new();
    let mut i: usize = 0;
    while i < s.len()
        invariant
            s@ == line@,
            w.wf(),
            i <= s@.len(),
            progress_from(s@, 0) == progress_from(s@, i as int),
        decreases s@.len() - i,
    {
        let found = progress_at_exec(line, &s, i, &w);
        if found.is_some() {
            return found;
        }
        i = i + 1;
    }
    let last = progress_at_exec(line, &s, i, &w);
    proof {
        assert(progress_from(s@, i + 1) is None);
    }
    last
}

} // verus!
