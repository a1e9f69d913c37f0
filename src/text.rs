//! Small verified operations on text, stated over `Seq<char>`.
use vstd::prelude::*;

verus! {

/// The characters of `s`, in order.
pub fn chars_of(s: &str) -> (v: Vec<char>)
    ensures
        v@ == s@,
{
    let mut v: Vec<char> = Vec::new();
    for c in it: s.chars()
        invariant
            it.seq() == s@,
            v@ == it.seq().subrange(0, it.index() as int),
    {
        v.push(c);
    }
    v
}


/// `needle` occurs in `hay` starting at position `i`.
pub open spec fn occurs_at(hay: Seq<char>, needle: Seq<char>, i: int) -> bool {
    0 <= i && i + needle.len() <= hay.len() && hay.subrange(i, i + needle.len()) == needle
}

/// `needle` is a substring of `hay`.
pub open spec fn contains_text(hay: Seq<char>, needle: Seq<char>) -> bool {
    exists|i: int| occurs_at(hay, needle, i)
}

/// Whether `a` and `b` hold the same characters.
pub fn same_text(a: &str, b: &str) -> (r: bool)
    ensures
        r == (a@ == b@),
{
    let x = chars_of(a);
    let y = chars_of(b);
    if x.len() != y.len() {
        return false;
    }
    let mut i: usize = 0;
    while i < x.len()
        invariant
            x@ == a@,
            y@ == b@,
            x@.len() == y@.len(),
            i <= x@.len(),
            forall|k: int| 0 <= k < i ==> x@[k] == y@[k],
        decreases x@.len() - i,
    {
        if x[i] != y[i] {
            return false;
        }
        i = i + 1;
    }
    assert(x@ =~= y@);
    true
}

/// Whether `needle` occurs in `hay` at position `i`.
pub(crate) fn occurs_at_exec(hay: &Vec<char>, needle: &Vec<char>, i: usize) -> (r: bool)
    ensures
        r == occurs_at(hay@, needle@, i as int),
{
    if i > hay.len() || needle.len() > hay.len() - i {
        return false;
    }
    let mut k: usize = 0;
    while k < needle.len()
        invariant
            i + needle@.len() <= hay@.len() <= usize::MAX,
            k <= needle@.len(),
            forall|m: int| 0 <= m < k ==> hay@[i + m] == needle@[m],
        decreases needle@.len() - k,
    {
        if hay[i + k] != needle[k] {
            assert(hay@.subrange(i as int, i + needle@.len())[k as int] != needle@[k as int]);
            return false;
        }
        k = k + 1;
    }
    assert(hay@.subrange(i as int, i + needle@.len()) =~= needle@);
    true
}

/// Whether `needle` is a substring of `hay`.
pub fn contains(hay: &str, needle: &str) -> (r: bool)
    ensures
        r == contains_text(hay@, needle@),
{
    let h = chars_of(hay);
    let n = chars_of(needle);
    if n.len() > h.len() {
        assert forall|i: int| !occurs_at(hay@, needle@, i) by {}
        return false;
    }
    let last: usize = h.len() - n.len();
    let mut i: usize = 0;
    loop
        invariant
            h@ == hay@,
            n@ == needle@,
            last == h@.len() - n@.len(),
            i <= last,
            forall|j: int| 0 <= j < i ==> !occurs_at(hay@, needle@, j),
        ensures
            forall|j: int| 0 <= j <= last ==> !occurs_at(hay@, needle@, j),
        decreases last - i,
    {
        if occurs_at_exec(&h, &n, i) {
            return true;
        }
        if i == last {
            break;
        }
        i = i + 1;
    }
    false
}

/// Start of the line that holds position `j` of `b`: just after the nearest
/// newline before `j`, or 0.
pub open spec fn line_start(b: Seq<char>, j: int) -> int
    decreases j,
{
    if j <= 0 {
        0
    } else if b[j - 1] == '\n' {
        j
    } else {
        line_start(b, j - 1)
    }
}

/// The text after the last newline of `b` (all of `b` if it has none).
pub open spec fn after_last_newline(b: Seq<char>) -> Seq<char> {
    b.subrange(line_start(b, b.len() as int), b.len() as int)
}

/// The last line of a program's output, read line by line: a line ends at
/// `'\n'`, and a line that ended so loses one `'\r'` before it. Output with no
/// line gives the empty text.
pub open spec fn last_line_of(t: Seq<char>) -> Seq<char> {
    if t.len() == 0 {
        Seq::empty()
    } else if t.last() == '\n' {
        let line = after_last_newline(t.drop_last());
        if line.len() > 0 && line.last() == '\r' {
            line.drop_last()
        } else {
            line
        }
    } else {
        after_last_newline(t)
    }
}

proof fn lemma_line_start_bounds(b: Seq<char>, j: int)
    requires
        0 <= j <= b.len(),
    ensures
        0 <= line_start(b, j) <= j,
        forall|k: int| line_start(b, j) <= k < j ==> b[k] != '\n',
    decreases j,
{
    if j > 0 && b[j - 1] != '\n' {
        lemma_line_start_bounds(b, j - 1);
    }
}

/// `line_start` of a position in a prefix does not depend on what follows the prefix.
proof fn lemma_line_start_prefix(b: Seq<char>, end: int, j: int)
    requires
        0 <= j <= end <= b.len(),
    ensures
        line_start(b.subrange(0, end), j) == line_start(b, j),
    decreases j,
{
    if j > 0 {
        assert(b.subrange(0, end)[j - 1] == b[j - 1]);
        lemma_line_start_prefix(b, end, j - 1);
    }
}

/// Start of the last line of `b[0..end]`.
fn find_line_start(b: &Vec<char>, end: usize) -> (r: usize)
    requires
        end <= b@.len(),
    ensures
        r == line_start(b@, end as int),
{
    let mut j: usize = end;
    while j > 0 && b[j - 1] != '\n'
        invariant
            j <= end <= b@.len(),
            line_start(b@, j as int) == line_start(b@, end as int),
        decreases j,
    {
        j = j - 1;
    }
    j
}

/// The last line of `output`, as a reader that splits it into lines sees it.
pub fn last_line(output: &str) -> (r: String)
    ensures
        r@ == last_line_of(output@),
{
    let t = chars_of(output);
    let n = t.len();
    if n == 0 {
        return String::new();
    }
    if t[n - 1] != '\n' {
        let start = find_line_start(&t, n);
        proof {
            lemma_line_start_bounds(t@, n as int);
        }
        return String::from_str(output.substring_char(start, n));
    }
    let body: usize = n - 1;
    let start = find_line_start(&t, body);
    proof {
        lemma_line_start_bounds(t@, body as int);
        lemma_line_start_prefix(t@, body as int, body as int);
        assert(t@.drop_last() =~= t@.subrange(0, body as int));
        assert(t@.drop_last().subrange(start as int, body as int) =~= t@.subrange(
            start as int,
            body as int,
        ));
    }
    let mut end: usize = body;
    if end > start && t[end - 1] == '\r' {
        end = end - 1;
    }
    String::from_str(output.substring_char(start, end))
}

} // verus!
