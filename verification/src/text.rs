use vstd::prelude::*;
use vstd::string::*;

verus! {

/// `String::push` appends one character at the end of the string and leaves
/// the characters before it as they were.
pub assume_specification[ String::push ](s: &mut String, ch: char)
    ensures
        final(s)@ == old(s)@.push(ch),
;

/// The characters of `s`, in order.
pub fn chars_of(s: &str) -> (v: Vec<char>)
    ensures
        v@ == s@,
{
    let mut v: Vec<char> = Vec::new();
    for c in it: s.chars()
        invariant
            v@ == it.seq().take(it.index() as int),
            it.seq() == s@,
    {
        v.push(c);
    }
    v
}

/// The string that holds exactly the characters of `v`, in order.
pub fn string_of(v: &Vec<char>) -> (s: String)
    ensures
        s@ == v@,
{
    let mut s = String::new();
    let mut i: usize = 0;
    while i < v.len()
        invariant
            i <= v.len(),
            s@ == v@.take(i as int),
        decreases v.len() - i,
    {
        s.push(v[i]);
        i = i + 1;
        assert(v@.take(i as int) == v@.take(i - 1).push(v@[i - 1]));
    }
    assert(v@.take(v.len() as int) == v@);
    s
}

/// A copy of the characters of `s` from `from` up to `to`.
pub fn copy_range(s: &Vec<char>, from: usize, to: usize) -> (out: Vec<char>)
    requires
        from <= to <= s.len(),
    ensures
        out@ == s@.subrange(from as int, to as int),
{
    let mut out: Vec<char> = Vec::new();
    let mut i: usize = from;
    while i < to
        invariant
            from <= i <= to <= s.len(),
            out@ == s@.subrange(from as int, i as int),
        decreases to - i,
    {
        out.push(s[i]);
        i = i + 1;
    }
    out
}

/// Whether two vectors hold the same characters.
pub fn same_chars(a: &Vec<char>, b: &Vec<char>) -> (same: bool)
    ensures
        same == (a@ == b@),
{
    if a.len() != b.len() {
        return false;
    }
    let mut i: usize = 0;
    while i < a.len()
        invariant
            a.len() == b.len(),
            i <= a.len(),
            forall|k: int| 0 <= k < i ==> a@[k] == b@[k],
        decreases a.len() - i,
    {
        if a[i] != b[i] {
            return false;
        }
        i = i + 1;
    }
    assert(a@ =~= b@);
    true
}

/// Whether two texts are the same, character for character.
pub fn same_text(a: &str, b: &str) -> (same: bool)
    ensures
        same == (a@ == b@),
{
    same_chars(&chars_of(a), &chars_of(b))
}

/// The views of the vectors of `v`, in order.
pub open spec fn views(v: Seq<Vec<char>>) -> Seq<Seq<char>> {
    Seq::new(v.len(), |i: int| v[i]@)
}

/// Position of the first `sep` in `s`, or `s.len()` where `s` holds none.
pub open spec fn first_index_of(s: Seq<char>, sep: char) -> nat
    decreases s.len(),
{
    if s.len() == 0 || s[0] == sep {
        0
    } else {
        1 + first_index_of(s.skip(1), sep)
    }
}

/// The pieces of `s` between its separators: a text with n separators has
/// n + 1 pieces, and a piece may be empty.
pub open spec fn split(s: Seq<char>, sep: char) -> Seq<Seq<char>>
    decreases s.len(),
{
    let j = first_index_of(s, sep);
    if j >= s.len() {
        seq![s]
    } else {
        seq![s.take(j as int)] + split(s.skip(j as int + 1), sep)
    }
}

/// The pieces put together again, with the separator between one piece and
/// the next.
pub open spec fn rejoined(pieces: Seq<Seq<char>>, sep: char) -> Seq<char>
    decreases pieces.len(),
{
    if pieces.len() == 0 {
        Seq::empty()
    } else if pieces.len() == 1 {
        pieces[0]
    } else {
        pieces[0] + seq![sep] + rejoined(pieces.skip(1), sep)
    }
}

/// `j` is the first position of `sep` in `s` when no earlier position holds it
/// and `j` is either the end of `s` or a position that holds it.
pub proof fn lemma_first_index_of(s: Seq<char>, sep: char, j: int)
    requires
        0 <= j <= s.len(),
        forall|k: int| 0 <= k < j ==> s[k] != sep,
        j == s.len() || s[j] == sep,
    ensures
        first_index_of(s, sep) == j,
    decreases s.len(),
{
    if s.len() == 0 || s[0] == sep {
    } else {
        let t = s.skip(1);
        assert forall|k: int| 0 <= k < j - 1 implies t[k] != sep by {
            assert(t[k] == s[k + 1]);
        }
        lemma_first_index_of(t, sep, j - 1);
    }
}

/// The first position of `sep` lies within `s`, nothing before it is `sep`,
/// and it holds `sep` unless it is the end.
pub proof fn lemma_first_index_of_bounds(s: Seq<char>, sep: char)
    ensures
        first_index_of(s, sep) <= s.len(),
        forall|k: int| 0 <= k < first_index_of(s, sep) ==> s[k] != sep,
        first_index_of(s, sep) < s.len() ==> s[first_index_of(s, sep) as int] == sep,
    decreases s.len(),
{
    if s.len() == 0 || s[0] == sep {
    } else {
        let t = s.skip(1);
        lemma_first_index_of_bounds(t, sep);
        let j = first_index_of(s, sep);
        assert forall|k: int| 0 <= k < j implies s[k] != sep by {
            if k > 0 {
                assert(t[k - 1] == s[k]);
            }
        }
        if j < s.len() {
            assert(t[j - 1] == s[j as int]);
        }
    }
}

/// A text always splits into at least one piece.
pub proof fn lemma_split_nonempty(s: Seq<char>, sep: char)
    ensures
        split(s, sep).len() >= 1,
    decreases s.len(),
{
    let j = first_index_of(s, sep);
    if j < s.len() {
        lemma_split_nonempty(s.skip(j as int + 1), sep);
    }
}

/// Splitting two texts joined by one separator gives the pieces of the first
/// followed by the pieces of the second.
pub proof fn lemma_split_joined(a: Seq<char>, b: Seq<char>, sep: char)
    ensures
        split(a + seq![sep] + b, sep) == split(a, sep) + split(b, sep),
    decreases a.len(),
{
    let whole = a + seq![sep] + b;
    let j = first_index_of(a, sep);
    lemma_first_index_of_bounds(a, sep);
    assert forall|k: int| 0 <= k < j implies whole[k] != sep by {
        assert(whole[k] == a[k]);
    }
    if j < a.len() {
        assert(whole[j as int] == a[j as int]);
        lemma_first_index_of(whole, sep, j as int);
        assert(whole.take(j as int) == a.take(j as int));
        assert(whole.skip(j as int + 1) == a.skip(j as int + 1) + seq![sep] + b);
        lemma_split_joined(a.skip(j as int + 1), b, sep);
        assert(split(whole, sep) == seq![a.take(j as int)] + (split(a.skip(j as int + 1), sep)
            + split(b, sep)));
    } else {
        assert(whole[j as int] == sep);
        lemma_first_index_of(whole, sep, j as int);
        assert(whole.take(j as int) == a);
        assert(whole.skip(j as int + 1) == b);
    }
}

/// Splitting loses nothing: the pieces of a text, put together again with
/// the separator between them, are the text.
pub proof fn law_split_rejoins(s: Seq<char>, sep: char)
    ensures
        rejoined(split(s, sep), sep) == s,
    decreases s.len(),
{
    let j = first_index_of(s, sep);
    lemma_first_index_of_bounds(s, sep);
    if j < s.len() {
        let rest = s.skip(j as int + 1);
        law_split_rejoins(rest, sep);
        lemma_split_nonempty(rest, sep);
        let pieces = split(s, sep);
        assert(pieces.skip(1) =~= split(rest, sep));
        assert(pieces[0] == s.take(j as int));
        assert(s.take(j as int) + seq![sep] + rest =~= s);
    }
}

/// No piece of a split text holds the separator.
pub proof fn law_pieces_hold_no_separator(s: Seq<char>, sep: char)
    ensures
        forall|i: int, k: int|
            0 <= i < split(s, sep).len() && 0 <= k < split(s, sep)[i].len() ==> split(
                s,
                sep,
            )[i][k] != sep,
    decreases s.len(),
{
    let j = first_index_of(s, sep);
    lemma_first_index_of_bounds(s, sep);
    if j < s.len() {
        let rest = s.skip(j as int + 1);
        law_pieces_hold_no_separator(rest, sep);
        let pieces = split(s, sep);
        assert forall|i: int, k: int|
            0 <= i < pieces.len() && 0 <= k < pieces[i].len() implies pieces[i][k] != sep by {
            if i == 0 {
                assert(pieces[0][k] == s[k]);
            } else {
                assert(pieces[i] == split(rest, sep)[i - 1]);
            }
        }
    }
}

/// Splits `s` at every `sep`.
pub fn split_chars(s: &Vec<char>, sep: char) -> (out: Vec<Vec<char>>)
    ensures
        views(out@) == split(s@, sep),
{
    let n = s.len();
    let mut out: Vec<Vec<char>> = Vec::new();
    let mut start: usize = 0;
    let mut i: usize = 0;
    proof {
        assert(s@.skip(0) == s@);
        assert(views(out@) + split(s@, sep) == split(s@, sep));
    }
    while i < n
        invariant
            n == s.len(),
            start <= i <= n,
            forall|k: int| start <= k < i ==> s@[k] != sep,
            split(s@, sep) == views(out@) + split(s@.skip(start as int), sep),
        decreases n - i,
    {
        if s[i] == sep {
            let piece = copy_range(s, start, i);
            proof {
                let rest = s@.skip(start as int);
                assert forall|k: int| 0 <= k < i - start implies rest[k] != sep by {
                    assert(rest[k] == s@[start + k]);
                }
                lemma_first_index_of(rest, sep, i - start);
                assert(rest.take(i - start) == s@.subrange(start as int, i as int));
                assert(rest.skip(i - start + 1) == s@.skip(i + 1));
                assert(views(out@.push(piece)) == views(out@) + seq![piece@]);
            }
            out.push(piece);
            start = i + 1;
        }
        i = i + 1;
    }
    let piece = copy_range(s, start, n);
    proof {
        let rest = s@.skip(start as int);
        assert forall|k: int| 0 <= k < n - start implies rest[k] != sep by {
            assert(rest[k] == s@[start + k]);
        }
        lemma_first_index_of(rest, sep, n - start);
        assert(rest == s@.subrange(start as int, n as int));
        assert(views(out@.push(piece)) == views(out@) + seq![piece@]);
    }
    out.push(piece);
    out
}

/// A line without the carriage return at its end, where it has one.
pub open spec fn without_return(line: Seq<char>) -> Seq<char> {
    if line.len() > 0 && line.last() == '\r' {
        line.drop_last()
    } else {
        line
    }
}

/// The lines of a text. A line ends at a line feed, or at a carriage return
/// and a line feed, neither of which belongs to the line. What stands after
/// the last line feed is a line unless it is empty, and keeps a carriage
/// return at its end.
pub open spec fn text_lines(s: Seq<char>) -> Seq<Seq<char>> {
    let pieces = split(s, '\n');
    let ended = Seq::new((pieces.len() - 1) as nat, |i: int| without_return(pieces[i]));
    if pieces.last().len() == 0 {
        ended
    } else {
        ended.push(pieces.last())
    }
}

/// The lines of a text.
pub fn lines_of(s: &str) -> (lines: Vec<String>)
    ensures
        lines@.len() == text_lines(s@).len(),
        forall|i: int| 0 <= i < lines@.len() ==> (#[trigger] lines@[i])@ == text_lines(s@)[i],
{
    let chars = chars_of(s);
    let pieces = split_chars(&chars, '\n');
    proof {
        lemma_split_nonempty(s@, '\n');
    }
    let ghost whole = split(s@, '\n');
    let last = pieces.len() - 1;
    let mut lines: Vec<String> = Vec::new();
    let mut i: usize = 0;
    while i < last
        invariant
            i <= last,
            last == pieces.len() - 1,
            views(pieces@) == whole,
            lines@.len() == i,
            forall|k: int| 0 <= k < i ==> (#[trigger] lines@[k])@ == without_return(whole[k]),
        decreases last - i,
    {
        let piece = &pieces[i];
        assert(piece@ == views(pieces@)[i as int]);
        let n = piece.len();
        let line = if n > 0 && piece[n - 1] == '\r' {
            let cut = copy_range(piece, 0, n - 1);
            assert(cut@ =~= piece@.drop_last());
            string_of(&cut)
        } else {
            string_of(piece)
        };
        lines.push(line);
        i = i + 1;
    }
    let tail = &pieces[last];
    assert(tail@ == views(pieces@)[last as int]);
    assert(whole.last() == tail@);
    if tail.len() > 0 {
        lines.push(string_of(tail));
    }
    lines
}

/// `needle` stands in `hay` at position `i`.
pub open spec fn occurs_at(hay: Seq<char>, needle: Seq<char>, i: int) -> bool {
    0 <= i && i + needle.len() <= hay.len() && hay.subrange(i, i + needle.len()) == needle
}

/// `needle` is a contiguous part of `hay`. The empty text is part of every text.
pub open spec fn contains_text(hay: Seq<char>, needle: Seq<char>) -> bool {
    exists|i: int| occurs_at(hay, needle, i)
}

/// Whether `needle` stands in `hay` at position `i`.
fn matches_at(hay: &Vec<char>, needle: &Vec<char>, i: usize) -> (b: bool)
    requires
        i + needle.len() <= hay.len(),
    ensures
        b == occurs_at(hay@, needle@, i as int),
{
    let m = needle.len();
    let mut j: usize = 0;
    while j < m
        invariant
            m == needle.len(),
            j <= m,
            i + m <= hay.len(),
            forall|k: int| 0 <= k < j ==> hay@[i + k] == needle@[k],
        decreases m - j,
    {
        if hay[i + j] != needle[j] {
            proof {
                assert(hay@.subrange(i as int, i + m)[j as int] == hay@[i + j]);
            }
            return false;
        }
        j = j + 1;
    }
    assert(hay@.subrange(i as int, i + m) =~= needle@);
    true
}

/// Whether `needle` is a contiguous part of `hay`, compared character by
/// character and with regard to case.
pub fn contains_chars(hay: &Vec<char>, needle: &Vec<char>) -> (b: bool)
    ensures
        b == contains_text(hay@, needle@),
{
    let n = hay.len();
    let m = needle.len();
    if m > n {
        return false;
    }
    let last = n - m;
    let mut i: usize = 0;
    while i < last
        invariant
            n == hay.len(),
            m == needle.len(),
            m <= n,
            last == n - m,
            i <= last,
            forall|k: int| 0 <= k < i ==> !occurs_at(hay@, needle@, k),
        decreases last - i,
    {
        if matches_at(hay, needle, i) {
            return true;
        }
        i = i + 1;
    }
    matches_at(hay, needle, last)
}

/// The character that stands for a digit.
pub open spec fn digit_char(d: int) -> char {
    if d == 0 {
        '0'
    } else if d == 1 {
        '1'
    } else if d == 2 {
        '2'
    } else if d == 3 {
        '3'
    } else if d == 4 {
        '4'
    } else if d == 5 {
        '5'
    } else if d == 6 {
        '6'
    } else if d == 7 {
        '7'
    } else if d == 8 {
        '8'
    } else {
        '9'
    }
}

/// The decimal digits of a natural number, without leading zeros.
pub open spec fn decimal_digits(n: nat) -> Seq<char>
    decreases n,
{
    if n < 10 {
        seq![digit_char(n as int)]
    } else {
        decimal_digits(n / 10).push(digit_char((n % 10) as int))
    }
}

/// A whole number in decimal, with a minus sign where it is negative.
pub open spec fn decimal(n: int) -> Seq<char> {
    if n < 0 {
        seq!['-'] + decimal_digits((-n) as nat)
    } else {
        decimal_digits(n as nat)
    }
}

/// `s` read from its end.
pub open spec fn reversed(s: Seq<char>) -> Seq<char> {
    Seq::new(s.len(), |i: int| s[s.len() - 1 - i])
}

fn digit_of(d: u64) -> (c: char)
    requires
        d < 10,
    ensures
        c == digit_char(d as int),
{
    if d == 0 {
        '0'
    } else if d == 1 {
        '1'
    } else if d == 2 {
        '2'
    } else if d == 3 {
        '3'
    } else if d == 4 {
        '4'
    } else if d == 5 {
        '5'
    } else if d == 6 {
        '6'
    } else if d == 7 {
        '7'
    } else if d == 8 {
        '8'
    } else {
        '9'
    }
}

/// Writes `n` in decimal, as `{}` does for a whole number.
pub fn decimal_string(n: i32) -> (out: String)
    ensures
        out@ == decimal(n as int),
{
    let wide: i64 = n as i64;
    let start: u64 = if wide < 0 {
        (-wide) as u64
    } else {
        wide as u64
    };
    let mut rest: u64 = start;
    let mut low_first: Vec<char> = Vec::new();
    assert(decimal_digits(rest as nat) + reversed(low_first@) =~= decimal_digits(start as nat));
    while rest >= 10
        invariant
            decimal_digits(start as nat) == decimal_digits(rest as nat) + reversed(low_first@),
        decreases rest,
    {
        let d = digit_of(rest % 10);
        proof {
            assert(reversed(low_first@.push(d)) =~= seq![d] + reversed(low_first@));
            assert(decimal_digits(rest as nat) == decimal_digits((rest / 10) as nat).push(d));
            assert(decimal_digits((rest / 10) as nat).push(d) + reversed(low_first@)
                =~= decimal_digits((rest / 10) as nat) + (seq![d] + reversed(low_first@)));
        }
        low_first.push(d);
        rest = rest / 10;
    }
    let d = digit_of(rest);
    proof {
        assert(reversed(low_first@.push(d)) =~= seq![d] + reversed(low_first@));
        assert(decimal_digits(rest as nat) =~= seq![d]);
    }
    low_first.push(d);
    assert(decimal_digits(start as nat) =~= reversed(low_first@));
    let mut out = String::new();
    if wide < 0 {
        out.push('-');
    }
    let ghost sign = out@;
    let mut i: usize = low_first.len();
    while i > 0
        invariant
            i <= low_first.len(),
            out@ == sign + reversed(low_first@).take(low_first.len() - i),
        decreases i,
    {
        i = i - 1;
        out.push(low_first[i]);
        assert(reversed(low_first@).take(low_first.len() - i) =~= reversed(low_first@).take(
            low_first.len() - i - 1,
        ).push(low_first@[i as int]));
    }
    assert(reversed(low_first@).take(low_first.len() as int) =~= reversed(low_first@));
    assert(out@ =~= decimal(n as int));
    out
}

/// The number of characters that `n` takes in decimal.
pub fn dec_len(n: i32) -> (len: usize)
    ensures
        len == decimal(n as int).len(),
{
    decimal_string(n).as_str().unicode_len()
}

/// The number of terminal columns that a text takes when it is shown.
pub uninterp spec fn display_width(s: Seq<char>) -> nat;

/// `unicode_width::UnicodeWidthStr::width` gives the number of columns that
/// a text takes. The number depends on the characters of the text alone.
#[verifier::external_body]
pub(crate) fn str_width(s: &str) -> (w: usize)
    ensures
        w == display_width(s@),
{
    unicode_width::UnicodeWidthStr::width(s)
}

/// The largest width among the first `n` of `texts`, and 0 where `n` is 0.
pub open spec fn widest(texts: Seq<Seq<char>>, n: nat) -> nat
    decreases n,
{
    if n == 0 {
        0
    } else {
        let before = widest(texts, (n - 1) as nat);
        let width = display_width(texts[n - 1]);
        if width > before {
            width
        } else {
            before
        }
    }
}

/// The larger of `current` and the width of `text`.
pub fn wider(current: usize, text: &str) -> (w: usize)
    ensures
        w == (if display_width(text@) > current {
            display_width(text@)
        } else {
            current as nat
        }),
{
    let width = str_width(text);
    if width > current {
        width
    } else {
        current
    }
}

} // verus!
