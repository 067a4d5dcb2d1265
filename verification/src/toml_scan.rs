use vstd::prelude::*;

use crate::text::{chars_of, copy_range, is_unicode_whitespace, is_whitespace_char, string_from_chars};

verus! {

/// Lexical context of a TOML line scan: outside strings, or inside one of
/// the four string forms.
#[derive(Debug, Clone, Copy, PartialEq, Eq, Structural)]
pub enum TomlScanState {
    Normal,
    BasicString,
    LiteralString,
    MultilineBasicString,
    MultilineLiteralString,
}

/// Tracks, line by line, whether the scan is inside a string and how deeply
/// it is nested in arrays and inline tables.
#[derive(Debug, Clone, Copy, PartialEq, Eq, Structural)]
pub struct TomlLineScanner {
    pub state: TomlScanState,
    pub nesting_depth: usize,
}

pub open spec fn saturating_inc(d: usize) -> usize {
    if d == usize::MAX {
        d
    } else {
        (d + 1) as usize
    }
}

pub open spec fn saturating_dec(d: usize) -> usize {
    if d == 0 {
        0
    } else {
        (d - 1) as usize
    }
}

/// `text[i..i+3]` consists of three `q` characters, inside `text[..end]`.
pub open spec fn triple_at(text: Seq<char>, i: int, end: int, q: char) -> bool {
    &&& i + 3 <= end
    &&& text[i] == q
    &&& text[i + 1] == q
    &&& text[i + 2] == q
}

pub open spec fn with_state(s: TomlLineScanner, state: TomlScanState) -> TomlLineScanner {
    TomlLineScanner { state, nesting_depth: s.nesting_depth }
}

pub open spec fn with_depth(s: TomlLineScanner, d: usize) -> TomlLineScanner {
    TomlLineScanner { state: s.state, nesting_depth: d }
}

/// The scanner after reading `text[i..end]`, starting from `s`.  Outside
/// strings a `#` ends the line (a comment), `[`/`{` nest and `]`/`}` unnest;
/// a backslash inside a basic string skips the next character.
pub open spec fn scan_range(s: TomlLineScanner, text: Seq<char>, i: int, end: int) -> TomlLineScanner
    decreases end - i,
{
    if i < 0 || i >= end || end > text.len() {
        s
    } else {
        let c = text[i];
        match s.state {
            TomlScanState::Normal => {
                if c == '#' {
                    s
                } else if c == '"' && triple_at(text, i, end, '"') {
                    scan_range(with_state(s, TomlScanState::MultilineBasicString), text, i + 3, end)
                } else if c == '"' {
                    scan_range(with_state(s, TomlScanState::BasicString), text, i + 1, end)
                } else if c == '\'' && triple_at(text, i, end, '\'') {
                    scan_range(
                        with_state(s, TomlScanState::MultilineLiteralString),
                        text,
                        i + 3,
                        end,
                    )
                } else if c == '\'' {
                    scan_range(with_state(s, TomlScanState::LiteralString), text, i + 1, end)
                } else if c == '[' || c == '{' {
                    scan_range(with_depth(s, saturating_inc(s.nesting_depth)), text, i + 1, end)
                } else if c == ']' || c == '}' {
                    scan_range(with_depth(s, saturating_dec(s.nesting_depth)), text, i + 1, end)
                } else {
                    scan_range(s, text, i + 1, end)
                }
            },
            TomlScanState::BasicString => {
                if c == '\\' {
                    scan_range(s, text, if i + 2 < end { i + 2 } else { end }, end)
                } else if c == '"' {
                    scan_range(with_state(s, TomlScanState::Normal), text, i + 1, end)
                } else {
                    scan_range(s, text, i + 1, end)
                }
            },
            TomlScanState::LiteralString => {
                if c == '\'' {
                    scan_range(with_state(s, TomlScanState::Normal), text, i + 1, end)
                } else {
                    scan_range(s, text, i + 1, end)
                }
            },
            TomlScanState::MultilineBasicString => {
                if triple_at(text, i, end, '"') {
                    scan_range(with_state(s, TomlScanState::Normal), text, i + 3, end)
                } else if c == '\\' {
                    scan_range(s, text, if i + 2 < end { i + 2 } else { end }, end)
                } else {
                    scan_range(s, text, i + 1, end)
                }
            },
            TomlScanState::MultilineLiteralString => {
                if triple_at(text, i, end, '\'') {
                    scan_range(with_state(s, TomlScanState::Normal), text, i + 3, end)
                } else {
                    scan_range(s, text, i + 1, end)
                }
            },
        }
    }
}

/// A table header may start a line only outside strings and brackets.
pub open spec fn can_start_header_spec(s: TomlLineScanner) -> bool {
    s.state == TomlScanState::Normal && s.nesting_depth == 0
}

fn has_triple(text: &Vec<char>, i: usize, end: usize, q: char) -> (b: bool)
    requires
        end <= text.len(),
        i < end,
    ensures
        b == triple_at(text@, i as int, end as int, q),
{
    end - i >= 3 && text[i] == q && text[i + 1] == q && text[i + 2] == q
}

impl TomlLineScanner {
    /// A scanner at the start of a document.
    pub fn new() -> (s: Self)
        ensures
            s.state == TomlScanState::Normal,
            s.nesting_depth == 0,
    {
        TomlLineScanner { state: TomlScanState::Normal, nesting_depth: 0 }
    }

    /// Whether the next line may be a table header.
    pub fn can_start_table_header(&self) -> (b: bool)
        ensures
            b == can_start_header_spec(*self),
    {
        self.state == TomlScanState::Normal && self.nesting_depth == 0
    }

    /// Scans `text[start..end]` (one line, without its line ending).
    pub fn scan_chars(&mut self, text: &Vec<char>, start: usize, end: usize)
        requires
            start <= end <= text.len(),
        ensures
            *final(self) == scan_range(*old(self), text@, start as int, end as int),
    {
        let mut index = start;
        while index < end
            invariant
                start <= index <= end <= text.len(),
                scan_range(*self, text@, index as int, end as int) == scan_range(
                    *old(self),
                    text@,
                    start as int,
                    end as int,
                ),
            decreases end - index,
        {
            let c = text[index];
            match self.state {
                TomlScanState::Normal => {
                    if c == '#' {
                        index = end;
                    } else if c == '"' && has_triple(text, index, end, '"') {
                        self.state = TomlScanState::MultilineBasicString;
                        index += 3;
                    } else if c == '"' {
                        self.state = TomlScanState::BasicString;
                        index += 1;
                    } else if c == '\'' && has_triple(text, index, end, '\'') {
                        self.state = TomlScanState::MultilineLiteralString;
                        index += 3;
                    } else if c == '\'' {
                        self.state = TomlScanState::LiteralString;
                        index += 1;
                    } else if c == '[' || c == '{' {
                        self.nesting_depth = self.nesting_depth.saturating_add(1);
                        index += 1;
                    } else if c == ']' || c == '}' {
                        self.nesting_depth = self.nesting_depth.saturating_sub(1);
                        index += 1;
                    } else {
                        index += 1;
                    }
                },
                TomlScanState::BasicString => {
                    if c == '\\' {
                        index = if end - index > 2 { index + 2 } else { end };
                    } else if c == '"' {
                        self.state = TomlScanState::Normal;
                        index += 1;
                    } else {
                        index += 1;
                    }
                },
                TomlScanState::LiteralString => {
                    if c == '\'' {
                        self.state = TomlScanState::Normal;
                    }
                    index += 1;
                },
                TomlScanState::MultilineBasicString => {
                    if has_triple(text, index, end, '"') {
                        self.state = TomlScanState::Normal;
                        index += 3;
                    } else if c == '\\' {
                        index = if end - index > 2 { index + 2 } else { end };
                    } else {
                        index += 1;
                    }
                },
                TomlScanState::MultilineLiteralString => {
                    if has_triple(text, index, end, '\'') {
                        self.state = TomlScanState::Normal;
                        index += 3;
                    } else {
                        index += 1;
                    }
                },
            }
        }
    }

    /// Scans one line (without its line ending).
    pub fn scan_line(&mut self, line: &str)
        ensures
            *final(self) == scan_range(*old(self), line@, 0, line@.len() as int),
    {
        let chars = chars_of(line);
        self.scan_chars(&chars, 0, chars.len());
    }
}

/// Scanning from `i` to the end of `a` and scanning from `i` through `a`
/// followed by a comment agree when the scan of `a` ends outside strings.
proof fn lemma_scan_ignores_comment_from(s: TomlLineScanner, a: Seq<char>, c: Seq<char>, i: int)
    requires
        0 <= i <= a.len(),
        scan_range(s, a, i, a.len() as int).state == TomlScanState::Normal,
    ensures
        scan_range(s, a + seq!['#'] + c, i, (a + seq!['#'] + c).len() as int) == scan_range(
            s,
            a,
            i,
            a.len() as int,
        ),
    decreases a.len() - i,
{
    let x = a + seq!['#'] + c;
    let n = a.len() as int;
    let nx = x.len() as int;
    assert(x[n] == '#');
    if i == n {
        assert(scan_range(s, a, n, n) == s);
    } else {
        let ch = a[i];
        assert(x[i] == ch);
        assert(triple_at(x, i, nx, '"') == triple_at(a, i, n, '"')) by {
            if i + 3 <= n {
                assert(x[i + 1] == a[i + 1]);
                assert(x[i + 2] == a[i + 2]);
            } else if i + 1 == n {
                assert(x[i + 1] == '#');
            } else {
                assert(x[i + 2] == '#');
            }
        }
        assert(triple_at(x, i, nx, '\'') == triple_at(a, i, n, '\'')) by {
            if i + 3 <= n {
                assert(x[i + 1] == a[i + 1]);
                assert(x[i + 2] == a[i + 2]);
            } else if i + 1 == n {
                assert(x[i + 1] == '#');
            } else {
                assert(x[i + 2] == '#');
            }
        }
        match s.state {
            TomlScanState::Normal => {
                if ch == '#' {
                } else if ch == '"' && triple_at(a, i, n, '"') {
                    lemma_scan_ignores_comment_from(
                        with_state(s, TomlScanState::MultilineBasicString),
                        a,
                        c,
                        i + 3,
                    );
                } else if ch == '"' {
                    lemma_scan_ignores_comment_from(
                        with_state(s, TomlScanState::BasicString),
                        a,
                        c,
                        i + 1,
                    );
                } else if ch == '\'' && triple_at(a, i, n, '\'') {
                    lemma_scan_ignores_comment_from(
                        with_state(s, TomlScanState::MultilineLiteralString),
                        a,
                        c,
                        i + 3,
                    );
                } else if ch == '\'' {
                    lemma_scan_ignores_comment_from(
                        with_state(s, TomlScanState::LiteralString),
                        a,
                        c,
                        i + 1,
                    );
                } else if ch == '[' || ch == '{' {
                    lemma_scan_ignores_comment_from(
                        with_depth(s, saturating_inc(s.nesting_depth)),
                        a,
                        c,
                        i + 1,
                    );
                } else if ch == ']' || ch == '}' {
                    lemma_scan_ignores_comment_from(
                        with_depth(s, saturating_dec(s.nesting_depth)),
                        a,
                        c,
                        i + 1,
                    );
                } else {
                    lemma_scan_ignores_comment_from(s, a, c, i + 1);
                }
            },
            TomlScanState::BasicString => {
                if ch == '\\' {
                    if i + 2 < n {
                        lemma_scan_ignores_comment_from(s, a, c, i + 2);
                    } else {
                        assert(scan_range(s, a, n, n) == s);
                    }
                } else if ch == '"' {
                    lemma_scan_ignores_comment_from(
                        with_state(s, TomlScanState::Normal),
                        a,
                        c,
                        i + 1,
                    );
                } else {
                    lemma_scan_ignores_comment_from(s, a, c, i + 1);
                }
            },
            TomlScanState::LiteralString => {
                if ch == '\'' {
                    lemma_scan_ignores_comment_from(
                        with_state(s, TomlScanState::Normal),
                        a,
                        c,
                        i + 1,
                    );
                } else {
                    lemma_scan_ignores_comment_from(s, a, c, i + 1);
                }
            },
            TomlScanState::MultilineBasicString => {
                if triple_at(a, i, n, '"') {
                    lemma_scan_ignores_comment_from(
                        with_state(s, TomlScanState::Normal),
                        a,
                        c,
                        i + 3,
                    );
                } else if ch == '\\' {
                    if i + 2 < n {
                        lemma_scan_ignores_comment_from(s, a, c, i + 2);
                    } else {
                        assert(scan_range(s, a, n, n) == s);
                    }
                } else {
                    lemma_scan_ignores_comment_from(s, a, c, i + 1);
                }
            },
            TomlScanState::MultilineLiteralString => {
                if triple_at(a, i, n, '\'') {
                    lemma_scan_ignores_comment_from(
                        with_state(s, TomlScanState::Normal),
                        a,
                        c,
                        i + 3,
                    );
                } else {
                    lemma_scan_ignores_comment_from(s, a, c, i + 1);
                }
            },
        }
    }
}

/// Outside strings a `#` starts a comment that ends
/// the line: a line whose scan ends outside strings leaves the scanner
/// exactly as it leaves it once a comment of any text is appended; in
/// particular a comment line read outside strings changes nothing.
pub proof fn lemma_scan_ignores_trailing_comment(
    s: TomlLineScanner,
    line: Seq<char>,
    comment: Seq<char>,
)
    ensures
        scan_range(s, line, 0, line.len() as int).state == TomlScanState::Normal ==> scan_range(
            s,
            line + seq!['#'] + comment,
            0,
            (line + seq!['#'] + comment).len() as int,
        ) == scan_range(s, line, 0, line.len() as int),
        s.state == TomlScanState::Normal ==> scan_range(
            s,
            seq!['#'] + comment,
            0,
            comment.len() + 1int,
        ) == s,
{
    if scan_range(s, line, 0, line.len() as int).state == TomlScanState::Normal {
        lemma_scan_ignores_comment_from(s, line, comment, 0);
    }
    if s.state == TomlScanState::Normal {
        let e = Seq::<char>::empty();
        assert(scan_range(s, e, 0, 0) == s);
        lemma_scan_ignores_comment_from(s, e, comment, 0);
        assert(e + seq!['#'] + comment =~= seq!['#'] + comment);
    }
}

/// The end of the line that starts at `o` within `text[..end]`: just past
/// the next `\n`, or `end`.
pub open spec fn line_end(text: Seq<char>, o: int, end: int) -> int
    decreases end - o,
{
    if o >= end {
        end
    } else if text[o] == '\n' {
        o + 1
    } else {
        line_end(text, o + 1, end)
    }
}

pub proof fn lemma_line_end_bounds(text: Seq<char>, o: int, end: int)
    requires
        0 <= o < end,
    ensures
        o < line_end(text, o, end) <= end,
    decreases end - o,
{
    if text[o] != '\n' {
        if o + 1 < end {
            lemma_line_end_bounds(text, o + 1, end);
        } else {
            assert(line_end(text, o + 1, end) == end);
        }
    }
}

/// The end of a line once one trailing `\n` and then one trailing `\r`
/// are removed.
pub open spec fn without_line_ending(text: Seq<char>, start: int, end: int) -> int {
    let e1 = if end > start && text[end - 1] == '\n' {
        end - 1
    } else {
        end
    };
    if e1 > start && text[e1 - 1] == '\r' {
        e1 - 1
    } else {
        e1
    }
}

/// Finds the end of the line that starts at `o`.
pub fn find_line_end(text: &Vec<char>, o: usize, end: usize) -> (e: usize)
    requires
        o < end <= text.len(),
    ensures
        e == line_end(text@, o as int, end as int),
        o < e <= end,
{
    let mut i = o;
    while i < end && text[i] != '\n'
        invariant
            o <= i <= end <= text.len(),
            line_end(text@, i as int, end as int) == line_end(text@, o as int, end as int),
        decreases end - i,
    {
        i += 1;
    }
    proof {
        lemma_line_end_bounds(text@, o as int, end as int);
    }
    if i < end {
        i + 1
    } else {
        end
    }
}

/// Removes one `\n` and then one `\r` from the end of `text[start..end]`.
pub fn trim_line_ending_range(text: &Vec<char>, start: usize, end: usize) -> (e: usize)
    requires
        start <= end <= text.len(),
    ensures
        e == without_line_ending(text@, start as int, end as int),
        start <= e <= end,
{
    let e1 = if end > start && text[end - 1] == '\n' {
        end - 1
    } else {
        end
    };
    if e1 > start && text[e1 - 1] == '\r' {
        e1 - 1
    } else {
        e1
    }
}

/// A line without its trailing `\n` and then its trailing `\r`.
pub fn trim_toml_line_ending(line: &str) -> (r: String)
    ensures
        r@ == line@.subrange(0, without_line_ending(line@, 0, line@.len() as int)),
{
    let chars = chars_of(line);
    let e = trim_line_ending_range(&chars, 0, chars.len());
    let kept = copy_range(&chars, 0, e);
    string_from_chars(&kept)
}

/// First index at or after `i` (and before `end`) that is not whitespace.
pub open spec fn skip_ws(text: Seq<char>, i: int, end: int) -> int
    decreases end - i,
{
    if i >= end {
        end
    } else if is_unicode_whitespace(text[i]) {
        skip_ws(text, i + 1, end)
    } else {
        i
    }
}

/// End of `text[start..end]` once trailing whitespace is removed.
pub open spec fn trim_ws_end(text: Seq<char>, start: int, end: int) -> int
    decreases end - start,
{
    if end <= start {
        start
    } else if is_unicode_whitespace(text[end - 1]) {
        trim_ws_end(text, start, end - 1)
    } else {
        end
    }
}

/// `closing` (one or two `]`) occurs at `k`.
pub open spec fn closing_at(text: Seq<char>, k: int, end: int, is_array: bool) -> bool {
    if is_array {
        k + 2 <= end && text[k] == ']' && text[k + 1] == ']'
    } else {
        k + 1 <= end && text[k] == ']'
    }
}

/// First position at or after `k` where the closing bracket(s) occur.
pub open spec fn find_closing(text: Seq<char>, k: int, end: int, is_array: bool) -> Option<int>
    decreases end - k,
{
    if k >= end {
        None
    } else if closing_at(text, k, end, is_array) {
        Some(k)
    } else {
        find_closing(text, k + 1, end, is_array)
    }
}

/// A table header found on a line: the path is `text[path_start..path_end]`.
#[derive(Debug, Clone, Copy, PartialEq, Eq, Structural)]
pub struct HeaderSpan {
    pub path_start: usize,
    pub path_end: usize,
    pub is_array: bool,
}

/// The table header (`[path]` or `[[path]]`, optionally followed by a
/// comment) that `text[start..end]` holds, if any.
pub open spec fn header_at(text: Seq<char>, start: int, end: int) -> Option<(int, int, bool)> {
    let t = skip_ws(text, start, end);
    if t >= end || text[t] != '[' {
        None
    } else {
        let is_array = t + 1 < end && text[t + 1] == '[';
        let r = if is_array {
            t + 2
        } else {
            t + 1
        };
        match find_closing(text, r, end, is_array) {
            None => None,
            Some(k) => {
                let ps = skip_ws(text, r, k);
                let pe = trim_ws_end(text, ps, k);
                let after = skip_ws(
                    text,
                    if is_array {
                        k + 2
                    } else {
                        k + 1
                    },
                    end,
                );
                if ps >= pe {
                    None
                } else if after < end && text[after] != '#' {
                    None
                } else {
                    Some((ps, pe, is_array))
                }
            },
        }
    }
}

/// Skipping whitespace in `x` from `i` goes as in `a` while the two agree,
/// and on into `x` past the end `n` of `a` when `a` is all whitespace there.
proof fn lemma_skip_ws_agree(a: Seq<char>, x: Seq<char>, i: int, n: int, nx: int)
    requires
        0 <= i <= n <= nx,
        n <= a.len(),
        nx <= x.len(),
        forall|j: int| i <= j < n ==> #[trigger] x[j] == a[j],
    ensures
        skip_ws(x, i, nx) == (if skip_ws(a, i, n) < n {
            skip_ws(a, i, n)
        } else {
            skip_ws(x, n, nx)
        }),
    decreases n - i,
{
    if i < n {
        assert(x[i] == a[i]);
        if is_unicode_whitespace(a[i]) {
            lemma_skip_ws_agree(a, x, i + 1, n, nx);
        }
    }
}

proof fn lemma_trim_ws_end_agree(a: Seq<char>, x: Seq<char>, start: int, end: int)
    requires
        0 <= start,
        end <= a.len(),
        end <= x.len(),
        forall|j: int| start <= j < end ==> #[trigger] x[j] == a[j],
    ensures
        trim_ws_end(x, start, end) == trim_ws_end(a, start, end),
    decreases end - start,
{
    if end > start {
        assert(x[end - 1] == a[end - 1]);
        lemma_trim_ws_end_agree(a, x, start, end - 1);
    }
}

proof fn lemma_find_closing_agree(a: Seq<char>, x: Seq<char>, j: int, n: int, nx: int, is_array: bool)
    requires
        0 <= j,
        n <= nx,
        n <= a.len(),
        nx <= x.len(),
        forall|m: int| j <= m < n ==> #[trigger] x[m] == a[m],
        find_closing(a, j, n, is_array) is Some,
    ensures
        find_closing(x, j, nx, is_array) == find_closing(a, j, n, is_array),
    decreases n - j,
{
    lemma_find_closing_bounds(a, j, n, is_array);
    let k = find_closing(a, j, n, is_array)->0;
    assert(x[j] == a[j]);
    if is_array && j + 1 < n {
        assert(x[j + 1] == a[j + 1]);
    }
    if closing_at(a, j, n, is_array) {
        assert(closing_at(x, j, nx, is_array));
    } else {
        if is_array {
            assert(j + 1 < n);
        }
        assert(!closing_at(x, j, nx, is_array));
        lemma_find_closing_agree(a, x, j + 1, n, nx, is_array);
    }
}

/// A table header followed by a comment is still that header: appending a
/// comment of any text to a line that holds a header leaves the header,
/// its path and its kind as they were.
pub proof fn lemma_header_ignores_trailing_comment(line: Seq<char>, comment: Seq<char>)
    requires
        header_at(line, 0, line.len() as int) is Some,
    ensures
        header_at(line + seq!['#'] + comment, 0, (line + seq!['#'] + comment).len() as int)
            == header_at(line, 0, line.len() as int),
{
    let x = line + seq!['#'] + comment;
    let n = line.len() as int;
    let nx = x.len() as int;
    assert forall|j: int| 0 <= j < n implies #[trigger] x[j] == line[j] by {}
    assert(x[n] == '#');
    assert(!is_unicode_whitespace('#'));
    assert(skip_ws(x, n, nx) == n);
    lemma_skip_ws_agree(line, x, 0, n, nx);
    lemma_skip_ws_bounds(line, 0, n);
    let t = skip_ws(line, 0, n);
    assert(t < n && line[t] == '[');
    let is_array = t + 1 < n && line[t + 1] == '[';
    if t + 1 == n {
        assert(x[t + 1] == '#');
    } else {
        assert(x[t + 1] == line[t + 1]);
    }
    assert(is_array == (t + 1 < nx && x[t + 1] == '['));
    let r = if is_array {
        t + 2
    } else {
        t + 1
    };
    lemma_find_closing_agree(line, x, r, n, nx, is_array);
    lemma_find_closing_bounds(line, r, n, is_array);
    let k = find_closing(line, r, n, is_array)->0;
    lemma_skip_ws_agree(line, x, r, k, k);
    lemma_skip_ws_bounds(line, r, k);
    let ps = skip_ws(line, r, k);
    lemma_trim_ws_end_agree(line, x, ps, k);
    let a0 = if is_array {
        k + 2
    } else {
        k + 1
    };
    lemma_skip_ws_agree(line, x, a0, n, nx);
    lemma_skip_ws_bounds(line, a0, n);
    let after = skip_ws(line, a0, n);
    if after < n {
        assert(x[after] == line[after]);
    }
}

/// Text other than a comment after a header spoils it: a line that holds a
/// header and no `#` holds no header once a character other than
/// whitespace and `#` follows it, whatever comes after.
pub proof fn lemma_header_refuses_trailing_text(line: Seq<char>, ch: char, rest: Seq<char>)
    requires
        header_at(line, 0, line.len() as int) is Some,
        !line.contains('#'),
        ch != '#',
        !is_unicode_whitespace(ch),
    ensures
        header_at(line + seq![ch] + rest, 0, (line + seq![ch] + rest).len() as int) is None,
{
    let x = line + seq![ch] + rest;
    let n = line.len() as int;
    let nx = x.len() as int;
    assert forall|j: int| 0 <= j < n implies #[trigger] x[j] == line[j] by {}
    assert(x[n] == ch);
    assert(skip_ws(x, n, nx) == n);
    lemma_skip_ws_agree(line, x, 0, n, nx);
    lemma_skip_ws_bounds(line, 0, n);
    let t = skip_ws(line, 0, n);
    let is_array = t + 1 < n && line[t + 1] == '[';
    if t + 1 == n {
        assert(x[t + 1] == ch);
    } else {
        assert(x[t + 1] == line[t + 1]);
    }
    let r = if is_array {
        t + 2
    } else {
        t + 1
    };
    lemma_find_closing_agree(line, x, r, n, nx, is_array);
    lemma_find_closing_bounds(line, r, n, is_array);
    let k = find_closing(line, r, n, is_array)->0;
    lemma_skip_ws_agree(line, x, r, k, k);
    lemma_skip_ws_bounds(line, r, k);
    let ps = skip_ws(line, r, k);
    lemma_trim_ws_end_agree(line, x, ps, k);
    let a0 = if is_array {
        k + 2
    } else {
        k + 1
    };
    lemma_skip_ws_agree(line, x, a0, n, nx);
    lemma_skip_ws_bounds(line, a0, n);
    let after = skip_ws(line, a0, n);
    if after < n {
        assert(line.contains(line[after]));
    }
}

fn skip_ws_exec(text: &Vec<char>, i: usize, end: usize) -> (r: usize)
    requires
        i <= end <= text.len(),
    ensures
        r == skip_ws(text@, i as int, end as int),
        i <= r <= end,
{
    let mut j = i;
    while j < end && is_whitespace_char(text[j])
        invariant
            i <= j <= end <= text.len(),
            skip_ws(text@, j as int, end as int) == skip_ws(text@, i as int, end as int),
        decreases end - j,
    {
        j += 1;
    }
    j
}

fn trim_ws_end_exec(text: &Vec<char>, start: usize, end: usize) -> (r: usize)
    requires
        start <= end <= text.len(),
    ensures
        r == trim_ws_end(text@, start as int, end as int),
        start <= r <= end,
{
    let mut e = end;
    while e > start && is_whitespace_char(text[e - 1])
        invariant
            start <= e <= end <= text.len(),
            trim_ws_end(text@, start as int, e as int) == trim_ws_end(
                text@,
                start as int,
                end as int,
            ),
        decreases e - start,
    {
        e -= 1;
    }
    e
}

pub proof fn lemma_find_closing_bounds(text: Seq<char>, k: int, end: int, is_array: bool)
    ensures
        find_closing(text, k, end, is_array) matches Some(x) ==> k <= x < end && closing_at(
            text,
            x,
            end,
            is_array,
        ),
    decreases end - k,
{
    if k < end && !closing_at(text, k, end, is_array) {
        lemma_find_closing_bounds(text, k + 1, end, is_array);
    }
}

pub proof fn lemma_skip_ws_bounds(text: Seq<char>, i: int, end: int)
    requires
        i <= end,
    ensures
        i <= skip_ws(text, i, end) <= end,
    decreases end - i,
{
    if i < end && is_unicode_whitespace(text[i]) {
        lemma_skip_ws_bounds(text, i + 1, end);
    }
}

pub proof fn lemma_trim_ws_end_bounds(text: Seq<char>, start: int, end: int)
    requires
        start <= end,
    ensures
        start <= trim_ws_end(text, start, end) <= end,
    decreases end - start,
{
    if end > start && is_unicode_whitespace(text[end - 1]) {
        lemma_trim_ws_end_bounds(text, start, end - 1);
    }
}

pub proof fn lemma_header_at_bounds(text: Seq<char>, start: int, end: int)
    requires
        0 <= start <= end,
    ensures
        header_at(text, start, end) matches Some((ps, pe, a)) ==> start <= ps < pe <= end,
{
    lemma_skip_ws_bounds(text, start, end);
    let t = skip_ws(text, start, end);
    if t < end && text[t] == '[' {
        let is_array = t + 1 < end && text[t + 1] == '[';
        let r = if is_array {
            t + 2
        } else {
            t + 1
        };
        lemma_find_closing_bounds(text, r, end, is_array);
        if let Some(k) = find_closing(text, r, end, is_array) {
            lemma_skip_ws_bounds(text, r, k);
            lemma_trim_ws_end_bounds(text, skip_ws(text, r, k), k);
        }
    }
}

fn find_closing_exec(text: &Vec<char>, k: usize, end: usize, is_array: bool) -> (r: Option<usize>)
    requires
        k <= end <= text.len(),
    ensures
        r matches Some(x) ==> find_closing(text@, k as int, end as int, is_array) == Some(x as int),
        r is None ==> find_closing(text@, k as int, end as int, is_array) is None,
        r matches Some(x) ==> k <= x < end && closing_at(text@, x as int, end as int, is_array),
{
    proof {
        lemma_find_closing_bounds(text@, k as int, end as int, is_array);
    }
    let mut j = k;
    while j < end
        invariant
            k <= j <= end <= text.len(),
            find_closing(text@, j as int, end as int, is_array) == find_closing(
                text@,
                k as int,
                end as int,
                is_array,
            ),
        decreases end - j,
    {
        let found = if is_array {
            end - j >= 2 && text[j] == ']' && text[j + 1] == ']'
        } else {
            text[j] == ']'
        };
        if found {
            return Some(j);
        }
        j += 1;
    }
    None
}

/// Finds the table header held by `text[start..end]`.
pub fn header_span(text: &Vec<char>, start: usize, end: usize) -> (r: Option<HeaderSpan>)
    requires
        start <= end <= text.len(),
    ensures
        r == (match header_at(text@, start as int, end as int) {
            Some((ps, pe, a)) => Some(
                HeaderSpan { path_start: ps as usize, path_end: pe as usize, is_array: a },
            ),
            None => None,
        }),
        r matches Some(h) ==> start <= h.path_start < h.path_end <= end,
{
    proof {
        lemma_header_at_bounds(text@, start as int, end as int);
    }
    let t = skip_ws_exec(text, start, end);
    if t >= end || text[t] != '[' {
        return None;
    }
    let is_array = t + 1 < end && text[t + 1] == '[';
    let r = if is_array {
        t + 2
    } else {
        t + 1
    };
    let k = match find_closing_exec(text, r, end, is_array) {
        None => {
            return None;
        },
        Some(k) => k,
    };
    let ps = skip_ws_exec(text, r, k);
    let pe = trim_ws_end_exec(text, ps, k);
    let after_start = if is_array {
        k + 2
    } else {
        k + 1
    };
    let after = skip_ws_exec(text, after_start, end);
    assert(find_closing(text@, r as int, end as int, is_array) == Some(k as int));
    assert(header_at(text@, start as int, end as int) == (if ps >= pe {
        None::<(int, int, bool)>
    } else if after < end && text@[after as int] != '#' {
        None
    } else {
        Some((ps as int, pe as int, is_array))
    }));
    if ps >= pe {
        None
    } else if after < end && text[after] != '#' {
        None
    } else {
        Some(HeaderSpan { path_start: ps, path_end: pe, is_array })
    }
}

/// A table header read from a line.
#[derive(Debug, Clone, PartialEq, Eq)]
pub struct TomlTableHeader {
    pub path: String,
    pub is_array: bool,
}

/// Reads the table header that a line holds, if any.
pub fn toml_table_header(line: &str) -> (r: Option<TomlTableHeader>)
    ensures
        r matches Some(h) ==> header_at(line@, 0, line@.len() as int) matches Some((ps, pe, a)) && h.path@
            == line@.subrange(ps, pe) && h.is_array == a,
        r is None <==> header_at(line@, 0, line@.len() as int) is None,
{
    let chars = chars_of(line);
    proof {
        lemma_header_at_bounds(line@, 0, line@.len() as int);
    }
    match header_span(&chars, 0, chars.len()) {
        None => None,
        Some(h) => {
            let path = copy_range(&chars, h.path_start, h.path_end);
            Some(TomlTableHeader { path: string_from_chars(&path), is_array: h.is_array })
        },
    }
}

} // verus!
