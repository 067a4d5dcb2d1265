use vstd::prelude::*;

use crate::text::{chars_of, range_equals};

verus! {

/// Characters allowed in a bare TOML key: ASCII letters and digits, `_`, `-`.
pub open spec fn is_bare_key_char_spec(c: char) -> bool {
    ||| ('a' <= c && c <= 'z')
    ||| ('A' <= c && c <= 'Z')
    ||| ('0' <= c && c <= '9')
    ||| c == '_'
    ||| c == '-'
}

/// Control characters that a TOML string key may not hold literally.
pub open spec fn is_forbidden_string_char_spec(c: char) -> bool {
    let u = c as u32;
    u <= 8 || (0x0a <= u && u <= 0x1f) || u == 0x7f
}

pub fn is_toml_bare_key_char(ch: char) -> (b: bool)
    ensures
        b == is_bare_key_char_spec(ch),
{
    ('a' <= ch && ch <= 'z') || ('A' <= ch && ch <= 'Z') || ('0' <= ch && ch <= '9') || ch == '_'
        || ch == '-'
}

pub fn is_toml_forbidden_string_char(ch: char) -> (b: bool)
    ensures
        b == is_forbidden_string_char_spec(ch),
{
    let u = ch as u32;
    u <= 8 || (0x0a <= u && u <= 0x1f) || u == 0x7f
}

/// The value of a hexadecimal digit.
pub open spec fn hex_digit_value(c: char) -> Option<u32> {
    if '0' <= c && c <= '9' {
        Some((c as u32 - '0' as u32) as u32)
    } else if 'a' <= c && c <= 'f' {
        Some((c as u32 - 'a' as u32 + 10) as u32)
    } else if 'A' <= c && c <= 'F' {
        Some((c as u32 - 'A' as u32 + 10) as u32)
    } else {
        None
    }
}

pub fn hex_digit(c: char) -> (r: Option<u32>)
    ensures
        r == hex_digit_value(c),
        r matches Some(d) ==> d < 16,
{
    if '0' <= c && c <= '9' {
        Some(c as u32 - '0' as u32)
    } else if 'a' <= c && c <= 'f' {
        Some(c as u32 - 'a' as u32 + 10)
    } else if 'A' <= c && c <= 'F' {
        Some(c as u32 - 'A' as u32 + 10)
    } else {
        None
    }
}

/// The number written by the `n` hexadecimal digits at `p[i..]`, appended
/// to the digits already read (`acc`).
pub open spec fn hex_from(p: Seq<char>, i: int, n: nat, acc: int) -> Option<int>
    decreases n,
{
    if n == 0 {
        Some(acc)
    } else if i < 0 || i >= p.len() {
        None
    } else {
        match hex_digit_value(p[i]) {
            None => None,
            Some(d) => hex_from(p, i + 1, (n - 1) as nat, acc * 16 + d),
        }
    }
}

/// A Unicode scalar value: a code point that is not a surrogate.
pub open spec fn is_scalar_value(v: int) -> bool {
    0 <= v <= 0x10FFFF && !(0xD800 <= v <= 0xDFFF)
}

/// `char::from_u32`: the character with the given code, when it is a scalar value.
#[verifier::external_body]
fn char_from_u32(value: u32) -> (r: Option<char>)
    ensures
        r == (if is_scalar_value(value as int) {
            Some(value as char)
        } else {
            None
        }),
{
    char::from_u32(value)
}

/// The character an escape sequence after a backslash at `p[i]` stands
/// for, and how many characters (after the backslash) it takes.
pub open spec fn escape_at(p: Seq<char>, i: int) -> Option<(char, int)> {
    if i < 0 || i >= p.len() {
        None
    } else {
        let c = p[i];
        if c == 'b' {
            Some(('\u{8}', 1))
        } else if c == 't' {
            Some(('\t', 1))
        } else if c == 'n' {
            Some(('\n', 1))
        } else if c == 'f' {
            Some(('\u{c}', 1))
        } else if c == 'r' {
            Some(('\r', 1))
        } else if c == '"' {
            Some(('"', 1))
        } else if c == '\\' {
            Some(('\\', 1))
        } else if c == 'u' || c == 'U' {
            let n: nat = if c == 'u' {
                4
            } else {
                8
            };
            match hex_from(p, i + 1, n, 0) {
                Some(v) => if is_scalar_value(v) {
                    Some((v as char, n + 1 as int))
                } else {
                    None
                },
                None => None,
            }
        } else {
            None
        }
    }
}

/// The decoded contents of a basic (double-quoted) string whose body
/// starts at `p[i]`, appended to `acc`, and the index just past the
/// closing quote.
pub open spec fn basic_body(p: Seq<char>, i: int, acc: Seq<char>) -> Option<(Seq<char>, int)>
    decreases p.len() - i,
{
    if i < 0 || i >= p.len() {
        None
    } else if p[i] == '"' {
        Some((acc, i + 1))
    } else if p[i] == '\\' {
        match escape_at(p, i + 1) {
            None => None,
            Some((c, w)) => if w >= 1 && i + 1 + w <= p.len() {
                basic_body(p, i + 1 + w, acc.push(c))
            } else {
                None
            },
        }
    } else if is_forbidden_string_char_spec(p[i]) {
        None
    } else {
        basic_body(p, i + 1, acc.push(p[i]))
    }
}

/// Index of the quote closing a literal (single-quoted) string whose body
/// starts at `p[i]`.
pub open spec fn literal_end(p: Seq<char>, i: int) -> Option<int>
    decreases p.len() - i,
{
    if i < 0 || i >= p.len() {
        None
    } else if p[i] == '\'' {
        Some(i)
    } else if is_forbidden_string_char_spec(p[i]) {
        None
    } else {
        literal_end(p, i + 1)
    }
}

/// End of the run of bare-key characters starting at `p[i]`.
pub open spec fn bare_end(p: Seq<char>, i: int) -> int
    decreases p.len() - i,
{
    if 0 <= i < p.len() && is_bare_key_char_spec(p[i]) {
        bare_end(p, i + 1)
    } else {
        i
    }
}

/// The key written at `p[i]` (bare, basic-quoted or literal-quoted), decoded,
/// and the index just past it.
pub open spec fn key_at(p: Seq<char>, i: int) -> Option<(Seq<char>, int)> {
    if i < 0 || i >= p.len() {
        None
    } else if p[i] == '"' {
        basic_body(p, i + 1, Seq::empty())
    } else if p[i] == '\'' {
        match literal_end(p, i + 1) {
            None => None,
            Some(k) => Some((p.subrange(i + 1, k), k + 1)),
        }
    } else if is_bare_key_char_spec(p[i]) {
        Some((p.subrange(i, bare_end(p, i)), bare_end(p, i)))
    } else {
        None
    }
}

/// First index at or after `i` that is not a space or a tab.
pub open spec fn skip_spaces(p: Seq<char>, i: int) -> int
    decreases p.len() - i,
{
    if 0 <= i < p.len() && (p[i] == ' ' || p[i] == '\t') {
        skip_spaces(p, i + 1)
    } else {
        i
    }
}

pub proof fn lemma_skip_spaces_bounds(p: Seq<char>, i: int)
    requires
        0 <= i,
    ensures
        i <= skip_spaces(p, i),
        i <= p.len() ==> skip_spaces(p, i) <= p.len(),
    decreases p.len() - i,
{
    if 0 <= i < p.len() && (p[i] == ' ' || p[i] == '\t') {
        lemma_skip_spaces_bounds(p, i + 1);
    }
}

pub proof fn lemma_bare_end_bounds(p: Seq<char>, i: int)
    requires
        0 <= i <= p.len(),
    ensures
        i <= bare_end(p, i) <= p.len(),
    decreases p.len() - i,
{
    if 0 <= i < p.len() && is_bare_key_char_spec(p[i]) {
        lemma_bare_end_bounds(p, i + 1);
    }
}

pub proof fn lemma_basic_body_bounds(p: Seq<char>, i: int, acc: Seq<char>)
    requires
        0 <= i,
    ensures
        basic_body(p, i, acc) matches Some((k, j)) ==> i < j <= p.len(),
    decreases p.len() - i,
{
    if 0 <= i < p.len() && p[i] != '"' {
        if p[i] == '\\' {
            if let Some((c, w)) = escape_at(p, i + 1) {
                if w >= 1 && i + 1 + w <= p.len() {
                    lemma_basic_body_bounds(p, i + 1 + w, acc.push(c));
                }
            }
        } else if !is_forbidden_string_char_spec(p[i]) {
            lemma_basic_body_bounds(p, i + 1, acc.push(p[i]));
        }
    }
}

pub proof fn lemma_literal_end_bounds(p: Seq<char>, i: int)
    requires
        0 <= i,
    ensures
        literal_end(p, i) matches Some(k) ==> i <= k < p.len(),
    decreases p.len() - i,
{
    if 0 <= i < p.len() && p[i] != '\'' && !is_forbidden_string_char_spec(p[i]) {
        lemma_literal_end_bounds(p, i + 1);
    }
}

pub proof fn lemma_key_at_bounds(p: Seq<char>, i: int)
    requires
        0 <= i,
    ensures
        key_at(p, i) matches Some((k, j)) ==> i < j <= p.len(),
{
    if 0 <= i < p.len() {
        if p[i] == '"' {
            lemma_basic_body_bounds(p, i + 1, Seq::empty());
        } else if p[i] == '\'' {
            lemma_literal_end_bounds(p, i + 1);
        } else if is_bare_key_char_spec(p[i]) {
            lemma_bare_end_bounds(p, i);
            assert(bare_end(p, i) == bare_end(p, i + 1));
            lemma_bare_end_bounds(p, i + 1);
        }
    }
}

/// The keys of the remaining dotted parts (`.key`) of a path from `p[i]`
/// on, appended to `acc`; `None` when what follows is not a dotted key.
pub open spec fn rest_keys(p: Seq<char>, i: int, acc: Seq<Seq<char>>) -> Option<Seq<Seq<char>>>
    decreases p.len() - i,
{
    if i < 0 || i >= p.len() {
        Some(acc)
    } else if p[i] != '.' {
        None
    } else {
        let i2 = skip_spaces(p, i + 1);
        match key_at(p, i2) {
            None => None,
            Some((k, j)) => {
                if i < j <= p.len() {
                    proof {
                        lemma_skip_spaces_bounds(p, j);
                    }
                    rest_keys(p, skip_spaces(p, j), acc.push(k))
                } else {
                    None
                }
            },
        }
    }
}

/// The decoded keys of a dotted TOML key path (spaces and tabs allowed
/// around each key), or `None` when `p` is not such a path.
pub open spec fn path_keys(p: Seq<char>) -> Option<Seq<Seq<char>>> {
    match key_at(p, skip_spaces(p, 0)) {
        None => None,
        Some((k, j)) => rest_keys(p, skip_spaces(p, j), seq![k]),
    }
}

pub open spec fn options_key() -> Seq<char> {
    seq!['o', 'p', 't', 'i', 'o', 'n', 's']
}

/// Whether a path names the `options` table itself (`Some(true)`), a table
/// below it (`Some(false)`), or neither (`None`).
pub open spec fn options_path_kind(p: Seq<char>) -> Option<bool> {
    match path_keys(p) {
        None => None,
        Some(keys) => if keys[0] == options_key() {
            Some(keys.len() == 1)
        } else {
            None
        },
    }
}

/// Compares, character by character, a decoded key against an expected key.
pub struct TomlKeyMatcher {
    pub expected: Vec<char>,
    pub position: usize,
    pub matched: bool,
    /// The decoded characters fed so far.
    pub fed: Ghost<Seq<char>>,
}

impl TomlKeyMatcher {
    /// The matcher has been fed exactly `fed`.
    pub open spec fn consistent_with(&self, fed: Seq<char>) -> bool {
        &&& self.position <= self.expected@.len()
        &&& if fed.len() <= self.expected@.len() && self.expected@.take(fed.len() as int) == fed {
            self.matched && self.position == fed.len()
        } else {
            !self.matched
        }
    }

    pub open spec fn wf(&self) -> bool {
        self.consistent_with(self.fed@)
    }

    pub fn new(expected: Vec<char>) -> (m: Self)
        ensures
            m.expected@ == expected@,
            m.fed@ == Seq::<char>::empty(),
            m.wf(),
    {
        let m = TomlKeyMatcher { expected, position: 0, matched: true, fed: Ghost(Seq::empty()) };
        assert(m.expected@.take(0) =~= Seq::<char>::empty());
        m
    }

    /// Feeds the next decoded character.
    pub fn accept(&mut self, ch: char)
        requires
            old(self).wf(),
        ensures
            final(self).wf(),
            final(self).fed@ == old(self).fed@.push(ch),
            final(self).expected@ == old(self).expected@,
    {
        let ghost fed = self.fed@;
        self.fed = Ghost(fed.push(ch));
        if !self.matched {
            assert(!(fed.push(ch).len() <= self.expected@.len() && self.expected@.take(
                fed.push(ch).len() as int,
            ) == fed.push(ch))) by {
                if fed.push(ch).len() <= self.expected@.len() && self.expected@.take(
                    fed.push(ch).len() as int,
                ) == fed.push(ch) {
                    assert(self.expected@.take(fed.len() as int) =~= fed);
                }
            }
            return;
        }
        if self.position >= self.expected.len() {
            self.matched = false;
            return;
        }
        if self.expected[self.position] == ch {
            self.position = self.position + 1;
            assert(self.expected@.take(fed.push(ch).len() as int) =~= fed.push(ch));
        } else {
            self.matched = false;
            assert(self.expected@.take(fed.push(ch).len() as int)[fed.len() as int] != ch);
        }
    }

    /// Whether the characters fed so far equal the expected key.
    pub fn is_match(&self) -> (b: bool)
        requires
            self.wf(),
        ensures
            b == (self.fed@ == self.expected@),
    {
        let ghost fed = self.fed@;
        let r = self.matched && self.position == self.expected.len();
        if r {
            assert(self.expected@.take(fed.len() as int) =~= self.expected@);
        }
        proof {
            if fed == self.expected@ {
                assert(self.expected@.take(fed.len() as int) =~= fed);
            }
        }
        r
    }
}

/// A cursor over a TOML key path.
#[derive(Debug, Clone)]
pub struct TomlPathParser {
    pub path: Vec<char>,
    pub index: usize,
}

impl TomlPathParser {
    pub fn new(path: &str) -> (p: Self)
        ensures
            p.path@ == path@,
            p.index == 0,
    {
        TomlPathParser { path: chars_of(path), index: 0 }
    }

    pub fn is_finished(&self) -> (b: bool)
        ensures
            b == (self.index >= self.path@.len()),
    {
        self.index >= self.path.len()
    }

    pub fn peek_char(&self) -> (r: Option<char>)
        ensures
            r == (if self.index < self.path@.len() {
                Some(self.path@[self.index as int])
            } else {
                None
            }),
    {
        if self.index < self.path.len() {
            Some(self.path[self.index])
        } else {
            None
        }
    }

    pub fn next_char(&mut self) -> (r: Option<char>)
        ensures
            final(self).path == old(self).path,
            old(self).index < old(self).path@.len() ==> r == Some(old(self).path@[old(
                self,
            ).index as int]) && final(self).index == old(self).index + 1,
            old(self).index >= old(self).path@.len() ==> r is None && final(self).index == old(
                self,
            ).index,
    {
        if self.index < self.path.len() {
            let ch = self.path[self.index];
            self.index = self.index + 1;
            Some(ch)
        } else {
            None
        }
    }

    pub fn skip_whitespace(&mut self)
        ensures
            final(self).path == old(self).path,
            final(self).index == skip_spaces(old(self).path@, old(self).index as int),
    {
        while self.index < self.path.len() && (self.path[self.index] == ' ' || self.path[self.index]
            == '\t')
            invariant
                self.path == old(self).path,
                skip_spaces(self.path@, self.index as int) == skip_spaces(
                    old(self).path@,
                    old(self).index as int,
                ),
            decreases self.path@.len() - self.index,
        {
            self.index = self.index + 1;
        }
    }

    pub fn consume_dot(&mut self) -> (b: bool)
        ensures
            final(self).path == old(self).path,
            b == (old(self).index < old(self).path@.len() && old(self).path@[old(self).index as int]
                == '.'),
            final(self).index == if b {
                old(self).index + 1
            } else {
                old(self).index as int
            },
    {
        if self.index < self.path.len() && self.path[self.index] == '.' {
            self.index = self.index + 1;
            true
        } else {
            false
        }
    }

    /// Parses one key and reports only whether it parsed.
    pub fn parse_key(&mut self) -> (r: Option<()>)
        ensures
            final(self).path == old(self).path,
            match key_at(old(self).path@, old(self).index as int) {
                None => r is None,
                Some((k, j)) => r is Some && final(self).index == j,
            },
    {
        match self.parse_key_inner(None) {
            Some(_) => Some(()),
            None => None,
        }
    }

    /// Parses one key and reports whether it decodes to `expected`.
    pub fn parse_key_matches(&mut self, expected: &Vec<char>) -> (r: Option<bool>)
        ensures
            final(self).path == old(self).path,
            match key_at(old(self).path@, old(self).index as int) {
                None => r is None,
                Some((k, j)) => r == Some(k == expected@) && final(self).index == j,
            },
    {
        self.parse_key_inner(Some(expected))
    }

    pub fn parse_key_inner(&mut self, expected: Option<&Vec<char>>) -> (r: Option<bool>)
        ensures
            final(self).path == old(self).path,
            match key_at(old(self).path@, old(self).index as int) {
                None => r is None,
                Some((k, j)) => final(self).index == j && r == Some(
                    match expected {
                        Some(e) => k == e@,
                        None => true,
                    },
                ),
            },
    {
        match self.peek_char() {
            None => None,
            Some(ch) => {
                if ch == '"' {
                    self.parse_basic_string_key(expected)
                } else if ch == '\'' {
                    self.parse_literal_string_key(expected)
                } else if is_toml_bare_key_char(ch) {
                    self.parse_bare_key(expected)
                } else {
                    None
                }
            },
        }
    }

    pub fn parse_bare_key(&mut self, expected: Option<&Vec<char>>) -> (r: Option<bool>)
        requires
            old(self).index < old(self).path@.len(),
            is_bare_key_char_spec(old(self).path@[old(self).index as int]),
        ensures
            final(self).path == old(self).path,
            final(self).index == bare_end(old(self).path@, old(self).index as int),
            r == Some(
                match expected {
                    Some(e) => old(self).path@.subrange(
                        old(self).index as int,
                        bare_end(old(self).path@, old(self).index as int),
                    ) == e@,
                    None => true,
                },
            ),
    {
        let start = self.index;
        while self.index < self.path.len() && is_toml_bare_key_char(self.path[self.index])
            invariant
                self.path == old(self).path,
                start == old(self).index,
                start <= self.index <= self.path@.len(),
                bare_end(self.path@, self.index as int) == bare_end(self.path@, start as int),
            decreases self.path@.len() - self.index,
        {
            self.index = self.index + 1;
        }
        match expected {
            Some(e) => Some(range_equals(&self.path, start, self.index, e)),
            None => Some(true),
        }
    }

    pub fn parse_unicode_escape(&mut self, digits: usize) -> (r: Option<char>)
        requires
            digits == 4 || digits == 8,
            old(self).index <= old(self).path@.len(),
        ensures
            final(self).path == old(self).path,
            final(self).index <= final(self).path@.len(),
            match hex_from(old(self).path@, old(self).index as int, digits as nat, 0) {
                None => r is None,
                Some(v) => {
                    &&& r == (if is_scalar_value(v) {
                        Some(v as char)
                    } else {
                        None
                    })
                    &&& final(self).index == old(self).index + digits
                },
            },
    {
        let mut value: u32 = 0;
        let mut k: usize = 0;
        while k < digits
            invariant
                self.path == old(self).path,
                k <= digits,
                digits == 4 || digits == 8,
                self.index == old(self).index + k,
                self.index <= self.path@.len(),
                value < pow16(k as nat),
                hex_from(self.path@, self.index as int, (digits - k) as nat, value as int)
                    == hex_from(old(self).path@, old(self).index as int, digits as nat, 0),
            decreases digits - k,
        {
            let ch = match self.next_char() {
                Some(ch) => ch,
                None => {
                    return None;
                },
            };
            let d = match hex_digit(ch) {
                Some(d) => d,
                None => {
                    return None;
                },
            };
            proof {
                lemma_pow16_step(k as nat, value as int, d as int);
                lemma_pow16_bound(k as nat + 1);
            }
            value = value * 16 + d;
            k += 1;
        }
        char_from_u32(value)
    }

    pub fn parse_basic_string_escape(&mut self) -> (r: Option<char>)
        requires
            old(self).index <= old(self).path@.len(),
        ensures
            final(self).path == old(self).path,
            final(self).index <= final(self).path@.len(),
            match escape_at(old(self).path@, old(self).index as int) {
                None => r is None,
                Some((c, w)) => r == Some(c) && final(self).index == old(self).index + w,
            },
    {
        let ch = match self.next_char() {
            Some(ch) => ch,
            None => {
                return None;
            },
        };
        if ch == 'b' {
            Some('\u{8}')
        } else if ch == 't' {
            Some('\t')
        } else if ch == 'n' {
            Some('\n')
        } else if ch == 'f' {
            Some('\u{c}')
        } else if ch == 'r' {
            Some('\r')
        } else if ch == '"' {
            Some('"')
        } else if ch == '\\' {
            Some('\\')
        } else if ch == 'u' {
            self.parse_unicode_escape(4)
        } else if ch == 'U' {
            self.parse_unicode_escape(8)
        } else {
            None
        }
    }

    pub fn parse_basic_string_key(&mut self, expected: Option<&Vec<char>>) -> (r: Option<bool>)
        requires
            old(self).index < old(self).path@.len(),
            old(self).path@[old(self).index as int] == '"',
        ensures
            final(self).path == old(self).path,
            match basic_body(old(self).path@, old(self).index + 1, Seq::empty()) {
                None => r is None,
                Some((k, j)) => final(self).index == j && r == Some(
                    match expected {
                        Some(e) => k == e@,
                        None => true,
                    },
                ),
            },
    {
        let ghost start = self.index + 1;
        self.next_char();
        let mut matcher: Option<TomlKeyMatcher> = match expected {
            Some(e) => Some(TomlKeyMatcher::new(e.clone())),
            None => None,
        };
        let ghost mut acc: Seq<char> = Seq::empty();
        loop
            invariant
                self.path == old(self).path,
                start == old(self).index + 1,
                start <= self.index <= self.path@.len(),
                basic_body(self.path@, self.index as int, acc) == basic_body(
                    self.path@,
                    start,
                    Seq::empty(),
                ),
                match expected {
                    Some(e) => matcher matches Some(m) && m.expected@ == e@ && m.wf() && m.fed@
                        == acc,
                    None => matcher is None,
                },
            decreases self.path@.len() - self.index,
        {
            let ch = match self.next_char() {
                Some(ch) => ch,
                None => {
                    return None;
                },
            };
            let decoded = if ch == '"' {
                return match &matcher {
                    Some(m) => Some(m.is_match()),
                    None => Some(true),
                };
            } else if ch == '\\' {
                match self.parse_basic_string_escape() {
                    Some(c) => c,
                    None => {
                        return None;
                    },
                }
            } else if is_toml_forbidden_string_char(ch) {
                return None;
            } else {
                ch
            };
            match &mut matcher {
                Some(m) => {
                    m.accept(decoded);
                },
                None => {},
            }
            proof {
                acc = acc.push(decoded);
            }
        }
    }

    pub fn parse_literal_string_key(&mut self, expected: Option<&Vec<char>>) -> (r: Option<bool>)
        requires
            old(self).index < old(self).path@.len(),
            old(self).path@[old(self).index as int] == '\'',
        ensures
            final(self).path == old(self).path,
            match literal_end(old(self).path@, old(self).index + 1) {
                None => r is None,
                Some(k) => final(self).index == k + 1 && r == Some(
                    match expected {
                        Some(e) => old(self).path@.subrange(old(self).index + 1, k) == e@,
                        None => true,
                    },
                ),
            },
    {
        self.next_char();
        let start = self.index;
        loop
            invariant
                self.path == old(self).path,
                start == old(self).index + 1,
                start <= self.index <= self.path@.len(),
                literal_end(self.path@, self.index as int) == literal_end(
                    self.path@,
                    start as int,
                ),
            decreases self.path@.len() - self.index,
        {
            let ch = match self.next_char() {
                Some(ch) => ch,
                None => {
                    return None;
                },
            };
            if ch == '\'' {
                let end = self.index - 1;
                return match expected {
                    Some(e) => Some(range_equals(&self.path, start, end, e)),
                    None => Some(true),
                };
            } else if is_toml_forbidden_string_char(ch) {
                return None;
            }
        }
    }
}

pub proof fn lemma_rest_keys_step(p: Seq<char>, i: int, acc: Seq<Seq<char>>)
    requires
        0 <= i < p.len(),
    ensures
        p[i] != '.' ==> rest_keys(p, i, acc) is None,
        p[i] == '.' ==> rest_keys(p, i, acc) == (match key_at(p, skip_spaces(p, i + 1)) {
            None => None,
            Some((k, j)) => rest_keys(p, skip_spaces(p, j), acc.push(k)),
        }),
{
    if p[i] == '.' {
        lemma_skip_spaces_bounds(p, i + 1);
        lemma_key_at_bounds(p, skip_spaces(p, i + 1));
    }
}

pub proof fn lemma_rest_keys_prefix(p: Seq<char>, i: int, acc: Seq<Seq<char>>)
    ensures
        rest_keys(p, i, acc) matches Some(ks) ==> ks.len() >= acc.len() && ks.take(
            acc.len() as int,
        ) == acc,
    decreases p.len() - i,
{
    if 0 <= i < p.len() && p[i] == '.' {
        let i2 = skip_spaces(p, i + 1);
        if let Some((k, j)) = key_at(p, i2) {
            if i < j <= p.len() {
                lemma_skip_spaces_bounds(p, j);
                lemma_rest_keys_prefix(p, skip_spaces(p, j), acc.push(k));
                if let Some(ks) = rest_keys(p, skip_spaces(p, j), acc.push(k)) {
                    assert(ks.take(acc.len() as int) =~= ks.take(acc.len() + 1 as int).take(
                        acc.len() as int,
                    ));
                    assert(acc.push(k).take(acc.len() as int) =~= acc);
                }
            }
        }
    } else if i < 0 || i >= p.len() {
        assert(acc.take(acc.len() as int) =~= acc);
    }
}

fn options_key_chars() -> (v: Vec<char>)
    ensures
        v@ == options_key(),
{
    let v = vec!['o', 'p', 't', 'i', 'o', 'n', 's'];
    assert(v@ =~= options_key());
    v
}

/// Whether a key path names the `options` table (`Some(true)`), a table
/// below it (`Some(false)`), or something else (`None`).
pub fn toml_path_workspace_options_is_exact(path: &str) -> (r: Option<bool>)
    ensures
        r == options_path_kind(path@),
{
    options_path_kind_of_chars(chars_of(path))
}

/// [`toml_path_workspace_options_is_exact`] on a path given as characters.
pub fn options_path_kind_of_chars(path: Vec<char>) -> (r: Option<bool>)
    ensures
        r == options_path_kind(path@),
{
    let ghost p = path@;
    assert(p == path@);
    let mut parser = TomlPathParser { path, index: 0 };
    parser.skip_whitespace();
    proof {
        lemma_skip_spaces_bounds(p, 0);
        lemma_key_at_bounds(p, parser.index as int);
    }
    let expected = options_key_chars();
    let first_is_options = match parser.parse_key_matches(&expected) {
        Some(b) => b,
        None => {
            return None;
        },
    };
    let ghost first_key = key_at(p, skip_spaces(p, 0)).unwrap().0;
    let ghost mut keys: Seq<Seq<char>> = seq![first_key];
    parser.skip_whitespace();
    proof {
        lemma_skip_spaces_bounds(p, key_at(p, skip_spaces(p, 0)).unwrap().1);
    }
    if parser.is_finished() {
        return if first_is_options {
            Some(true)
        } else {
            None
        };
    }
    proof {
        lemma_rest_keys_step(p, parser.index as int, keys);
        lemma_rest_keys_prefix(p, parser.index as int, keys);
        if let Some(ks) = path_keys(p) {
            assert(ks[0] == ks.take(1)[0]);
        }
    }
    if !first_is_options || !parser.consume_dot() {
        return None;
    }
    parser.skip_whitespace();
    proof {
        lemma_skip_spaces_bounds(p, parser.index as int);
        lemma_key_at_bounds(p, parser.index as int);
    }
    let ghost second_start = parser.index as int;
    if parser.parse_key().is_none() {
        return None;
    }
    proof {
        keys = keys.push(key_at(p, second_start).unwrap().0);
    }
    parser.skip_whitespace();
    proof {
        lemma_skip_spaces_bounds(p, key_at(p, second_start).unwrap().1);
    }
    while !parser.is_finished()
        invariant
            p == path@,
            parser.path@ == p,
            parser.index <= p.len(),
            keys.len() >= 2,
            keys[0] == options_key(),
            path_keys(p) == rest_keys(p, parser.index as int, keys),
        decreases p.len() - parser.index,
    {
        let ghost before = parser.index as int;
        proof {
            lemma_rest_keys_step(p, parser.index as int, keys);
        }
        if !parser.consume_dot() {
            return None;
        }
        proof {
            lemma_skip_spaces_bounds(p, parser.index as int);
        }
        parser.skip_whitespace();
        proof {
            lemma_skip_spaces_bounds(p, parser.index as int);
            lemma_key_at_bounds(p, parser.index as int);
        }
        let ghost key_start = parser.index as int;
        if parser.parse_key().is_none() {
            return None;
        }
        proof {
            keys = keys.push(key_at(p, key_start).unwrap().0);
        }
        parser.skip_whitespace();
        proof {
            lemma_skip_spaces_bounds(p, key_at(p, key_start).unwrap().1);
        }
    }
    Some(false)
}

/// The path names exactly the `options` table.
pub fn toml_path_is_workspace_options_table(path: &str) -> (b: bool)
    ensures
        b == (options_path_kind(path@) == Some(true)),
{
    match toml_path_workspace_options_is_exact(path) {
        Some(b) => b,
        None => false,
    }
}

/// The path names the `options` table or a table below it.
pub fn toml_path_is_workspace_options_or_child(path: &str) -> (b: bool)
    ensures
        b == options_path_kind(path@) is Some,
{
    toml_path_workspace_options_is_exact(path).is_some()
}

pub open spec fn pow16(k: nat) -> int
    decreases k,
{
    if k == 0 {
        1
    } else {
        16 * pow16((k - 1) as nat)
    }
}

pub proof fn lemma_pow16_step(k: nat, value: int, d: int)
    requires
        0 <= value < pow16(k),
        0 <= d < 16,
    ensures
        value * 16 + d < pow16(k + 1),
{
    assert(pow16(k + 1) == 16 * pow16(k));
    assert(value * 16 + d < pow16(k) * 16) by (nonlinear_arith)
        requires
            0 <= value < pow16(k),
            0 <= d < 16,
    ;
}

pub proof fn lemma_pow16_bound(k: nat)
    requires
        k <= 8,
    ensures
        pow16(k) <= 0x1_0000_0000,
    decreases k,
{
    if k > 0 {
        lemma_pow16_bound((k - 1) as nat);
        assert(pow16((k - 1) as nat) <= pow16(7)) by {
            lemma_pow16_mono((k - 1) as nat, 7);
        }
        reveal_with_fuel(pow16, 8);
    }
}

pub proof fn lemma_pow16_mono(a: nat, b: nat)
    requires
        a <= b,
    ensures
        pow16(a) <= pow16(b),
    decreases b - a,
{
    if a < b {
        lemma_pow16_mono(a, (b - 1) as nat);
        lemma_pow16_pos((b - 1) as nat);
    }
}

pub proof fn lemma_pow16_pos(k: nat)
    ensures
        pow16(k) >= 1,
    decreases k,
{
    if k > 0 {
        lemma_pow16_pos((k - 1) as nat);
    }
}

} // verus!
