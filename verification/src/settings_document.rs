use vstd::prelude::*;

use crate::text::{chars_of, copy_range, push_char, push_char_range, push_str, string_from_chars};
use crate::toml_path::{options_path_kind, options_path_kind_of_chars};
use crate::toml_scan::{
    can_start_header_spec, find_line_end, header_at, header_span, lemma_header_at_bounds,
    lemma_line_end_bounds, line_end, scan_range, trim_line_ending_range, without_line_ending,
    TomlLineScanner, TomlScanState,
};

verus! {

/// A range `[start, end)` of a settings document, counted in characters.
#[derive(Debug, Clone, Copy, PartialEq, Eq, Structural)]
pub struct TomlContentSection {
    pub start: usize,
    pub end: usize,
}

/// What a scan of the root part of a settings document found.
#[derive(Debug, Clone, Copy, PartialEq, Eq, Structural)]
pub struct RootSettingsOptionsScan {
    pub has_options_assignment: bool,
}

pub open spec fn initial_scanner() -> TomlLineScanner {
    TomlLineScanner { state: TomlScanState::Normal, nesting_depth: 0 }
}

/// The path a header line names, with whether it is an array table.
pub open spec fn header_line(t: Seq<char>, o: int, te: int) -> Option<(Seq<char>, bool)> {
    match header_at(t, o, te) {
        Some((ps, pe, a)) => Some((t.subrange(ps, pe), a)),
        None => None,
    }
}

/// Offset, from line start `o` on, of the first line that opens a table
/// (a header outside strings and brackets), or `end` when none does.
pub open spec fn root_end_from(t: Seq<char>, o: int, end: int, s: TomlLineScanner) -> int
    decreases end - o,
{
    if o < 0 || o >= end || end > t.len() {
        end
    } else {
        let le = line_end(t, o, end);
        let te = without_line_ending(t, o, le);
        if can_start_header_spec(s) && header_at(t, o, te) is Some {
            o
        } else {
            proof {
                lemma_line_end_bounds(t, o, end);
            }
            root_end_from(t, le, end, scan_range(s, t, o, te))
        }
    }
}

/// Length of the root part of a document: everything before its first
/// table header.
pub open spec fn root_end(t: Seq<char>) -> int {
    root_end_from(t, 0, t.len() as int, initial_scanner())
}

/// The `[options]` section found from line start `o` on: it starts at the
/// header of the `options` table itself (not an array table) and runs up to
/// the first later header that is neither `options` nor below it.
pub open spec fn options_section_from(
    t: Seq<char>,
    o: int,
    s: TomlLineScanner,
    start: Option<int>,
) -> Option<(int, int)>
    decreases t.len() - o,
{
    if o < 0 || o >= t.len() {
        match start {
            Some(st) => Some((st, t.len() as int)),
            None => None,
        }
    } else {
        let le = line_end(t, o, t.len() as int);
        let te = without_line_ending(t, o, le);
        let next = scan_range(s, t, o, te);
        proof {
            lemma_line_end_bounds(t, o, t.len() as int);
        }
        if can_start_header_spec(s) && header_line(t, o, te) is Some {
            let (path, is_array) = header_line(t, o, te)->0;
            match start {
                Some(st) => if options_path_kind(path) is None {
                    Some((st, o))
                } else {
                    options_section_from(t, le, next, start)
                },
                None => if !is_array && options_path_kind(path) == Some(true) {
                    options_section_from(t, le, next, Some(o))
                } else {
                    options_section_from(t, le, next, None)
                },
            }
        } else {
            options_section_from(t, le, next, start)
        }
    }
}

pub open spec fn options_section(t: Seq<char>) -> Option<(int, int)> {
    options_section_from(t, 0, initial_scanner(), None)
}

/// Index of the first `=` in `t[o..te]`.
pub open spec fn first_eq(t: Seq<char>, o: int, te: int) -> Option<int>
    decreases te - o,
{
    if o >= te {
        None
    } else if t[o] == '=' {
        Some(o)
    } else {
        first_eq(t, o + 1, te)
    }
}

/// A line `key = value` whose key is `options` or a path below it.
pub open spec fn assigns_options(line: Seq<char>) -> bool {
    match first_eq(line, 0, line.len() as int) {
        None => false,
        Some(k) => options_path_kind(line.subrange(0, k)) is Some,
    }
}

/// Some line from `o` on, read outside strings and brackets, assigns `options`.
pub open spec fn assigns_options_from(t: Seq<char>, o: int, s: TomlLineScanner) -> bool
    decreases t.len() - o,
{
    if o < 0 || o >= t.len() {
        false
    } else {
        let le = line_end(t, o, t.len() as int);
        let te = without_line_ending(t, o, le);
        proof {
            lemma_line_end_bounds(t, o, t.len() as int);
        }
        (can_start_header_spec(s) && assigns_options(t.subrange(o, te))) || assigns_options_from(
            t,
            le,
            scan_range(s, t, o, te),
        )
    }
}

/// The document with `[start, end)` replaced.
pub open spec fn replaced(t: Seq<char>, start: int, end: int, r: Seq<char>) -> Seq<char> {
    t.subrange(0, start) + r + t.subrange(end, t.len() as int)
}

/// The document followed by a blank line and then `table`.
pub open spec fn appended(t: Seq<char>, table: Seq<char>) -> Seq<char> {
    let a = if t.len() > 0 && t.last() != '\n' {
        t.push('\n')
    } else {
        t
    };
    let b = if a.len() > 0 && !(a.len() >= 2 && a[a.len() - 1] == '\n' && a[a.len() - 2] == '\n') {
        a.push('\n')
    } else {
        a
    };
    b + table
}

fn first_eq_exec(t: &Vec<char>, o: usize, te: usize) -> (r: Option<usize>)
    requires
        o <= te <= t.len(),
    ensures
        r matches Some(k) ==> first_eq(t@, o as int, te as int) == Some(k as int) && o <= k < te,
        r is None ==> first_eq(t@, o as int, te as int) is None,
{
    let mut i = o;
    while i < te
        invariant
            o <= i <= te <= t.len(),
            first_eq(t@, i as int, te as int) == first_eq(t@, o as int, te as int),
        decreases te - i,
    {
        if t[i] == '=' {
            return Some(i);
        }
        i += 1;
    }
    None
}

pub proof fn lemma_first_eq_shift(t: Seq<char>, o: int, te: int)
    requires
        0 <= o <= te <= t.len(),
    ensures
        first_eq(t, o, te) == (match first_eq(t.subrange(o, te), 0, te - o) {
            Some(k) => Some(k + o),
            None => None,
        }),
    decreases te - o,
{
    if o < te {
        lemma_first_eq_shift_inner(t, o, o, te);
    }
}

proof fn lemma_first_eq_shift_inner(t: Seq<char>, o: int, i: int, te: int)
    requires
        0 <= o <= i <= te <= t.len(),
    ensures
        first_eq(t, i, te) == (match first_eq(t.subrange(o, te), i - o, te - o) {
            Some(k) => Some(k + o),
            None => None,
        }),
    decreases te - i,
{
    if i < te {
        assert(t.subrange(o, te)[i - o] == t[i]);
        lemma_first_eq_shift_inner(t, o, i + 1, te);
    }
}

/// Whether a line assigns `options` (or a path below it) as a key.
fn line_assigns_options(t: &Vec<char>, o: usize, te: usize) -> (b: bool)
    requires
        o <= te <= t.len(),
    ensures
        b == assigns_options(t@.subrange(o as int, te as int)),
{
    proof {
        lemma_first_eq_shift(t@, o as int, te as int);
    }
    match first_eq_exec(t, o, te) {
        None => false,
        Some(k) => {
            let key = copy_range(t, o, k);
            assert(key@ =~= t@.subrange(o as int, te as int).subrange(0, k - o));
            options_path_kind_of_chars(key).is_some()
        },
    }
}

/// Whether `line` is `key = value` with a key naming `options` or below it.
pub fn root_line_assigns_workspace_options(line: &str) -> (b: bool)
    ensures
        b == assigns_options(line@),
{
    let chars = chars_of(line);
    let b = line_assigns_options(&chars, 0, chars.len());
    assert(chars@.subrange(0, chars@.len() as int) =~= line@);
    b
}

/// A settings document, read line by line.
#[derive(Debug, Clone)]
pub struct SettingsTomlDocument {
    pub content: Vec<char>,
}

impl SettingsTomlDocument {
    pub fn new(content: &str) -> (d: Self)
        ensures
            d.content@ == content@,
    {
        SettingsTomlDocument { content: chars_of(content) }
    }

    /// Length of the root part: everything before the first table header.
    pub fn root_content_end(&self) -> (e: usize)
        ensures
            e == root_end(self.content@),
            e <= self.content@.len(),
    {
        let t = &self.content;
        let mut offset: usize = 0;
        let mut scanner = TomlLineScanner::new();
        while offset < t.len()
            invariant
                t@ == self.content@,
                offset <= t@.len(),
                root_end_from(t@, offset as int, t@.len() as int, scanner) == root_end(t@),
            decreases t@.len() - offset,
        {
            let le = find_line_end(t, offset, t.len());
            let te = trim_line_ending_range(t, offset, le);
            if scanner.can_start_table_header() && header_span(t, offset, te).is_some() {
                return offset;
            }
            scanner.scan_chars(t, offset, te);
            offset = le;
        }
        t.len()
    }

    /// The root part of the document.
    pub fn root_content(&self) -> (r: String)
        ensures
            r@ == self.content@.subrange(0, root_end(self.content@)),
    {
        let e = self.root_content_end();
        let kept = copy_range(&self.content, 0, e);
        string_from_chars(&kept)
    }

    /// The root table's own content (the root part of the document).
    pub fn root_table_content(&self) -> (r: String)
        ensures
            r@ == self.content@.subrange(0, root_end(self.content@)),
    {
        self.root_content()
    }

    /// The section that holds the `options` table and the tables below it.
    pub fn workspace_options_table_section(&self) -> (r: Option<TomlContentSection>)
        ensures
            match options_section(self.content@) {
                Some((s, e)) => r == Some(TomlContentSection { start: s as usize, end: e as usize }),
                None => r is None,
            },
            r matches Some(sec) ==> sec.start < sec.end <= self.content@.len(),
    {
        let t = &self.content;
        let mut offset: usize = 0;
        let mut section_start: Option<usize> = None;
        let mut scanner = TomlLineScanner::new();
        while offset < t.len()
            invariant
                t@ == self.content@,
                offset <= t@.len(),
                section_start matches Some(st) ==> st < offset,
                options_section_from(
                    t@,
                    offset as int,
                    scanner,
                    match section_start {
                        Some(st) => Some(st as int),
                        None => None,
                    },
                ) == options_section(t@),
            decreases t@.len() - offset,
        {
            let le = find_line_end(t, offset, t.len());
            let te = trim_line_ending_range(t, offset, le);
            proof {
                lemma_header_at_bounds(t@, offset as int, te as int);
            }
            if scanner.can_start_table_header() {
                if let Some(h) = header_span(t, offset, te) {
                    let path = copy_range(t, h.path_start, h.path_end);
                    let kind = options_path_kind_of_chars(path);
                    match section_start {
                        Some(start) => {
                            if kind.is_none() {
                                return Some(TomlContentSection { start, end: offset });
                            }
                        },
                        None => {
                            if !h.is_array && kind == Some(true) {
                                section_start = Some(offset);
                            }
                        },
                    }
                }
            }
            scanner.scan_chars(t, offset, te);
            offset = le;
        }
        match section_start {
            Some(start) => Some(TomlContentSection { start, end: t.len() }),
            None => None,
        }
    }

    /// Whether the root part assigns `options` inline (`options = { .. }`
    /// or a dotted key below it).
    pub fn root_settings_contains_workspace_options_assignment(&self) -> (b: bool)
        ensures
            b == assigns_options_from(
                self.content@.subrange(0, root_end(self.content@)),
                0,
                initial_scanner(),
            ),
    {
        let root = self.root_content();
        Self::root_settings_options_scan(&root).has_options_assignment
    }

    /// Scans a root part line by line for an `options` assignment.
    pub fn root_settings_options_scan(content: &str) -> (r: RootSettingsOptionsScan)
        ensures
            r.has_options_assignment == assigns_options_from(content@, 0, initial_scanner()),
    {
        let t = chars_of(content);
        let mut scanner = TomlLineScanner::new();
        let mut scan = RootSettingsOptionsScan { has_options_assignment: false };
        let mut offset: usize = 0;
        while offset < t.len()
            invariant
                t@ == content@,
                offset <= t@.len(),
                scan.has_options_assignment || assigns_options_from(t@, offset as int, scanner)
                    == assigns_options_from(t@, 0, initial_scanner()),
                scan.has_options_assignment ==> assigns_options_from(t@, 0, initial_scanner()),
            decreases t@.len() - offset,
        {
            let le = find_line_end(&t, offset, t.len());
            let te = trim_line_ending_range(&t, offset, le);
            if scanner.can_start_table_header() && line_assigns_options(&t, offset, te) {
                scan.has_options_assignment = true;
            }
            scanner.scan_chars(&t, offset, te);
            offset = le;
        }
        scan
    }

    /// The document with `section` replaced by `replacement`.
    pub fn replace_range(&self, section: TomlContentSection, replacement: &str) -> (r: String)
        requires
            section.start <= section.end <= self.content@.len(),
        ensures
            r@ == replaced(
                self.content@,
                section.start as int,
                section.end as int,
                replacement@,
            ),
    {
        let mut updated = String::new();
        push_char_range(&mut updated, &self.content, 0, section.start);
        push_str(&mut updated, replacement);
        push_char_range(&mut updated, &self.content, section.end, self.content.len());
        assert(updated@ =~= replaced(
            self.content@,
            section.start as int,
            section.end as int,
            replacement@,
        ));
        updated
    }

    /// The document followed by a blank line and `options_table`.
    pub fn append_workspace_options_table(&self, options_table: &str) -> (r: String)
        ensures
            r@ == appended(self.content@, options_table@),
    {
        let mut updated = String::new();
        let n = self.content.len();
        push_char_range(&mut updated, &self.content, 0, n);
        assert(updated@ =~= self.content@);
        let ends_with_newline = n > 0 && self.content[n - 1] == '\n';
        if n > 0 && !ends_with_newline {
            push_char(&mut updated, '\n');
        }
        let ghost a = updated@;

        let ends_with_blank = if n > 0 && !ends_with_newline {
            n >= 1 && self.content[n - 1] == '\n'
        } else {
            n >= 2 && self.content[n - 1] == '\n' && self.content[n - 2] == '\n'
        };
        assert(ends_with_blank == (a.len() >= 2 && a[a.len() - 1] == '\n' && a[a.len() - 2]
            == '\n'));
        if n > 0 && !ends_with_blank {
            push_char(&mut updated, '\n');
        }
        push_str(&mut updated, options_table);
        updated
    }
}

/// The `options` section of a document, if any.
pub fn find_workspace_options_table_section(content: &str) -> (r: Option<TomlContentSection>)
    ensures
        match options_section(content@) {
            Some((s, e)) => r == Some(TomlContentSection { start: s as usize, end: e as usize }),
            None => r is None,
        },
{
    SettingsTomlDocument::new(content).workspace_options_table_section()
}

} // verus!
