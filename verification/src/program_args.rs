use vstd::prelude::*;

use crate::settings::UiLanguage;
use crate::text::{chars_of, is_unicode_whitespace, is_whitespace_char, push_char, push_char_range, string_from_chars};

verus! {

/// Why a program argument line could not be split.
#[derive(Debug, Clone, Copy, PartialEq, Eq, Structural)]
pub enum ProgramArgumentsParseError {
    UnterminatedQuote,
}

impl ProgramArgumentsParseError {
    pub fn user_message(self, language: UiLanguage) -> (m: &'static str)
        ensures
            m@ == (if language == UiLanguage::English {
                "program arguments contain an unterminated quote"@
            } else {
                "프로그램 arguments에 닫히지 않은 큰따옴표가 있습니다"@
            }),
    {
        match self {
            ProgramArgumentsParseError::UnterminatedQuote => {
                if language == UiLanguage::English {
                    "program arguments contain an unterminated quote"
                } else {
                    "프로그램 arguments에 닫히지 않은 큰따옴표가 있습니다"
                }
            },
        }
    }
}

/// Splits `input[i..]` into arguments, continuing from the arguments
/// already split (`args`), the current argument (`cur`), whether a quote
/// is open, and whether the current argument has started.  Whitespace
/// outside quotes separates arguments; a `"` opens or closes a quote; `\"`
/// stands for a literal quote.
pub open spec fn parse_args_from(
    input: Seq<char>,
    i: int,
    args: Seq<Seq<char>>,
    cur: Seq<char>,
    in_quotes: bool,
    started: bool,
) -> Option<Seq<Seq<char>>>
    decreases input.len() - i,
{
    if i < 0 || i >= input.len() {
        if in_quotes {
            None
        } else if started {
            Some(args.push(cur))
        } else {
            Some(args)
        }
    } else {
        let c = input[i];
        if c == '"' {
            parse_args_from(input, i + 1, args, cur, !in_quotes, true)
        } else if c == '\\' && i + 1 < input.len() && input[i + 1] == '"' {
            parse_args_from(input, i + 2, args, cur.push('"'), in_quotes, true)
        } else if is_unicode_whitespace(c) && !in_quotes {
            if started {
                parse_args_from(input, i + 1, args.push(cur), Seq::empty(), in_quotes, false)
            } else {
                parse_args_from(input, i + 1, args, cur, in_quotes, false)
            }
        } else {
            parse_args_from(input, i + 1, args, cur.push(c), in_quotes, true)
        }
    }
}

/// The arguments a program argument line splits into, or `None` when a
/// quote is left open.
pub open spec fn parse_args(input: Seq<char>) -> Option<Seq<Seq<char>>> {
    parse_args_from(input, 0, Seq::empty(), Seq::empty(), false, false)
}


/// Splits a program argument line the way a shell does: whitespace
/// separates arguments, double quotes group, `\"` is a literal quote.
pub fn parse_program_arguments(input: &str) -> (r: Result<Vec<String>, ProgramArgumentsParseError>)
    ensures
        match parse_args(input@) {
            None => r == Err::<Vec<String>, ProgramArgumentsParseError>(
                ProgramArgumentsParseError::UnterminatedQuote,
            ),
            Some(args) => r matches Ok(v) && v@.map_values(|s: String| s@) == args,
        },
{
    let chars = chars_of(input);
    let mut arguments: Vec<String> = Vec::new();
    let mut current: Vec<char> = Vec::new();
    let mut in_quotes = false;
    let mut started = false;
    let mut i: usize = 0;
    assert(arguments@.map_values(|s: String| s@) =~= Seq::<Seq<char>>::empty());
    assert(current@ =~= Seq::<char>::empty());
    while i < chars.len()
        invariant
            chars@ == input@,
            i <= chars.len(),
            parse_args_from(
                chars@,
                i as int,
                arguments@.map_values(|s: String| s@),
                current@,
                in_quotes,
                started,
            ) == parse_args(input@),
        decreases chars.len() - i,
    {
        let ch = chars[i];
        if ch == '"' {
            in_quotes = !in_quotes;
            started = true;
            i += 1;
        } else if ch == '\\' && i + 1 < chars.len() && chars[i + 1] == '"' {
            current.push('"');
            started = true;
            i += 2;
        } else if is_whitespace_char(ch) && !in_quotes {
            if started {
                let ghost before = arguments@;
                arguments.push(string_from_chars(&current));
                assert(arguments@.map_values(|s: String| s@) =~= before.map_values(|s: String| s@).push(
                    current@,
                ));
                current = Vec::new();
                started = false;
            }
            i += 1;
        } else {
            current.push(ch);
            started = true;
            i += 1;
        }
    }
    if in_quotes {
        return Err(ProgramArgumentsParseError::UnterminatedQuote);
    }
    if started {
        let ghost before = arguments@;
        arguments.push(string_from_chars(&current));
        assert(arguments@.map_values(|s: String| s@) =~= before.map_values(|s: String| s@).push(
            current@,
        ));
    }
    Ok(arguments)
}

/// Count of `\` at the end of `a`.
pub open spec fn trailing_backslashes(a: Seq<char>) -> nat
    decreases a.len(),
{
    if a.len() > 0 && a.last() == '\\' {
        1 + trailing_backslashes(a.drop_last())
    } else {
        0
    }
}

/// `a` with every `"` written as `\"`.
pub open spec fn escape_quotes(a: Seq<char>) -> Seq<char>
    decreases a.len(),
{
    if a.len() == 0 {
        Seq::empty()
    } else {
        escape_quotes(a.drop_last()) + if a.last() == '"' {
            seq!['\\', '"']
        } else {
            seq![a.last()]
        }
    }
}

/// An argument has to be quoted when it is empty or holds whitespace or `"`.
pub open spec fn needs_quoting(a: Seq<char>) -> bool {
    a.len() == 0 || exists|k: int| 0 <= k < a.len() && (is_unicode_whitespace(a[k]) || a[k] == '"')
}

/// One argument as written on an argument line: as is when it needs no
/// quoting, else quoted with `"` escaped and trailing backslashes kept
/// after the closing quote.
pub open spec fn formatted_arg(a: Seq<char>) -> Seq<char> {
    if !needs_quoting(a) {
        a
    } else {
        let q = a.len() - trailing_backslashes(a);
        seq!['"'] + escape_quotes(a.subrange(0, q)) + seq!['"'] + a.subrange(q, a.len() as int)
    }
}

/// The formatted arguments joined by single spaces.
pub open spec fn formatted_args(args: Seq<Seq<char>>) -> Seq<char>
    decreases args.len(),
{
    if args.len() == 0 {
        Seq::empty()
    } else if args.len() == 1 {
        formatted_arg(args[0])
    } else {
        formatted_args(args.drop_last()) + seq![' '] + formatted_arg(args.last())
    }
}

pub proof fn lemma_trailing_backslashes_bound(a: Seq<char>)
    ensures
        trailing_backslashes(a) <= a.len(),
        forall|k: int|
            a.len() - trailing_backslashes(a) <= k < a.len() ==> #[trigger] a[k] == '\\',
        trailing_backslashes(a) < a.len() ==> a[a.len() - trailing_backslashes(a) - 1] != '\\',
    decreases a.len(),
{
    if a.len() > 0 && a.last() == '\\' {
        lemma_trailing_backslashes_bound(a.drop_last());
        assert forall|k: int|
            a.len() - trailing_backslashes(a) <= k < a.len() implies #[trigger] a[k] == '\\' by {
            if k < a.len() - 1 {
                assert(a[k] == a.drop_last()[k]);
            }
        }
        if trailing_backslashes(a) < a.len() {
            assert(a[a.len() - trailing_backslashes(a) - 1] == a.drop_last()[a.len()
                - trailing_backslashes(a) - 1]);
        }
    }
}

/// Whether `a` needs quoting.
fn argument_needs_quoting(a: &Vec<char>) -> (b: bool)
    ensures
        b == needs_quoting(a@),
{
    if a.len() == 0 {
        return true;
    }
    let mut k: usize = 0;
    while k < a.len()
        invariant
            k <= a.len(),
            forall|j: int| 0 <= j < k ==> !(is_unicode_whitespace(a@[j]) || a@[j] == '"'),
        decreases a.len() - k,
    {
        if is_whitespace_char(a[k]) || a[k] == '"' {
            return true;
        }
        k += 1;
    }
    false
}

/// Writes one argument so that [`parse_program_arguments`] reads it back.
pub fn format_program_argument(argument: &str) -> (r: String)
    ensures
        r@ == formatted_arg(argument@),
{
    let a = chars_of(argument);
    if !argument_needs_quoting(&a) {
        return string_from_chars(&a);
    }
    let n = a.len();
    let mut q = n;
    assert(a@.subrange(0, n as int) =~= a@);
    while q > 0 && a[q - 1] == '\\'
        invariant
            q <= n == a@.len(),
            trailing_backslashes(a@) == (n - q) + trailing_backslashes(a@.subrange(0, q as int)),
        decreases q,
    {
        assert(a@.subrange(0, q as int).drop_last() =~= a@.subrange(0, q - 1));
        q -= 1;
    }
    assert(trailing_backslashes(a@.subrange(0, q as int)) == 0);
    let mut out = String::new();
    push_char(&mut out, '"');
    let mut k: usize = 0;
    while k < q
        invariant
            k <= q <= n == a@.len(),
            out@ == seq!['"'] + escape_quotes(a@.subrange(0, k as int)),
        decreases q - k,
    {
        if a[k] == '"' {
            push_char(&mut out, '\\');
            push_char(&mut out, '"');
        } else {
            push_char(&mut out, a[k]);
        }
        assert(a@.subrange(0, k + 1 as int).drop_last() =~= a@.subrange(0, k as int));
        k += 1;
        assert(out@ =~= seq!['"'] + escape_quotes(a@.subrange(0, k as int)));
    }
    push_char(&mut out, '"');
    push_char_range(&mut out, &a, q, n);
    assert(out@ =~= formatted_arg(argument@));
    out
}

/// Writes arguments on one line, separated by single spaces.
pub fn format_program_arguments(arguments: &[String]) -> (r: String)
    ensures
        r@ == formatted_args(arguments@.map_values(|s: String| s@)),
{
    let mut out = String::new();
    let mut k: usize = 0;
    while k < arguments.len()
        invariant
            k <= arguments@.len(),
            out@ == formatted_args(arguments@.subrange(0, k as int).map_values(|s: String| s@)),
        decreases arguments@.len() - k,
    {
        let piece = format_program_argument(arguments[k].as_str());
        let ghost prefix = arguments@.subrange(0, k + 1 as int).map_values(|s: String| s@);
        assert(prefix.drop_last() =~= arguments@.subrange(0, k as int).map_values(|s: String| s@));
        if k > 0 {
            push_char(&mut out, ' ');
        }
        let chars = chars_of(piece.as_str());
        push_char_range(&mut out, &chars, 0, chars.len());
        assert(chars@.subrange(0, chars@.len() as int) =~= chars@);
        k += 1;
        assert(out@ =~= formatted_args(arguments@.subrange(0, k as int).map_values(|s: String| s@)));
    }
    assert(arguments@.subrange(0, arguments@.len() as int) =~= arguments@);
    out
}


pub proof fn lemma_escape_concat(x: Seq<char>, y: Seq<char>)
    ensures
        escape_quotes(x + y) == escape_quotes(x) + escape_quotes(y),
    decreases y.len(),
{
    if y.len() == 0 {
        assert(x + y =~= x);
        assert(escape_quotes(x) + escape_quotes(y) =~= escape_quotes(x));
    } else {
        assert((x + y).drop_last() =~= x + y.drop_last());
        assert((x + y).last() == y.last());
        lemma_escape_concat(x, y.drop_last());
        assert(escape_quotes(x) + escape_quotes(y.drop_last()) + (if y.last() == '"' {
            seq!['\\', '"']
        } else {
            seq![y.last()]
        }) =~= escape_quotes(x) + escape_quotes(y));
    }
}

pub proof fn lemma_escape_single(c: char)
    ensures
        escape_quotes(seq![c]) == if c == '"' {
            seq!['\\', '"']
        } else {
            seq![c]
        },
{
    assert(seq![c].drop_last() =~= Seq::<char>::empty());
    assert(escape_quotes(Seq::<char>::empty()) =~= Seq::<char>::empty());
    reveal_with_fuel(escape_quotes, 2);
}

/// The first character of an escaped string is `\` or the string's first
/// character, and never a lone `"`.
pub proof fn lemma_escape_first(q: Seq<char>)
    requires
        q.len() > 0,
    ensures
        escape_quotes(q).len() > 0,
        escape_quotes(q)[0] == if q[0] == '"' {
            '\\'
        } else {
            q[0]
        },
{
    lemma_escape_concat(seq![q[0]], q.skip(1));
    assert(seq![q[0]] + q.skip(1) =~= q);
    lemma_escape_single(q[0]);
}

/// Reading the unquoted form of an argument that needs no quoting.
proof fn lemma_parse_plain(s: Seq<char>, i: int, args: Seq<Seq<char>>, a: Seq<char>, k: int)
    requires
        !needs_quoting(a),
        0 <= i,
        0 <= k <= a.len(),
        i + a.len() <= s.len(),
        s.subrange(i, i + a.len()) == a,
        i + a.len() == s.len() || is_unicode_whitespace(s[i + a.len()]),
    ensures
        parse_args_from(s, i + k, args, a.take(k), false, k > 0) == parse_args_from(
            s,
            i + a.len(),
            args,
            a,
            false,
            true,
        ),
    decreases a.len() - k,
{
    if k < a.len() {
        let c = a[k];
        assert(s[i + k] == s.subrange(i, i + a.len())[k]);
        assert(!(is_unicode_whitespace(a[k]) || a[k] == '"'));
        if k + 1 < a.len() {
            assert(s[i + k + 1] == s.subrange(i, i + a.len())[k + 1]);
            assert(!(is_unicode_whitespace(a[k + 1]) || a[k + 1] == '"'));
        }
        assert(a.take(k).push(c) =~= a.take(k + 1));
        lemma_parse_plain(s, i, args, a, k + 1);
    } else {
        assert(a.take(k) =~= a);
    }
}

/// Reading the escaped body of a quoted argument, inside the quotes.
proof fn lemma_parse_escaped(s: Seq<char>, i: int, args: Seq<Seq<char>>, q: Seq<char>, k: int)
    requires
        0 <= i,
        0 <= k <= q.len(),
        q.len() > 0 ==> q.last() != '\\',
        i + escape_quotes(q).len() < s.len(),
        s.subrange(i, i + escape_quotes(q).len()) == escape_quotes(q),
        s[i + escape_quotes(q).len()] == '"',
    ensures
        parse_args_from(s, i + escape_quotes(q.take(k)).len(), args, q.take(k), true, true)
            == parse_args_from(s, i + escape_quotes(q).len(), args, q, true, true),
    decreases q.len() - k,
{
    if k < q.len() {
        let c = q[k];
        let e = escape_quotes(q);
        let p = i + escape_quotes(q.take(k)).len();
        lemma_escape_concat(q.take(k), q.skip(k));
        assert(q.take(k) + q.skip(k) =~= q);
        lemma_escape_concat(seq![c], q.skip(k + 1));
        assert(seq![c] + q.skip(k + 1) =~= q.skip(k));
        lemma_escape_single(c);
        lemma_escape_concat(q.take(k), seq![c]);
        assert(q.take(k) + seq![c] =~= q.take(k + 1));
        let ek = escape_quotes(q.take(k)).len() as int;
        assert(s[p] == e[ek]);
        if c == '"' {
            assert(s[p + 1] == e[ek + 1]);
            assert(q.take(k).push('"') =~= q.take(k + 1));
        } else {
            if c == '\\' {
                if k + 1 < q.len() {
                    lemma_escape_first(q.skip(k + 1));
                    assert(s[p + 1] == e[ek + 1]);
                    assert(q.skip(k + 1)[0] == q[k + 1]);
                } else {
                    assert(false);
                }
            }
            assert(q.take(k).push(c) =~= q.take(k + 1));
        }
        lemma_parse_escaped(s, i, args, q, k + 1);
    } else {
        assert(q.take(k) =~= q);
    }
}

/// Reading the trailing backslashes of a quoted argument, after the quotes.
proof fn lemma_parse_backslashes(
    s: Seq<char>,
    i: int,
    args: Seq<Seq<char>>,
    head: Seq<char>,
    t: Seq<char>,
    k: int,
)
    requires
        0 <= i,
        0 <= k <= t.len(),
        forall|j: int| 0 <= j < t.len() ==> #[trigger] t[j] == '\\',
        i + t.len() <= s.len(),
        s.subrange(i, i + t.len()) == t,
        i + t.len() == s.len() || is_unicode_whitespace(s[i + t.len()]),
    ensures
        parse_args_from(s, i + k, args, head + t.take(k), false, true) == parse_args_from(
            s,
            i + t.len(),
            args,
            head + t,
            false,
            true,
        ),
    decreases t.len() - k,
{
    if k < t.len() {
        assert(s[i + k] == s.subrange(i, i + t.len())[k]);
        if k + 1 < t.len() {
            assert(s[i + k + 1] == s.subrange(i, i + t.len())[k + 1]);
        }
        assert((head + t.take(k)).push('\\') =~= head + t.take(k + 1));
        lemma_parse_backslashes(s, i, args, head, t, k + 1);
    } else {
        assert(t.take(k) =~= t);
    }
}

/// Reading one formatted argument gives back the argument.
pub proof fn lemma_parse_formatted_arg(s: Seq<char>, i: int, args: Seq<Seq<char>>, a: Seq<char>)
    requires
        0 <= i,
        i + formatted_arg(a).len() <= s.len(),
        s.subrange(i, i + formatted_arg(a).len()) == formatted_arg(a),
        i + formatted_arg(a).len() == s.len() || is_unicode_whitespace(
            s[i + formatted_arg(a).len()],
        ),
    ensures
        parse_args_from(s, i, args, Seq::empty(), false, false) == parse_args_from(
            s,
            i + formatted_arg(a).len(),
            args,
            a,
            false,
            true,
        ),
{
    if !needs_quoting(a) {
        lemma_parse_plain(s, i, args, a, 0);
        assert(a.take(0) =~= Seq::<char>::empty());
    } else {
        lemma_trailing_backslashes_bound(a);
        let qn = a.len() - trailing_backslashes(a);
        let q = a.subrange(0, qn);
        let t = a.subrange(qn, a.len() as int);
        let e = escape_quotes(q);
        let f = formatted_arg(a);
        assert(f == seq!['"'] + e + seq!['"'] + t);
        assert(s[i] == f[0]);
        // opening quote
        assert(parse_args_from(s, i, args, Seq::empty(), false, false) == parse_args_from(
            s,
            i + 1,
            args,
            Seq::empty(),
            true,
            true,
        ));
        // escaped body
        assert(s.subrange(i + 1, i + 1 + e.len()) =~= e) by {
            assert forall|j: int| 0 <= j < e.len() implies s.subrange(i + 1, i + 1 + e.len())[j]
                == e[j] by {
                assert(s[i + 1 + j] == s.subrange(i, i + f.len())[1 + j]);
                assert(f[1 + j] == e[j]);
            }
        }
        assert(s[i + 1 + e.len()] == s.subrange(i, i + f.len())[1 + e.len() as int]);
        assert(f[1 + e.len() as int] == '"');
        if q.len() > 0 {
            assert(q.last() == a[qn - 1]);
        }
        lemma_parse_escaped(s, i + 1, args, q, 0);
        assert(q.take(0) =~= Seq::<char>::empty());
        assert(escape_quotes(Seq::<char>::empty()) =~= Seq::<char>::empty());
        // closing quote, then trailing backslashes
        let j = i + 2 + e.len();
        assert(s.subrange(j, j + t.len()) =~= t) by {
            assert forall|x: int| 0 <= x < t.len() implies s.subrange(j, j + t.len())[x] == t[x] by {
                assert(s[j + x] == s.subrange(i, i + f.len())[2 + e.len() + x]);
            }
        }
        assert forall|x: int| 0 <= x < t.len() implies #[trigger] t[x] == '\\' by {
            assert(t[x] == a[qn + x]);
        }
        lemma_parse_backslashes(s, j, args, q, t, 0);
        assert(t.take(0) =~= Seq::<char>::empty());
        assert(q + Seq::<char>::empty() =~= q);
        assert(q + t =~= a);
    }
}

pub proof fn lemma_formatted_args_prefix(args: Seq<Seq<char>>, k: int)
    requires
        1 <= k <= args.len(),
    ensures
        formatted_args(args.take(k)).len() <= formatted_args(args).len(),
        formatted_args(args).subrange(0, formatted_args(args.take(k)).len() as int)
            == formatted_args(args.take(k)),
        k < args.len() ==> formatted_args(args)[formatted_args(args.take(k)).len() as int] == ' ',
    decreases args.len() - k,
{
    if k == args.len() {
        assert(args.take(k) =~= args);
    } else {
        let n = args.len();
        lemma_formatted_args_prefix(args.drop_last(), k);
        assert(args.drop_last().take(k) =~= args.take(k));
        if k == n - 1 {
            assert(args.drop_last() =~= args.take(k));
        }
        assert(formatted_args(args) == formatted_args(args.drop_last()) + seq![' ']
            + formatted_arg(args.last()));
    }
}

/// Reading formatted arguments from the start, up to the end of the `k`-th.
proof fn lemma_parse_formatted_prefix(args: Seq<Seq<char>>, k: int)
    requires
        1 <= k <= args.len(),
    ensures
        parse_args_from(formatted_args(args), 0, Seq::empty(), Seq::empty(), false, false)
            == parse_args_from(
            formatted_args(args),
            formatted_args(args.take(k)).len() as int,
            args.take(k - 1),
            args[k - 1],
            false,
            true,
        ),
    decreases k,
{
    let s = formatted_args(args);
    lemma_formatted_args_prefix(args, k);
    let pk = formatted_args(args.take(k)).len() as int;
    let fk = formatted_arg(args[k - 1]);
    let start = pk - fk.len();
    if k == 1 {
        assert(args.take(1).len() == 1);
        assert(formatted_args(args.take(1)) == formatted_arg(args.take(1)[0]));
        assert(args.take(1)[0] == args[0]);
        assert(args.take(0) =~= Seq::<Seq<char>>::empty());
    } else {
        lemma_parse_formatted_prefix(args, k - 1);
        lemma_formatted_args_prefix(args, k - 1);
        assert(args.take(k).drop_last() =~= args.take(k - 1));
        assert(args.take(k).last() == args[k - 1]);
        assert(formatted_args(args.take(k)) == formatted_args(args.take(k - 1)) + seq![' ']
            + fk);
        let pk1 = formatted_args(args.take(k - 1)).len() as int;
        assert(s[pk1] == ' ');
        assert(args.take(k - 2).push(args[k - 2]) =~= args.take(k - 1));
        assert(start == pk1 + 1);
        assert(is_unicode_whitespace(' '));
        assert(parse_args_from(s, pk1, args.take(k - 2), args[k - 2], false, true)
            == parse_args_from(s, pk1 + 1, args.take(k - 1), Seq::empty(), false, false));
    }
    assert(s.subrange(start, pk) =~= fk) by {
        assert forall|x: int| 0 <= x < fk.len() implies s.subrange(start, pk)[x] == fk[x] by {
            assert(s[start + x] == s.subrange(0, pk)[start + x]);
        }
    }
    if pk < s.len() {
        assert(k < args.len());
    }
    lemma_parse_formatted_arg(s, start, args.take(k - 1), args[k - 1]);
}

/// Formatting arguments and splitting the line again gives back the same
/// arguments.
pub proof fn lemma_format_then_parse(args: Seq<Seq<char>>)
    ensures
        parse_args(formatted_args(args)) == Some(args),
{
    let s = formatted_args(args);
    let n = args.len() as int;
    if n == 0 {
        assert(s.len() == 0);
    } else {
        lemma_parse_formatted_prefix(args, n);
        assert(args.take(n) =~= args);
        assert(args.take(n - 1).push(args[n - 1]) =~= args);
    }
}


/// `seg` holds no `"` and no `\`, and, when `whitespace_allowed` is false,
/// no whitespace either.
pub open spec fn plain_run(seg: Seq<char>, whitespace_allowed: bool) -> bool {
    forall|k: int|
        0 <= k < seg.len() ==> {
            &&& #[trigger] seg[k] != '"'
            &&& seg[k] != '\\'
            &&& !whitespace_allowed ==> !is_unicode_whitespace(seg[k])
        }
}

/// Reading a run of ordinary characters adds them to the current argument.
proof fn lemma_parse_run(
    s: Seq<char>,
    i: int,
    args: Seq<Seq<char>>,
    cur: Seq<char>,
    in_quotes: bool,
    started: bool,
    seg: Seq<char>,
    k: int,
)
    requires
        0 <= i,
        0 <= k <= seg.len(),
        i + seg.len() <= s.len(),
        s.subrange(i, i + seg.len()) == seg,
        plain_run(seg, in_quotes),
    ensures
        parse_args_from(s, i + k, args, cur + seg.take(k), in_quotes, started || k > 0)
            == parse_args_from(
            s,
            i + seg.len(),
            args,
            cur + seg,
            in_quotes,
            started || seg.len() > 0,
        ),
    decreases seg.len() - k,
{
    if k < seg.len() {
        assert(s[i + k] == s.subrange(i, i + seg.len())[k]);
        assert(seg[k] != '"' && seg[k] != '\\');
        assert((cur + seg.take(k)).push(seg[k]) =~= cur + seg.take(k + 1));
        lemma_parse_run(s, i, args, cur, in_quotes, started, seg, k + 1);
    } else {
        assert(seg.take(k) =~= seg);
    }
}

/// A `"` opens or closes quoting wherever it stands, in the middle of an
/// argument as at its start: for `x` and `z` without whitespace and `y`
/// with any spacing (none of them holding `"` or `\`), the line
/// `x"y"z` is the one argument `xyz`.
pub proof fn lemma_quotes_group_inside_an_argument(x: Seq<char>, y: Seq<char>, z: Seq<char>)
    requires
        plain_run(x, false),
        plain_run(y, true),
        plain_run(z, false),
    ensures
        parse_args(x + seq!['"'] + y + seq!['"'] + z) == Some(seq![x + y + z]),
{
    let s = x + seq!['"'] + y + seq!['"'] + z;
    let e = Seq::<Seq<char>>::empty();
    let nx = x.len() as int;
    let ny = y.len() as int;
    let nz = z.len() as int;
    assert(s.subrange(0, nx) =~= x);
    lemma_parse_run(s, 0, e, Seq::empty(), false, false, x, 0);
    assert(Seq::<char>::empty() + x.take(0) =~= Seq::<char>::empty());
    assert(Seq::<char>::empty() + x =~= x);
    assert(s[nx] == '"');
    assert(parse_args_from(s, nx, e, x, false, nx > 0) == parse_args_from(
        s,
        nx + 1,
        e,
        x,
        true,
        true,
    ));
    assert(s.subrange(nx + 1, nx + 1 + ny) =~= y);
    lemma_parse_run(s, nx + 1, e, x, true, true, y, 0);
    assert(x + y.take(0) =~= x);
    assert(s[nx + 1 + ny] == '"');
    assert(parse_args_from(s, nx + 1 + ny, e, x + y, true, true) == parse_args_from(
        s,
        nx + 2 + ny,
        e,
        x + y,
        false,
        true,
    ));
    assert(s.subrange(nx + 2 + ny, nx + 2 + ny + nz) =~= z);
    lemma_parse_run(s, nx + 2 + ny, e, x + y, false, true, z, 0);
    assert((x + y) + z.take(0) =~= x + y);
    assert(s.len() == nx + 2 + ny + nz);
    assert(e.push(x + y + z) =~= seq![x + y + z]);
}


/// `\"` stands for a literal quote inside an argument and does not open a
/// quote: for `x` and `z` without whitespace, `"` or `\`, the line `x\"z`
/// is the one argument `x"z`.
pub proof fn lemma_escaped_quote_is_literal(x: Seq<char>, z: Seq<char>)
    requires
        plain_run(x, false),
        plain_run(z, false),
    ensures
        parse_args(x + seq!['\\', '"'] + z) == Some(seq![x + seq!['"'] + z]),
{
    let s = x + seq!['\\', '"'] + z;
    let e = Seq::<Seq<char>>::empty();
    let nx = x.len() as int;
    let nz = z.len() as int;
    assert(s.subrange(0, nx) =~= x);
    lemma_parse_run(s, 0, e, Seq::empty(), false, false, x, 0);
    assert(Seq::<char>::empty() + x.take(0) =~= Seq::<char>::empty());
    assert(Seq::<char>::empty() + x =~= x);
    assert(s[nx] == '\\' && s[nx + 1] == '"');
    assert(parse_args_from(s, nx, e, x, false, nx > 0) == parse_args_from(
        s,
        nx + 2,
        e,
        x.push('"'),
        false,
        true,
    ));
    assert(s.subrange(nx + 2, nx + 2 + nz) =~= z);
    lemma_parse_run(s, nx + 2, e, x.push('"'), false, true, z, 0);
    assert(x.push('"') + z.take(0) =~= x.push('"'));
    assert(x.push('"') + z =~= x + seq!['"'] + z);
    assert(e.push(x + seq!['"'] + z) =~= seq![x + seq!['"'] + z]);
}

/// Whitespace outside quotes separates arguments: for non-empty `x` and `z`
/// without whitespace, `"` or `\`, and a whitespace character `w`, the line
/// `x w z` is the two arguments `x` and `z`.
pub proof fn lemma_whitespace_separates_arguments(x: Seq<char>, w: char, z: Seq<char>)
    requires
        plain_run(x, false),
        plain_run(z, false),
        x.len() > 0,
        z.len() > 0,
        is_unicode_whitespace(w),
    ensures
        parse_args(x + seq![w] + z) == Some(seq![x, z]),
{
    let s = x + seq![w] + z;
    let e = Seq::<Seq<char>>::empty();
    let nx = x.len() as int;
    let nz = z.len() as int;
    assert(s.subrange(0, nx) =~= x);
    lemma_parse_run(s, 0, e, Seq::empty(), false, false, x, 0);
    assert(Seq::<char>::empty() + x.take(0) =~= Seq::<char>::empty());
    assert(Seq::<char>::empty() + x =~= x);
    assert(s[nx] == w);
    assert(w != '"' && w != '\\') by {
        assert(!is_unicode_whitespace('"'));
        assert(!is_unicode_whitespace('\\'));
    }
    assert(parse_args_from(s, nx, e, x, false, true) == parse_args_from(
        s,
        nx + 1,
        e.push(x),
        Seq::empty(),
        false,
        false,
    ));
    assert(s.subrange(nx + 1, nx + 1 + nz) =~= z);
    lemma_parse_run(s, nx + 1, e.push(x), Seq::empty(), false, false, z, 0);
    assert(Seq::<char>::empty() + z.take(0) =~= Seq::<char>::empty());
    assert(Seq::<char>::empty() + z =~= z);
    assert(e.push(x).push(z) =~= seq![x, z]);
}

} // verus!
