//! The renderer's reading of the line protocol: each line it receives on
//! its standard input becomes one command.

use vstd::prelude::*;

use crate::protocol::{decimal, digit_char, highlight_text, quit_text};

verus! {

/// What one received line asks of the renderer.
#[derive(Debug, Clone, Copy, PartialEq, Eq, Structural)]
pub enum RendererCommand {
    /// Highlight this segment.
    Highlight(usize),
    /// Stop rendering and exit.
    Quit,
    /// A highlight line whose index is no number.
    InvalidIndex,
    /// Anything else.
    Unexpected,
}

/// Whether `c` has the Unicode White_Space property.
pub open spec fn is_space(c: char) -> bool {
    ('\u{9}' <= c && c <= '\u{d}') || c == ' ' || c == '\u{85}' || c == '\u{a0}' || c
        == '\u{1680}' || ('\u{2000}' <= c && c <= '\u{200a}') || c == '\u{2028}' || c
        == '\u{2029}' || c == '\u{202f}' || c == '\u{205f}' || c == '\u{3000}'
}

/// `s` without its leading white space.
pub open spec fn trim_start(s: Seq<char>) -> Seq<char>
    decreases s.len(),
{
    if s.len() > 0 && is_space(s[0]) {
        trim_start(s.drop_first())
    } else {
        s
    }
}

/// `s` without its trailing white space.
pub open spec fn trim_end(s: Seq<char>) -> Seq<char>
    decreases s.len(),
{
    if s.len() > 0 && is_space(s.last()) {
        trim_end(s.drop_last())
    } else {
        s
    }
}

/// `s` without leading and trailing white space.
pub open spec fn trim(s: Seq<char>) -> Seq<char> {
    trim_end(trim_start(s))
}

/// Whether `c` is an ASCII decimal digit.
pub open spec fn is_digit(c: char) -> bool {
    '0' <= c && c <= '9'
}

/// The value of the ASCII digit `c`.
pub open spec fn digit_value(c: char) -> nat {
    (c as u32 - '0' as u32) as nat
}

/// The value of a run of decimal digits.
pub open spec fn digits_value(s: Seq<char>) -> nat
    decreases s.len(),
{
    if s.len() == 0 {
        0
    } else {
        digits_value(s.drop_last()) * 10 + digit_value(s.last())
    }
}

/// Whether `s` is one or more decimal digits.
pub open spec fn all_digits(s: Seq<char>) -> bool {
    s.len() > 0 && forall|i: int| 0 <= i < s.len() ==> is_digit(#[trigger] s[i])
}

/// An unsigned number as `usize` reads it: an optional `+`, then one or
/// more decimal digits, with a value that fits.
pub open spec fn parse_index(s: Seq<char>) -> Option<nat> {
    let body = if s.len() > 0 && s[0] == '+' {
        s.drop_first()
    } else {
        s
    };
    if all_digits(body) && digits_value(body) <= usize::MAX {
        Some(digits_value(body))
    } else {
        None
    }
}

/// The prefix of a highlight line.
pub open spec fn highlight_prefix() -> Seq<char> {
    seq!['H', 'I', 'G', 'H', 'L', 'I', 'G', 'H', 'T', ' ']
}

/// Whether `s` is `QUIT` in any mix of ASCII cases.
pub open spec fn is_quit_word(s: Seq<char>) -> bool {
    &&& s.len() == 4
    &&& (s[0] == 'Q' || s[0] == 'q')
    &&& (s[1] == 'U' || s[1] == 'u')
    &&& (s[2] == 'I' || s[2] == 'i')
    &&& (s[3] == 'T' || s[3] == 't')
}

/// The command for a trimmed line `trimmed` whose uppercase form is `upper`.
pub open spec fn command_of(trimmed: Seq<char>, upper: Seq<char>) -> RendererCommand {
    if upper.len() >= 10 && upper.take(10) == highlight_prefix() {
        match parse_index(trim(upper.skip(10))) {
            Some(n) => RendererCommand::Highlight(n as usize),
            None => RendererCommand::InvalidIndex,
        }
    } else if is_quit_word(trimmed) {
        RendererCommand::Quit
    } else {
        RendererCommand::Unexpected
    }
}

/// What `str::to_uppercase` makes of a string.
pub uninterp spec fn upper_of(s: Seq<char>) -> Seq<char>;

/// Relies on `str::to_uppercase`: its result depends on the characters of
/// `s` alone.
#[verifier::external_body]
fn uppercase(s: &str) -> (r: String)
    ensures
        r@ == upper_of(s@),
{
    s.to_uppercase()
}

/// Whether `c` has the Unicode White_Space property, as
/// `char::is_whitespace` decides it.
pub fn is_whitespace(c: char) -> (r: bool)
    ensures
        r == is_space(c),
{
    ('\u{9}' <= c && c <= '\u{d}') || c == ' ' || c == '\u{85}' || c == '\u{a0}' || c
        == '\u{1680}' || ('\u{2000}' <= c && c <= '\u{200a}') || c == '\u{2028}' || c
        == '\u{2029}' || c == '\u{202f}' || c == '\u{205f}' || c == '\u{3000}'
}

proof fn lemma_trim_start_at(s: Seq<char>, i: int)
    requires
        0 <= i <= s.len(),
        forall|j: int| 0 <= j < i ==> is_space(#[trigger] s[j]),
    ensures
        trim_start(s) == trim_start(s.skip(i)),
    decreases i,
{
    if i > 0 {
        assert(s.skip(1) =~= s.drop_first());
        assert forall|j: int| 0 <= j < i - 1 implies is_space(#[trigger] s.drop_first()[j]) by {
            assert(s.drop_first()[j] == s[j + 1]);
        }
        lemma_trim_start_at(s.drop_first(), i - 1);
        assert(s.drop_first().skip(i - 1) =~= s.skip(i));
    } else {
        assert(s.skip(0) =~= s);
    }
}

proof fn lemma_trim_end_at(s: Seq<char>, k: int)
    requires
        0 <= k <= s.len(),
        forall|j: int| k <= j < s.len() ==> is_space(#[trigger] s[j]),
    ensures
        trim_end(s) == trim_end(s.take(k)),
    decreases s.len() - k,
{
    if k < s.len() {
        assert forall|j: int| k <= j < s.drop_last().len() implies is_space(
            #[trigger] s.drop_last()[j],
        ) by {
            assert(s.drop_last()[j] == s[j]);
        }
        lemma_trim_end_at(s.drop_last(), k);
        assert(s.drop_last().take(k) =~= s.take(k));
    } else {
        assert(s.take(k) =~= s);
    }
}

/// `s` without leading and trailing white space, as `str::trim` gives it.
pub fn trim_str(s: &str) -> (r: &str)
    ensures
        r@ == trim(s@),
{
    let n = s.unicode_len();
    let mut lo: usize = 0;
    while lo < n && is_whitespace(s.get_char(lo))
        invariant
            n == s@.len(),
            0 <= lo <= n,
            forall|j: int| 0 <= j < lo ==> is_space(#[trigger] s@[j]),
        decreases n - lo,
    {
        lo = lo + 1;
    }
    proof {
        lemma_trim_start_at(s@, lo as int);
        if lo < n {
            assert(s@.skip(lo as int)[0] == s@[lo as int]);
        }
    }
    let mut hi: usize = n;
    while hi > lo && is_whitespace(s.get_char(hi - 1))
        invariant
            n == s@.len(),
            0 <= lo <= hi <= n,
            forall|j: int| hi <= j < n ==> is_space(#[trigger] s@[j]),
        decreases hi,
    {
        hi = hi - 1;
    }
    let ghost rest = s@.skip(lo as int);
    proof {
        assert(trim_start(s@) == rest);
        assert forall|j: int| (hi - lo) <= j < rest.len() implies is_space(#[trigger] rest[j]) by {
            assert(rest[j] == s@[j + lo]);
        }
        lemma_trim_end_at(rest, (hi - lo) as int);
        if hi > lo {
            assert(rest.take((hi - lo) as int).last() == s@[hi - 1]);
        }
        assert(rest.take((hi - lo) as int) =~= s@.subrange(lo as int, hi as int));
    }
    s.substring_char(lo, hi)
}

proof fn lemma_digits_prefix_monotone(s: Seq<char>, k: int)
    requires
        0 <= k <= s.len(),
    ensures
        digits_value(s.take(k)) <= digits_value(s),
    decreases s.len() - k,
{
    if k < s.len() {
        lemma_digits_prefix_monotone(s.drop_last(), k);
        assert(s.drop_last().take(k) =~= s.take(k));
    } else {
        assert(s.take(k) =~= s);
    }
}

/// Reads an unsigned number the way `usize`'s `FromStr` does.
pub fn parse_usize(s: &str) -> (r: Option<usize>)
    ensures
        r == match parse_index(s@) {
            Some(n) => Some(n as usize),
            None => None::<usize>,
        },
{
    let n = s.unicode_len();
    let start: usize = if n > 0 && s.get_char(0) == '+' {
        1
    } else {
        0
    };
    let ghost body = if s@.len() > 0 && s@[0] == '+' {
        s@.drop_first()
    } else {
        s@
    };
    assert(body =~= s@.skip(start as int));
    if start == n {
        return None;
    }
    let mut value: usize = 0;
    let mut i: usize = start;
    while i < n
        invariant
            n == s@.len(),
            body == s@.skip(start as int),
            body == if s@.len() > 0 && s@[0] == '+' {
                s@.drop_first()
            } else {
                s@
            },
            start <= i <= n,
            start < n,
            value as nat == digits_value(body.take(i - start)),
            forall|j: int| 0 <= j < i - start ==> is_digit(#[trigger] body[j]),
        decreases n - i,
    {
        let c = s.get_char(i);
        let ghost k = i - start;
        assert(body[k] == c);
        assert(body.take(k + 1).drop_last() =~= body.take(k));
        if !('0' <= c && c <= '9') {
            assert(!is_digit(body[k as int]));
            assert(!all_digits(body));
            assert(parse_index(s@) is None);
            return None;
        }
        let d = (c as u32 - '0' as u32) as usize;
        if value > (usize::MAX - d) / 10 {
            proof {
                assert(digits_value(body.take(k + 1)) == value * 10 + d);
                assert(value * 10 + d > usize::MAX) by (nonlinear_arith)
                    requires
                        value > (usize::MAX - d) / 10,
                        d <= 9,
                ;
                lemma_digits_prefix_monotone(body, k + 1);
                assert(digit_value(c) == d);
                assert(digits_value(body) > usize::MAX);
                assert(parse_index(s@) is None);
            }
            return None;
        }
        assert(value * 10 + d <= usize::MAX) by (nonlinear_arith)
            requires
                value <= (usize::MAX - d) / 10,
                d <= 9,
        ;
        value = value * 10 + d;
        i = i + 1;
    }
    assert(body.take(n - start) =~= body);
    Some(value)
}

/// Whether `s` starts with the highlight prefix.
fn has_highlight_prefix(s: &str) -> (r: bool)
    ensures
        r == (s@.len() >= 10 && s@.take(10) == highlight_prefix()),
{
    let n = s.unicode_len();
    if n < 10 {
        return false;
    }
    let prefix: [char; 10] = ['H', 'I', 'G', 'H', 'L', 'I', 'G', 'H', 'T', ' '];
    assert(prefix@ =~= highlight_prefix());
    let mut i: usize = 0;
    while i < 10
        invariant
            n == s@.len(),
            n >= 10,
            prefix@ == highlight_prefix(),
            0 <= i <= 10,
            forall|j: int| 0 <= j < i ==> s@[j] == #[trigger] prefix@[j],
        decreases 10 - i,
    {
        if s.get_char(i) != prefix[i] {
            assert(s@.take(10)[i as int] != highlight_prefix()[i as int]);
            return false;
        }
        i = i + 1;
    }
    assert(s@.take(10) =~= highlight_prefix());
    true
}

fn is_quit(s: &str) -> (r: bool)
    ensures
        r == is_quit_word(s@),
{
    if s.unicode_len() != 4 {
        return false;
    }
    let c0 = s.get_char(0);
    let c1 = s.get_char(1);
    let c2 = s.get_char(2);
    let c3 = s.get_char(3);
    (c0 == 'Q' || c0 == 'q') && (c1 == 'U' || c1 == 'u') && (c2 == 'I' || c2 == 'i') && (c3 == 'T'
        || c3 == 't')
}

/// The command for a trimmed line, given also its uppercase form.
pub fn parse_trimmed(trimmed: &str, upper: &str) -> (r: RendererCommand)
    ensures
        r == command_of(trimmed@, upper@),
{
    if has_highlight_prefix(upper) {
        let n = upper.unicode_len();
        let rest = upper.substring_char(10, n);
        assert(rest@ =~= upper@.skip(10));
        match parse_usize(trim_str(rest)) {
            Some(idx) => RendererCommand::Highlight(idx),
            None => RendererCommand::InvalidIndex,
        }
    } else if is_quit(trimmed) {
        RendererCommand::Quit
    } else {
        RendererCommand::Unexpected
    }
}

/// The command that one received line asks for. The line is trimmed;
/// the highlight prefix is matched in any case and its index trimmed too;
/// `QUIT` is matched in any ASCII case.
pub fn parse_command(line: &str) -> (r: RendererCommand)
    ensures
        r == command_of(trim(line@), upper_of(trim(line@))),
{
    let trimmed = trim_str(line);
    let upper = uppercase(trimmed);
    parse_trimmed(trimmed, upper.as_str())
}

proof fn lemma_digit_char(d: nat)
    requires
        d < 10,
    ensures
        is_digit(digit_char(d)),
        !is_space(digit_char(d)),
        digit_char(d) != '+',
        digit_value(digit_char(d)) == d,
{
}

proof fn lemma_decimal_digits(n: nat)
    ensures
        all_digits(decimal(n)),
        digits_value(decimal(n)) == n,
    decreases n,
{
    if n < 10 {
        lemma_digit_char(n);
        let s = decimal(n);
        assert(s.drop_last() =~= Seq::<char>::empty());
        assert(digits_value(s.drop_last()) == 0);
    } else {
        lemma_decimal_digits(n / 10);
        lemma_digit_char(n % 10);
        assert(n == (n / 10) * 10 + n % 10) by (nonlinear_arith);
        let s = decimal(n);
        assert(s == decimal(n / 10).push(digit_char(n % 10)));
        assert(s.last() == digit_char(n % 10));
        assert(s.drop_last() =~= decimal(n / 10));
        assert(digits_value(s) == digits_value(s.drop_last()) * 10 + digit_value(s.last()));
        assert(s.drop_last() =~= decimal(n / 10));
        assert forall|i: int| 0 <= i < s.len() implies is_digit(#[trigger] s[i]) by {
            if i < s.len() - 1 {
                assert(s[i] == decimal(n / 10)[i]);
            }
        }
    }
}

proof fn lemma_no_space_trim(s: Seq<char>)
    requires
        s.len() > 0,
        !is_space(s[0]),
        !is_space(s.last()),
    ensures
        trim(s) == s,
{
}

/// A highlight line, read back by a renderer whose upper-casing leaves the
/// line as it is (it holds no lowercase letter), asks for the index it
/// was written with.
pub proof fn lemma_highlight_round_trip(idx: usize)
    ensures
        command_of(trim(highlight_text(idx as nat)), trim(highlight_text(idx as nat)))
            == RendererCommand::Highlight(idx),
{
    reveal_strlit("HIGHLIGHT ");
    reveal_strlit("\n");
    let digits = decimal(idx as nat);
    lemma_decimal_digits(idx as nat);
    let body = highlight_prefix() + digits;
    let line = highlight_text(idx as nat);
    assert(line =~= body.push('\n'));
    assert(line.drop_last() =~= body);
    assert(is_digit(digits[0]));
    assert(is_digit(digits.last()));
    assert(body.last() == digits.last());
    assert(trim_start(line) == line);
    assert(trim_end(line) == trim_end(body));
    lemma_no_space_trim(body);
    assert(trim(line) == body);
    assert(body.take(10) =~= highlight_prefix());
    assert(body.skip(10) =~= digits);
    lemma_no_space_trim(digits);
    assert(digits[0] != '+');
}

/// A quit line, read back by a renderer whose upper-casing leaves the line
/// as it is, asks the renderer to stop.
pub proof fn lemma_quit_round_trip()
    ensures
        command_of(trim(quit_text()), trim(quit_text())) == RendererCommand::Quit,
{
    reveal_strlit("QUIT\n");
    let line = quit_text();
    let word = line.drop_last();
    assert(trim_start(line) == line);
    assert(trim_end(line) == trim_end(word));
    assert(trim_end(word) == word);
    assert(word.take(4) == word);
    assert(word.len() < 10);
}

} // verus!
