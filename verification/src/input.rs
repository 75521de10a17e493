//! What a line typed by the player means.
//!
//! A line is first stripped of surrounding whitespace. What is left is either
//! the quit keyword, the one-based number of an option on offer, a number
//! that names no option, or something that is no number at all.

use vstd::prelude::*;
use crate::text::decimal;

verus! {

/// The characters that count as whitespace: the Unicode `White_Space` set.
pub open spec fn is_space(c: char) -> bool {
    let u = c as u32;
    ||| 0x09 <= u <= 0x0D
    ||| u == 0x20
    ||| u == 0x85
    ||| u == 0xA0
    ||| u == 0x1680
    ||| 0x2000 <= u <= 0x200A
    ||| u == 0x2028
    ||| u == 0x2029
    ||| u == 0x202F
    ||| u == 0x205F
    ||| u == 0x3000
}

/// `s` without the whitespace at its start.
pub open spec fn trim_start(s: Seq<char>) -> Seq<char>
    decreases s.len(),
{
    if s.len() > 0 && is_space(s[0]) {
        trim_start(s.drop_first())
    } else {
        s
    }
}

/// `s` without the whitespace at its end.
pub open spec fn trim_end(s: Seq<char>) -> Seq<char>
    decreases s.len(),
{
    if s.len() > 0 && is_space(s.last()) {
        trim_end(s.drop_last())
    } else {
        s
    }
}

/// `s` without the whitespace at either end.
pub open spec fn trimmed(s: Seq<char>) -> Seq<char> {
    trim_end(trim_start(s))
}

/// The ten ASCII digits.
pub open spec fn is_digit(c: char) -> bool {
    '0' <= c <= '9'
}

/// The number that a digit stands for.
pub open spec fn digit_value(c: char) -> nat {
    (c as u32 - '0' as u32) as nat
}

/// Whether `s` holds digits and nothing else.
pub open spec fn all_digits(s: Seq<char>) -> bool {
    forall|i: int| 0 <= i < s.len() ==> is_digit(#[trigger] s[i])
}

/// The number that a run of digits writes in base ten; 0 for the empty run.
pub open spec fn digits_value(s: Seq<char>) -> nat
    decreases s.len(),
{
    if s.len() == 0 {
        0
    } else {
        digits_value(s.drop_last()) * 10 + digit_value(s.last())
    }
}

/// The number that `s` writes, if it writes one: an optional `+`, then one
/// digit or more, and nothing else.
pub open spec fn unsigned_text(s: Seq<char>) -> Option<nat> {
    let body = if s.len() > 0 && s[0] == '+' {
        s.drop_first()
    } else {
        s
    };
    if body.len() > 0 && all_digits(body) {
        Some(digits_value(body))
    } else {
        None
    }
}

/// What the player asked for with one line of input.
#[derive(Clone, Copy, Debug, PartialEq, Eq, Structural)]
pub enum PlayerChoice {
    /// The player wants to stop.
    Quit,
    /// The player picked the option at this zero-based place among those on
    /// offer.
    Chosen(usize),
    /// The line is neither the quit keyword nor a number.
    BadFormat,
    /// The line is a number, but no option on offer has it.
    OutOfRange,
}

/// The meaning of `line` when `optcount` options are on offer.
///
/// The quit keyword is `q`, in either case. A number counts as one only if
/// it fits the machine's word; the options are numbered from 1.
pub open spec fn classify(line: Seq<char>, optcount: nat) -> PlayerChoice {
    let word = trimmed(line);
    if word == seq!['q'] || word == seq!['Q'] {
        PlayerChoice::Quit
    } else {
        match unsigned_text(word) {
            None => PlayerChoice::BadFormat,
            Some(n) => if n > usize::MAX {
                PlayerChoice::BadFormat
            } else if 1 <= n <= optcount {
                PlayerChoice::Chosen((n - 1) as usize)
            } else {
                PlayerChoice::OutOfRange
            },
        }
    }
}

/// Once the whitespace in front is known, so is `trim_start`.
pub proof fn lemma_trim_start_is_suffix(s: Seq<char>, a: int)
    requires
        0 <= a <= s.len(),
        forall|i: int| 0 <= i < a ==> is_space(#[trigger] s[i]),
        a < s.len() ==> !is_space(s[a]),
    ensures
        trim_start(s) == s.subrange(a, s.len() as int),
    decreases a,
{
    if a > 0 {
        lemma_trim_start_is_suffix(s.drop_first(), a - 1);
    }
}

/// Once the whitespace at the end is known, so is `trim_end`.
pub proof fn lemma_trim_end_is_prefix(s: Seq<char>, b: int)
    requires
        0 <= b <= s.len(),
        forall|i: int| b <= i < s.len() ==> is_space(#[trigger] s[i]),
        0 < b ==> !is_space(s[b - 1]),
    ensures
        trim_end(s) == s.subrange(0, b),
    decreases s.len() - b,
{
    if b < s.len() {
        lemma_trim_end_is_prefix(s.drop_last(), b);
    }
}

/// Whether `s` holds whitespace and nothing else.
pub open spec fn all_spaces(s: Seq<char>) -> bool {
    forall|i: int| 0 <= i < s.len() ==> is_space(#[trigger] s[i])
}

/// Trimming takes away exactly the whitespace around a word: if `word`
/// neither starts nor ends with whitespace, and `before` and `after` hold
/// nothing else, then what is left of the three in a row is `word`.
pub proof fn lemma_trimmed_strips(before: Seq<char>, word: Seq<char>, after: Seq<char>)
    requires
        all_spaces(before),
        all_spaces(after),
        word.len() > 0 ==> !is_space(word[0]) && !is_space(word.last()),
    ensures
        trimmed(before + word + after) == word,
{
    let line = before + word + after;
    if word.len() == 0 {
        lemma_trim_start_is_suffix(line, line.len() as int);
    } else {
        let tail = word + after;
        lemma_trim_start_is_suffix(line, before.len() as int);
        assert(line.subrange(before.len() as int, line.len() as int) =~= tail);
        lemma_trim_end_is_prefix(tail, word.len() as int);
    }
}

/// The quit keyword is understood in either case, with any whitespace
/// around it, and whatever the number of options on offer.
pub proof fn lemma_quit_is_recognized(
    before: Seq<char>,
    upper_case: bool,
    after: Seq<char>,
    optcount: nat,
)
    requires
        all_spaces(before),
        all_spaces(after),
    ensures
        classify(
            before + seq![
                if upper_case {
                    'Q'
                } else {
                    'q'
                },
            ] + after,
            optcount,
        ) == PlayerChoice::Quit,
{
    let word = seq![
        if upper_case {
            'Q'
        } else {
            'q'
        },
    ];
    lemma_trimmed_strips(before, word, after);
}

/// Whether a line asks to quit does not depend on how many options are on
/// offer.
pub proof fn lemma_quit_whatever_the_count(line: Seq<char>, optcount: nat, other: nat)
    ensures
        classify(line, optcount) == PlayerChoice::Quit <==> classify(line, other)
            == PlayerChoice::Quit,
{
}

/// A line picks an option only if that option is on offer: the place it
/// gives lies below the number of options.
pub proof fn lemma_chosen_is_on_offer(line: Seq<char>, optcount: nat)
    ensures
        classify(line, optcount) matches PlayerChoice::Chosen(i) ==> i < optcount,
{
}

/// A number written in base ten is a run of digits that is worth the
/// number, and reads back as the number.
pub proof fn lemma_decimal_reads_back(n: nat)
    ensures
        decimal(n).len() > 0,
        all_digits(decimal(n)),
        digits_value(decimal(n)) == n,
        unsigned_text(decimal(n)) == Some(n),
        trimmed(decimal(n)) == decimal(n),
    decreases n,
{
    let text = decimal(n);
    if n < 10 {
        assert(digits_value(text.drop_last()) == 0);
    } else {
        lemma_decimal_reads_back(n / 10);
        assert(text.drop_last() =~= decimal(n / 10));
    }
    lemma_trimmed_strips(Seq::empty(), text, Seq::empty());
}

/// The number shown beside an option picks that option: with `optcount`
/// options on offer, typing the number of the option at zero-based place
/// `place` chooses it.
pub proof fn lemma_number_shown_picks_option(place: usize, optcount: usize)
    requires
        place < optcount,
    ensures
        classify(decimal((place + 1) as nat), optcount as nat) == PlayerChoice::Chosen(place),
{
    lemma_decimal_reads_back((place + 1) as nat);
}

/// A run of digits is worth at least as much as any run it starts with.
pub proof fn lemma_prefix_value_le(s: Seq<char>, k: int)
    requires
        0 <= k <= s.len(),
    ensures
        digits_value(s.subrange(0, k)) <= digits_value(s),
    decreases s.len(),
{
    if k == s.len() {
        assert(s.subrange(0, k) =~= s);
    } else {
        lemma_prefix_value_le(s.drop_last(), k);
        assert(s.drop_last().subrange(0, k) =~= s.subrange(0, k));
    }
}

/// The characters of `s`, one by one.
pub fn chars_of(s: &str) -> (v: Vec<char>)
    ensures
        v@ == s@,
{
    let mut v: Vec<char> = Vec::new();
    for c in it: s.chars()
        invariant
            it.seq() == s@,
            v@ == it.seq().subrange(0, it.index() as int),
    {
        v.push(c);
    }
    v
}

/// Whether `c` counts as whitespace.
pub fn is_whitespace(c: char) -> (res: bool)
    ensures
        res == is_space(c),
{
    let u: u32 = c as u32;
    (0x09 <= u && u <= 0x0D) || u == 0x20 || u == 0x85 || u == 0xA0 || u == 0x1680 || (0x2000 <= u
        && u <= 0x200A) || u == 0x2028 || u == 0x2029 || u == 0x202F || u == 0x205F || u == 0x3000
}

/// Reads the number that `word` writes, if it fits the machine's word.
pub fn parse_unsigned(word: &Vec<char>) -> (res: Option<usize>)
    ensures
        res == match unsigned_text(word@) {
            Some(n) if n <= usize::MAX => Some(n as usize),
            _ => None,
        },
{
    let n: usize = word.len();
    let start: usize = if n > 0 && word[0] == '+' {
        1
    } else {
        0
    };
    let ghost body = if word@.len() > 0 && word@[0] == '+' {
        word@.drop_first()
    } else {
        word@
    };
    if start == n {
        return None;
    }
    let mut value: usize = 0;
    let mut i: usize = start;
    while i < n
        invariant
            start <= i <= n,
            n == word@.len(),
            body == word@.subrange(start as int, n as int),
            unsigned_text(word@) == if all_digits(body) {
                Some(digits_value(body))
            } else {
                None
            },
            all_digits(body.subrange(0, i - start)),
            value == digits_value(body.subrange(0, i - start)),
        decreases n - i,
    {
        let c: char = word[i];
        let ghost seen = body.subrange(0, i - start);
        let ghost next = body.subrange(0, i - start + 1);
        if !('0' <= c && c <= '9') {
            return None;
        }
        let digit: usize = (c as u32 - '0' as u32) as usize;
        proof {
            assert(next.drop_last() =~= seen);
            lemma_prefix_value_le(body, i - start + 1);
        }
        let grown: usize = match value.checked_mul(10) {
            Some(tens) => match tens.checked_add(digit) {
                Some(sum) => sum,
                None => { return None; },
            },
            None => { return None; },
        };
        value = grown;
        i += 1;
    }
    assert(body.subrange(0, n - start) =~= body);
    Some(value)
}

/// Decides what one line of input asks for while `optcount` options are on
/// offer.
pub fn parse_choice(line: &str, optcount: usize) -> (res: PlayerChoice)
    ensures
        res == classify(line@, optcount as nat),
{
    let cs = chars_of(line);
    let n: usize = cs.len();
    let mut a: usize = 0;
    while a < n && is_whitespace(cs[a])
        invariant
            a <= n,
            n == cs@.len(),
            forall|i: int| 0 <= i < a ==> is_space(#[trigger] cs@[i]),
        decreases n - a,
    {
        a += 1;
    }
    let mut b: usize = n;
    while b > a && is_whitespace(cs[b - 1])
        invariant
            a <= b <= n,
            n == cs@.len(),
            forall|i: int| b <= i < n ==> is_space(#[trigger] cs@[i]),
        decreases b,
    {
        b -= 1;
    }
    let ghost tail = cs@.subrange(a as int, n as int);
    let ghost word_view = cs@.subrange(a as int, b as int);
    proof {
        lemma_trim_start_is_suffix(cs@, a as int);
        lemma_trim_end_is_prefix(tail, b - a);
        assert(trimmed(line@) == word_view);
    }
    let mut word: Vec<char> = Vec::new();
    let mut i: usize = a;
    while i < b
        invariant
            a <= i <= b <= n,
            n == cs@.len(),
            word@ == cs@.subrange(a as int, i as int),
        decreases b - i,
    {
        word.push(cs[i]);
        i += 1;
    }
    if word.len() == 1 && (word[0] == 'q' || word[0] == 'Q') {
        assert(word@ =~= seq![word@[0]]);
        return PlayerChoice::Quit;
    }
    assert(word@ != seq!['q'] && word@ != seq!['Q']);
    match parse_unsigned(&word) {
        None => PlayerChoice::BadFormat,
        Some(number) => {
            if 1 <= number && number <= optcount {
                PlayerChoice::Chosen(number - 1)
            } else {
                PlayerChoice::OutOfRange
            }
        },
    }
}

} // verus!
