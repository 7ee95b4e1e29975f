//! The scalar types an input can hold, and the conversion of a token into each.

use vstd::prelude::*;
use crate::text::{chars_of, same_word, str_eq, words_match};

verus! {

/// A converted value.
#[derive(Debug, Clone, PartialEq, Eq)]
pub enum Value {
    Str(String),
    Int(i32),
    Bool(bool),
    /// The position of the chosen word in the list its kind was declared with.
    Choice(usize),
}

/// The mathematical content of a [`Value`].
pub enum Datum {
    Str(Seq<char>),
    Int(int),
    Bool(bool),
    Choice(int),
}

impl View for Value {
    type V = Datum;

    open spec fn view(&self) -> Datum {
        match self {
            Value::Str(s) => Datum::Str(s@),
            Value::Int(n) => Datum::Int(*n as int),
            Value::Bool(b) => Datum::Bool(*b),
            Value::Choice(i) => Datum::Choice(*i as int),
        }
    }
}

/// The type of an input: which tokens convert, and into what.
#[derive(Debug, Clone, PartialEq, Eq)]
pub enum ValueKind {
    /// Any text.
    Str,
    /// A decimal number that fits 32 signed bits.
    Int,
    /// `true` or `false`.
    Bool,
    /// One of a list of words, matched without regard to the case of `a` to `z`.
    Choice(Vec<String>),
}

/// The mathematical content of a [`ValueKind`].
pub enum Domain {
    Str,
    Int,
    Bool,
    Choice(Seq<Seq<char>>),
}

impl View for ValueKind {
    type V = Domain;

    open spec fn view(&self) -> Domain {
        match self {
            ValueKind::Str => Domain::Str,
            ValueKind::Int => Domain::Int,
            ValueKind::Bool => Domain::Bool,
            ValueKind::Choice(words) => Domain::Choice(words.deep_view()),
        }
    }
}

/// Whether `c` is one of the digits `0` to `9`.
pub open spec fn is_digit(c: char) -> bool {
    '0' <= c && c <= '9'
}

/// Whether `s` holds digits only.
pub open spec fn all_digits(s: Seq<char>) -> bool {
    forall|i: int| 0 <= i < s.len() ==> is_digit(#[trigger] s[i])
}

/// The number written by the decimal digits `s`, most significant first.
pub open spec fn digits_value(s: Seq<char>) -> int
    decreases s.len(),
{
    if s.len() == 0 {
        0
    } else {
        digits_value(s.drop_last()) * 10 + (s.last() as int - '0' as int)
    }
}

/// Whether `s` begins with a sign.
pub open spec fn signed(s: Seq<char>) -> bool {
    s.len() > 0 && (s[0] == '-' || s[0] == '+')
}

/// The digits of `s`: all of it but a leading sign.
pub open spec fn magnitude(s: Seq<char>) -> Seq<char> {
    if signed(s) {
        s.skip(1)
    } else {
        s
    }
}

/// The number that `s` writes in decimal: an optional sign, then one digit at
/// least and nothing else. `None` where `s` has another shape or the number
/// does not fit 32 signed bits.
pub open spec fn decimal(s: Seq<char>) -> Option<int> {
    let body = magnitude(s);
    let v = if s.len() > 0 && s[0] == '-' {
        -digits_value(body)
    } else {
        digits_value(body)
    };
    if body.len() > 0 && all_digits(body) && i32::MIN <= v <= i32::MAX {
        Some(v)
    } else {
        None
    }
}

/// The position of the first word at or after `from` that matches `token`.
pub open spec fn choice_from(words: Seq<Seq<char>>, token: Seq<char>, from: int) -> Option<int>
    decreases words.len() - from,
{
    if from < 0 || from >= words.len() {
        None
    } else if same_word(words[from], token) {
        Some(from)
    } else {
        choice_from(words, token, from + 1)
    }
}

/// What `token` converts to under `kind`, if it converts.
pub open spec fn convert(kind: Domain, token: Seq<char>) -> Option<Datum> {
    match kind {
        Domain::Str => Some(Datum::Str(token)),
        Domain::Int => match decimal(token) {
            Some(v) => Some(Datum::Int(v)),
            None => None,
        },
        Domain::Bool => if token == "true"@ {
            Some(Datum::Bool(true))
        } else if token == "false"@ {
            Some(Datum::Bool(false))
        } else {
            None
        },
        Domain::Choice(words) => match choice_from(words, token, 0) {
            Some(i) => Some(Datum::Choice(i)),
            None => None,
        },
    }
}

/// Whether `d` is a value of the kind: of its type, a number within 32 signed
/// bits, a position within the list of words.
pub open spec fn belongs(kind: Domain, d: Datum) -> bool {
    match (kind, d) {
        (Domain::Str, Datum::Str(_)) => true,
        (Domain::Int, Datum::Int(v)) => i32::MIN <= v <= i32::MAX,
        (Domain::Bool, Datum::Bool(_)) => true,
        (Domain::Choice(words), Datum::Choice(i)) => 0 <= i < words.len(),
        _ => false,
    }
}

/// Where a word is found, it is found within the list.
pub proof fn lemma_choice_in_range(words: Seq<Seq<char>>, token: Seq<char>, from: int)
    requires
        0 <= from,
    ensures
        choice_from(words, token, from) matches Some(i) ==> from <= i < words.len() && same_word(
            words[i],
            token,
        ),
    decreases words.len() - from,
{
    if from < words.len() && !same_word(words[from], token) {
        lemma_choice_in_range(words, token, from + 1);
    }
}

/// What a token converts to is a value of the kind.
pub proof fn lemma_convert_belongs(kind: Domain, token: Seq<char>)
    ensures
        convert(kind, token) matches Some(d) ==> belongs(kind, d),
{
    if let Domain::Choice(words) = kind {
        lemma_choice_in_range(words, token, 0);
    }
}

/// The value a flag of this kind has when no token gave it one.
pub open spec fn fallback(kind: Domain) -> Datum {
    match kind {
        Domain::Str => Datum::Str(Seq::empty()),
        Domain::Int => Datum::Int(0),
        Domain::Bool => Datum::Bool(false),
        Domain::Choice(_) => Datum::Choice(0),
    }
}

/// A prefix of a digit string writes no larger a number than the whole.
pub proof fn lemma_digits_monotone(s: Seq<char>, k: int)
    requires
        all_digits(s),
        0 <= k <= s.len(),
    ensures
        0 <= digits_value(s.take(k)) <= digits_value(s),
    decreases s.len() - k,
{
    lemma_digits_nonnegative(s.take(k));
    if k < s.len() {
        lemma_digits_monotone(s, k + 1);
        assert(s.take(k + 1).drop_last() =~= s.take(k));
    } else {
        assert(s.take(k) =~= s);
    }
}

/// A digit string writes a number that is not negative.
pub proof fn lemma_digits_nonnegative(s: Seq<char>)
    requires
        all_digits(s),
    ensures
        0 <= digits_value(s),
    decreases s.len(),
{
    if s.len() > 0 {
        lemma_digits_nonnegative(s.drop_last());
    }
}

/// Converts a decimal number.
pub fn parse_i32(token: &str) -> (r: Option<i32>)
    ensures
        match r {
            Some(v) => decimal(token@) == Some(v as int),
            None => decimal(token@) is None,
        },
{
    let chars = chars_of(token);
    let n = chars.len();
    if n == 0 {
        return None;
    }
    let negative = chars[0] == '-';
    let start: usize = if chars[0] == '-' || chars[0] == '+' { 1 } else { 0 };
    if start == n {
        return None;
    }
    let ghost body = magnitude(token@);
    let mut acc: i64 = 0;
    let mut i: usize = start;
    while i < n
        invariant
            start <= i <= n,
            n == chars.len(),
            chars@ == token@,
            body == chars@.skip(start as int),
            body == magnitude(token@),
            all_digits(body.take(i - start)),
            acc == digits_value(body.take(i - start)),
            0 <= acc <= 2147483648,
        decreases n - i,
    {
        let c = chars[i];
        if !('0' <= c && c <= '9') {
            assert(body[i - start] == c);
            return None;
        }
        let d: i64 = (c as u32 - '0' as u32) as i64;
        assert(body.take(i - start + 1).drop_last() =~= body.take(i - start));
        acc = acc * 10 + d;
        if acc > 2147483648 {
            proof {
                if all_digits(body) {
                    lemma_digits_monotone(body, i - start + 1);
                }
            }
            return None;
        }
        i = i + 1;
    }
    assert(body.take(n - start) =~= body);
    if negative {
        Some((-acc) as i32)
    } else if acc == 2147483648 {
        None
    } else {
        Some(acc as i32)
    }
}

impl Value {
    /// A copy of this value.
    pub fn duplicate(&self) -> (r: Value)
        ensures
            r@ == self@,
    {
        match self {
            Value::Str(s) => Value::Str(s.clone()),
            Value::Int(n) => Value::Int(*n),
            Value::Bool(b) => Value::Bool(*b),
            Value::Choice(i) => Value::Choice(*i),
        }
    }
}

/// Finds the first word that matches `token`.
pub fn find_choice(words: &Vec<String>, token: &str) -> (r: Option<usize>)
    ensures
        match r {
            Some(i) => choice_from(words.deep_view(), token@, 0) == Some(i as int),
            None => choice_from(words.deep_view(), token@, 0) is None,
        },
{
    let mut i: usize = 0;
    while i < words.len()
        invariant
            i <= words.len(),
            choice_from(words.deep_view(), token@, 0) == choice_from(
                words.deep_view(),
                token@,
                i as int,
            ),
        decreases words.len() - i,
    {
        if words_match(words[i].as_str(), token) {
            return Some(i);
        }
        i = i + 1;
    }
    None
}

impl ValueKind {
    /// Converts `token` into a value of this kind.
    pub fn convert(&self, token: &str) -> (r: Option<Value>)
        ensures
            match r {
                Some(v) => convert(self@, token@) == Some(v@),
                None => convert(self@, token@) is None,
            },
    {
        match self {
            ValueKind::Str => Some(Value::Str(String::from_str(token))),
            ValueKind::Int => match parse_i32(token) {
                Some(n) => Some(Value::Int(n)),
                None => None,
            },
            ValueKind::Bool => if str_eq(token, "true") {
                Some(Value::Bool(true))
            } else if str_eq(token, "false") {
                Some(Value::Bool(false))
            } else {
                None
            },
            ValueKind::Choice(words) => match find_choice(words, token) {
                Some(i) => Some(Value::Choice(i)),
                None => None,
            },
        }
    }

    /// The value a flag of this kind has when no token gave it one.
    pub fn fallback(&self) -> (r: Value)
        ensures
            r@ == fallback(self@),
    {
        match self {
            ValueKind::Str => Value::Str(String::new()),
            ValueKind::Int => Value::Int(0),
            ValueKind::Bool => Value::Bool(false),
            ValueKind::Choice(_) => Value::Choice(0),
        }
    }
}

/// The character that writes the digit `d`.
pub open spec fn digit_char(d: int) -> char {
    if d == 0 {
        '0'
    } else if d == 1 {
        '1'
    } else if d == 2 {
        '2'
    } else if d == 3 {
        '3'
    } else if d == 4 {
        '4'
    } else if d == 5 {
        '5'
    } else if d == 6 {
        '6'
    } else if d == 7 {
        '7'
    } else if d == 8 {
        '8'
    } else {
        '9'
    }
}

/// The decimal digits of `n`, most significant first, without leading zeros.
pub open spec fn digits(n: nat) -> Seq<char>
    decreases n,
{
    if n < 10 {
        seq![digit_char(n as int)]
    } else {
        digits(n / 10).push(digit_char((n % 10) as int))
    }
}

/// How a number is written: in decimal, a dash in front where it is negative.
pub open spec fn decimal_text(v: int) -> Seq<char> {
    if v < 0 {
        "-"@ + digits((-v) as nat)
    } else {
        digits(v as nat)
    }
}

/// How a value of the given kind is written, where the value is of that kind.
pub open spec fn rendered(kind: Domain, d: Datum) -> Option<Seq<char>> {
    match (kind, d) {
        (Domain::Str, Datum::Str(s)) => Some(s),
        (Domain::Int, Datum::Int(v)) => if i32::MIN <= v <= i32::MAX {
            Some(decimal_text(v))
        } else {
            None
        },
        (Domain::Bool, Datum::Bool(b)) => Some(
            if b {
                "true"@
            } else {
                "false"@
            },
        ),
        (Domain::Choice(words), Datum::Choice(i)) => if 0 <= i < words.len() {
            Some(words[i])
        } else {
            None
        },
        _ => None,
    }
}

/// The digits of a number are digits, one at least, and write that number.
pub proof fn lemma_digits(n: nat)
    ensures
        digits(n).len() > 0,
        all_digits(digits(n)),
        digits_value(digits(n)) == n,
        !signed(digits(n)),
    decreases n,
{
    if n < 10 {
        assert(digits_value(digits(n).drop_last()) == 0);
    } else {
        lemma_digits(n / 10);
        let s = digits(n);
        assert(s.drop_last() =~= digits(n / 10));
    }
}

/// Where none of the words before position `i` matches the word at `i`, the
/// word at `i` is found at `i`.
pub proof fn lemma_choice_found(words: Seq<Seq<char>>, i: int, from: int)
    requires
        0 <= from <= i < words.len(),
        forall|k: int| from <= k < i ==> !same_word(#[trigger] words[k], words[i]),
    ensures
        choice_from(words, words[i], from) == Some(i),
    decreases i - from,
{
    if from < i {
        lemma_choice_found(words, i, from + 1);
    }
}

/// A value's written form converts back to the value, for every kind.
///
/// For a choice this asks that no earlier word of the list matches the chosen
/// one: a token is converted to the first word it matches.
pub proof fn lemma_round_trip(kind: Domain, d: Datum)
    requires
        rendered(kind, d) is Some,
        kind matches Domain::Choice(words) ==> (d matches Datum::Choice(i) ==> forall|k: int|
            0 <= k < i ==> !same_word(#[trigger] words[k], words[i])),
    ensures
        convert(kind, rendered(kind, d)->0) == Some(d),
{
    match (kind, d) {
        (Domain::Int, Datum::Int(v)) => {
            let s = decimal_text(v);
            reveal_strlit("-");
            if v < 0 {
                lemma_digits((-v) as nat);
                assert(magnitude(s) =~= digits((-v) as nat));
            } else {
                lemma_digits(v as nat);
            }
        },
        (Domain::Bool, Datum::Bool(b)) => {
            reveal_strlit("true");
            reveal_strlit("false");
        },
        (Domain::Choice(words), Datum::Choice(i)) => {
            lemma_choice_found(words, i, 0);
        },
        _ => {},
    }
}

/// The text that writes one digit.
fn digit_text(d: u64) -> (r: &'static str)
    requires
        d < 10,
    ensures
        r@ == seq![digit_char(d as int)],
{
    proof {
        reveal_strlit("0");
        reveal_strlit("1");
        reveal_strlit("2");
        reveal_strlit("3");
        reveal_strlit("4");
        reveal_strlit("5");
        reveal_strlit("6");
        reveal_strlit("7");
        reveal_strlit("8");
        reveal_strlit("9");
    }
    let text = if d == 0 {
        "0"
    } else if d == 1 {
        "1"
    } else if d == 2 {
        "2"
    } else if d == 3 {
        "3"
    } else if d == 4 {
        "4"
    } else if d == 5 {
        "5"
    } else if d == 6 {
        "6"
    } else if d == 7 {
        "7"
    } else if d == 8 {
        "8"
    } else {
        "9"
    };
    text
}

/// Writes the decimal digits of `n`.
pub fn digits_text(n: u64) -> (r: String)
    ensures
        r@ == digits(n as nat),
    decreases n,
{
    if n < 10 {
        String::from_str(digit_text(n))
    } else {
        let mut out = digits_text(n / 10);
        out.append(digit_text(n % 10));
        out
    }
}

/// Writes a number in decimal.
pub fn i32_text(v: i32) -> (r: String)
    ensures
        r@ == decimal_text(v as int),
{
    if v < 0 {
        let mut out = String::from_str("-");
        out.append(digits_text((-(v as i64)) as u64).as_str());
        out
    } else {
        digits_text(v as u64)
    }
}

impl ValueKind {
    /// Writes `value` as a token that converts back to it, where the value is
    /// of this kind.
    pub fn render(&self, value: &Value) -> (r: Option<String>)
        ensures
            match r {
                Some(text) => rendered(self@, value@) == Some(text@),
                None => rendered(self@, value@) is None,
            },
    {
        match (self, value) {
            (ValueKind::Str, Value::Str(s)) => Some(s.clone()),
            (ValueKind::Int, Value::Int(v)) => Some(i32_text(*v)),
            (ValueKind::Bool, Value::Bool(b)) => Some(
                String::from_str(
                    if *b {
                        "true"
                    } else {
                        "false"
                    },
                ),
            ),
            (ValueKind::Choice(words), Value::Choice(i)) => if *i < words.len() {
                Some(words[*i].clone())
            } else {
                None
            },
            _ => None,
        }
    }
}

} // verus!
