//! Numbers as the documents write them: decimal fractions, the infinities and
//! NaN, compared exactly with small whole numbers.

use vstd::prelude::*;
use crate::text::{push_char, str_eq};

verus! {

/// The value of a sequence of decimal digits, most significant first.
pub open spec fn digits_value(d: Seq<u8>) -> nat
    decreases d.len(),
{
    if d.len() == 0 {
        0
    } else {
        digits_value(d.drop_last()) * 10 + d.last() as nat
    }
}

/// Every element is a decimal digit.
pub open spec fn all_digits(d: Seq<u8>) -> bool {
    forall|i: int| 0 <= i < d.len() ==> #[trigger] d[i] < 10
}

/// Some digit is not zero.
pub open spec fn some_nonzero(d: Seq<u8>) -> bool {
    exists|i: int| 0 <= i < d.len() && #[trigger] d[i] != 0
}

/// What a [`Number`] stands for: a finite decimal `±(whole + 0.fraction)`,
/// an infinity, or NaN.
pub enum NumberView {
    Finite { negative: bool, whole: nat, fraction: Seq<u8> },
    Infinite { negative: bool },
    NaN,
}

impl NumberView {
    /// The number is a finite zero (of either sign).
    pub open spec fn is_zero(self) -> bool {
        self matches NumberView::Finite { whole, fraction, .. } && whole == 0 && !some_nonzero(fraction)
    }

    /// `self < c`, as floating point compares it.
    pub open spec fn lt(self, c: nat) -> bool {
        match self {
            NumberView::Finite { negative, whole, fraction } =>
                (negative && !self.is_zero()) || whole < c,
            NumberView::Infinite { negative } => negative,
            NumberView::NaN => false,
        }
    }

    /// `self <= c`, as floating point compares it.
    pub open spec fn le(self, c: nat) -> bool {
        match self {
            NumberView::Finite { negative, whole, fraction } =>
                (negative && !self.is_zero()) || whole < c || (whole == c && !some_nonzero(fraction)),
            NumberView::Infinite { negative } => negative,
            NumberView::NaN => false,
        }
    }

    /// `self > c`, as floating point compares it.
    pub open spec fn gt(self, c: nat) -> bool {
        !(self is NaN) && !self.le(c)
    }

    /// `self >= c`, as floating point compares it.
    pub open spec fn ge(self, c: nat) -> bool {
        !(self is NaN) && !self.lt(c)
    }
}

#[derive(Debug, PartialEq)]
enum Repr {
    Finite { negative: bool, whole: Vec<u8>, fraction: Vec<u8> },
    Infinite { negative: bool },
    NaN,
}

/// A number of a document. Finite numbers are held exactly, by their decimal
/// digits.
#[derive(Debug, PartialEq)]
pub struct Number {
    repr: Repr,
}

impl View for Number {
    type V = NumberView;

    closed spec fn view(&self) -> NumberView {
        match self.repr {
            Repr::Finite { negative, whole, fraction } => NumberView::Finite {
                negative,
                whole: digits_value(whole@),
                fraction: fraction@,
            },
            Repr::Infinite { negative } => NumberView::Infinite { negative },
            Repr::NaN => NumberView::NaN,
        }
    }
}

/// The position of the first `'.'` in `s`, or its length.
pub open spec fn dot_index(s: Seq<char>) -> nat
    decreases s.len(),
{
    if s.len() == 0 {
        0
    } else if s[0] == '.' {
        0
    } else {
        1 + dot_index(s.drop_first())
    }
}

/// The character is a decimal digit.
pub open spec fn is_digit(c: char) -> bool {
    '0' <= c && c <= '9'
}

/// Every character is a decimal digit.
pub open spec fn digit_chars(s: Seq<char>) -> bool {
    forall|i: int| 0 <= i < s.len() ==> #[trigger] is_digit(s[i])
}

/// The digits that decimal digit characters stand for.
pub open spec fn char_digits(s: Seq<char>) -> Seq<u8> {
    s.map_values(|c: char| (c as u32 - 48) as u8)
}

/// The number that a text writes, in the form in which numbers are printed:
/// `NaN`, `inf`, `-inf`, or an optional `-`, one or more digits and
/// optionally a `.` followed by one or more digits.
pub open spec fn number_text(s: Seq<char>) -> Option<NumberView> {
    if s == "NaN"@ {
        Some(NumberView::NaN)
    } else if s == "inf"@ {
        Some(NumberView::Infinite { negative: false })
    } else if s == "-inf"@ {
        Some(NumberView::Infinite { negative: true })
    } else {
        let negative = s.len() > 0 && s[0] == '-';
        let body = if negative { s.drop_first() } else { s };
        let k = dot_index(body) as int;
        let whole = body.take(k);
        let fraction = if k < body.len() { body.skip(k + 1) } else { Seq::empty() };
        if whole.len() > 0 && digit_chars(whole) && digit_chars(fraction)
            && (k < body.len() ==> fraction.len() > 0) {
            Some(NumberView::Finite {
                negative,
                whole: digits_value(char_digits(whole)),
                fraction: char_digits(fraction),
            })
        } else {
            None
        }
    }
}

proof fn lemma_dot_index(s: Seq<char>)
    ensures
        dot_index(s) <= s.len(),
        forall|i: int| 0 <= i < dot_index(s) ==> s[i] != '.',
        dot_index(s) < s.len() ==> s[dot_index(s) as int] == '.',
    decreases s.len(),
{
    if s.len() > 0 && s[0] != '.' {
        lemma_dot_index(s.drop_first());
        assert forall|i: int| 0 <= i < dot_index(s) implies s[i] != '.' by {
            if i > 0 {
                assert(s[i] == s.drop_first()[i - 1]);
            }
        }
    }
}

proof fn lemma_dot_index_unique(s: Seq<char>, k: int)
    requires
        0 <= k <= s.len(),
        forall|i: int| 0 <= i < k ==> s[i] != '.',
        k < s.len() ==> s[k] == '.',
    ensures
        dot_index(s) == k,
{
    lemma_dot_index(s);
    if dot_index(s) < k {
        assert(s[dot_index(s) as int] == '.');
    } else if dot_index(s) > k {
        assert(s[k] != '.');
    }
}

proof fn lemma_digits_value_push(d: Seq<u8>, x: u8)
    ensures
        digits_value(d.push(x)) == digits_value(d) * 10 + x as nat,
{
    assert(d.push(x).drop_last() =~= d);
}

/// Reads decimal digit characters `s[from..to]`.
fn read_digits(s: &str, from: usize, to: usize) -> (res: Vec<u8>)
    requires
        from <= to <= s@.len(),
        digit_chars(s@.subrange(from as int, to as int)),
    ensures
        res@ == char_digits(s@.subrange(from as int, to as int)),
        all_digits(res@),
{
    let mut res: Vec<u8> = Vec::new();
    let mut i = from;
    while i < to
        invariant
            from <= i <= to <= s@.len(),
            digit_chars(s@.subrange(from as int, to as int)),
            res@ == char_digits(s@.subrange(from as int, i as int)),
            all_digits(res@),
        decreases to - i,
    {
        let c = s.get_char(i);
        assert(s@.subrange(from as int, to as int)[i - from] == c);
        assert(is_digit(s@.subrange(from as int, to as int)[i - from]));
        let d: u8 = (c as u32 - 48) as u8;
        res.push(d);
        assert(s@.subrange(from as int, i + 1) =~= s@.subrange(from as int, i as int).push(c));
        assert(res@ =~= char_digits(s@.subrange(from as int, i + 1)));
        i = i + 1;
    }
    res
}

/// The value of a sequence of digits, capped at `cap`.
fn capped_value(d: &Vec<u8>, cap: u64) -> (res: u64)
    requires
        cap < 0x1000_0000,
    ensures
        res == if digits_value(d@) < cap { digits_value(d@) } else { cap as nat },
{
    let mut acc: u64 = 0;
    let mut i: usize = 0;
    while i < d.len()
        invariant
            i <= d@.len(),
            cap < 0x1000_0000,
            acc == if digits_value(d@.take(i as int)) < cap { digits_value(d@.take(i as int)) } else { cap as nat },
        decreases d@.len() - i,
    {
        assert(d@.take(i + 1) =~= d@.take(i as int).push(d@[i as int]));
        proof { lemma_digits_value_push(d@.take(i as int), d@[i as int]); }
        let x = d[i];
        let next = acc * 10 + x as u64;
        acc = if next < cap { next } else { cap };
        i = i + 1;
    }
    assert(d@.take(d@.len() as int) =~= d@);
    acc
}

/// Whether some digit is not zero.
fn any_nonzero(d: &Vec<u8>) -> (res: bool)
    ensures
        res == some_nonzero(d@),
{
    let mut i: usize = 0;
    while i < d.len()
        invariant
            i <= d@.len(),
            forall|j: int| 0 <= j < i ==> #[trigger] d@[j] == 0,
        decreases d@.len() - i,
    {
        if d[i] != 0 {
            return true;
        }
        i = i + 1;
    }
    false
}

/// The position of the first `'.'` in `s` from `start` on, or the length of `s`.
fn find_dot(s: &str, start: usize) -> (k: usize)
    requires
        start <= s@.len(),
    ensures
        start <= k <= s@.len(),
        forall|i: int| start <= i < k ==> s@[i] != '.',
        k < s@.len() ==> s@[k as int] == '.',
{
    let n = s.unicode_len();
    let mut k = start;
    while k < n && s.get_char(k) != '.'
        invariant
            start <= k <= n,
            n == s@.len(),
            forall|i: int| start <= i < k ==> s@[i] != '.',
        decreases n - k,
    {
        k = k + 1;
    }
    k
}

/// Whether the characters `s[from..to]` are all decimal digits.
fn digits_between(s: &str, from: usize, to: usize) -> (res: bool)
    requires
        from <= to <= s@.len(),
    ensures
        res == digit_chars(s@.subrange(from as int, to as int)),
{
    let mut i = from;
    while i < to
        invariant
            from <= i <= to <= s@.len(),
            forall|j: int| from <= j < i ==> #[trigger] is_digit(s@[j]),
        decreases to - i,
    {
        let c = s.get_char(i);
        if !('0' <= c && c <= '9') {
            assert(s@.subrange(from as int, to as int)[i - from] == c);
            assert(!is_digit(s@.subrange(from as int, to as int)[i - from]));
            return false;
        }
        i = i + 1;
    }
    assert forall|m: int| 0 <= m < to - from implies #[trigger] is_digit(s@.subrange(from as int, to as int)[m]) by {
        assert(s@.subrange(from as int, to as int)[m] == s@[m + from]);
    }
    true
}

/// The characters of decimal digits.
pub open spec fn digit_text(d: Seq<u8>) -> Seq<char> {
    d.map_values(|x: u8| (x + 48) as char)
}

proof fn lemma_digit_text(d: Seq<u8>)
    requires
        all_digits(d),
    ensures
        digit_chars(digit_text(d)),
        char_digits(digit_text(d)) == d,
        forall|i: int| 0 <= i < d.len() ==> #[trigger] digit_text(d)[i] != '.',
{
    assert forall|i: int| 0 <= i < d.len() implies #[trigger] is_digit(digit_text(d)[i]) by {
        assert(d[i] < 10);
    }
    assert forall|i: int| 0 <= i < d.len() implies #[trigger] digit_text(d)[i] != '.' by {
        assert(d[i] < 10);
        assert(is_digit(digit_text(d)[i]));
    }
    assert forall|i: int| 0 <= i < d.len() implies #[trigger] char_digits(digit_text(d))[i] == d[i] by {
        assert(d[i] < 10);
    }
    assert(char_digits(digit_text(d)) =~= d);
}

/// Writes decimal digits.
fn write_digits(out: &mut String, d: &Vec<u8>)
    requires
        all_digits(d@),
    ensures
        final(out)@ == old(out)@ + digit_text(d@),
{
    let mut i: usize = 0;
    while i < d.len()
        invariant
            i <= d@.len(),
            all_digits(d@),
            out@ == old(out)@ + digit_text(d@.take(i as int)),
        decreases d@.len() - i,
    {
        assert(d@[i as int] < 10);
        let c: char = (d[i] + 48) as char;
        push_char(out, c);
        assert(digit_text(d@.take(i + 1)) =~= digit_text(d@.take(i as int)).push(c));
        i = i + 1;
    }
    assert(d@.take(i as int) =~= d@);
}

impl Number {
    #[verifier::type_invariant]
    closed spec fn inv(self) -> bool {
        self.repr matches Repr::Finite { whole, fraction, .. } ==> whole@.len() > 0 && all_digits(whole@) && all_digits(fraction@)
    }

    /// Writes the number in the form that [`Number::parse`] reads: `NaN`,
    /// `inf`, `-inf`, or its sign, digits and fraction.
    pub fn to_text(&self) -> (res: String)
        ensures
            number_text(res@) == Some(self@),
    {
        proof {
            use_type_invariant(self);
            reveal_strlit("NaN");
            reveal_strlit("inf");
            reveal_strlit("-inf");
        }
        match &self.repr {
            Repr::NaN => {
                let r = String::from_str("NaN");
                assert(number_text(r@) == Some(self@));
                r
            },
            Repr::Infinite { negative } => {
                if *negative {
                    let r = String::from_str("-inf");
                    assert(r@.len() == 4 && "NaN"@.len() == 3 && "inf"@.len() == 3);
                    assert(number_text(r@) == Some(self@));
                    r
                } else {
                    let r = String::from_str("inf");
                    assert(r@[0] == 'i' && "NaN"@[0] == 'N');
                    assert(number_text(r@) == Some(self@));
                    r
                }
            },
            Repr::Finite { negative, whole, fraction } => {
                let mut out = String::new();
                if *negative {
                    push_char(&mut out, '-');
                }
                let ghost sign = out@;
                write_digits(&mut out, whole);
                let ghost body_whole = digit_text(whole@);
                proof { lemma_digit_text(whole@); lemma_digit_text(fraction@); }
                if fraction.len() > 0 {
                    push_char(&mut out, '.');
                    write_digits(&mut out, fraction);
                }
                proof {
                    let s = out@;
                    let body = if *negative { s.drop_first() } else { s };
                    let fr = digit_text(fraction@);
                    if fraction@.len() > 0 {
                        assert(body =~= body_whole.push('.') + fr);
                    } else {
                        assert(body =~= body_whole);
                    }
                    assert(is_digit(body_whole[0]));
                    assert(s.len() > 0);
                    assert((s.len() > 0 && s[0] == '-') <==> *negative) by {
                        if !*negative { assert(s[0] == body_whole[0]); }
                    }
                    lemma_dot_index_unique(body, body_whole.len() as int);
                    assert(body.take(body_whole.len() as int) =~= body_whole);
                    if fraction@.len() > 0 {
                        assert(body.skip(body_whole.len() as int + 1) =~= fr);
                    } else {
                        assert(digit_chars(Seq::<char>::empty()));
                        assert(char_digits(Seq::<char>::empty()) =~= Seq::<u8>::empty());
                        assert(fraction@ =~= Seq::<u8>::empty());
                    }
                    let k = dot_index(body) as int;
                    assert(k == body_whole.len());
                    assert(body.take(k) == body_whole);
                    assert(digit_chars(body.take(k)));
                    assert(char_digits(body.take(k)) == whole@);
                    let frt = if k < body.len() { body.skip(k + 1) } else { Seq::empty() };
                    assert(char_digits(frt) == fraction@);
                    assert(digit_chars(frt));
                    assert(s != "NaN"@ && s != "inf"@ && s != "-inf"@) by {
                        if s == "NaN"@ || s == "inf"@ || s == "-inf"@ {
                            if *negative {
                                assert(body[0] == s[1]);
                            }
                            assert(is_digit(body[0]));
                        }
                    }
                    assert(number_text(s) == Some(self@));
                }
                out
            },
        }
    }

    /// Reads a number written as `NaN`, `inf`, `-inf`, or an optional `-`,
    /// digits and optionally a `.` followed by digits.
    pub fn parse(s: &str) -> (res: Option<Number>)
        ensures
            match res {
                Some(n) => number_text(s@) == Some(n@),
                None => number_text(s@) is None,
            },
    {
        if str_eq(s, "NaN") {
            return Some(Number { repr: Repr::NaN });
        }
        if str_eq(s, "inf") {
            return Some(Number { repr: Repr::Infinite { negative: false } });
        }
        if str_eq(s, "-inf") {
            return Some(Number { repr: Repr::Infinite { negative: true } });
        }
        let n = s.unicode_len();
        let negative = n > 0 && s.get_char(0) == '-';
        let start: usize = if negative { 1 } else { 0 };
        let ghost body = if negative { s@.drop_first() } else { s@ };
        assert(body =~= s@.subrange(start as int, n as int));
        let k = find_dot(s, start);
        proof {
            lemma_dot_index_unique(body, k - start);
        }
        assert(body.take(k - start) =~= s@.subrange(start as int, k as int));
        if k == start || !digits_between(s, start, k) {
            return None;
        }
        let whole = read_digits(s, start, k);
        if k == n {
            assert(body.take(k - start) =~= body);
            assert(digit_chars(Seq::<char>::empty()));
            assert(char_digits(Seq::<char>::empty()) =~= Seq::<u8>::empty());
            return Some(Number { repr: Repr::Finite { negative, whole, fraction: Vec::new() } });
        }
        assert(body.skip(k - start + 1) =~= s@.subrange(k + 1, n as int));
        if k + 1 == n || !digits_between(s, k + 1, n) {
            return None;
        }
        let fraction = read_digits(s, k + 1, n);
        Some(Number { repr: Repr::Finite { negative, whole, fraction } })
    }

    /// `self < c`, as floating point compares it.
    pub fn lt(&self, c: u8) -> (res: bool)
        ensures
            res == self@.lt(c as nat),
    {
        match &self.repr {
            Repr::Finite { negative, whole, fraction } => {
                let w = capped_value(whole, 1000);
                let zero = w == 0 && !any_nonzero(fraction);
                (*negative && !zero) || w < c as u64
            },
            Repr::Infinite { negative } => *negative,
            Repr::NaN => false,
        }
    }

    /// `self <= c`, as floating point compares it.
    pub fn le(&self, c: u8) -> (res: bool)
        ensures
            res == self@.le(c as nat),
    {
        match &self.repr {
            Repr::Finite { negative, whole, fraction } => {
                let w = capped_value(whole, 1000);
                let nz = any_nonzero(fraction);
                let zero = w == 0 && !nz;
                (*negative && !zero) || w < c as u64 || (w == c as u64 && !nz)
            },
            Repr::Infinite { negative } => *negative,
            Repr::NaN => false,
        }
    }

    /// `self > c`, as floating point compares it.
    pub fn gt(&self, c: u8) -> (res: bool)
        ensures
            res == self@.gt(c as nat),
    {
        let nan = matches!(self.repr, Repr::NaN);
        !nan && !self.le(c)
    }

    /// `self >= c`, as floating point compares it.
    pub fn ge(&self, c: u8) -> (res: bool)
        ensures
            res == self@.ge(c as nat),
    {
        let nan = matches!(self.repr, Repr::NaN);
        !nan && !self.lt(c)
    }
}

} // verus!
