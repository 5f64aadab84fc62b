//! Text helpers: comparing strings, joining them, and reading and writing
//! integers in their canonical decimal form.

use vstd::prelude::*;
use vstd::string::*;
use vstd::utf8::*;

verus! {

/// True for the ten decimal digits.
pub open spec fn is_digit(c: char) -> bool {
    48 <= c as u32 <= 57
}

/// The number a decimal digit stands for; 0 for any other character.
pub open spec fn digit_value(c: char) -> nat {
    if is_digit(c) {
        (c as u32 - 48) as nat
    } else {
        0
    }
}

/// The digit that writes a number below ten.
pub open spec fn digit_char(d: nat) -> char {
    if d == 0 {
        '0'
    } else if d == 1 {
        '1'
    } else if d == 2 {
        '2'
    } else if d == 3 {
        '3'
    } else if d == 4 {
        '4'
    } else if d == 5 {
        '5'
    } else if d == 6 {
        '6'
    } else if d == 7 {
        '7'
    } else if d == 8 {
        '8'
    } else {
        '9'
    }
}

/// True when every character of `s` is a decimal digit.
pub open spec fn all_digits(s: Seq<char>) -> bool {
    forall|i: int| 0 <= i < s.len() ==> is_digit(#[trigger] s[i])
}

/// The number that a string of digits writes, most significant digit first.
pub open spec fn digits_value(s: Seq<char>) -> nat
    decreases s.len(),
{
    if s.len() == 0 {
        0
    } else {
        digits_value(s.drop_last()) * 10 + digit_value(s.last())
    }
}

/// A natural number in canonical form: at least one digit, and no leading
/// zero unless the number is `0` itself.
pub open spec fn is_natural_literal(s: Seq<char>) -> bool {
    &&& s.len() > 0
    &&& all_digits(s)
    &&& (s.len() > 1 ==> s[0] != '0')
}

/// The integer that `s` writes in canonical decimal form, if it is one: an
/// optional `-` and a natural number without leading zeros, `-0` excluded.
pub open spec fn integer_of(s: Seq<char>) -> Option<int> {
    if is_natural_literal(s) {
        Some(digits_value(s) as int)
    } else if s.len() > 1 && s[0] == '-' && is_natural_literal(s.skip(1)) && s[1] != '0' {
        Some(-(digits_value(s.skip(1)) as int))
    } else {
        None
    }
}

/// The `i32` that `s` writes in canonical decimal form, if it is one and fits.
pub open spec fn i32_of(s: Seq<char>) -> Option<i32> {
    match integer_of(s) {
        Some(v) => if i32::MIN <= v <= i32::MAX {
            Some(v as i32)
        } else {
            None
        },
        None => None,
    }
}

/// The canonical decimal form of a natural number.
pub open spec fn decimal_text(n: nat) -> Seq<char>
    decreases n,
{
    if n < 10 {
        seq![digit_char(n)]
    } else {
        decimal_text(n / 10).push(digit_char(n % 10))
    }
}

/// The canonical decimal form of an integer.
pub open spec fn integer_text(i: int) -> Seq<char> {
    if i < 0 {
        seq!['-'] + decimal_text((-i) as nat)
    } else {
        decimal_text(i as nat)
    }
}

/// The views of a sequence of strings.
pub open spec fn views(parts: Seq<String>) -> Seq<Seq<char>> {
    parts.map_values(|s: String| s@)
}

/// `parts` written one after the other with `sep` between neighbours.
pub open spec fn joined(parts: Seq<Seq<char>>, sep: Seq<char>) -> Seq<char>
    decreases parts.len(),
{
    if parts.len() == 0 {
        Seq::empty()
    } else if parts.len() == 1 {
        parts[0]
    } else {
        joined(parts.drop_last(), sep) + sep + parts.last()
    }
}

proof fn lemma_digit_char_value(d: nat)
    requires
        d < 10,
    ensures
        is_digit(digit_char(d)),
        digit_value(digit_char(d)) == d,
{
}

proof fn lemma_digit_value_char(c: char)
    requires
        is_digit(c),
    ensures
        digit_value(c) < 10,
        digit_char(digit_value(c)) == c,
{
}

proof fn lemma_digit_facts(c: char)
    requires
        is_digit(c),
    ensures
        '\0' <= c <= '\u{7f}',
        c != '-',
        c != '0' ==> digit_value(c) >= 1,
{
}

proof fn lemma_digits_ascii(s: Seq<char>)
    requires
        all_digits(s),
    ensures
        is_ascii_chars(s),
{
    assert forall|i: int| 0 <= i < s.len() implies '\0' <= #[trigger] s[i] <= '\u{7f}' by {
        lemma_digit_facts(s[i]);
    }
}

proof fn lemma_digits_value_push(s: Seq<char>, c: char)
    ensures
        digits_value(s.push(c)) == digits_value(s) * 10 + digit_value(c),
{
    assert(s.push(c).drop_last() =~= s);
}

/// A prefix of a digit string never writes a larger number than the whole.
proof fn lemma_prefix_value(s: Seq<char>, k: int)
    requires
        0 <= k <= s.len(),
    ensures
        digits_value(s.subrange(0, k)) <= digits_value(s),
    decreases s.len() - k,
{
    if k == s.len() {
        assert(s.subrange(0, k) =~= s);
    } else {
        lemma_prefix_value(s.drop_last(), k);
        assert(s.drop_last().subrange(0, k) =~= s.subrange(0, k));
    }
}

/// A digit string that does not start with `0` writes a positive number.
proof fn lemma_value_positive(s: Seq<char>)
    requires
        s.len() > 0,
        all_digits(s),
        s[0] != '0',
    ensures
        digits_value(s) >= 1,
    decreases s.len(),
{
    if s.len() == 1 {
        assert(s.drop_last() =~= Seq::<char>::empty());
        assert(digits_value(s.drop_last()) == 0);
        lemma_digit_facts(s[0]);
    } else {
        let t = s.drop_last();
        assert(all_digits(t)) by {
            assert forall|i: int| 0 <= i < t.len() implies is_digit(#[trigger] t[i]) by {
                assert(t[i] == s[i]);
            }
        }
        assert(t[0] == s[0]);
        lemma_value_positive(t);
    }
}

/// `decimal_text` writes canonical literals, and `digits_value` reads them back.
pub proof fn lemma_decimal_text(n: nat)
    ensures
        is_natural_literal(decimal_text(n)),
        digits_value(decimal_text(n)) == n,
        n > 0 ==> decimal_text(n)[0] != '0',
    decreases n,
{
    if n < 10 {
        let s = decimal_text(n);
        lemma_digit_char_value(n);
        assert(s.drop_last() =~= Seq::<char>::empty());
        assert(digits_value(s.drop_last()) == 0);
    } else {
        let t = decimal_text(n / 10);
        let c = digit_char(n % 10);
        lemma_decimal_text(n / 10);
        lemma_digit_char_value(n % 10);
        lemma_digits_value_push(t, c);
        let s = t.push(c);
        assert(all_digits(s)) by {
            assert forall|i: int| 0 <= i < s.len() implies is_digit(#[trigger] s[i]) by {
                if i < t.len() {
                    assert(s[i] == t[i]);
                }
            }
        }
        assert(s[0] == t[0]);
    }
}

/// A canonical literal is the only way to write its number.
pub proof fn lemma_natural_literal_unique(s: Seq<char>)
    requires
        is_natural_literal(s),
    ensures
        decimal_text(digits_value(s)) == s,
    decreases s.len(),
{
    let t = s.drop_last();
    let c = s.last();
    assert(is_digit(c));
    lemma_digit_value_char(c);
    if s.len() == 1 {
        assert(t =~= Seq::<char>::empty());
        assert(digits_value(t) == 0);
        assert(decimal_text(digits_value(s)) =~= s);
    } else {
        assert(all_digits(t)) by {
            assert forall|i: int| 0 <= i < t.len() implies is_digit(#[trigger] t[i]) by {
                assert(t[i] == s[i]);
            }
        }
        assert(t[0] == s[0]);
        lemma_value_positive(t);
        lemma_natural_literal_unique(t);
        let n = digits_value(s);
        assert(n == digits_value(t) * 10 + digit_value(c));
        assert(n / 10 == digits_value(t));
        assert(n % 10 == digit_value(c));
        assert(decimal_text(n) =~= s);
    }
}

/// Writing an integer and reading it back gives the integer.
pub proof fn lemma_integer_text_read(i: int)
    ensures
        integer_of(integer_text(i)) == Some(i),
{
    if i < 0 {
        let n = (-i) as nat;
        let s = integer_text(i);
        lemma_decimal_text(n);
        assert(s.skip(1) =~= decimal_text(n));
        assert(s[0] == '-');
        assert(!is_digit(s[0]));
        assert(s[1] == decimal_text(n)[0]);
    } else {
        lemma_decimal_text(i as nat);
    }
}

/// Reading a canonical literal and writing the integer gives the literal.
pub proof fn lemma_integer_read_text(s: Seq<char>)
    requires
        integer_of(s) is Some,
    ensures
        integer_text(integer_of(s)->0) == s,
{
    if is_natural_literal(s) {
        lemma_natural_literal_unique(s);
    } else {
        let t = s.skip(1);
        lemma_natural_literal_unique(t);
        assert(t[0] == s[1]);
        lemma_value_positive(t);
        assert(seq!['-'] + t =~= s);
    }
}

/// Two strings with the same characters in the same order.
pub fn str_eq(a: &str, b: &str) -> (r: bool)
    ensures
        r == (a@ == b@),
{
    let x = a.as_bytes();
    let y = b.as_bytes();
    proof {
        encode_utf8_decode_utf8(a@);
        encode_utf8_decode_utf8(b@);
    }
    if x.len() != y.len() {
        return false;
    }
    let n: usize = x.len();
    let mut i: usize = 0;
    while i < n
        invariant
            i <= n,
            n == x@.len(),
            n == y@.len(),
            x@ == encode_utf8(a@),
            y@ == encode_utf8(b@),
            forall|k: int| 0 <= k < i ==> x@[k] == y@[k],
        decreases n - i,
    {
        if x[i] != y[i] {
            return false;
        }
        i += 1;
    }
    assert(x@ =~= y@);
    true
}

/// How an ASCII character shows in its byte.
proof fn lemma_ascii_byte(c: char)
    requires
        '\0' <= c <= '\u{7f}',
    ensures
        (c as u8 == 45) == (c == '-'),
        (c as u8 == 48) == (c == '0'),
        (48 <= c as u8 <= 57) == is_digit(c),
        is_digit(c) ==> digit_value(c) == (c as u8) - 48,
{
}

/// A string with a character outside ASCII writes no integer.
proof fn lemma_integer_is_ascii(s: Seq<char>)
    requires
        integer_of(s) is Some,
    ensures
        is_ascii_chars(s),
{
    if is_natural_literal(s) {
        lemma_digits_ascii(s);
    } else {
        lemma_digits_ascii(s.skip(1));
        assert forall|i: int| 0 <= i < s.len() implies '\0' <= #[trigger] s[i] <= '\u{7f}' by {
            if i > 0 {
                assert(s[i] == s.skip(1)[i - 1]);
            }
        }
    }
}

/// The digits of an integer literal: all of it, or what follows the `-`.
proof fn lemma_integer_digits(s: Seq<char>, start: int)
    requires
        s.len() > 0,
        start == (if s[0] == '-' { 1int } else { 0int }),
        integer_of(s) is Some,
    ensures
        start < s.len(),
        all_digits(s.skip(start)),
        integer_of(s)->0 == (if start == 1 { -(digits_value(s.skip(start)) as int) } else {
            digits_value(s.skip(start)) as int
        }),
{
    if is_natural_literal(s) {
        lemma_digit_facts(s[0]);
        assert(s.skip(0) =~= s);
    } else {
    }
}

/// Reads an `i32` written in canonical decimal form.
pub fn parse_i32(s: &str) -> (r: Option<i32>)
    ensures
        r == i32_of(s@),
{
    if !s.is_ascii() {
        proof {
            if integer_of(s@) is Some {
                lemma_integer_is_ascii(s@);
            }
        }
        return None;
    }
    let bytes = s.as_bytes();
    let n: usize = bytes.len();
    proof {
        is_ascii_chars_encode_utf8(s@);
    }
    if n == 0 {
        return None;
    }
    proof {
        lemma_ascii_byte(s@[0]);
    }
    let negative: bool = bytes[0] == 45u8;
    let start: usize = if negative {
        1
    } else {
        0
    };
    if start == n {
        return None;
    }
    proof {
        lemma_ascii_byte(s@[start as int]);
    }
    if bytes[start] == 48u8 && (negative || n - start > 1) {
        return None;
    }
    let ghost t = s@.skip(start as int);
    let mut acc: i64 = 0;
    let mut i: usize = start;
    assert(t.subrange(0, 0) =~= Seq::<char>::empty());
    while i < n
        invariant
            start <= i <= n,
            start < n,
            n == s@.len(),
            n == bytes@.len(),
            start == (if s@[0] == '-' { 1int } else { 0int }),
            t == s@.skip(start as int),
            forall|k: int| 0 <= k < n ==> s@[k] as u8 == #[trigger] bytes@[k],
            is_ascii_chars(s@),
            all_digits(t.subrange(0, i - start)),
            acc == digits_value(t.subrange(0, i - start)),
            0 <= acc <= 2147483648,
        decreases n - i,
    {
        let b: u8 = bytes[i];
        let ghost c = s@[i as int];
        let ghost before = t.subrange(0, i - start);
        let ghost after = t.subrange(0, i - start + 1);
        proof {
            assert(c == t[i - start]);
            assert(c as u8 == b);
            lemma_ascii_byte(c);
        }
        if b < 48u8 || b > 57u8 {
            proof {
                if integer_of(s@) is Some {
                    lemma_integer_digits(s@, start as int);
                    assert(is_digit(t[i - start]));
                }
            }
            return None;
        }
        proof {
            assert(after =~= before.push(c));
            lemma_digits_value_push(before, c);
            assert(all_digits(after)) by {
                assert forall|k: int| 0 <= k < after.len() implies is_digit(#[trigger] after[k]) by {
                    if k < before.len() {
                        assert(after[k] == before[k]);
                    }
                }
            }
        }
        acc = acc * 10 + (b - 48u8) as i64;
        if acc > 2147483648 {
            proof {
                lemma_prefix_value(t, i - start + 1);
                if integer_of(s@) is Some {
                    lemma_integer_digits(s@, start as int);
                }
            }
            return None;
        }
        i += 1;
    }
    proof {
        assert(t.subrange(0, n - start) =~= t);
        assert(t[0] == s@[start as int]);
        if start == 0 {
            assert(t =~= s@);
        } else {
            lemma_digit_facts(t[0]);
        }
        if integer_of(s@) is Some {
            lemma_integer_digits(s@, start as int);
        }
    }
    if negative {
        Some((-acc) as i32)
    } else if acc > 2147483647 {
        None
    } else {
        Some(acc as i32)
    }
}

/// The one-character string that writes a digit.
fn digit_str(d: u64) -> (r: &'static str)
    requires
        d < 10,
    ensures
        r@ == seq![digit_char(d as nat)],
{
    proof {
        reveal_strlit("0");
        reveal_strlit("1");
        reveal_strlit("2");
        reveal_strlit("3");
        reveal_strlit("4");
        reveal_strlit("5");
        reveal_strlit("6");
        reveal_strlit("7");
        reveal_strlit("8");
        reveal_strlit("9");
    }
    let r: &'static str = if d == 0 {
        "0"
    } else if d == 1 {
        "1"
    } else if d == 2 {
        "2"
    } else if d == 3 {
        "3"
    } else if d == 4 {
        "4"
    } else if d == 5 {
        "5"
    } else if d == 6 {
        "6"
    } else if d == 7 {
        "7"
    } else if d == 8 {
        "8"
    } else {
        "9"
    };
    assert(r@ =~= seq![digit_char(d as nat)]);
    r
}

/// Appends the canonical decimal form of `n` to `out`.
fn push_decimal(out: &mut String, n: u64)
    ensures
        final(out)@ == old(out)@ + decimal_text(n as nat),
    decreases n,
{
    if n >= 10 {
        push_decimal(out, n / 10);
    }
    out.append(digit_str(n % 10));
    proof {
        if n >= 10 {
            assert(old(out)@ + decimal_text((n / 10) as nat) + seq![digit_char((n % 10) as nat)]
                =~= old(out)@ + decimal_text(n as nat));
        }
    }
}

/// Writes an `i32` in canonical decimal form.
pub fn format_i32(n: i32) -> (r: String)
    ensures
        r@ == integer_text(n as int),
{
    let mut out = String::new();
    if n < 0 {
        proof {
            reveal_strlit("-");
        }
        out.append("-");
        assert(out@ =~= seq!['-']);
        let magnitude: u64 = (-(n as i64)) as u64;
        push_decimal(&mut out, magnitude);
    } else {
        push_decimal(&mut out, n as u64);
        assert(Seq::<char>::empty() + decimal_text(n as nat) =~= decimal_text(n as nat));
    }
    out
}

/// Joins `parts` with `sep` between neighbours.
pub fn join(parts: &Vec<String>, sep: &str) -> (r: String)
    ensures
        r@ == joined(views(parts@), sep@),
{
    let mut out = String::new();
    let n: usize = parts.len();
    let mut i: usize = 0;
    assert(views(parts@).subrange(0, 0) =~= Seq::<Seq<char>>::empty());
    while i < n
        invariant
            i <= n,
            n == parts@.len(),
            out@ == joined(views(parts@).subrange(0, i as int), sep@),
        decreases n - i,
    {
        let ghost before = views(parts@).subrange(0, i as int);
        let ghost after = views(parts@).subrange(0, i + 1);
        proof {
            assert(after.drop_last() =~= before);
            assert(after.last() == parts@[i as int]@);
        }
        if i > 0 {
            out.append(sep);
        } else {
            assert(out@ + parts@[i as int]@ =~= parts@[i as int]@);
        }
        out.append(parts[i].as_str());
        i += 1;
    }
    assert(views(parts@).subrange(0, n as int) =~= views(parts@));
    out
}

/// How many digits stand in a row in `s` from the position `from` on.
pub open spec fn digit_run(s: Seq<char>, from: int) -> nat
    decreases s.len() - from,
{
    if 0 <= from < s.len() && is_digit(s[from]) {
        1 + digit_run(s, from + 1)
    } else {
        0
    }
}

/// A JSON number: an optional `-`, digits without a leading zero, then
/// optionally a `.` with digits, then optionally an exponent (`e` or `E`,
/// an optional sign, digits), and nothing more.
pub open spec fn is_number_literal(s: Seq<char>) -> bool {
    let a: int = if s.len() > 0 && s[0] == '-' {
        1
    } else {
        0
    };
    let b = a + digit_run(s, a);
    let dot = b < s.len() && s[b] == '.';
    let c = if dot {
        b + 1 + digit_run(s, b + 1)
    } else {
        b
    };
    let exp = c < s.len() && (s[c] == 'e' || s[c] == 'E');
    let sign = exp && c + 1 < s.len() && (s[c + 1] == '+' || s[c + 1] == '-');
    let d = if sign {
        c + 2
    } else {
        c + 1
    };
    let e = if exp {
        d + digit_run(s, d)
    } else {
        c
    };
    &&& b > a
    &&& (s[a] == '0' ==> b == a + 1)
    &&& (dot ==> c > b + 1)
    &&& (exp ==> e > d)
    &&& e == s.len()
}

/// The position after the digits that stand in a row from `from` on.
fn skip_digits(s: &str, n: usize, from: usize) -> (r: usize)
    requires
        n == s@.len(),
        from <= n,
    ensures
        r == from + digit_run(s@, from as int),
        r <= n,
{
    let mut j: usize = from;
    while j < n
        invariant
            from <= j <= n,
            n == s@.len(),
            from + digit_run(s@, from as int) == j + digit_run(s@, j as int),
        decreases n - j,
    {
        let code: u32 = s.get_char(j) as u32;
        if code < 48 || code > 57 {
            return j;
        }
        j += 1;
    }
    j
}

/// Whether a text is a JSON number.
pub fn is_number(s: &str) -> (r: bool)
    ensures
        r == is_number_literal(s@),
{
    let n: usize = s.unicode_len();
    let a: usize = if n > 0 && s.get_char(0) == '-' {
        1
    } else {
        0
    };
    let b: usize = skip_digits(s, n, a);
    if b == a {
        return false;
    }
    if s.get_char(a) == '0' && b != a + 1 {
        return false;
    }
    let dot: bool = b < n && s.get_char(b) == '.';
    let c: usize = if dot {
        skip_digits(s, n, b + 1)
    } else {
        b
    };
    if dot && c == b + 1 {
        return false;
    }
    let exp: bool = c < n && (s.get_char(c) == 'e' || s.get_char(c) == 'E');
    if !exp {
        return c == n;
    }
    let sign: bool = c + 1 < n && (s.get_char(c + 1) == '+' || s.get_char(c + 1) == '-');
    let d: usize = if sign {
        c + 2
    } else {
        c + 1
    };
    let e: usize = skip_digits(s, n, d);
    e > d && e == n
}

/// From a position on which only digits follow, the run of digits reaches
/// the end of the text.
proof fn lemma_digit_run_all(s: Seq<char>, from: int)
    requires
        0 <= from <= s.len(),
        forall|k: int| from <= k < s.len() ==> is_digit(#[trigger] s[k]),
    ensures
        from + digit_run(s, from) == s.len(),
    decreases s.len() - from,
{
    if from < s.len() {
        lemma_digit_run_all(s, from + 1);
    }
}

/// The canonical decimal form of an integer is a JSON number.
pub proof fn lemma_integer_text_is_number(i: int)
    ensures
        is_number_literal(integer_text(i)),
{
    let s = integer_text(i);
    if i < 0 {
        let t = decimal_text((-i) as nat);
        lemma_decimal_text((-i) as nat);
        assert(s.len() == t.len() + 1);
        assert(s[0] == '-');
        assert forall|k: int| 1 <= k < s.len() implies is_digit(#[trigger] s[k]) by {
            assert(s[k] == t[k - 1]);
        }
        assert(s[1] == t[0]);
        lemma_digit_run_all(s, 1);
    } else {
        lemma_decimal_text(i as nat);
        lemma_digit_facts(s[0]);
        lemma_digit_run_all(s, 0);
    }
}

} // verus!
