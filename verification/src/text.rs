//! Character-level helpers shared by the subject, header and naming logic:
//! building strings, splitting on a separator, decimal numbers, substring
//! search and the lexicographic order that `str` uses.
use vstd::prelude::*;
use vstd::relations::*;
use vstd::seq_lib::*;

verus! {

broadcast use group_to_multiset_ensures;

/// Appends one character to a `String` (std's `String::push`).
#[verifier::external_body]
pub(crate) fn push_char(s: &mut String, c: char)
    ensures
        final(s)@ == old(s)@.push(c),
{
    s.push(c);
}

/// Appends a string slice to a `String`.
pub fn push_str(s: &mut String, t: &str)
    ensures
        final(s)@ == old(s)@ + t@,
{
    let cs = chars_of(t);
    let mut i: usize = 0;
    while i < cs.len()
        invariant
            i <= cs@.len(),
            cs@ == t@,
            s@ == old(s)@ + t@.take(i as int),
        decreases cs@.len() - i,
    {
        push_char(s, cs[i]);
        assert(t@.take(i + 1) =~= t@.take(i as int).push(cs@[i as int]));
        i = i + 1;
    }
    assert(t@.take(i as int) =~= t@);
}

/// The characters of `s`, in order.
pub fn chars_of(s: &str) -> (v: Vec<char>)
    ensures
        v@ == s@,
{
    let mut v: Vec<char> = Vec::new();
    for c in it: s.chars()
        invariant
            v@ == it.seq().take(it.index() as int),
    {
        v.push(c);
    }
    v
}

/// A `String` holding exactly the given characters.
pub fn string_of(cs: &Vec<char>) -> (s: String)
    ensures
        s@ == cs@,
{
    let mut s = String::new();
    let mut i: usize = 0;
    while i < cs.len()
        invariant
            i <= cs@.len(),
            s@ == cs@.take(i as int),
        decreases cs@.len() - i,
    {
        push_char(&mut s, cs[i]);
        assert(cs@.take(i + 1) =~= cs@.take(i as int).push(cs@[i as int]));
        i = i + 1;
    }
    assert(cs@.take(i as int) =~= cs@);
    s
}

/// Whether two string slices hold the same characters.
pub fn str_eq(a: &str, b: &str) -> (r: bool)
    ensures
        r == (a@ == b@),
{
    let x: String = a.to_owned();
    let y: String = b.to_owned();
    x == y
}

/// Whether two character vectors are equal.
pub fn chars_eq(a: &Vec<char>, b: &Vec<char>) -> (r: bool)
    ensures
        r == (a@ == b@),
{
    if a.len() != b.len() {
        return false;
    }
    let mut i: usize = 0;
    while i < a.len()
        invariant
            a@.len() == b@.len(),
            i <= a@.len(),
            a@.take(i as int) == b@.take(i as int),
        decreases a@.len() - i,
    {
        if a[i] != b[i] {
            assert(a@.take(i + 1)[i as int] != b@.take(i + 1)[i as int]);
            return false;
        }
        assert(a@.take(i + 1) =~= b@.take(i + 1));
        i = i + 1;
    }
    assert(a@ =~= a@.take(i as int));
    assert(b@ =~= b@.take(i as int));
    true
}

// ---------------------------------------------------------------------------
// Splitting
// ---------------------------------------------------------------------------

/// The pieces of `s` between occurrences of `sep`, as `str::split` yields them:
/// an empty input gives one empty piece, and `n` separators give `n + 1` pieces.
pub open spec fn split_seq(s: Seq<char>, sep: char) -> Seq<Seq<char>>
    decreases s.len(),
{
    if s.len() == 0 {
        seq![Seq::<char>::empty()]
    } else {
        let init = split_seq(s.drop_last(), sep);
        if s.last() == sep {
            init.push(Seq::<char>::empty())
        } else {
            init.update(init.len() - 1, init.last().push(s.last()))
        }
    }
}

/// `s` does not hold the character `c`.
pub open spec fn lacks(s: Seq<char>, c: char) -> bool {
    forall|i: int| 0 <= i < s.len() ==> s[i] != c
}

/// Splitting always yields at least one piece.
pub proof fn lemma_split_nonempty(s: Seq<char>, sep: char)
    ensures
        split_seq(s, sep).len() >= 1,
    decreases s.len(),
{
    if s.len() > 0 {
        lemma_split_nonempty(s.drop_last(), sep);
    }
}

/// A string without the separator splits into itself alone.
pub proof fn lemma_split_without_sep(s: Seq<char>, sep: char)
    requires
        lacks(s, sep),
    ensures
        split_seq(s, sep) == seq![s],
    decreases s.len(),
{
    if s.len() > 0 {
        lemma_split_without_sep(s.drop_last(), sep);
        assert(s.drop_last().push(s.last()) =~= s);
        assert(seq![s.drop_last()].update(0, s.drop_last().push(s.last())) =~= seq![s]);
    } else {
        assert(s =~= Seq::<char>::empty());
    }
}

/// Splitting `a`, a separator, then `b` gives the pieces of `a` followed by those of `b`.
pub proof fn lemma_split_concat(a: Seq<char>, b: Seq<char>, sep: char)
    ensures
        split_seq(a + seq![sep] + b, sep) == split_seq(a, sep) + split_seq(b, sep),
    decreases b.len(),
{
    let joined = a + seq![sep] + b;
    if b.len() == 0 {
        assert(joined.drop_last() =~= a);
        assert(split_seq(a, sep).push(Seq::<char>::empty()) =~= split_seq(a, sep) + seq![
            Seq::<char>::empty(),
        ]);
    } else {
        lemma_split_concat(a, b.drop_last(), sep);
        assert(joined.drop_last() =~= a + seq![sep] + b.drop_last());
        assert(joined.last() == b.last());
        lemma_split_nonempty(b.drop_last(), sep);
        lemma_split_nonempty(a, sep);
        let left = split_seq(a, sep);
        let right = split_seq(b.drop_last(), sep);
        if b.last() == sep {
            assert((left + right).push(Seq::<char>::empty()) =~= left + right.push(
                Seq::<char>::empty(),
            ));
        } else {
            assert((left + right).update(
                (left + right).len() - 1,
                (left + right).last().push(b.last()),
            ) =~= left + right.update(right.len() - 1, right.last().push(b.last())));
        }
    }
}

/// Split a character vector on `sep`, as `str::split` does.
pub fn split_chars(s: &Vec<char>, sep: char) -> (parts: Vec<Vec<char>>)
    ensures
        parts@.map_values(|p: Vec<char>| p@) == split_seq(s@, sep),
{
    let mut parts: Vec<Vec<char>> = Vec::new();
    let mut cur: Vec<char> = Vec::new();
    let mut i: usize = 0;
    while i < s.len()
        invariant
            i <= s@.len(),
            split_seq(s@.take(i as int), sep) == parts@.map_values(|p: Vec<char>| p@).push(cur@),
        decreases s@.len() - i,
    {
        let c = s[i];
        let ghost before = parts@.map_values(|p: Vec<char>| p@);
        assert(s@.take(i + 1).drop_last() =~= s@.take(i as int));
        if c == sep {
            parts.push(cur);
            cur = Vec::new();
            assert(parts@.map_values(|p: Vec<char>| p@) =~= before.push(
                parts@[parts@.len() - 1]@,
            ));
        } else {
            let ghost old_cur = cur@;
            cur.push(c);
            assert(before.push(old_cur).update(before.len() as int, old_cur.push(c)) =~= before.push(
                cur@,
            ));
        }
        i = i + 1;
    }
    assert(s@.take(i as int) =~= s@);
    let ghost before = parts@.map_values(|p: Vec<char>| p@);
    parts.push(cur);
    assert(parts@.map_values(|p: Vec<char>| p@) =~= before.push(parts@[parts@.len() - 1]@));
    parts
}

// ---------------------------------------------------------------------------
// Decimal numbers
// ---------------------------------------------------------------------------

/// The character of a decimal digit.
pub open spec fn digit_char(d: nat) -> char {
    (d + 48) as char
}

/// The decimal representation of `n`, without leading zeros (as `Display` prints it).
pub open spec fn decimal(n: nat) -> Seq<char>
    decreases n,
{
    if n < 10 {
        seq![digit_char(n)]
    } else {
        decimal(n / 10).push(digit_char(n % 10))
    }
}

fn digit(d: u64) -> (c: char)
    requires
        d < 10,
    ensures
        c == digit_char(d as nat),
{
    let b: u8 = (d as u8) + 48;
    b as char
}

/// Append the decimal representation of `n`.
pub fn push_decimal(s: &mut String, n: u64)
    ensures
        final(s)@ == old(s)@ + decimal(n as nat),
    decreases n,
{
    if n >= 10 {
        push_decimal(s, n / 10);
    }
    push_char(s, digit(n % 10));
    if n >= 10 {
        assert(final(s)@ =~= old(s)@ + decimal(n as nat)) by {
            assert(decimal(n as nat) == decimal((n / 10) as nat).push(digit_char((n % 10) as nat)));
        }
    } else {
        assert(s@ =~= old(s)@ + decimal(n as nat));
    }
}

/// The decimal representation of `n` as a new `String`.
pub fn decimal_string(n: u64) -> (s: String)
    ensures
        s@ == decimal(n as nat),
{
    let mut s = String::new();
    push_decimal(&mut s, n);
    assert(s@ =~= decimal(n as nat));
    s
}

/// Why a string is not an unsigned decimal integer (the kinds of std's `ParseIntError`).
#[derive(Clone, Copy, Debug, PartialEq, Eq, Structural)]
pub enum IntParseFailure {
    /// The string is empty.
    Empty,
    /// The string holds a character that is not a digit.
    InvalidDigit,
    /// The value does not fit the target type.
    Overflow,
}

pub open spec fn is_digit(c: char) -> bool {
    '0' <= c && c <= '9'
}

/// The value of a run of digits, checked against `max` from left to right: the
/// first character that is not a digit, or the first digit whose value exceeds
/// `max`, decides the failure.
pub open spec fn parse_digits(s: Seq<char>, max: nat) -> Result<nat, IntParseFailure>
    decreases s.len(),
{
    if s.len() == 0 {
        Ok(0)
    } else {
        match parse_digits(s.drop_last(), max) {
            Err(e) => Err(e),
            Ok(v) => {
                if !is_digit(s.last()) {
                    Err(IntParseFailure::InvalidDigit)
                } else if v * 10 + (s.last() as nat - 48) > max {
                    Err(IntParseFailure::Overflow)
                } else {
                    Ok((v * 10 + (s.last() as nat - 48)) as nat)
                }
            },
        }
    }
}

/// What std's `str::parse` of an unsigned integer with maximum `max` returns:
/// an optional leading `+` followed by at least one digit.
pub open spec fn parse_unsigned(s: Seq<char>, max: nat) -> Result<nat, IntParseFailure> {
    if s.len() == 0 {
        Err(IntParseFailure::Empty)
    } else if (s[0] == '+' || s[0] == '-') && s.len() == 1 {
        Err(IntParseFailure::InvalidDigit)
    } else if s[0] == '+' {
        parse_digits(s.drop_first(), max)
    } else {
        parse_digits(s, max)
    }
}

proof fn lemma_parse_digits_bound(s: Seq<char>, max: nat)
    ensures
        parse_digits(s, max) matches Ok(v) ==> v <= max,
    decreases s.len(),
{
    if s.len() > 0 {
        lemma_parse_digits_bound(s.drop_last(), max);
    }
}

fn parse_digits_from(s: &Vec<char>, start: usize) -> (r: Result<usize, IntParseFailure>)
    requires
        start <= s@.len(),
    ensures
        r matches Ok(v) ==> parse_digits(s@.skip(start as int), usize::MAX as nat) == Ok::<
            nat,
            IntParseFailure,
        >(v as nat),
        r matches Err(e) ==> parse_digits(s@.skip(start as int), usize::MAX as nat) == Err::<
            nat,
            IntParseFailure,
        >(e),
{
    let mut value: usize = 0;
    let mut i: usize = start;
    let ghost body = s@.skip(start as int);
    while i < s.len()
        invariant
            start <= i <= s@.len(),
            body == s@.skip(start as int),
            parse_digits(body.take(i - start), usize::MAX as nat) == Ok::<nat, IntParseFailure>(
                value as nat,
            ),
        decreases s@.len() - i,
    {
        let c = s[i];
        let ghost prefix = body.take(i - start + 1);
        assert(prefix.drop_last() =~= body.take(i - start));
        assert(prefix.last() == c);
        if !('0' <= c && c <= '9') {
            proof {
                lemma_parse_digits_prefix_err(body, (i - start + 1) as int, usize::MAX as nat);
            }
            return Err(IntParseFailure::InvalidDigit);
        }
        let d: usize = (c as u32 - 48) as usize;
        if value > (usize::MAX - d) / 10 {
            proof {
                assert(value * 10 + d > usize::MAX) by (nonlinear_arith)
                    requires
                        value > (usize::MAX - d) / 10,
                        d <= 9,
                ;
                lemma_parse_digits_prefix_err(body, (i - start + 1) as int, usize::MAX as nat);
            }
            return Err(IntParseFailure::Overflow);
        }
        proof {
            assert(value * 10 + d <= usize::MAX) by (nonlinear_arith)
                requires
                    value <= (usize::MAX - d) / 10,
                    d <= 9,
            ;
        }
        value = value * 10 + d;
        i = i + 1;
    }
    assert(body.take(i - start) =~= body);
    Ok(value)
}

/// Once a prefix fails to parse, so does every longer string.
proof fn lemma_parse_digits_prefix_err(s: Seq<char>, k: int, max: nat)
    requires
        0 <= k <= s.len(),
        parse_digits(s.take(k), max) is Err,
    ensures
        parse_digits(s, max) == parse_digits(s.take(k), max),
    decreases s.len() - k,
{
    if k < s.len() {
        assert(s.take(k + 1).drop_last() =~= s.take(k));
        lemma_parse_digits_prefix_err(s, k + 1, max);
    } else {
        assert(s.take(k) =~= s);
    }
}

/// The first character of a decimal representation is a digit.
pub proof fn lemma_decimal_starts_with_digit(n: nat)
    ensures
        decimal(n).len() > 0,
        is_digit(decimal(n)[0]),
    decreases n,
{
    if n >= 10 {
        lemma_decimal_starts_with_digit(n / 10);
    }
}

/// Reading a decimal representation back gives the number (when it fits).
pub proof fn lemma_parse_decimal(n: nat, max: nat)
    requires
        n <= max,
    ensures
        parse_unsigned(decimal(n), max) == Ok::<nat, IntParseFailure>(n),
{
    lemma_decimal_starts_with_digit(n);
    lemma_parse_decimal_digits(n, max);
}

proof fn lemma_parse_decimal_digits(n: nat, max: nat)
    requires
        n <= max,
    ensures
        parse_digits(decimal(n), max) == Ok::<nat, IntParseFailure>(n),
    decreases n,
{
    let s = decimal(n);
    if n < 10 {
        assert(s.drop_last() =~= Seq::<char>::empty());
        assert(s.last() == digit_char(n));
        assert(digit_char(n) as nat == n + 48);
        assert(is_digit(s.last()));
        assert(parse_digits(s.drop_last(), max) == Ok::<nat, IntParseFailure>(0));
        assert(0 * 10 + (s.last() as nat - 48) == n);
    } else {
        lemma_parse_decimal_digits(n / 10, max);
        assert(s.drop_last() =~= decimal(n / 10));
        assert(s.last() == digit_char(n % 10));
        assert(digit_char(n % 10) as nat == n % 10 + 48);
        assert((n / 10) * 10 + n % 10 == n);
        assert(is_digit(s.last()));
        assert(parse_digits(s.drop_last(), max) == Ok::<nat, IntParseFailure>(n / 10));
        assert((n / 10) * 10 + (s.last() as nat - 48) == n);
    }
}

/// Parse an unsigned decimal `usize` as std's `str::parse::<usize>` does.
pub fn parse_usize(s: &str) -> (r: Result<usize, IntParseFailure>)
    ensures
        r matches Ok(v) ==> parse_unsigned(s@, usize::MAX as nat) == Ok::<nat, IntParseFailure>(
            v as nat,
        ),
        r matches Err(e) ==> parse_unsigned(s@, usize::MAX as nat) == Err::<nat, IntParseFailure>(
            e,
        ),
{
    let cs = chars_of(s);
    if cs.len() == 0 {
        return Err(IntParseFailure::Empty);
    }
    if (cs[0] == '+' || cs[0] == '-') && cs.len() == 1 {
        return Err(IntParseFailure::InvalidDigit);
    }
    if cs[0] == '+' {
        assert(cs@.skip(1) =~= cs@.drop_first());
        parse_digits_from(&cs, 1)
    } else {
        assert(cs@.skip(0) =~= cs@);
        parse_digits_from(&cs, 0)
    }
}

/// The message std's `ParseIntError` displays for each kind of failure.
pub open spec fn int_failure_message(e: IntParseFailure) -> Seq<char> {
    match e {
        IntParseFailure::Empty => "cannot parse integer from empty string"@,
        IntParseFailure::InvalidDigit => "invalid digit found in string"@,
        IntParseFailure::Overflow => "number too large to fit in target type"@,
    }
}

impl IntParseFailure {
    /// The message std's `ParseIntError` displays for this kind of failure.
    pub fn message(&self) -> (m: String)
        ensures
            m@ == int_failure_message(*self),
    {
        match self {
            IntParseFailure::Empty => "cannot parse integer from empty string".to_owned(),
            IntParseFailure::InvalidDigit => "invalid digit found in string".to_owned(),
            IntParseFailure::Overflow => "number too large to fit in target type".to_owned(),
        }
    }
}

// ---------------------------------------------------------------------------
// Substrings
// ---------------------------------------------------------------------------

/// `pat` occurs in `s` at position `i`.
pub open spec fn occurs_at(s: Seq<char>, pat: Seq<char>, i: int) -> bool {
    0 <= i && i + pat.len() <= s.len() && s.subrange(i, i + pat.len()) == pat
}

/// `pat` occurs somewhere in `s` (`str::contains`).
pub open spec fn contains_seq(s: Seq<char>, pat: Seq<char>) -> bool {
    exists|i: int| occurs_at(s, pat, i)
}

fn occurs_at_exec(s: &Vec<char>, pat: &Vec<char>, i: usize) -> (r: bool)
    requires
        i + pat@.len() <= s@.len(),
    ensures
        r == occurs_at(s@, pat@, i as int),
{
    let n = s.len();
    let mut j: usize = 0;
    while j < pat.len()
        invariant
            i + pat@.len() <= s@.len(),
            n == s@.len(),
            j <= pat@.len(),
            forall|k: int| 0 <= k < j ==> s@[i + k] == pat@[k],
        decreases pat@.len() - j,
    {
        if s[i + j] != pat[j] {
            assert(s@.subrange(i as int, i + pat@.len())[j as int] != pat@[j as int]);
            return false;
        }
        j = j + 1;
    }
    assert(s@.subrange(i as int, i + pat@.len()) =~= pat@);
    true
}

/// Whether `pat` occurs in `s`.
pub fn contains_str(s: &str, pat: &str) -> (r: bool)
    ensures
        r == contains_seq(s@, pat@),
{
    let sc = chars_of(s);
    let pc = chars_of(pat);
    if pc.len() > sc.len() {
        assert forall|i: int| !occurs_at(s@, pat@, i) by {}
        return false;
    }
    let last = sc.len() - pc.len();
    let mut i: usize = 0;
    loop
        invariant
            sc@ == s@,
            pc@ == pat@,
            last == sc@.len() - pc@.len(),
            i <= last,
            forall|k: int| 0 <= k < i ==> !occurs_at(s@, pat@, k),
        decreases last - i,
    {
        if occurs_at_exec(&sc, &pc, i) {
            return true;
        }
        if i == last {
            assert forall|k: int| !occurs_at(s@, pat@, k) by {
                if 0 <= k <= i {
                }
            }
            return false;
        }
        i = i + 1;
    }
}

// ---------------------------------------------------------------------------
// Lexicographic order
// ---------------------------------------------------------------------------

/// `a <= b` in the order of `str` (lexicographic by code point, which is also
/// the byte order of their UTF-8 encodings).
pub open spec fn lex_le(a: Seq<char>, b: Seq<char>) -> bool
    decreases a.len(),
{
    if a.len() == 0 {
        true
    } else if b.len() == 0 {
        false
    } else if a[0] != b[0] {
        a[0] < b[0]
    } else {
        lex_le(a.drop_first(), b.drop_first())
    }
}

/// The order of `str` as a relation.
pub open spec fn lex_order() -> spec_fn(Seq<char>, Seq<char>) -> bool {
    |a: Seq<char>, b: Seq<char>| lex_le(a, b)
}

proof fn lemma_lex_reflexive(a: Seq<char>)
    ensures
        lex_le(a, a),
    decreases a.len(),
{
    if a.len() > 0 {
        lemma_lex_reflexive(a.drop_first());
    }
}

proof fn lemma_lex_antisymmetric(a: Seq<char>, b: Seq<char>)
    requires
        lex_le(a, b),
        lex_le(b, a),
    ensures
        a == b,
    decreases a.len(),
{
    if a.len() == 0 {
        assert(b.len() == 0);
        assert(a =~= b);
    } else {
        assert(b.len() > 0);
        assert(a[0] == b[0]);
        lemma_lex_antisymmetric(a.drop_first(), b.drop_first());
        assert(a =~= seq![a[0]] + a.drop_first());
        assert(b =~= seq![b[0]] + b.drop_first());
    }
}

proof fn lemma_lex_transitive(a: Seq<char>, b: Seq<char>, c: Seq<char>)
    requires
        lex_le(a, b),
        lex_le(b, c),
    ensures
        lex_le(a, c),
    decreases a.len(),
{
    if a.len() > 0 {
        if a[0] == b[0] && b[0] == c[0] {
            lemma_lex_transitive(a.drop_first(), b.drop_first(), c.drop_first());
        }
    }
}

proof fn lemma_lex_connected(a: Seq<char>, b: Seq<char>)
    ensures
        lex_le(a, b) || lex_le(b, a),
    decreases a.len(),
{
    if a.len() > 0 && b.len() > 0 {
        if a[0] == b[0] {
            lemma_lex_connected(a.drop_first(), b.drop_first());
        } else {
            assert(a[0] < b[0] || b[0] < a[0]);
        }
    }
}

/// The order of `str` is a total order.
pub proof fn lemma_lex_total()
    ensures
        total_ordering(lex_order()),
{
    let le = lex_order();
    assert forall|x: Seq<char>| #[trigger] le(x, x) by {
        lemma_lex_reflexive(x);
    }
    assert forall|x: Seq<char>, y: Seq<char>| #[trigger] le(x, y) && #[trigger] le(y, x) implies x
        == y by {
        lemma_lex_antisymmetric(x, y);
    }
    assert forall|x: Seq<char>, y: Seq<char>, z: Seq<char>| #[trigger] le(x, y) && #[trigger] le(
        y,
        z,
    ) implies le(x, z) by {
        lemma_lex_transitive(x, y, z);
    }
    assert forall|x: Seq<char>, y: Seq<char>| #[trigger] le(x, y) || #[trigger] le(y, x) by {
        lemma_lex_connected(x, y);
    }
}

fn lex_le_from(a: &Vec<char>, b: &Vec<char>, i: usize) -> (r: bool)
    requires
        i <= a@.len(),
        i <= b@.len(),
    ensures
        r == lex_le(a@.skip(i as int), b@.skip(i as int)),
    decreases a@.len() - i,
{
    if i == a.len() {
        true
    } else if i == b.len() {
        false
    } else if a[i] != b[i] {
        a[i] < b[i]
    } else {
        assert(a@.skip(i as int).drop_first() =~= a@.skip(i + 1));
        assert(b@.skip(i as int).drop_first() =~= b@.skip(i + 1));
        lex_le_from(a, b, i + 1)
    }
}

/// `a <= b` in the order of `str`.
pub fn chars_le(a: &Vec<char>, b: &Vec<char>) -> (r: bool)
    ensures
        r == lex_le(a@, b@),
{
    assert(a@.skip(0) =~= a@);
    assert(b@.skip(0) =~= b@);
    lex_le_from(a, b, 0)
}

// ---------------------------------------------------------------------------
// Sorting
// ---------------------------------------------------------------------------

/// Inserting `x` after every element below it and before the rest keeps a
/// sequence sorted.
pub proof fn lemma_insert_sorted<T>(s: Seq<T>, x: T, p: int, le: spec_fn(T, T) -> bool)
    requires
        total_ordering(le),
        sorted_by(s, le),
        0 <= p <= s.len(),
        forall|k: int| 0 <= k < p ==> le(#[trigger] s[k], x),
        p < s.len() ==> le(x, s[p]),
    ensures
        sorted_by(s.insert(p, x), le),
        s.insert(p, x).to_multiset() == s.to_multiset().insert(x),
{
    let t = s.insert(p, x);
    assert forall|i: int, j: int| 0 <= i < j < t.len() implies #[trigger] le(t[i], t[j]) by {
        if j < p {
            assert(t[i] == s[i] && t[j] == s[j]);
        } else if j == p {
            assert(t[i] == s[i]);
        } else if i < p {
            assert(t[i] == s[i] && t[j] == s[j - 1]);
            assert(le(s[i], s[j - 1]));
        } else if i == p {
            assert(t[j] == s[j - 1]);
            if j - 1 > p {
                assert(le(s[p], s[j - 1]));
            }
        } else {
            assert(t[i] == s[i - 1] && t[j] == s[j - 1]);
        }
    }
    assert(t.remove(p) =~= s);
    assert(t[p] == x);
    assert(t.remove(p).to_multiset() == t.to_multiset().remove(x));
    assert(t.to_multiset().contains(x));
    assert(t.to_multiset() =~= s.to_multiset().insert(x));
}

/// A sorted permutation of `s` is `s.sort_by(le)`.
pub proof fn lemma_is_sort<T>(s: Seq<T>, r: Seq<T>, le: spec_fn(T, T) -> bool)
    requires
        total_ordering(le),
        sorted_by(r, le),
        r.to_multiset() == s.to_multiset(),
    ensures
        r == s.sort_by(le),
{
    s.lemma_sort_by_ensures(le);
    lemma_sorted_unique(r, s.sort_by(le), le);
}

/// The views of a vector of string slices.
pub open spec fn str_views(v: Seq<&str>) -> Seq<Seq<char>> {
    v.map_values(|s: &str| s@)
}

/// Sort string slices in the order of `str` (as `slice::sort` does).
pub fn sort_strs<'a>(v: &Vec<&'a str>) -> (r: Vec<&'a str>)
    ensures
        str_views(r@) == str_views(v@).sort_by(lex_order()),
{
    proof {
        lemma_lex_total();
    }
    let ghost le = lex_order();
    let mut out: Vec<&'a str> = Vec::new();
    let mut i: usize = 0;
    while i < v.len()
        invariant
            i <= v@.len(),
            total_ordering(le),
            le == lex_order(),
            sorted_by(str_views(out@), le),
            str_views(out@).to_multiset() == str_views(v@).take(i as int).to_multiset(),
        decreases v@.len() - i,
    {
        let x: &'a str = v[i];
        let xc = chars_of(x);
        let mut p: usize = 0;
        while p < out.len()
            invariant
                p <= out@.len(),
                xc@ == x@,
                forall|k: int| 0 <= k < p ==> lex_le(#[trigger] str_views(out@)[k], x@),
            ensures
                p <= out@.len(),
                forall|k: int| 0 <= k < p ==> lex_le(#[trigger] str_views(out@)[k], x@),
                p < out@.len() ==> !lex_le(str_views(out@)[p as int], x@),
            decreases out@.len() - p,
        {
            let oc = chars_of(out[p]);
            if !chars_le(&oc, &xc) {
                break;
            }
            p = p + 1;
        }
        proof {
            if p < out@.len() {
                lemma_lex_connected(x@, out@[p as int]@);
            }
            lemma_insert_sorted(str_views(out@), x@, p as int, le);
            assert(str_views(out@.insert(p as int, x)) =~= str_views(out@).insert(p as int, x@));
            assert(str_views(v@).take(i + 1) =~= str_views(v@).take(i as int).push(x@));
        }
        out.insert(p, x);
        i = i + 1;
    }
    proof {
        assert(str_views(v@).take(i as int) =~= str_views(v@));
        lemma_is_sort(str_views(v@), str_views(out@), le);
    }
    out
}

/// `a <= b` for pairs of strings: by the first component, then by the second.
pub open spec fn pair_le(a: (Seq<char>, Seq<char>), b: (Seq<char>, Seq<char>)) -> bool {
    if a.0 == b.0 {
        lex_le(a.1, b.1)
    } else {
        lex_le(a.0, b.0)
    }
}

/// The order of string pairs as a relation.
pub open spec fn pair_order() -> spec_fn((Seq<char>, Seq<char>), (Seq<char>, Seq<char>)) -> bool {
    |a: (Seq<char>, Seq<char>), b: (Seq<char>, Seq<char>)| pair_le(a, b)
}

/// The order of string pairs is a total order.
pub proof fn lemma_pair_total()
    ensures
        total_ordering(pair_order()),
{
    let le = pair_order();
    assert forall|x: (Seq<char>, Seq<char>)| #[trigger] le(x, x) by {
        lemma_lex_reflexive(x.1);
    }
    assert forall|x: (Seq<char>, Seq<char>), y: (Seq<char>, Seq<char>)| #[trigger] le(x, y)
        && #[trigger] le(y, x) implies x == y by {
        if x.0 == y.0 {
            lemma_lex_antisymmetric(x.1, y.1);
        } else {
            lemma_lex_antisymmetric(x.0, y.0);
        }
    }
    assert forall|
        x: (Seq<char>, Seq<char>),
        y: (Seq<char>, Seq<char>),
        z: (Seq<char>, Seq<char>),
    | #[trigger] le(x, y) && #[trigger] le(y, z) implies le(x, z) by {
        if x.0 == y.0 && y.0 == z.0 {
            lemma_lex_transitive(x.1, y.1, z.1);
        } else if x.0 == y.0 {
        } else if y.0 == z.0 {
        } else {
            lemma_lex_transitive(x.0, y.0, z.0);
            if x.0 == z.0 {
                lemma_lex_antisymmetric(x.0, y.0);
            }
        }
    }
    assert forall|x: (Seq<char>, Seq<char>), y: (Seq<char>, Seq<char>)| #[trigger] le(x, y)
        || #[trigger] le(y, x) by {
        lemma_lex_connected(x.0, y.0);
        lemma_lex_connected(x.1, y.1);
    }
}

/// The views of a vector of string pairs.
pub open spec fn pair_views(v: Seq<(String, String)>) -> Seq<(Seq<char>, Seq<char>)> {
    v.map_values(|p: (String, String)| (p.0@, p.1@))
}

fn pair_le_exec(a: &(String, String), b: &(String, String)) -> (r: bool)
    ensures
        r == pair_le((a.0@, a.1@), (b.0@, b.1@)),
{
    let a0 = chars_of(a.0.as_str());
    let b0 = chars_of(b.0.as_str());
    if chars_eq(&a0, &b0) {
        let a1 = chars_of(a.1.as_str());
        let b1 = chars_of(b.1.as_str());
        chars_le(&a1, &b1)
    } else {
        chars_le(&a0, &b0)
    }
}

/// Sort string pairs by their first component, then by their second.
pub fn sort_pairs(v: &Vec<(String, String)>) -> (r: Vec<(String, String)>)
    ensures
        pair_views(r@) == pair_views(v@).sort_by(pair_order()),
{
    proof {
        lemma_pair_total();
    }
    let ghost le = pair_order();
    let mut out: Vec<(String, String)> = Vec::new();
    let mut i: usize = 0;
    while i < v.len()
        invariant
            i <= v@.len(),
            total_ordering(le),
            le == pair_order(),
            sorted_by(pair_views(out@), le),
            pair_views(out@).to_multiset() == pair_views(v@).take(i as int).to_multiset(),
        decreases v@.len() - i,
    {
        let x: (String, String) = (v[i].0.clone(), v[i].1.clone());
        let ghost xv = (x.0@, x.1@);
        let mut p: usize = 0;
        while p < out.len()
            invariant
                p <= out@.len(),
                xv == (x.0@, x.1@),
                forall|k: int| 0 <= k < p ==> pair_le(#[trigger] pair_views(out@)[k], xv),
            ensures
                p <= out@.len(),
                forall|k: int| 0 <= k < p ==> pair_le(#[trigger] pair_views(out@)[k], xv),
                p < out@.len() ==> !pair_le(pair_views(out@)[p as int], xv),
            decreases out@.len() - p,
        {
            if !pair_le_exec(&out[p], &x) {
                break;
            }
            p = p + 1;
        }
        proof {
            if p < out@.len() {
                assert(le(xv, pair_views(out@)[p as int]) || le(pair_views(out@)[p as int], xv));
            }
            lemma_insert_sorted(pair_views(out@), xv, p as int, le);
            assert(pair_views(out@.insert(p as int, x)) =~= pair_views(out@).insert(p as int, xv));
            assert(pair_views(v@).take(i + 1) =~= pair_views(v@).take(i as int).push(xv));
        }
        out.insert(p, x);
        i = i + 1;
    }
    proof {
        assert(pair_views(v@).take(i as int) =~= pair_views(v@));
        lemma_is_sort(pair_views(v@), pair_views(out@), le);
    }
    out
}

} // verus!
