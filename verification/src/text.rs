//! Character classes and small string operations shared by the primitive modules.
//!
//! Every string is modelled by its sequence of Unicode scalar values (`Seq<char>`).
use vstd::prelude::*;

verus! {

/// ASCII decimal digit `0`..=`9`.
pub open spec fn is_ascii_digit(c: char) -> bool {
    '0' <= c && c <= '9'
}

/// ASCII letter or digit.
pub open spec fn is_ascii_alphanumeric(c: char) -> bool {
    ||| is_ascii_digit(c)
    ||| ('A' <= c && c <= 'Z')
    ||| ('a' <= c && c <= 'z')
}

/// A character of the Unicode general category `Cc` (control codes):
/// U+0000..=U+001F and U+007F..=U+009F.
pub open spec fn is_control(c: char) -> bool {
    ||| c <= '\u{1f}'
    ||| ('\u{7f}' <= c && c <= '\u{9f}')
}

/// A character with the Unicode `White_Space` property.
pub open spec fn is_whitespace(c: char) -> bool {
    ||| ('\u{9}' <= c && c <= '\u{d}')
    ||| c == ' '
    ||| c == '\u{85}'
    ||| c == '\u{a0}'
    ||| c == '\u{1680}'
    ||| ('\u{2000}' <= c && c <= '\u{200a}')
    ||| c == '\u{2028}'
    ||| c == '\u{2029}'
    ||| c == '\u{202f}'
    ||| c == '\u{205f}'
    ||| c == '\u{3000}'
}

/// `s` with its leading whitespace removed.
pub open spec fn trim_start(s: Seq<char>) -> Seq<char>
    decreases s.len(),
{
    if s.len() > 0 && is_whitespace(s[0]) {
        trim_start(s.drop_first())
    } else {
        s
    }
}

/// `s` with its trailing whitespace removed.
pub open spec fn trim_end(s: Seq<char>) -> Seq<char>
    decreases s.len(),
{
    if s.len() > 0 && is_whitespace(s.last()) {
        trim_end(s.drop_last())
    } else {
        s
    }
}

/// `s` with leading and trailing whitespace removed.
pub open spec fn trim(s: Seq<char>) -> Seq<char> {
    trim_end(trim_start(s))
}

/// The code of `c` after ASCII lowercasing; other characters keep their code.
pub open spec fn ascii_lower_code(c: char) -> u32 {
    if 'A' <= c && c <= 'Z' {
        (c as u32 + 32) as u32
    } else {
        c as u32
    }
}

/// `a` and `b` are equal up to ASCII case.
pub open spec fn eq_ignore_ascii_case(a: Seq<char>, b: Seq<char>) -> bool {
    &&& a.len() == b.len()
    &&& forall|i: int| 0 <= i < a.len() ==> ascii_lower_code(#[trigger] a[i]) == ascii_lower_code(b[i])
}

/// `pat` occurs in `s` as a contiguous run starting at `i`.
pub open spec fn occurs_at(s: Seq<char>, pat: Seq<char>, i: int) -> bool {
    0 <= i && i + pat.len() <= s.len() && s.subrange(i, i + pat.len()) == pat
}

/// `pat` occurs somewhere in `s`.
pub open spec fn contains_seq(s: Seq<char>, pat: Seq<char>) -> bool {
    exists|i: int| occurs_at(s, pat, i)
}

/// `c` occurs somewhere in `s`.
pub open spec fn has_char(s: Seq<char>, c: char) -> bool {
    exists|i: int| 0 <= i < s.len() && s[i] == c
}

/// Collects the characters of `s` into a vector.
pub fn chars_of(s: &str) -> (out: Vec<char>)
    ensures
        out@ == s@,
{
    let mut out: Vec<char> = Vec::new();
    for c in it: s.chars()
        invariant
            out@ == it.seq().take(it.index() as int),
    {
        out.push(c);
    }
    out
}

/// Whether `c` is an ASCII digit.
pub fn ascii_digit(c: char) -> (b: bool)
    ensures
        b == is_ascii_digit(c),
{
    '0' <= c && c <= '9'
}

/// Whether `c` is an ASCII letter or digit.
pub fn ascii_alphanumeric(c: char) -> (b: bool)
    ensures
        b == is_ascii_alphanumeric(c),
{
    ('0' <= c && c <= '9') || ('A' <= c && c <= 'Z') || ('a' <= c && c <= 'z')
}

/// Whether `c` is a control character.
pub fn control(c: char) -> (b: bool)
    ensures
        b == is_control(c),
{
    c <= '\u{1f}' || ('\u{7f}' <= c && c <= '\u{9f}')
}

/// Whether `c` has the Unicode `White_Space` property.
pub fn whitespace(c: char) -> (b: bool)
    ensures
        b == is_whitespace(c),
{
    ('\u{9}' <= c && c <= '\u{d}') || c == ' ' || c == '\u{85}' || c == '\u{a0}' || c
        == '\u{1680}' || ('\u{2000}' <= c && c <= '\u{200a}') || c == '\u{2028}' || c == '\u{2029}'
        || c == '\u{202f}' || c == '\u{205f}' || c == '\u{3000}'
}

/// The code of `c` after ASCII lowercasing.
pub fn lower_code(c: char) -> (r: u32)
    ensures
        r == ascii_lower_code(c),
{
    if 'A' <= c && c <= 'Z' {
        c as u32 + 32
    } else {
        c as u32
    }
}

proof fn lemma_trim_start_skip(s: Seq<char>, i: int)
    requires
        0 <= i <= s.len(),
        forall|k: int| 0 <= k < i ==> is_whitespace(#[trigger] s[k]),
    ensures
        trim_start(s) == trim_start(s.skip(i)),
    decreases i,
{
    if i > 0 {
        assert(s.drop_first().skip(i - 1) =~= s.skip(i));
        lemma_trim_start_skip(s.drop_first(), i - 1);
    } else {
        assert(s.skip(0) =~= s);
    }
}

proof fn lemma_trim_end_take(s: Seq<char>, j: int)
    requires
        0 <= j <= s.len(),
        forall|k: int| j <= k < s.len() ==> is_whitespace(#[trigger] s[k]),
    ensures
        trim_end(s) == trim_end(s.take(j)),
    decreases s.len() - j,
{
    if j < s.len() {
        assert(s.drop_last().take(j) =~= s.take(j));
        lemma_trim_end_take(s.drop_last(), j);
    } else {
        assert(s.take(j) =~= s);
    }
}

/// Positions `(start, end)` such that `v[start..end]` is `v` trimmed.
pub fn trim_bounds(v: &Vec<char>) -> (r: (usize, usize))
    ensures
        r.0 <= r.1 <= v.len(),
        v@.subrange(r.0 as int, r.1 as int) == trim(v@),
{
    let n = v.len();
    let mut start: usize = 0;
    while start < n && whitespace(v[start])
        invariant
            start <= n == v.len(),
            forall|k: int| 0 <= k < start ==> is_whitespace(#[trigger] v@[k]),
        decreases n - start,
    {
        start = start + 1;
    }
    proof {
        lemma_trim_start_skip(v@, start as int);
    }
    let ghost rest = v@.skip(start as int);
    assert(trim_start(rest) == rest);
    let mut end: usize = n;
    while end > start && whitespace(v[end - 1])
        invariant
            start <= end <= n == v.len(),
            forall|k: int| end <= k < n ==> is_whitespace(#[trigger] v@[k]),
        decreases end,
    {
        end = end - 1;
    }
    proof {
        let e = end - start;
        assert forall|k: int| e <= k < rest.len() implies is_whitespace(#[trigger] rest[k]) by {
            assert(rest[k] == v@[k + start]);
        }
        lemma_trim_end_take(rest, e);
        assert(rest.take(e) =~= v@.subrange(start as int, end as int));
    }
    (start, end)
}

/// `s` with leading and trailing whitespace removed.
pub fn trim_str(s: &str) -> (r: &str)
    ensures
        r@ == trim(s@),
{
    let v = chars_of(s);
    let (a, b) = trim_bounds(&v);
    s.substring_char(a, b)
}

/// Whether the characters of `v` equal those of `lit` up to ASCII case.
pub fn chars_eq_ignore_ascii_case(v: &[char], lit: &[char]) -> (b: bool)
    ensures
        b == eq_ignore_ascii_case(v@, lit@),
{
    if v.len() != lit.len() {
        return false;
    }
    let mut i: usize = 0;
    while i < v.len()
        invariant
            i <= v.len() == lit.len(),
            forall|k: int| 0 <= k < i ==> ascii_lower_code(#[trigger] v@[k]) == ascii_lower_code(
                lit@[k],
            ),
        decreases v.len() - i,
    {
        if lower_code(v[i]) != lower_code(lit[i]) {
            return false;
        }
        i = i + 1;
    }
    true
}

/// Whether `s` equals `lit` up to ASCII case.
pub fn str_eq_ignore_ascii_case(s: &str, lit: &[char]) -> (b: bool)
    ensures
        b == eq_ignore_ascii_case(s@, lit@),
{
    let v = chars_of(s);
    chars_eq_ignore_ascii_case(v.as_slice(), lit)
}

/// Whether `pat` occurs in `v`.
pub fn chars_contain(v: &[char], pat: &[char]) -> (b: bool)
    ensures
        b == contains_seq(v@, pat@),
{
    let n = v.len();
    let m = pat.len();
    if m > n {
        assert forall|i: int| !occurs_at(v@, pat@, i) by {}
        return false;
    }
    let mut i: usize = 0;
    while i <= n - m
        invariant
            m <= n,
            n == v.len(),
            m == pat.len(),
            forall|k: int| 0 <= k < i ==> !occurs_at(v@, pat@, k),
        decreases n - m + 1 - i,
    {
        let mut j: usize = 0;
        let mut same = true;
        while j < m
            invariant
                i + m <= n,
                j <= m,
                n == v.len(),
                m == pat.len(),
                same == (forall|k: int| 0 <= k < j ==> v@[i + k] == pat@[k]),
            decreases m - j,
        {
            if v[i + j] != pat[j] {
                same = false;
            }
            j = j + 1;
        }
        if same {
            assert(v@.subrange(i as int, i + m) =~= pat@);
            assert(occurs_at(v@, pat@, i as int));
            return true;
        }
        assert(!occurs_at(v@, pat@, i as int)) by {
            if occurs_at(v@, pat@, i as int) {
                assert forall|k: int| 0 <= k < m implies v@[i + k] == pat@[k] by {
                    assert(v@.subrange(i as int, i + m)[k] == v@[i + k]);
                }
            }
        }
        i = i + 1;
    }
    assert forall|k: int| !occurs_at(v@, pat@, k) by {
        if 0 <= k && k + m <= n {
            assert(k < i);
        }
    }
    false
}

/// `String::push`: appends the character `c` to the end of `s`.
#[verifier::external_body]
pub(crate) fn push_char(s: &mut String, c: char)
    ensures
        final(s)@ == old(s)@.push(c),
{
    s.push(c);
}


/// The ASCII digit character for `d` (`0 <= d < 10`).
pub open spec fn digit_char(d: nat) -> char {
    ((48 + d) as u8) as char
}

/// The decimal representation of `n`, without leading zeros.
pub open spec fn decimal(n: nat) -> Seq<char>
    decreases n,
{
    if n < 10 {
        seq![digit_char(n)]
    } else {
        decimal(n / 10).push(digit_char(n % 10))
    }
}

/// The decimal representation of a signed integer, with `-` before a negative one.
pub open spec fn signed_decimal(n: int) -> Seq<char> {
    if n < 0 {
        seq!['-'] + decimal((-n) as nat)
    } else {
        decimal(n as nat)
    }
}

/// Appends the decimal representation of `n` to `s`.
pub fn push_decimal(s: &mut String, n: u64)
    ensures
        final(s)@ == old(s)@ + decimal(n as nat),
    decreases n,
{
    if n >= 10 {
        push_decimal(s, n / 10);
    }
    let d: u8 = (n % 10) as u8;
    push_char(s, (48u8 + d) as char);
    proof {
        if n >= 10 {
            assert(old(s)@ + decimal(n as nat) =~= old(s)@ + decimal((n / 10) as nat) + seq![
                digit_char((n % 10) as nat),
            ]);
        } else {
            assert(old(s)@ + decimal(n as nat) =~= old(s)@.push(digit_char(n as nat)));
        }
    }
}

/// Appends the decimal representation of the signed integer `n` to `s`.
pub fn push_signed_decimal(s: &mut String, n: i64)
    requires
        n > i64::MIN,
    ensures
        final(s)@ == old(s)@ + signed_decimal(n as int),
{
    if n < 0 {
        push_char(s, '-');
        push_decimal(s, (-n) as u64);
        assert(final(s)@ =~= old(s)@ + signed_decimal(n as int));
    } else {
        push_decimal(s, n as u64);
    }
}


/// Removing leading whitespace leaves a suffix that is empty or starts with a non-whitespace character.
pub proof fn lemma_trim_start_shape(s: Seq<char>)
    ensures
        trim_start(s).len() <= s.len(),
        trim_start(s) == s.skip(s.len() - trim_start(s).len()),
        trim_start(s).len() == 0 || !is_whitespace(trim_start(s)[0]),
    decreases s.len(),
{
    if s.len() > 0 && is_whitespace(s[0]) {
        lemma_trim_start_shape(s.drop_first());
        let t = trim_start(s);
        assert(s.drop_first().skip(s.drop_first().len() - t.len()) =~= s.skip(s.len() - t.len()));
    } else {
        assert(s.skip(0) =~= s);
    }
}

/// Removing trailing whitespace leaves a prefix that is empty or ends with a non-whitespace character.
pub proof fn lemma_trim_end_shape(s: Seq<char>)
    ensures
        trim_end(s).len() <= s.len(),
        trim_end(s) == s.take(trim_end(s).len() as int),
        trim_end(s).len() == 0 || !is_whitespace(trim_end(s).last()),
    decreases s.len(),
{
    if s.len() > 0 && is_whitespace(s.last()) {
        lemma_trim_end_shape(s.drop_last());
        let t = trim_end(s);
        assert(s.drop_last().take(t.len() as int) =~= s.take(t.len() as int));
    } else {
        assert(s.take(s.len() as int) =~= s);
    }
}

/// A trimmed string is empty or starts and ends with non-whitespace characters.
pub proof fn lemma_trim_shape(s: Seq<char>)
    ensures
        trim(s).len() == 0 || (!is_whitespace(trim(s)[0]) && !is_whitespace(trim(s).last())),
{
    let t = trim_start(s);
    lemma_trim_start_shape(s);
    lemma_trim_end_shape(t);
    let u = trim_end(t);
    if u.len() > 0 {
        assert(u[0] == t[0]);
    }
}

/// Trimming a trimmed string changes nothing.
pub proof fn lemma_trim_idempotent(s: Seq<char>)
    ensures
        trim(trim(s)) == trim(s),
{
    lemma_trim_shape(s);
}

/// Characters equal up to ASCII case agree on being whitespace.
pub proof fn lemma_whitespace_ignores_ascii_case(x: char, y: char)
    requires
        ascii_lower_code(x) == ascii_lower_code(y),
    ensures
        is_whitespace(x) <==> is_whitespace(y),
{
}

/// Trimming strings equal up to ASCII case gives strings equal up to ASCII case.
pub proof fn lemma_trim_ignores_ascii_case(a: Seq<char>, b: Seq<char>)
    requires
        eq_ignore_ascii_case(a, b),
    ensures
        eq_ignore_ascii_case(trim(a), trim(b)),
{
    lemma_trim_start_ignores_ascii_case(a, b);
    lemma_trim_end_ignores_ascii_case(trim_start(a), trim_start(b));
}

proof fn lemma_trim_start_ignores_ascii_case(a: Seq<char>, b: Seq<char>)
    requires
        eq_ignore_ascii_case(a, b),
    ensures
        eq_ignore_ascii_case(trim_start(a), trim_start(b)),
    decreases a.len(),
{
    if a.len() > 0 {
        assert(ascii_lower_code(a[0]) == ascii_lower_code(b[0]));
        lemma_whitespace_ignores_ascii_case(a[0], b[0]);
        if is_whitespace(a[0]) {
            assert forall|i: int| 0 <= i < a.drop_first().len() implies ascii_lower_code(
                #[trigger] a.drop_first()[i],
            ) == ascii_lower_code(b.drop_first()[i]) by {
                assert(ascii_lower_code(a[i + 1]) == ascii_lower_code(b[i + 1]));
            }
            lemma_trim_start_ignores_ascii_case(a.drop_first(), b.drop_first());
        }
    }
}

proof fn lemma_trim_end_ignores_ascii_case(a: Seq<char>, b: Seq<char>)
    requires
        eq_ignore_ascii_case(a, b),
    ensures
        eq_ignore_ascii_case(trim_end(a), trim_end(b)),
    decreases a.len(),
{
    if a.len() > 0 {
        assert(ascii_lower_code(a[a.len() - 1]) == ascii_lower_code(b[b.len() - 1]));
        lemma_whitespace_ignores_ascii_case(a.last(), b.last());
        if is_whitespace(a.last()) {
            assert forall|i: int| 0 <= i < a.drop_last().len() implies ascii_lower_code(
                #[trigger] a.drop_last()[i],
            ) == ascii_lower_code(b.drop_last()[i]) by {
                assert(ascii_lower_code(a[i]) == ascii_lower_code(b[i]));
            }
            lemma_trim_end_ignores_ascii_case(a.drop_last(), b.drop_last());
        }
    }
}

/// Equality up to ASCII case is transitive.
pub proof fn lemma_eq_ignore_ascii_case_trans(a: Seq<char>, b: Seq<char>, c: Seq<char>)
    requires
        eq_ignore_ascii_case(a, b),
        eq_ignore_ascii_case(b, c),
    ensures
        eq_ignore_ascii_case(a, c),
{
    assert forall|i: int| 0 <= i < a.len() implies ascii_lower_code(#[trigger] a[i])
        == ascii_lower_code(c[i]) by {
        assert(ascii_lower_code(a[i]) == ascii_lower_code(b[i]));
        assert(ascii_lower_code(b[i]) == ascii_lower_code(c[i]));
    }
}

/// Equality up to ASCII case is symmetric.
pub proof fn lemma_eq_ignore_ascii_case_sym(a: Seq<char>, b: Seq<char>)
    requires
        eq_ignore_ascii_case(a, b),
    ensures
        eq_ignore_ascii_case(b, a),
{
    assert forall|i: int| 0 <= i < b.len() implies ascii_lower_code(#[trigger] b[i])
        == ascii_lower_code(a[i]) by {
        assert(ascii_lower_code(a[i]) == ascii_lower_code(b[i]));
    }
}

/// The ASCII classes: digits are `0`..=`9`; letters and digits are `0`..=`9`,
/// `A`..=`Z` and `a`..=`z`, and nothing else.
pub proof fn lemma_ascii_classes(c: char)
    ensures
        is_ascii_digit(c) <==> ('0' <= c && c <= '9'),
        is_ascii_alphanumeric(c) <==> (('0' <= c && c <= '9') || ('A' <= c && c <= 'Z') || ('a'
            <= c && c <= 'z')),
        !is_ascii_alphanumeric('-') && !is_ascii_alphanumeric('_') && !is_ascii_alphanumeric('.'),
{
}

/// Control characters: every character below a space and `U+007F`..=`U+009F`;
/// no printable ASCII character (space to `~`) is one.
pub proof fn lemma_control_class(c: char)
    ensures
        c < ' ' ==> is_control(c),
        ('\u{7f}' <= c && c <= '\u{9f}') ==> is_control(c),
        (' ' <= c && c <= '~') ==> !is_control(c),
        c > '\u{9f}' ==> !is_control(c),
{
}

/// Whitespace: the ASCII space, tab, line feed, vertical tab, form feed, and
/// carriage return are whitespace, as are `U+0085`, `U+00A0` and `U+3000`; no
/// visible ASCII character (`!` to `~`) is.
pub proof fn lemma_whitespace_class(c: char)
    ensures
        (c == ' ' || c == '\t' || c == '\n' || c == '\u{b}' || c == '\u{c}' || c == '\r')
            ==> is_whitespace(c),
        (c == '\u{85}' || c == '\u{a0}' || c == '\u{3000}') ==> is_whitespace(c),
        ('!' <= c && c <= '~') ==> !is_whitespace(c),
{
}

/// ASCII case folding: an uppercase ASCII letter folds to its lowercase letter,
/// and every other character folds to itself.
pub proof fn lemma_ascii_case_folding(c: char, d: char)
    ensures
        ('A' <= c && c <= 'Z') ==> ascii_lower_code(c) == c as u32 + 32,
        !('A' <= c && c <= 'Z') ==> ascii_lower_code(c) == c as u32,
        ascii_lower_code(c) == ascii_lower_code(d) <==> (c == d || (('A' <= c && c <= 'Z')
            && d as u32 == c as u32 + 32) || (('A' <= d && d <= 'Z') && c as u32 == d as u32
            + 32)),
{
}

/// The whole of a string that is only whitespace trims away, and a string with
/// some other character keeps it.
pub proof fn lemma_trim_empty_iff_all_whitespace(s: Seq<char>)
    ensures
        trim(s).len() == 0 <==> forall|i: int| 0 <= i < s.len() ==> is_whitespace(#[trigger] s[i]),
{
    lemma_trim_start_empty(s);
    let t = trim_start(s);
    lemma_trim_start_shape(s);
    lemma_trim_end_shape(t);
    if t.len() > 0 {
        assert(trim_end(t).len() > 0) by {
            if trim_end(t).len() == 0 {
                lemma_trim_end_empty(t);
                assert(is_whitespace(t[0]));
            }
        }
    }
}

proof fn lemma_trim_start_empty(s: Seq<char>)
    ensures
        trim_start(s).len() == 0 <==> forall|i: int| 0 <= i < s.len() ==> is_whitespace(
            #[trigger] s[i],
        ),
    decreases s.len(),
{
    if s.len() > 0 && is_whitespace(s[0]) {
        lemma_trim_start_empty(s.drop_first());
        if trim_start(s).len() == 0 {
            assert forall|i: int| 0 <= i < s.len() implies is_whitespace(#[trigger] s[i]) by {
                if i > 0 {
                    assert(s[i] == s.drop_first()[i - 1]);
                }
            }
        }
        if forall|i: int| 0 <= i < s.len() ==> is_whitespace(#[trigger] s[i]) {
            assert forall|i: int| 0 <= i < s.drop_first().len() implies is_whitespace(
                #[trigger] s.drop_first()[i],
            ) by {
                assert(s.drop_first()[i] == s[i + 1]);
            }
        }
    }
}

proof fn lemma_trim_end_empty(s: Seq<char>)
    ensures
        trim_end(s).len() == 0 <==> forall|i: int| 0 <= i < s.len() ==> is_whitespace(
            #[trigger] s[i],
        ),
    decreases s.len(),
{
    if s.len() > 0 && is_whitespace(s.last()) {
        lemma_trim_end_empty(s.drop_last());
        if trim_end(s).len() == 0 {
            assert forall|i: int| 0 <= i < s.len() implies is_whitespace(#[trigger] s[i]) by {
                if i < s.len() - 1 {
                    assert(s[i] == s.drop_last()[i]);
                }
            }
        }
        if forall|i: int| 0 <= i < s.len() ==> is_whitespace(#[trigger] s[i]) {
            assert forall|i: int| 0 <= i < s.drop_last().len() implies is_whitespace(
                #[trigger] s.drop_last()[i],
            ) by {
                assert(s.drop_last()[i] == s[i]);
            }
        }
    } else if s.len() > 0 {
        assert(!is_whitespace(s[s.len() - 1]));
    }
}

/// Trimming keeps the middle of the string: the result is a contiguous part of
/// it, everything before and after that part is whitespace, and the result is
/// empty or starts and ends with a non-whitespace character.
pub proof fn lemma_trim_keeps_middle(s: Seq<char>)
    ensures
        exists|a: int|
            #![trigger s.subrange(a, a + trim(s).len())]
            0 <= a && a + trim(s).len() <= s.len() && s.subrange(a, a + trim(s).len()) == trim(s)
                && (forall|k: int| 0 <= k < a ==> is_whitespace(#[trigger] s[k])) && (forall|k: int|
                a + trim(s).len() <= k < s.len() ==> is_whitespace(#[trigger] s[k])),
        trim(s).len() == 0 || (!is_whitespace(trim(s)[0]) && !is_whitespace(trim(s).last())),
{
    let t = trim_start(s);
    lemma_trim_start_shape(s);
    lemma_trim_end_shape(t);
    lemma_trim_shape(s);
    let a = s.len() - t.len();
    let u = trim(s);
    lemma_trim_start_prefix_whitespace(s);
    lemma_trim_end_suffix_whitespace(t);
    assert(s.subrange(a, a + u.len()) =~= u) by {
        assert forall|k: int| 0 <= k < u.len() implies s.subrange(a, a + u.len())[k] == u[k] by {
            assert(u[k] == t[k]);
            assert(t[k] == s[a + k]);
        }
    }
    assert forall|k: int| a + u.len() <= k < s.len() implies is_whitespace(#[trigger] s[k]) by {
        assert(s[k] == t[k - a]);
    }
}

proof fn lemma_trim_start_prefix_whitespace(s: Seq<char>)
    ensures
        forall|k: int| 0 <= k < s.len() - trim_start(s).len() ==> is_whitespace(#[trigger] s[k]),
    decreases s.len(),
{
    if s.len() > 0 && is_whitespace(s[0]) {
        lemma_trim_start_prefix_whitespace(s.drop_first());
        assert forall|k: int| 0 <= k < s.len() - trim_start(s).len() implies is_whitespace(
            #[trigger] s[k],
        ) by {
            if k > 0 {
                assert(s[k] == s.drop_first()[k - 1]);
            }
        }
    }
}

proof fn lemma_trim_end_suffix_whitespace(s: Seq<char>)
    ensures
        forall|k: int| trim_end(s).len() <= k < s.len() ==> is_whitespace(#[trigger] s[k]),
    decreases s.len(),
{
    if s.len() > 0 && is_whitespace(s.last()) {
        lemma_trim_end_suffix_whitespace(s.drop_last());
        assert forall|k: int| trim_end(s).len() <= k < s.len() implies is_whitespace(
            #[trigger] s[k],
        ) by {
            if k < s.len() - 1 {
                assert(s[k] == s.drop_last()[k]);
            }
        }
    }
}

} // verus!
