//! Character-level text handling shared by the command parsers: splitting a
//! message into words, prefix handling, and decimal numbers.
use vstd::prelude::*;

verus! {

// ---------------------------------------------------------------------------
// White space and case
// ---------------------------------------------------------------------------

/// Whether a character has Unicode's `White_Space` property: U+0009 to
/// U+000D, U+0020, U+0085, U+00A0, U+1680, U+2000 to U+200A, U+2028, U+2029,
/// U+202F, U+205F and U+3000.
pub open spec fn is_white_space(c: char) -> bool {
    let u = c as int;
    ||| 0x9 <= u <= 0xD
    ||| u == 0x20
    ||| u == 0x85
    ||| u == 0xA0
    ||| u == 0x1680
    ||| 0x2000 <= u <= 0x200A
    ||| u == 0x2028
    ||| u == 0x2029
    ||| u == 0x202F
    ||| u == 0x205F
    ||| u == 0x3000
}

/// Whether a character is white space, as `char::is_whitespace` reports it.
pub fn char_is_whitespace(c: char) -> (b: bool)
    ensures
        b == is_white_space(c),
{
    let u: u32 = c as u32;
    (0x9 <= u && u <= 0xD) || u == 0x20 || u == 0x85 || u == 0xA0 || u == 0x1680 || (0x2000 <= u
        && u <= 0x200A) || u == 0x2028 || u == 0x2029 || u == 0x202F || u == 0x205F || u == 0x3000
}

/// The Unicode lower-case mapping of a string.
pub uninterp spec fn lowercase(s: Seq<char>) -> Seq<char>;

/// `str::to_lowercase`. Its documentation promises the lower-case equivalent
/// of the string under Unicode's case tables; which string that is, is left to
/// the name `lowercase`.
#[verifier::external_body]
pub(crate) fn to_lowercase(s: &str) -> (r: String)
    ensures
        r@ == lowercase(s@),
{
    s.to_lowercase()
}

// ---------------------------------------------------------------------------
// Characters of a string
// ---------------------------------------------------------------------------

/// The characters of `s`, in order.
pub fn chars_of(s: &str) -> (v: Vec<char>)
    ensures
        v@ == s@,
{
    let n: usize = s.unicode_len();
    let mut v: Vec<char> = Vec::new();
    let mut i: usize = 0;
    while i < n
        invariant
            n == s@.len(),
            i <= n,
            v@ == s@.take(i as int),
        decreases n - i,
    {
        let c = s.get_char(i);
        v.push(c);
        proof {
            assert(s@.take(i as int).push(c) =~= s@.take(i + 1));
        }
        i = i + 1;
    }
    proof {
        assert(s@.take(n as int) =~= s@);
    }
    v
}

/// The views of a sequence of strings.
pub open spec fn views(v: Seq<String>) -> Seq<Seq<char>> {
    v.map_values(|w: String| w@)
}

pub proof fn lemma_views_push(v: Seq<String>, w: String)
    ensures
        views(v.push(w)) == views(v).push(w@),
{
    assert(views(v.push(w)) =~= views(v).push(w@));
}

// ---------------------------------------------------------------------------
// Words (the pieces that `str::split_whitespace` yields)
// ---------------------------------------------------------------------------

/// The length of the run of non-white-space characters at the start of `s`.
pub open spec fn word_len(s: Seq<char>) -> nat
    decreases s.len(),
{
    if s.len() == 0 || is_white_space(s[0]) {
        0
    } else {
        1 + word_len(s.drop_first())
    }
}

pub proof fn lemma_word_len_bounded(s: Seq<char>)
    ensures
        word_len(s) <= s.len(),
        s.len() > 0 && !is_white_space(s[0]) ==> word_len(s) >= 1,
    decreases s.len(),
{
    if s.len() > 0 && !is_white_space(s[0]) {
        lemma_word_len_bounded(s.drop_first());
    }
}

/// `word_len` is the index of the first white space, or the length.
pub proof fn lemma_word_len_exact(s: Seq<char>, k: int)
    requires
        0 <= k <= s.len(),
        forall|j: int| 0 <= j < k ==> !is_white_space(#[trigger] s[j]),
        k == s.len() || is_white_space(s[k]),
    ensures
        word_len(s) == k,
    decreases k,
{
    if k > 0 {
        let t = s.drop_first();
        assert forall|j: int| 0 <= j < k - 1 implies !is_white_space(#[trigger] t[j]) by {
            assert(t[j] == s[j + 1]);
        }
        if k - 1 < t.len() {
            assert(t[k - 1] == s[k]);
        }
        lemma_word_len_exact(t, k - 1);
    }
}

/// The maximal runs of non-white-space characters of `s`, in order: what
/// `str::split_whitespace` yields.
pub open spec fn words(s: Seq<char>) -> Seq<Seq<char>>
    decreases s.len(),
{
    if s.len() == 0 {
        seq![]
    } else if is_white_space(s[0]) {
        words(s.drop_first())
    } else {
        let k = word_len(s);
        proof {
            lemma_word_len_bounded(s);
        }
        seq![s.take(k as int)] + words(s.skip(k as int))
    }
}

/// No word is empty, and no word holds white space.
pub proof fn lemma_words_are_words(s: Seq<char>)
    ensures
        forall|i: int|
            0 <= i < words(s).len() ==> #[trigger] words(s)[i].len() > 0 && forall|j: int|
                0 <= j < words(s)[i].len() ==> !is_white_space(words(s)[i][j]),
    decreases s.len(),
{
    if s.len() == 0 {
        assert(words(s).len() == 0);
    } else if is_white_space(s[0]) {
        lemma_words_are_words(s.drop_first());
        assert(words(s) == words(s.drop_first()));
    } else {
        let k = word_len(s);
        lemma_word_len_bounded(s);
        lemma_words_are_words(s.skip(k as int));
        lemma_word_prefix_has_no_white_space(s);
        let w = words(s);
        let rest = words(s.skip(k as int));
        assert(w == seq![s.take(k as int)] + rest);
        assert forall|i: int| 0 <= i < w.len() implies #[trigger] w[i].len() > 0 && forall|j: int|
            0 <= j < w[i].len() ==> !is_white_space(w[i][j]) by {
            if i > 0 {
                assert(w[i] == rest[i - 1]);
            } else {
                assert(w[0] == s.take(k as int));
                assert forall|j: int| 0 <= j < w[0].len() implies !is_white_space(w[0][j]) by {
                    assert(w[0][j] == s[j]);
                }
            }
        }
    }
}

pub proof fn lemma_word_prefix_has_no_white_space(s: Seq<char>)
    ensures
        forall|j: int| 0 <= j < word_len(s) ==> !is_white_space(#[trigger] s[j]),
    decreases s.len(),
{
    if s.len() > 0 && !is_white_space(s[0]) {
        let t = s.drop_first();
        lemma_word_prefix_has_no_white_space(t);
        lemma_word_len_bounded(t);
        assert forall|j: int| 0 <= j < word_len(s) implies !is_white_space(#[trigger] s[j]) by {
            if j > 0 {
                assert(s[j] == t[j - 1]);
            }
        }
    }
}

/// The words of `s`, as `str::split_whitespace` yields them.
pub fn split_whitespace(s: &str) -> (r: Vec<String>)
    ensures
        views(r@) == words(s@),
{
    let cs = chars_of(s);
    let n: usize = cs.len();
    let mut r: Vec<String> = Vec::new();
    let mut i: usize = 0;
    proof {
        assert(s@.skip(0) =~= s@);
        assert(views(r@) =~= Seq::<Seq<char>>::empty());
        assert(views(r@) + words(s@.skip(0)) =~= words(s@));
    }
    while i < n
        invariant
            n == s@.len(),
            cs@ == s@,
            i <= n,
            views(r@) + words(s@.skip(i as int)) == words(s@),
        decreases n - i,
    {
        let ghost rest = s@.skip(i as int);
        if char_is_whitespace(cs[i]) {
            proof {
                assert(rest[0] == s@[i as int]);
                assert(rest.drop_first() =~= s@.skip(i + 1));
            }
            i = i + 1;
        } else {
            let mut j: usize = i + 1;
            while j < n && !char_is_whitespace(cs[j])
                invariant
                    n == s@.len(),
                    cs@ == s@,
                    i < j <= n,
                    forall|k: int| i <= k < j ==> !is_white_space(#[trigger] s@[k]),
                decreases n - j,
            {
                j = j + 1;
            }
            proof {
                assert(rest[0] == s@[i as int]);
                assert forall|k: int| 0 <= k < j - i implies !is_white_space(#[trigger] rest[k]) by {
                    assert(rest[k] == s@[i + k]);
                }
                if j < n {
                    assert(rest[j - i] == s@[j as int]);
                }
                lemma_word_len_exact(rest, j - i);
                assert(rest.take(j - i) =~= s@.subrange(i as int, j as int));
                assert(rest.skip(j - i) =~= s@.skip(j as int));
            }
            let w = s.substring_char(i, j).to_owned();
            let ghost old_r = r@;
            r.push(w);
            proof {
                lemma_views_push(old_r, w);
                assert(views(r@) + words(s@.skip(j as int)) =~= views(old_r) + words(rest));
            }
            i = j;
        }
    }
    proof {
        assert(s@.skip(n as int) =~= Seq::<char>::empty());
        assert(views(r@) + words(s@.skip(n as int)) =~= views(r@));
    }
    r
}

// ---------------------------------------------------------------------------
// Prefixes
// ---------------------------------------------------------------------------

/// Whether `w` occurs in `s` at position `i`.
pub open spec fn occurs_at(s: Seq<char>, i: int, w: Seq<char>) -> bool {
    0 <= i && i + w.len() <= s.len() && s.subrange(i, i + w.len()) == w
}

/// Whether `w` occurs in `cs` at position `i`.
pub fn occurs_at_exec(cs: &Vec<char>, i: usize, w: &Vec<char>) -> (b: bool)
    ensures
        b == occurs_at(cs@, i as int, w@),
{
    if i > cs.len() || w.len() > cs.len() - i {
        return false;
    }
    let mut k: usize = 0;
    while k < w.len()
        invariant
            i + w.len() <= cs.len(),
            k <= w@.len(),
            forall|t: int| 0 <= t < k ==> cs@[i + t] == w@[t],
        decreases w@.len() - k,
    {
        if cs[i + k] != w[k] {
            proof {
                assert(cs@.subrange(i as int, i + w@.len())[k as int] == cs@[i + k]);
            }
            return false;
        }
        k = k + 1;
    }
    proof {
        assert(cs@.subrange(i as int, i + w@.len()) =~= w@);
    }
    true
}

/// Whether `s` begins with `p`, as `str::starts_with` reports it.
pub fn starts_with(s: &str, p: &str) -> (b: bool)
    ensures
        b == p@.is_prefix_of(s@),
{
    let cs = chars_of(s);
    let ps = chars_of(p);
    let b = occurs_at_exec(&cs, 0, &ps);
    proof {
        if b {
            assert(s@.subrange(0, p@.len() as int) == p@);
        }
        if p@.is_prefix_of(s@) {
            assert(s@.subrange(0, 0 + p@.len() as int) == p@);
        }
    }
    b
}

/// `s` with every leading copy of `p` removed, as `str::trim_start_matches`
/// does with a string pattern; an empty pattern removes nothing.
pub open spec fn trimmed_start(s: Seq<char>, p: Seq<char>) -> Seq<char>
    decreases s.len(),
{
    if p.len() > 0 && p.is_prefix_of(s) {
        trimmed_start(s.skip(p.len() as int), p)
    } else {
        s
    }
}

/// Trimming a non-empty prefix leaves a suffix of the string that does not
/// start with the prefix.
pub proof fn lemma_trimmed_start(s: Seq<char>, p: Seq<char>)
    requires
        p.len() > 0,
    ensures
        !p.is_prefix_of(trimmed_start(s, p)),
        trimmed_start(s, p).len() <= s.len(),
        trimmed_start(s, p) == s.skip(s.len() - trimmed_start(s, p).len()),
    decreases s.len(),
{
    if p.is_prefix_of(s) {
        let t = s.skip(p.len() as int);
        lemma_trimmed_start(t, p);
        let r = trimmed_start(t, p);
        assert(t.skip(t.len() - r.len()) =~= s.skip(s.len() - r.len()));
    } else {
        assert(s.skip(0) =~= s);
    }
}

/// `str::trim_start_matches` with a string pattern.
pub fn trim_start_matches(s: &str, p: &str) -> (r: String)
    ensures
        r@ == trimmed_start(s@, p@),
{
    let cs = chars_of(s);
    let ps = chars_of(p);
    let n: usize = cs.len();
    let mut i: usize = 0;
    proof {
        assert(s@.skip(0) =~= s@);
    }
    if ps.len() > 0 {
        while occurs_at_exec(&cs, i, &ps)
            invariant
                cs@ == s@,
                ps@ == p@,
                p@.len() > 0,
                i <= n == s@.len(),
                trimmed_start(s@.skip(i as int), p@) == trimmed_start(s@, p@),
            decreases n - i,
        {
            proof {
                let rest = s@.skip(i as int);
                assert(rest.subrange(0, p@.len() as int) =~= s@.subrange(i as int, i + p@.len()));
                assert(p@.is_prefix_of(rest));
                assert(rest.skip(p@.len() as int) =~= s@.skip(i + p@.len()));
            }
            i = i + ps.len();
        }
        proof {
            let rest = s@.skip(i as int);
            if p@.is_prefix_of(rest) {
                assert(rest.subrange(0, p@.len() as int) =~= s@.subrange(i as int, i + p@.len()));
            }
        }
    }
    s.substring_char(i, n).to_owned()
}

// ---------------------------------------------------------------------------
// Decimal numbers
// ---------------------------------------------------------------------------

pub open spec fn is_digit(c: char) -> bool {
    '0' <= c && c <= '9'
}

pub open spec fn all_digits(s: Seq<char>) -> bool {
    forall|i: int| 0 <= i < s.len() ==> is_digit(#[trigger] s[i])
}

/// The length of the run of decimal digits in `s` that starts at `i`.
pub open spec fn digit_run(s: Seq<char>, i: int) -> nat
    decreases s.len() - i,
{
    if 0 <= i < s.len() && is_digit(s[i]) {
        1 + digit_run(s, i + 1)
    } else {
        0
    }
}

/// A run of `k` digits that ends the string or a non-digit is `digit_run`.
pub proof fn lemma_digit_run_exact(s: Seq<char>, i: int, k: int)
    requires
        0 <= i,
        0 <= k,
        i + k <= s.len(),
        forall|j: int| i <= j < i + k ==> is_digit(#[trigger] s[j]),
        i + k == s.len() || !is_digit(s[i + k]),
    ensures
        digit_run(s, i) == k,
    decreases k,
{
    if k > 0 {
        lemma_digit_run_exact(s, i + 1, k - 1);
    }
}

/// The characters of a digit run are digits, and the run stays in the string.
pub proof fn lemma_digit_run_digits(s: Seq<char>, i: int)
    requires
        0 <= i,
    ensures
        i + digit_run(s, i) <= s.len() || digit_run(s, i) == 0,
        forall|j: int| i <= j < i + digit_run(s, i) ==> is_digit(#[trigger] s[j]),
        i + digit_run(s, i) == s.len() || i + digit_run(s, i) > s.len() || !is_digit(
            s[i + digit_run(s, i)],
        ),
    decreases s.len() - i,
{
    if 0 <= i < s.len() && is_digit(s[i]) {
        lemma_digit_run_digits(s, i + 1);
    }
}

/// The length of the run of decimal digits in `cs` that starts at `i`.
pub fn digit_run_exec(cs: &Vec<char>, i: usize) -> (k: usize)
    requires
        i <= cs.len(),
    ensures
        k == digit_run(cs@, i as int),
        i + k <= cs.len(),
{
    let n: usize = cs.len();
    let mut j: usize = i;
    while j < n && cs[j] >= '0' && cs[j] <= '9'
        invariant
            n == cs@.len(),
            i <= j <= n,
            digit_run(cs@, i as int) == (j - i) + digit_run(cs@, j as int),
        decreases n - j,
    {
        j = j + 1;
    }
    j - i
}

/// The value of a decimal digit.
pub open spec fn digit_value(c: char) -> nat {
    (c as int - '0' as int) as nat
}

/// The decimal digit of a value below ten.
pub open spec fn digit_char(d: nat) -> char {
    if d == 0 {
        '0'
    } else if d == 1 {
        '1'
    } else if d == 2 {
        '2'
    } else if d == 3 {
        '3'
    } else if d == 4 {
        '4'
    } else if d == 5 {
        '5'
    } else if d == 6 {
        '6'
    } else if d == 7 {
        '7'
    } else if d == 8 {
        '8'
    } else {
        '9'
    }
}

/// The value of a string of decimal digits.
pub open spec fn decimal_value(s: Seq<char>) -> nat
    decreases s.len(),
{
    if s.len() == 0 {
        0
    } else {
        decimal_value(s.drop_last()) * 10 + digit_value(s.last())
    }
}

/// The decimal notation of `n`, without leading zeros, as `u64`'s `Display`
/// writes it.
pub open spec fn decimal(n: nat) -> Seq<char>
    decreases n,
{
    if n < 10 {
        seq![digit_char(n)]
    } else {
        decimal(n / 10).push(digit_char(n % 10))
    }
}

pub proof fn lemma_digit_char(d: nat)
    requires
        d < 10,
    ensures
        is_digit(digit_char(d)),
        digit_value(digit_char(d)) == d,
{
}

/// Reading back the decimal notation of a number gives the number.
pub proof fn lemma_decimal_roundtrip(n: nat)
    ensures
        decimal(n).len() > 0,
        all_digits(decimal(n)),
        decimal_value(decimal(n)) == n,
    decreases n,
{
    if n < 10 {
        lemma_digit_char(n);
        assert(decimal(n).drop_last() =~= Seq::<char>::empty());
        assert(decimal_value(Seq::<char>::empty()) == 0);
    } else {
        lemma_decimal_roundtrip(n / 10);
        lemma_digit_char(n % 10);
        let d = decimal(n);
        assert(d.drop_last() =~= decimal(n / 10));
        assert(d.last() == digit_char(n % 10));
        assert forall|i: int| 0 <= i < d.len() implies is_digit(#[trigger] d[i]) by {
            if i < d.len() - 1 {
                assert(d[i] == decimal(n / 10)[i]);
            }
        }
        assert((n / 10) * 10 + n % 10 == n) by (nonlinear_arith);
    }
}

/// A digit string that is a proper extension of another has at least its value.
pub proof fn lemma_decimal_value_prefix(s: Seq<char>, k: int)
    requires
        0 <= k <= s.len(),
        all_digits(s),
    ensures
        decimal_value(s) >= decimal_value(s.take(k)),
    decreases s.len() - k,
{
    if k < s.len() {
        let t = s.drop_last();
        assert forall|i: int| 0 <= i < t.len() implies is_digit(#[trigger] t[i]) by {
            assert(t[i] == s[i]);
        }
        lemma_decimal_value_prefix(t, k);
        assert(t.take(k) =~= s.take(k));
    } else {
        assert(s.take(k) =~= s);
    }
}

fn digit_str(d: u64) -> (r: &'static str)
    requires
        d < 10,
    ensures
        r@ == seq![digit_char(d as nat)],
{
    if d == 0 {
        proof {
            reveal_strlit("0");
        }
        "0"
    } else if d == 1 {
        proof {
            reveal_strlit("1");
        }
        "1"
    } else if d == 2 {
        proof {
            reveal_strlit("2");
        }
        "2"
    } else if d == 3 {
        proof {
            reveal_strlit("3");
        }
        "3"
    } else if d == 4 {
        proof {
            reveal_strlit("4");
        }
        "4"
    } else if d == 5 {
        proof {
            reveal_strlit("5");
        }
        "5"
    } else if d == 6 {
        proof {
            reveal_strlit("6");
        }
        "6"
    } else if d == 7 {
        proof {
            reveal_strlit("7");
        }
        "7"
    } else if d == 8 {
        proof {
            reveal_strlit("8");
        }
        "8"
    } else {
        proof {
            reveal_strlit("9");
        }
        "9"
    }
}

/// The decimal notation of `n`, as `n.to_string()` writes it.
pub fn decimal_string(n: u64) -> (r: String)
    ensures
        r@ == decimal(n as nat),
    decreases n,
{
    if n < 10 {
        digit_str(n).to_owned()
    } else {
        let mut s = decimal_string(n / 10);
        s.append(digit_str(n % 10));
        s
    }
}

/// The value of a non-empty string of decimal digits that fits in a `u64`, as
/// `str::parse::<u64>` reads such a string; `None` for any other string that
/// holds no sign.
pub fn parse_digits(s: &str) -> (r: Option<u64>)
    ensures
        r == (if s@.len() > 0 && all_digits(s@) && decimal_value(s@) <= u64::MAX {
            Some(decimal_value(s@) as u64)
        } else {
            None::<u64>
        }),
{
    let cs = chars_of(s);
    let n: usize = cs.len();
    if n == 0 {
        return None;
    }
    let mut acc: u64 = 0;
    let mut i: usize = 0;
    while i < n
        invariant
            cs@ == s@,
            n == s@.len(),
            i <= n,
            all_digits(s@.take(i as int)),
            acc as nat == decimal_value(s@.take(i as int)),
        decreases n - i,
    {
        let c = cs[i];
        let ghost t = s@.take(i + 1);
        proof {
            assert(t.drop_last() =~= s@.take(i as int));
            assert(t.last() == c);
        }
        if c < '0' || c > '9' {
            return None;
        }
        let d: u64 = (c as u64) - ('0' as u64);
        proof {
            assert forall|k: int| 0 <= k < t.len() implies is_digit(#[trigger] t[k]) by {
                if k < i {
                    assert(t[k] == s@.take(i as int)[k]);
                }
            }
        }
        match acc.checked_mul(10) {
            None => {
                proof {
                    if all_digits(s@) {
                        lemma_decimal_value_prefix(s@, i + 1);
                    }
                }
                return None;
            },
            Some(m) => {
                match m.checked_add(d) {
                    None => {
                        proof {
                            if all_digits(s@) {
                                lemma_decimal_value_prefix(s@, i + 1);
                            }
                        }
                        return None;
                    },
                    Some(v) => {
                        acc = v;
                    },
                }
            },
        }
        i = i + 1;
    }
    proof {
        assert(s@.take(n as int) =~= s@);
    }
    Some(acc)
}

} // verus!
