//! Text helpers: Unicode whitespace, trimming, collapsing the whitespace of
//! a shortcut, decimal numbers and first lines, each against a spec over
//! character sequences.
use vstd::prelude::*;
use vstd::string::*;

verus! {

/// The Unicode `White_Space` property, the definition of whitespace that
/// `char::is_whitespace` and `str::trim` use.
pub open spec fn is_white_space(c: char) -> bool {
    ||| ('\u{9}' <= c && c <= '\u{d}')
    ||| c == ' '
    ||| c == '\u{85}'
    ||| c == '\u{a0}'
    ||| c == '\u{1680}'
    ||| ('\u{2000}' <= c && c <= '\u{200a}')
    ||| c == '\u{2028}'
    ||| c == '\u{2029}'
    ||| c == '\u{202f}'
    ||| c == '\u{205f}'
    ||| c == '\u{3000}'
}

/// Whether `c` is whitespace, as `char::is_whitespace` decides it: the
/// characters with the Unicode `White_Space` property.
pub fn is_whitespace(c: char) -> (r: bool)
    ensures
        r == is_white_space(c),
{
    ('\u{9}' <= c && c <= '\u{d}') || c == ' ' || c == '\u{85}' || c == '\u{a0}' || c == '\u{1680}'
        || ('\u{2000}' <= c && c <= '\u{200a}') || c == '\u{2028}' || c == '\u{2029}' || c == '\u{202f}'
        || c == '\u{205f}' || c == '\u{3000}'
}

/// `String::push`: appends one character.
#[verifier::external_body]
pub fn push_char(s: &mut String, c: char)
    ensures
        final(s)@ == old(s)@.push(c),
{
    s.push(c)
}

/// A fresh string with the characters of `s`.
pub fn string_of(s: &str) -> (r: String)
    ensures
        r@ == s@,
{
    String::from_str(s)
}

/// The characters of `s` without its leading whitespace.
pub open spec fn trim_start_seq(s: Seq<char>) -> Seq<char>
    decreases s.len(),
{
    if s.len() > 0 && is_white_space(s[0]) {
        trim_start_seq(s.drop_first())
    } else {
        s
    }
}

/// The characters of `s` without its trailing whitespace.
pub open spec fn trim_end_seq(s: Seq<char>) -> Seq<char>
    decreases s.len(),
{
    if s.len() > 0 && is_white_space(s.last()) {
        trim_end_seq(s.drop_last())
    } else {
        s
    }
}

/// What `str::trim` gives: `s` without leading and trailing whitespace.
pub open spec fn trim_seq(s: Seq<char>) -> Seq<char> {
    trim_end_seq(trim_start_seq(s))
}

proof fn lemma_trim_start_skip(s: Seq<char>, i: int)
    requires
        0 <= i <= s.len(),
        forall|k: int| 0 <= k < i ==> is_white_space(#[trigger] s[k]),
    ensures
        trim_start_seq(s) == trim_start_seq(s.subrange(i, s.len() as int)),
    decreases i,
{
    if i == 0 {
        assert(s.subrange(0, s.len() as int) =~= s);
    } else {
        assert(is_white_space(s[0]));
        assert(s.drop_first() =~= s.subrange(1, s.len() as int));
        let t = s.drop_first();
        assert forall|k: int| 0 <= k < i - 1 implies is_white_space(#[trigger] t[k]) by {
            assert(t[k] == s[k + 1]);
        }
        lemma_trim_start_skip(t, i - 1);
        assert(t.subrange(i - 1, t.len() as int) =~= s.subrange(i, s.len() as int));
    }
}

proof fn lemma_trim_end_skip(s: Seq<char>, j: int)
    requires
        0 <= j <= s.len(),
        forall|k: int| j <= k < s.len() ==> is_white_space(#[trigger] s[k]),
    ensures
        trim_end_seq(s) == trim_end_seq(s.subrange(0, j)),
    decreases s.len() - j,
{
    if j == s.len() {
        assert(s.subrange(0, j) =~= s);
    } else {
        assert(is_white_space(s[s.len() - 1]));
        let t = s.drop_last();
        assert(t =~= s.subrange(0, s.len() - 1));
        assert forall|k: int| j <= k < t.len() implies is_white_space(#[trigger] t[k]) by {
            assert(t[k] == s[k]);
        }
        lemma_trim_end_skip(t, j);
        assert(t.subrange(0, j) =~= s.subrange(0, j));
    }
}

/// `str::trim`: the text without leading and trailing whitespace.
pub fn trim(s: &str) -> (r: String)
    ensures
        r@ == trim_seq(s@),
{
    let n = s.unicode_len();
    let mut i: usize = 0;
    while i < n && is_whitespace(s.get_char(i))
        invariant
            n == s@.len(),
            i <= n,
            forall|k: int| 0 <= k < i ==> is_white_space(#[trigger] s@[k]),
        decreases n - i,
    {
        i = i + 1;
    }
    proof {
        lemma_trim_start_skip(s@, i as int);
    }
    let ghost rest = s@.subrange(i as int, n as int);
    assert(i < n ==> !is_white_space(rest[0]));
    assert(trim_start_seq(rest) == rest);
    let mut j: usize = n;
    while j > i && is_whitespace(s.get_char(j - 1))
        invariant
            n == s@.len(),
            i <= j <= n,
            forall|k: int| j <= k < n ==> is_white_space(#[trigger] s@[k]),
        decreases j,
    {
        j = j - 1;
    }
    proof {
        assert forall|k: int| j - i <= k < rest.len() implies is_white_space(#[trigger] rest[k]) by {
            assert(rest[k] == s@[k + i]);
        }
        lemma_trim_end_skip(rest, j - i);
        let core = rest.subrange(0, j - i);
        assert(core =~= s@.subrange(i as int, j as int));
        if j > i {
            assert(core.last() == s@[j - 1]);
        }
        assert(trim_end_seq(core) == core);
    }
    String::from_str(s.substring_char(i, j))
}

/// The maximal runs of non-whitespace characters of `s`, in order: what
/// `str::split_whitespace` yields.
pub open spec fn words(s: Seq<char>) -> Seq<Seq<char>>
    decreases s.len(),
{
    if s.len() == 0 {
        seq![]
    } else {
        let w = words(s.drop_last());
        let c = s.last();
        if is_white_space(c) {
            w
        } else if s.len() >= 2 && !is_white_space(s[s.len() - 2]) {
            w.update(w.len() - 1, w.last().push(c))
        } else {
            w.push(seq![c])
        }
    }
}

/// The words joined with one space between each two of them.
pub open spec fn join_words(ws: Seq<Seq<char>>) -> Seq<char>
    decreases ws.len(),
{
    if ws.len() == 0 {
        seq![]
    } else if ws.len() == 1 {
        ws[0]
    } else {
        join_words(ws.drop_last()) + seq![' '] + ws.last()
    }
}

/// A shortcut as it is shown: its words with single spaces between them,
/// and no whitespace around them.
pub open spec fn normalize_seq(s: Seq<char>) -> Seq<char> {
    join_words(words(s))
}

proof fn lemma_words_nonempty(s: Seq<char>)
    requires
        s.len() > 0,
        !is_white_space(s.last()),
    ensures
        words(s).len() > 0,
    decreases s.len(),
{
    if s.len() >= 2 && !is_white_space(s[s.len() - 2]) {
        let t = s.drop_last();
        assert(t.last() == s[s.len() - 2]);
        lemma_words_nonempty(t);
    }
}

proof fn lemma_join_extend_last(ws: Seq<Seq<char>>, c: char)
    requires
        ws.len() > 0,
    ensures
        join_words(ws.update(ws.len() - 1, ws.last().push(c))) == join_words(ws).push(c),
{
    let u = ws.update(ws.len() - 1, ws.last().push(c));
    if ws.len() > 1 {
        assert(u.drop_last() =~= ws.drop_last());
        assert(join_words(u) =~= join_words(ws).push(c));
    }
}

proof fn lemma_join_push(ws: Seq<Seq<char>>, w: Seq<char>)
    ensures
        join_words(ws.push(w)) == if ws.len() == 0 {
            w
        } else {
            join_words(ws) + seq![' '] + w
        },
{
    assert(ws.push(w).drop_last() =~= ws);
}

/// Collapses the whitespace of a shortcut text: the words of `text` joined
/// with single spaces (empty when `text` has no word).
pub fn normalize_shortcut_text(text: &str) -> (r: String)
    ensures
        r@ == normalize_seq(text@),
{
    let n = text.unicode_len();
    let mut out = String::new();
    let mut in_word = false;
    let mut has_word = false;
    let mut k: usize = 0;
    while k < n
        invariant
            n == text@.len(),
            k <= n,
            out@ == join_words(words(text@.subrange(0, k as int))),
            in_word == (k > 0 && !is_white_space(text@[k - 1])),
            has_word == (words(text@.subrange(0, k as int)).len() > 0),
        decreases n - k,
    {
        let c = text.get_char(k);
        let ghost pre = text@.subrange(0, k as int);
        let ghost next = text@.subrange(0, k + 1);
        proof {
            assert(next.drop_last() =~= pre);
            assert(next.last() == c);
            if k > 0 {
                assert(next[next.len() - 2] == text@[k - 1]);
                assert(pre.last() == text@[k - 1]);
            }
        }
        if is_whitespace(c) {
            in_word = false;
        } else {
            if in_word {
                proof {
                    lemma_words_nonempty(pre);
                    lemma_join_extend_last(words(pre), c);
                }
                push_char(&mut out, c);
            } else {
                proof {
                    lemma_join_push(words(pre), seq![c]);
                }
                if has_word {
                    push_char(&mut out, ' ');
                }
                push_char(&mut out, c);
                proof {
                    assert(out@ =~= join_words(words(next)));
                }
                has_word = true;
            }
            in_word = true;
        }
        k = k + 1;
    }
    assert(text@.subrange(0, n as int) =~= text@);
    out
}

/// The decimal digit `d` (for `d` below ten).
pub open spec fn digit_char(d: nat) -> char {
    if d == 0 { '0' }
    else if d == 1 { '1' }
    else if d == 2 { '2' }
    else if d == 3 { '3' }
    else if d == 4 { '4' }
    else if d == 5 { '5' }
    else if d == 6 { '6' }
    else if d == 7 { '7' }
    else if d == 8 { '8' }
    else { '9' }
}

/// The decimal notation of `n`, without leading zeros.
pub open spec fn decimal(n: nat) -> Seq<char>
    decreases n,
{
    if n < 10 {
        seq![digit_char(n)]
    } else {
        decimal(n / 10).push(digit_char(n % 10))
    }
}

fn digit(d: u64) -> (c: char)
    requires
        d < 10,
    ensures
        c == digit_char(d as nat),
{
    if d == 0 { '0' }
    else if d == 1 { '1' }
    else if d == 2 { '2' }
    else if d == 3 { '3' }
    else if d == 4 { '4' }
    else if d == 5 { '5' }
    else if d == 6 { '6' }
    else if d == 7 { '7' }
    else if d == 8 { '8' }
    else { '9' }
}

/// Appends the decimal notation of `n` to `s`.
pub fn push_decimal(s: &mut String, n: u64)
    ensures
        final(s)@ == old(s)@ + decimal(n as nat),
    decreases n,
{
    if n < 10 {
        push_char(s, digit(n));
        assert(old(s)@.push(digit_char(n as nat)) =~= old(s)@ + decimal(n as nat));
    } else {
        push_decimal(s, n / 10);
        push_char(s, digit(n % 10));
        assert(old(s)@ + decimal(n as nat) =~= old(s)@ + decimal((n / 10) as nat) + seq![digit_char((n % 10) as nat)]);
    }
}

/// The characters of `s` before its first line feed (all of `s` when it
/// has none).
pub open spec fn before_newline(s: Seq<char>) -> Seq<char>
    decreases s.len(),
{
    if s.len() == 0 || s[0] == '\n' {
        seq![]
    } else {
        seq![s[0]] + before_newline(s.drop_first())
    }
}

/// The first line of `s` as `str::lines` yields it, or the empty text when
/// `s` has no line: the text before the first line feed, without the
/// carriage return of a `"\r\n"` ending.
pub open spec fn first_line_seq(s: Seq<char>) -> Seq<char> {
    let l = before_newline(s);
    if l.len() < s.len() && l.len() > 0 && l.last() == '\r' {
        l.drop_last()
    } else {
        l
    }
}

proof fn lemma_before_newline(s: Seq<char>, k: int)
    requires
        0 <= k <= s.len(),
        forall|j: int| 0 <= j < k ==> #[trigger] s[j] != '\n',
        k == s.len() || s[k] == '\n',
    ensures
        before_newline(s) == s.subrange(0, k),
    decreases k,
{
    if k == 0 {
        assert(s.subrange(0, 0) =~= Seq::<char>::empty());
    } else {
        let t = s.drop_first();
        assert forall|j: int| 0 <= j < k - 1 implies #[trigger] t[j] != '\n' by {
            assert(t[j] == s[j + 1]);
        }
        if k - 1 < t.len() {
            assert(t[k - 1] == s[k]);
        }
        lemma_before_newline(t, k - 1);
        assert(s[0] != '\n');
        assert(seq![s[0]] + t.subrange(0, k - 1) =~= s.subrange(0, k));
    }
}

/// The first line of `s` (`s.lines().next().unwrap_or("")`).
pub fn first_line(s: &str) -> (r: String)
    ensures
        r@ == first_line_seq(s@),
{
    let n = s.unicode_len();
    let mut k: usize = 0;
    while k < n && s.get_char(k) != '\n'
        invariant
            n == s@.len(),
            k <= n,
            forall|j: int| 0 <= j < k ==> #[trigger] s@[j] != '\n',
        decreases n - k,
    {
        k = k + 1;
    }
    proof {
        lemma_before_newline(s@, k as int);
    }
    let mut end = k;
    if k < n && k > 0 && s.get_char(k - 1) == '\r' {
        end = k - 1;
        assert(s@.subrange(0, k as int).drop_last() =~= s@.subrange(0, end as int));
    }
    String::from_str(s.substring_char(0, end))
}

/// The decimal notation of a signed number, with a minus sign when it is
/// negative.
pub open spec fn signed_decimal(n: int) -> Seq<char> {
    if n < 0 {
        seq!['-'] + decimal((-n) as nat)
    } else {
        decimal(n as nat)
    }
}

/// Appends the decimal notation of a signed number to `s`.
pub fn push_signed_decimal(s: &mut String, n: i64)
    ensures
        final(s)@ == old(s)@ + signed_decimal(n as int),
{
    if n < 0 {
        push_char(s, '-');
        let m: u64 = ((-(n + 1)) as u64) + 1;
        push_decimal(s, m);
        assert(final(s)@ =~= old(s)@ + signed_decimal(n as int));
    } else {
        push_decimal(s, n as u64);
    }
}

/// Whether two texts are equal, character by character.
pub fn str_eq(a: &str, b: &str) -> (r: bool)
    ensures
        r == (a@ == b@),
{
    let n = a.unicode_len();
    if n != b.unicode_len() {
        return false;
    }
    let mut i: usize = 0;
    while i < n
        invariant
            n == a@.len(),
            n == b@.len(),
            i <= n,
            forall|j: int| 0 <= j < i ==> a@[j] == b@[j],
        decreases n - i,
    {
        if a.get_char(i) != b.get_char(i) {
            return false;
        }
        i = i + 1;
    }
    assert(a@ =~= b@);
    true
}

/// A word: a non-empty run of characters none of which is whitespace.
pub open spec fn is_word(w: Seq<char>) -> bool {
    w.len() > 0 && forall|i: int| 0 <= i < w.len() ==> !is_white_space(#[trigger] w[i])
}

proof fn lemma_words_are_words(s: Seq<char>)
    ensures
        forall|k: int| 0 <= k < words(s).len() ==> is_word(#[trigger] words(s)[k]),
    decreases s.len(),
{
    if s.len() > 0 {
        let t = s.drop_last();
        lemma_words_are_words(t);
        let w = words(t);
        let c = s.last();
        if !is_white_space(c) {
            if s.len() >= 2 && !is_white_space(s[s.len() - 2]) {
                assert(t.last() == s[s.len() - 2]);
                lemma_words_nonempty(t);
                let u = w.update(w.len() - 1, w.last().push(c));
                assert forall|k: int| 0 <= k < u.len() implies is_word(#[trigger] u[k]) by {
                    if k == w.len() - 1 {
                        assert(is_word(w[k]));
                        let x = w.last().push(c);
                        assert forall|i: int| 0 <= i < x.len() implies !is_white_space(#[trigger] x[i]) by {
                            if i < w.last().len() {
                                assert(x[i] == w[k][i]);
                            }
                        }
                    }
                }
            } else {
                let u = w.push(seq![c]);
                assert forall|k: int| 0 <= k < u.len() implies is_word(#[trigger] u[k]) by {
                    if k < w.len() {
                        assert(u[k] == w[k]);
                    } else {
                        assert(u[k] =~= seq![c]);
                    }
                }
            }
        }
    }
}

proof fn lemma_words_append_word(y: Seq<char>, w: Seq<char>)
    requires
        y.len() == 0 || is_white_space(y.last()),
        is_word(w),
    ensures
        words(y + w) == words(y).push(w),
    decreases w.len(),
{
    let z = y + w;
    if w.len() == 1 {
        assert(z.drop_last() =~= y);
        assert(z.last() == w[0]);
        if z.len() >= 2 {
            assert(z[z.len() - 2] == y.last());
        }
        assert(w =~= seq![w[0]]);
    } else {
        let wp = w.drop_last();
        assert forall|i: int| 0 <= i < wp.len() implies !is_white_space(#[trigger] wp[i]) by {
            assert(wp[i] == w[i]);
        }
        lemma_words_append_word(y, wp);
        assert(z.drop_last() =~= y + wp);
        assert(z.last() == w.last());
        assert(z[z.len() - 2] == w[w.len() - 2]);
        let prev = words(y).push(wp);
        assert(wp.push(w.last()) =~= w);
        assert(prev.update(prev.len() - 1, prev.last().push(w.last())) =~= words(y).push(w));
    }
}

proof fn lemma_words_of_join(ws: Seq<Seq<char>>)
    requires
        forall|k: int| 0 <= k < ws.len() ==> is_word(#[trigger] ws[k]),
    ensures
        words(join_words(ws)) == ws,
    decreases ws.len(),
{
    if ws.len() == 0 {
    } else if ws.len() == 1 {
        lemma_words_append_word(Seq::<char>::empty(), ws[0]);
        assert(Seq::<char>::empty() + ws[0] =~= ws[0]);
        assert(words(Seq::<char>::empty()).push(ws[0]) =~= ws);
    } else {
        let front = ws.drop_last();
        assert forall|k: int| 0 <= k < front.len() implies is_word(#[trigger] front[k]) by {
            assert(front[k] == ws[k]);
        }
        lemma_words_of_join(front);
        let x = join_words(front);
        let y = x + seq![' '];
        assert(y.drop_last() =~= x);
        assert(words(y) == words(x));
        assert(is_word(ws[ws.len() - 1]));
        lemma_words_append_word(y, ws.last());
        assert(join_words(ws) =~= y + ws.last());
        assert(front.push(ws.last()) =~= ws);
    }
}

/// Every whitespace character of `x` is a single space with a
/// non-whitespace character on either side.
pub open spec fn spaces_only_between(x: Seq<char>) -> bool {
    forall|i: int|
        0 <= i < x.len() && is_white_space(#[trigger] x[i]) ==> x[i] == ' ' && 0 < i < x.len() - 1
            && !is_white_space(x[i - 1]) && !is_white_space(x[i + 1])
}

proof fn lemma_join_shape(ws: Seq<Seq<char>>)
    requires
        forall|k: int| 0 <= k < ws.len() ==> is_word(#[trigger] ws[k]),
    ensures
        spaces_only_between(join_words(ws)),
        ws.len() > 0 ==> join_words(ws).len() > 0,
    decreases ws.len(),
{
    if ws.len() == 0 {
    } else if ws.len() == 1 {
        assert(is_word(ws[0]));
    } else {
        let front = ws.drop_last();
        assert forall|k: int| 0 <= k < front.len() implies is_word(#[trigger] front[k]) by {
            assert(front[k] == ws[k]);
        }
        lemma_join_shape(front);
        let jf = join_words(front);
        let w = ws.last();
        assert(is_word(ws[ws.len() - 1]));
        let x = jf + seq![' '] + w;
        assert(join_words(ws) == x);
        let n = jf.len();
        assert(!is_white_space(jf[n - 1])) by {
            if is_white_space(jf[n - 1]) {
                assert(n - 1 < n - 1);
            }
        }
        assert forall|i: int|
            0 <= i < x.len() && is_white_space(#[trigger] x[i]) implies x[i] == ' ' && 0 < i < x.len() - 1
                && !is_white_space(x[i - 1]) && !is_white_space(x[i + 1]) by {
            if i < n {
                assert(x[i] == jf[i]);
                assert(x[i - 1] == jf[i - 1]);
                assert(x[i + 1] == jf[i + 1]);
            } else if i == n {
                assert(x[i - 1] == jf[n - 1]);
                assert(x[i + 1] == w[0]);
            } else {
                assert(x[i] == w[i - n - 1]);
            }
        }
    }
}

/// Collapsing the whitespace of a shortcut keeps its words, in order, and
/// leaves no whitespace at either end and nothing but a single space between
/// two words.
pub proof fn lemma_normalize_shape(s: Seq<char>)
    ensures
        words(normalize_seq(s)) == words(s),
        normalize_seq(s).len() > 0 ==> !is_white_space(normalize_seq(s)[0]) && !is_white_space(
            normalize_seq(s).last(),
        ),
        spaces_only_between(normalize_seq(s)),
{
    lemma_words_are_words(s);
    lemma_words_of_join(words(s));
    lemma_join_shape(words(s));
    let x = normalize_seq(s);
    if x.len() > 0 {
        if is_white_space(x[0]) {
            assert(0 < 0int);
        }
        if is_white_space(x[x.len() - 1]) {
            assert(x.len() - 1 < x.len() - 1);
        }
    }
}

/// Collapsing the whitespace of a text that is already collapsed changes
/// nothing: a stored shortcut is shown as it was stored.
pub proof fn lemma_normalize_idempotent(s: Seq<char>)
    ensures
        normalize_seq(normalize_seq(s)) == normalize_seq(s),
{
    lemma_words_are_words(s);
    lemma_words_of_join(words(s));
}

} // verus!
