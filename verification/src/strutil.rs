//! Small verified string utilities shared across the crate: whitespace
//! trimming, substring search, lexicographic comparison, and the fixed
//! rewrites the recordings index performs on filenames.

use vstd::prelude::*;

verus! {

/// The characters Rust's `char::is_whitespace` recognizes (the Unicode
/// `White_Space` property).
pub open spec fn is_space(c: char) -> bool {
    ||| c == '\u{9}'
    ||| c == '\u{A}'
    ||| c == '\u{B}'
    ||| c == '\u{C}'
    ||| c == '\u{D}'
    ||| c == ' '
    ||| c == '\u{85}'
    ||| c == '\u{A0}'
    ||| c == '\u{1680}'
    ||| ('\u{2000}' <= c && c <= '\u{200A}')
    ||| c == '\u{2028}'
    ||| c == '\u{2029}'
    ||| c == '\u{202F}'
    ||| c == '\u{205F}'
    ||| c == '\u{3000}'
}

/// Whether `c` counts as whitespace.
pub fn char_is_space(c: char) -> (r: bool)
    ensures
        r == is_space(c),
{
    c == '\u{9}' || c == '\u{A}' || c == '\u{B}' || c == '\u{C}' || c == '\u{D}' || c == ' ' || c
        == '\u{85}' || c == '\u{A0}' || c == '\u{1680}' || ('\u{2000}' <= c && c <= '\u{200A}') || c
        == '\u{2028}' || c == '\u{2029}' || c == '\u{202F}' || c == '\u{205F}' || c == '\u{3000}'
}

/// `s` with its leading whitespace removed.
pub open spec fn trim_front(s: Seq<char>) -> Seq<char>
    decreases s.len(),
{
    if s.len() == 0 {
        s
    } else if is_space(s.first()) {
        trim_front(s.drop_first())
    } else {
        s
    }
}

/// `s` with its trailing whitespace removed.
pub open spec fn trim_back(s: Seq<char>) -> Seq<char>
    decreases s.len(),
{
    if s.len() == 0 {
        s
    } else if is_space(s.last()) {
        trim_back(s.drop_last())
    } else {
        s
    }
}

/// `s` with whitespace removed from both ends.
pub open spec fn trimmed(s: Seq<char>) -> Seq<char> {
    trim_back(trim_front(s))
}

proof fn lemma_trim_front_ix(s: Seq<char>, i: int)
    requires
        0 <= i <= s.len(),
        forall|k: int| 0 <= k < i ==> is_space(s[k]),
        i < s.len() ==> !is_space(s[i]),
    ensures
        trim_front(s) == s.subrange(i, s.len() as int),
    decreases i,
{
    if i == 0 {
        assert(trim_front(s) =~= s.subrange(0, s.len() as int)) by {
            assert(s.subrange(0, s.len() as int) =~= s);
        };
    } else {
        assert(is_space(s.first()));
        let t = s.drop_first();
        assert(forall|k: int| 0 <= k < i - 1 ==> is_space(#[trigger] t[k]));
        lemma_trim_front_ix(t, i - 1);
        assert(t.subrange(i - 1, t.len() as int) =~= s.subrange(i, s.len() as int));
    }
}

proof fn lemma_trim_back_ix(s: Seq<char>, j: int)
    requires
        0 <= j <= s.len(),
        forall|k: int| j <= k < s.len() ==> is_space(s[k]),
        j > 0 ==> !is_space(s[j - 1]),
    ensures
        trim_back(s) == s.subrange(0, j),
    decreases s.len() - j,
{
    if j == s.len() {
        if s.len() == 0 {
            assert(trim_back(s) =~= s.subrange(0, j));
        } else {
            assert(trim_back(s) =~= s.subrange(0, j)) by {
                assert(s.subrange(0, j) =~= s);
            };
        }
    } else {
        assert(is_space(s.last()));
        let t = s.drop_last();
        assert(forall|k: int| j <= k < t.len() ==> is_space(#[trigger] t[k]));
        lemma_trim_back_ix(t, j);
        assert(t.subrange(0, j) =~= s.subrange(0, j));
    }
}

/// Removes leading and trailing whitespace.
pub fn trim_str(s: &str) -> (r: String)
    ensures
        r@ == trimmed(s@),
{
    let n = s.unicode_len();
    let mut i: usize = 0;
    while i < n && char_is_space(s.get_char(i))
        invariant
            n == s@.len(),
            0 <= i <= n,
            forall|k: int| 0 <= k < i ==> is_space(s@[k]),
        decreases n - i,
    {
        i = i + 1;
    }
    let mut j: usize = n;
    while j > i && char_is_space(s.get_char(j - 1))
        invariant
            n == s@.len(),
            0 <= i <= j <= n,
            forall|k: int| j <= k < n ==> is_space(s@[k]),
            i < n ==> !is_space(s@[i as int]),
        decreases j,
    {
        j = j - 1;
    }
    let out = s.substring_char(i, j);
    proof {
        lemma_trim_front_ix(s@, i as int);
        let t = s@.subrange(i as int, n as int);
        if j > i {
            assert(!is_space(t[j - i - 1]));
        }
        assert(forall|k: int| j - i <= k < t.len() ==> is_space(#[trigger] t[k]));
        lemma_trim_back_ix(t, j - i);
        assert(t.subrange(0, j - i) =~= s@.subrange(i as int, j as int));
    }
    String::from_str(out)
}

/// `p` occurs as a contiguous run inside `s`.
pub open spec fn contains_seq(s: Seq<char>, p: Seq<char>) -> bool {
    exists|i: int| 0 <= i <= s.len() - p.len() && #[trigger] s.subrange(i, i + p.len()) == p
}

/// Whether `p` matches `s` at offset `i`.
fn matches_at(s: &str, p: &str, i: usize, n: usize, m: usize) -> (r: bool)
    requires
        n == s@.len(),
        m == p@.len(),
        i + m <= n,
    ensures
        r == (s@.subrange(i as int, i + m) == p@),
{
    let mut j: usize = 0;
    while j < m
        invariant
            n == s@.len(),
            m == p@.len(),
            i + m <= n,
            0 <= j <= m,
            forall|k: int| 0 <= k < j ==> s@[i + k] == p@[k],
        decreases m - j,
    {
        if s.get_char(i + j) != p.get_char(j) {
            proof {
                assert(s@.subrange(i as int, i + m)[j as int] != p@[j as int]);
            }
            return false;
        }
        j = j + 1;
    }
    proof {
        assert(s@.subrange(i as int, i + m) =~= p@);
    }
    true
}

/// Whether `p` occurs anywhere inside `s`.
pub fn str_contains(s: &str, p: &str) -> (r: bool)
    ensures
        r == contains_seq(s@, p@),
{
    let n = s.unicode_len();
    let m = p.unicode_len();
    if m > n {
        return false;
    }
    if m == 0 {
        proof {
            assert(s@.subrange(0, 0 + p@.len() as int) =~= p@);
        }
        return true;
    }
    let mut i: usize = 0;
    while i <= n - m
        invariant
            n == s@.len(),
            m == p@.len(),
            1 <= m <= n,
            0 <= i <= n - m + 1,
            forall|k: int| 0 <= k < i ==> #[trigger] s@.subrange(k, k + m) != p@,
        decreases n - m + 1 - i,
    {
        if matches_at(s, p, i, n, m) {
            return true;
        }
        proof {
            assert(i < n);
        }
        i = i + 1;
    }
    false
}


/// Relies on `String::push`: appends exactly one character.
#[verifier::external_body]
pub(crate) fn push_char(s: &mut String, c: char)
    ensures
        final(s)@ == old(s)@ + seq![c],
{
    s.push(c);
}

/// Lexicographic order on character sequences, by Unicode scalar value; the
/// order in which the recordings index sorts filenames.
pub open spec fn lex_le(a: Seq<char>, b: Seq<char>) -> bool
    decreases a.len(),
{
    if a.len() == 0 {
        true
    } else if b.len() == 0 {
        false
    } else if (a.first() as u32) < (b.first() as u32) {
        true
    } else if (a.first() as u32) > (b.first() as u32) {
        false
    } else {
        lex_le(a.drop_first(), b.drop_first())
    }
}

/// Law: lexicographic order is total.
pub proof fn lemma_lex_total(a: Seq<char>, b: Seq<char>)
    ensures
        lex_le(a, b) || lex_le(b, a),
    decreases a.len(),
{
    if a.len() != 0 && b.len() != 0 && a.first() as u32 == b.first() as u32 {
        lemma_lex_total(a.drop_first(), b.drop_first());
    }
}

/// Law: lexicographic order is transitive.
pub proof fn lemma_lex_trans(a: Seq<char>, b: Seq<char>, c: Seq<char>)
    requires
        lex_le(a, b),
        lex_le(b, c),
    ensures
        lex_le(a, c),
    decreases a.len(),
{
    if a.len() != 0 {
        if a.first() as u32 == b.first() as u32 && b.first() as u32 == c.first() as u32 {
            lemma_lex_trans(a.drop_first(), b.drop_first(), c.drop_first());
        }
    }
}

proof fn lemma_lex_skip(a: Seq<char>, b: Seq<char>, i: int)
    requires
        0 <= i <= a.len(),
        i <= b.len(),
        forall|k: int| 0 <= k < i ==> a[k] == b[k],
    ensures
        lex_le(a, b) == lex_le(a.skip(i), b.skip(i)),
    decreases i,
{
    if i == 0 {
        assert(a.skip(0) =~= a);
        assert(b.skip(0) =~= b);
    } else {
        assert(a.first() == b.first());
        assert(a.drop_first() =~= a.skip(1));
        assert(b.drop_first() =~= b.skip(1));
        assert(forall|k: int| 0 <= k < i - 1 ==> a.skip(1)[k] == #[trigger] b.skip(1)[k]);
        lemma_lex_skip(a.skip(1), b.skip(1), i - 1);
        assert(a.skip(1).skip(i - 1) =~= a.skip(i));
        assert(b.skip(1).skip(i - 1) =~= b.skip(i));
    }
}

/// Whether `a` comes no later than `b` in lexicographic order.
pub fn lex_le_str(a: &str, b: &str) -> (r: bool)
    ensures
        r == lex_le(a@, b@),
{
    let na = a.unicode_len();
    let nb = b.unicode_len();
    let mut i: usize = 0;
    while i < na && i < nb
        invariant
            na == a@.len(),
            nb == b@.len(),
            0 <= i <= na,
            i <= nb,
            forall|k: int| 0 <= k < i ==> a@[k] == b@[k],
        decreases na - i,
    {
        let ca = a.get_char(i);
        let cb = b.get_char(i);
        if (ca as u32) < (cb as u32) {
            proof {
                lemma_lex_skip(a@, b@, i as int);
                assert(a@.skip(i as int).first() == ca);
                assert(b@.skip(i as int).first() == cb);
            }
            return true;
        }
        if (ca as u32) > (cb as u32) {
            proof {
                lemma_lex_skip(a@, b@, i as int);
                assert(a@.skip(i as int).first() == ca);
                assert(b@.skip(i as int).first() == cb);
            }
            return false;
        }
        proof {
            assert(ca == cb) by {
                assert(ca as u32 == cb as u32);
                assert(ca as u32 as char == ca && cb as u32 as char == cb);
            };
        }
        i = i + 1;
    }
    proof {
        lemma_lex_skip(a@, b@, i as int);
    }
    i == na
}

/// The fixed audio extension, as characters.
pub open spec fn wav_chars() -> Seq<char> {
    seq!['.', 'w', 'a', 'v']
}

/// Whether `s` names a WAV file: a non-empty stem followed by the fixed
/// audio extension.
pub open spec fn has_wav_ext(s: Seq<char>) -> bool {
    s.len() > 4 && s.subrange(s.len() - 4, s.len() as int) == wav_chars()
}

/// Whether a filename carries the fixed audio extension.
pub fn ends_with_wav(s: &str) -> (r: bool)
    ensures
        r == has_wav_ext(s@),
{
    let n = s.unicode_len();
    if n <= 4 {
        return false;
    }
    let r = s.get_char(n - 4) == '.' && s.get_char(n - 3) == 'w' && s.get_char(n - 2) == 'a'
        && s.get_char(n - 1) == 'v';
    proof {
        if r {
            assert(s@.subrange(n - 4, n as int) =~= wav_chars());
        } else {
            assert(s@.subrange(n - 4, n as int) != wav_chars()) by {
                if s@.subrange(n - 4, n as int) == wav_chars() {
                    assert(s@[n - 4] == wav_chars()[0]);
                    assert(s@[n - 3] == wav_chars()[1]);
                    assert(s@[n - 2] == wav_chars()[2]);
                    assert(s@[n - 1] == wav_chars()[3]);
                }
            };
        }
    }
    r
}

/// `s` with every trailing copy of the audio extension removed.
pub open spec fn strip_wav(s: Seq<char>) -> Seq<char>
    decreases s.len(),
{
    if s.len() >= 4 && s.subrange(s.len() - 4, s.len() as int) == wav_chars() {
        strip_wav(s.take(s.len() - 4))
    } else {
        s
    }
}

/// Removes every trailing copy of the audio extension, as the index does
/// when it derives a recording's identifier from its filename.
pub fn strip_wav_str(s: &str) -> (r: String)
    ensures
        r@ == strip_wav(s@),
{
    let n = s.unicode_len();
    let mut j: usize = n;
    proof {
        assert(s@.take(n as int) =~= s@);
    }
    while j >= 4 && s.get_char(j - 4) == '.' && s.get_char(j - 3) == 'w' && s.get_char(j - 2)
        == 'a' && s.get_char(j - 1) == 'v'
        invariant
            n == s@.len(),
            0 <= j <= n,
            strip_wav(s@) == strip_wav(s@.take(j as int)),
        decreases j,
    {
        proof {
            let t = s@.take(j as int);
            assert(t.subrange(j - 4, j as int) =~= wav_chars());
            assert(t.take(j - 4) =~= s@.take(j - 4));
        }
        j = j - 4;
    }
    proof {
        let t = s@.take(j as int);
        if t.len() >= 4 {
            assert(t.subrange(j - 4, j as int) != wav_chars()) by {
                if t.subrange(j - 4, j as int) == wav_chars() {
                    assert(s@[j - 4] == wav_chars()[0]);
                    assert(s@[j - 3] == wav_chars()[1]);
                    assert(s@[j - 2] == wav_chars()[2]);
                    assert(s@[j - 1] == wav_chars()[3]);
                }
            };
        }
    }
    String::from_str(s.substring_char(0, j))
}

/// Every dash replaced by a colon; how the index turns a filename's time
/// part back into clock notation.
pub open spec fn dashes_to_colons(s: Seq<char>) -> Seq<char> {
    s.map(|i: int, c: char| if c == '-' { ':' } else { c })
}

/// Replaces every dash with a colon.
pub fn dashes_to_colons_str(s: &str) -> (r: String)
    ensures
        r@ == dashes_to_colons(s@),
{
    let n = s.unicode_len();
    let mut out = String::new();
    let mut i: usize = 0;
    proof {
        assert(out@ =~= dashes_to_colons(s@).take(0));
    }
    while i < n
        invariant
            n == s@.len(),
            0 <= i <= n,
            out@ == dashes_to_colons(s@).take(i as int),
        decreases n - i,
    {
        let c = s.get_char(i);
        if c == '-' {
            push_char(&mut out, ':');
        } else {
            push_char(&mut out, c);
        }
        proof {
            assert(out@ =~= dashes_to_colons(s@).take(i + 1));
        }
        i = i + 1;
    }
    proof {
        assert(dashes_to_colons(s@).take(n as int) =~= dashes_to_colons(s@));
    }
    out
}

/// How many bytes one character takes in UTF-8.
pub open spec fn utf8_len(c: char) -> int {
    if (c as u32) < 0x80 {
        1
    } else if (c as u32) < 0x800 {
        2
    } else if (c as u32) < 0x10000 {
        3
    } else {
        4
    }
}

/// The UTF-8 byte length of one character.
pub fn char_utf8_len(c: char) -> (r: usize)
    ensures
        r == utf8_len(c),
{
    if (c as u32) < 0x80 {
        1
    } else if (c as u32) < 0x800 {
        2
    } else if (c as u32) < 0x10000 {
        3
    } else {
        4
    }
}

/// The UTF-8 byte length of a character sequence.
pub open spec fn byte_len(s: Seq<char>) -> int
    decreases s.len(),
{
    if s.len() == 0 {
        0
    } else {
        byte_len(s.drop_last()) + utf8_len(s.last())
    }
}

proof fn lemma_byte_len_take_le(s: Seq<char>, j: int)
    requires
        0 <= j <= s.len(),
    ensures
        byte_len(s.take(j)) <= byte_len(s),
    decreases s.len() - j,
{
    if j == s.len() {
        assert(s.take(j) =~= s);
    } else {
        assert(s.take(j + 1).drop_last() =~= s.take(j));
        assert(s.take(j + 1).last() == s[j]);
        lemma_byte_len_take_le(s, j + 1);
    }
}

/// The byte length of a string, measured no further than `cap`: the exact
/// length when it is at most `cap`, and `cap + 1` when it is longer.
pub fn byte_len_capped(s: &str, cap: usize) -> (r: usize)
    requires
        cap < usize::MAX - 4,
    ensures
        byte_len(s@) <= cap ==> r == byte_len(s@),
        byte_len(s@) > cap ==> r == cap + 1,
{
    let n = s.unicode_len();
    let mut used: usize = 0;
    let mut i: usize = 0;
    proof {
        assert(s@.take(0) =~= Seq::<char>::empty());
    }
    while i < n
        invariant
            n == s@.len(),
            0 <= i <= n,
            used <= cap,
            cap < usize::MAX - 4,
            used == byte_len(s@.take(i as int)),
        decreases n - i,
    {
        let step = char_utf8_len(s.get_char(i));
        proof {
            assert(s@.take(i + 1).drop_last() =~= s@.take(i as int));
            assert(s@.take(i + 1).last() == s@[i as int]);
        }
        if used + step > cap {
            proof {
                lemma_byte_len_take_le(s@, i + 1);
            }
            return cap + 1;
        }
        used = used + step;
        i = i + 1;
    }
    proof {
        assert(s@.take(n as int) =~= s@);
    }
    used
}

/// Line breaks flattened to spaces.
pub open spec fn sanitized(s: Seq<char>) -> Seq<char> {
    s.map(|i: int, c: char| if c == '\n' || c == '\r' { ' ' } else { c })
}

/// The longest prefix of `s` that fits in `budget` UTF-8 bytes.
pub open spec fn trunc_bytes(s: Seq<char>, budget: int) -> Seq<char>
    decreases s.len(),
{
    if s.len() == 0 {
        s
    } else if utf8_len(s.first()) > budget {
        Seq::empty()
    } else {
        seq![s.first()] + trunc_bytes(s.drop_first(), budget - utf8_len(s.first()))
    }
}

/// Detail text fit for a one-line report: line breaks become spaces and at
/// most the first 200 bytes are kept, cut at a character boundary.
pub open spec fn trunc200_spec(s: Seq<char>) -> Seq<char> {
    trunc_bytes(sanitized(s), 200)
}

/// One character with line breaks flattened to a space.
fn flatten_newline(c: char) -> (r: char)
    ensures
        r == (if c == '\n' || c == '\r' {
            ' '
        } else {
            c
        }),
{
    if c == '\n' || c == '\r' {
        ' '
    } else {
        c
    }
}

/// Flattens line breaks to spaces and keeps at most the first 200 bytes,
/// never cutting a character in half.
pub fn trunc200(s: &str) -> (r: String)
    ensures
        r@ == trunc200_spec(s@),
{
    let n = s.unicode_len();
    let mut out = String::new();
    let mut used: usize = 0;
    let mut i: usize = 0;
    proof {
        assert(sanitized(s@).skip(0) =~= sanitized(s@));
    }
    while i < n && used + char_utf8_len(flatten_newline(s.get_char(i))) <= 200
        invariant
            n == s@.len(),
            0 <= i <= n,
            used <= 200,
            trunc_bytes(sanitized(s@), 200) == out@ + trunc_bytes(
                sanitized(s@).skip(i as int),
                200 - used,
            ),
        decreases n - i,
    {
        let c = flatten_newline(s.get_char(i));
        proof {
            let cleaned = sanitized(s@);
            assert(cleaned.skip(i as int).first() == cleaned[i as int]);
            assert(cleaned[i as int] == c);
            assert(cleaned.skip(i as int).drop_first() =~= cleaned.skip(i + 1));
        }
        push_char(&mut out, c);
        used = used + char_utf8_len(c);
        i = i + 1;
    }
    proof {
        let cleaned = sanitized(s@);
        if i < n {
            assert(cleaned.skip(i as int).first() == cleaned[i as int]);
            assert(trunc_bytes(cleaned.skip(i as int), 200 - used) =~= Seq::<char>::empty());
        } else {
            assert(cleaned.skip(i as int) =~= Seq::<char>::empty());
        }
        assert(out@ =~= trunc_bytes(cleaned, 200));
    }
    out
}


/// Whether two strings hold the same characters.
pub fn str_eq(a: &str, b: &str) -> (r: bool)
    ensures
        r == (a@ == b@),
{
    let n = a.unicode_len();
    let m = b.unicode_len();
    if n != m {
        return false;
    }
    let r = matches_at(a, b, 0, n, m);
    proof {
        assert(a@.subrange(0, m as int) =~= a@);
    }
    r
}


/// Law: lexicographic order is reflexive.
pub proof fn lemma_lex_refl(a: Seq<char>)
    ensures
        lex_le(a, a),
    decreases a.len(),
{
    if a.len() != 0 {
        lemma_lex_refl(a.drop_first());
    }
}


/// `p` is a prefix of `s`.
pub open spec fn prefix_of(s: Seq<char>, p: Seq<char>) -> bool {
    p.len() <= s.len() && s.take(p.len() as int) == p
}

/// Whether `s` starts with `p`.
pub fn str_starts_with(s: &str, p: &str) -> (r: bool)
    ensures
        r == prefix_of(s@, p@),
{
    let n = s.unicode_len();
    let m = p.unicode_len();
    if m > n {
        return false;
    }
    let r = matches_at(s, p, 0, n, m);
    proof {
        assert(s@.subrange(0, m as int) =~= s@.take(m as int));
    }
    r
}

/// What `str::to_lowercase` returns; the result depends on the characters
/// alone.
pub uninterp spec fn lower_of(s: Seq<char>) -> Seq<char>;

/// Relies on `str::to_lowercase`: lowercases by the Unicode rules, from the
/// characters alone.
#[verifier::external_body]
pub(crate) fn lowercase(s: &str) -> (r: String)
    ensures
        r@ == lower_of(s@),
{
    s.to_lowercase()
}


/// A decimal digit.
pub open spec fn is_dec_digit(c: char) -> bool {
    '0' <= c && c <= '9'
}

/// The value of a run of decimal digits.
pub open spec fn dec_value(s: Seq<char>) -> int
    decreases s.len(),
{
    if s.len() == 0 {
        0
    } else {
        dec_value(s.drop_last()) * 10 + (s.last() as u32 - 48)
    }
}

/// A non-empty run of decimal digits.
pub open spec fn all_dec_digits(s: Seq<char>) -> bool {
    forall|k: int| 0 <= k < s.len() ==> is_dec_digit(#[trigger] s[k])
}

/// What `str::parse` makes of an unsigned decimal text, for a type whose
/// largest value is `limit`: an optional leading plus sign, then at least
/// one digit, valued at most the limit.
pub open spec fn parse_uint_of(s: Seq<char>, limit: int) -> Option<int> {
    let digits = if s.len() > 0 && s[0] == '+' {
        s.drop_first()
    } else {
        s
    };
    if digits.len() == 0 || !all_dec_digits(digits) {
        None
    } else if dec_value(digits) > limit {
        None
    } else {
        Some(dec_value(digits))
    }
}

proof fn lemma_dec_value_nonneg(s: Seq<char>)
    requires
        forall|k: int| 0 <= k < s.len() ==> is_dec_digit(#[trigger] s[k]),
    ensures
        dec_value(s) >= 0,
    decreases s.len(),
{
    if s.len() != 0 {
        assert(forall|k: int| 0 <= k < s.drop_last().len() ==> is_dec_digit(
            #[trigger] s.drop_last()[k],
        ));
        lemma_dec_value_nonneg(s.drop_last());
    }
}

/// Parses an unsigned decimal text whose value must fit below `limit`.
pub fn parse_uint(s: &str, limit: u64) -> (r: Option<u64>)
    requires
        limit <= 0xFFFF_FFFF,
    ensures
        r is Some <==> parse_uint_of(s@, limit as int) is Some,
        r matches Some(v) ==> parse_uint_of(s@, limit as int) == Some(v as int),
{
    let n = s.unicode_len();
    let start: usize = if n > 0 && s.get_char(0) == '+' {
        1
    } else {
        0
    };
    let ghost digits = if s@.len() > 0 && s@[0] == '+' {
        s@.drop_first()
    } else {
        s@
    };
    proof {
        assert(digits =~= s@.skip(start as int));
    }
    if start == n {
        return None;
    }
    let mut acc: u64 = 0;
    let mut i: usize = start;
    proof {
        assert(digits.take(0) =~= Seq::<char>::empty());
    }
    while i < n
        invariant
            n == s@.len(),
            digits == s@.skip(start as int),
            digits == (if s@.len() > 0 && s@[0] == '+' {
                s@.drop_first()
            } else {
                s@
            }),
            digits.len() == n - start,
            start <= i <= n,
            limit <= 0xFFFF_FFFF,
            acc <= limit + 1,
            forall|k: int| 0 <= k < i - start ==> is_dec_digit(#[trigger] digits[k]),
            dec_value(digits.take(i - start)) <= limit ==> acc == dec_value(
                digits.take(i - start),
            ),
            dec_value(digits.take(i - start)) > limit ==> acc == limit + 1,
        decreases n - i,
    {
        let c = s.get_char(i);
        if !('0' <= c && c <= '9') {
            proof {
                let dd = if s@.len() > 0 && s@[0] == '+' {
                    s@.drop_first()
                } else {
                    s@
                };
                assert(dd == digits);
                assert(!is_dec_digit(dd[i - start]));
                assert(!all_dec_digits(dd)) by {
                    if all_dec_digits(dd) {
                        assert(is_dec_digit(dd[i - start]));
                    }
                };
                assert(parse_uint_of(s@, limit as int) is None);
            }
            return None;
        }
        let d: u64 = ((c as u32) - 48) as u64;
        let raw: u64 = acc * 10 + d;
        proof {
            let j = i - start;
            assert(digits.take(j + 1).drop_last() =~= digits.take(j));
            assert(digits.take(j + 1).last() == digits[j]);
            assert(digits[j] == s@[i as int]);
            let vt = dec_value(digits.take(j));
            if vt > limit {
                assert(forall|k: int| 0 <= k < digits.take(j).len() ==> is_dec_digit(
                    #[trigger] digits.take(j)[k],
                ));
                lemma_dec_value_nonneg(digits.take(j));
            }
        }
        acc = if raw > limit {
            limit + 1
        } else {
            raw
        };
        i = i + 1;
    }
    proof {
        assert(digits.take(n - start) =~= digits);
        if acc <= limit {
            lemma_dec_value_nonneg(digits);
        }
    }
    if acc > limit {
        None
    } else {
        Some(acc)
    }
}

/// An ASCII letter.
pub open spec fn is_ascii_alpha(c: char) -> bool {
    ('a' <= c && c <= 'z') || ('A' <= c && c <= 'Z')
}

/// Whether `c` is an ASCII letter.
pub fn char_is_ascii_alpha(c: char) -> (r: bool)
    ensures
        r == is_ascii_alpha(c),
{
    ('a' <= c && c <= 'z') || ('A' <= c && c <= 'Z')
}

/// An ASCII letter folded to upper case; anything else stands.
pub open spec fn ascii_upper(c: char) -> char {
    if 'a' <= c && c <= 'z' {
        (((c as u8) - 32) as char)
    } else {
        c
    }
}

/// Folds an ASCII letter to upper case.
pub fn char_ascii_upper(c: char) -> (r: char)
    ensures
        r == ascii_upper(c),
{
    if 'a' <= c && c <= 'z' {
        ((c as u8) - 32) as char
    } else {
        c
    }
}

} // verus!
