use vstd::prelude::*;

verus! {

/// The characters with the Unicode `White_Space` property, the set that
/// `char::is_whitespace` recognises.
pub open spec fn is_ws(c: char) -> bool {
    c == ' ' || c == '\t' || c == '\n' || c == '\r' || c == '\u{b}' || c == '\u{c}'
        || c == '\u{85}' || c == '\u{a0}' || c == '\u{1680}'
        || (0x2000 <= c as u32 && c as u32 <= 0x200a)
        || c == '\u{2028}' || c == '\u{2029}' || c == '\u{202f}' || c == '\u{205f}'
        || c == '\u{3000}'
}

pub fn is_whitespace_char(c: char) -> (r: bool)
    ensures
        r == is_ws(c),
{
    c == ' ' || c == '\t' || c == '\n' || c == '\r' || c == '\u{b}' || c == '\u{c}'
        || c == '\u{85}' || c == '\u{a0}' || c == '\u{1680}'
        || (0x2000 <= c as u32 && c as u32 <= 0x200a)
        || c == '\u{2028}' || c == '\u{2029}' || c == '\u{202f}' || c == '\u{205f}'
        || c == '\u{3000}'
}

pub open spec fn trim_start_of(s: Seq<char>) -> Seq<char>
    decreases s.len(),
{
    if s.len() > 0 && is_ws(s[0]) {
        trim_start_of(s.subrange(1, s.len() as int))
    } else {
        s
    }
}

pub open spec fn trim_end_of(s: Seq<char>) -> Seq<char>
    decreases s.len(),
{
    if s.len() > 0 && is_ws(s[s.len() - 1]) {
        trim_end_of(s.subrange(0, s.len() - 1))
    } else {
        s
    }
}

/// What `str::trim` leaves: the text with leading and trailing white space
/// removed.
pub open spec fn trim_of(s: Seq<char>) -> Seq<char> {
    trim_end_of(trim_start_of(s))
}

/// A buffer counts as blank when trimming leaves nothing.
pub open spec fn is_blank(s: Seq<char>) -> bool {
    trim_of(s).len() == 0
}

fn trim_start_str(s: &str) -> (r: String)
    ensures
        r@ == trim_start_of(s@),
    decreases s@.len(),
{
    let n = s.unicode_len();
    if n > 0 && is_whitespace_char(s.get_char(0)) {
        let rest = s.substring_char(1, n);
        trim_start_str(rest)
    } else {
        s.to_owned()
    }
}

fn trim_end_str(s: &str) -> (r: String)
    ensures
        r@ == trim_end_of(s@),
    decreases s@.len(),
{
    let n = s.unicode_len();
    if n > 0 && is_whitespace_char(s.get_char(n - 1)) {
        let rest = s.substring_char(0, n - 1);
        trim_end_str(rest)
    } else {
        s.to_owned()
    }
}

pub fn trim_str(s: &str) -> (r: String)
    ensures
        r@ == trim_of(s@),
{
    let started = trim_start_str(s);
    trim_end_str(started.as_str())
}

pub fn is_blank_str(s: &str) -> (r: bool)
    ensures
        r == is_blank(s@),
{
    let t = trim_str(s);
    t.as_str().unicode_len() == 0
}

/// The index of the first occurrence of `c`, or the length when there is
/// none.
pub open spec fn first_idx_of(s: Seq<char>, c: char) -> nat
    decreases s.len(),
{
    if s.len() == 0 {
        0
    } else if s[0] == c {
        0
    } else {
        1 + first_idx_of(s.subrange(1, s.len() as int), c)
    }
}

pub proof fn lemma_first_idx_of(s: Seq<char>, c: char)
    ensures
        first_idx_of(s, c) <= s.len(),
        first_idx_of(s, c) < s.len() ==> s[first_idx_of(s, c) as int] == c,
        forall|j: int| 0 <= j < first_idx_of(s, c) ==> s[j] != c,
    decreases s.len(),
{
    if s.len() > 0 && s[0] != c {
        let t = s.subrange(1, s.len() as int);
        lemma_first_idx_of(t, c);
        assert forall|j: int| 0 <= j < first_idx_of(s, c) implies s[j] != c by {
            if j >= 1 {
                assert(s[j] == t[j - 1]);
            }
        }
    }
}

proof fn lemma_first_idx_of_unique(s: Seq<char>, c: char, k: nat)
    requires
        k <= s.len(),
        k < s.len() ==> s[k as int] == c,
        forall|j: int| 0 <= j < k ==> s[j] != c,
    ensures
        first_idx_of(s, c) == k,
    decreases s.len(),
{
    if s.len() == 0 {
    } else if s[0] == c {
        assert(k == 0);
    } else {
        assert(k >= 1);
        let t = s.subrange(1, s.len() as int);
        assert(forall|j: int| 0 <= j < k - 1 ==> t[j] != c);
        lemma_first_idx_of_unique(t, c, (k - 1) as nat);
    }
}

pub fn find_char(s: &str, c: char) -> (j: usize)
    ensures
        j as nat == first_idx_of(s@, c),
        j <= s@.len(),
{
    let n = s.unicode_len();
    let mut j: usize = 0;
    while j < n && s.get_char(j) != c
        invariant
            j <= n,
            n == s@.len(),
            forall|k: int| 0 <= k < j ==> s@[k] != c,
        decreases n - j,
    {
        j = j + 1;
    }
    proof {
        lemma_first_idx_of_unique(s@, c, j as nat);
    }
    j
}

/// The views of a sequence of owned strings, as one sequence of character
/// sequences.
pub open spec fn seq_views(lines: Seq<String>) -> Seq<Seq<char>> {
    lines.map_values(|l: String| l@)
}

/// A line with a carriage return left before its line feed loses it.
pub open spec fn strip_cr(s: Seq<char>) -> Seq<char> {
    if s.len() > 0 && s[s.len() - 1] == '\r' {
        s.drop_last()
    } else {
        s
    }
}

/// What `str::lines` yields: segments split at `'\n'`, each stripped of a
/// trailing `'\r'`, with no final empty segment after a terminating newline.
pub open spec fn lines_of(s: Seq<char>) -> Seq<Seq<char>>
    decreases s.len(),
{
    if s.len() == 0 {
        Seq::empty()
    } else {
        let i = first_idx_of(s, '\n');
        if i < s.len() {
            seq![strip_cr(s.subrange(0, i as int))] + lines_of(
                s.subrange(i as int + 1, s.len() as int),
            )
        } else {
            seq![s]
        }
    }
}

pub fn split_lines(s: &str) -> (r: Vec<String>)
    ensures
        r@.len() == lines_of(s@).len(),
        forall|i: int| 0 <= i < r@.len() ==> r@[i]@ == lines_of(s@)[i],
    decreases s@.len(),
{
    let n = s.unicode_len();
    if n == 0 {
        let r: Vec<String> = Vec::new();
        return r;
    }
    let j = find_char(s, '\n');
    if j < n {
        let head_raw = s.substring_char(0, j);
        let head: String = if j > 0 && head_raw.get_char(j - 1) == '\r' {
            head_raw.substring_char(0, j - 1).to_owned()
        } else {
            head_raw.to_owned()
        };
        assert(head@ == strip_cr(s@.subrange(0, j as int)));
        let rest = s.substring_char(j + 1, n);
        let mut v = split_lines(rest);
        v.insert(0, head);
        assert(forall|i: int| 0 <= i < v@.len() ==> v@[i]@ == lines_of(s@)[i]);
        v
    } else {
        let mut v: Vec<String> = Vec::new();
        v.push(s.to_owned());
        v
    }
}

/// The lines of a buffer that still hold something after trimming; this is
/// the order-preserving filter the send path applies to the headers buffer.
pub open spec fn nonblank_lines(s: Seq<char>) -> Seq<Seq<char>> {
    lines_of(s).filter(|l: Seq<char>| !is_blank(l))
}

pub fn split_nonblank_lines(s: &str) -> (r: Vec<String>)
    ensures
        r@.len() == nonblank_lines(s@).len(),
        forall|i: int| 0 <= i < r@.len() ==> r@[i]@ == nonblank_lines(s@)[i],
{
    let all = split_lines(s);
    let ghost lns = lines_of(s@);
    let mut r: Vec<String> = Vec::new();
    let mut i: usize = 0;
    while i < all.len()
        invariant
            i <= all.len(),
            all@.len() == lns.len(),
            forall|k: int| 0 <= k < all@.len() ==> all@[k]@ == lns[k],
            r@.map_values(|l: String| l@) == lns.take(i as int).filter(
                |l: Seq<char>| !is_blank(l),
            ),
        decreases all.len() - i,
    {
        let ghost prefix = lns.take(i as int);
        assert(lns.take(i + 1) == prefix.push(lns[i as int]));
        proof {
            prefix.lemma_filter_push(lns[i as int], |l: Seq<char>| !is_blank(l));
        }
        if !is_blank_str(all[i].as_str()) {
            r.push(all[i].clone());
        }
        i = i + 1;
    }
    proof {
        assert(lns.take(lns.len() as int) == lns);
        assert forall|k: int| 0 <= k < r@.len() implies r@[k]@ == nonblank_lines(s@)[k] by {
            assert(r@.map_values(|l: String| l@)[k] == nonblank_lines(s@)[k]);
        }
    }
    r
}

/// The leading/trailing bracket test on already-trimmed text: it opens and
/// closes with a matching brace or bracket pair.
pub open spec fn is_json_like_shape(t: Seq<char>) -> bool {
    t.len() > 0 && ((t[0] == '{' && t[t.len() - 1] == '}') || (t[0] == '[' && t[t.len() - 1]
        == ']'))
}

/// Whether `prefix` is an initial segment of `s`.
pub open spec fn starts_with_seq(s: Seq<char>, prefix: Seq<char>) -> bool {
    prefix.len() <= s.len() && s.subrange(0, prefix.len() as int) == prefix
}

/// Whether `needle` occurs contiguously inside `hay`.
pub open spec fn contains_seq(hay: Seq<char>, needle: Seq<char>) -> bool {
    exists|i: int|
        0 <= i && i + needle.len() <= hay.len() && #[trigger] hay.subrange(i, i + needle.len())
            == needle
}

fn match_at(hay: &str, needle: &str, at: usize) -> (r: bool)
    requires
        at + needle@.len() <= hay@.len(),
    ensures
        r == (hay@.subrange(at as int, at + needle@.len()) == needle@),
{
    let n = hay.unicode_len();
    let m = needle.unicode_len();
    let mut k: usize = 0;
    while k < m
        invariant
            k <= m,
            n == hay@.len(),
            m == needle@.len(),
            at + m <= n,
            forall|j: int| 0 <= j < k ==> hay@[at + j] == needle@[j],
        decreases m - k,
    {
        if hay.get_char(at + k) != needle.get_char(k) {
            assert(hay@.subrange(at as int, at + needle@.len())[k as int] != needle@[k as int]);
            return false;
        }
        k = k + 1;
    }
    assert(hay@.subrange(at as int, at + needle@.len()) =~= needle@);
    true
}

pub fn str_contains(hay: &str, needle: &str) -> (r: bool)
    ensures
        r == contains_seq(hay@, needle@),
{
    let n = hay.unicode_len();
    let m = needle.unicode_len();
    if m == 0 {
        assert(contains_seq(hay@, needle@)) by {
            assert(hay@.subrange(0, 0 + needle@.len() as int) =~= needle@);
        }
        return true;
    }
    if m > n {
        assert(!contains_seq(hay@, needle@));
        return false;
    }
    let mut i: usize = 0;
    while i < n - m + 1
        invariant
            1 <= m <= n,
            n == hay@.len(),
            m == needle@.len(),
            i <= n - m + 1,
            forall|p: int|
                0 <= p < i ==> #[trigger] hay@.subrange(p, p + needle@.len()) != needle@,
        decreases n - m + 1 - i,
    {
        if match_at(hay, needle, i) {
            assert(contains_seq(hay@, needle@));
            return true;
        }
        i = i + 1;
    }
    false
}

pub open spec fn dec_digit(d: nat) -> char {
    if d == 0 {
        '0'
    } else if d == 1 {
        '1'
    } else if d == 2 {
        '2'
    } else if d == 3 {
        '3'
    } else if d == 4 {
        '4'
    } else if d == 5 {
        '5'
    } else if d == 6 {
        '6'
    } else if d == 7 {
        '7'
    } else if d == 8 {
        '8'
    } else {
        '9'
    }
}

/// The decimal notation of a number, most significant digit first, with no
/// leading zero except for the number zero itself.
pub open spec fn dec_str_of(n: nat) -> Seq<char>
    decreases n,
{
    if n < 10 {
        seq![dec_digit(n)]
    } else {
        dec_str_of(n / 10).push(dec_digit(n % 10))
    }
}

fn dec_digit_str(d: u64) -> (r: &'static str)
    requires
        d < 10,
    ensures
        r@ == seq![dec_digit(d as nat)],
{
    proof {
        reveal_strlit("0");
        reveal_strlit("1");
        reveal_strlit("2");
        reveal_strlit("3");
        reveal_strlit("4");
        reveal_strlit("5");
        reveal_strlit("6");
        reveal_strlit("7");
        reveal_strlit("8");
        reveal_strlit("9");
    }
    let r: &'static str = if d == 0 {
        "0"
    } else if d == 1 {
        "1"
    } else if d == 2 {
        "2"
    } else if d == 3 {
        "3"
    } else if d == 4 {
        "4"
    } else if d == 5 {
        "5"
    } else if d == 6 {
        "6"
    } else if d == 7 {
        "7"
    } else if d == 8 {
        "8"
    } else {
        "9"
    };
    assert(r@ =~= seq![dec_digit(d as nat)]);
    r
}

pub fn u64_to_string(n: u64) -> (r: String)
    ensures
        r@ == dec_str_of(n as nat),
    decreases n,
{
    if n < 10 {
        dec_digit_str(n).to_owned()
    } else {
        let mut prefix = u64_to_string(n / 10);
        prefix.append(dec_digit_str(n % 10));
        assert(prefix@ =~= dec_str_of(n as nat));
        prefix
    }
}

/// Relies on `String::push`: appends the character to the end of the string.
#[verifier::external_body]
pub(crate) fn push_char(s: &mut String, c: char)
    ensures
        final(s)@ == old(s)@.push(c),
{
    s.push(c)
}

/// Relies on `String::pop`: removes and returns the last character, or
/// returns `None` and leaves the string alone when it is empty.
#[verifier::external_body]
pub(crate) fn pop_char(s: &mut String) -> (r: Option<char>)
    ensures
        old(s)@.len() == 0 ==> final(s)@ == old(s)@ && r is None,
        old(s)@.len() > 0 ==> final(s)@ == old(s)@.drop_last() && r == Some(old(s)@.last()),
{
    s.pop()
}

} // verus!
