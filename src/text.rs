use vstd::prelude::*;
use vstd::utf8::encode_utf8;

verus! {

broadcast use vstd::seq::Seq::lemma_push_map_commute;

/// Whether `c` carries the Unicode `White_Space` property.
pub uninterp spec fn is_white_space(c: char) -> bool;

/// Relies on `char::is_whitespace`: the answer depends on the character alone.
#[verifier::external_body]
pub(crate) fn char_is_whitespace(c: char) -> (r: bool)
    ensures
        r == is_white_space(c),
{
    c.is_whitespace()
}

/// `s` with its leading whitespace removed.
pub open spec fn trim_start_spec(s: Seq<char>) -> Seq<char>
    decreases s.len(),
{
    if s.len() > 0 && is_white_space(s[0]) {
        trim_start_spec(s.drop_first())
    } else {
        s
    }
}

/// `s` with its trailing whitespace removed.
pub open spec fn trim_end_spec(s: Seq<char>) -> Seq<char>
    decreases s.len(),
{
    if s.len() > 0 && is_white_space(s.last()) {
        trim_end_spec(s.drop_last())
    } else {
        s
    }
}

/// `s` with whitespace removed at both ends.
pub open spec fn trim_spec(s: Seq<char>) -> Seq<char> {
    trim_end_spec(trim_start_spec(s))
}

/// `s` with every leading repetition of the non-empty pattern `p` removed.
pub open spec fn strip_prefixes(s: Seq<char>, p: Seq<char>) -> Seq<char>
    decreases s.len(),
{
    if p.len() > 0 && p.len() <= s.len() && s.subrange(0, p.len() as int) == p {
        strip_prefixes(s.subrange(p.len() as int, s.len() as int), p)
    } else {
        s
    }
}

/// `s` with every trailing repetition of the non-empty pattern `p` removed.
pub open spec fn strip_suffixes(s: Seq<char>, p: Seq<char>) -> Seq<char>
    decreases s.len(),
{
    if p.len() > 0 && p.len() <= s.len() && s.subrange(s.len() - p.len(), s.len() as int) == p {
        strip_suffixes(s.subrange(0, s.len() - p.len()), p)
    } else {
        s
    }
}

/// Whether `p` occurs in `s` starting at position `i`.
pub open spec fn occurs_at(s: Seq<char>, p: Seq<char>, i: int) -> bool {
    0 <= i && i + p.len() <= s.len() && s.subrange(i, i + p.len()) == p
}

/// Whether `p` occurs anywhere in `s`.
pub open spec fn has_infix(s: Seq<char>, p: Seq<char>) -> bool {
    exists|i: int| occurs_at(s, p, i)
}

/// The three backquotes that open or close a Markdown code fence.
pub open spec fn fence() -> Seq<char> {
    seq!['`', '`', '`']
}

/// An opening Markdown fence tagged as JSON.
pub open spec fn json_fence() -> Seq<char> {
    fence() + seq!['j', 's', 'o', 'n']
}

/// A model reply with surrounding whitespace and Markdown code fences removed.
pub open spec fn unfenced(raw: Seq<char>) -> Seq<char> {
    trim_spec(
        strip_suffixes(strip_prefixes(strip_prefixes(trim_spec(raw), json_fence()), fence()), fence()),
    )
}

/// Removes leading whitespace.
pub fn trim_start(s: &str) -> (r: &str)
    ensures
        r@ == trim_start_spec(s@),
{
    let n = s.unicode_len();
    let mut i: usize = 0;
    assert(s@.subrange(0, n as int) =~= s@);
    while i < n
        invariant
            n == s@.len(),
            i <= n,
            trim_start_spec(s@) == trim_start_spec(s@.subrange(i as int, n as int)),
        ensures
            i <= n,
            trim_start_spec(s@) == trim_start_spec(s@.subrange(i as int, n as int)),
            i < n ==> !is_white_space(s@[i as int]),
        decreases n - i,
    {
        let c = s.get_char(i);
        if !char_is_whitespace(c) {
            break;
        }
        assert(s@.subrange(i as int, n as int).drop_first() =~= s@.subrange(i + 1, n as int));
        i = i + 1;
    }
    let r = s.substring_char(i, n);
    assert(i < n ==> r@[0] == s@[i as int]);
    r
}

/// Removes trailing whitespace.
pub fn trim_end(s: &str) -> (r: &str)
    ensures
        r@ == trim_end_spec(s@),
{
    let n = s.unicode_len();
    let mut j: usize = n;
    assert(s@.subrange(0, n as int) =~= s@);
    while j > 0
        invariant
            n == s@.len(),
            j <= n,
            trim_end_spec(s@) == trim_end_spec(s@.subrange(0, j as int)),
        ensures
            j <= n,
            trim_end_spec(s@) == trim_end_spec(s@.subrange(0, j as int)),
            j > 0 ==> !is_white_space(s@[j - 1]),
        decreases j,
    {
        let c = s.get_char(j - 1);
        if !char_is_whitespace(c) {
            break;
        }
        assert(s@.subrange(0, j as int).drop_last() =~= s@.subrange(0, j - 1));
        j = j - 1;
    }
    let r = s.substring_char(0, j);
    assert(j > 0 ==> r@.last() == s@[j - 1]);
    if j == n {
        assert(s@.subrange(0, n as int) =~= s@);
    }
    r
}

/// Removes whitespace at both ends.
pub fn trim(s: &str) -> (r: &str)
    ensures
        r@ == trim_spec(s@),
{
    trim_end(trim_start(s))
}

/// Whether `p` occurs in `s` at position `i`.
pub fn matches_at(s: &str, p: &str, i: usize) -> (r: bool)
    requires
        i <= s@.len(),
    ensures
        r == occurs_at(s@, p@, i as int),
{
    let n = s.unicode_len();
    let m = p.unicode_len();
    if m > n - i {
        return false;
    }
    let mut j: usize = 0;
    while j < m
        invariant
            n == s@.len(),
            m == p@.len(),
            i + m <= n,
            j <= m,
            forall|k: int| 0 <= k < j ==> s@[i + k] == p@[k],
        decreases m - j,
    {
        if s.get_char(i + j) != p.get_char(j) {
            assert(s@.subrange(i as int, i + m)[j as int] != p@[j as int]);
            return false;
        }
        j = j + 1;
    }
    assert(s@.subrange(i as int, i + m) =~= p@);
    true
}

/// Whether `a` and `b` hold the same characters.
pub fn same_text(a: &str, b: &str) -> (r: bool)
    ensures
        r == (a@ == b@),
{
    if a.unicode_len() != b.unicode_len() {
        return false;
    }
    let r = matches_at(a, b, 0);
    assert(a@.subrange(0, a@.len() as int) =~= a@);
    r
}

/// Whether `p` occurs anywhere in `s`.
pub fn contains_str(s: &str, p: &str) -> (r: bool)
    ensures
        r == has_infix(s@, p@),
{
    let n = s.unicode_len();
    let mut i: usize = 0;
    while i < n
        invariant
            n == s@.len(),
            i <= n,
            forall|k: int| 0 <= k < i ==> !occurs_at(s@, p@, k),
        decreases n - i,
    {
        if matches_at(s, p, i) {
            return true;
        }
        i = i + 1;
    }
    if matches_at(s, p, n) {
        return true;
    }
    assert forall|k: int| !occurs_at(s@, p@, k) by {
        if 0 <= k && k <= n {
        }
    }
    false
}

/// Removes every leading repetition of `p`.
pub fn trim_start_matches<'a>(s: &'a str, p: &str) -> (r: &'a str)
    requires
        p@.len() > 0,
    ensures
        r@ == strip_prefixes(s@, p@),
{
    let n = s.unicode_len();
    let m = p.unicode_len();
    let mut i: usize = 0;
    assert(s@.subrange(0, n as int) =~= s@);
    while i <= n && matches_at(s, p, i)
        invariant
            n == s@.len(),
            m == p@.len(),
            m > 0,
            i <= n,
            strip_prefixes(s@, p@) == strip_prefixes(s@.subrange(i as int, n as int), p@),
        decreases n - i,
    {
        let ghost rest = s@.subrange(i as int, n as int);
        assert(rest.subrange(0, m as int) =~= s@.subrange(i as int, i + m));
        assert(rest.subrange(m as int, rest.len() as int) =~= s@.subrange(i + m, n as int));
        i = i + m;
    }
    let ghost rest = s@.subrange(i as int, n as int);
    assert(rest.len() >= m ==> rest.subrange(0, m as int) =~= s@.subrange(i as int, i + m));
    s.substring_char(i, n)
}

/// Removes every trailing repetition of `p`.
pub fn trim_end_matches<'a>(s: &'a str, p: &str) -> (r: &'a str)
    requires
        p@.len() > 0,
    ensures
        r@ == strip_suffixes(s@, p@),
{
    let n = s.unicode_len();
    let m = p.unicode_len();
    let mut j: usize = n;
    assert(s@.subrange(0, n as int) =~= s@);
    while j >= m && matches_at(s, p, j - m)
        invariant
            n == s@.len(),
            m == p@.len(),
            m > 0,
            j <= n,
            strip_suffixes(s@, p@) == strip_suffixes(s@.subrange(0, j as int), p@),
        decreases j,
    {
        let ghost rest = s@.subrange(0, j as int);
        assert(rest.subrange(j - m, j as int) =~= s@.subrange(j - m, j as int));
        assert(rest.subrange(0, j - m) =~= s@.subrange(0, j - m));
        j = j - m;
    }
    let ghost rest = s@.subrange(0, j as int);
    assert(j >= m ==> rest.subrange(j - m, j as int) =~= s@.subrange(j - m, j as int));
    if j == n {
        assert(s@.subrange(0, n as int) =~= s@);
    }
    s.substring_char(0, j)
}

/// Removes surrounding whitespace and Markdown code fences from a model reply.
pub fn strip_code_fences(raw: &str) -> (r: String)
    ensures
        r@ == unfenced(raw@),
{
    proof {
        reveal_strlit("```json");
        reveal_strlit("```");
    }
    let a = trim(raw);
    let b = trim_start_matches(a, "```json");
    let c = trim_start_matches(b, "```");
    let d = trim_end_matches(c, "```");
    let e = trim(d);
    assert("```json"@ =~= json_fence());
    assert("```"@ =~= fence());
    e.to_string()
}


/// `s` with every non-overlapping occurrence of the non-empty `from`, scanned left to
/// right, replaced by `to`.
pub open spec fn replace_spec(s: Seq<char>, from: Seq<char>, to: Seq<char>) -> Seq<char>
    decreases s.len(),
{
    if s.len() == 0 || from.len() == 0 {
        s
    } else if from.len() <= s.len() && s.subrange(0, from.len() as int) == from {
        to + replace_spec(s.subrange(from.len() as int, s.len() as int), from, to)
    } else {
        seq![s[0]] + replace_spec(s.drop_first(), from, to)
    }
}

/// Replaces every non-overlapping occurrence of `from`, scanned left to right, by `to`.
pub fn replace_all(s: &str, from: &str, to: &str) -> (r: String)
    requires
        from@.len() > 0,
    ensures
        r@ == replace_spec(s@, from@, to@),
{
    let n = s.unicode_len();
    let m = from.unicode_len();
    let mut out = String::new();
    let mut i: usize = 0;
    assert(s@.subrange(0, n as int) =~= s@);
    while i < n
        invariant
            n == s@.len(),
            m == from@.len(),
            m > 0,
            i <= n,
            out@ + replace_spec(s@.subrange(i as int, n as int), from@, to@) == replace_spec(s@, from@, to@),
        decreases n - i,
    {
        let ghost rest = s@.subrange(i as int, n as int);
        if matches_at(s, from, i) {
            assert(rest.subrange(0, m as int) =~= s@.subrange(i as int, i + m));
            assert(rest.subrange(m as int, rest.len() as int) =~= s@.subrange(i + m, n as int));
            let ghost before = out@;
            out.append(to);
            assert(out@ + replace_spec(s@.subrange(i + m, n as int), from@, to@) =~= before + (to@
                + replace_spec(s@.subrange(i + m, n as int), from@, to@)));
            i = i + m;
        } else {
            assert(rest.len() >= m ==> rest.subrange(0, m as int) =~= s@.subrange(i as int, i + m));
            assert(rest.drop_first() =~= s@.subrange(i + 1, n as int));
            let c = s.substring_char(i, i + 1);
            assert(c@ =~= seq![rest[0]]);
            let ghost before = out@;
            out.append(c);
            assert(out@ + replace_spec(s@.subrange(i + 1, n as int), from@, to@) =~= before + (seq![rest[0]]
                + replace_spec(rest.drop_first(), from@, to@)));
            i = i + 1;
        }
    }
    assert(s@.subrange(n as int, n as int) =~= Seq::<char>::empty());
    assert(out@ + Seq::<char>::empty() =~= out@);
    out
}


/// Whether `c` is alphabetic or numeric in Unicode's sense.
pub uninterp spec fn is_alnum(c: char) -> bool;

/// Whether `c` carries the Unicode `Uppercase` property.
pub uninterp spec fn is_upper(c: char) -> bool;

/// Whether `c` carries the Unicode `Lowercase` property.
pub uninterp spec fn is_lower(c: char) -> bool;

/// The lowercase mapping of a whole string.
pub uninterp spec fn lower_of(s: Seq<char>) -> Seq<char>;

/// Relies on `char::is_alphanumeric`: the answer depends on the character alone.
#[verifier::external_body]
pub(crate) fn char_is_alphanumeric(c: char) -> (r: bool)
    ensures
        r == is_alnum(c),
{
    c.is_alphanumeric()
}

/// Relies on `char::is_uppercase`: the answer depends on the character alone.
#[verifier::external_body]
pub(crate) fn char_is_uppercase(c: char) -> (r: bool)
    ensures
        r == is_upper(c),
{
    c.is_uppercase()
}

/// Relies on `char::is_lowercase`: the answer depends on the character alone.
#[verifier::external_body]
pub(crate) fn char_is_lowercase(c: char) -> (r: bool)
    ensures
        r == is_lower(c),
{
    c.is_lowercase()
}

/// Relies on `str::to_lowercase`: the result depends on the characters alone, and the
/// empty string stays empty.
#[verifier::external_body]
pub(crate) fn to_lowercase(s: &str) -> (r: String)
    ensures
        r@ == lower_of(s@),
        s@.len() == 0 ==> r@.len() == 0,
{
    s.to_lowercase()
}

/// The maximal runs of non-whitespace characters of `s`, in order.
pub open spec fn words(s: Seq<char>) -> Seq<Seq<char>>
    decreases s.len(),
{
    if s.len() == 0 {
        seq![]
    } else if is_white_space(s.last()) {
        words(s.drop_last())
    } else if s.len() >= 2 && !is_white_space(s[s.len() - 2]) {
        let w = words(s.drop_last());
        w.drop_last().push(w.last().push(s.last()))
    } else {
        words(s.drop_last()).push(seq![s.last()])
    }
}

/// The words of `s`: its maximal runs of non-whitespace characters.
pub fn split_whitespace(s: &str) -> (r: Vec<String>)
    ensures
        r@.map_values(|w: String| w@) == words(s@),
{
    let n = s.unicode_len();
    let mut out: Vec<String> = Vec::new();
    let mut cur = String::new();
    let mut i: usize = 0;
    while i < n
        invariant
            n == s@.len(),
            i <= n,
            cur@.len() > 0 <==> (i > 0 && !is_white_space(s@[i - 1])),
            cur@.len() > 0 ==> words(s@.subrange(0, i as int)) == out@.map_values(|w: String| w@).push(cur@),
            cur@.len() == 0 ==> words(s@.subrange(0, i as int)) == out@.map_values(|w: String| w@),
        decreases n - i,
    {
        let ghost pre = s@.subrange(0, i + 1);
        assert(pre.drop_last() =~= s@.subrange(0, i as int));
        assert(pre.last() == s@[i as int]);
        assert(i >= 1 ==> pre[i - 1] == s@[i - 1]);
        let c = s.substring_char(i, i + 1);
        assert(c@ =~= seq![s@[i as int]]);
        if char_is_whitespace(s.get_char(i)) {
            if cur.unicode_len() > 0 {
                let ghost before = out@;
                out.push(cur);
                assert(out@.map_values(|w: String| w@) =~= before.map_values(|w: String| w@).push(cur@));
                cur = String::new();
            }
        } else {
            let ghost old_cur = cur@;
            cur.append(c);
            assert(cur@ =~= old_cur.push(s@[i as int]));
            assert(old_cur.len() > 0 ==> words(s@.subrange(0, i as int)).drop_last() =~= out@.map_values(|w: String| w@));
        }
        i = i + 1;
    }
    assert(s@.subrange(0, n as int) =~= s@);
    if cur.unicode_len() > 0 {
        let ghost before = out@;
        out.push(cur);
        assert(out@.map_values(|w: String| w@) =~= before.map_values(|w: String| w@).push(cur@));
    }
    out
}

/// `s` with its leading and trailing characters that are not alphanumeric removed.
pub open spec fn trim_non_alnum(s: Seq<char>) -> Seq<char>
    decreases s.len(),
{
    if s.len() > 0 && !is_alnum(s[0]) {
        trim_non_alnum(s.drop_first())
    } else if s.len() > 0 && !is_alnum(s.last()) {
        trim_non_alnum(s.drop_last())
    } else {
        s
    }
}

/// Removes the leading and trailing characters that are not alphanumeric.
pub fn trim_non_alphanumeric(s: &str) -> (r: String)
    ensures
        r@ == trim_non_alnum(s@),
{
    let n = s.unicode_len();
    let mut a: usize = 0;
    let mut b: usize = n;
    assert(s@.subrange(0, n as int) =~= s@);
    while a < b
        invariant
            n == s@.len(),
            a <= b <= n,
            b == n,
            trim_non_alnum(s@) == trim_non_alnum(s@.subrange(a as int, b as int)),
        ensures
            a <= b <= n,
            trim_non_alnum(s@) == trim_non_alnum(s@.subrange(a as int, b as int)),
            a < b ==> is_alnum(s@[a as int]),
        decreases b - a,
    {
        if char_is_alphanumeric(s.get_char(a)) {
            break;
        }
        assert(s@.subrange(a as int, b as int).drop_first() =~= s@.subrange(a + 1, b as int));
        a = a + 1;
    }
    while a < b
        invariant
            n == s@.len(),
            a <= b <= n,
            a < b ==> is_alnum(s@[a as int]),
            trim_non_alnum(s@) == trim_non_alnum(s@.subrange(a as int, b as int)),
        ensures
            a <= b <= n,
            trim_non_alnum(s@) == trim_non_alnum(s@.subrange(a as int, b as int)),
            a < b ==> is_alnum(s@[a as int]) && is_alnum(s@[b - 1]),
        decreases b - a,
    {
        if char_is_alphanumeric(s.get_char(b - 1)) {
            break;
        }
        let ghost t = s@.subrange(a as int, b as int);
        assert(t[0] == s@[a as int]);
        assert(t.drop_last() =~= s@.subrange(a as int, b - 1));
        b = b - 1;
    }
    let r = s.substring_char(a, b);
    assert(a < b ==> r@[0] == s@[a as int] && r@.last() == s@[b - 1]);
    r.to_string()
}

/// Whether `s` holds an uppercase character.
pub open spec fn has_upper(s: Seq<char>) -> bool {
    exists|i: int| 0 <= i < s.len() && is_upper(s[i])
}

/// Whether `s` holds a lowercase character.
pub open spec fn has_lower(s: Seq<char>) -> bool {
    exists|i: int| 0 <= i < s.len() && is_lower(s[i])
}

/// Whether `s` holds an uppercase character.
pub fn has_uppercase(s: &str) -> (r: bool)
    ensures
        r == has_upper(s@),
{
    let n = s.unicode_len();
    let mut i: usize = 0;
    while i < n
        invariant
            n == s@.len(),
            i <= n,
            forall|j: int| 0 <= j < i ==> !is_upper(s@[j]),
        decreases n - i,
    {
        if char_is_uppercase(s.get_char(i)) {
            return true;
        }
        i = i + 1;
    }
    false
}

/// Whether `s` holds a lowercase character.
pub fn has_lowercase(s: &str) -> (r: bool)
    ensures
        r == has_lower(s@),
{
    let n = s.unicode_len();
    let mut i: usize = 0;
    while i < n
        invariant
            n == s@.len(),
            i <= n,
            forall|j: int| 0 <= j < i ==> !is_lower(s@[j]),
        decreases n - i,
    {
        if char_is_lowercase(s.get_char(i)) {
            return true;
        }
        i = i + 1;
    }
    false
}

/// Whether every character of `s` is alphanumeric.
pub fn all_alphanumeric(s: &str) -> (r: bool)
    ensures
        r == (forall|i: int| 0 <= i < s@.len() ==> is_alnum(#[trigger] s@[i])),
{
    let n = s.unicode_len();
    let mut i: usize = 0;
    while i < n
        invariant
            n == s@.len(),
            i <= n,
            forall|j: int| 0 <= j < i ==> is_alnum(#[trigger] s@[j]),
        decreases n - i,
    {
        if !char_is_alphanumeric(s.get_char(i)) {
            return false;
        }
        i = i + 1;
    }
    true
}

/// Whether `a` comes no later than `b` in the lexicographic order of bytes.
pub open spec fn bytes_le(a: Seq<u8>, b: Seq<u8>) -> bool
    decreases a.len(),
{
    if a.len() == 0 {
        true
    } else if b.len() == 0 {
        false
    } else if a[0] != b[0] {
        a[0] < b[0]
    } else {
        bytes_le(a.drop_first(), b.drop_first())
    }
}

/// Whether the strings of `v` are in nondecreasing order of their UTF-8 bytes.
pub open spec fn sorted_strings(v: Seq<String>) -> bool {
    forall|i: int, j: int|
        0 <= i < j < v.len() ==> bytes_le(encode_utf8(v[i]@), encode_utf8(v[j]@))
}

/// Relies on `slice::sort` over `String`, whose `Ord` compares the UTF-8 bytes
/// lexicographically: the result is a sorted permutation.
#[verifier::external_body]
pub(crate) fn sort_strings(v: &mut Vec<String>)
    ensures
        final(v)@.map_values(|s: String| s@).to_multiset() == old(v)@.map_values(|s: String| s@).to_multiset(),
        sorted_strings(final(v)@),
{
    v.sort()
}

/// `v` with each run of equal adjacent strings cut to its first.
pub open spec fn dedup_adjacent(v: Seq<Seq<char>>) -> Seq<Seq<char>>
    decreases v.len(),
{
    if v.len() == 0 {
        v
    } else if v.len() >= 2 && v[v.len() - 2] == v.last() {
        dedup_adjacent(v.drop_last())
    } else {
        dedup_adjacent(v.drop_last()).push(v.last())
    }
}

/// Removes each string equal to the one before it.
pub fn dedup_strings(v: &Vec<String>) -> (r: Vec<String>)
    ensures
        r@.map_values(|s: String| s@) == dedup_adjacent(v@.map_values(|s: String| s@)),
{
    let ghost all = v@.map_values(|s: String| s@);
    let mut out: Vec<String> = Vec::new();
    let n = v.len();
    let mut i: usize = 0;
    while i < n
        invariant
            n == v.len(),
            all == v@.map_values(|s: String| s@),
            i <= n,
            out@.map_values(|s: String| s@) == dedup_adjacent(all.subrange(0, i as int)),
        decreases n - i,
    {
        let ghost pre = all.subrange(0, i + 1);
        assert(pre.drop_last() =~= all.subrange(0, i as int));
        assert(pre.last() == v@[i as int]@);
        assert(i >= 1 ==> pre[i - 1] == v@[i - 1]@);
        if i == 0 || v[i - 1] != v[i] {
            let ghost before = out@;
            out.push(v[i].clone());
            assert(out@.map_values(|s: String| s@) =~= before.map_values(|s: String| s@).push(v@[i as int]@));
        }
        i = i + 1;
    }
    assert(all.subrange(0, n as int) =~= all);
    out
}

/// The strings of `parts` with `sep` between each two.
pub open spec fn joined(parts: Seq<Seq<char>>, sep: Seq<char>) -> Seq<char>
    decreases parts.len(),
{
    if parts.len() == 0 {
        seq![]
    } else if parts.len() == 1 {
        parts[0]
    } else {
        joined(parts.drop_last(), sep) + sep + parts.last()
    }
}

/// The strings of `parts` with `sep` between each two.
pub fn join(parts: &[String], sep: &str) -> (r: String)
    ensures
        r@ == joined(parts@.map_values(|s: String| s@), sep@),
{
    let ghost all = parts@.map_values(|s: String| s@);
    let mut out = String::new();
    let n = parts.len();
    let mut i: usize = 0;
    while i < n
        invariant
            n == parts@.len(),
            all == parts@.map_values(|s: String| s@),
            i <= n,
            out@ == joined(all.subrange(0, i as int), sep@),
        decreases n - i,
    {
        let ghost pre = all.subrange(0, i + 1);
        assert(pre.drop_last() =~= all.subrange(0, i as int));
        assert(pre.last() == parts@[i as int]@);
        if i > 0 {
            out.append(sep);
        } else {
            assert(pre[0] == pre.last());
        }
        out.append(parts[i].as_str());
        i = i + 1;
    }
    assert(all.subrange(0, n as int) =~= all);
    out
}


/// Whether `r` is `c` sorted by bytes with adjacent repeats removed.
pub open spec fn sorted_dedup_of(r: Seq<Seq<char>>, c: Seq<Seq<char>>) -> bool {
    exists|s: Seq<String>|
        sorted_strings(s) && s.map_values(|x: String| x@).to_multiset() == c.to_multiset() && r == dedup_adjacent(
            s.map_values(|x: String| x@),
        )
}

/// `v` sorted by bytes, with adjacent repeats removed.
pub fn sort_dedup(v: Vec<String>) -> (r: Vec<String>)
    ensures
        sorted_dedup_of(r@.map_values(|x: String| x@), v@.map_values(|x: String| x@)),
{
    let mut v = v;
    sort_strings(&mut v);
    dedup_strings(&v)
}


/// The pieces of `s` between the non-overlapping occurrences of the non-empty `sep`,
/// scanned left to right.
pub open spec fn split_spec(s: Seq<char>, sep: Seq<char>) -> Seq<Seq<char>>
    decreases s.len(),
{
    if sep.len() == 0 || s.len() < sep.len() {
        seq![s]
    } else if s.subrange(0, sep.len() as int) == sep {
        seq![Seq::<char>::empty()] + split_spec(s.subrange(sep.len() as int, s.len() as int), sep)
    } else {
        let r = split_spec(s.drop_first(), sep);
        r.update(0, seq![s[0]] + r[0])
    }
}

proof fn lemma_split_nonempty(s: Seq<char>, sep: Seq<char>)
    ensures
        split_spec(s, sep).len() > 0,
    decreases s.len(),
{
    if sep.len() > 0 && s.len() >= sep.len() {
        if s.subrange(0, sep.len() as int) == sep {
            lemma_split_nonempty(s.subrange(sep.len() as int, s.len() as int), sep);
        } else {
            lemma_split_nonempty(s.drop_first(), sep);
        }
    }
}

/// The pieces of `s` between the non-overlapping occurrences of `sep`.
pub fn split_str(s: &str, sep: &str) -> (r: Vec<String>)
    requires
        sep@.len() > 0,
    ensures
        r@.map_values(|x: String| x@) == split_spec(s@, sep@),
{
    let n = s.unicode_len();
    let m = sep.unicode_len();
    let mut out: Vec<String> = Vec::new();
    let mut cur = String::new();
    let mut i: usize = 0;
    assert(s@.subrange(0, n as int) =~= s@);
    proof {
        lemma_split_nonempty(s@, sep@);
    }
    while i < n
        invariant
            n == s@.len(),
            m == sep@.len(),
            m > 0,
            i <= n,
            split_spec(s@.subrange(i as int, n as int), sep@).len() > 0,
            split_spec(s@, sep@) == out@.map_values(|x: String| x@) + {
                let r = split_spec(s@.subrange(i as int, n as int), sep@);
                r.update(0, cur@ + r[0])
            },
        decreases n - i,
    {
        let ghost rest = s@.subrange(i as int, n as int);
        let ghost before = out@.map_values(|x: String| x@);
        let ghost cur0 = cur@;
        if matches_at(s, sep, i) {
            assert(rest.subrange(0, m as int) =~= s@.subrange(i as int, i + m));
            assert(rest.subrange(m as int, rest.len() as int) =~= s@.subrange(i + m, n as int));
            proof {
                lemma_split_nonempty(s@.subrange(i + m, n as int), sep@);
            }
            let ghost r2 = split_spec(s@.subrange(i + m, n as int), sep@);
            assert(split_spec(rest, sep@) == seq![Seq::<char>::empty()] + r2);
            out.push(cur);
            cur = String::new();
            assert(out@.map_values(|x: String| x@) =~= before.push(cur0));
            assert((seq![Seq::<char>::empty()] + r2).update(0, cur0 + Seq::<char>::empty()) =~= seq![cur0] + r2);
            assert(r2.update(0, cur@ + r2[0]) =~= r2);
            assert(before + (seq![cur0] + r2) =~= before.push(cur0) + r2);
            i = i + m;
        } else {
            assert(rest.len() >= m ==> rest.subrange(0, m as int) =~= s@.subrange(i as int, i + m));
            assert(rest.drop_first() =~= s@.subrange(i + 1, n as int));
            proof {
                lemma_split_nonempty(s@.subrange(i + 1, n as int), sep@);
            }
            let ghost r2 = split_spec(s@.subrange(i + 1, n as int), sep@);
            if n - i >= m {
                assert(split_spec(rest, sep@) == r2.update(0, seq![rest[0]] + r2[0]));
            } else {
                assert(split_spec(rest, sep@) == seq![rest]);
                assert(rest.len() >= 1);
            }
            let c = s.substring_char(i, i + 1);
            assert(c@ =~= seq![rest[0]]);
            cur.append(c);
            assert(cur@ == cur0 + seq![rest[0]]);
            if n - i >= m {
                assert(cur0 + (seq![rest[0]] + r2[0]) =~= cur@ + r2[0]);
                assert(r2.update(0, seq![rest[0]] + r2[0]).update(0, cur0 + (seq![rest[0]] + r2[0]))
                    =~= r2.update(0, cur@ + r2[0]));
            } else {
                assert(s@.subrange(i + 1, n as int).len() < m);
                assert(r2 == seq![s@.subrange(i + 1, n as int)]);
                assert(rest =~= seq![rest[0]] + s@.subrange(i + 1, n as int));
                assert(cur0 + rest =~= cur@ + r2[0]);
                assert(seq![rest].update(0, cur0 + rest) =~= r2.update(0, cur@ + r2[0]));
            }
            i = i + 1;
        }
    }
    assert(s@.subrange(n as int, n as int) =~= Seq::<char>::empty());
    assert(split_spec(Seq::<char>::empty(), sep@) == seq![Seq::<char>::empty()]);
    let ghost before = out@.map_values(|x: String| x@);
    out.push(cur);
    assert(seq![Seq::<char>::empty()].update(0, cur@ + Seq::<char>::empty()) =~= seq![cur@]);
    assert(out@.map_values(|x: String| x@) =~= before.push(cur@));
    out
}


/// The lines of `s`: the pieces between its newlines, each piece that a newline follows
/// cut of one carriage return at its end; the empty piece after a final newline (or of
/// an empty text) is no line.
pub open spec fn lines_spec(s: Seq<char>) -> Seq<Seq<char>> {
    let parts = split_spec(s, seq!['\n']);
    let count = if parts.len() > 0 && parts.last().len() == 0 { parts.len() - 1 } else { parts.len() as int };
    Seq::new(
        count as nat,
        |i: int|
            if i < parts.len() - 1 && parts[i].len() > 0 && parts[i].last() == '\r' {
                parts[i].drop_last()
            } else {
                parts[i]
            },
    )
}

/// The lines of `s`, as `lines_spec` states them.
pub fn lines(s: &str) -> (r: Vec<String>)
    ensures
        r@.map_values(|x: String| x@) == lines_spec(s@),
{
    proof {
        reveal_strlit("\n");
    }
    assert("\n"@ =~= seq!['\n']);
    let parts = split_str(s, "\n");
    let ghost ps = parts@.map_values(|x: String| x@);
    proof {
        lemma_split_nonempty(s@, seq!['\n']);
    }
    let np = parts.len();
    let count = if np > 0 && parts[np - 1].unicode_len() == 0 { np - 1 } else { np };
    let mut out: Vec<String> = Vec::new();
    let mut i: usize = 0;
    while i < count
        invariant
            np == parts@.len(),
            ps == parts@.map_values(|x: String| x@),
            ps == split_spec(s@, seq!['\n']),
            count <= np,
            count == (if np > 0 && ps.last().len() == 0 { np - 1 } else { np as int }),
            i <= count,
            out@.map_values(|x: String| x@) == lines_spec(s@).take(i as int),
        decreases count - i,
    {
        let p = parts[i].as_str();
        let k = p.unicode_len();
        assert(ps[i as int] == p@);
        assert(k > 0 ==> p@.subrange(0, k - 1) =~= p@.drop_last());
        let cut = i + 1 < np && k > 0 && p.get_char(k - 1) == '\r';
        assert(cut == (i < ps.len() - 1 && ps[i as int].len() > 0 && ps[i as int].last() == '\r'));
        let line = if cut {
            let head = p.substring_char(0, k - 1);
            assert(head@ == ps[i as int].drop_last());
            head.to_string()
        } else {
            p.to_string()
        };
        assert(lines_spec(s@).len() == count);
        assert(line@ == lines_spec(s@)[i as int]);
        out.push(line);
        assert(out@.map_values(|x: String| x@) =~= lines_spec(s@).take(i + 1));
        i = i + 1;
    }
    assert(lines_spec(s@).take(count as int) =~= lines_spec(s@));
    out
}

} // verus!
