//! Character-level text helpers: splitting on a separator, comparison with
//! literals, prefixes and suffixes, ASCII case folding and truncation.

use vstd::prelude::*;

verus! {

/// The pieces of `s` between occurrences of `sep`, in order; a string with
/// `k` separators has `k + 1` pieces (empty pieces included).
pub open spec fn split_on(s: Seq<char>, sep: char) -> Seq<Seq<char>>
    decreases s.len(),
{
    if s.len() == 0 {
        seq![Seq::<char>::empty()]
    } else {
        let prev = split_on(s.drop_last(), sep);
        if s.last() == sep {
            prev.push(Seq::<char>::empty())
        } else {
            prev.update(prev.len() - 1, prev.last().push(s.last()))
        }
    }
}

/// `c` occurs in `s`.
pub open spec fn has_char(s: Seq<char>, c: char) -> bool {
    exists|i: int| 0 <= i < s.len() && s[i] == c
}

/// `p` is a prefix of `s`.
pub open spec fn is_prefix(p: Seq<char>, s: Seq<char>) -> bool {
    p.len() <= s.len() && s.subrange(0, p.len() as int) == p
}

/// `p` is a suffix of `s`.
pub open spec fn is_suffix(p: Seq<char>, s: Seq<char>) -> bool {
    p.len() <= s.len() && s.subrange(s.len() - p.len(), s.len() as int) == p
}

/// The code of a character after ASCII lower-casing; other characters keep
/// their code.
pub open spec fn ascii_lower(c: char) -> u32 {
    if 'A' <= c && c <= 'Z' {
        ((c as u32) + 32) as u32
    } else {
        c as u32
    }
}

/// Two strings are equal when ASCII letters are compared without case.
pub open spec fn eq_ignore_ascii_case(a: Seq<char>, b: Seq<char>) -> bool {
    a.len() == b.len() && forall|i: int| 0 <= i < a.len() ==> ascii_lower(a[i]) == ascii_lower(b[i])
}

/// The code of a character after ASCII upper-casing; other characters keep
/// their code.
pub open spec fn ascii_upper(c: char) -> u32 {
    if 'a' <= c && c <= 'z' {
        ((c as u32) - 32) as u32
    } else {
        c as u32
    }
}

/// Every character of `s` is ASCII.
pub open spec fn is_ascii_text(s: Seq<char>) -> bool {
    forall|i: int| 0 <= i < s.len() ==> (#[trigger] s[i] as u32) < 128
}

/// What `str::to_lowercase` returns for a string.
pub uninterp spec fn unicode_lowercase(s: Seq<char>) -> Seq<char>;

/// What `str::to_uppercase` returns for a string.
pub uninterp spec fn unicode_uppercase(s: Seq<char>) -> Seq<char>;

/// `s` with each letter `A`..`Z` made `a`..`z` and every other character
/// kept.
pub open spec fn ascii_lowercase_of(s: Seq<char>) -> Seq<char> {
    s.map_values(|c: char| ascii_lower(c) as char)
}

/// `s` with each letter `a`..`z` made `A`..`Z` and every other character
/// kept.
pub open spec fn ascii_uppercase_of(s: Seq<char>) -> Seq<char> {
    s.map_values(|c: char| ascii_upper(c) as char)
}

/// The lower-case form of `s`: on ASCII text each letter `A`..`Z` becomes
/// `a`..`z` and every other character stays; on other text it is the Unicode
/// lower-case mapping.
pub open spec fn lowercase_text(s: Seq<char>) -> Seq<char> {
    if is_ascii_text(s) {
        ascii_lowercase_of(s)
    } else {
        unicode_lowercase(s)
    }
}

/// The upper-case form of `s`: on ASCII text each letter `a`..`z` becomes
/// `A`..`Z` and every other character stays; on other text it is the Unicode
/// upper-case mapping.
pub open spec fn uppercase_text(s: Seq<char>) -> Seq<char> {
    if is_ascii_text(s) {
        ascii_uppercase_of(s)
    } else {
        unicode_uppercase(s)
    }
}

/// Wraps `String::push`: appends one character.
#[verifier::external_body]
pub(crate) fn push_char(s: &mut String, c: char)
    ensures
        final(s)@ == old(s)@.push(c),
{
    s.push(c);
}

/// `s` is ASCII text with no lower-case letter `a`..`z`.
pub open spec fn is_ascii_upper_text(s: Seq<char>) -> bool {
    &&& is_ascii_text(s)
    &&& forall|i: int| 0 <= i < s.len() ==> !('a' <= #[trigger] s[i] && s[i] <= 'z')
}

/// Upper-casing the lower-cased form of ASCII text without lower-case
/// letters gives the text back.
pub proof fn lemma_upper_of_lower(s: Seq<char>)
    requires
        is_ascii_upper_text(s),
    ensures
        uppercase_text(lowercase_text(s)) == s,
{
    let l = lowercase_text(s);
    assert forall|i: int| 0 <= i < l.len() implies (#[trigger] l[i] as u32) < 128 && (l[i] as u32) == ascii_lower(s[i]) by {
        assert(l[i] == ascii_lower(s[i]) as char);
    }
    assert(is_ascii_text(l));
    let u = uppercase_text(l);
    assert forall|i: int| 0 <= i < s.len() implies #[trigger] u[i] == s[i] by {
        assert(u[i] == ascii_upper(l[i]) as char);
        assert(l[i] == ascii_lower(s[i]) as char);
        assert((l[i] as u32) == ascii_lower(s[i]));
        if 'A' <= s[i] && s[i] <= 'Z' {
            assert('a' <= l[i] && l[i] <= 'z');
        } else {
            vstd::utf8::char_u32_cast(s[i], s[i] as u32);
            assert(l[i] == s[i]);
        }
        assert(ascii_upper(l[i]) == s[i] as u32);
        vstd::utf8::char_u32_cast(s[i], s[i] as u32);
    }
    assert(u =~= s);
}

/// ASCII case mapping keeps text ASCII and keeps a `.` out: the upper-case
/// form has no lower-case letter, and the lower-case form stays ASCII.
pub proof fn lemma_ascii_case_maps(t: Seq<char>)
    requires
        is_ascii_text(t),
    ensures
        is_ascii_upper_text(uppercase_text(t)),
        is_ascii_text(lowercase_text(t)),
        !has_char(t, '.') ==> !has_char(uppercase_text(t), '.'),
        !has_char(t, '.') ==> !has_char(lowercase_text(t), '.'),
{
    let u = uppercase_text(t);
    let l = lowercase_text(t);
    assert forall|i: int| 0 <= i < u.len() implies (#[trigger] u[i] as u32) < 128 && !('a' <= u[i] && u[i] <= 'z')
        && (u[i] == '.' ==> t[i] == '.') by {
        assert(u[i] == ascii_upper(t[i]) as char);
        assert((u[i] as u32) == ascii_upper(t[i]));
        if 'a' <= t[i] && t[i] <= 'z' {
            assert('A' <= u[i] && u[i] <= 'Z');
        } else {
            vstd::utf8::char_u32_cast(t[i], t[i] as u32);
            assert(u[i] == t[i]);
        }
        if u[i] == '.' {
            vstd::utf8::char_u32_cast(t[i], t[i] as u32);
        }
    }
    assert forall|i: int| 0 <= i < l.len() implies (#[trigger] l[i] as u32) < 128 && (l[i] == '.' ==> t[i] == '.') by {
        assert(l[i] == ascii_lower(t[i]) as char);
        if l[i] == '.' {
            vstd::utf8::char_u32_cast(t[i], t[i] as u32);
        }
    }
    if !has_char(t, '.') {
        assert(!has_char(u, '.')) by {
            if has_char(u, '.') {
                let k = choose|k: int| 0 <= k < u.len() && u[k] == '.';
                assert(t[k] == '.');
            }
        }
        assert(!has_char(l, '.')) by {
            if has_char(l, '.') {
                let k = choose|k: int| 0 <= k < l.len() && l[k] == '.';
                assert(t[k] == '.');
            }
        }
    }
}

/// A part of text without a `.` has none, and a part of ASCII text is ASCII.
pub proof fn lemma_subrange_keeps(t: Seq<char>, a: int, b: int)
    requires
        0 <= a <= b <= t.len(),
    ensures
        !has_char(t, '.') ==> !has_char(t.subrange(a, b), '.'),
        is_ascii_text(t) ==> is_ascii_text(t.subrange(a, b)),
{
    let r = t.subrange(a, b);
    if has_char(r, '.') {
        let k = choose|k: int| 0 <= k < r.len() && r[k] == '.';
        assert(t[a + k] == '.');
    }
    if is_ascii_text(t) {
        assert forall|k: int| 0 <= k < r.len() implies (#[trigger] r[k] as u32) < 128 by {
            assert(r[k] == t[a + k]);
        }
    }
}

/// Joining two texts without a `.` gives text without a `.`.
pub proof fn lemma_concat_dot_free(a: Seq<char>, b: Seq<char>)
    requires
        !has_char(a, '.'),
        !has_char(b, '.'),
    ensures
        !has_char(a + b, '.'),
{
    let r = a + b;
    if has_char(r, '.') {
        let k = choose|k: int| 0 <= k < r.len() && r[k] == '.';
        if k < a.len() {
            assert(a[k] == '.');
        } else {
            assert(b[k - a.len()] == '.');
        }
    }
}

/// For an ASCII character `a` and a capital letter `b`: `a` upper-cases to
/// `b` exactly when `a` and `b` agree without case.
pub proof fn lemma_upper_matches_capital(a: char, b: char)
    requires
        (a as u32) < 128,
        'A' <= b && b <= 'Z',
    ensures
        (ascii_upper(a) as char == b) == (ascii_lower(a) == ascii_lower(b)),
{
    vstd::utf8::char_u32_cast(b, b as u32);
    vstd::utf8::char_u32_cast(a, a as u32);
    assert(((ascii_upper(a) as char) as u32) == ascii_upper(a));
}

/// Wraps `str::to_lowercase`. The contract claims that on ASCII text it
/// lower-cases exactly the letters `A`..`Z` (std documents `to_lowercase` as
/// lower-casing ASCII characters as `to_ascii_lowercase` does, and non-ASCII
/// ones besides); on other text the result is named `unicode_lowercase`.
#[verifier::external_body]
pub(crate) fn to_lowercase(s: &str) -> (r: String)
    ensures
        is_ascii_text(s@) ==> r@ == ascii_lowercase_of(s@),
        !is_ascii_text(s@) ==> r@ == unicode_lowercase(s@),
{
    s.to_lowercase()
}

/// Wraps `str::to_uppercase`. The contract claims that on ASCII text it
/// upper-cases exactly the letters `a`..`z` (std documents `to_uppercase` as
/// upper-casing ASCII characters as `to_ascii_uppercase` does, and non-ASCII
/// ones besides); on other text the result is named `unicode_uppercase`.
#[verifier::external_body]
pub(crate) fn to_uppercase(s: &str) -> (r: String)
    ensures
        is_ascii_text(s@) ==> r@ == ascii_uppercase_of(s@),
        !is_ascii_text(s@) ==> r@ == unicode_uppercase(s@),
{
    s.to_uppercase()
}

/// A new string holding `s`.
pub fn owned(s: &str) -> (r: String)
    ensures
        r@ == s@,
{
    let mut r = String::new();
    r.append(s);
    r
}

/// The characters of `s` as a vector.
pub fn chars_of(s: &str) -> (v: Vec<char>)
    ensures
        v@ == s@,
{
    let n = s.unicode_len();
    let mut v: Vec<char> = Vec::new();
    let mut i: usize = 0;
    while i < n
        invariant
            n == s@.len(),
            i <= n,
            v@ == s@.subrange(0, i as int),
        decreases n - i,
    {
        v.push(s.get_char(i));
        i = i + 1;
    }
    v
}

/// `a` and `b` hold the same characters.
pub fn same_text(a: &str, b: &str) -> (r: bool)
    ensures
        r == (a@ == b@),
{
    let n = a.unicode_len();
    let m = b.unicode_len();
    if n != m {
        return false;
    }
    let mut i: usize = 0;
    while i < n
        invariant
            n == a@.len(),
            m == b@.len(),
            n == m,
            i <= n,
            forall|j: int| 0 <= j < i ==> a@[j] == b@[j],
        decreases n - i,
    {
        if a.get_char(i) != b.get_char(i) {
            return false;
        }
        i = i + 1;
    }
    assert(a@ =~= b@);
    true
}

/// `a` equals `b` when ASCII letters are compared without case.
pub fn same_text_ignore_ascii_case(a: &str, b: &str) -> (r: bool)
    ensures
        r == eq_ignore_ascii_case(a@, b@),
{
    let n = a.unicode_len();
    let m = b.unicode_len();
    if n != m {
        return false;
    }
    let mut i: usize = 0;
    while i < n
        invariant
            n == a@.len(),
            m == b@.len(),
            n == m,
            i <= n,
            forall|j: int| 0 <= j < i ==> ascii_lower(a@[j]) == ascii_lower(b@[j]),
        decreases n - i,
    {
        let x = a.get_char(i);
        let y = b.get_char(i);
        let lx: u32 = if 'A' <= x && x <= 'Z' { (x as u32) + 32 } else { x as u32 };
        let ly: u32 = if 'A' <= y && y <= 'Z' { (y as u32) + 32 } else { y as u32 };
        if lx != ly {
            return false;
        }
        i = i + 1;
    }
    true
}

/// `c` occurs in `s`.
pub fn contains_char(s: &str, c: char) -> (r: bool)
    ensures
        r == has_char(s@, c),
{
    let n = s.unicode_len();
    let mut i: usize = 0;
    while i < n
        invariant
            n == s@.len(),
            i <= n,
            forall|j: int| 0 <= j < i ==> s@[j] != c,
        decreases n - i,
    {
        if s.get_char(i) == c {
            return true;
        }
        i = i + 1;
    }
    false
}

/// `p` is a prefix of `s`.
pub fn starts_with(s: &str, p: &str) -> (r: bool)
    ensures
        r == is_prefix(p@, s@),
{
    let n = s.unicode_len();
    let m = p.unicode_len();
    if m > n {
        return false;
    }
    let mut i: usize = 0;
    while i < m
        invariant
            n == s@.len(),
            m == p@.len(),
            m <= n,
            i <= m,
            forall|j: int| 0 <= j < i ==> s@[j] == p@[j],
        decreases m - i,
    {
        if s.get_char(i) != p.get_char(i) {
            return false;
        }
        i = i + 1;
    }
    assert(s@.subrange(0, m as int) =~= p@);
    true
}

/// The pieces of `s` between occurrences of `sep`.
pub fn split(s: &str, sep: char) -> (parts: Vec<String>)
    ensures
        parts@.map_values(|p: String| p@) == split_on(s@, sep),
{
    let chars = chars_of(s);
    let n = chars.len();
    let mut parts: Vec<String> = Vec::new();
    let mut cur = String::new();
    let mut i: usize = 0;
    assert(s@.subrange(0, 0) =~= Seq::<char>::empty());
    assert(parts@.map_values(|p: String| p@).push(cur@) =~= split_on(Seq::<char>::empty(), sep));
    while i < n
        invariant
            n == chars@.len(),
            chars@ == s@,
            i <= n,
            parts@.map_values(|p: String| p@).push(cur@) == split_on(s@.subrange(0, i as int), sep),
        decreases n - i,
    {
        let c = chars[i];
        let ghost pre = s@.subrange(0, i as int);
        let ghost next = s@.subrange(0, i + 1);
        assert(next.drop_last() =~= pre);
        assert(next.last() == c);
        if c == sep {
            let done = cur;
            parts.push(done);
            cur = String::new();
            assert(parts@.map_values(|p: String| p@).push(cur@) =~= split_on(pre, sep).push(
                Seq::<char>::empty(),
            ));
        } else {
            let ghost before = cur@;
            push_char(&mut cur, c);
            assert(parts@.map_values(|p: String| p@).push(cur@) =~= split_on(pre, sep).update(
                split_on(pre, sep).len() - 1,
                split_on(pre, sep).last().push(c),
            ));
        }
        i = i + 1;
    }
    assert(s@.subrange(0, n as int) =~= s@);
    let ghost all = parts@.map_values(|p: String| p@).push(cur@);
    parts.push(cur);
    assert(parts@.map_values(|p: String| p@) =~= all);
    parts
}

} // verus!

verus! {

/// The pieces of `parts` joined with `.` between neighbours.
pub open spec fn join_dots(parts: Seq<Seq<char>>) -> Seq<char>
    decreases parts.len(),
{
    if parts.len() == 0 {
        Seq::<char>::empty()
    } else if parts.len() == 1 {
        parts[0]
    } else {
        join_dots(parts.drop_last()) + seq!['.'] + parts.last()
    }
}

/// No piece of `parts` holds a `.`.
pub open spec fn dot_free(parts: Seq<Seq<char>>) -> bool {
    forall|i: int| 0 <= i < parts.len() ==> !has_char(#[trigger] parts[i], '.')
}

/// Splitting always yields at least one piece.
pub proof fn lemma_split_nonempty(s: Seq<char>, sep: char)
    ensures
        split_on(s, sep).len() >= 1,
    decreases s.len(),
{
    if s.len() > 0 {
        lemma_split_nonempty(s.drop_last(), sep);
    }
}

/// No piece of a split holds the separator, and the pieces of ASCII text
/// are ASCII text.
pub proof fn lemma_split_pieces(s: Seq<char>, sep: char)
    ensures
        forall|i: int| 0 <= i < split_on(s, sep).len() ==> !has_char(#[trigger] split_on(s, sep)[i], sep),
        is_ascii_text(s) ==> forall|i: int|
            0 <= i < split_on(s, sep).len() ==> is_ascii_text(#[trigger] split_on(s, sep)[i]),
    decreases s.len(),
{
    if s.len() > 0 {
        let p = s.drop_last();
        lemma_split_pieces(p, sep);
        lemma_split_nonempty(p, sep);
        if is_ascii_text(s) {
            assert forall|k: int| 0 <= k < p.len() implies (#[trigger] p[k] as u32) < 128 by {
                assert(p[k] == s[k]);
            }
        }
        let prev = split_on(p, sep);
        let cur = split_on(s, sep);
        let c = s.last();
        assert(c == s[s.len() - 1]);
        if c == sep {
            assert(cur == prev.push(Seq::<char>::empty()));
            assert forall|i: int| 0 <= i < cur.len() implies !has_char(#[trigger] cur[i], sep) by {
                if i < prev.len() {
                    assert(cur[i] == prev[i]);
                } else {
                    assert(cur[i] =~= Seq::<char>::empty());
                }
            }
            if is_ascii_text(s) {
                assert forall|i: int| 0 <= i < cur.len() implies is_ascii_text(#[trigger] cur[i]) by {
                    if i < prev.len() {
                        assert(cur[i] == prev[i]);
                    } else {
                        assert(cur[i] =~= Seq::<char>::empty());
                    }
                }
            }
        } else {
            let last = prev.last().push(c);
            assert(cur == prev.update(prev.len() - 1, last));
            assert(prev.last() == prev[prev.len() - 1]);
            assert(!has_char(last, sep)) by {
                if has_char(last, sep) {
                    let k = choose|k: int| 0 <= k < last.len() && last[k] == sep;
                    if k < prev.last().len() {
                        assert(prev.last()[k] == sep);
                    }
                }
            }
            assert forall|i: int| 0 <= i < cur.len() implies !has_char(#[trigger] cur[i], sep) by {
                if i < prev.len() - 1 {
                    assert(cur[i] == prev[i]);
                } else {
                    assert(cur[i] == last);
                }
            }
            if is_ascii_text(s) {
                assert(is_ascii_text(prev[prev.len() - 1]));
                assert forall|k: int| 0 <= k < last.len() implies (#[trigger] last[k] as u32) < 128 by {
                    if k < prev.last().len() {
                        assert(last[k] == prev.last()[k]);
                    } else {
                        assert(last[k] == c);
                    }
                }
                assert forall|i: int| 0 <= i < cur.len() implies is_ascii_text(#[trigger] cur[i]) by {
                    if i < prev.len() - 1 {
                        assert(cur[i] == prev[i]);
                    } else {
                        assert(cur[i] == last);
                    }
                }
            }
        }
    }
}

/// A string without the separator splits into itself.
pub proof fn lemma_split_without_sep(s: Seq<char>, sep: char)
    requires
        !has_char(s, sep),
    ensures
        split_on(s, sep) == seq![s],
    decreases s.len(),
{
    if s.len() == 0 {
        assert(s =~= Seq::<char>::empty());
        assert(split_on(s, sep) =~= seq![s]);
    } else {
        let p = s.drop_last();
        assert(!has_char(p, sep)) by {
            if has_char(p, sep) {
                let i = choose|i: int| 0 <= i < p.len() && p[i] == sep;
                assert(s[i] == sep);
            }
        }
        lemma_split_without_sep(p, sep);
        assert(s.last() != sep) by {
            assert(s[s.len() - 1] == s.last());
        }
        assert(p.push(s.last()) =~= s);
        let prev = split_on(p, sep);
        assert(prev.len() == 1 && prev.last() == p);
        assert(split_on(s, sep) == prev.update(prev.len() - 1, prev.last().push(s.last())));
        assert(split_on(s, sep) =~= seq![s]);
    }
}

/// Splitting `a`, a separator, then `b` splits `a` and `b` separately.
pub proof fn lemma_split_concat(a: Seq<char>, b: Seq<char>, sep: char)
    ensures
        split_on(a + seq![sep] + b, sep) == split_on(a, sep) + split_on(b, sep),
    decreases b.len(),
{
    let w = a + seq![sep] + b;
    if b.len() == 0 {
        assert(w.drop_last() =~= a);
        assert(split_on(b, sep) =~= seq![Seq::<char>::empty()]);
        assert(split_on(w, sep) =~= split_on(a, sep) + split_on(b, sep));
    } else {
        let b1 = b.drop_last();
        lemma_split_concat(a, b1, sep);
        lemma_split_nonempty(b1, sep);
        lemma_split_nonempty(a, sep);
        assert(w.drop_last() =~= a + seq![sep] + b1);
        assert(w.last() == b.last());
        let pa = split_on(a, sep);
        let pb = split_on(b1, sep);
        if b.last() == sep {
            assert(split_on(w, sep) =~= (pa + pb).push(Seq::<char>::empty()));
            assert(split_on(w, sep) =~= pa + pb.push(Seq::<char>::empty()));
        } else {
            assert(split_on(w, sep) =~= (pa + pb).update(
                (pa + pb).len() - 1,
                (pa + pb).last().push(b.last()),
            ));
            assert(split_on(w, sep) =~= pa + pb.update(pb.len() - 1, pb.last().push(b.last())));
        }
    }
}

/// Splitting the dot-joined pieces gives the pieces back.
pub proof fn lemma_split_join(parts: Seq<Seq<char>>)
    requires
        parts.len() >= 1,
        dot_free(parts),
    ensures
        split_on(join_dots(parts), '.') == parts,
    decreases parts.len(),
{
    if parts.len() == 1 {
        lemma_split_without_sep(parts[0], '.');
        assert(split_on(join_dots(parts), '.') =~= parts);
    } else {
        let init = parts.drop_last();
        assert(dot_free(init)) by {
            assert forall|i: int| 0 <= i < init.len() implies !has_char(#[trigger] init[i], '.') by {
                assert(init[i] == parts[i]);
            }
        }
        lemma_split_join(init);
        assert(!has_char(parts[parts.len() - 1], '.'));
        lemma_split_without_sep(parts.last(), '.');
        lemma_split_concat(join_dots(init), parts.last(), '.');
        assert(split_on(join_dots(parts), '.') =~= parts);
    }
}

/// The dot-joined text of `parts`.
pub fn join_dotted(parts: &Vec<&str>) -> (r: String)
    requires
        parts@.len() >= 1,
    ensures
        r@ == join_dots(parts@.map_values(|p: &str| p@)),
{
    let ghost views = parts@.map_values(|p: &str| p@);
    let mut r = String::new();
    r.append(parts[0]);
    let mut i: usize = 1;
    assert(views.subrange(0, 1).len() == 1);
    while i < parts.len()
        invariant
            1 <= i <= parts@.len(),
            views == parts@.map_values(|p: &str| p@),
            r@ == join_dots(views.subrange(0, i as int)),
        decreases parts@.len() - i,
    {
        push_char(&mut r, '.');
        r.append(parts[i]);
        assert(views.subrange(0, i + 1).drop_last() =~= views.subrange(0, i as int));
        i = i + 1;
    }
    assert(views.subrange(0, parts@.len() as int) =~= views);
    r
}

} // verus!

verus! {

/// The decimal digits of a natural number, most significant first.
pub open spec fn decimal_digits(n: nat) -> Seq<char>
    decreases n,
{
    if n < 10 {
        seq![(('0' as nat) + n) as char]
    } else {
        decimal_digits(n / 10).push((('0' as nat) + n % 10) as char)
    }
}

/// The decimal text of an integer, with a leading `-` when negative.
pub open spec fn decimal_text(n: int) -> Seq<char> {
    if n < 0 {
        seq!['-'] + decimal_digits((-n) as nat)
    } else {
        decimal_digits(n as nat)
    }
}

/// The digit character for `d < 10`.
fn digit_char(d: u64) -> (c: char)
    requires
        d < 10,
    ensures
        c == (('0' as nat) + d) as char,
{
    if d == 0 { '0' } else if d == 1 { '1' } else if d == 2 { '2' } else if d == 3 { '3' }
    else if d == 4 { '4' } else if d == 5 { '5' } else if d == 6 { '6' } else if d == 7 { '7' }
    else if d == 8 { '8' } else { '9' }
}

/// Appends the decimal digits of `n` to `s`.
fn push_decimal(s: &mut String, n: u64)
    ensures
        final(s)@ == old(s)@ + decimal_digits(n as nat),
    decreases n,
{
    if n >= 10 {
        push_decimal(s, n / 10);
    }
    push_char(s, digit_char(n % 10));
}

/// Appends the decimal text of `n` to `s`, with a `-` when negative.
pub fn push_i64(s: &mut String, n: i64)
    ensures
        final(s)@ == old(s)@ + decimal_text(n as int),
{
    if n < 0 {
        push_char(s, '-');
        let magnitude: u64 = if n == i64::MIN {
            9223372036854775808u64
        } else {
            (-n) as u64
        };
        push_decimal(s, magnitude);
        assert(final(s)@ =~= old(s)@ + decimal_text(n as int));
    } else {
        push_decimal(s, n as u64);
    }
}

} // verus!

verus! {

/// The decimal text of a number is the text of its leading digits followed
/// by its last digit.
pub proof fn lemma_decimal_split(n: nat)
    requires
        n >= 10,
    ensures
        decimal_text(n as int) == decimal_text((n / 10) as int) + decimal_text((n % 10) as int),
{
    assert(decimal_text((n % 10) as int) =~= seq![(('0' as nat) + n % 10) as char]);
}

} // verus!
