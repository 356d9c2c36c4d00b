//! Text primitives on `str`, specified over sequences of characters.

use vstd::prelude::*;

verus! {

/// The Unicode `White_Space` property, which is what `str::trim` removes.
pub open spec fn is_space(c: char) -> bool {
    ||| '\u{9}' <= c <= '\u{d}'
    ||| c == ' '
    ||| c == '\u{85}'
    ||| c == '\u{a0}'
    ||| c == '\u{1680}'
    ||| '\u{2000}' <= c <= '\u{200a}'
    ||| c == '\u{2028}'
    ||| c == '\u{2029}'
    ||| c == '\u{202f}'
    ||| c == '\u{205f}'
    ||| c == '\u{3000}'
}

/// `s` without its leading whitespace.
pub open spec fn trim_start(s: Seq<char>) -> Seq<char>
    decreases s.len(),
{
    if s.len() > 0 && is_space(s[0]) {
        trim_start(s.drop_first())
    } else {
        s
    }
}

/// `s` without its trailing whitespace.
pub open spec fn trim_end(s: Seq<char>) -> Seq<char>
    decreases s.len(),
{
    if s.len() > 0 && is_space(s.last()) {
        trim_end(s.drop_last())
    } else {
        s
    }
}

/// `s` without whitespace at either end.
pub open spec fn trimmed(s: Seq<char>) -> Seq<char> {
    trim_end(trim_start(s))
}

/// Nothing but whitespace (the empty text is blank).
pub open spec fn blank(s: Seq<char>) -> bool {
    forall|i: int| 0 <= i < s.len() ==> is_space(#[trigger] s[i])
}

/// `p` stands in `s` at position `i`.
pub open spec fn occurs_at(s: Seq<char>, p: Seq<char>, i: int) -> bool {
    0 <= i && i + p.len() <= s.len() && s.subrange(i, i + p.len()) == p
}

/// `p` stands in `s` somewhere.
pub open spec fn contains_text(s: Seq<char>, p: Seq<char>) -> bool {
    exists|i: int| #[trigger] occurs_at(s, p, i)
}

/// `p` stands in `s` at or after `from`.
pub open spec fn found_from(s: Seq<char>, p: Seq<char>, from: int) -> bool {
    exists|i: int| from <= i && #[trigger] occurs_at(s, p, i)
}

/// `i` is the first position at or after `from` where `p` stands in `s`.
pub open spec fn first_at(s: Seq<char>, p: Seq<char>, from: int, i: int) -> bool {
    &&& from <= i
    &&& occurs_at(s, p, i)
    &&& forall|j: int| from <= j < i ==> !#[trigger] occurs_at(s, p, j)
}

/// `s` begins with `p`.
pub open spec fn starts_with(s: Seq<char>, p: Seq<char>) -> bool {
    occurs_at(s, p, 0)
}

/// `s` ends with `p`.
pub open spec fn ends_with(s: Seq<char>, p: Seq<char>) -> bool {
    occurs_at(s, p, s.len() - p.len())
}

/// `s` without a run of the character `c` at its end.
pub open spec fn without_trailing(s: Seq<char>, c: char) -> Seq<char>
    decreases s.len(),
{
    if s.len() > 0 && s.last() == c {
        without_trailing(s.drop_last(), c)
    } else {
        s
    }
}

/// `s` without a run of the non-empty `p` at its end.
pub open spec fn without_suffix(s: Seq<char>, p: Seq<char>) -> Seq<char>
    decreases s.len(),
{
    if 0 < p.len() <= s.len() && ends_with(s, p) {
        without_suffix(s.take(s.len() - p.len()), p)
    } else {
        s
    }
}

/// The ASCII letters of `c` in lower case.
pub open spec fn lower_char(c: char) -> char {
    if 'A' <= c <= 'Z' {
        ((c as u32) + 32) as char
    } else {
        c
    }
}

/// `s` with its ASCII letters in lower case.
pub open spec fn lowered(s: Seq<char>) -> Seq<char> {
    s.map_values(|c: char| lower_char(c))
}

/// `s` with each occurrence of the non-empty `p`, found left to right and
/// without overlap, replaced by `r`.
pub open spec fn replaced(s: Seq<char>, p: Seq<char>, r: Seq<char>) -> Seq<char>
    decreases s.len(),
{
    if p.len() == 0 || s.len() < p.len() {
        s
    } else if occurs_at(s, p, 0) {
        r + replaced(s.skip(p.len() as int), p, r)
    } else {
        seq![s[0]] + replaced(s.drop_first(), p, r)
    }
}

pub fn is_space_char(c: char) -> (r: bool)
    ensures
        r == is_space(c),
{
    ('\u{9}' <= c && c <= '\u{d}') || c == ' ' || c == '\u{85}' || c == '\u{a0}' || c == '\u{1680}'
        || ('\u{2000}' <= c && c <= '\u{200a}') || c == '\u{2028}' || c == '\u{2029}'
        || c == '\u{202f}' || c == '\u{205f}' || c == '\u{3000}'
}

/// The characters of `s`.
pub fn chars_of(s: &str) -> (r: Vec<char>)
    ensures
        r@ == s@,
{
    let mut out: Vec<char> = Vec::new();
    for c in it: s.chars()
        invariant
            out@ == it.seq().take(it.index()),
            it.seq() == s@,
    {
        out.push(c);
        proof {
            assert(it.seq().take(it.index() + 1) =~= it.seq().take(it.index()).push(c));
        }
    }
    proof {
        assert(s@.take(s@.len() as int) =~= s@);
    }
    out
}

/// Whether two texts are the same.
pub fn str_eq(a: &str, b: &str) -> (r: bool)
    ensures
        r == (a@ == b@),
{
    a.to_owned() == b.to_owned()
}

proof fn lemma_trim_start_skip(s: Seq<char>, i: int)
    requires
        0 <= i <= s.len(),
        forall|k: int| 0 <= k < i ==> is_space(#[trigger] s[k]),
    ensures
        trim_start(s) == trim_start(s.skip(i)),
    decreases i,
{
    if i == 0 {
        assert(s.skip(0) =~= s);
    } else {
        assert(is_space(s[0]));
        let t = s.drop_first();
        assert forall|k: int| 0 <= k < i - 1 implies is_space(#[trigger] t[k]) by {
            assert(t[k] == s[k + 1]);
        }
        lemma_trim_start_skip(t, i - 1);
        assert(t.skip(i - 1) =~= s.skip(i));
    }
}

proof fn lemma_trim_end_take(s: Seq<char>, j: int)
    requires
        0 <= j <= s.len(),
        forall|k: int| j <= k < s.len() ==> is_space(#[trigger] s[k]),
    ensures
        trim_end(s) == trim_end(s.take(j)),
    decreases s.len() - j,
{
    if j == s.len() {
        assert(s.take(j) =~= s);
    } else {
        assert(is_space(s.last()));
        let t = s.drop_last();
        assert forall|k: int| j <= k < t.len() implies is_space(#[trigger] t[k]) by {
            assert(t[k] == s[k]);
        }
        lemma_trim_end_take(t, j);
        assert(t.take(j) =~= s.take(j));
    }
}

/// `s` trimmed at both ends is blank exactly when `s` is, and then empty.
pub proof fn lemma_blank_iff_trimmed_empty(s: Seq<char>)
    ensures
        blank(s) <==> trimmed(s).len() == 0,
    decreases s.len(),
{
    if s.len() > 0 {
        if is_space(s[0]) {
            let t = s.drop_first();
            lemma_blank_iff_trimmed_empty(t);
            if blank(t) {
                assert forall|i: int| 0 <= i < s.len() implies is_space(#[trigger] s[i]) by {
                    if i > 0 {
                        assert(t[i - 1] == s[i]);
                    }
                }
            }
            if blank(s) {
                assert forall|i: int| 0 <= i < t.len() implies is_space(#[trigger] t[i]) by {
                    assert(t[i] == s[i + 1]);
                }
            }
        } else {
            lemma_trim_end_keeps_first(s);
        }
    }
}

proof fn lemma_trim_end_keeps_first(s: Seq<char>)
    requires
        s.len() > 0,
        !is_space(s[0]),
    ensures
        trim_end(s).len() > 0,
        trim_end(s)[0] == s[0],
    decreases s.len(),
{
    if is_space(s.last()) {
        assert(s.len() > 1);
        lemma_trim_end_keeps_first(s.drop_last());
    }
}

/// Whether `s` holds nothing but whitespace.
pub fn is_blank(s: &str) -> (r: bool)
    ensures
        r == blank(s@),
        r == (trimmed(s@).len() == 0),
{
    proof {
        lemma_blank_iff_trimmed_empty(s@);
    }
    let v: Vec<char> = chars_of(s);
    let mut i: usize = 0;
    while i < v.len()
        invariant
            i <= v.len(),
            v@ == s@,
            forall|k: int| 0 <= k < i ==> is_space(#[trigger] s@[k]),
            blank(s@) <==> trimmed(s@).len() == 0,
        decreases v.len() - i,
    {
        if !is_space_char(v[i]) {
            assert(!is_space(s@[i as int]));
            return false;
        }
        i = i + 1;
    }
    true
}

/// `s` without whitespace at either end.
pub fn trim(s: &str) -> (r: String)
    ensures
        r@ == trimmed(s@),
{
    let v: Vec<char> = chars_of(s);
    let mut i: usize = 0;
    while i < v.len() && is_space_char(v[i])
        invariant
            i <= v.len(),
            v@ == s@,
            forall|k: int| 0 <= k < i ==> is_space(#[trigger] s@[k]),
        decreases v.len() - i,
    {
        i = i + 1;
    }
    let ghost rest = s@.skip(i as int);
    proof {
        lemma_trim_start_skip(s@, i as int);
        assert(trim_start(s@) == rest);
    }
    let mut j: usize = v.len();
    while i < j && is_space_char(v[j - 1])
        invariant
            i <= j <= v.len(),
            v@ == s@,
            forall|k: int| j <= k < s@.len() ==> is_space(#[trigger] s@[k]),
        decreases j,
    {
        j = j - 1;
    }
    proof {
        assert forall|k: int| j - i <= k < rest.len() implies is_space(#[trigger] rest[k]) by {
            assert(rest[k] == s@[k + i]);
        }
        lemma_trim_end_take(rest, j - i);
        assert(rest.take(j - i) =~= s@.subrange(i as int, j as int));
    }
    s.substring_char(i, j).to_owned()
}

/// Whether the text held by `p` stands in the text held by `s` at `i`.
fn matches_at(s: &Vec<char>, p: &Vec<char>, i: usize) -> (r: bool)
    ensures
        r == occurs_at(s@, p@, i as int),
{
    if s.len() < p.len() || s.len() - p.len() < i {
        return false;
    }
    let mut k: usize = 0;
    while k < p.len()
        invariant
            k <= p.len(),
            i + p.len() <= s.len(),
            forall|m: int| 0 <= m < k ==> s@[i + m] == #[trigger] p@[m],
        decreases p.len() - k,
    {
        if s[i + k] != p[k] {
            assert(s@.subrange(i as int, i + p@.len())[k as int] != p@[k as int]);
            return false;
        }
        k = k + 1;
    }
    assert(s@.subrange(i as int, i + p@.len()) =~= p@);
    true
}

/// The first position at or after `from` where `p` stands in `s`.
pub fn find_from(s: &Vec<char>, p: &Vec<char>, from: usize) -> (r: Option<usize>)
    ensures
        match r {
            Some(i) => first_at(s@, p@, from as int, i as int),
            None => forall|j: int| from <= j ==> !#[trigger] occurs_at(s@, p@, j),
        },
        r is Some <==> found_from(s@, p@, from as int),
{
    let mut i: usize = from;
    while i < s.len()
        invariant
            from <= i,
            forall|j: int| from <= j < i ==> !#[trigger] occurs_at(s@, p@, j),
        decreases s.len() - i,
    {
        if matches_at(s, p, i) {
            return Some(i);
        }
        i = i + 1;
    }
    if matches_at(s, p, i) {
        return Some(i);
    }
    None
}

/// Whether `p` stands in `s`.
pub fn contains(s: &str, p: &str) -> (r: bool)
    ensures
        r == contains_text(s@, p@),
{
    let sv: Vec<char> = chars_of(s);
    let pv: Vec<char> = chars_of(p);
    match find_from(&sv, &pv, 0) {
        Some(i) => {
            assert(occurs_at(s@, p@, i as int));
            true
        },
        None => {
            assert forall|j: int| !#[trigger] occurs_at(s@, p@, j) by {
            }
            false
        },
    }
}

/// Whether `s` begins with `p`.
pub fn has_prefix(s: &str, p: &str) -> (r: bool)
    ensures
        r == starts_with(s@, p@),
{
    matches_at(&chars_of(s), &chars_of(p), 0)
}

/// Whether `s` ends with `p`.
pub fn has_suffix(s: &str, p: &str) -> (r: bool)
    ensures
        r == ends_with(s@, p@),
{
    let sv: Vec<char> = chars_of(s);
    let pv: Vec<char> = chars_of(p);
    if sv.len() < pv.len() {
        return false;
    }
    matches_at(&sv, &pv, sv.len() - pv.len())
}

/// `s` without a run of the character `c` at its end.
pub fn trim_trailing(s: &str, c: char) -> (r: String)
    ensures
        r@ == without_trailing(s@, c),
{
    let v: Vec<char> = chars_of(s);
    let mut j: usize = v.len();
    proof {
        assert(s@.take(j as int) =~= s@);
    }
    while 0 < j && v[j - 1] == c
        invariant
            j <= v.len(),
            v@ == s@,
            without_trailing(s@, c) == without_trailing(s@.take(j as int), c),
        decreases j,
    {
        proof {
            assert(s@.take(j as int).drop_last() =~= s@.take(j - 1));
        }
        j = j - 1;
    }
    proof {
        assert(s@.subrange(0, j as int) =~= s@.take(j as int));
    }
    s.substring_char(0, j).to_owned()
}

/// `s` with each occurrence of `p` replaced by `r`; an empty `p` replaces
/// nothing.
pub fn replace_all(s: &str, p: &str, r: &str) -> (out: String)
    ensures
        out@ == replaced(s@, p@, r@),
{
    let sv: Vec<char> = chars_of(s);
    let pv: Vec<char> = chars_of(p);
    let mut out: String = String::new();
    if pv.len() == 0 {
        return s.to_owned();
    }
    let mut at: usize = 0;
    proof {
        assert(s@.skip(0) =~= s@);
    }
    while at < sv.len()
        invariant
            at <= sv.len(),
            sv@ == s@,
            pv@ == p@,
            pv.len() > 0,
            replaced(s@, p@, r@) == out@ + replaced(s@.skip(at as int), p@, r@),
        decreases sv.len() - at,
    {
        let ghost rest = s@.skip(at as int);
        if matches_at(&sv, &pv, at) {
            proof {
                assert(rest.subrange(0, p@.len() as int) =~= s@.subrange(at as int, at + p@.len()));
                assert(occurs_at(rest, p@, 0));
                assert(rest.skip(p@.len() as int) =~= s@.skip(at + p@.len()));
                assert(replaced(rest, p@, r@) == r@ + replaced(s@.skip(at + p@.len()), p@, r@));
                assert(out@ + (r@ + replaced(s@.skip(at + p@.len()), p@, r@)) =~= (out@ + r@)
                    + replaced(s@.skip(at + p@.len()), p@, r@));
            }
            out.append(r);
            at = at + pv.len();
        } else {
            proof {
                if p@.len() <= rest.len() {
                    assert(rest.subrange(0, p@.len() as int) =~= s@.subrange(
                        at as int,
                        at + p@.len(),
                    ));
                }
                assert(!occurs_at(rest, p@, 0));
                lemma_replaced_step(rest, p@, r@);
                assert(rest.drop_first() =~= s@.skip(at + 1));
                assert(s@.subrange(at as int, at + 1) =~= seq![rest[0]]);
                assert(out@ + (seq![rest[0]] + replaced(s@.skip(at + 1), p@, r@)) =~= (out@
                    + seq![rest[0]]) + replaced(s@.skip(at + 1), p@, r@));
            }
            out.append(s.substring_char(at, at + 1));
            at = at + 1;
        }
    }
    proof {
        assert(s@.skip(at as int) =~= Seq::<char>::empty());
        assert(out@ + Seq::<char>::empty() =~= out@);
    }
    out
}

proof fn lemma_replaced_step(s: Seq<char>, p: Seq<char>, r: Seq<char>)
    requires
        s.len() > 0,
        p.len() > 0,
        !occurs_at(s, p, 0),
    ensures
        replaced(s, p, r) == seq![s[0]] + replaced(s.drop_first(), p, r),
{
    if s.len() < p.len() {
        assert(seq![s[0]] + s.drop_first() =~= s);
    }
}

/// A text that does not hold `p` is left as it is.
pub proof fn lemma_replaced_absent(s: Seq<char>, p: Seq<char>, r: Seq<char>)
    requires
        !contains_text(s, p),
    ensures
        replaced(s, p, r) == s,
    decreases s.len(),
{
    if p.len() > 0 && s.len() >= p.len() {
        assert(!occurs_at(s, p, 0));
        let t = s.drop_first();
        assert forall|i: int| !#[trigger] occurs_at(t, p, i) by {
            if occurs_at(t, p, i) {
                assert(s.subrange(i + 1, i + 1 + p.len()) =~= t.subrange(i, i + p.len()));
                assert(occurs_at(s, p, i + 1));
            }
        }
        lemma_replaced_absent(t, p, r);
        assert(seq![s[0]] + t =~= s);
    }
}

/// `s` without a run of `p` at its end; an empty `p` removes nothing.
pub fn trim_suffix(s: &str, p: &str) -> (r: String)
    ensures
        r@ == without_suffix(s@, p@),
{
    let v: Vec<char> = chars_of(s);
    let pv: Vec<char> = chars_of(p);
    let mut j: usize = v.len();
    proof {
        assert(s@.take(j as int) =~= s@);
    }
    while 0 < pv.len() && pv.len() <= j && matches_at(&v, &pv, j - pv.len())
        invariant
            j <= v.len(),
            v@ == s@,
            pv@ == p@,
            without_suffix(s@, p@) == without_suffix(s@.take(j as int), p@),
        decreases j,
    {
        proof {
            let t = s@.take(j as int);
            assert(t.subrange(j - p@.len(), j as int) =~= s@.subrange(j - p@.len(), j as int));
            assert(ends_with(t, p@));
            assert(t.take(t.len() - p@.len()) =~= s@.take(j - p@.len()));
        }
        j = j - pv.len();
    }
    proof {
        let t = s@.take(j as int);
        if 0 < p@.len() <= j {
            assert(t.subrange(j - p@.len(), j as int) =~= s@.subrange(j - p@.len(), j as int));
        }
        assert(s@.subrange(0, j as int) =~= t);
    }
    s.substring_char(0, j).to_owned()
}

/// `String::push` appends one character to the end of the text.
pub assume_specification[ String::push ](s: &mut String, c: char)
    ensures
        final(s)@ == old(s)@.push(c),
;

/// `s` with its ASCII letters in lower case.
pub fn lower_ascii(s: &str) -> (r: String)
    ensures
        r@ == lowered(s@),
{
    let v: Vec<char> = chars_of(s);
    let mut out: String = String::new();
    let mut i: usize = 0;
    while i < v.len()
        invariant
            i <= v.len(),
            v@ == s@,
            out@ == lowered(s@).take(i as int),
        decreases v.len() - i,
    {
        let c: char = v[i];
        let l: char = if 'A' <= c && c <= 'Z' {
            (c as u8 + 32) as char
        } else {
            c
        };
        proof {
            assert(l == lowered(s@)[i as int]);
            assert(lowered(s@).take(i + 1) =~= lowered(s@).take(i as int).push(l));
        }
        out.push(l);
        i = i + 1;
    }
    proof {
        assert(lowered(s@).take(s@.len() as int) =~= lowered(s@));
    }
    out
}

/// `i` is the last place of `c` in `s`.
pub open spec fn last_at(s: Seq<char>, c: char, i: int) -> bool {
    &&& 0 <= i < s.len()
    &&& s[i] == c
    &&& forall|j: int| i < j < s.len() ==> #[trigger] s[j] != c
}

/// The text behind the last `c` in `s`.
pub open spec fn after_last(s: Seq<char>, c: char) -> Option<Seq<char>> {
    if s.contains(c) {
        Some(s.skip((choose|i: int| last_at(s, c, i)) + 1))
    } else {
        None
    }
}

/// The text behind the last `c` in `s`.
pub fn text_after_last(s: &str, c: char) -> (r: Option<String>)
    ensures
        match r {
            Some(t) => after_last(s@, c) == Some(t@),
            None => after_last(s@, c) is None,
        },
{
    let v: Vec<char> = chars_of(s);
    let mut i: usize = v.len();
    while 0 < i
        invariant
            i <= v.len(),
            v@ == s@,
            forall|j: int| i <= j < s@.len() ==> #[trigger] s@[j] != c,
        decreases i,
    {
        i = i - 1;
        if v[i] == c {
            proof {
                assert(last_at(s@, c, i as int));
                let k = choose|k: int| last_at(s@, c, k);
                assert(k == i);
                assert(s@.skip(i + 1) =~= s@.subrange(i + 1, s@.len() as int));
            }
            return Some(s.substring_char(i + 1, v.len()).to_owned());
        }
    }
    None
}

/// `n` in decimal digits.
pub open spec fn decimal(n: nat) -> Seq<char>
    decreases n,
{
    let digit = (('0' as u32) + (n % 10)) as char;
    if n < 10 {
        seq![digit]
    } else {
        decimal(n / 10).push(digit)
    }
}

/// `n` in decimal digits.
pub fn decimal_text(n: u64) -> (r: String)
    ensures
        r@ == decimal(n as nat),
    decreases n,
{
    let digit: char = ('0' as u8 + (n % 10) as u8) as char;
    let mut out: String = if n < 10 {
        String::new()
    } else {
        decimal_text(n / 10)
    };
    out.push(digit);
    proof {
        if n < 10 {
            assert(out@ =~= seq![digit]);
        }
    }
    out
}

/// `a` followed by `b`.
pub fn join2(a: &str, b: &str) -> (r: String)
    ensures
        r@ == a@ + b@,
{
    a.to_owned().concat(b)
}

/// `a` followed by `b` and `c`.
pub fn join3(a: &str, b: &str, c: &str) -> (r: String)
    ensures
        r@ == a@ + b@ + c@,
{
    a.to_owned().concat(b).concat(c)
}

/// Of the ASCII characters the blank and the five that begin with the tab are
/// whitespace, and of no text that is seen any part is.
pub proof fn law_ascii_whitespace(c: char, r: bool)
    requires
        call_ensures(is_space_char, (c,), r),
        (c as u32) < 0x80,
    ensures
        r <==> (9 <= c as u32 <= 13 || c as u32 == 32),
{
}

proof fn lemma_trim_start_is_a_tail(s: Seq<char>) -> (i: int)
    ensures
        0 <= i <= s.len(),
        trim_start(s) == s.skip(i),
        forall|k: int| 0 <= k < i ==> is_space(#[trigger] s[k]),
        i < s.len() ==> !is_space(s[i]),
    decreases s.len(),
{
    if s.len() > 0 && is_space(s[0]) {
        let rest = s.drop_first();
        let i = lemma_trim_start_is_a_tail(rest);
        assert(rest.skip(i) =~= s.skip(i + 1));
        assert forall|k: int| 0 <= k < i + 1 implies is_space(#[trigger] s[k]) by {
            if k > 0 {
                assert(rest[k - 1] == s[k]);
            }
        }
        if i + 1 < s.len() {
            assert(rest[i] == s[i + 1]);
        }
        i + 1
    } else {
        assert(s.skip(0) =~= s);
        0
    }
}

proof fn lemma_trim_end_is_a_head(s: Seq<char>) -> (j: int)
    ensures
        0 <= j <= s.len(),
        trim_end(s) == s.take(j),
        forall|k: int| j <= k < s.len() ==> is_space(#[trigger] s[k]),
        j > 0 ==> !is_space(s[j - 1]),
    decreases s.len(),
{
    if s.len() > 0 && is_space(s.last()) {
        let rest = s.drop_last();
        let j = lemma_trim_end_is_a_head(rest);
        assert(rest.take(j) =~= s.take(j));
        assert forall|k: int| j <= k < s.len() implies is_space(#[trigger] s[k]) by {
            if k < s.len() - 1 {
                assert(rest[k] == s[k]);
            }
        }
        if j > 0 {
            assert(rest[j - 1] == s[j - 1]);
        }
        j
    } else {
        assert(s.take(s.len() as int) =~= s);
        s.len() as int
    }
}

/// A trimmed text is the part of the text that is left when the whitespace at
/// both ends is cut off, and no more than that: around it there is nothing but
/// whitespace, and it neither begins nor ends with any.
pub proof fn law_trimming_cuts_whitespace_only(s: &str, r: String)
    requires
        call_ensures(trim, (s,), r),
    ensures
        exists|i: int, j: int|
            {
                &&& 0 <= i <= j <= s@.len()
                &&& r@ == #[trigger] s@.subrange(i, j)
                &&& forall|k: int| 0 <= k < i ==> is_space(#[trigger] s@[k])
                &&& forall|k: int| j <= k < s@.len() ==> is_space(#[trigger] s@[k])
            },
        r@.len() > 0 ==> !is_space(r@[0]) && !is_space(r@.last()),
        r@.len() == 0 <==> (forall|k: int| 0 <= k < s@.len() ==> is_space(#[trigger] s@[k])),
{
    let t = s@;
    let i = lemma_trim_start_is_a_tail(t);
    let tail = t.skip(i);
    let n = lemma_trim_end_is_a_head(tail);
    let j = i + n;
    assert(tail.take(n) =~= t.subrange(i, j));
    assert forall|k: int| j <= k < t.len() implies is_space(#[trigger] t[k]) by {
        assert(tail[k - i] == t[k]);
    }
    if n > 0 {
        assert(r@[0] == tail[0] && tail[0] == t[i]);
        assert(r@.last() == tail[n - 1]);
    }
    assert(r@ == t.subrange(i, j));
    if r@.len() > 0 {
        assert(t[i] == r@[0]);
    }
}

/// A text is blank exactly when nothing of it is left after trimming.
pub proof fn law_blank_text_trims_to_nothing(s: &str, is: bool, rest: String)
    requires
        call_ensures(is_blank, (s,), is),
        call_ensures(trim, (s,), rest),
    ensures
        is <==> rest@.len() == 0,
{
    lemma_blank_iff_trimmed_empty(s@);
}

/// A text that is found at a place can be cut out there: what comes before it,
/// the text itself and what comes after it make up the whole.
pub proof fn law_found_text_stands_there(before: Seq<char>, p: Seq<char>, after: Seq<char>, s: Seq<char>)
    ensures
        contains_text(before + p + after, p),
        starts_with(p + after, p),
        ends_with(before + p, p),
        starts_with(s, p) ==> s == p + s.skip(p.len() as int),
        ends_with(s, p) ==> s == s.take(s.len() - p.len()) + p,
        contains_text(s, p) ==> s.len() >= p.len(),
        contains_text(s, p) <==> (exists|i: int|
            0 <= i <= s.len() - p.len() && #[trigger] s.skip(i).take(p.len() as int) == p),
{
    let whole = before + p + after;
    assert(whole.subrange(before.len() as int, (before.len() + p.len()) as int) =~= p);
    assert(occurs_at(whole, p, before.len() as int));
    assert((p + after).subrange(0, p.len() as int) =~= p);
    assert((before + p).subrange(before.len() as int, (before.len() + p.len()) as int) =~= p);
    if starts_with(s, p) {
        assert(s =~= s.subrange(0, p.len() as int) + s.skip(p.len() as int));
    }
    if ends_with(s, p) {
        assert(s =~= s.take(s.len() - p.len()) + s.subrange(s.len() - p.len(), s.len() as int));
    }
    if contains_text(s, p) {
        let i = choose|i: int| occurs_at(s, p, i);
        assert(s.skip(i).take(p.len() as int) =~= s.subrange(i, i + p.len()));
    }
    if exists|i: int|
        0 <= i <= s.len() - p.len() && #[trigger] s.skip(i).take(p.len() as int) == p {
        let i = choose|i: int|
            0 <= i <= s.len() - p.len() && #[trigger] s.skip(i).take(p.len() as int) == p;
        assert(s.skip(i).take(p.len() as int) =~= s.subrange(i, i + p.len()));
        assert(occurs_at(s, p, i));
    }
}

/// What replacing does with a text: nothing before the first place of the pattern
/// is touched, there the replacement stands, and what follows is treated in the
/// same way.
pub proof fn law_replacing_goes_from_place_to_place(
    before: Seq<char>,
    p: Seq<char>,
    after: Seq<char>,
    r: Seq<char>,
)
    requires
        p.len() > 0,
        forall|i: int| 0 <= i < before.len() ==> !#[trigger] occurs_at(before + p + after, p, i),
    ensures
        replaced(before + p + after, p, r) == before + r + replaced(after, p, r),
    decreases before.len(),
{
    let s = before + p + after;
    if before.len() == 0 {
        assert(s.subrange(0, p.len() as int) =~= p);
        assert(s.skip(p.len() as int) =~= after);
        assert(before + r + replaced(after, p, r) =~= r + replaced(after, p, r));
    } else {
        assert(!occurs_at(s, p, 0));
        let rest = before.drop_first();
        assert(s.drop_first() =~= rest + p + after);
        assert forall|i: int| 0 <= i < rest.len() implies !#[trigger] occurs_at(
            rest + p + after,
            p,
            i,
        ) by {
            if occurs_at(rest + p + after, p, i) {
                assert(s.subrange(i + 1, i + 1 + p.len()) =~= (rest + p + after).subrange(
                    i,
                    i + p.len(),
                ));
                assert(occurs_at(s, p, i + 1));
            }
        }
        law_replacing_goes_from_place_to_place(rest, p, after, r);
        assert(seq![s[0]] + (rest + r + replaced(after, p, r)) =~= before + r + replaced(
            after,
            p,
            r,
        ));
    }
}

/// A pattern that is replaced by itself leaves the text as it was, and so does one
/// that does not stand in it.
pub proof fn law_replacing_with_itself_changes_nothing(s: Seq<char>, p: Seq<char>, r: Seq<char>)
    ensures
        replaced(s, p, p) == s,
        !contains_text(s, p) ==> replaced(s, p, r) == s,
    decreases s.len(),
{
    if !contains_text(s, p) {
        lemma_replaced_absent(s, p, r);
    }
    if p.len() > 0 && s.len() >= p.len() {
        if occurs_at(s, p, 0) {
            law_replacing_with_itself_changes_nothing(s.skip(p.len() as int), p, r);
            assert(s =~= s.subrange(0, p.len() as int) + s.skip(p.len() as int));
        } else {
            law_replacing_with_itself_changes_nothing(s.drop_first(), p, r);
            assert(s =~= seq![s[0]] + s.drop_first());
        }
    }
}

/// What is cut off at the end is a run of that character, and all of it.
pub proof fn law_trailing_run_is_cut(s: &str, c: char, r: String)
    requires
        call_ensures(trim_trailing, (s, c), r),
    ensures
        r@.len() <= s@.len(),
        r@ == s@.take(r@.len() as int),
        forall|k: int| r@.len() <= k < s@.len() ==> #[trigger] s@[k] == c,
        r@.len() > 0 ==> r@.last() != c,
{
    lemma_without_trailing(s@, c);
}

pub proof fn lemma_without_trailing(s: Seq<char>, c: char)
    ensures
        ({
            let r = without_trailing(s, c);
            &&& r.len() <= s.len()
            &&& r == s.take(r.len() as int)
            &&& forall|k: int| r.len() <= k < s.len() ==> #[trigger] s[k] == c
            &&& r.len() > 0 ==> r.last() != c
        }),
    decreases s.len(),
{
    if s.len() > 0 && s.last() == c {
        let rest = s.drop_last();
        lemma_without_trailing(rest, c);
        let r = without_trailing(rest, c);
        assert(rest.take(r.len() as int) =~= s.take(r.len() as int));
        assert forall|k: int| r.len() <= k < s.len() implies #[trigger] s[k] == c by {
            if k < s.len() - 1 {
                assert(rest[k] == s[k]);
            }
        }
    } else {
        assert(s.take(s.len() as int) =~= s);
    }
}

/// Cutting off a suffix leaves the beginning of the text, without that suffix. A
/// text without it stays whole, and one more of it at the end makes no difference.
pub proof fn law_suffix_is_cut(s: &str, p: &str, r: String, whole: Seq<char>)
    requires
        call_ensures(trim_suffix, (s, p), r),
        p@.len() > 0,
    ensures
        r@.len() <= s@.len(),
        r@ == s@.take(r@.len() as int),
        !ends_with(r@, p@),
        !ends_with(s@, p@) ==> r@ == s@,
        ends_with(s@, p@) ==> r@.len() + p@.len() <= s@.len(),
        without_suffix(whole + p@, p@) == without_suffix(whole, p@),
{
    lemma_without_suffix(s@, p@);
    let more = whole + p@;
    assert(more.subrange(whole.len() as int, more.len() as int) =~= p@);
    assert(ends_with(more, p@));
    assert(more.take(more.len() - p@.len()) =~= whole);
    if ends_with(s@, p@) {
        lemma_without_suffix(s@.take(s@.len() - p@.len()), p@);
    }
}

pub proof fn lemma_without_suffix(s: Seq<char>, p: Seq<char>)
    requires
        p.len() > 0,
    ensures
        ({
            let r = without_suffix(s, p);
            &&& r.len() <= s.len()
            &&& r == s.take(r.len() as int)
            &&& !ends_with(r, p)
            &&& !ends_with(s, p) ==> r == s
        }),
    decreases s.len(),
{
    if p.len() <= s.len() && ends_with(s, p) {
        let rest = s.take(s.len() - p.len());
        lemma_without_suffix(rest, p);
        let r = without_suffix(rest, p);
        assert(rest.take(r.len() as int) =~= s.take(r.len() as int));
    } else {
        assert(s.take(s.len() as int) =~= s);
    }
}

/// Lower case touches the capital letters of ASCII and nothing else, and a second
/// time it changes nothing.
pub proof fn law_lower_case(s: &str, r: String, k: int)
    requires
        call_ensures(lower_ascii, (s,), r),
        0 <= k < s@.len(),
    ensures
        r@.len() == s@.len(),
        'A' <= s@[k] <= 'Z' ==> r@[k] as u32 == s@[k] as u32 + 32,
        !('A' <= s@[k] <= 'Z') ==> r@[k] == s@[k],
        lowered(r@) == r@,
{
    assert(lowered(r@) =~= r@);
}

/// The text behind the last separator holds none, and there is one exactly when
/// the separator stands in the text.
pub proof fn law_text_behind_the_last_separator(s: &str, c: char, r: Option<String>)
    requires
        call_ensures(text_after_last, (s, c), r),
    ensures
        r is Some <==> s@.contains(c),
        r matches Some(t) ==> {
            &&& t@.len() < s@.len()
            &&& !t@.contains(c)
            &&& s@[s@.len() - t@.len() - 1] == c
            &&& t@ == s@.skip(s@.len() - t@.len())
        },
{
    if s@.contains(c) {
        lemma_last_exists(s@, c);
        let i = choose|i: int| last_at(s@, c, i);
        let t = s@.skip(i + 1);
        assert forall|k: int| 0 <= k < t.len() implies t[k] != c by {
            assert(t[k] == s@[i + 1 + k]);
        }
    }
}

pub proof fn lemma_last_exists(s: Seq<char>, c: char)
    requires
        s.contains(c),
    ensures
        exists|i: int| last_at(s, c, i),
    decreases s.len(),
{
    if s.last() == c {
        assert(last_at(s, c, s.len() - 1));
    } else {
        let rest = s.drop_last();
        let k = choose|k: int| 0 <= k < s.len() && s[k] == c;
        assert(rest[k] == c);
        lemma_last_exists(rest, c);
        let i = choose|i: int| last_at(rest, c, i);
        assert forall|j: int| i < j < s.len() implies #[trigger] s[j] != c by {
            if j < s.len() - 1 {
                assert(rest[j] == s[j]);
            }
        }
        assert(rest[i] == s[i]);
        assert(last_at(s, c, i));
    }
}

/// The number that a row of decimal digits stands for.
pub open spec fn decimal_value(s: Seq<char>) -> int
    decreases s.len(),
{
    if s.len() == 0 {
        0
    } else {
        10 * decimal_value(s.drop_last()) + (s.last() as u32 - '0' as u32)
    }
}

/// A number that is written down reads back as itself. It is written in digits
/// alone, and only zero begins with one.
pub proof fn law_numbers_read_back(n: u64, r: String)
    requires
        call_ensures(decimal_text, (n,), r),
    ensures
        decimal_value(r@) == n,
        r@.len() > 0,
        forall|k: int| 0 <= k < r@.len() ==> '0' <= #[trigger] r@[k] <= '9',
        n > 0 ==> r@[0] != '0',
{
    lemma_decimal(n as nat);
}

pub proof fn lemma_decimal(n: nat)
    ensures
        ({
            let s = decimal(n);
            &&& decimal_value(s) == n
            &&& s.len() > 0
            &&& forall|k: int| 0 <= k < s.len() ==> '0' <= #[trigger] s[k] <= '9'
            &&& n > 0 ==> s[0] != '0'
        }),
    decreases n,
{
    let digit = (('0' as u32) + (n % 10)) as char;
    let s = decimal(n);
    if n < 10 {
        assert(s.drop_last() =~= Seq::<char>::empty());
        assert(decimal_value(Seq::<char>::empty()) == 0);
    } else {
        lemma_decimal(n / 10);
        assert(s.drop_last() =~= decimal(n / 10));
    }
}

/// A text that neither begins nor ends with whitespace is its own trimmed form.
pub proof fn lemma_trimmed_fixed(s: Seq<char>)
    requires
        s.len() > 0,
        !is_space(s[0]),
        !is_space(s.last()),
    ensures
        trimmed(s) == s,
{
}

/// A text is found exactly where it stands: in the middle, at the beginning or at the
/// end of another.
pub proof fn law_search_finds_what_is_there(
    s: &str,
    p: &str,
    before: Seq<char>,
    after: Seq<char>,
    anywhere: bool,
    first: bool,
    last: bool,
    same: bool,
)
    requires
        call_ensures(contains, (s, p), anywhere),
        call_ensures(has_prefix, (s, p), first),
        call_ensures(has_suffix, (s, p), last),
        call_ensures(str_eq, (s, p), same),
    ensures
        s@ == before + p@ + after ==> anywhere,
        s@ == p@ + after ==> first,
        s@ == before + p@ ==> last,
        first ==> s@ == p@ + s@.skip(p@.len() as int),
        last ==> s@ == s@.take(s@.len() - p@.len()) + p@,
        anywhere ==> exists|i: int|
            0 <= i <= s@.len() - p@.len() && #[trigger] s@.skip(i).take(p@.len() as int) == p@,
        first || last || same ==> anywhere,
        same <==> s@ == p@,
{
    law_found_text_stands_there(before, p@, after, s@);
    if first {
        assert(occurs_at(s@, p@, 0));
    }
    if last {
        assert(occurs_at(s@, p@, s@.len() - p@.len()));
    }
    if same {
        assert(s@.subrange(0, s@.len() as int) =~= s@);
        assert(occurs_at(s@, p@, 0));
    }
}

/// The search from a place finds the first one at or behind it, and finds none only
/// where there is none.
pub proof fn law_search_finds_the_first_place(
    s: &Vec<char>,
    p: &Vec<char>,
    from: usize,
    r: Option<usize>,
    j: int,
)
    requires
        call_ensures(find_from, (s, p, from), r),
        from <= j <= s@.len() - p@.len(),
        s@.subrange(j, j + p@.len()) == p@,
    ensures
        r is Some,
        from <= r->0 <= j,
        s@.subrange(r->0 as int, r->0 + p@.len()) == p@,
{
    assert(occurs_at(s@, p@, j));
    assert(found_from(s@, p@, from as int));
}

/// Every place of a pattern is replaced, the first one first and the rest in the same
/// way; a text without the pattern stays as it is, and so does every text if the
/// pattern is empty.
pub proof fn law_every_place_is_replaced(
    s: &str,
    p: &str,
    with: &str,
    rest: &str,
    before: Seq<char>,
    r: String,
    of_rest: String,
)
    requires
        call_ensures(replace_all, (s, p, with), r),
        call_ensures(replace_all, (rest, p, with), of_rest),
    ensures
        p@.len() == 0 ==> r@ == s@,
        !contains_text(s@, p@) ==> r@ == s@,
        with@ == p@ ==> r@ == s@,
        p@.len() > 0 && s@ == before + p@ + rest@ && (forall|i: int|
            0 <= i < before.len() ==> !#[trigger] occurs_at(s@, p@, i)) ==> r@ == before + with@
            + of_rest@,
{
    law_replacing_with_itself_changes_nothing(s@, p@, with@);
    if p@.len() > 0 && s@ == before + p@ + rest@ && (forall|i: int|
        0 <= i < before.len() ==> !#[trigger] occurs_at(s@, p@, i)) {
        law_replacing_goes_from_place_to_place(before, p@, rest@, with@);
    }
}

/// Joined texts stand one behind the other, and a text has the characters that it
/// shows.
pub proof fn law_joined_texts(
    a: &str,
    b: &str,
    c: &str,
    two: String,
    three: String,
    chars: Vec<char>,
)
    requires
        call_ensures(join2, (a, b), two),
        call_ensures(join3, (a, b, c), three),
        call_ensures(chars_of, (a,), chars),
    ensures
        two@.len() == a@.len() + b@.len(),
        two@.take(a@.len() as int) == a@ && two@.skip(a@.len() as int) == b@,
        three@ == two@ + c@,
        chars@ == a@,
{
    assert(two@.take(a@.len() as int) =~= a@);
    assert(two@.skip(a@.len() as int) =~= b@);
}

} // verus!
