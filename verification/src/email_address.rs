//! The form of an email address: a local part, `@`, and a domain of labels
//! joined by dots.

use vstd::prelude::*;

verus! {

/// Whether `c` is an ASCII letter or digit.
pub open spec fn is_alnum(c: char) -> bool {
    ('a' <= c <= 'z') || ('A' <= c <= 'Z') || ('0' <= c <= '9')
}

/// Whether `c` may stand in the local part of an address.
pub open spec fn is_local_char(c: char) -> bool {
    is_alnum(c) || c == '.' || c == '!' || c == '#' || c == '$' || c == '%' || c == '&' || c
        == '\'' || c == '*' || c == '+' || c == '/' || c == '=' || c == '?' || c == '^' || c == '_'
        || c == '`' || c == '{' || c == '|' || c == '}' || c == '~' || c == '-'
}

/// Whether `s` is a label of a domain: 1 to 63 letters, digits and hyphens,
/// with no hyphen at either end.
pub open spec fn is_label(s: Seq<char>) -> bool {
    &&& 1 <= s.len() <= 63
    &&& is_alnum(s[0])
    &&& is_alnum(s[s.len() - 1])
    &&& forall|i: int| 0 <= i < s.len() ==> is_alnum(#[trigger] s[i]) || s[i] == '-'
}

/// The number of characters at the start of `s` before its first `stop`
/// (all of `s` where it has none).
pub open spec fn span_before(s: Seq<char>, stop: char) -> int
    decreases s.len(),
{
    if s.len() == 0 || s[0] == stop {
        0
    } else {
        1 + span_before(s.drop_first(), stop)
    }
}

/// Whether `s` is a domain: one label, or several joined by single dots.
pub open spec fn is_domain(s: Seq<char>) -> bool
    decreases s.len(),
{
    let n = span_before(s, '.');
    if 0 <= n < s.len() {
        is_label(s.subrange(0, n)) && is_domain(s.subrange(n + 1, s.len() as int))
    } else {
        is_label(s)
    }
}

/// Whether `s` is a local part: one or more of the characters that may
/// stand there.
pub open spec fn is_local_part(s: Seq<char>) -> bool {
    s.len() >= 1 && forall|i: int| 0 <= i < s.len() ==> is_local_char(#[trigger] s[i])
}

/// Whether `s` has the form of an email address: a local part, `@`, and a
/// domain.
pub open spec fn is_email(s: Seq<char>) -> bool {
    let n = span_before(s, '@');
    0 <= n < s.len() && is_local_part(s.subrange(0, n)) && is_domain(
        s.subrange(n + 1, s.len() as int),
    )
}

/// `span_before` counts characters of the text that are not `stop`, and
/// ends at a `stop` or at the end of the text.
pub proof fn lemma_span_before(s: Seq<char>, stop: char)
    ensures
        0 <= span_before(s, stop) <= s.len(),
        forall|i: int| 0 <= i < span_before(s, stop) ==> s[i] != stop,
        span_before(s, stop) < s.len() ==> s[span_before(s, stop)] == stop,
    decreases s.len(),
{
    if s.len() > 0 && s[0] != stop {
        let t = s.drop_first();
        lemma_span_before(t, stop);
        assert forall|i: int| 0 <= i < span_before(s, stop) implies s[i] != stop by {
            if i > 0 {
                assert(t[i - 1] == s[i]);
            }
        }
        if span_before(s, stop) < s.len() {
            assert(t[span_before(t, stop)] == s[span_before(s, stop)]);
        }
    }
}

/// The first `stop` of a text is where `span_before` says.
pub proof fn lemma_span_is_first(s: Seq<char>, stop: char, n: int)
    requires
        0 <= n <= s.len(),
        forall|i: int| 0 <= i < n ==> s[i] != stop,
        n < s.len() ==> s[n] == stop,
    ensures
        span_before(s, stop) == n,
{
    lemma_span_before(s, stop);
    let m = span_before(s, stop);
    if m < n {
        assert(s[m] == stop);
    } else if n < m {
        assert(s[n] != stop);
    }
}

fn char_is_alnum(c: char) -> (r: bool)
    ensures
        r == is_alnum(c),
{
    (c >= 'a' && c <= 'z') || (c >= 'A' && c <= 'Z') || (c >= '0' && c <= '9')
}

fn char_is_local(c: char) -> (r: bool)
    ensures
        r == is_local_char(c),
{
    char_is_alnum(c) || c == '.' || c == '!' || c == '#' || c == '$' || c == '%' || c == '&' || c
        == '\'' || c == '*' || c == '+' || c == '/' || c == '=' || c == '?' || c == '^' || c == '_'
        || c == '`' || c == '{' || c == '|' || c == '}' || c == '~' || c == '-'
}

/// Finds the first `stop` at or after `from`; the length of the text where
/// there is none.
fn find_from(s: &Vec<char>, from: usize, stop: char) -> (r: usize)
    requires
        from <= s.len(),
    ensures
        from <= r <= s.len(),
        r - from == span_before(s@.subrange(from as int, s@.len() as int), stop),
{
    let mut i: usize = from;
    while i < s.len() && s[i] != stop
        invariant
            from <= i <= s.len(),
            forall|j: int| from <= j < i ==> s@[j] != stop,
        decreases s.len() - i,
    {
        i += 1;
    }
    proof {
        lemma_span_is_first(s@.subrange(from as int, s@.len() as int), stop, i - from);
    }
    i
}

/// Tests whether the characters from `from` up to `to` are a label.
fn check_label(s: &Vec<char>, from: usize, to: usize) -> (r: bool)
    requires
        from <= to <= s.len(),
    ensures
        r == is_label(s@.subrange(from as int, to as int)),
{
    let ghost label = s@.subrange(from as int, to as int);
    if to - from < 1 || to - from > 63 {
        return false;
    }
    if !char_is_alnum(s[from]) || !char_is_alnum(s[to - 1]) {
        assert(label[0] == s@[from as int]);
        assert(label[label.len() - 1] == s@[to - 1]);
        return false;
    }
    let mut i: usize = from;
    while i < to
        invariant
            from <= i <= to <= s.len(),
            label == s@.subrange(from as int, to as int),
            forall|j: int| 0 <= j < i - from ==> is_alnum(#[trigger] label[j]) || label[j] == '-',
        decreases to - i,
    {
        let c: char = s[i];
        assert(label[i - from] == c);
        if !char_is_alnum(c) && c != '-' {
            return false;
        }
        i += 1;
    }
    assert(label[0] == s@[from as int]);
    assert(label[label.len() - 1] == s@[to - 1]);
    true
}

/// Tests whether the characters from `from` on are a domain.
fn check_domain(s: &Vec<char>, from: usize) -> (r: bool)
    requires
        from <= s.len(),
    ensures
        r == is_domain(s@.subrange(from as int, s@.len() as int)),
{
    let ghost whole = s@.subrange(from as int, s@.len() as int);
    let mut start: usize = from;
    loop
        invariant
            from <= start <= s.len(),
            whole == s@.subrange(from as int, s@.len() as int),
            is_domain(whole) == is_domain(s@.subrange(start as int, s@.len() as int)),
        decreases s.len() - start,
    {
        let ghost rest = s@.subrange(start as int, s@.len() as int);
        let dot = find_from(s, start, '.');
        let ok = check_label(s, start, dot);
        assert(rest.subrange(0, dot - start) =~= s@.subrange(start as int, dot as int));
        assert(span_before(rest, '.') == dot - start);
        if dot == s.len() {
            assert(rest.subrange(0, rest.len() as int) =~= rest);
            assert(is_domain(rest) == is_label(rest));
            return ok;
        }
        assert(rest.subrange(dot - start + 1, rest.len() as int) =~= s@.subrange(
            dot + 1,
            s@.len() as int,
        ));
        assert(is_domain(rest) == (is_label(rest.subrange(0, dot - start)) && is_domain(
            rest.subrange(dot - start + 1, rest.len() as int),
        )));
        if !ok {
            return false;
        }
        start = dot + 1;
    }
}

/// Tests whether a text has the form of an email address.
pub fn is_valid_email(email: &str) -> (r: bool)
    ensures
        r == is_email(email@),
{
    let s = crate::text::chars_of(email);
    let at = find_from(&s, 0, '@');
    assert(s@.subrange(0, s@.len() as int) =~= s@);
    assert(span_before(email@, '@') == at);
    if at == s.len() {
        return false;
    }
    if at == 0 {
        return false;
    }
    let ghost local = s@.subrange(0, at as int);
    let mut i: usize = 0;
    while i < at
        invariant
            i <= at < s.len(),
            email@ == s@,
            span_before(email@, '@') == at,
            local == s@.subrange(0, at as int),
            forall|j: int| 0 <= j < i ==> is_local_char(#[trigger] local[j]),
        decreases at - i,
    {
        assert(local[i as int] == s@[i as int]);
        if !char_is_local(s[i]) {
            assert(!is_local_char(local[i as int]));
            assert(!is_local_part(local));
            return false;
        }
        i += 1;
    }
    check_domain(&s, at + 1)
}

} // verus!
