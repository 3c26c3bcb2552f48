//! Validation of the user-supplied names that end up in remote shell scripts:
//! domains, app names and systemd unit names.

use vstd::prelude::*;

use crate::error::PttoError;
use crate::text::{byte_len, chars_of, join_with};

verus! {

/// ASCII letter or digit (`char::is_ascii_alphanumeric`).
pub open spec fn is_ascii_alnum(c: char) -> bool {
    ('a' <= c && c <= 'z') || ('A' <= c && c <= 'Z') || ('0' <= c && c <= '9')
}

/// ASCII whitespace as `char::is_ascii_whitespace` defines it: space, tab, line feed,
/// form feed and carriage return.
pub open spec fn is_ascii_ws(c: char) -> bool {
    c == ' ' || c == '\t' || c == '\n' || c == '\x0C' || c == '\r'
}

/// A character of the Unicode general category Cc (`char::is_control`).
pub open spec fn is_control(c: char) -> bool {
    (c as u32) <= 0x1F || (0x7F <= (c as u32) && (c as u32) <= 0x9F)
}

/// An ASCII character.
pub open spec fn is_ascii(c: char) -> bool {
    (c as u32) <= 0x7F
}

pub open spec fn is_app_name_char(c: char) -> bool {
    is_ascii_alnum(c) || c == '-' || c == '_'
}

pub open spec fn is_unit_name_char(c: char) -> bool {
    is_ascii_alnum(c) || c == ':' || c == '_' || c == '.' || c == '@' || c == '-'
}

pub open spec fn is_label_char(c: char) -> bool {
    is_ascii_alnum(c) || c == '-'
}


/// The dot-separated labels of `s`, as `str::split('.')` yields them
/// (an empty string has one empty label).
pub open spec fn split_labels(s: Seq<char>) -> Seq<Seq<char>>
    decreases s.len(),
{
    if s.len() == 0 {
        seq![Seq::empty()]
    } else {
        let rest = split_labels(s.drop_last());
        if s.last() == '.' {
            rest.push(Seq::empty())
        } else {
            rest.update(rest.len() - 1, rest.last().push(s.last()))
        }
    }
}

/// The problem with the label at `index`, if any.
pub open spec fn label_error(label: Seq<char>, index: int) -> Option<PttoError> {
    if label == seq!['*'] && index == 0 {
        None
    } else if label.len() == 0 || label.len() > 63 {
        Some(PttoError::DomainLabelLength)
    } else if label[0] == '-' || label.last() == '-' {
        Some(PttoError::DomainLabelHyphen)
    } else if !(forall|i: int| 0 <= i < label.len() ==> is_label_char(#[trigger] label[i])) {
        Some(PttoError::DomainLabelChars)
    } else {
        None
    }
}

/// The problem with the first faulty label at or after `start`, if any.
pub open spec fn labels_error(labels: Seq<Seq<char>>, start: int) -> Option<PttoError>
    decreases labels.len() - start,
{
    if start < 0 || start >= labels.len() {
        None
    } else {
        match label_error(labels[start], start) {
            Some(e) => Some(e),
            None => labels_error(labels, start + 1),
        }
    }
}

/// Why `validate_domain` rejects a domain whose characters are `d` and whose UTF-8
/// encoding has `bytes` bytes, if it does.
pub open spec fn domain_error(d: Seq<char>, bytes: nat) -> Option<PttoError> {
    if d.len() == 0 || bytes > 253 {
        Some(PttoError::DomainLength)
    } else if !(forall|i: int| 0 <= i < d.len() ==> !is_ascii_ws(#[trigger] d[i]) && !is_control(d[i])) {
        Some(PttoError::DomainWhitespace)
    } else if !(forall|i: int| 0 <= i < d.len() ==> is_ascii(#[trigger] d[i])) {
        Some(PttoError::DomainNotAscii)
    } else if split_labels(d).len() < 2 {
        Some(PttoError::DomainNotDnsStyle)
    } else {
        labels_error(split_labels(d), 0)
    }
}

/// Why `validate_app_name` rejects a name, if it does.
pub open spec fn app_name_error(name: Seq<char>, bytes: nat) -> Option<PttoError> {
    if name.len() == 0 || bytes > 64 {
        Some(PttoError::AppNameLength)
    } else if !(forall|i: int| 0 <= i < name.len() ==> is_app_name_char(#[trigger] name[i])) {
        Some(PttoError::AppNameChars)
    } else {
        None
    }
}

/// Why `validate_systemd_unit_name` rejects a name, if it does.
pub open spec fn unit_name_error(name: Seq<char>, bytes: nat) -> Option<PttoError> {
    if name.len() == 0 || bytes > 256 {
        Some(PttoError::ServiceNameLength)
    } else if !(forall|i: int| 0 <= i < name.len() ==> is_unit_name_char(#[trigger] name[i])) {
        Some(PttoError::ServiceNameChars)
    } else {
        None
    }
}

/// `Ok` where there is no problem, else the problem.
pub open spec fn check(problem: Option<PttoError>) -> Result<(), PttoError> {
    match problem {
        Some(e) => Err(e),
        None => Ok(()),
    }
}

pub fn is_ascii_alnum_char(c: char) -> (res: bool)
    ensures
        res == is_ascii_alnum(c),
{
    ('a' <= c && c <= 'z') || ('A' <= c && c <= 'Z') || ('0' <= c && c <= '9')
}

fn is_app_name_char_exec(c: char) -> (res: bool)
    ensures
        res == is_app_name_char(c),
{
    is_ascii_alnum_char(c) || c == '-' || c == '_'
}

fn is_unit_name_char_exec(c: char) -> (res: bool)
    ensures
        res == is_unit_name_char(c),
{
    is_ascii_alnum_char(c) || c == ':' || c == '_' || c == '.' || c == '@' || c == '-'
}

fn is_label_char_exec(c: char) -> (res: bool)
    ensures
        res == is_label_char(c),
{
    is_ascii_alnum_char(c) || c == '-'
}

/// Checks an application name: 1 to 64 bytes of ASCII letters, digits, '-' and '_'.
pub fn validate_app_name(app: &str) -> (res: Result<(), PttoError>)
    ensures
        res == check(app_name_error(app@, byte_len(app@))),
{
    if app.is_empty() || app.len() > 64 {
        return Err(PttoError::AppNameLength);
    }
    let chars = chars_of(app);
    let mut i: usize = 0;
    while i < chars.len()
        invariant
            chars@ == app@,
            app@.len() > 0,
            app.len() <= 64,
            i <= chars@.len(),
            forall|k: int| 0 <= k < i ==> is_app_name_char(#[trigger] chars@[k]),
        decreases chars@.len() - i,
    {
        if !is_app_name_char_exec(chars[i]) {
            assert(!is_app_name_char(app@[i as int]));
            return Err(PttoError::AppNameChars);
        }
        i = i + 1;
    }
    Ok(())
}

/// Checks a systemd unit name: 1 to 256 bytes of A-Z a-z 0-9 : _ . @ -.
pub fn validate_systemd_unit_name(service: &str) -> (res: Result<(), PttoError>)
    ensures
        res == check(unit_name_error(service@, byte_len(service@))),
{
    if service.is_empty() || service.len() > 256 {
        return Err(PttoError::ServiceNameLength);
    }
    let chars = chars_of(service);
    let mut i: usize = 0;
    while i < chars.len()
        invariant
            chars@ == service@,
            service@.len() > 0,
            service.len() <= 256,
            i <= chars@.len(),
            forall|k: int| 0 <= k < i ==> is_unit_name_char(#[trigger] chars@[k]),
        decreases chars@.len() - i,
    {
        if !is_unit_name_char_exec(chars[i]) {
            assert(!is_unit_name_char(service@[i as int]));
            return Err(PttoError::ServiceNameChars);
        }
        i = i + 1;
    }
    Ok(())
}

pub open spec fn vec_views(v: Seq<Vec<char>>) -> Seq<Seq<char>> {
    v.map_values(|x: Vec<char>| x@)
}

/// Splits characters into dot-separated labels.
fn split_on_dots(chars: &Vec<char>) -> (res: Vec<Vec<char>>)
    ensures
        vec_views(res@) == split_labels(chars@),
{
    let mut done: Vec<Vec<char>> = Vec::new();
    let mut current: Vec<char> = Vec::new();
    let mut i: usize = 0;
    assert(chars@.take(0) =~= Seq::<char>::empty());
    assert(vec_views(done@).push(current@) =~= seq![Seq::<char>::empty()]);
    while i < chars.len()
        invariant
            i <= chars@.len(),
            vec_views(done@).push(current@) == split_labels(chars@.take(i as int)),
        decreases chars@.len() - i,
    {
        let c: char = chars[i];
        let ghost before = chars@.take(i as int);
        let ghost after = chars@.take(i + 1);
        assert(after.drop_last() =~= before);
        assert(after.last() == c);
        if c == '.' {
            let finished = current;
            done.push(finished);
            current = Vec::new();
            assert(vec_views(done@) =~= vec_views(done@).drop_last().push(finished@));
            assert(vec_views(done@).push(current@) =~= split_labels(before).push(Seq::empty()));
        } else {
            let ghost old_current = current@;
            current.push(c);
            assert(vec_views(done@).push(current@) =~= split_labels(before).update(
                split_labels(before).len() - 1,
                old_current.push(c),
            ));
        }
        i = i + 1;
    }
    assert(chars@.take(i as int) =~= chars@);
    let last = current;
    done.push(last);
    assert(vec_views(done@) =~= split_labels(chars@));
    done
}

/// The problem with one label at position `index`, if any.
#[verifier::loop_isolation(false)]
fn check_label(label: &Vec<char>, index: usize) -> (res: Option<PttoError>)
    ensures
        res == label_error(label@, index as int),
{
    let n: usize = label.len();
    if n == 1 && label[0] == '*' && index == 0 {
        assert(label@ =~= seq!['*']);
        return None;
    }
    if n == 0 || n > 63 {
        return Some(PttoError::DomainLabelLength);
    }
    if label[0] == '-' || label[n - 1] == '-' {
        return Some(PttoError::DomainLabelHyphen);
    }
    let mut i: usize = 0;
    while i < n
        invariant
            n == label@.len(),
            i <= n,
            forall|k: int| 0 <= k < i ==> is_label_char(#[trigger] label@[k]),
        decreases n - i,
    {
        if !is_label_char_exec(label[i]) {
            assert(!is_label_char(label@[i as int]));
            return Some(PttoError::DomainLabelChars);
        }
        i = i + 1;
    }
    None
}

/// Checks a domain before it is written into a Caddyfile and a deploy script:
/// 1 to 253 bytes, no whitespace or control characters, ASCII only, at least one dot,
/// and every label 1 to 63 ASCII letters, digits or hyphens that neither starts nor ends
/// with a hyphen; the leftmost label may instead be the wildcard `*`.
#[verifier::loop_isolation(false)]
pub fn validate_domain(domain: &str) -> (res: Result<(), PttoError>)
    ensures
        res == check(domain_error(domain@, byte_len(domain@))),
{
    if domain.is_empty() || domain.len() > 253 {
        return Err(PttoError::DomainLength);
    }
    let chars = chars_of(domain);
    let mut i: usize = 0;
    while i < chars.len()
        invariant
            chars@ == domain@,
            i <= chars@.len(),
            forall|k: int| 0 <= k < i ==> !is_ascii_ws(#[trigger] chars@[k]) && !is_control(chars@[k]),
        decreases chars@.len() - i,
    {
        let c: char = chars[i];
        let ws: bool = c == ' ' || c == '\t' || c == '\n' || c == '\x0C' || c == '\r';
        let ctrl: bool = (c as u32) <= 0x1F || (0x7F <= (c as u32) && (c as u32) <= 0x9F);
        if ws || ctrl {
            assert(is_ascii_ws(domain@[i as int]) || is_control(domain@[i as int]));
            return Err(PttoError::DomainWhitespace);
        }
        i = i + 1;
    }
    i = 0;
    while i < chars.len()
        invariant
            chars@ == domain@,
            i <= chars@.len(),
            forall|k: int| 0 <= k < chars@.len() ==> !is_ascii_ws(#[trigger] chars@[k]) && !is_control(chars@[k]),
            forall|k: int| 0 <= k < i ==> is_ascii(#[trigger] chars@[k]),
        decreases chars@.len() - i,
    {
        if (chars[i] as u32) > 0x7F {
            assert(!is_ascii(domain@[i as int]));
            return Err(PttoError::DomainNotAscii);
        }
        i = i + 1;
    }
    let labels = split_on_dots(&chars);
    if labels.len() < 2 {
        return Err(PttoError::DomainNotDnsStyle);
    }
    let ghost ls = split_labels(domain@);
    let mut idx: usize = 0;
    while idx < labels.len()
        invariant
            vec_views(labels@) == ls,
            ls == split_labels(domain@),
            idx <= labels@.len(),
            labels_error(ls, 0) == labels_error(ls, idx as int),
        decreases labels@.len() - idx,
    {
        let problem = check_label(&labels[idx], idx);
        assert(labels@[idx as int]@ == ls[idx as int]);
        match problem {
            Some(e) => {
                return Err(e);
            },
            None => {},
        }
        idx = idx + 1;
    }
    Ok(())
}

/// A character that may appear in an accepted domain.
pub open spec fn is_domain_char(c: char) -> bool {
    is_label_char(c) || c == '.' || c == '*'
}

/// The label is the leading wildcard, or all its characters are label characters.
pub open spec fn label_chars_ok(label: Seq<char>, index: int) -> bool {
    (label == seq!['*'] && index == 0) || (forall|m: int| 0 <= m < label.len() ==> is_label_char(#[trigger] label[m]))
}

proof fn lemma_labels_error_none(labels: Seq<Seq<char>>, start: int)
    requires
        0 <= start,
        labels_error(labels, start) is None,
    ensures
        forall|j: int| start <= j < labels.len() ==> label_error(#[trigger] labels[j], j) is None,
    decreases labels.len() - start,
{
    if start < labels.len() {
        lemma_labels_error_none(labels, start + 1);
    }
}

proof fn lemma_split_chars(s: Seq<char>)
    requires
        forall|j: int| 0 <= j < split_labels(s).len() ==> label_chars_ok(#[trigger] split_labels(s)[j], j),
    ensures
        split_labels(s).len() >= 1,
        forall|k: int| 0 <= k < s.len() ==> is_domain_char(#[trigger] s[k]),
    decreases s.len(),
{
    if s.len() == 0 {
    } else {
        let prev = s.drop_last();
        let rest = split_labels(prev);
        lemma_split_len(prev);
        let c = s.last();
        if c == '.' {
            assert forall|j: int| 0 <= j < rest.len() implies label_chars_ok(#[trigger] rest[j], j) by {
                assert(split_labels(s)[j] == rest[j]);
            }
        } else {
            let n = rest.len() - 1;
            let last = rest[n];
            assert(split_labels(s)[n] == last.push(c));
            assert forall|j: int| 0 <= j < rest.len() implies label_chars_ok(#[trigger] rest[j], j) by {
                if j != n {
                    assert(split_labels(s)[j] == rest[j]);
                } else {
                    let grown = last.push(c);
                    if grown == seq!['*'] && j == 0 {
                        assert(last.len() == 0);
                    } else {
                        assert forall|m: int| 0 <= m < last.len() implies is_label_char(#[trigger] last[m]) by {
                            assert(grown[m] == last[m]);
                        }
                    }
                }
            }
            let grown = last.push(c);
            assert(label_chars_ok(split_labels(s)[n], n));
            if grown == seq!['*'] && n == 0 {
                assert(grown[0] == c);
            } else {
                assert(grown[grown.len() - 1] == c);
            }
        }
        lemma_split_chars(prev);
        assert forall|k: int| 0 <= k < s.len() implies is_domain_char(#[trigger] s[k]) by {
            if k < s.len() - 1 {
                assert(s[k] == prev[k]);
            }
        }
    }
}

proof fn lemma_split_len(s: Seq<char>)
    ensures
        split_labels(s).len() >= 1,
    decreases s.len(),
{
    if s.len() > 0 {
        lemma_split_len(s.drop_last());
    }
}

/// An accepted domain is made only of ASCII letters, digits, hyphens, dots and a leading
/// `*`: nothing in it is special to a shell or to a Caddyfile.
pub proof fn lemma_accepted_domain_chars(d: Seq<char>, bytes: nat)
    requires
        domain_error(d, bytes) is None,
    ensures
        forall|k: int| 0 <= k < d.len() ==> is_domain_char(#[trigger] d[k]),
{
    let labels = split_labels(d);
    lemma_labels_error_none(labels, 0);
    assert forall|j: int| 0 <= j < labels.len() implies label_chars_ok(#[trigger] labels[j], j) by {
        assert(label_error(labels[j], j) is None);
    }
    lemma_split_chars(d);
}

/// An ASCII letter of either case, an ASCII digit or a hyphen.
pub open spec fn is_dns_char(c: char) -> bool {
    ('a' <= c && c <= 'z') || ('A' <= c && c <= 'Z') || ('0' <= c && c <= '9') || c == '-'
}

/// A DNS host label: 1 to 63 ASCII letters of either case, digits or hyphens that neither
/// starts nor ends with a hyphen.
pub open spec fn is_dns_label(label: Seq<char>) -> bool {
    &&& 1 <= label.len() <= 63
    &&& label[0] != '-'
    &&& label.last() != '-'
    &&& forall|i: int| 0 <= i < label.len() ==> is_dns_char(#[trigger] label[i])
}

proof fn lemma_split_extend(x: Seq<char>, y: Seq<char>)
    requires
        forall|i: int| 0 <= i < y.len() ==> #[trigger] y[i] != '.',
    ensures
        split_labels(x + y) == split_labels(x).update(
            split_labels(x).len() - 1,
            split_labels(x).last() + y,
        ),
    decreases y.len(),
{
    lemma_split_len(x);
    if y.len() == 0 {
        assert(x + y =~= x);
        assert(split_labels(x).last() + y =~= split_labels(x).last());
        assert(split_labels(x).update(split_labels(x).len() - 1, split_labels(x).last()) =~= split_labels(x));
    } else {
        let c = y.last();
        let front = y.drop_last();
        assert(front.len() < y.len());
        assert forall|i: int| 0 <= i < front.len() implies #[trigger] front[i] != '.' by {
            assert(front[i] == y[i]);
        }
        lemma_split_extend(x, front);
        assert((x + y).drop_last() =~= x + front);
        assert((x + y).last() == c);
        assert(c == y[y.len() - 1]);
        let rest = split_labels(x + front);
        assert(rest.last() == split_labels(x).last() + front);
        assert((split_labels(x).last() + front).push(c) =~= split_labels(x).last() + y);
        assert(rest.update(rest.len() - 1, rest.last().push(c)) =~= split_labels(x).update(
            split_labels(x).len() - 1,
            split_labels(x).last() + y,
        ));
    }
}

proof fn lemma_split_dot(x: Seq<char>)
    ensures
        split_labels(x + "."@) == split_labels(x).push(Seq::empty()),
{
    reveal_strlit(".");
    assert((x + "."@).drop_last() =~= x);
    assert((x + "."@).last() == '.');
}

proof fn lemma_split_join(labels: Seq<Seq<char>>)
    requires
        labels.len() >= 1,
        forall|j: int, i: int| 0 <= j < labels.len() && 0 <= i < labels[j].len() ==> #[trigger] labels[j][i]
            != '.',
    ensures
        split_labels(join_with(labels, "."@)) == labels,
    decreases labels.len(),
{
    let e = Seq::<char>::empty();
    if labels.len() == 1 {
        let l = labels[0];
        assert forall|i: int| 0 <= i < l.len() implies #[trigger] l[i] != '.' by {
            assert(labels[0][i] != '.');
        }
        lemma_split_extend(e, l);
        assert(e + l =~= l);
        assert(split_labels(e) =~= seq![e]);
        assert(seq![e].update(0, e + l) =~= labels);
    } else {
        let front = labels.drop_last();
        let l = labels.last();
        assert forall|j: int, i: int| 0 <= j < front.len() && 0 <= i < front[j].len() implies #[trigger] front[j][i]
            != '.' by {
            assert(front[j] == labels[j]);
        }
        assert forall|i: int| 0 <= i < l.len() implies #[trigger] l[i] != '.' by {
            assert(labels[labels.len() - 1][i] != '.');
        }
        lemma_split_join(front);
        let j0 = join_with(front, "."@);
        assert(join_with(labels, "."@) == j0 + "."@ + l);
        lemma_split_dot(j0);
        lemma_split_extend(j0 + "."@, l);
        assert(e + l =~= l);
        assert(front.push(e).update(front.len() as int, e + l) =~= labels);
    }
}

proof fn lemma_join_chars(labels: Seq<Seq<char>>)
    requires
        forall|j: int, i: int| 0 <= j < labels.len() && 0 <= i < labels[j].len() ==> is_dns_char(
            #[trigger] labels[j][i],
        ),
    ensures
        forall|k: int| 0 <= k < join_with(labels, "."@).len() ==> {
            let c = #[trigger] join_with(labels, "."@)[k];
            c == '.' || is_dns_char(c)
        },
    decreases labels.len(),
{
    reveal_strlit(".");
    if labels.len() == 1 {
        assert forall|k: int| 0 <= k < labels[0].len() implies is_dns_char(#[trigger] labels[0][k]) by {}
    } else if labels.len() > 1 {
        let front = labels.drop_last();
        let l = labels.last();
        assert forall|j: int, i: int| 0 <= j < front.len() && 0 <= i < front[j].len() implies is_dns_char(
            #[trigger] front[j][i],
        ) by {
            assert(front[j] == labels[j]);
        }
        lemma_join_chars(front);
        let j0 = join_with(front, "."@);
        let d = j0 + "."@ + l;
        assert(join_with(labels, "."@) == d);
        assert forall|k: int| 0 <= k < d.len() implies {
            let c = #[trigger] d[k];
            c == '.' || is_dns_char(c)
        } by {
            if k < j0.len() {
                assert(d[k] == j0[k]);
            } else if k == j0.len() {
                assert(d[k] == '.');
            } else {
                assert(d[k] == l[k - j0.len() - 1]);
                assert(labels[labels.len() - 1][k - j0.len() - 1] == l[k - j0.len() - 1]);
            }
        }
    }
}

proof fn lemma_labels_error_all_none(labels: Seq<Seq<char>>, start: int)
    requires
        0 <= start,
        forall|j: int| start <= j < labels.len() ==> label_error(#[trigger] labels[j], j) is None,
    ensures
        labels_error(labels, start) is None,
    decreases labels.len() - start,
{
    if start < labels.len() {
        lemma_labels_error_all_none(labels, start + 1);
    }
}

/// Every domain of two or more DNS host labels joined by dots, at most 253 bytes long, is
/// accepted: labels may use ASCII letters of either case, digits and inner hyphens.
pub proof fn lemma_dns_names_are_accepted(labels: Seq<Seq<char>>)
    requires
        labels.len() >= 2,
        forall|j: int| 0 <= j < labels.len() ==> is_dns_label(#[trigger] labels[j]),
        byte_len(join_with(labels, "."@)) <= 253,
    ensures
        domain_error(join_with(labels, "."@), byte_len(join_with(labels, "."@))) is None,
{
    let d = join_with(labels, "."@);
    assert forall|j: int, i: int| 0 <= j < labels.len() && 0 <= i < labels[j].len() implies is_dns_char(
        #[trigger] labels[j][i],
    ) by {
        assert(is_dns_label(labels[j]));
    }
    assert forall|j: int, i: int| 0 <= j < labels.len() && 0 <= i < labels[j].len() implies #[trigger] labels[j][i]
        != '.' by {
        assert(is_dns_char(labels[j][i]));
    }
    lemma_split_join(labels);
    lemma_join_chars(labels);
    if d.len() == 0 {
        assert(split_labels(d) =~= seq![Seq::<char>::empty()]);
    }
    assert forall|i: int| 0 <= i < d.len() implies !is_ascii_ws(#[trigger] d[i]) && !is_control(d[i]) && is_ascii(
        d[i],
    ) by {
        let c = d[i];
        assert(c == '.' || is_dns_char(c));
    }
    assert forall|j: int| 0 <= j < labels.len() implies label_error(#[trigger] labels[j], j) is None by {
        let l = labels[j];
        assert(is_dns_label(l));
        if l == seq!['*'] {
            assert(is_dns_char(l[0]));
        }
        assert forall|i: int| 0 <= i < l.len() implies is_label_char(#[trigger] l[i]) by {
            assert(is_dns_char(l[i]));
        }
    }
    lemma_labels_error_all_none(labels, 0);
}

} // verus!
