//! String building blocks, specified over `Seq<char>`.

use vstd::prelude::*;

verus! {

/// `String::push` appends one character.
pub assume_specification[ String::push ](s: &mut String, ch: char)
    ensures
        final(s)@ == old(s)@.push(ch),
;

/// `String::push_str` appends the characters of a string slice.
pub assume_specification[ String::push_str ](s: &mut String, string: &str)
    ensures
        final(s)@ == old(s)@ + string@,
;

/// The length in bytes that `str::len` reports for a string with these characters.
pub open spec fn byte_len(s: Seq<char>) -> nat {
    (vstd::utf8::encode_utf8(s).len() as usize) as nat
}

/// The character views of a sequence of string slices.
pub open spec fn str_views(s: Seq<&str>) -> Seq<Seq<char>> {
    s.map_values(|x: &str| x@)
}

/// The character views of a sequence of strings.
pub open spec fn string_views(s: Seq<String>) -> Seq<Seq<char>> {
    s.map_values(|x: String| x@)
}

/// The segments written one after another.
pub open spec fn concat_all(segs: Seq<Seq<char>>) -> Seq<char>
    decreases segs.len(),
{
    if segs.len() == 0 {
        Seq::empty()
    } else {
        concat_all(segs.drop_last()) + segs.last()
    }
}

/// `needle` stands in `hay` starting at position `at`.
pub open spec fn occurs_at(hay: Seq<char>, needle: Seq<char>, at: int) -> bool {
    0 <= at && at + needle.len() <= hay.len() && hay.subrange(at, at + needle.len()) == needle
}

/// Where segment `k` starts in `concat_all(segs)`.
pub open spec fn segment_offset(segs: Seq<Seq<char>>, k: int) -> int {
    concat_all(segs.take(k)).len() as int
}

pub proof fn lemma_concat_all_append(a: Seq<Seq<char>>, b: Seq<Seq<char>>)
    ensures
        concat_all(a + b) == concat_all(a) + concat_all(b),
    decreases b.len(),
{
    if b.len() == 0 {
        assert(a + b =~= a);
        assert(concat_all(a) + concat_all(b) =~= concat_all(a));
    } else {
        lemma_concat_all_append(a, b.drop_last());
        assert((a + b).drop_last() =~= a + b.drop_last());
        assert((a + b).last() == b.last());
        assert(concat_all(a + b) =~= concat_all(a) + (concat_all(b.drop_last()) + b.last()));
    }
}

/// Segment `k` stands in the whole text at its offset.
pub proof fn lemma_segment_occurs(segs: Seq<Seq<char>>, k: int)
    requires
        0 <= k < segs.len(),
    ensures
        occurs_at(concat_all(segs), segs[k], segment_offset(segs, k)),
{
    let before = segs.take(k);
    let rest = segs.skip(k + 1);
    assert(segs =~= before + seq![segs[k]] + rest);
    lemma_concat_all_append(before + seq![segs[k]], rest);
    lemma_concat_all_append(before, seq![segs[k]]);
    let single = seq![segs[k]];
    assert(single.drop_last() =~= Seq::<Seq<char>>::empty());
    assert(concat_all(single.drop_last()) =~= Seq::<char>::empty());
    assert(concat_all(single) == concat_all(single.drop_last()) + single.last());
    assert(concat_all(single) =~= segs[k]);
    let whole = concat_all(before) + segs[k] + concat_all(rest);
    assert(concat_all(segs) == whole);
    let at = concat_all(before).len() as int;
    assert(whole.subrange(at, at + segs[k].len()) =~= segs[k]);
}

/// Segments `j` up to `k` stand together in the whole text, from the offset of segment `j`.
pub proof fn lemma_segments_occur(segs: Seq<Seq<char>>, j: int, k: int)
    requires
        0 <= j <= k <= segs.len(),
    ensures
        occurs_at(concat_all(segs), concat_all(segs.subrange(j, k)), segment_offset(segs, j)),
{
    let before = segs.take(j);
    let run = segs.subrange(j, k);
    let rest = segs.skip(k);
    assert(segs =~= before + run + rest);
    lemma_concat_all_append(before + run, rest);
    lemma_concat_all_append(before, run);
    let whole = concat_all(before) + concat_all(run) + concat_all(rest);
    assert(concat_all(segs) == whole);
    let at = concat_all(before).len() as int;
    assert(whole.subrange(at, at + concat_all(run).len()) =~= concat_all(run));
}

/// A piece of a text that stands in `hay` stands there too, shifted by where it starts.
pub proof fn lemma_occurs_within(hay: Seq<char>, needle: Seq<char>, at: int, i: int, j: int)
    requires
        occurs_at(hay, needle, at),
        0 <= i <= j <= needle.len(),
    ensures
        occurs_at(hay, needle.subrange(i, j), at + i),
{
    assert(hay.subrange(at + i, at + j) =~= needle.subrange(i, j));
}

/// Segments that come later start no earlier than the end of those before them.
pub proof fn lemma_offsets_ordered(segs: Seq<Seq<char>>, j: int, k: int)
    requires
        0 <= j < k <= segs.len(),
    ensures
        segment_offset(segs, j) + segs[j].len() <= segment_offset(segs, k),
    decreases k - j,
{
    let t = segs.take(k);
    assert(t.drop_last() =~= segs.take(k - 1));
    assert(t.last() == segs[k - 1]);
    assert(concat_all(t) == concat_all(segs.take(k - 1)) + segs[k - 1]);
    if j < k - 1 {
        lemma_offsets_ordered(segs, j, k - 1);
    }
}

/// `items[0] sep items[1] sep ... items[n-1]`, as `[String]::join` produces it.
pub open spec fn join_with(items: Seq<Seq<char>>, sep: Seq<char>) -> Seq<char>
    decreases items.len(),
{
    if items.len() == 0 {
        Seq::empty()
    } else if items.len() == 1 {
        items[0]
    } else {
        join_with(items.drop_last(), sep) + sep + items.last()
    }
}

/// An owned copy of a string slice.
pub fn owned(s: &str) -> (res: String)
    ensures
        res@ == s@,
{
    s.to_owned()
}

/// The characters of `s`, in order.
pub fn chars_of(s: &str) -> (res: Vec<char>)
    ensures
        res@ == s@,
{
    let n: usize = s.unicode_len();
    let mut out: Vec<char> = Vec::new();
    let mut i: usize = 0;
    while i < n
        invariant
            n == s@.len(),
            i <= n,
            out@ == s@.take(i as int),
        decreases n - i,
    {
        let c: char = s.get_char(i);
        out.push(c);
        i = i + 1;
        assert(out@ =~= s@.take(i as int));
    }
    assert(out@ =~= s@);
    out
}

/// Whether two string slices hold the same characters.
pub fn str_eq(a: &str, b: &str) -> (res: bool)
    ensures
        res == (a@ == b@),
{
    let n: usize = a.unicode_len();
    let m: usize = b.unicode_len();
    if n != m {
        return false;
    }
    let mut i: usize = 0;
    while i < n
        invariant
            n == a@.len(),
            n == b@.len(),
            i <= n,
            forall|j: int| 0 <= j < i ==> a@[j] == b@[j],
        decreases n - i,
    {
        if a.get_char(i) != b.get_char(i) {
            return false;
        }
        i = i + 1;
    }
    assert(a@ =~= b@);
    true
}

/// Writes the strings one after another.
pub fn concat_strings(parts: &[String]) -> (res: String)
    ensures
        res@ == concat_all(string_views(parts@)),
{
    let ghost xs = string_views(parts@);
    let mut out: String = String::new();
    let mut i: usize = 0;
    assert(xs.take(0) =~= Seq::<Seq<char>>::empty());
    while i < parts.len()
        invariant
            xs == string_views(parts@),
            i <= parts@.len(),
            out@ == concat_all(xs.take(i as int)),
        decreases parts@.len() - i,
    {
        out.push_str(parts[i].as_str());
        proof {
            let x2 = xs.take(i + 1);
            assert(x2.drop_last() =~= xs.take(i as int));
            assert(x2.last() == parts@[i as int]@);
        }
        i = i + 1;
    }
    assert(xs.take(i as int) =~= xs);
    out
}

/// Joins strings with a separator, as `[String]::join` does.
pub fn join(items: &[String], sep: &str) -> (res: String)
    ensures
        res@ == join_with(string_views(items@), sep@),
{
    let ghost xs = string_views(items@);
    let mut out: String = String::new();
    if items.len() == 0 {
        return out;
    }
    out.push_str(items[0].as_str());
    let mut i: usize = 1;
    proof {
        assert(xs.take(1).len() == 1);
        assert(out@ == join_with(xs.take(1), sep@));
    }
    while i < items.len()
        invariant
            xs == string_views(items@),
            1 <= i <= items@.len(),
            out@ == join_with(xs.take(i as int), sep@),
        decreases items@.len() - i,
    {
        out.push_str(sep);
        out.push_str(items[i].as_str());
        proof {
            let x2 = xs.take(i + 1);
            assert(x2.drop_last() =~= xs.take(i as int));
            assert(x2.last() == items@[i as int]@);
        }
        i = i + 1;
    }
    proof {
        assert(xs.take(i as int) =~= xs);
    }
    out
}

} // verus!
