//! Character sequences: the operations on text that the rest of the
//! library is built from, each stated over `Seq<char>`.

use vstd::prelude::*;
use vstd::string::*;

verus! {

/// `String::push` appends one character.
pub assume_specification[ String::push ](s: &mut String, ch: char)
    ensures
        final(s)@ == old(s)@.push(ch),
;

/// What an optional string holds, as an optional sequence of characters.
pub open spec fn option_text(o: Option<String>) -> Option<Seq<char>> {
    match o {
        Some(s) => Some(s@),
        None => None,
    }
}

/// What a list of strings holds, each string as a sequence of characters.
pub open spec fn texts(v: Seq<String>) -> Seq<Seq<char>> {
    Seq::new(v.len(), |i: int| v[i]@)
}

/// What an optional list of strings holds.
pub open spec fn option_texts(o: Option<Vec<String>>) -> Option<Seq<Seq<char>>> {
    match o {
        Some(v) => Some(texts(v@)),
        None => None,
    }
}

/// What a list of pairs of strings holds.
pub open spec fn text_pairs(v: Seq<(String, String)>) -> Seq<(Seq<char>, Seq<char>)> {
    Seq::new(v.len(), |i: int| (v[i].0@, v[i].1@))
}

/// The pieces of `s` between its line feeds. A text without a line feed is one
/// piece; a text that ends in a line feed has an empty last piece.
pub open spec fn split_lines(s: Seq<char>) -> Seq<Seq<char>>
    decreases s.len(),
{
    if s.len() == 0 {
        seq![Seq::<char>::empty()]
    } else {
        let before = split_lines(s.drop_last());
        if s.last() == '\n' {
            before.push(Seq::<char>::empty())
        } else {
            before.drop_last().push(before.last().push(s.last()))
        }
    }
}

/// `s` with every trailing occurrence of `pat` removed.
pub open spec fn trim_end_matches(s: Seq<char>, pat: Seq<char>) -> Seq<char>
    decreases s.len(),
{
    if pat.len() > 0 && pat.is_suffix_of(s) {
        trim_end_matches(s.take(s.len() - pat.len()), pat)
    } else {
        s
    }
}

/// `s` with every space replaced by a hyphen.
pub open spec fn hyphenate(s: Seq<char>) -> Seq<char> {
    Seq::new(
        s.len(),
        |i: int|
            if s[i] == ' ' {
                '-'
            } else {
                s[i]
            },
    )
}

pub proof fn lemma_split_lines_nonempty(s: Seq<char>)
    ensures
        split_lines(s).len() >= 1,
    decreases s.len(),
{
    if s.len() > 0 {
        lemma_split_lines_nonempty(s.drop_last());
    }
}

/// The characters of `s`, in order.
pub fn chars_of(s: &str) -> (v: Vec<char>)
    ensures
        v@ == s@,
{
    let mut v: Vec<char> = Vec::new();
    for c in it: s.chars()
        invariant
            v@ == s@.take(it.index()),
            it.seq() == s@,
    {
        v.push(c);
    }
    v
}

/// Appends the characters of `s` to `buf`.
pub fn push_str(buf: &mut Vec<char>, s: &str)
    ensures
        final(buf)@ == old(buf)@ + s@,
{
    let ghost before = buf@;
    for c in it: s.chars()
        invariant
            buf@ == before + s@.take(it.index()),
            it.seq() == s@,
    {
        buf.push(c);
    }
}

/// The string that holds the characters `v[from..to]`.
pub fn string_of(v: &Vec<char>, from: usize, to: usize) -> (s: String)
    requires
        from <= to <= v@.len(),
    ensures
        s@ == v@.subrange(from as int, to as int),
{
    let mut s = String::new();
    let mut i: usize = from;
    while i < to
        invariant
            from <= i <= to <= v@.len(),
            s@ == v@.subrange(from as int, i as int),
        decreases to - i,
    {
        s.push(v[i]);
        i += 1;
        assert(v@.subrange(from as int, i as int) == v@.subrange(from as int, i - 1).push(
            v@[i - 1],
        ));
    }
    s
}

/// Whether `v[from..to]` begins with `pat`.
pub fn has_prefix(v: &Vec<char>, from: usize, to: usize, pat: &str) -> (b: bool)
    requires
        from <= to <= v@.len(),
    ensures
        b == pat@.is_prefix_of(v@.subrange(from as int, to as int)),
{
    let p = chars_of(pat);
    let ghost line = v@.subrange(from as int, to as int);
    if p.len() > to - from {
        return false;
    }
    let mut i: usize = 0;
    while i < p.len()
        invariant
            from <= to <= v@.len(),
            p@ == pat@,
            p@.len() <= to - from,
            line == v@.subrange(from as int, to as int),
            0 <= i <= p@.len(),
            forall|j: int| 0 <= j < i ==> p@[j] == line[j],
        decreases p@.len() - i,
    {
        if p[i] != v[from + i] {
            assert(line[i as int] != pat@[i as int]);
            assert(line.subrange(0, pat@.len() as int)[i as int] != pat@[i as int]);
            return false;
        }
        i += 1;
    }
    assert(line.subrange(0, pat@.len() as int) =~= pat@);
    true
}

/// Whether `buf` ends with `pat`.
pub fn has_suffix(buf: &Vec<char>, pat: &Vec<char>) -> (b: bool)
    ensures
        b == pat@.is_suffix_of(buf@),
{
    if pat.len() > buf.len() {
        return false;
    }
    let off: usize = buf.len() - pat.len();
    let mut i: usize = 0;
    while i < pat.len()
        invariant
            off + pat@.len() == buf@.len(),
            buf@.len() <= usize::MAX,
            0 <= i <= pat@.len(),
            forall|j: int| 0 <= j < i ==> pat@[j] == buf@[off + j],
        decreases pat@.len() - i,
    {
        if pat[i] != buf[off + i] {
            assert(buf@.subrange(off as int, buf@.len() as int)[i as int] != pat@[i as int]);
            return false;
        }
        i += 1;
    }
    assert(buf@.subrange(off as int, buf@.len() as int) =~= pat@);
    true
}

/// Removes every trailing occurrence of `pat` from `buf`.
pub fn strip_trailing(buf: &mut Vec<char>, pat: &str)
    ensures
        final(buf)@ == trim_end_matches(old(buf)@, pat@),
{
    let p = chars_of(pat);
    if p.len() == 0 {
        return ;
    }
    while has_suffix(buf, &p)
        invariant
            p@ == pat@,
            p@.len() > 0,
            trim_end_matches(buf@, pat@) == trim_end_matches(old(buf)@, pat@),
        decreases buf@.len(),
    {
        let keep: usize = buf.len() - p.len();
        buf.truncate(keep);
    }
}

/// A copy of an optional string.
pub fn copy_option(o: &Option<String>) -> (r: Option<String>)
    ensures
        option_text(r) == option_text(*o),
{
    match o {
        Some(s) => Some(s.clone()),
        None => None,
    }
}

/// A copy of a list of strings.
pub fn copy_strings(v: &Vec<String>) -> (r: Vec<String>)
    ensures
        texts(r@) == texts(v@),
{
    let mut r: Vec<String> = Vec::new();
    let mut i: usize = 0;
    while i < v.len()
        invariant
            0 <= i <= v@.len(),
            r@.len() == i,
            forall|j: int| 0 <= j < i ==> r@[j]@ == v@[j]@,
        decreases v@.len() - i,
    {
        r.push(v[i].clone());
        i += 1;
    }
    assert(texts(r@) =~= texts(v@));
    r
}

/// A copy of a list of pairs of strings.
pub fn copy_pairs(v: &Vec<(String, String)>) -> (r: Vec<(String, String)>)
    ensures
        text_pairs(r@) == text_pairs(v@),
{
    let mut r: Vec<(String, String)> = Vec::new();
    let mut i: usize = 0;
    while i < v.len()
        invariant
            0 <= i <= v@.len(),
            r@.len() == i,
            forall|j: int| 0 <= j < i ==> r@[j].0@ == v@[j].0@ && r@[j].1@ == v@[j].1@,
        decreases v@.len() - i,
    {
        r.push((v[i].0.clone(), v[i].1.clone()));
        i += 1;
    }
    assert(text_pairs(r@) =~= text_pairs(v@));
    r
}

/// A copy of `s` in which every space has become a hyphen.
pub fn replace_spaces(s: &str) -> (r: String)
    ensures
        r@ == hyphenate(s@),
{
    let mut r = String::new();
    for c in it: s.chars()
        invariant
            it.seq() == s@,
            r@ == hyphenate(s@).take(it.index()),
    {
        let ghost i = it.index();
        if c == ' ' {
            r.push('-');
        } else {
            r.push(c);
        }
        assert(hyphenate(s@).take(i + 1) == hyphenate(s@).take(i).push(hyphenate(s@)[i]));
    }
    r
}

} // verus!
