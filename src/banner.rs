//! The banner that a compiler prints for a verbose version query: lines of
//! text, some of which have the shape `<key>: <value>`.
use vstd::prelude::*;

verus! {

/// A line without the carriage return that ends a `\r\n` line break.
pub open spec fn trim_cr(l: Seq<char>) -> Seq<char> {
    if l.len() > 0 && l.last() == '\r' {
        l.drop_last()
    } else {
        l
    }
}

/// The lines of `s`, scanning from character `i` in a line that began at
/// `start`. A line ends at `\n` (or `\r\n`); the last line needs no line
/// break, and a text that ends in one has no empty line after it.
pub open spec fn lines_from(s: Seq<char>, start: int, i: int) -> Seq<Seq<char>>
    decreases s.len() - i,
{
    if i >= s.len() {
        if start < s.len() {
            seq![s.subrange(start, s.len() as int)]
        } else {
            seq![]
        }
    } else if s[i] == '\n' {
        seq![trim_cr(s.subrange(start, i))] + lines_from(s, i + 1, i + 1)
    } else {
        lines_from(s, start, i + 1)
    }
}

/// The lines of the text `s`.
pub open spec fn lines(s: Seq<char>) -> Seq<Seq<char>> {
    lines_from(s, 0, 0)
}

/// Whether the line `l` reads `<key>: <value>` for the given key.
pub open spec fn is_field_line(l: Seq<char>, key: Seq<char>) -> bool {
    &&& l.len() >= key.len() + 2
    &&& l.take(key.len() as int) == key
    &&& l[key.len() as int] == ':'
    &&& l[key.len() + 1int] == ' '
}

/// The value of the line `l` for `key`: everything after `<key>: `.
pub open spec fn field_line_value(l: Seq<char>, key: Seq<char>) -> Seq<char> {
    l.skip(key.len() + 2int)
}

/// The value of the first of the lines `ls` that is a line for `key`.
pub open spec fn first_field(ls: Seq<Seq<char>>, key: Seq<char>) -> Option<Seq<char>>
    decreases ls.len(),
{
    if ls.len() == 0 {
        None
    } else if is_field_line(ls[0], key) {
        Some(field_line_value(ls[0], key))
    } else {
        first_field(ls.drop_first(), key)
    }
}

/// The value that the banner `text` gives for `key`, if a line gives one.
pub open spec fn field_value(text: Seq<char>, key: Seq<char>) -> Option<Seq<char>> {
    first_field(lines(text), key)
}

/// The lookup finds nothing exactly when no line is a line for `key`.
pub proof fn lemma_first_field_none(ls: Seq<Seq<char>>, key: Seq<char>)
    ensures
        first_field(ls, key) is None <==> forall|i: int| 0 <= i < ls.len() ==> !is_field_line(#[trigger] ls[i], key),
    decreases ls.len(),
{
    if ls.len() > 0 {
        lemma_first_field_none(ls.drop_first(), key);
        if !is_field_line(ls[0], key) {
            assert forall|i: int| 0 < i < ls.len() implies ls[i] == ls.drop_first()[i - 1] by {}
        }
    }
}

/// Whether `key` occurs anywhere in `text`.
pub open spec fn occurs_in(text: Seq<char>, key: Seq<char>) -> bool {
    exists|j: int| 0 <= j && j + key.len() <= text.len() && #[trigger] text.subrange(j, j + key.len()) == key
}

proof fn lemma_lines_from_absent(s: Seq<char>, key: Seq<char>, start: int, i: int)
    requires
        0 <= start <= i <= s.len(),
        !occurs_in(s, key),
    ensures
        first_field(lines_from(s, start, i), key) is None,
    decreases s.len() - i,
{
    if i >= s.len() {
        if start < s.len() {
            let l = s.subrange(start, s.len() as int);
            if is_field_line(l, key) {
                assert(s.subrange(start, start + key.len()) =~= l.take(key.len() as int));
            }
            assert(seq![l].drop_first() =~= Seq::<Seq<char>>::empty());
        }
    } else if s[i] == '\n' {
        let l = trim_cr(s.subrange(start, i));
        if is_field_line(l, key) {
            assert(s.subrange(start, start + key.len()) =~= l.take(key.len() as int));
        }
        let rest = lines_from(s, i + 1, i + 1);
        assert((seq![l] + rest).drop_first() =~= rest);
        lemma_lines_from_absent(s, key, i + 1, i + 1);
    } else {
        lemma_lines_from_absent(s, key, start, i + 1);
    }
}

/// A key that occurs nowhere in the banner has no value there.
pub proof fn lemma_absent_key(text: Seq<char>, key: Seq<char>)
    requires
        !occurs_in(text, key),
    ensures
        field_value(text, key) is None,
{
    lemma_lines_from_absent(text, key, 0, 0);
}

/// The characters of `s`, in order.
fn chars_of(s: &str) -> (r: Vec<char>)
    ensures
        r@ == s@,
{
    let mut v: Vec<char> = Vec::new();
    for c in it: s.chars()
        invariant
            it.seq() == s@,
            v@ == it.seq().take(it.index() as int),
    {
        v.push(c);
    }
    v
}

/// Whether `text[start..end]` is a line for `key`.
fn line_has_key(text: &Vec<char>, start: usize, end: usize, key: &Vec<char>) -> (r: bool)
    requires
        start <= end <= text.len(),
    ensures
        r == is_field_line(text@.subrange(start as int, end as int), key@),
{
    let ghost l = text@.subrange(start as int, end as int);
    if end - start < 2 || end - start - 2 < key.len() {
        return false;
    }
    let klen = key.len();
    let mut j: usize = 0;
    while j < klen
        invariant
            klen == key.len(),
            j <= klen,
            start + klen + 2 <= end <= text.len(),
            l == text@.subrange(start as int, end as int),
            forall|m: int| 0 <= m < j ==> l[m] == key@[m],
        decreases klen - j,
    {
        if text[start + j] != key[j] {
            assert(l.take(klen as int)[j as int] != key@[j as int]);
            return false;
        }
        j = j + 1;
    }
    assert(l.take(klen as int) =~= key@);
    text[start + klen] == ':' && text[start + klen + 1] == ' '
}

/// The value that `banner` gives for `key`: the rest of the first line that
/// begins with `<key>: `.
pub fn field_of<'a>(banner: &'a str, key: &str) -> (r: Option<&'a str>)
    ensures
        match r {
            Some(v) => field_value(banner@, key@) == Some(v@),
            None => field_value(banner@, key@) is None,
        },
{
    let text = chars_of(banner);
    let k = chars_of(key);
    let n = text.len();
    let mut start: usize = 0;
    let mut i: usize = 0;
    while i < n
        invariant
            n == text.len(),
            text@ == banner@,
            k@ == key@,
            start <= i <= n,
            field_value(banner@, key@) == first_field(lines_from(text@, start as int, i as int), key@),
        decreases n - i,
    {
        if text[i] == '\n' {
            let end = if i > start && text[i - 1] == '\r' { i - 1 } else { i };
            let ghost l = text@.subrange(start as int, i as int);
            assert(trim_cr(l) =~= text@.subrange(start as int, end as int));
            let ghost rest = lines_from(text@, i + 1, i + 1);
            assert((seq![trim_cr(l)] + rest).drop_first() =~= rest);
            if line_has_key(&text, start, end, &k) {
                let from = start + k.len() + 2;
                let v = banner.substring_char(from, end);
                assert(v@ =~= field_line_value(trim_cr(l), key@));
                return Some(v);
            }
            start = i + 1;
        }
        i = i + 1;
    }
    if start < n {
        let ghost l = text@.subrange(start as int, n as int);
        if line_has_key(&text, start, n, &k) {
            let from = start + k.len() + 2;
            let v = banner.substring_char(from, n);
            assert(v@ =~= field_line_value(l, key@));
            return Some(v);
        }
        assert(seq![l].drop_first() =~= Seq::<Seq<char>>::empty());
        assert(first_field(Seq::<Seq<char>>::empty(), key@) is None);
    }
    assert(lines_from(text@, start as int, n as int) == (if start < n {
        seq![text@.subrange(start as int, n as int)]
    } else {
        Seq::<Seq<char>>::empty()
    }));
    None
}

} // verus!
