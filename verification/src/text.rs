//! Small operations on text that the rest of the library is built from.

use vstd::prelude::*;
use vstd::string::*;

verus! {

/// The characters that separate the words of a command line: the code points
/// with the Unicode property `White_Space`.
pub open spec fn is_space(c: char) -> bool {
    ||| c == ' '
    ||| ('\u{9}' <= c && c <= '\u{d}')
    ||| c == '\u{85}'
    ||| c == '\u{a0}'
    ||| c == '\u{1680}'
    ||| ('\u{2000}' <= c && c <= '\u{200a}')
    ||| c == '\u{2028}'
    ||| c == '\u{2029}'
    ||| c == '\u{202f}'
    ||| c == '\u{205f}'
    ||| c == '\u{3000}'
}

/// Whether `c` separates words.
pub fn is_space_char(c: char) -> (r: bool)
    ensures
        r == is_space(c),
{
    c == ' ' || ('\u{9}' <= c && c <= '\u{d}') || c == '\u{85}' || c == '\u{a0}' || c == '\u{1680}'
        || ('\u{2000}' <= c && c <= '\u{200a}') || c == '\u{2028}' || c == '\u{2029}' || c
        == '\u{202f}' || c == '\u{205f}' || c == '\u{3000}'
}

/// Whether two pieces of text hold the same characters.
pub fn same_text(a: &str, b: &str) -> (r: bool)
    ensures
        r == (a@ == b@),
{
    let n: usize = a.unicode_len();
    if n != b.unicode_len() {
        return false;
    }
    let mut i: usize = 0;
    while i < n
        invariant
            n == a@.len(),
            n == b@.len(),
            i <= n,
            forall|k: int| 0 <= k < i ==> a@[k] == b@[k],
        decreases n - i,
    {
        if a.get_char(i) != b.get_char(i) {
            return false;
        }
        i += 1;
    }
    assert(a@ =~= b@);
    true
}

/// Whether `s` ends with the characters of `suffix`.
pub open spec fn ends_with(s: Seq<char>, suffix: Seq<char>) -> bool {
    suffix.len() <= s.len() && s.subrange(s.len() - suffix.len(), s.len() as int) == suffix
}

/// Whether `s` ends with the characters of `suffix`.
pub fn has_suffix(s: &str, suffix: &str) -> (r: bool)
    ensures
        r == ends_with(s@, suffix@),
{
    let n: usize = s.unicode_len();
    let m: usize = suffix.unicode_len();
    if m > n {
        return false;
    }
    same_text(s.substring_char(n - m, n), suffix)
}

/// The texts that a list of strings holds, in order.
pub open spec fn texts(v: Seq<String>) -> Seq<Seq<char>> {
    Seq::new(v.len(), |i: int| v[i]@)
}

/// The text that an optional string holds, if it holds one.
pub open spec fn optional_text(s: Option<String>) -> Option<Seq<char>> {
    match s {
        Some(t) => Some(t@),
        None => None,
    }
}

/// Whether `list` holds a string with the characters of `s`.
pub fn holds_text(list: &Vec<String>, s: &str) -> (r: bool)
    ensures
        r == texts(list@).contains(s@),
{
    let mut i: usize = 0;
    while i < list.len()
        invariant
            i <= list.len(),
            forall|k: int| 0 <= k < i ==> texts(list@)[k] != s@,
        decreases list.len() - i,
    {
        if same_text(list[i].as_str(), s) {
            assert(texts(list@)[i as int] == s@);
            return true;
        }
        i += 1;
    }
    false
}

/// The parts written one after the other, with `sep` between neighbours.
pub open spec fn joined(parts: Seq<Seq<char>>, sep: Seq<char>) -> Seq<char>
    decreases parts.len(),
{
    if parts.len() == 0 {
        Seq::empty()
    } else if parts.len() == 1 {
        parts[0]
    } else {
        joined(parts.drop_last(), sep) + sep + parts.last()
    }
}

/// Writes the parts one after the other, with `sep` between neighbours.
pub fn join(parts: &Vec<String>, sep: &str) -> (r: String)
    ensures
        r@ == joined(texts(parts@), sep@),
{
    let mut r = String::new();
    let mut i: usize = 0;
    while i < parts.len()
        invariant
            i <= parts.len(),
            r@ == joined(texts(parts@).take(i as int), sep@),
        decreases parts.len() - i,
    {
        if i > 0 {
            r.append(sep);
        }
        r.append(parts[i].as_str());
        proof {
            let all = texts(parts@);
            assert(all.take(i + 1).drop_last() =~= all.take(i as int));
            assert(all.take(i + 1).last() == parts[i as int]@);
            if i == 0 {
                assert(r@ =~= parts[i as int]@);
            }
        }
        i += 1;
    }
    assert(texts(parts@).take(parts.len() as int) =~= texts(parts@));
    r
}

/// `s`, followed by as many blanks as it takes to reach `width` characters;
/// a longer text stays as it is.
pub open spec fn padded(s: Seq<char>, width: nat) -> Seq<char> {
    s + Seq::new(
        if s.len() < width {
            (width - s.len()) as nat
        } else {
            0
        },
        |i: int| ' ',
    )
}

/// Fills `s` up with blanks to `width` characters.
pub fn pad(s: &str, width: usize) -> (r: String)
    ensures
        r@ == padded(s@, width as nat),
{
    let n: usize = s.unicode_len();
    let mut r = String::from_str(s);
    let mut k: usize = n;
    assert(r@ =~= s@ + Seq::new(0, |i: int| ' '));
    while k < width
        invariant
            n == s@.len(),
            n <= k,
            k <= width || k == n,
            r@ == s@ + Seq::new((k - n) as nat, |i: int| ' '),
        decreases width - k,
    {
        proof {
            reveal_strlit(" ");
            assert(" "@ =~= seq![' ']);
        }
        r.append(" ");
        k += 1;
        assert(r@ =~= s@ + Seq::new((k - n) as nat, |i: int| ' '));
    }
    r
}

/// Copies the strings of `list` from position `from` on.
pub fn copy_from(list: &Vec<String>, from: usize) -> (r: Vec<String>)
    requires
        from <= list.len(),
    ensures
        texts(r@) == texts(list@).skip(from as int),
{
    let mut r: Vec<String> = Vec::new();
    let mut i: usize = from;
    while i < list.len()
        invariant
            from <= i <= list.len(),
            r.len() == i - from,
            forall|k: int| 0 <= k < r.len() ==> r[k]@ == list[k + from]@,
        decreases list.len() - i,
    {
        r.push(list[i].clone());
        i += 1;
    }
    assert(texts(r@) =~= texts(list@).skip(from as int));
    r
}

/// The fields of `s`: the stretches between one occurrence of `sep` and the
/// next, in order. A text without `sep` is one field; the empty text is one
/// empty field.
pub open spec fn fields(s: Seq<char>, sep: char) -> Seq<Seq<char>>
    decreases s.len(),
{
    if s.len() == 0 {
        seq![Seq::empty()]
    } else {
        let before = fields(s.drop_last(), sep);
        if s.last() == sep {
            before.push(Seq::empty())
        } else {
            before.drop_last().push(before.last().push(s.last()))
        }
    }
}

/// The fields of a text hold no separator, and joined by the separator they
/// give the text back: they are its one such division.
pub proof fn lemma_fields_divide(s: Seq<char>, sep: char)
    ensures
        fields(s, sep).len() >= 1,
        joined(fields(s, sep), seq![sep]) == s,
        forall|k: int, j: int|
            0 <= k < fields(s, sep).len() && 0 <= j < fields(s, sep)[k].len() ==> fields(
                s,
                sep,
            )[k][j] != sep,
    decreases s.len(),
{
    let f = fields(s, sep);
    if s.len() == 0 {
        assert(joined(f, seq![sep]) =~= s);
    } else {
        let before = fields(s.drop_last(), sep);
        lemma_fields_divide(s.drop_last(), sep);
        if s.last() == sep {
            assert(f.drop_last() =~= before);
            assert(joined(f, seq![sep]) =~= s);
        } else {
            let word = before.last();
            assert(s =~= s.drop_last().push(s.last()));
            assert(f.len() == before.len());
            assert(f.last() == word.push(s.last()));
            if before.len() == 1 {
                assert(joined(before, seq![sep]) == word);
                assert(joined(f, seq![sep]) == f[0]);
            } else {
                assert(f.drop_last() =~= before.drop_last());
                assert(joined(f, seq![sep]) =~= joined(before, seq![sep]).push(s.last()));
            }
        }
    }
}

/// Divides `raw` into its fields.
pub fn split(raw: &str, sep: char) -> (r: Vec<String>)
    ensures
        texts(r@) == fields(raw@, sep),
{
    let n: usize = raw.unicode_len();
    let mut out: Vec<String> = Vec::new();
    let mut start: usize = 0;
    let mut i: usize = 0;
    proof {
        assert(raw@.take(0) =~= Seq::<char>::empty());
        assert(texts(out@).push(raw@.subrange(0, 0)) =~= fields(raw@.take(0), sep));
    }
    while i < n
        invariant
            n == raw@.len(),
            start <= i <= n,
            texts(out@).push(raw@.subrange(start as int, i as int)) == fields(raw@.take(i as int), sep),
        decreases n - i,
    {
        let ghost s = raw@;
        proof {
            assert(s.take(i + 1).drop_last() =~= s.take(i as int));
            assert(s.take(i + 1).last() == s[i as int]);
        }
        if raw.get_char(i) == sep {
            let field = String::from_str(raw.substring_char(start, i));
            proof {
                assert(texts(out@.push(field)) =~= texts(out@).push(field@));
                assert(s.subrange(i + 1, i + 1) =~= Seq::<char>::empty());
            }
            out.push(field);
            start = i + 1;
        } else {
            proof {
                let before = texts(out@).push(s.subrange(start as int, i as int));
                assert(before.drop_last() =~= texts(out@));
                assert(s.subrange(start as int, i as int).push(s[i as int]) =~= s.subrange(
                    start as int,
                    i + 1,
                ));
            }
        }
        i += 1;
    }
    let last = String::from_str(raw.substring_char(start, n));
    proof {
        assert(raw@.take(n as int) =~= raw@);
        assert(texts(out@.push(last)) =~= texts(out@).push(last@));
    }
    out.push(last);
    out
}

} // verus!
