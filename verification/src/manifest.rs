//! Reading the version that a module manifest asks for: the value of its
//! `toolchain` directive, or else of its `go` directive.

use crate::text;
use vstd::prelude::*;

verus! {

/// How many characters stand before the first whitespace of `s`.
pub open spec fn word_len(s: Seq<char>) -> nat
    decreases s.len(),
{
    if s.len() > 0 && !text::is_whitespace(s.first()) {
        1 + word_len(s.drop_first())
    } else {
        0
    }
}

/// How many characters stand before the first line break of `s`.
pub open spec fn line_len(s: Seq<char>) -> nat
    decreases s.len(),
{
    if s.len() > 0 && s.first() != '\n' {
        1 + line_len(s.drop_first())
    } else {
        0
    }
}

/// The word that `s` begins with: its characters up to the first whitespace.
pub open spec fn leading_word(s: Seq<char>) -> Seq<char> {
    s.take(word_len(s) as int)
}

/// The first line of `s`, without its line break.
pub open spec fn first_line(s: Seq<char>) -> Seq<char> {
    s.take(line_len(s) as int)
}

/// The value of the directive `keyword` on a line: the word that follows the
/// keyword, where the line's first word is the keyword and a word follows.
pub open spec fn directive_value(line: Seq<char>, keyword: Seq<char>) -> Option<Seq<char>> {
    let body = text::without_leading_whitespace(line);
    let word = leading_word(body);
    let value = leading_word(text::without_leading_whitespace(body.skip(word.len() as int)));
    if word == keyword && value.len() > 0 {
        Some(value)
    } else {
        None
    }
}

/// The value of the first line of `content` that holds the directive
/// `keyword`.
pub open spec fn first_directive(content: Seq<char>, keyword: Seq<char>) -> Option<Seq<char>>
    decreases content.len(),
{
    match directive_value(first_line(content), keyword) {
        Some(v) => Some(v),
        None => if line_len(content) < content.len() {
            first_directive(content.skip(line_len(content) as int + 1), keyword)
        } else {
            None
        },
    }
}

/// The version that a manifest asks for: that of its `toolchain` directive,
/// without the toolchain's name in front, where it has one that names a
/// version; else that of its `go` directive.
pub open spec fn manifest_version_of(content: Seq<char>) -> Option<Seq<char>> {
    match first_directive(content, "toolchain"@) {
        Some(t) => if text::without_leading(t, "go"@).len() > 0 {
            Some(text::without_leading(t, "go"@))
        } else {
            first_directive(content, "go"@)
        },
        None => first_directive(content, "go"@),
    }
}

/// Where the whitespace that begins at `from` ends, before `to`.
fn skip_whitespace(v: &Vec<char>, from: usize, to: usize) -> (r: usize)
    requires
        from <= to <= v.len(),
    ensures
        from <= r <= to,
        v@.subrange(r as int, to as int) == text::without_leading_whitespace(
            v@.subrange(from as int, to as int),
        ),
{
    let mut i: usize = from;
    while i < to && text::char_is_whitespace(v[i])
        invariant
            from <= i <= to <= v.len(),
            text::without_leading_whitespace(v@.subrange(from as int, to as int))
                == text::without_leading_whitespace(v@.subrange(i as int, to as int)),
        decreases to - i,
    {
        assert(v@.subrange(i as int, to as int).drop_first() =~= v@.subrange(i + 1, to as int));
        i += 1;
    }
    i
}

/// Where the word that begins at `from` ends, before `to`.
fn word_end(v: &Vec<char>, from: usize, to: usize) -> (r: usize)
    requires
        from <= to <= v.len(),
    ensures
        from <= r <= to,
        r - from == word_len(v@.subrange(from as int, to as int)),
        v@.subrange(from as int, r as int) == leading_word(v@.subrange(from as int, to as int)),
{
    let mut i: usize = from;
    while i < to && !text::char_is_whitespace(v[i])
        invariant
            from <= i <= to <= v.len(),
            word_len(v@.subrange(from as int, to as int)) == (i - from) + word_len(
                v@.subrange(i as int, to as int),
            ),
        decreases to - i,
    {
        assert(v@.subrange(i as int, to as int).drop_first() =~= v@.subrange(i + 1, to as int));
        i += 1;
    }
    assert(v@.subrange(from as int, to as int).take(i - from) =~= v@.subrange(
        from as int,
        i as int,
    ));
    i
}

/// Where the line that begins at `from` ends.
fn line_end(v: &Vec<char>, from: usize) -> (r: usize)
    requires
        from <= v.len(),
    ensures
        from <= r <= v.len(),
        r - from == line_len(v@.skip(from as int)),
        v@.subrange(from as int, r as int) == first_line(v@.skip(from as int)),
{
    let mut i: usize = from;
    while i < v.len() && v[i] != '\n'
        invariant
            from <= i <= v.len(),
            line_len(v@.skip(from as int)) == (i - from) + line_len(v@.skip(i as int)),
        decreases v.len() - i,
    {
        assert(v@.skip(i as int).drop_first() =~= v@.skip(i + 1));
        i += 1;
    }
    assert(v@.skip(from as int).take(i - from) =~= v@.subrange(from as int, i as int));
    i
}

/// Where the value of the directive `keyword` stands on the line from `from`
/// to `to`, if the line holds that directive.
fn directive_on_line(v: &Vec<char>, from: usize, to: usize, keyword: &Vec<char>) -> (r: Option<
    (usize, usize),
>)
    requires
        from <= to <= v.len(),
    ensures
        r is Some <==> directive_value(v@.subrange(from as int, to as int), keyword@) is Some,
        r matches Some((a, b)) ==> a < b <= v.len() && v@.subrange(a as int, b as int)
            == directive_value(v@.subrange(from as int, to as int), keyword@)->Some_0,
{
    let ghost line = v@.subrange(from as int, to as int);
    let ghost body = text::without_leading_whitespace(line);
    let p = skip_whitespace(v, from, to);
    let q = word_end(v, p, to);
    assert(body.skip(q - p) =~= v@.subrange(q as int, to as int));
    let a = skip_whitespace(v, q, to);
    let b = word_end(v, a, to);
    let is_keyword = q - p == keyword.len() && text::occurs_at(v, p, keyword);
    proof {
        let word = leading_word(body);
        assert(word == v@.subrange(p as int, q as int));
        if is_keyword {
            assert(word =~= keyword@) by {
                assert(keyword@ =~= v@.skip(p as int).subrange(0, keyword@.len() as int));
            }
        } else if q - p == keyword.len() {
            if word == keyword@ {
                assert(keyword@ =~= v@.skip(p as int).subrange(0, keyword@.len() as int));
            }
        }
    }
    if is_keyword && b > a {
        Some((a, b))
    } else {
        None
    }
}

/// Where the value of the first directive `keyword` stands in `v`, if `v`
/// holds that directive.
fn find_directive(v: &Vec<char>, keyword: &Vec<char>) -> (r: Option<(usize, usize)>)
    ensures
        r is Some <==> first_directive(v@, keyword@) is Some,
        r matches Some((a, b)) ==> a < b <= v.len() && v@.subrange(a as int, b as int)
            == first_directive(v@, keyword@)->Some_0,
{
    let mut pos: usize = 0;
    assert(v@.skip(0) =~= v@);
    loop
        invariant
            pos <= v.len(),
            first_directive(v@, keyword@) == first_directive(v@.skip(pos as int), keyword@),
        decreases v.len() - pos,
    {
        let end = line_end(v, pos);
        let found = directive_on_line(v, pos, end, keyword);
        if found.is_some() {
            return found;
        }
        if end >= v.len() {
            return None;
        }
        assert(v@.skip(pos as int).skip(line_len(v@.skip(pos as int)) as int + 1) =~= v@.skip(end + 1));
        pos = end + 1;
    }
}

/// The version that the manifest `content` asks for, if it asks for one.
pub fn manifest_version(content: &str) -> (r: Option<String>)
    ensures
        r is Some <==> manifest_version_of(content@) is Some,
        r is Some ==> r->Some_0@ == manifest_version_of(content@)->Some_0,
        r is Some ==> r->Some_0@.len() > 0,
{
    let v = text::chars_of(content);
    let toolchain_word = text::chars_of("toolchain");
    let go_word = text::chars_of("go");
    match find_directive(&v, &toolchain_word) {
        Some((a, b)) => {
            let named = text::strip_leading(content.substring_char(a, b), "go");
            if named.unicode_len() > 0 {
                return Some(String::from_str(named));
            }
        },
        None => {},
    }
    match find_directive(&v, &go_word) {
        Some((a, b)) => Some(String::from_str(content.substring_char(a, b))),
        None => None,
    }
}

} // verus!
