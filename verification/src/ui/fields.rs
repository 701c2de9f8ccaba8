//! A line of text as blank-separated fields.

use vstd::prelude::*;

verus! {

/// White space, the characters at which a text is split into fields: the
/// blank, the controls from tab to carriage return, and the other spaces
/// and line separators of Unicode.
pub open spec fn is_blank(c: char) -> bool {
    c == ' ' || ('\u{9}' <= c && c <= '\u{d}') || c == '\u{85}' || c == '\u{a0}' || c == '\u{1680}'
        || ('\u{2000}' <= c && c <= '\u{200a}') || c == '\u{2028}' || c == '\u{2029}' || c
        == '\u{202f}' || c == '\u{205f}' || c == '\u{3000}'
}

/// Whether the character is white space.
pub fn blank(c: char) -> (r: bool)
    ensures
        r == is_blank(c),
{
    c == ' ' || ('\u{9}' <= c && c <= '\u{d}') || c == '\u{85}' || c == '\u{a0}' || c == '\u{1680}'
        || ('\u{2000}' <= c && c <= '\u{200a}') || c == '\u{2028}' || c == '\u{2029}' || c
        == '\u{202f}' || c == '\u{205f}' || c == '\u{3000}'
}

/// The text ends in the middle of a field.
pub open spec fn ends_in_field(s: Seq<char>) -> bool {
    s.len() > 0 && !is_blank(s.last())
}

/// The fields of a text, in order: its longest runs of characters that are
/// not white space.
pub open spec fn fields(s: Seq<char>) -> Seq<Seq<char>>
    decreases s.len(),
{
    if s.len() == 0 {
        Seq::empty()
    } else {
        let before = fields(s.drop_last());
        if is_blank(s.last()) {
            before
        } else if ends_in_field(s.drop_last()) && before.len() > 0 {
            before.drop_last().push(before.last().push(s.last()))
        } else {
            before.push(seq![s.last()])
        }
    }
}

/// A text that ends in the middle of a field has a field.
pub proof fn lemma_open_field_exists(s: Seq<char>)
    requires
        ends_in_field(s),
    ensures
        fields(s).len() > 0,
{
}

/// A text has at least as many fields as any of its beginnings.
pub proof fn lemma_fields_grow(s: Seq<char>, i: int)
    requires
        0 <= i <= s.len(),
    ensures
        fields(s.take(i)).len() <= fields(s).len(),
    decreases s.len(),
{
    if i == s.len() {
        assert(s.take(i) =~= s);
    } else {
        assert(s.take(i) =~= s.drop_last().take(i));
        lemma_fields_grow(s.drop_last(), i);
    }
}

/// One more character at the end of a text: white space changes no field, a
/// character after white space begins a field, a character after a field
/// goes on with it.
pub proof fn lemma_fields_push(s: Seq<char>, c: char)
    ensures
        is_blank(c) ==> fields(s.push(c)) == fields(s),
        !is_blank(c) && ends_in_field(s) ==> fields(s).len() > 0 && fields(s.push(c)) == fields(
            s,
        ).drop_last().push(fields(s).last().push(c)),
        !is_blank(c) && !ends_in_field(s) ==> fields(s.push(c)) == fields(s).push(seq![c]),
        ends_in_field(s.push(c)) == !is_blank(c),
{
    assert(s.push(c).drop_last() =~= s);
    if ends_in_field(s) {
        lemma_open_field_exists(s);
    }
}

/// The three fields of a text that has exactly three.
pub open spec fn three_fields(s: Seq<char>) -> Option<(Seq<char>, Seq<char>, Seq<char>)> {
    if fields(s).len() == 3 {
        Some((fields(s)[0], fields(s)[1], fields(s)[2]))
    } else {
        None
    }
}

/// Splits a text into its three fields; none where it has fewer or more.
pub fn split_three(text: &str) -> (r: Option<(String, String, String)>)
    ensures
        r is Some <==> fields(text@).len() == 3,
        r matches Some(t) ==> three_fields(text@) == Some((t.0@, t.1@, t.2@)),
{
    let n: usize = text.unicode_len();
    let mut first: String = String::new();
    let mut second: String = String::new();
    let mut third: String = String::new();
    let mut count: usize = 0;
    let mut in_field: bool = false;
    let mut i: usize = 0;
    assert(text@.take(0) =~= Seq::<char>::empty());
    while i < n
        invariant
            i <= n,
            n == text@.len(),
            count == fields(text@.take(i as int)).len(),
            count <= 3,
            in_field == ends_in_field(text@.take(i as int)),
            count >= 1 ==> first@ == fields(text@.take(i as int))[0],
            count >= 2 ==> second@ == fields(text@.take(i as int))[1],
            count >= 3 ==> third@ == fields(text@.take(i as int))[2],
        decreases n - i,
    {
        let ch: char = text.get_char(i);
        proof {
            assert(text@.take(i + 1) =~= text@.take(i as int).push(ch));
            lemma_fields_push(text@.take(i as int), ch);
        }
        if blank(ch) {
            in_field = false;
        } else if in_field {
            if count == 1 {
                first.push(ch);
            } else if count == 2 {
                second.push(ch);
            } else {
                third.push(ch);
            }
        } else {
            if count == 3 {
                proof {
                    lemma_fields_grow(text@, i + 1);
                }
                return None;
            }
            let mut field: String = String::new();
            field.push(ch);
            assert(field@ =~= seq![ch]);
            if count == 0 {
                first = field;
            } else if count == 1 {
                second = field;
            } else {
                third = field;
            }
            count = count + 1;
            in_field = true;
        }
        i = i + 1;
    }
    assert(text@.take(n as int) =~= text@);
    if count == 3 {
        Some((first, second, third))
    } else {
        None
    }
}

} // verus!
