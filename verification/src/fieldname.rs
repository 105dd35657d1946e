//! Field names for the collector, made from email addresses.

use vstd::prelude::*;

verus! {

/// The characters a field name may hold: the ASCII letters and digits, and
/// the underscore.
pub open spec fn is_field_char(c: char) -> bool {
    ('A' <= c && c <= 'Z') || ('a' <= c && c <= 'z') || ('0' <= c && c <= '9') || c == '_'
}

/// The characters a field name may start with: the ASCII letters and the
/// underscore.
pub open spec fn is_field_start(c: char) -> bool {
    ('A' <= c && c <= 'Z') || ('a' <= c && c <= 'z') || c == '_'
}

/// `c` where a field name may hold it, an underscore in its place where not.
pub open spec fn sanitized_char(c: char) -> char {
    if is_field_char(c) {
        c
    } else {
        '_'
    }
}

/// `text` with each character a field name may not hold replaced by an
/// underscore.
pub open spec fn sanitized(text: Seq<char>) -> Seq<char> {
    Seq::new(text.len(), |i: int| sanitized_char(text[i]))
}

/// The field name of `text`: its sanitized form, behind one more underscore
/// where that form starts with a digit.
pub open spec fn field_name(text: Seq<char>) -> Seq<char> {
    let plain = sanitized(text);
    if plain.len() > 0 && !is_field_start(plain[0]) {
        seq!['_'] + plain
    } else {
        plain
    }
}

fn field_char(c: char) -> (ok: bool)
    ensures
        ok == is_field_char(c),
{
    ('A' <= c && c <= 'Z') || ('a' <= c && c <= 'z') || ('0' <= c && c <= '9') || c == '_'
}

fn field_start(c: char) -> (ok: bool)
    ensures
        ok == is_field_start(c),
{
    ('A' <= c && c <= 'Z') || ('a' <= c && c <= 'z') || c == '_'
}

/// Derives the field name under which an identity is reported. Every
/// character outside `[A-Za-z0-9_]` becomes an underscore, and a name that
/// would start with a digit gets an underscore in front. The result holds
/// only characters of that class and never starts with a digit.
pub fn clean_fieldname(text: &str) -> (name: String)
    ensures
        name@ == field_name(text@),
        forall|i: int| 0 <= i < name@.len() ==> is_field_char(#[trigger] name@[i]),
        name@.len() > 0 ==> is_field_start(name@[0]),
        name@.len() == 0 <==> text@.len() == 0,
{
    let mut name = String::new();
    let mut first = true;
    for c in iter: text.chars()
        invariant
            iter.seq() == text@,
            first == (iter.index() == 0),
            name@ == field_name(text@.take(iter.index() as int)),
    {
        let kept = if field_char(c) { c } else { '_' };
        if first && !field_start(kept) {
            name.push('_');
        }
        name.push(kept);
        first = false;
    }
    name
}

} // verus!
