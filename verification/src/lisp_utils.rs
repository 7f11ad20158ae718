//! Names and list order of the values handed to the editor runtime.

use crate::text::{push_char, push_chars};
use vstd::prelude::*;

verus! {

/// A name without the underscores at its end.
pub open spec fn trimmed(name: Seq<char>) -> Seq<char>
    decreases name.len(),
{
    if name.len() > 0 && name.last() == '_' {
        trimmed(name.drop_last())
    } else {
        name
    }
}

/// A name with a hyphen in place of each underscore.
pub open spec fn hyphenated(name: Seq<char>) -> Seq<char> {
    name.map_values(
        |c: char|
            if c == '_' {
                '-'
            } else {
                c
            },
    )
}

/// Whether a name begins with the prefix `is-`.
pub open spec fn has_is_prefix(name: Seq<char>) -> bool {
    name.len() >= 3 && name[0] == 'i' && name[1] == 's' && name[2] == '-'
}

/// A name that begins with `is-` loses that prefix and gains the predicate
/// suffix `-p`; any other name stays as it is.
pub open spec fn predicate_form(name: Seq<char>) -> Seq<char> {
    if has_is_prefix(name) {
        name.subrange(3, name.len() as int) + seq!['-', 'p']
    } else {
        name
    }
}

/// The externally visible name of a record field: a colon, then the field's
/// name without the underscores at its end, with hyphens for underscores,
/// and in predicate form.
pub open spec fn keyword_name(field: Seq<char>) -> Seq<char> {
    seq![':'] + predicate_form(hyphenated(trimmed(field)))
}

/// How many characters of the name are left without the underscores at its
/// end.
fn trimmed_len(name: &str) -> (end: usize)
    ensures
        end <= name@.len(),
        trimmed(name@) == name@.subrange(0, end as int),
{
    let mut end = name.unicode_len();
    assert(name@.subrange(0, end as int) =~= name@);
    while end > 0
        invariant
            end <= name@.len(),
            trimmed(name@) == trimmed(name@.subrange(0, end as int)),
        ensures
            end <= name@.len(),
            trimmed(name@) == name@.subrange(0, end as int),
        decreases end,
    {
        let ghost kept = name@.subrange(0, end as int);
        if name.get_char(end - 1) != '_' {
            assert(kept.last() != '_');
            break;
        }
        assert(kept.last() == '_');
        assert(kept.drop_last() =~= name@.subrange(0, end - 1));
        end = end - 1;
    }
    end
}

/// The externally visible name of a record field.
pub fn property_name_to_lisp(s: &str) -> (name: String)
    ensures
        name@ == keyword_name(s@),
{
    let end = trimmed_len(s);
    let mut body: Vec<char> = Vec::new();
    let mut i: usize = 0;
    while i < end
        invariant
            i <= end <= s@.len(),
            body@ == hyphenated(s@.subrange(0, i as int)),
        decreases end - i,
    {
        let c = s.get_char(i);
        body.push(
            if c == '_' {
                '-'
            } else {
                c
            },
        );
        assert(body@ =~= hyphenated(s@.subrange(0, i + 1)));
        i = i + 1;
    }
    let mut name = String::new();
    push_char(&mut name, ':');
    if body.len() >= 3 && body[0] == 'i' && body[1] == 's' && body[2] == '-' {
        let mut rest: Vec<char> = Vec::new();
        let mut j: usize = 3;
        while j < body.len()
            invariant
                3 <= j <= body.len(),
                rest@ == body@.subrange(3, j as int),
            decreases body.len() - j,
        {
            rest.push(body[j]);
            assert(rest@ =~= body@.subrange(3, j + 1));
            j = j + 1;
        }
        rest.push('-');
        rest.push('p');
        assert(rest@ =~= predicate_form(body@));
        push_chars(&mut name, &rest);
    } else {
        push_chars(&mut name, &body);
    }
    assert(name@ =~= keyword_name(s@));
    name
}

/// The elements of the list that the runtime receives: those of the given
/// list in their order, and none for a missing list.
pub fn vec_into_lisp<T>(vec: Option<Vec<T>>) -> (list: Vec<T>)
    ensures
        list@ == match vec {
            Some(items) => items@,
            None => Seq::empty(),
        },
{
    match vec {
        Some(items) => items,
        None => Vec::new(),
    }
}

/// An underscore at the end of a field's name does not show in its
/// external name.
pub proof fn lemma_trailing_underscore_is_dropped(field: Seq<char>)
    ensures
        trimmed(field.push('_')) == trimmed(field),
        keyword_name(field.push('_')) == keyword_name(field),
{
    assert(field.push('_').drop_last() =~= field);
}

/// Trimming leaves a name that does not end in an underscore, and leaves
/// such a name as it is.
pub proof fn lemma_trimmed_has_no_trailing_underscore(field: Seq<char>)
    ensures
        trimmed(field).len() == 0 || trimmed(field).last() != '_',
        (field.len() == 0 || field.last() != '_') ==> trimmed(field) == field,
    decreases field.len(),
{
    if field.len() > 0 && field.last() == '_' {
        lemma_trimmed_has_no_trailing_underscore(field.drop_last());
    }
}

/// A field whose name is `is_` and a rest that does not end in an
/// underscore has the external name of the rest, followed by the predicate
/// suffix.
pub proof fn lemma_is_prefix_becomes_predicate_suffix(rest: Seq<char>)
    requires
        rest.len() > 0,
        rest.last() != '_',
    ensures
        keyword_name(seq!['i', 's', '_'] + rest) == seq![':'] + hyphenated(rest) + seq!['-', 'p'],
{
    let field = seq!['i', 's', '_'] + rest;
    assert(field.last() == rest.last());
    let h = hyphenated(field);
    assert(has_is_prefix(h));
    assert(h.subrange(3, h.len() as int) =~= hyphenated(rest));
}

/// No external name holds an underscore.
pub proof fn lemma_external_name_has_no_underscore(field: Seq<char>, i: int)
    requires
        0 <= i < keyword_name(field).len(),
    ensures
        keyword_name(field)[i] != '_',
{
}

} // verus!
