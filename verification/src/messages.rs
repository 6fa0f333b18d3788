//! The message that a failed validation is reported with: one part per field
//! that has errors, joined by " | ".

use vstd::prelude::*;
use validator::ValidationErrors;
use crate::validation::{
    FieldErrors, codes_view, field_error_codes, field_errors, is_field_walk, walk_view,
};

verus! {

/// The message of an error that is the server's fault, not the request's.
pub const SERVER_ERROR: &'static str = "Server error occurred";

/// The message of the one error code `code`.
pub open spec fn code_message(code: Seq<char>) -> Seq<char> {
    if code == "email"@ {
        "Email is invalid"@
    } else if code == "length"@ {
        "Password should be between 6 - 50 characters"@
    } else {
        code
    }
}

/// The message of a field: that of its last error whose code is borrowed, or
/// the empty string when it has none.
pub open spec fn field_message(codes: Seq<Option<Seq<char>>>) -> Seq<char>
    decreases codes.len(),
{
    if codes.len() == 0 {
        Seq::empty()
    } else {
        match codes.last() {
            Some(code) => code_message(code),
            None => field_message(codes.drop_last()),
        }
    }
}

/// `parts` joined, with `sep` between each two of them.
pub open spec fn joined(parts: Seq<Seq<char>>, sep: Seq<char>) -> Seq<char>
    decreases parts.len(),
{
    if parts.len() == 0 {
        Seq::empty()
    } else if parts.len() == 1 {
        parts[0]
    } else {
        joined(parts.drop_last(), sep) + sep + parts.last()
    }
}

/// The messages of the fields of `walk`, in its order.
pub open spec fn field_messages(walk: Seq<(Seq<char>, Seq<Option<Seq<char>>>)>) -> Seq<Seq<char>> {
    walk.map_values(|entry: (Seq<char>, Seq<Option<Seq<char>>>)| field_message(entry.1))
}

/// The message for the fields of `walk`, in its order.
pub open spec fn walk_message(walk: Seq<(Seq<char>, Seq<Option<Seq<char>>>)>) -> Seq<char> {
    joined(field_messages(walk), " | "@)
}

/// Whether two strings hold the same characters.
pub fn str_equal(a: &str, b: &str) -> (equal: bool)
    ensures
        equal == (a@ == b@),
{
    let n = a.unicode_len();
    if n != b.unicode_len() {
        return false;
    }
    for i in 0..n
        invariant
            n == a@.len(),
            n == b@.len(),
            forall|j: int| 0 <= j < i ==> a@[j] == b@[j],
    {
        if a.get_char(i) != b.get_char(i) {
            return false;
        }
    }
    assert(a@ =~= b@);
    true
}

/// The message of one error code.
fn code_to_message(code: &'static str) -> (message: &'static str)
    ensures
        message@ == code_message(code@),
{
    if str_equal(code, "email") {
        "Email is invalid"
    } else if str_equal(code, "length") {
        "Password should be between 6 - 50 characters"
    } else {
        code
    }
}

/// The message of a field, from the codes of its errors.
fn codes_to_message(codes: &Vec<Option<&'static str>>) -> (message: &'static str)
    ensures
        message@ == field_message(codes_view(codes@)),
{
    let mut message: &'static str = "";
    proof {
        reveal_strlit("");
        assert(codes_view(codes@.take(0)) =~= Seq::<Option<Seq<char>>>::empty());
    }
    for i in 0..codes.len()
        invariant
            message@ == field_message(codes_view(codes@.take(i as int))),
    {
        if let Some(code) = codes[i] {
            message = code_to_message(code);
        }
        assert(codes_view(codes@.take(i + 1)).drop_last() =~= codes_view(codes@.take(i as int)));
    }
    assert(codes@.take(codes.len() as int) =~= codes@);
    message
}

/// The messages of `entries`, joined by " | " in their order.
fn join_field_messages(entries: &Vec<FieldErrors>) -> (message: String)
    ensures
        message@ == walk_message(walk_view(entries@)),
{
    let mut message = String::new();
    for i in 0..entries.len()
        invariant
            message@ == walk_message(walk_view(entries@.take(i as int))),
    {
        let part = codes_to_message(&entries[i].codes);
        let ghost before = walk_view(entries@.take(i as int));
        let ghost after = walk_view(entries@.take(i + 1));
        assert(field_messages(after).drop_last() =~= field_messages(before));
        if i > 0 {
            message.append(" | ");
        }
        message.append(part);
        proof {
            reveal_strlit(" | ");
            assert(field_messages(after).last() == part@);
            if i == 0 {
                assert(field_messages(after).len() == 1);
                assert(message@ =~= part@);
            }
        }
    }
    assert(entries@.take(entries.len() as int) =~= entries@);
    message
}

/// The message for a failed validation: the message of each field that has
/// field-level errors, joined by " | ". The fields come in the order in which
/// the collection is walked, which nothing fixes.
pub fn extractValidationErrorMessages(error: ValidationErrors) -> (message: String)
    ensures
        exists|walk: Seq<(Seq<char>, Seq<Option<Seq<char>>>)>|
            #[trigger] is_field_walk(field_error_codes(error), walk) && message@ == walk_message(walk),
{
    let entries = field_errors(&error);
    let message = join_field_messages(&entries);
    assert(is_field_walk(field_error_codes(error), walk_view(entries@)));
    message
}

/// Two walks of the same field errors give the same field messages, each as
/// often, whatever their orders: two messages for the same errors differ at
/// most in the order of their parts.
pub proof fn lemma_walks_give_same_parts(
    fields: Map<Seq<char>, Seq<Option<Seq<char>>>>,
    first: Seq<(Seq<char>, Seq<Option<Seq<char>>>)>,
    second: Seq<(Seq<char>, Seq<Option<Seq<char>>>)>,
)
    requires
        is_field_walk(fields, first),
        is_field_walk(fields, second),
    ensures
        field_messages(first).to_multiset() == field_messages(second).to_multiset(),
    decreases first.len(),
{
    broadcast use vstd::seq_lib::group_to_multiset_ensures;
    if first.len() == 0 {
        assert(field_messages(first) =~= Seq::<Seq<char>>::empty());
        assert(field_messages(second) =~= Seq::<Seq<char>>::empty());
    } else {
        let last = first.len() - 1;
        let key = first[last].0;
        assert(fields.contains_key(key));
        let j = choose|j: int| 0 <= j < second.len() && second[j].0 == key;
        let rest = fields.remove(key);
        let first_rest = first.drop_last();
        let second_rest = second.remove(j);
        assert(rest.dom() =~= fields.dom().remove(key));
        assert forall|i: int| 0 <= i < first_rest.len() implies first_rest[i].0 != key by {
            assert(first_rest[i] == first[i]);
        }
        assert forall|i: int| 0 <= i < second_rest.len() implies second_rest[i].0 != key by {
            if i < j {
                assert(second_rest[i] == second[i]);
            } else {
                assert(second_rest[i] == second[i + 1]);
            }
        }
        assert forall|k: Seq<char>| #[trigger] rest.contains_key(k) implies exists|i: int|
            0 <= i < first_rest.len() && first_rest[i].0 == k by {
            let i = choose|i: int| 0 <= i < first.len() && first[i].0 == k;
            assert(first_rest[i] == first[i]);
        }
        assert forall|k: Seq<char>| #[trigger] rest.contains_key(k) implies exists|i: int|
            0 <= i < second_rest.len() && second_rest[i].0 == k by {
            let i = choose|i: int| 0 <= i < second.len() && second[i].0 == k;
            if i < j {
                assert(second_rest[i] == second[i]);
            } else {
                assert(second_rest[i - 1] == second[i]);
            }
        }
        assert forall|a: int, b: int| 0 <= a < b < second_rest.len() implies
            #[trigger] second_rest[a].0 != #[trigger] second_rest[b].0 by {
            let a2 = if a < j { a } else { a + 1 };
            let b2 = if b < j { b } else { b + 1 };
            assert(second_rest[a] == second[a2]);
            assert(second_rest[b] == second[b2]);
        }
        assert(is_field_walk(rest, first_rest));
        assert(is_field_walk(rest, second_rest));
        lemma_walks_give_same_parts(rest, first_rest, second_rest);
        assert(field_messages(first) =~= field_messages(first_rest).push(field_message(first[last].1)));
        assert(field_messages(second_rest) =~= field_messages(second).remove(j));
        assert(field_messages(second)[j] == field_message(first[last].1));
        assert(field_messages(second).to_multiset().count(field_messages(second)[j]) > 0);
        assert(field_messages(second).to_multiset() =~= field_messages(second).to_multiset().remove(
            field_messages(second)[j],
        ).insert(field_messages(second)[j]));
    }
}

} // verus!
