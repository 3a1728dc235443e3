//! Building text: appending, and rendering a key or a name as a quoted
//! literal.

use vstd::prelude::*;

verus! {

/// `String::push_str`: appends `other` to the string.
pub assume_specification[ String::push_str ](s: &mut String, other: &str)
    ensures
        final(s)@ == old(s)@ + other@,
;

/// What `std::fmt::Debug` makes of a string: the text between double quotes,
/// with the characters that need it escaped.
pub uninterp spec fn debug_quoted(s: Seq<char>) -> Seq<char>;

/// `<str as std::fmt::Debug>::fmt`, collected into a `String`.
#[verifier::external_body]
pub(crate) fn debug_quote(s: &str) -> (r: String)
    ensures
        r@ == debug_quoted(s@),
{
    format!("{:?}", s)
}

/// `<T as std::fmt::Debug>::fmt`, collected into a `String`. Nothing is
/// claimed of the text: it is what the type makes of itself.
#[verifier::external_body]
pub(crate) fn debug_string<T: std::fmt::Debug>(t: &T) -> String {
    format!("{:?}", t)
}

/// One entry of a map as `std::fmt::DebugMap` writes it: after the first
/// entry a comma and a space, then the key as a quoted literal, a colon and a
/// space, and the rendered value.
pub open spec fn debug_entry_text(separated: bool, key: Seq<char>, value: Seq<char>) -> Seq<char> {
    (if separated {
        ", "@
    } else {
        Seq::empty()
    }) + debug_quoted(key) + ": "@ + value
}

/// The entries of a map as `std::fmt::DebugMap` writes them, one after the
/// other, `values` being the rendered values.
pub open spec fn debug_map_body(keys: Seq<Seq<char>>, values: Seq<Seq<char>>) -> Seq<char>
    decreases keys.len(),
{
    if keys.len() == 0 || keys.len() != values.len() {
        Seq::empty()
    } else {
        debug_map_body(keys.drop_last(), values.drop_last()) + debug_entry_text(
            keys.len() > 1,
            keys.last(),
            values.last(),
        )
    }
}

/// A map as `std::fmt::DebugMap` writes it: its entries between braces.
pub open spec fn debug_map_text(keys: Seq<Seq<char>>, values: Seq<Seq<char>>) -> Seq<char> {
    "{"@ + debug_map_body(keys, values) + "}"@
}

/// A stored value as it is shown when debugging: the name of its type, and a
/// placeholder in place of the value.
pub open spec fn typed_value_text(name: Seq<char>) -> Seq<char> {
    "TypedValue { type: "@ + debug_quoted(name) + ", value: \"..\" }"@
}

/// An optional stored value as it is shown when debugging.
pub open spec fn typed_value_opt_text(name: Option<Seq<char>>) -> Seq<char> {
    match name {
        Some(name) => "Some("@ + typed_value_text(name) + ")"@,
        None => "None"@,
    }
}

/// Taking the first `i + 1` entries adds the entry at `i` to the first `i`.
pub proof fn lemma_debug_map_body_step(keys: Seq<Seq<char>>, values: Seq<Seq<char>>, i: int)
    requires
        keys.len() == values.len(),
        0 <= i < keys.len(),
    ensures
        debug_map_body(keys.take(i + 1), values.take(i + 1)) == debug_map_body(
            keys.take(i),
            values.take(i),
        ) + debug_entry_text(i > 0, keys[i], values[i]),
{
    assert(keys.take(i + 1).drop_last() =~= keys.take(i));
    assert(values.take(i + 1).drop_last() =~= values.take(i));
}

/// Appends one entry of a map, as `std::fmt::DebugMap` writes it.
pub fn push_debug_entry(out: &mut String, separated: bool, key: &str, value: &str)
    ensures
        final(out)@ == old(out)@ + debug_entry_text(separated, key@, value@),
{
    if separated {
        out.push_str(", ");
    }
    let quoted = debug_quote(key);
    out.push_str(quoted.as_str());
    out.push_str(": ");
    out.push_str(value);
    proof {
        assert(out@ =~= old(out)@ + debug_entry_text(separated, key@, value@));
    }
}

/// A stored value as it is shown when debugging.
pub fn typed_value_string(name: &str) -> (s: String)
    ensures
        s@ == typed_value_text(name@),
{
    let mut s = String::new();
    s.push_str("TypedValue { type: ");
    let quoted = debug_quote(name);
    s.push_str(quoted.as_str());
    s.push_str(", value: \"..\" }");
    proof {
        assert(s@ =~= typed_value_text(name@));
    }
    s
}

/// One line for each registered key, in the order of registration: a dash, a
/// space, the key as a quoted literal, and a line break.
pub open spec fn available_types_text(keys: Seq<Seq<char>>) -> Seq<char>
    decreases keys.len(),
{
    if keys.len() == 0 {
        Seq::empty()
    } else {
        available_types_text(keys.drop_last()) + "- "@ + debug_quoted(keys.last()) + "\n"@
    }
}

/// What is reported of a key that no type was registered for: the key, as a
/// quoted literal, and every registered key. `subject` says what the key is.
pub open spec fn unknown_type_text(
    subject: Seq<char>,
    type_key: Seq<char>,
    keys: Seq<Seq<char>>,
) -> Seq<char> {
    subject + " `"@ + debug_quoted(type_key)
        + "` not registered in type registry.\nAvailable types are:\n\n"@
        + available_types_text(keys) + "\n"@
}

/// With no key registered the report lists no type.
pub proof fn lemma_available_types_none()
    ensures
        available_types_text(Seq::empty()) == Seq::<char>::empty(),
{
}

/// With two keys registered the report lists exactly those two, in the order
/// of registration.
pub proof fn lemma_available_types_two(first: Seq<char>, second: Seq<char>)
    ensures
        available_types_text(seq![first, second]) == "- "@ + debug_quoted(first) + "\n"@ + "- "@
            + debug_quoted(second) + "\n"@,
{
    let both = seq![first, second];
    let one = seq![first];
    assert(both.drop_last() =~= one);
    assert(one.drop_last() =~= Seq::<Seq<char>>::empty());
    assert(both.last() == second);
    assert(one.last() == first);
    assert(available_types_text(one) =~= "- "@ + debug_quoted(first) + "\n"@) by {
        reveal_with_fuel(available_types_text, 2);
    }
    assert(available_types_text(both) =~= available_types_text(one) + "- "@ + debug_quoted(second)
        + "\n"@);
}

} // verus!
