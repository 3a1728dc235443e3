use vstd::prelude::*;

use crate::ordered_map::OrderedMap;
use crate::text::{
    available_types_text, debug_quote, debug_quoted, lemma_available_types_none,
    lemma_available_types_two, unknown_type_text,
};

verus! {

/// No type is registered for a key: the report carries the key and every
/// registered key, in the order of registration.
#[derive(Debug)]
pub struct UnknownTypeError {
    subject: &'static str,
    type_key: String,
    available: Vec<String>,
}

impl UnknownTypeError {
    /// What the key is, in words: a type key, or a type.
    pub closed spec fn subject_spec(&self) -> Seq<char> {
        self.subject@
    }

    /// The key that no type is registered for, as text.
    pub closed spec fn type_key_spec(&self) -> Seq<char> {
        self.type_key@
    }

    /// The registered keys, as text, in the order of registration.
    pub closed spec fn available_spec(&self) -> Seq<Seq<char>> {
        Seq::new(self.available@.len(), |i: int| self.available@[i]@)
    }

    /// The report in words.
    pub open spec fn message_spec(&self) -> Seq<char> {
        unknown_type_text(self.subject_spec(), self.type_key_spec(), self.available_spec())
    }

    /// The report that no type is registered for `type_key` among `types`.
    /// `subject` says what the key is.
    pub fn new<V>(subject: &'static str, type_key: &str, types: &OrderedMap<V>) -> (error: Self)
        requires
            types.wf(),
        ensures
            error.subject_spec() == subject@,
            error.type_key_spec() == type_key@,
            error.available_spec() == types.keys(),
    {
        let n = types.len();
        let mut available: Vec<String> = Vec::new();
        let mut i: usize = 0;
        while i < n
            invariant
                types.wf(),
                n == types.keys().len(),
                i <= n,
                available@.len() == i,
                forall|j: int| 0 <= j < i ==> (#[trigger] available@[j])@ == types.keys()[j],
            decreases n - i,
        {
            available.push(types.key_at(i).clone());
            i += 1;
        }
        let error = UnknownTypeError { subject, type_key: type_key.to_owned(), available };
        proof {
            assert(error.available_spec() =~= types.keys());
        }
        error
    }

    /// The key that no type is registered for.
    pub fn type_key(&self) -> (type_key: &str)
        ensures
            type_key@ == self.type_key_spec(),
    {
        self.type_key.as_str()
    }

    /// The registered keys, in the order of registration.
    pub fn available(&self) -> (available: &Vec<String>)
        ensures
            available@.len() == self.available_spec().len(),
            forall|i: int|
                0 <= i < available@.len() ==> (#[trigger] available@[i])@ == self.available_spec()[i],
    {
        &self.available
    }

    /// The report in words: the key, as a quoted literal, and one line for
    /// each registered key.
    pub fn to_string(&self) -> (message: String)
        ensures
            message@ == self.message_spec(),
    {
        let ghost keys = self.available_spec();
        let mut message = String::new();
        message.push_str(self.subject);
        message.push_str(" `");
        let quoted = debug_quote(self.type_key.as_str());
        message.push_str(quoted.as_str());
        message.push_str("` not registered in type registry.\nAvailable types are:\n\n");
        let ghost head = message@;
        let n = self.available.len();
        let mut i: usize = 0;
        while i < n
            invariant
                keys == self.available_spec(),
                n == keys.len(),
                n == self.available@.len(),
                i <= n,
                message@ == head + available_types_text(keys.take(i as int)),
            decreases n - i,
        {
            let quoted_key = debug_quote(self.available[i].as_str());
            message.push_str("- ");
            message.push_str(quoted_key.as_str());
            message.push_str("\n");
            proof {
                assert(keys.take(i as int + 1).drop_last() =~= keys.take(i as int));
                assert(keys.take(i as int + 1).last() == self.available@[i as int]@);
                assert(message@ =~= head + available_types_text(keys.take(i as int + 1)));
            }
            i += 1;
        }
        message.push_str("\n");
        proof {
            assert(keys.take(n as int) =~= keys);
            assert(message@ =~= self.message_spec());
        }
        message
    }
}

/// With no type registered, the report of an unknown key lists no type: after
/// the line that names the key and the heading, it holds an empty line and
/// ends.
pub proof fn lemma_report_lists_no_type(error: UnknownTypeError)
    requires
        error.available_spec().len() == 0,
    ensures
        error.message_spec() == error.subject_spec() + " `"@ + debug_quoted(error.type_key_spec())
            + "` not registered in type registry.\nAvailable types are:\n\n"@ + "\n"@,
{
    assert(error.available_spec() =~= Seq::<Seq<char>>::empty());
    lemma_available_types_none();
    assert(error.message_spec() =~= error.subject_spec() + " `"@ + debug_quoted(
        error.type_key_spec(),
    ) + "` not registered in type registry.\nAvailable types are:\n\n"@ + "\n"@);
}

/// With two types registered, the report of an unknown key lists exactly
/// those two, in the order of registration, one on a line.
pub proof fn lemma_report_lists_two_types(error: UnknownTypeError, first: Seq<char>, second: Seq<char>)
    requires
        error.available_spec() == seq![first, second],
    ensures
        error.message_spec() == error.subject_spec() + " `"@ + debug_quoted(error.type_key_spec())
            + "` not registered in type registry.\nAvailable types are:\n\n"@ + ("- "@
            + debug_quoted(first) + "\n"@ + "- "@ + debug_quoted(second) + "\n"@) + "\n"@,
{
    lemma_available_types_two(first, second);
}

} // verus!
