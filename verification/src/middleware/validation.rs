use crate::utils::error::{AppError, Failure};
use vstd::prelude::*;
use vstd::string::StringExecFns;

verus! {

/// A request that knows the rules for its own fields.
pub trait Validate {
    /// Every rule that the request breaks, in the order of its fields, each
    /// as the field's name, a colon and the rule's message.
    spec fn failures(&self) -> Seq<Seq<char>>;

    /// Checks every field and reports all failures, not only the first.
    fn validate(&self) -> (found: Vec<String>)
        ensures
            texts(found@) == self.failures(),
    ;
}

/// The characters of each of some strings.
pub open spec fn texts(strings: Seq<String>) -> Seq<Seq<char>> {
    Seq::new(strings.len(), |i: int| strings[i]@)
}

/// The parts written one after the other, with a comma and a space between
/// each two.
pub open spec fn joined(parts: Seq<Seq<char>>) -> Seq<char>
    decreases parts.len(),
{
    if parts.len() == 0 {
        Seq::empty()
    } else if parts.len() == 1 {
        parts[0]
    } else {
        joined(parts.drop_last()) + ", "@ + parts.last()
    }
}

/// Joins the failures of a request into one text.
pub fn join_failures(parts: &Vec<String>) -> (text: String)
    ensures
        text@ == joined(texts(parts@)),
{
    let mut text = String::new();
    let mut done: usize = 0;
    while done < parts.len()
        invariant
            done <= parts.len(),
            text@ == joined(texts(parts@).take(done as int)),
        decreases parts.len() - done,
    {
        let ghost before = texts(parts@).take(done as int);
        let ghost after = texts(parts@).take(done + 1);
        assert(after.drop_last() =~= before);
        assert(after.last() == parts[done as int]@);
        if done > 0 {
            text.append(", ");
        }
        text.append(parts[done].as_str());
        assert(text@ =~= joined(after)) by {
            if done > 0 {
                assert(joined(after) == joined(before) + ", "@ + after.last());
            } else {
                assert(before.len() == 0);
                assert(joined(before) =~= Seq::<char>::empty());
            }
        }
        done = done + 1;
    }
    assert(texts(parts@).take(done as int) =~= texts(parts@));
    text
}

/// Lets a request through where it breaks no rule of its fields, and else
/// fails with all the failures joined.
pub fn validate_request<T: Validate>(payload: T) -> (result: Result<T, AppError>)
    ensures
        payload.failures().len() == 0 ==> result == Ok::<T, AppError>(payload),
        payload.failures().len() > 0 ==> (result matches Err(error) && error@
            == Failure::Validation(joined(payload.failures()))),
{
    let found = payload.validate();
    assert(texts(found@).len() == found@.len());
    if found.len() == 0 {
        Ok(payload)
    } else {
        Err(AppError::Validation(join_failures(&found)))
    }
}

/// A single failure is reported as it is, and two with `, ` between them.
pub proof fn lemma_joined_small(first: Seq<char>, second: Seq<char>)
    ensures
        joined(seq![first]) == first,
        joined(seq![first, second]) == first + ", "@ + second,
{
    reveal_with_fuel(joined, 3);
    assert(seq![first, second].drop_last() =~= seq![first]);
}

} // verus!
