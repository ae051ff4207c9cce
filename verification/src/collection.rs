//! The operations on a collection of people: an ordered list in which a
//! person is found by position, counted from 0.

use crate::error::DbError;
use crate::person::Person;
use vstd::prelude::*;

verus! {

/// Appends a person at the end. This never fails.
pub fn add_person(people: &mut Vec<Person>, person: Person) -> (r: Result<(), DbError>)
    ensures
        r is Ok,
        final(people)@ == old(people)@.push(person),
{
    people.push(person);
    Ok(())
}

/// Removes the person at a position; those behind move one position down.
/// A position that is not in the collection is an index error that holds
/// the position, and the collection stays as it was.
pub fn delete_person(people: &mut Vec<Person>, index: usize) -> (r: Result<(), DbError>)
    ensures
        index < old(people)@.len() ==> r is Ok
            && final(people)@ == old(people)@.remove(index as int)
            && final(people)@.len() == old(people)@.len() - 1,
        index >= old(people)@.len() ==> r == Err::<(), DbError>(DbError::Index(index))
            && final(people)@ == old(people)@,
{
    if index < people.len() {
        people.remove(index);
        Ok(())
    } else {
        Err(DbError::Index(index))
    }
}

/// Puts a person in the place of the one at a position. A position that is
/// not in the collection is an index error that holds the position, and
/// the collection stays as it was.
pub fn edit_person(people: &mut Vec<Person>, index: usize, person: Person) -> (r: Result<
    (),
    DbError,
>)
    ensures
        index < old(people)@.len() ==> r is Ok
            && final(people)@ == old(people)@.update(index as int, person),
        index >= old(people)@.len() ==> r == Err::<(), DbError>(DbError::Index(index))
            && final(people)@ == old(people)@,
{
    if index < people.len() {
        people[index] = person;
        Ok(())
    } else {
        Err(DbError::Index(index))
    }
}

/// After a person is added, the collection is one longer, the person is
/// its last, and the others are where they were.
pub proof fn lemma_add_keeps_the_others(people: Seq<Person>, person: Person)
    ensures
        people.push(person).len() == people.len() + 1,
        people.push(person).last() == person,
        forall|i: int| 0 <= i < people.len() ==> people.push(person)[i] == people[i],
{
}

/// After the person at a position is removed, those before it are where
/// they were and those behind it are one position lower.
pub proof fn lemma_delete_shifts_down(people: Seq<Person>, index: int)
    requires
        0 <= index < people.len(),
    ensures
        people.remove(index).len() == people.len() - 1,
        forall|i: int| 0 <= i < index ==> people.remove(index)[i] == people[i],
        forall|i: int| index <= i < people.len() - 1 ==> people.remove(index)[i] == people[i + 1],
{
}

/// After the person at a position is replaced, the collection has the same
/// length, the new person at that position, and the others where they were.
pub proof fn lemma_edit_replaces_one(people: Seq<Person>, index: int, person: Person)
    requires
        0 <= index < people.len(),
    ensures
        people.update(index, person).len() == people.len(),
        people.update(index, person)[index] == person,
        forall|i: int|
            0 <= i < people.len() && i != index ==> people.update(index, person)[i] == people[i],
{
}

} // verus!
