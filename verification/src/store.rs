//! A collection of people as stored text: a header row, then a row for
//! each person, in the order of the collection.

use crate::csv_text::{
    csv_records, joined_fields, needs_quotes, read_records, write_records, written_row,
    written_rows,
};
use vstd::pervasive::unreached;
use crate::error::DbError;
use crate::person::{header_row, lemma_row_round_trip, people_views, Person, PersonView};
use crate::text::same_text;
use vstd::prelude::*;
use vstd::utf8::encode_utf8;
use vstd::string::*;

verus! {

/// The rows under which a collection is stored: the header, then the people.
pub open spec fn rows_of_people(people: Seq<PersonView>) -> Seq<Seq<Seq<char>>> {
    seq![header_row()] + people.map_values(|p: PersonView| p.to_row())
}

/// Every row after the first stands for a person.
pub open spec fn all_rows_parse(rows: Seq<Seq<Seq<char>>>) -> bool {
    forall|i: int| 1 <= i < rows.len() ==> (#[trigger] PersonView::from_row(rows[i])) is Some
}

/// The collection that rows stand for. The first row must be the header,
/// and one row that stands for no person makes the whole a format error.
pub open spec fn people_of_rows(rows: Seq<Seq<Seq<char>>>) -> Result<Seq<PersonView>, DbError> {
    if rows.len() > 0 && rows[0] == header_row() && all_rows_parse(rows) {
        Ok(Seq::new((rows.len() - 1) as nat, |i: int| PersonView::from_row(rows[i + 1]).unwrap()))
    } else {
        Err(DbError::Format)
    }
}

/// The collection that a stored text stands for.
pub open spec fn people_of_text(data: Seq<u8>) -> Result<Seq<PersonView>, DbError> {
    match csv_records(data) {
        Some(rows) => people_of_rows(rows),
        None => Err(DbError::Format),
    }
}

/// The text under which a collection is stored, as bytes of UTF-8.
pub open spec fn text_of_people(people: Seq<PersonView>) -> Seq<u8> {
    encode_utf8(written_rows(rows_of_people(people)))
}

/// The header: the names of the four columns.
pub fn header_record() -> (r: Vec<String>)
    ensures
        r.deep_view() == header_row(),
{
    let mut r: Vec<String> = Vec::new();
    r.push("first_name".to_owned());
    r.push("last_name".to_owned());
    r.push("date_of_birth".to_owned());
    r.push("favorite_sport".to_owned());
    assert(r.deep_view() =~= header_row());
    r
}

/// Whether a row is the header.
pub fn is_header(row: &Vec<String>) -> (r: bool)
    ensures
        r == (row.deep_view() == header_row()),
{
    assert(header_row().len() == 4);
    assert(row.deep_view().len() == row@.len());
    if row.len() != 4 {
        return false;
    }
    assert(row.deep_view()[0] == row@[0]@);
    assert(row.deep_view()[1] == row@[1]@);
    assert(row.deep_view()[2] == row@[2]@);
    assert(row.deep_view()[3] == row@[3]@);
    let r = same_text(row[0].as_str(), "first_name") && same_text(row[1].as_str(), "last_name")
        && same_text(row[2].as_str(), "date_of_birth") && same_text(
        row[3].as_str(),
        "favorite_sport",
    );
    if r {
        assert(row.deep_view() =~= header_row());
    }
    r
}

/// The rows under which a collection is stored.
pub fn people_to_rows(people: &[Person]) -> (rows: Vec<Vec<String>>)
    ensures
        rows.deep_view() == rows_of_people(people_views(people@)),
{
    let mut rows: Vec<Vec<String>> = Vec::new();
    rows.push(header_record());
    let mut i: usize = 0;
    while i < people.len()
        invariant
            i <= people.len(),
            rows@.len() == i + 1,
            rows@[0].deep_view() == header_row(),
            forall|k: int| 0 <= k < i ==> (#[trigger] rows@[k + 1]).deep_view() == people@[k]@.to_row(),
        decreases people.len() - i,
    {
        rows.push(people[i].to_record());
        i += 1;
    }
    let ghost stored = rows_of_people(people_views(people@));
    assert(rows.deep_view().len() == stored.len());
    assert forall|k: int| 0 <= k < stored.len() implies rows.deep_view()[k] == stored[k] by {
        assert(rows.deep_view()[k] == rows@[k].deep_view());
        if k > 0 {
            assert(rows@[(k - 1) + 1].deep_view() == people@[k - 1]@.to_row());
            assert(stored[k] == people_views(people@)[k - 1].to_row());
        }
    }
    assert(rows.deep_view() =~= stored);
    rows
}

/// The collection that rows stand for; see [`people_of_rows`].
pub fn people_from_rows(rows: &Vec<Vec<String>>) -> (r: Result<Vec<Person>, DbError>)
    ensures
        match r {
            Ok(people) => people_of_rows(rows.deep_view()) == Ok::<Seq<PersonView>, DbError>(
                people_views(people@),
            ),
            Err(e) => people_of_rows(rows.deep_view()) == Err::<Seq<PersonView>, DbError>(e),
        },
{
    let ghost table = rows.deep_view();
    if rows.len() == 0 {
        return Err(DbError::Format);
    }
    assert(table[0] == rows@[0].deep_view());
    if !is_header(&rows[0]) {
        return Err(DbError::Format);
    }
    let mut people: Vec<Person> = Vec::new();
    let mut i: usize = 1;
    while i < rows.len()
        invariant
            1 <= i <= rows.len(),
            table == rows.deep_view(),
            people@.len() == i - 1,
            forall|k: int| 1 <= k < i ==> (#[trigger] PersonView::from_row(table[k])) is Some,
            forall|k: int|
                0 <= k < i - 1 ==> PersonView::from_row(table[k + 1]) == Some(
                    (#[trigger] people@[k])@,
                ),
        decreases rows.len() - i,
    {
        assert(table[i as int] == rows@[i as int].deep_view());
        match Person::from_record(&rows[i]) {
            Ok(p) => {
                people.push(p);
            },
            Err(e) => {
                assert(!all_rows_parse(table));
                return Err(e);
            },
        }
        i += 1;
    }
    assert(all_rows_parse(table));
    assert(people_views(people@) =~= Seq::new(
        (table.len() - 1) as nat,
        |i: int| PersonView::from_row(table[i + 1]).unwrap(),
    ));
    Ok(people)
}

impl Person {
    /// Reads a collection from its stored text. The text must begin with
    /// the header; a row with a malformed date or the wrong number of
    /// fields makes the whole text a format error, and no person is
    /// returned.
    pub fn read_from_csv(data: &[u8]) -> (r: Result<Vec<Person>, DbError>)
        ensures
            match r {
                Ok(people) => people_of_text(data@) == Ok::<Seq<PersonView>, DbError>(
                    people_views(people@),
                ),
                Err(e) => people_of_text(data@) == Err::<Seq<PersonView>, DbError>(e),
            },
    {
        match read_records(data) {
            Ok(rows) => people_from_rows(&rows),
            Err(_) => Err(DbError::Format),
        }
    }

    /// The text under which a collection is stored: the header, then a row
    /// for each person in order.
    pub fn write_to_csv(people: &[Person]) -> (data: Vec<u8>)
        ensures
            data@ == text_of_people(people_views(people@)),
    {
        let rows = people_to_rows(people);
        proof {
            let stored = rows_of_people(people_views(people@));
            assert forall|i: int| 0 <= i < stored.len() implies (#[trigger] stored[i]).len()
                == 4 by {
                if i > 0 {
                    assert(stored[i] == people_views(people@)[i - 1].to_row());
                }
            }
        }
        match write_records(&rows) {
            Ok(data) => data,
            Err(_) => unreached(),
        }
    }
}

/// A collection of storable people is read back from its rows as it was:
/// the same people in the same order.
pub proof fn lemma_rows_round_trip(people: Seq<PersonView>)
    requires
        forall|i: int| 0 <= i < people.len() ==> (#[trigger] people[i]).is_storable(),
    ensures
        people_of_rows(rows_of_people(people)) == Ok::<Seq<PersonView>, DbError>(people),
{
    let rows = rows_of_people(people);
    assert forall|i: int| 1 <= i < rows.len() implies (#[trigger] PersonView::from_row(
        rows[i],
    )) == Some(people[i - 1]) by {
        assert(rows[i] == people[i - 1].to_row());
        lemma_row_round_trip(people[i - 1]);
    }
    assert(Seq::new(
        (rows.len() - 1) as nat,
        |i: int| PersonView::from_row(rows[i + 1]).unwrap(),
    ) =~= people);
}

/// The stored text of the empty collection is the header line alone.
pub proof fn lemma_empty_collection_text()
    ensures
        text_of_people(Seq::empty()) == encode_utf8(
            "first_name,last_name,date_of_birth,favorite_sport\n"@,
        ),
{
    reveal_strlit("first_name");
    reveal_strlit("last_name");
    reveal_strlit("date_of_birth");
    reveal_strlit("favorite_sport");
    reveal_strlit("first_name,last_name,date_of_birth,favorite_sport\n");
    let rows = rows_of_people(Seq::empty());
    let header = header_row();
    assert(rows =~= seq![header]);
    assert(rows.drop_last() =~= Seq::empty());
    reveal_with_fuel(written_rows, 2);
    assert(written_rows(rows) =~= written_row(header));
    assert(!needs_quotes(header[0]));
    assert(!needs_quotes(header[1]));
    assert(!needs_quotes(header[2]));
    assert(!needs_quotes(header[3]));
    assert(header.drop_last() =~= seq![header[0], header[1], header[2]]);
    assert(header.drop_last().drop_last() =~= seq![header[0], header[1]]);
    assert(header.drop_last().drop_last().drop_last() =~= seq![header[0]]);
    reveal_with_fuel(joined_fields, 4);
    assert(written_row(header) =~= "first_name,last_name,date_of_birth,favorite_sport\n"@);
}

/// One row that stands for no person makes the whole a format error,
/// whatever the other rows hold.
pub proof fn lemma_one_bad_row_rejects_all(rows: Seq<Seq<Seq<char>>>, i: int)
    requires
        1 <= i < rows.len(),
        PersonView::from_row(rows[i]) is None,
    ensures
        people_of_rows(rows) == Err::<Seq<PersonView>, DbError>(DbError::Format),
{
}

/// Where the reader finds in a stored text the rows that the writer was
/// given, a collection of storable people is read back from its stored
/// text as it was.
pub proof fn lemma_text_round_trip(people: Seq<PersonView>)
    requires
        forall|i: int| 0 <= i < people.len() ==> (#[trigger] people[i]).is_storable(),
        csv_records(text_of_people(people)) == Some(rows_of_people(people)),
    ensures
        people_of_text(text_of_people(people)) == Ok::<Seq<PersonView>, DbError>(people),
{
    lemma_rows_round_trip(people);
}

} // verus!
