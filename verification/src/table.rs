//! A collection as rows of a table, each cell a text, for whoever shows it.

use crate::date::{Date, Ymd};
use crate::person::{age_on, people_views, Person, PersonView};
use crate::text::{decimal, decimal_string};
use vstd::prelude::*;
use vstd::string::*;

verus! {

/// One row of the table: the position in the collection, the names, the
/// age, and the favourite sport with its icon.
#[derive(Debug, Clone, PartialEq, Eq)]
pub struct PersonTableRow {
    pub idx: String,
    pub first_name: String,
    pub last_name: String,
    pub age: String,
    pub favorite_sport: String,
}

/// The model of a [`PersonTableRow`].
pub struct TableRowView {
    pub idx: Seq<char>,
    pub first_name: Seq<char>,
    pub last_name: Seq<char>,
    pub age: Seq<char>,
    pub favorite_sport: Seq<char>,
}

impl View for PersonTableRow {
    type V = TableRowView;

    open spec fn view(&self) -> TableRowView {
        TableRowView {
            idx: self.idx@,
            first_name: self.first_name@,
            last_name: self.last_name@,
            age: self.age@,
            favorite_sport: self.favorite_sport@,
        }
    }
}

impl PersonView {
    /// One line for a person: the names in columns of 15 characters, the
    /// age in a column of 3, then the icon and the label of the sport,
    /// with a space between each two.
    pub open spec fn summary(self, today: Ymd) -> Seq<char> {
        padded(self.first_name, 15) + seq![' '] + padded(self.last_name, 15) + seq![' '] + padded(
            decimal(age_on(today, self.date_of_birth) as nat),
            3,
        ) + seq![' '] + self.favorite_sport.icon() + seq![' '] + self.favorite_sport.label()
    }

    /// The row for a person at a position: position and age in decimal,
    /// the sport as its icon, a space and its label.
    pub open spec fn table_row(self, idx: nat, today: Ymd) -> TableRowView {
        TableRowView {
            idx: decimal(idx),
            first_name: self.first_name,
            last_name: self.last_name,
            age: decimal(age_on(today, self.date_of_birth) as nat),
            favorite_sport: self.favorite_sport.icon() + seq![' '] + self.favorite_sport.label(),
        }
    }
}

/// A text filled up with spaces at its end to a width in characters; a
/// text that is as long or longer stays as it is.
pub open spec fn padded(s: Seq<char>, width: nat) -> Seq<char> {
    if s.len() >= width {
        s
    } else {
        s + Seq::new((width - s.len()) as nat, |i: int| ' ')
    }
}

/// Appends a text to `out`, filled up with spaces to `width` characters.
pub fn push_padded(out: &mut String, s: &str, width: usize)
    ensures
        final(out)@ == old(out)@ + padded(s@, width as nat),
{
    let ghost before = out@;
    out.append(s);
    let mut n: usize = s.unicode_len();
    while n < width
        invariant
            s@.len() <= n,
            n <= width || n == s@.len(),
            out@ == before + s@ + Seq::new((n - s@.len()) as nat, |i: int| ' '),
        decreases width - n,
    {
        out.push(' ');
        n += 1;
        assert(out@ =~= before + s@ + Seq::new((n - s@.len()) as nat, |i: int| ' '));
    }
    assert(out@ =~= before + padded(s@, width as nat));
}

/// The rows for a collection, in its order, each with its position.
pub open spec fn table_of(people: Seq<PersonView>, today: Ymd) -> Seq<TableRowView> {
    Seq::new(people.len(), |i: int| people[i].table_row(i as nat, today))
}

/// The models of a sequence of rows.
pub open spec fn row_views(rows: Seq<PersonTableRow>) -> Seq<TableRowView> {
    rows.map_values(|r: PersonTableRow| r@)
}

impl Person {
    /// The person on one line, with the age on the day `today`.
    pub fn summary(&self, today: &Date) -> (r: String)
        ensures
            r@ == self@.summary(today@),
    {
        let mut out = String::new();
        push_padded(&mut out, self.first_name.as_str(), 15);
        out.push(' ');
        push_padded(&mut out, self.last_name.as_str(), 15);
        out.push(' ');
        push_padded(&mut out, decimal_string(self.get_age(today) as u64).as_str(), 3);
        out.push(' ');
        out.append(self.favorite_sport.emoji());
        out.push(' ');
        out.append(self.favorite_sport.display().as_str());
        assert(out@ =~= self@.summary(today@));
        out
    }

    /// The row that shows the person at position `idx`, with the age on
    /// the day `today`.
    pub fn format_row(&self, idx: usize, today: &Date) -> (r: PersonTableRow)
        ensures
            r@ == self@.table_row(idx as nat, today@),
    {
        let mut favorite_sport = self.favorite_sport.emoji().to_owned();
        favorite_sport.push(' ');
        favorite_sport.append(self.favorite_sport.display().as_str());
        assert(favorite_sport@ =~= self@.favorite_sport.icon() + seq![' ']
            + self@.favorite_sport.label());
        PersonTableRow {
            idx: decimal_string(idx as u64),
            first_name: self.first_name.clone(),
            last_name: self.last_name.clone(),
            age: decimal_string(self.get_age(today) as u64),
            favorite_sport,
        }
    }
}

/// The rows that show a collection, with the ages on the day `today`.
pub fn table_rows(people: &[Person], today: &Date) -> (rows: Vec<PersonTableRow>)
    ensures
        row_views(rows@) == table_of(people_views(people@), today@),
{
    let mut rows: Vec<PersonTableRow> = Vec::new();
    let mut i: usize = 0;
    while i < people.len()
        invariant
            i <= people.len(),
            rows@.len() == i,
            forall|k: int|
                0 <= k < i ==> (#[trigger] rows@[k])@ == people@[k]@.table_row(k as nat, today@),
        decreases people.len() - i,
    {
        rows.push(people[i].format_row(i, today));
        i += 1;
    }
    assert(row_views(rows@) =~= table_of(people_views(people@), today@));
    rows
}

} // verus!
