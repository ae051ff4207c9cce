//! A person's record, the age derived from it, and its form as a row of
//! four text fields.

use crate::date::{lemma_day_number_bounds, Date, Ymd};
use crate::date_format::{date_text, deserialize, lemma_date_text_round_trip, parse_date_text, serialize};
use crate::error::DbError;
use crate::sport::{Sport, SportView};
use vstd::arithmetic::div_mod::{lemma_fundamental_div_mod, lemma_fundamental_div_mod_converse};
use vstd::prelude::*;
use vstd::string::*;

verus! {

/// One record: two names, a date of birth and a favourite sport. The age is
/// not stored; it is computed from the date of birth when it is asked for.
#[derive(Debug, Clone, PartialEq, Eq)]
pub struct Person {
    pub first_name: String,
    pub last_name: String,
    pub date_of_birth: Date,
    pub favorite_sport: Sport,
}

/// The model of a [`Person`].
pub struct PersonView {
    pub first_name: Seq<char>,
    pub last_name: Seq<char>,
    pub date_of_birth: Ymd,
    pub favorite_sport: SportView,
}

impl View for Person {
    type V = PersonView;

    open spec fn view(&self) -> PersonView {
        PersonView {
            first_name: self.first_name@,
            last_name: self.last_name@,
            date_of_birth: self.date_of_birth@,
            favorite_sport: self.favorite_sport@,
        }
    }
}

/// The models of a sequence of people.
pub open spec fn people_views(people: Seq<Person>) -> Seq<PersonView> {
    people.map_values(|p: Person| p@)
}

/// The days from one day to another; negative if the second is the later.
pub open spec fn days_between(to: Ymd, from: Ymd) -> int {
    to.day_number() - from.day_number()
}

/// The years of 365 days that a number of days holds, rounded toward zero.
pub open spec fn years_of_days(days: int) -> int {
    if days >= 0 {
        days / 365
    } else {
        -((-days) / 365)
    }
}

/// A number as an unsigned 32-bit value: a negative number wraps around.
pub open spec fn wrapped_u32(n: int) -> int {
    n % 0x1_0000_0000
}

/// The age on a day of somebody born on another: the days between the two,
/// in years of 365 days. Leap days are not accounted for. A birth after the
/// day gives a negative number of years, wrapped into the unsigned range.
pub open spec fn age_on(today: Ymd, birth: Ymd) -> int {
    wrapped_u32(years_of_days(days_between(today, birth)))
}

/// The names of the four columns, in their order.
pub open spec fn header_row() -> Seq<Seq<char>> {
    seq!["first_name"@, "last_name"@, "date_of_birth"@, "favorite_sport"@]
}

impl PersonView {
    /// The four fields under which a person is stored.
    pub open spec fn to_row(self) -> Seq<Seq<char>> {
        seq![
            self.first_name,
            self.last_name,
            date_text(self.date_of_birth),
            self.favorite_sport.label(),
        ]
    }

    /// The person that a row stands for: the row has four fields and the
    /// third is a date. Any text is a name, and any text names a sport.
    pub open spec fn from_row(row: Seq<Seq<char>>) -> Option<PersonView> {
        if row.len() == 4 && parse_date_text(row[2]) is Some {
            Some(
                PersonView {
                    first_name: row[0],
                    last_name: row[1],
                    date_of_birth: parse_date_text(row[2]).unwrap(),
                    favorite_sport: SportView::parse(row[3]),
                },
            )
        } else {
            None
        }
    }

    /// A person that is read back as stored: the date exists and the sport
    /// is canonical.
    pub open spec fn is_storable(self) -> bool {
        self.date_of_birth.is_valid() && self.favorite_sport.is_canonical()
    }
}

impl Person {
    /// A person with the given fields. Any text is a name, and any date of
    /// the calendar a date of birth.
    pub fn new(
        first_name: String,
        last_name: String,
        date_of_birth: Date,
        favorite_sport: Sport,
    ) -> (r: Person)
        ensures
            r.first_name == first_name,
            r.last_name == last_name,
            r.date_of_birth == date_of_birth,
            r.favorite_sport == favorite_sport,
            r@ == (PersonView {
                first_name: first_name@,
                last_name: last_name@,
                date_of_birth: date_of_birth@,
                favorite_sport: favorite_sport@,
            }),
    {
        Person { first_name, last_name, date_of_birth, favorite_sport }
    }

    /// The age on the day `today`, in years of 365 days.
    pub fn get_age(&self, today: &Date) -> (r: u32)
        ensures
            r == age_on(today@, self@.date_of_birth),
    {
        let days: i64 = today.day_number() - self.date_of_birth.day_number();
        if days >= 0 {
            (days / 365) as u32
        } else {
            let back: i64 = (0 - days) / 365;
            if back == 0 {
                0
            } else {
                (0x1_0000_0000 - back) as u32
            }
        }
    }

    /// The icon of the favourite sport.
    pub fn get_favorite_sport_emoji(&self) -> (r: &'static str)
        ensures
            r@ == self@.favorite_sport.icon(),
    {
        self.favorite_sport.emoji()
    }

    /// The four fields under which the person is stored.
    pub fn to_record(&self) -> (r: Vec<String>)
        ensures
            r.deep_view() == self@.to_row(),
    {
        let mut r: Vec<String> = Vec::new();
        r.push(self.first_name.clone());
        r.push(self.last_name.clone());
        r.push(serialize(&self.date_of_birth));
        r.push(self.favorite_sport.display());
        assert(r.deep_view() =~= self@.to_row());
        r
    }

    /// The person that a row of fields stands for. A row that has not four
    /// fields, or whose third field is no date, is a format error.
    pub fn from_record(fields: &Vec<String>) -> (r: Result<Person, DbError>)
        ensures
            match r {
                Ok(p) => PersonView::from_row(fields.deep_view()) == Some(p@),
                Err(e) => e == DbError::Format && PersonView::from_row(fields.deep_view()) is None,
            },
    {
        if fields.len() != 4 {
            return Err(DbError::Format);
        }
        assert(fields.deep_view()[0] == fields@[0]@);
        assert(fields.deep_view()[1] == fields@[1]@);
        assert(fields.deep_view()[2] == fields@[2]@);
        assert(fields.deep_view()[3] == fields@[3]@);
        match deserialize(fields[2].as_str()) {
            Ok(date_of_birth) => Ok(
                Person {
                    first_name: fields[0].clone(),
                    last_name: fields[1].clone(),
                    date_of_birth,
                    favorite_sport: Sport::from_string(fields[3].as_str()),
                },
            ),
            Err(e) => Err(e),
        }
    }
}

/// A person that is storable is read back from its row as it was.
pub proof fn lemma_row_round_trip(p: PersonView)
    requires
        p.is_storable(),
    ensures
        PersonView::from_row(p.to_row()) == Some(p),
{
    lemma_date_text_round_trip(p.date_of_birth);
}

/// On the day of birth the age is 0.
pub proof fn lemma_age_on_day_of_birth(day: Ymd)
    ensures
        age_on(day, day) == 0,
{
}

/// Between two dates that lie a whole number of years of 365 days apart,
/// the age is that number.
pub proof fn lemma_age_counts_years_of_365_days(today: Ymd, birth: Ymd, years: int)
    requires
        0 <= years < 0x1_0000_0000,
        days_between(today, birth) == 365 * years,
    ensures
        age_on(today, birth) == years,
{
    lemma_fundamental_div_mod_converse(365 * years, 365, years, 0);
}

/// From the day of birth on, the age is the greatest number of years of
/// 365 days that fit into the days lived.
pub proof fn lemma_age_bounds(today: Ymd, birth: Ymd)
    requires
        today.is_valid(),
        birth.is_valid(),
        days_between(today, birth) >= 0,
    ensures
        365 * age_on(today, birth) <= days_between(today, birth) < 365 * (age_on(today, birth) + 1),
{
    let days = days_between(today, birth);
    lemma_day_number_bounds(today);
    lemma_day_number_bounds(birth);
    lemma_fundamental_div_mod(days, 365);
}

} // verus!
