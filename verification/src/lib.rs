//! A small record manager for people: the record model, the text form in
//! which a collection is stored, and the operations on a collection.

pub mod collection;
pub mod csv_text;
pub mod date;
pub mod date_format;
pub mod error;
pub mod person;
pub mod sport;
pub mod store;
pub mod table;
pub mod text;

pub use crate::collection::{add_person, delete_person, edit_person};
pub use crate::date::Date;
pub use crate::error::DbError;
pub use crate::person::Person;
pub use crate::sport::Sport;
pub use crate::table::{table_rows, PersonTableRow};
