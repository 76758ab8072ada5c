use vstd::prelude::*;

use crate::error::PersonError;

verus! {

/// What a client submits to have a person created. It carries no id: the
/// storage engine assigns one.
pub struct CreatePersonDto {
    pub last_name: String,
    pub phone_number: String,
    /// Absent in requests written against the schema without a location.
    pub location: Option<String>,
}

/// A stored person, as read back from the table.
pub struct Person {
    pub id: i32,
    pub last_name: String,
    pub phone_number: String,
    /// Never null: a row without a location reads as the empty string.
    pub location: String,
}

/// The location a person is stored with: the submitted one, or the empty
/// string when none was submitted.
pub open spec fn location_or_empty(location: Option<String>) -> Seq<char> {
    match location {
        Some(l) => l@,
        None => Seq::empty(),
    }
}

/// The person that storing `input` under `id` yields.
pub open spec fn created_from(input: CreatePersonDto, id: int, p: Person) -> bool {
    &&& p.id == id
    &&& p.last_name == input.last_name
    &&& p.phone_number == input.phone_number
    &&& p.location@ == location_or_empty(input.location)
}

impl CreatePersonDto {
    /// The location to store: the submitted one, or the empty string.
    pub fn location_or_default(&self) -> (r: String)
        ensures
            r@ == location_or_empty(self.location),
    {
        match &self.location {
            Some(l) => l.clone(),
            None => String::new(),
        }
    }
}

impl Person {
    /// The person that `input` becomes once the engine has assigned `id`.
    pub fn from_input(input: CreatePersonDto, id: i32) -> (r: Person)
        ensures
            created_from(input, id as int, r),
    {
        let location = input.location_or_default();
        Person {
            id,
            last_name: input.last_name,
            phone_number: input.phone_number,
            location,
        }
    }

    /// Maps a row of the `person` table; a row read from the schema without
    /// a location column has none, which reads as the empty string.
    pub fn from_row(id: i32, last_name: String, phone_number: String, location: Option<String>) -> (r: Person)
        ensures
            r.id == id,
            r.last_name == last_name,
            r.phone_number == phone_number,
            r.location@ == location_or_empty(location),
    {
        let location = match location {
            Some(l) => l,
            None => String::new(),
        };
        Person { id, last_name, phone_number, location }
    }

    /// The person that `input` became in a table whose engine reported
    /// `assigned` as the id of the inserted row. An engine reports 0 when it
    /// assigned none; an id beyond the id column's range cannot be held.
    pub fn from_assigned_id(input: CreatePersonDto, assigned: u64) -> (r: Result<Person, PersonError>)
        ensures
            (1 <= assigned <= i32::MAX) <==> r is Ok,
            r is Ok ==> created_from(input, assigned as int, r->Ok_0),
    {
        if assigned == 0 || assigned > i32::MAX as u64 {
            Err(PersonError::new("the engine assigned no usable id"))
        } else {
            Ok(Person::from_input(input, assigned as i32))
        }
    }

    /// A field-for-field copy.
    pub fn duplicate(&self) -> (r: Person)
        ensures
            r == *self,
    {
        Person {
            id: self.id,
            last_name: self.last_name.clone(),
            phone_number: self.phone_number.clone(),
            location: self.location.clone(),
        }
    }
}

} // verus!
