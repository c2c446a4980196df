//! Todo items: the record and the changeset with its validation rule.

use vstd::prelude::*;
use vstd::string::StringExecFns;

use crate::error::Error;

verus! {

/// A todo item.
#[derive(Debug)]
pub struct Todo {
    /// The id of the record.
    pub id: i64,
    /// The description, i.e. what to do.
    pub description: String,
}

/// The data intended to create or update a todo item.
pub struct TodoChangeset {
    pub description: String,
}

impl TodoChangeset {
    /// Checks the changeset: the description must not be empty.
    pub fn validate(&self) -> (r: Result<(), Error>)
        ensures
            match r {
                Ok(()) => self.description@.len() >= 1,
                Err(e) => match e {
                    Error::Validation(m) => self.description@.len() == 0 && m@
                        == "Description must be at least 1 character long"@,
                    _ => false,
                },
            },
    {
        if self.description.as_str().is_empty() {
            return Err(
                Error::Validation(
                    String::from_str("Description must be at least 1 character long"),
                ),
            );
        }
        Ok(())
    }
}

} // verus!
