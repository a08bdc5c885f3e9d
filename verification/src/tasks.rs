//! Value types of the to-do component API.

use vstd::prelude::*;

verus! {

/// A to-do item: its name, and an optional description.
#[derive(Debug, PartialEq)]
pub struct Task {
    pub name: String,
    pub description: Option<String>,
}

impl Clone for Task {
    fn clone(&self) -> (r: Self)
        ensures
            r == *self,
    {
        Task {
            name: self.name.clone(),
            description: match &self.description {
                Some(d) => Some(d.clone()),
                None => None,
            },
        }
    }
}

} // verus!
