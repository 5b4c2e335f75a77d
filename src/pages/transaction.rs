//! The transaction page.
use vstd::prelude::*;
use crate::error::Error;
use crate::form::{id_view, optional_id, optional_id_field};
use crate::request::pair_views;

verus! {

/// The query of a transaction page: the account change just created there.
#[derive(PartialEq, Eq, Structural, Clone, Copy, Debug)]
pub struct Created {
    pub new_account_change: Option<i64>,
}

impl Created {
    /// Reads the mark from a decoded query.
    pub fn from_query(pairs: &Vec<(String, String)>) -> (r: Result<Created, Error>)
        ensures
            match optional_id(pair_views(pairs@), "new_account_change"@) {
                Err(m) => r matches Err(e) && e@ == m,
                Ok(v) => r matches Ok(c) && id_view(c.new_account_change) == v,
            },
    {
        let new_account_change = optional_id_field(pairs, "new_account_change")?;
        Ok(Created { new_account_change })
    }

    /// Whether `id` is the account change just created.
    pub fn equals_account_change(&self, id: &i64) -> (r: bool)
        ensures
            r == (self.new_account_change == Some(*id)),
    {
        match self.new_account_change {
            Some(a) => a == *id,
            None => false,
        }
    }
}

} // verus!
