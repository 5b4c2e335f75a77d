//! The grouping page.
use vstd::prelude::*;
use crate::error::Error;
use crate::form::{id_view, optional_id, optional_id_field};
use crate::request::pair_views;

verus! {

/// The query of a grouping page: the transaction just created there.
#[derive(PartialEq, Eq, Structural, Clone, Copy, Debug)]
pub struct Created {
    pub new_transaction: Option<i64>,
}

impl Created {
    /// Reads the mark from a decoded query.
    pub fn from_query(pairs: &Vec<(String, String)>) -> (r: Result<Created, Error>)
        ensures
            match optional_id(pair_views(pairs@), "new_transaction"@) {
                Err(m) => r matches Err(e) && e@ == m,
                Ok(v) => r matches Ok(c) && id_view(c.new_transaction) == v,
            },
    {
        let new_transaction = optional_id_field(pairs, "new_transaction")?;
        Ok(Created { new_transaction })
    }

    /// Whether `id` is the transaction just created.
    pub fn equals_transaction(&self, id: &i64) -> (r: bool)
        ensures
            r == (self.new_transaction == Some(*id)),
    {
        match self.new_transaction {
            Some(t) => t == *id,
            None => false,
        }
    }
}

} // verus!
