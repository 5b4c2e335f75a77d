//! The bookkeeping page.
use vstd::prelude::*;
use crate::error::Error;
use crate::form::{id_view, optional_id, optional_id_field};
use crate::request::pair_views;

verus! {

/// The query of a bookkeeping page: the account or grouping just created
/// there, to be marked.
#[derive(PartialEq, Eq, Structural, Clone, Copy, Debug)]
pub struct Created {
    pub new_account: Option<i64>,
    pub new_grouping: Option<i64>,
}

impl Created {
    /// Reads the marks from a decoded query.
    pub fn from_query(pairs: &Vec<(String, String)>) -> (r: Result<Created, Error>)
        ensures
            match (
                optional_id(pair_views(pairs@), "new_account"@),
                optional_id(pair_views(pairs@), "new_grouping"@),
            ) {
                (Err(m), _) => r matches Err(e) && e@ == m,
                (Ok(_), Err(m)) => r matches Err(e) && e@ == m,
                (Ok(a), Ok(g)) => r matches Ok(c) && id_view(c.new_account) == a
                    && id_view(c.new_grouping) == g,
            },
    {
        let new_account = optional_id_field(pairs, "new_account")?;
        let new_grouping = optional_id_field(pairs, "new_grouping")?;
        Ok(Created { new_account, new_grouping })
    }

    /// Whether `id` is the account just created.
    pub fn equals_account(&self, id: &i64) -> (r: bool)
        ensures
            r == (self.new_account == Some(*id)),
    {
        match self.new_account {
            Some(a) => a == *id,
            None => false,
        }
    }

    /// Whether `id` is the grouping just created.
    pub fn equals_grouping(&self, id: &i64) -> (r: bool)
        ensures
            r == (self.new_grouping == Some(*id)),
    {
        match self.new_grouping {
            Some(g) => g == *id,
            None => false,
        }
    }
}

} // verus!
