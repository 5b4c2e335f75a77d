//! The forms that create records: a bookkeeping, an account, a grouping, a
//! transaction, an account change. Each is read from decoded form data.
use vstd::prelude::*;
use vstd::string::*;
use crate::error::{ClientError, ClientErrorModel, Error, ErrorModel, client};
use crate::form::{required_field, single_field};
use crate::number::{i64_parse, int_error_message, parse_i64};
use crate::records::{Amount, CalendarDate};
use crate::request::pair_views;

verus! {

/// The format a date is written in: `2024-01-31`.
pub const DATE_FORMAT: &'static str = "[year]-[month]-[day]";

/// The year, month and day that the time crate reads from `s` in the
/// format described by `format`, if `s` is such a date.
pub uninterp spec fn date_of(s: Seq<char>, format: Seq<char>) -> Option<(int, int, int)>;

/// Relies on `time::format_description::parse` and `time::Date::parse`:
/// the date that `s` writes in `format`, or a failure when `s` is no such
/// date. A `time::Date` is always a valid day of the calendar. A failure
/// keeps its display text.
#[verifier::external_body]
fn parse_date(s: &str, format: &str) -> (r: Result<CalendarDate, String>)
    ensures
        match r {
            Ok(d) => d.wf() && date_of(s@, format@) == Some(
                (d.year as int, d.month as int, d.day as int),
            ),
            Err(_) => date_of(s@, format@) is None,
        },
{
    let description = time::format_description::parse(format).map_err(|e| e.to_string())?;
    let d = time::Date::parse(s, &description).map_err(|e| e.to_string())?;
    Ok(CalendarDate { year: d.year(), month: u8::from(d.month()), day: d.day() })
}

/// The mantissa and scale of the decimal that rust_decimal reads from `s`.
pub uninterp spec fn amount_of(s: Seq<char>) -> Option<(int, int)>;

/// Relies on `rust_decimal::Decimal::from_str`: the decimal that `s`
/// writes, as its mantissa and scale, or a failure when `s` is no such
/// decimal. A failure keeps its display text.
#[verifier::external_body]
fn parse_amount(s: &str) -> (r: Result<Amount, String>)
    ensures
        match r {
            Ok(a) => amount_of(s@) == Some((a.mantissa as int, a.scale as int)),
            Err(_) => amount_of(s@) is None,
        },
{
    let d = <rust_decimal::Decimal as std::str::FromStr>::from_str(s).map_err(|e| e.to_string())?;
    Ok(Amount { mantissa: d.mantissa(), scale: d.scale() })
}

/// The year, month and day of a date.
pub open spec fn date_parts(d: CalendarDate) -> (int, int, int) {
    (d.year as int, d.month as int, d.day as int)
}

/// Whether `r` failed with an error about the form's encoding.
pub open spec fn encoding_error<T>(r: Result<T, Error>) -> bool {
    r matches Err(e) && e@ is Client && e@->Client_0 is InvalidUrlEncoding
}

fn date_field(pairs: &Vec<(String, String)>, name: &str) -> (r: Result<CalendarDate, Error>)
    ensures
        match single_field(pair_views(pairs@), name@) {
            Err(m) => r matches Err(e) && e@ == m,
            Ok(text) => match date_of(text, DATE_FORMAT@) {
                None => encoding_error(r),
                Some(v) => r matches Ok(d) && d.wf() && date_parts(d) == v,
            },
        },
{
    let text = required_field(pairs, name)?;
    match parse_date(text.as_str(), DATE_FORMAT) {
        Ok(d) => Ok(d),
        Err(m) => Err(Error::ClientError(ClientError::InvalidUrlEncoding(m))),
    }
}

/// A new bookkeeping.
pub struct NewBookkeeping {
    pub name: String,
}

impl NewBookkeeping {
    pub fn from_form(pairs: &Vec<(String, String)>) -> (r: Result<NewBookkeeping, Error>)
        ensures
            match single_field(pair_views(pairs@), "name"@) {
                Ok(n) => r matches Ok(b) && b.name@ == n,
                Err(m) => r matches Err(e) && e@ == m,
            },
    {
        Ok(NewBookkeeping { name: required_field(pairs, "name")? })
    }
}

/// A new account of a bookkeeping, with its type.
pub struct NewAccount {
    pub name: String,
    pub kind: String,
}

impl NewAccount {
    pub fn from_form(pairs: &Vec<(String, String)>) -> (r: Result<NewAccount, Error>)
        ensures
            match (single_field(pair_views(pairs@), "name"@), single_field(pair_views(pairs@), "type"@)) {
                (Ok(n), Ok(t)) => r matches Ok(a) && a.name@ == n && a.kind@ == t,
                (Err(m), _) => r matches Err(e) && e@ == m,
                (Ok(_), Err(m)) => r matches Err(e) && e@ == m,
            },
    {
        let name = required_field(pairs, "name")?;
        let kind = required_field(pairs, "type")?;
        Ok(NewAccount { name, kind })
    }
}

/// A new grouping of a bookkeeping.
pub struct NewGrouping {
    pub name: String,
}

impl NewGrouping {
    pub fn from_form(pairs: &Vec<(String, String)>) -> (r: Result<NewGrouping, Error>)
        ensures
            match single_field(pair_views(pairs@), "name"@) {
                Ok(n) => r matches Ok(g) && g.name@ == n,
                Err(m) => r matches Err(e) && e@ == m,
            },
    {
        Ok(NewGrouping { name: required_field(pairs, "name")? })
    }
}

/// A new transaction of a grouping.
pub struct NewTransaction {
    pub name: String,
    pub date: CalendarDate,
}

impl NewTransaction {
    pub fn from_form(pairs: &Vec<(String, String)>) -> (r: Result<NewTransaction, Error>)
        ensures
            match (single_field(pair_views(pairs@), "name"@), single_field(pair_views(pairs@), "date"@)) {
                (Err(m), _) => r matches Err(e) && e@ == m,
                (Ok(_), Err(m)) => r matches Err(e) && e@ == m,
                (Ok(n), Ok(d)) => match date_of(d, DATE_FORMAT@) {
                    None => encoding_error(r),
                    Some(v) => r matches Ok(t) && t.name@ == n && t.date.wf() && date_parts(t.date) == v,
                },
            },
    {
        let name = required_field(pairs, "name")?;
        let date = date_field(pairs, "date")?;
        Ok(NewTransaction { name, date })
    }
}

/// A new change of an account within a transaction.
pub struct NewAccountChange {
    pub account: i64,
    pub date: CalendarDate,
    pub message: String,
    pub amount: Amount,
}

impl NewAccountChange {
    /// Reads the fields in the order account, date, message, amount; the
    /// first that is missing, repeated or unreadable is the error.
    pub fn from_form(pairs: &Vec<(String, String)>) -> (r: Result<NewAccountChange, Error>)
        ensures
            match single_field(pair_views(pairs@), "account"@) {
                Err(m) => r matches Err(e) && e@ == m,
                Ok(a) => match i64_parse(a) {
                    Err(k) => r matches Err(e) && e@ == client(
                        ClientErrorModel::InvalidUrlEncoding(int_error_message(k)),
                    ),
                    Ok(n) => match single_field(pair_views(pairs@), "date"@) {
                        Err(m) => r matches Err(e) && e@ == m,
                        Ok(d) => match date_of(d, DATE_FORMAT@) {
                            None => encoding_error(r),
                            Some(dv) => match single_field(pair_views(pairs@), "message"@) {
                                Err(m) => r matches Err(e) && e@ == m,
                                Ok(msg) => match single_field(pair_views(pairs@), "amount"@) {
                                    Err(m) => r matches Err(e) && e@ == m,
                                    Ok(am) => match amount_of(am) {
                                        None => encoding_error(r),
                                        Some(av) => r matches Ok(c) && c.account == n && c.date.wf()
                                            && date_parts(c.date) == dv && c.message@ == msg && (
                                        c.amount.mantissa as int, c.amount.scale as int) == av,
                                    },
                                },
                            },
                        },
                    },
                },
            },
    {
        let account_text = required_field(pairs, "account")?;
        let account = match parse_i64(account_text.as_str()) {
            Ok(n) => n,
            Err(k) => {
                return Err(
                    Error::ClientError(ClientError::InvalidUrlEncoding(String::from_str(k.message()))),
                );
            },
        };
        let date = date_field(pairs, "date")?;
        let message = required_field(pairs, "message")?;
        let amount_text = required_field(pairs, "amount")?;
        let amount = match parse_amount(amount_text.as_str()) {
            Ok(a) => a,
            Err(m) => {
                return Err(Error::ClientError(ClientError::InvalidUrlEncoding(m)));
            },
        };
        Ok(NewAccountChange { account, date, message, amount })
    }
}

} // verus!
