//! `application/x-www-form-urlencoded` data, in query strings and bodies:
//! decoding into name/value pairs, and reading named fields from them.
use vstd::prelude::*;
use vstd::string::*;
use vstd::utf8::*;
use crate::error::{ClientError, ClientErrorModel, Error, ErrorModel, client, content_type_message};
use crate::http::Request;
use crate::number::{i64_parse, int_error_message, parse_i64};
use crate::request::{get_header, header_lookup, pair_views};
use crate::text::same_text;

verus! {

/// The name/value pairs that serde_urlencoded decodes from `b`.
pub uninterp spec fn form_pairs(b: Seq<u8>) -> Seq<(Seq<char>, Seq<char>)>;

/// Relies on `serde_urlencoded::from_bytes` into a list of string pairs:
/// the pairs of `b` in order, split at `&` and `=` and percent-decoded.
/// Decoding into string pairs is lossy and never fails: invalid escapes and
/// invalid UTF-8 are replaced, not refused.
#[verifier::external_body]
fn decode_form(b: &[u8]) -> (r: Vec<(String, String)>)
    ensures
        pair_views(r@) == form_pairs(b@),
{
    serde_urlencoded::from_bytes::<Vec<(String, String)>>(b).unwrap_or_default()
}

/// The query string of a request, empty where it has none.
pub open spec fn query_text(req: Request) -> Seq<char> {
    match req.query {
        Some(q) => q@,
        None => Seq::empty(),
    }
}

/// Decodes the query string of a request (empty if it has none) into
/// name/value pairs.
pub fn parse_query(req: &Request) -> (r: Result<Vec<(String, String)>, Error>)
    ensures
        r matches Ok(v) && pair_views(v@) == form_pairs(encode_utf8(query_text(*req))),
{
    let q: &str = match &req.query {
        Some(q) => q.as_str(),
        None => "",
    };
    proof {
        if req.query is None {
            reveal_strlit("");
            assert(q@.len() == 0);
            assert(q@ =~= query_text(*req));
        }
    }
    Ok(decode_form(q.as_bytes()))
}

/// Decodes a form body into name/value pairs.
pub fn decode_form_body(body: &[u8]) -> (r: Result<Vec<(String, String)>, Error>)
    ensures
        r matches Ok(v) && pair_views(v@) == form_pairs(body@),
{
    Ok(decode_form(body))
}

/// The only content type a form body may have.
pub open spec fn form_content_type() -> Seq<char> {
    "application/x-www-form-urlencoded"@
}

/// Checks that a request declares a form body. A missing `Content-Type`
/// counts as empty.
pub fn check_form_content_type(req: &Request) -> (r: Result<(), Error>)
    ensures
        match header_lookup(*req, "Content-Type"@) {
            Err(m) => r matches Err(e) && e@ == m,
            Ok(h) => {
                let ct = match h {
                    Some(t) => t,
                    None => Seq::empty(),
                };
                if ct == form_content_type() {
                    r is Ok
                } else {
                    r matches Err(e) && e@ == client(
                        ClientErrorModel::InvalidContentType(
                            content_type_message(form_content_type(), ct),
                        ),
                    )
                }
            },
        },
{
    let header = get_header(req, "Content-Type")?;
    let content_type: &str = match &header {
        Some(h) => h.as_str(),
        None => "",
    };
    proof {
        if header is None {
            reveal_strlit("");
            assert(content_type@.len() == 0);
            assert(content_type@ =~= Seq::<char>::empty());
        }
    }
    if !same_text("application/x-www-form-urlencoded", content_type) {
        return Err(Error::invalid_content_type("application/x-www-form-urlencoded", content_type));
    }
    Ok(())
}

/// The values given for `name`, in order.
pub open spec fn field_values(pairs: Seq<(Seq<char>, Seq<char>)>, name: Seq<char>) -> Seq<Seq<char>>
    decreases pairs.len(),
{
    if pairs.len() == 0 {
        Seq::empty()
    } else if pairs.last().0 == name {
        field_values(pairs.drop_last(), name).push(pairs.last().1)
    } else {
        field_values(pairs.drop_last(), name)
    }
}

pub open spec fn duplicate_field_message(name: Seq<char>) -> Seq<char> {
    "duplicate field `"@ + name + "`"@
}

pub open spec fn missing_field_message(name: Seq<char>) -> Seq<char> {
    "missing field `"@ + name + "`"@
}

/// Reads the field `name` of decoded form data: absent, given once, or
/// given more than once, which is an error.
pub fn form_field(pairs: &Vec<(String, String)>, name: &str) -> (r: Result<Option<String>, Error>)
    ensures
        ({
            let vals = field_values(pair_views(pairs@), name@);
            if vals.len() == 0 {
                r matches Ok(None)
            } else if vals.len() == 1 {
                r matches Ok(Some(v)) && v@ == vals[0]
            } else {
                r matches Err(e) && e@ == client(
                    ClientErrorModel::InvalidUrlEncoding(duplicate_field_message(name@)),
                )
            }
        }),
{
    let mut found: Option<String> = None;
    let mut i: usize = 0;
    while i < pairs.len()
        invariant
            i <= pairs@.len(),
            ({
                let vals = field_values(pair_views(pairs@.take(i as int)), name@);
                &&& vals.len() <= 1
                &&& vals.len() == 0 <==> found is None
                &&& found matches Some(v) ==> v@ == vals[0]
            }),
        decreases pairs.len() - i,
    {
        proof {
            assert(pair_views(pairs@.take(i + 1)).drop_last() =~= pair_views(pairs@.take(i as int)));
        }
        if same_text(pairs[i].0.as_str(), name) {
            if found.is_some() {
                proof {
                    let pv = pair_views(pairs@);
                    assert(pair_views(pairs@.take(i + 1)) =~= pv.take(i + 1));
                    assert(pv.take(i + 1).drop_last() =~= pv.take(i as int));
                    assert(pv.take(i + 1).last().0 == name@);
                    assert(field_values(pv.take(i + 1), name@).len() == 2);
                    lemma_field_values_grow(pv, name@, i + 1);
                }
                return Err(
                    Error::ClientError(
                        ClientError::InvalidUrlEncoding(
                            String::from_str("duplicate field `").concat(name).concat("`"),
                        ),
                    ),
                );
            }
            found = Some(pairs[i].1.clone());
        }
        i = i + 1;
    }
    proof {
        assert(pairs@.take(i as int) =~= pairs@);
    }
    Ok(found)
}

proof fn lemma_field_values_grow(pairs: Seq<(Seq<char>, Seq<char>)>, name: Seq<char>, k: int)
    requires
        0 <= k <= pairs.len(),
    ensures
        field_values(pairs.take(k), name).len() <= field_values(pairs, name).len(),
        field_values(pairs.take(k), name) == field_values(pairs, name).take(field_values(pairs.take(k), name).len() as int),
    decreases pairs.len() - k,
{
    if k < pairs.len() {
        lemma_field_values_grow(pairs, name, k + 1);
        assert(pairs.take(k + 1).drop_last() =~= pairs.take(k));
        let a = field_values(pairs.take(k), name);
        let b = field_values(pairs.take(k + 1), name);
        let c = field_values(pairs, name);
        assert(a == b.take(a.len() as int)) by {
            if pairs.take(k + 1).last().0 == name {
                assert(b == a.push(pairs.take(k + 1).last().1));
                assert(a =~= b.take(a.len() as int));
            } else {
                assert(b == a);
                assert(a =~= b.take(a.len() as int));
            }
        };
        assert(a =~= c.take(a.len() as int));
    } else {
        assert(pairs.take(k) =~= pairs);
        assert(field_values(pairs, name).take(field_values(pairs, name).len() as int) =~= field_values(pairs, name));
    }
}

/// A field that must be given exactly once in decoded form data.
pub open spec fn single_field(pairs: Seq<(Seq<char>, Seq<char>)>, name: Seq<char>) -> Result<Seq<char>, ErrorModel> {
    let vals = field_values(pairs, name);
    if vals.len() == 0 {
        Err(client(ClientErrorModel::InvalidUrlEncoding(missing_field_message(name))))
    } else if vals.len() == 1 {
        Ok(vals[0])
    } else {
        Err(client(ClientErrorModel::InvalidUrlEncoding(duplicate_field_message(name))))
    }
}

/// Reads a field that must be given exactly once.
pub fn required_field(pairs: &Vec<(String, String)>, name: &str) -> (r: Result<String, Error>)
    ensures
        match single_field(pair_views(pairs@), name@) {
            Ok(v) => r matches Ok(s) && s@ == v,
            Err(m) => r matches Err(e) && e@ == m,
        },
{
    match form_field(pairs, name)? {
        Some(v) => Ok(v),
        None => Err(
            Error::ClientError(
                ClientError::InvalidUrlEncoding(
                    String::from_str("missing field `").concat(name).concat("`"),
                ),
            ),
        ),
    }
}

pub open spec fn id_view(o: Option<i64>) -> Option<int> {
    match o {
        Some(x) => Some(x as int),
        None => None,
    }
}

/// What an optional integer field of decoded form data holds.
pub open spec fn optional_id(pairs: Seq<(Seq<char>, Seq<char>)>, name: Seq<char>) -> Result<Option<int>, ErrorModel> {
    let vals = field_values(pairs, name);
    if vals.len() == 0 {
        Ok(None)
    } else if vals.len() == 1 {
        match i64_parse(vals[0]) {
            Ok(n) => Ok(Some(n)),
            Err(k) => Err(client(ClientErrorModel::InvalidUrlEncoding(int_error_message(k)))),
        }
    } else {
        Err(client(ClientErrorModel::InvalidUrlEncoding(duplicate_field_message(name))))
    }
}

/// Reads an optional integer field, as a form field of type `Option<i64>`.
pub fn optional_id_field(pairs: &Vec<(String, String)>, name: &str) -> (r: Result<Option<i64>, Error>)
    ensures
        match optional_id(pair_views(pairs@), name@) {
            Ok(None) => r == Ok::<Option<i64>, Error>(None),
            Ok(Some(n)) => r == Ok::<Option<i64>, Error>(Some(n as i64)),
            Err(m) => r matches Err(e) && e@ == m,
        },
{
    match form_field(pairs, name)? {
        None => Ok(None),
        Some(text) => match parse_i64(text.as_str()) {
            Ok(n) => Ok(Some(n)),
            Err(k) => Err(
                Error::ClientError(ClientError::InvalidUrlEncoding(String::from_str(k.message()))),
            ),
        },
    }
}

} // verus!
