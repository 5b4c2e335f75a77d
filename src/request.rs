//! Reading an untrusted request: headers, the declared body length, the
//! query string and cookies.
use vstd::prelude::*;
use vstd::string::*;
use crate::error::{ClientErrorModel, Error, ErrorModel, client, unreadable_header_message, too_large_message};
use crate::http::{Header, Request};
use crate::number::{int_error_message, parse_usize, usize_parse};
use crate::text::{find_char, first_index, same_text, split_on, split_on_chars, views};

verus! {

/// Whether a header value byte counts as text: visible ASCII or a tab.
pub open spec fn is_visible_ascii(b: u8) -> bool {
    (32 <= b && b < 127) || b == 9
}

pub open spec fn is_text(v: Seq<u8>) -> bool {
    forall|i: int| 0 <= i < v.len() ==> is_visible_ascii(#[trigger] v[i])
}

/// The characters that ASCII bytes stand for.
pub open spec fn ascii_chars(v: Seq<u8>) -> Seq<char> {
    v.map_values(|b: u8| b as char)
}

/// Relies on `std::str::from_utf8`: bytes below 128 are valid UTF-8, and
/// each one decodes to the character of that code.
#[verifier::external_body]
fn ascii_text(b: &[u8]) -> (r: String)
    requires
        forall|i: int| 0 <= i < b@.len() ==> b@[i] < 128,
    ensures
        r@ == ascii_chars(b@),
{
    match std::str::from_utf8(b) {
        Ok(s) => s.to_string(),
        Err(_) => String::new(),
    }
}

/// Whether a stored (lower-case) header name character matches a requested
/// one, letters compared without case.
pub open spec fn name_char_matches(stored: char, wanted: char) -> bool {
    stored == wanted || ('A' <= wanted && wanted <= 'Z' && stored as u32 == wanted as u32 + 32)
}

pub open spec fn name_matches(stored: Seq<char>, wanted: Seq<char>) -> bool {
    stored.len() == wanted.len() && forall|i: int|
        0 <= i < stored.len() ==> name_char_matches(#[trigger] stored[i], wanted[i])
}

/// The index of the first header called `name`, if any.
pub open spec fn header_index(headers: Seq<Header>, name: Seq<char>) -> Option<int> {
    if exists|i: int| 0 <= i < headers.len() && name_matches(#[trigger] headers[i].name@, name) {
        Some(
            choose|i: int|
                0 <= i < headers.len() && name_matches(#[trigger] headers[i].name@, name) && forall|j: int|
                    0 <= j < i ==> !name_matches(#[trigger] headers[j].name@, name),
        )
    } else {
        None
    }
}

fn name_matches_exec(stored: &str, wanted: &str) -> (r: bool)
    ensures
        r == name_matches(stored@, wanted@),
{
    let n = stored.unicode_len();
    if n != wanted.unicode_len() {
        return false;
    }
    let mut i: usize = 0;
    while i < n
        invariant
            n == stored@.len() == wanted@.len(),
            i <= n,
            forall|j: int| 0 <= j < i ==> name_char_matches(#[trigger] stored@[j], wanted@[j]),
        decreases n - i,
    {
        let s = stored.get_char(i);
        let w = wanted.get_char(i);
        if !(s == w || ('A' <= w && w <= 'Z' && s as u32 == w as u32 + 32)) {
            return false;
        }
        i = i + 1;
    }
    true
}

fn find_header(headers: &Vec<Header>, name: &str) -> (r: Option<usize>)
    ensures
        match r {
            Some(i) => i < headers@.len() && header_index(headers@, name@) == Some(i as int),
            None => header_index(headers@, name@) is None,
        },
{
    let mut i: usize = 0;
    while i < headers.len()
        invariant
            i <= headers@.len(),
            forall|j: int| 0 <= j < i ==> !name_matches(#[trigger] headers@[j].name@, name@),
        decreases headers.len() - i,
    {
        if name_matches_exec(headers[i].name.as_str(), name) {
            proof {
                let k = choose|k: int|
                    0 <= k < headers@.len() && name_matches(#[trigger] headers@[k].name@, name@)
                        && forall|j: int| 0 <= j < k ==> !name_matches(#[trigger] headers@[j].name@, name@);
                assert(k == i as int) by {
                    if k > i {
                        assert(name_matches(headers@[i as int].name@, name@));
                    }
                };
            }
            return Some(i);
        }
        i = i + 1;
    }
    None
}

/// What `get_header` gives for a request and header name: nothing if the
/// header is absent, its text if its value is text, else an
/// unreadable-header error naming it.
pub open spec fn header_lookup(req: Request, name: Seq<char>) -> Result<Option<Seq<char>>, ErrorModel> {
    match header_index(req.headers@, name) {
        None => Ok(None),
        Some(i) => if is_text(req.headers@[i].value@) {
            Ok(Some(ascii_chars(req.headers@[i].value@)))
        } else {
            Err(client(ClientErrorModel::UnreadableHeader(unreadable_header_message(name))))
        },
    }
}

/// Gets the named header as text, if the request has it. The name is
/// matched without regard to case; the first such header counts.
pub fn get_header(req: &Request, header_name: &str) -> (r: Result<Option<String>, Error>)
    ensures
        match (r, header_lookup(*req, header_name@)) {
            (Ok(None), Ok(None)) => true,
            (Ok(Some(s)), Ok(Some(t))) => s@ == t,
            (Err(e), Err(m)) => e@ == m,
            _ => false,
        },
{
    match find_header(&req.headers, header_name) {
        None => Ok(None),
        Some(i) => {
            let value = &req.headers[i].value;
            let mut j: usize = 0;
            while j < value.len()
                invariant
                    i < req.headers@.len(),
                    *value == req.headers@[i as int].value,
                    header_index(req.headers@, header_name@) == Some(i as int),
                    j <= value@.len(),
                    forall|k: int| 0 <= k < j ==> is_visible_ascii(#[trigger] value@[k]),
                decreases value.len() - j,
            {
                let b = value[j];
                if !((32 <= b && b < 127) || b == 9) {
                    proof {
                        assert(!is_visible_ascii(value@[j as int]));
                    }
                    return Err(Error::unreadable_header(header_name));
                }
                j = j + 1;
            }
            Ok(Some(ascii_text(value.as_slice())))
        },
    }
}

/// What validating the declared body length gives: the length if the
/// header is present, an unsigned integer and at most `max_len`; otherwise
/// the error for the first of these that fails.
pub open spec fn content_length_check(req: Request, max_len: nat) -> Result<nat, ErrorModel> {
    match header_lookup(req, "Content-Length"@) {
        Err(m) => Err(m),
        Ok(None) => Err(client(ClientErrorModel::InvalidContentLength("No content length given"@))),
        Ok(Some(text)) => match usize_parse(text) {
            Err(k) => Err(
                client(
                    ClientErrorModel::InvalidContentLength("Invalid unsigned int: "@ + int_error_message(k)),
                ),
            ),
            Ok(v) => if v <= max_len {
                Ok(v as nat)
            } else {
                Err(client(ClientErrorModel::InvalidContentLength(too_large_message(v as nat, max_len))))
            },
        },
    }
}

/// Validates the declared body length: present, an unsigned integer, and
/// at most `max_len`. This comes before any read of the body.
pub fn validate_get_content_len(req: &Request, max_len: usize) -> (r: Result<usize, Error>)
    ensures
        match content_length_check(*req, max_len as nat) {
            Ok(n) => r == Ok::<usize, Error>(n as usize),
            Err(m) => r matches Err(e) && e@ == m,
        },
{
    let header = get_header(req, "Content-Length")?;
    match header {
        Some(x) => match parse_usize(x.as_str()) {
            Ok(length) => {
                if length <= max_len {
                    Ok(length)
                } else {
                    Err(Error::content_length_too_large(length, max_len))
                }
            },
            Err(k) => Err(Error::content_length_not_int(k.message())),
        },
        None => Err(Error::content_length_missing()),
    }
}

/// The name and value of one cookie entry, split at its first `=`.
pub open spec fn cookie_pair(t: Seq<char>) -> Option<(Seq<char>, Seq<char>)> {
    match first_index(t, '=') {
        Some(k) => Some((t.take(k), t.skip(k + 1))),
        None => None,
    }
}

/// The value stored under `name` in a list of cookies.
pub open spec fn cookie_lookup(cookies: Seq<(Seq<char>, Seq<char>)>, name: Seq<char>) -> Option<Seq<char>>
    decreases cookies.len(),
{
    if cookies.len() == 0 {
        None
    } else if cookies.last().0 == name {
        Some(cookies.last().1)
    } else {
        cookie_lookup(cookies.drop_last(), name)
    }
}

/// Takes one piece of a `Cookie` header into the cookies read so far: an
/// empty piece changes nothing; a piece without `=` makes the header
/// unparseable; a name seen before is a duplicate.
pub open spec fn cookie_step(acc: Seq<(Seq<char>, Seq<char>)>, t: Seq<char>, raw: Seq<char>) -> Result<Seq<(Seq<char>, Seq<char>)>, ClientErrorModel> {
    if t.len() == 0 {
        Ok(acc)
    } else {
        match cookie_pair(t) {
            None => Err(ClientErrorModel::UnparseableCookie(raw)),
            Some(p) => match cookie_lookup(acc, p.0) {
                Some(old) => Err(ClientErrorModel::DuplicateCookies {
                    name: p.0,
                    value: p.1,
                    old_value: old,
                }),
                None => Ok(acc.push(p)),
            },
        }
    }
}

/// Reads the pieces of a `Cookie` header in order; the first failure ends
/// the reading. The result lists each cookie once.
pub open spec fn cookies_from(pieces: Seq<Seq<char>>, raw: Seq<char>) -> Result<Seq<(Seq<char>, Seq<char>)>, ClientErrorModel>
    decreases pieces.len(),
{
    if pieces.len() == 0 {
        Ok(Seq::empty())
    } else {
        match cookies_from(pieces.drop_last(), raw) {
            Err(e) => Err(e),
            Ok(acc) => cookie_step(acc, pieces.last(), raw),
        }
    }
}

proof fn lemma_cookies_err_extends(ps: Seq<Seq<char>>, i: int, raw: Seq<char>)
    requires
        0 <= i <= ps.len(),
        cookies_from(ps.take(i), raw) is Err,
    ensures
        cookies_from(ps, raw) == cookies_from(ps.take(i), raw),
    decreases ps.len() - i,
{
    if i < ps.len() {
        assert(ps.take(i + 1).drop_last() =~= ps.take(i));
        lemma_cookies_err_extends(ps, i + 1, raw);
    } else {
        assert(ps.take(i) =~= ps);
    }
}

fn add_cookie(parsed: &mut Vec<(String, String)>, cookie: &str, raw: &str) -> (r: Result<(), Error>)
    ensures
        match cookie_step(pair_views(old(parsed)@), cookie@, raw@) {
            Ok(c) => r is Ok && pair_views(final(parsed)@) == c,
            Err(m) => r matches Err(e) && e@ == client(m),
        },
{
    if cookie.unicode_len() == 0 {
        return Ok(());
    }
    match find_char(cookie, '=') {
        None => Err(Error::unparseable_cookie(raw)),
        Some(k) => {
            let name = cookie.substring_char(0, k);
            let value = cookie.substring_char(k + 1, cookie.unicode_len());
            proof {
                assert(name@ =~= cookie@.take(k as int));
                assert(value@ =~= cookie@.skip(k + 1));
            }
            match cookie_value(parsed, name) {
                Some(old_value) => Err(Error::duplicate_cookies(name, value, old_value.as_str())),
                None => {
                    let ghost before = parsed@;
                    parsed.push((String::from_str(name), String::from_str(value)));
                    proof {
                        assert(pair_views(parsed@) =~= pair_views(before).push((name@, value@)));
                    }
                    Ok(())
                },
            }
        },
    }
}

/// The cookies of a raw `Cookie` header: its pieces between `;` and spaces.
pub open spec fn cookie_header_value(raw: Seq<char>) -> Result<Seq<(Seq<char>, Seq<char>)>, ClientErrorModel> {
    cookies_from(split_on(raw, ';', ' '), raw)
}

pub open spec fn pair_views(v: Seq<(String, String)>) -> Seq<(Seq<char>, Seq<char>)> {
    v.map_values(|p: (String, String)| (p.0@, p.1@))
}

/// Finds the value of the cookie called `name`.
pub fn cookie_value(cookies: &Vec<(String, String)>, name: &str) -> (r: Option<String>)
    ensures
        match cookie_lookup(pair_views(cookies@), name@) {
            Some(v) => r matches Some(s) && s@ == v,
            None => r is None,
        },
{
    let mut i: usize = cookies.len();
    proof {
        assert(cookies@.take(i as int) =~= cookies@);
    }
    while i > 0
        invariant
            i <= cookies@.len(),
            cookie_lookup(pair_views(cookies@), name@) == cookie_lookup(pair_views(cookies@.take(i as int)), name@),
        decreases i,
    {
        proof {
            assert(pair_views(cookies@.take(i as int)).drop_last() =~= pair_views(cookies@.take(i - 1)));
        }
        if same_text(cookies[i - 1].0.as_str(), name) {
            return Some(cookies[i - 1].1.clone());
        }
        i = i - 1;
    }
    proof {
        assert(pair_views(cookies@.take(0)) =~= Seq::<(Seq<char>, Seq<char>)>::empty());
    }
    None
}

/// Parses the value of a `Cookie` header.
pub fn parse_cookie_header(raw: &str) -> (r: Result<Vec<(String, String)>, Error>)
    ensures
        match cookie_header_value(raw@) {
            Ok(c) => r matches Ok(v) && pair_views(v@) == c,
            Err(m) => r matches Err(e) && e@ == client(m),
        },
{
    let pieces = split_on_chars(raw, ';', ' ');
    let ghost ps = split_on(raw@, ';', ' ');
    let mut parsed: Vec<(String, String)> = Vec::new();
    let mut i: usize = 0;
    proof {
        assert(ps.take(0) =~= Seq::<Seq<char>>::empty());
        assert(pair_views(parsed@) =~= Seq::<(Seq<char>, Seq<char>)>::empty());
    }
    while i < pieces.len()
        invariant
            views(pieces@) == ps,
            ps == split_on(raw@, ';', ' '),
            i <= pieces@.len(),
            cookies_from(ps.take(i as int), raw@) == Ok::<Seq<(Seq<char>, Seq<char>)>, ClientErrorModel>(pair_views(parsed@)),
        decreases pieces.len() - i,
    {
        let cookie = pieces[i].as_str();
        proof {
            assert(ps.take(i + 1).drop_last() =~= ps.take(i as int));
            assert(ps[i as int] == cookie@);
        }
        match add_cookie(&mut parsed, cookie, raw) {
            Ok(()) => {},
            Err(e) => {
                proof {
                    lemma_cookies_err_extends(ps, i + 1, raw@);
                }
                return Err(e);
            },
        }
        i = i + 1;
    }
    proof {
        assert(ps.take(i as int) =~= ps);
    }
    Ok(parsed)
}

/// What `parse_cookies` gives: no header means no cookies.
pub open spec fn request_cookies(req: Request) -> Result<Seq<(Seq<char>, Seq<char>)>, ErrorModel> {
    match header_lookup(req, "cookie"@) {
        Err(e) => Err(e),
        Ok(None) => Ok(Seq::empty()),
        Ok(Some(raw)) => match cookie_header_value(raw) {
            Ok(c) => Ok(c),
            Err(m) => Err(client(m)),
        },
    }
}

/// Reads the cookies of a request, each name once. A request without a
/// `Cookie` header has none, which is no error.
pub fn parse_cookies(req: &Request) -> (r: Result<Vec<(String, String)>, Error>)
    ensures
        match request_cookies(*req) {
            Ok(c) => r matches Ok(v) && pair_views(v@) == c,
            Err(m) => r matches Err(e) && e@ == m,
        },
{
    match get_header(req, "cookie")? {
        Some(raw) => parse_cookie_header(raw.as_str()),
        None => {
            let v: Vec<(String, String)> = Vec::new();
            proof {
                assert(pair_views(v@) =~= Seq::<(Seq<char>, Seq<char>)>::empty());
            }
            Ok(v)
        },
    }
}

/// Whether every non-empty entry of a `Cookie` header holds a `=`.
pub open spec fn entries_parse(ps: Seq<Seq<char>>) -> bool {
    forall|i: int| 0 <= i < ps.len() && #[trigger] ps[i].len() > 0 ==> cookie_pair(ps[i]) is Some
}

/// The value of a cookie entry.
pub open spec fn entry_value(t: Seq<char>) -> Seq<char> {
    cookie_pair(t)->Some_0.1
}

/// The name of a cookie entry.
pub open spec fn entry_name(t: Seq<char>) -> Seq<char> {
    cookie_pair(t)->Some_0.0
}

/// Whether no two non-empty entries share a name.
pub open spec fn names_distinct(ps: Seq<Seq<char>>) -> bool {
    forall|i: int, j: int|
        0 <= i < j < ps.len() && ps[i].len() > 0 && ps[j].len() > 0 ==> entry_name(#[trigger] ps[i])
            != entry_name(#[trigger] ps[j])
}

/// The number of non-empty entries.
pub open spec fn entry_count(ps: Seq<Seq<char>>) -> nat
    decreases ps.len(),
{
    if ps.len() == 0 {
        0
    } else if ps.last().len() > 0 {
        entry_count(ps.drop_last()) + 1
    } else {
        entry_count(ps.drop_last())
    }
}

proof fn lemma_lookup_absent(acc: Seq<(Seq<char>, Seq<char>)>, name: Seq<char>)
    requires
        forall|m: int| 0 <= m < acc.len() ==> (#[trigger] acc[m]).0 != name,
    ensures
        cookie_lookup(acc, name) is None,
    decreases acc.len(),
{
    if acc.len() > 0 {
        assert(acc.last() == acc[acc.len() - 1]);
        assert forall|m: int| 0 <= m < acc.drop_last().len() implies (#[trigger] acc.drop_last()[m]).0
            != name by {
            assert(acc.drop_last()[m] == acc[m]);
        };
        lemma_lookup_absent(acc.drop_last(), name);
    }
}

proof fn lemma_prefix_step(ps: Seq<Seq<char>>, k: int)
    requires
        0 <= k < ps.len(),
    ensures
        ps.take(k + 1).drop_last() == ps.take(k),
        ps.take(k + 1).last() == ps[k],
        ps.take(k + 1).len() > 0,
{
    assert(ps.take(k + 1).drop_last() =~= ps.take(k));
}

proof fn lemma_distinct_prefix(ps: Seq<Seq<char>>, raw: Seq<char>, k: int)
    requires
        entries_parse(ps),
        names_distinct(ps),
        0 <= k <= ps.len(),
    ensures
        cookies_from(ps.take(k), raw) is Ok,
        cookies_from(ps.take(k), raw)->Ok_0.len() == entry_count(ps.take(k)),
        forall|m: int|
            0 <= m < cookies_from(ps.take(k), raw)->Ok_0.len() ==> exists|q: int|
                0 <= q < k && ps[q].len() > 0 && (#[trigger] cookies_from(ps.take(k), raw)->Ok_0[m]).0
                    == entry_name(ps[q]),
        forall|q: int|
            0 <= q < k && ps[q].len() > 0 ==> cookie_lookup(
                cookies_from(ps.take(k), raw)->Ok_0,
                #[trigger] entry_name(ps[q]),
            ) == Some(entry_value(ps[q])),
    decreases k,
{
    if k == 0 {
        assert(ps.take(0) =~= Seq::<Seq<char>>::empty());
    } else {
        lemma_distinct_prefix(ps, raw, k - 1);
        lemma_prefix_step(ps, k - 1);
        let acc = cookies_from(ps.take(k - 1), raw)->Ok_0;
        let t = ps[k - 1];
        if t.len() > 0 {
            assert(cookie_pair(t) is Some);
            let p = cookie_pair(t)->Some_0;
            assert forall|m: int| 0 <= m < acc.len() implies (#[trigger] acc[m]).0 != p.0 by {
                let q = choose|q: int| 0 <= q < k - 1 && ps[q].len() > 0 && acc[m].0 == entry_name(ps[q]);
                assert(entry_name(ps[q]) != entry_name(ps[k - 1]));
            };
            lemma_lookup_absent(acc, p.0);
            let acc2 = acc.push(p);
            assert(cookies_from(ps.take(k), raw) == Ok::<Seq<(Seq<char>, Seq<char>)>, ClientErrorModel>(acc2));
            assert(acc2.drop_last() =~= acc);
            assert forall|q: int| 0 <= q < k && ps[q].len() > 0 implies cookie_lookup(
                acc2,
                #[trigger] entry_name(ps[q]),
            ) == Some(entry_value(ps[q])) by {
                if q < k - 1 {
                    assert(entry_name(ps[q]) != entry_name(ps[k - 1]));
                }
            };
            assert forall|m: int| 0 <= m < acc2.len() implies exists|q: int|
                0 <= q < k && ps[q].len() > 0 && (#[trigger] acc2[m]).0 == entry_name(ps[q]) by {
                if m < acc.len() {
                    assert(acc2[m] == acc[m]);
                    let q = choose|q: int| 0 <= q < k - 1 && ps[q].len() > 0 && acc[m].0 == entry_name(ps[q]);
                    assert(0 <= q < k && ps[q].len() > 0 && acc2[m].0 == entry_name(ps[q]));
                } else {
                    assert(acc2[m] == p);
                    assert(0 <= k - 1 < k && ps[k - 1].len() > 0 && acc2[m].0 == entry_name(ps[k - 1]));
                }
            };
        }
    }
}

/// A `Cookie` header whose entries all hold a `=`, and in which entry `j`
/// is the first to repeat a name, that of entry `i`, fails with a
/// duplicate-cookie error naming it, with the values of entries `j` and `i`.
pub proof fn lemma_duplicate_cookie_fails(raw: Seq<char>, i: int, j: int)
    requires
        entries_parse(split_on(raw, ';', ' ')),
        names_distinct(split_on(raw, ';', ' ').take(j)),
        0 <= i < j < split_on(raw, ';', ' ').len(),
        split_on(raw, ';', ' ')[i].len() > 0,
        split_on(raw, ';', ' ')[j].len() > 0,
        entry_name(split_on(raw, ';', ' ')[i]) == entry_name(split_on(raw, ';', ' ')[j]),
    ensures
        cookie_header_value(raw) == Err::<Seq<(Seq<char>, Seq<char>)>, ClientErrorModel>(
            ClientErrorModel::DuplicateCookies {
                name: entry_name(split_on(raw, ';', ' ')[j]),
                value: entry_value(split_on(raw, ';', ' ')[j]),
                old_value: entry_value(split_on(raw, ';', ' ')[i]),
            },
        ),
{
    let ps = split_on(raw, ';', ' ');
    let pre = ps.take(j);
    assert(entries_parse(pre)) by {
        assert forall|x: int| 0 <= x < pre.len() && #[trigger] pre[x].len() > 0 implies cookie_pair(
            pre[x],
        ) is Some by {
            assert(pre[x] == ps[x]);
            assert(ps[x].len() > 0);
        };
    };
    lemma_distinct_prefix(pre, raw, j);
    assert(pre.take(j) =~= ps.take(j));
    assert(pre[i] == ps[i]);
    assert(pre[i].len() > 0);
    assert(cookie_lookup(cookies_from(ps.take(j), raw)->Ok_0, entry_name(pre[i])) == Some(
        entry_value(pre[i]),
    ));
    lemma_prefix_step(ps, j);
    assert(cookie_pair(ps[j]) is Some);
    lemma_cookies_err_extends(ps, j + 1, raw);
}

/// A `Cookie` header whose entries all hold a `=`, with no name twice,
/// gives as many cookies as it has entries, each name with the text after
/// its first `=`.
pub proof fn lemma_distinct_cookies_count(raw: Seq<char>)
    requires
        entries_parse(split_on(raw, ';', ' ')),
        names_distinct(split_on(raw, ';', ' ')),
    ensures
        cookie_header_value(raw) matches Ok(c) && c.len() == entry_count(split_on(raw, ';', ' ')),
        forall|k: int|
            0 <= k < split_on(raw, ';', ' ').len() && split_on(raw, ';', ' ')[k].len() > 0
                ==> cookie_lookup(
                cookie_header_value(raw)->Ok_0,
                #[trigger] entry_name(split_on(raw, ';', ' ')[k]),
            ) == Some(entry_value(split_on(raw, ';', ' ')[k])),
{
    let ps = split_on(raw, ';', ' ');
    lemma_distinct_prefix(ps, raw, ps.len() as int);
    assert(ps.take(ps.len() as int) =~= ps);
}

/// A request without a `Cookie` header has no cookies, and that is no
/// error.
pub proof fn lemma_no_cookie_header(req: Request)
    requires
        header_index(req.headers@, "cookie"@) is None,
    ensures
        request_cookies(req) == Ok::<Seq<(Seq<char>, Seq<char>)>, ErrorModel>(Seq::empty()),
{
}

} // verus!
