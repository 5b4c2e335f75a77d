//! The path router. A request's path is split at `/` and read one segment
//! at a time, front to back, down a fixed tree of literal and numeric
//! segments. The result is a plan: the lookups that must succeed, in order
//! (a session, then each entity a numeric segment names), and what to do
//! once they have.
//!
//! Whoever carries out a plan performs its lookups in order. A session that
//! is not found starts the login flow; an entity that does not exist, or is
//! not visible in the session's scope, ends the request with
//! `Error::path_not_found`. When all are found, the outcome applies.
use vstd::prelude::*;
use vstd::string::*;
use crate::error::{ClientError, ClientErrorModel, Error, ErrorModel, client};
use crate::http::Request;
use crate::number::{i64_parse, int_error_message, parse_i64};
use crate::request::{cookie_lookup, cookie_value, parse_cookies, request_cookies};
use crate::text::{same_text, split_on, split_on_chars, views};

verus! {

/// The pages at the leaves of the tree.
#[derive(PartialEq, Eq, Structural, Clone, Copy, Debug)]
pub enum Page {
    /// `GET /`
    Index,
    /// `GET /post-login`, where the identity provider sends the user back
    PostLogin,
    /// `GET /styles.css`
    Styles,
    /// `GET /bookkeepings/`
    Bookkeepings,
    /// `POST /bookkeepings/`
    NewBookkeeping,
    /// `GET /bookkeepings/{b}/`
    Bookkeeping,
    /// `POST /bookkeepings/{b}/accounts/`
    NewAccount,
    /// `POST /bookkeepings/{b}/groupings/`
    NewGrouping,
    /// `GET /bookkeepings/{b}/groupings/{g}/`
    Grouping,
    /// `POST /bookkeepings/{b}/groupings/{g}/transactions/`
    NewTransaction,
    /// `GET /bookkeepings/{b}/groupings/{g}/transactions/{t}/`
    Transaction,
    /// `POST /bookkeepings/{b}/groupings/{g}/transactions/{t}/account-changes/`
    NewAccountChange,
    /// `GET /bookkeepings/{b}/imported_account_changes/`
    ImportedAccountChanges,
}

/// Something that must be found before the outcome applies.
pub enum Lookup {
    /// The session with this identifier.
    Session(String),
    /// The bookkeeping with this id, among those the session may see.
    Bookkeeping(i64),
    /// The grouping with this id, within the bookkeeping looked up before.
    Grouping(i64),
    /// The transaction with this id, within the grouping looked up before.
    Transaction(i64),
}

/// What to do once the lookups have succeeded.
pub enum Outcome {
    Serve(Page),
    /// A permanent redirect to this location.
    Redirect(String),
    /// The request has no session cookie: start the login flow.
    StartLogin,
    Fail(Error),
}

pub struct RoutePlan {
    pub lookups: Vec<Lookup>,
    pub outcome: Outcome,
}

pub enum LookupModel {
    Session(Seq<char>),
    Bookkeeping(int),
    Grouping(int),
    Transaction(int),
}

pub enum OutcomeModel {
    Serve(Page),
    Redirect(Seq<char>),
    StartLogin,
    Fail(ErrorModel),
}

pub type PlanModel = (Seq<LookupModel>, OutcomeModel);

impl View for Lookup {
    type V = LookupModel;

    open spec fn view(&self) -> LookupModel {
        match self {
            Lookup::Session(s) => LookupModel::Session(s@),
            Lookup::Bookkeeping(b) => LookupModel::Bookkeeping(*b as int),
            Lookup::Grouping(g) => LookupModel::Grouping(*g as int),
            Lookup::Transaction(t) => LookupModel::Transaction(*t as int),
        }
    }
}

impl View for Outcome {
    type V = OutcomeModel;

    open spec fn view(&self) -> OutcomeModel {
        match self {
            Outcome::Serve(p) => OutcomeModel::Serve(*p),
            Outcome::Redirect(l) => OutcomeModel::Redirect(l@),
            Outcome::StartLogin => OutcomeModel::StartLogin,
            Outcome::Fail(e) => OutcomeModel::Fail(e@),
        }
    }
}

impl View for RoutePlan {
    type V = PlanModel;

    open spec fn view(&self) -> PlanModel {
        (self.lookups@.map_values(|l: Lookup| l@), self.outcome@)
    }
}

/// The segments of a request's path.
pub open spec fn segments(req: Request) -> Seq<Seq<char>> {
    split_on(req.path@, '/', '/')
}

pub open spec fn only(o: OutcomeModel) -> PlanModel {
    (Seq::empty(), o)
}

pub open spec fn after(l: LookupModel, p: PlanModel) -> PlanModel {
    (seq![l] + p.0, p.1)
}

pub open spec fn redirect_to_dir(req: Request) -> OutcomeModel {
    OutcomeModel::Redirect(req.path@ + "/"@)
}

pub open spec fn not_found(req: Request) -> OutcomeModel {
    OutcomeModel::Fail(client(ClientErrorModel::PathNotFound(req.path@)))
}

/// A terminal resource at segment `k`: no segment may follow, and the
/// method must be one the resource serves.
pub open spec fn end_page(req: Request, k: int, get: Option<Page>, post: Option<Page>) -> OutcomeModel {
    if k < segments(req).len() {
        not_found(req)
    } else if req.method@ == "GET"@ && get is Some {
        OutcomeModel::Serve(get->Some_0)
    } else if req.method@ == "POST"@ && post is Some {
        OutcomeModel::Serve(post->Some_0)
    } else {
        OutcomeModel::Fail(
            client(ClientErrorModel::MethodNotFound { method: req.method@, path: req.path@ }),
        )
    }
}

/// A numeric segment that is not an integer.
pub open spec fn bad_index(k: crate::number::IntErrorKind) -> OutcomeModel {
    OutcomeModel::Fail(client(ClientErrorModel::InvalidIndexPath(int_error_message(k))))
}

pub open spec fn route_plan(req: Request) -> PlanModel {
    let segs = segments(req);
    if segs[0].len() != 0 {
        only(OutcomeModel::Fail(client(ClientErrorModel::PathDataBeforeRoot(segs[0]))))
    } else if segs.len() < 2 {
        only(redirect_to_dir(req))
    } else if segs[1] == ""@ {
        only(end_page(req, 2, Some(Page::Index), None))
    } else if segs[1] == "post-login"@ {
        only(end_page(req, 2, Some(Page::PostLogin), None))
    } else if segs[1] == "bookkeepings"@ {
        bookkeepings_plan(req, 2)
    } else if segs[1] == "styles.css"@ {
        only(end_page(req, 2, Some(Page::Styles), None))
    } else {
        only(not_found(req))
    }
}

/// Under `/bookkeepings`, a session is needed before anything else.
pub open spec fn bookkeepings_plan(req: Request, k: int) -> PlanModel {
    match request_cookies(req) {
        Err(e) => only(OutcomeModel::Fail(e)),
        Ok(c) => match cookie_lookup(c, "session"@) {
            None => only(OutcomeModel::StartLogin),
            Some(id) => after(LookupModel::Session(id), bookkeepings_rest(req, k)),
        },
    }
}

pub open spec fn bookkeepings_rest(req: Request, k: int) -> PlanModel {
    let segs = segments(req);
    if k >= segs.len() {
        only(redirect_to_dir(req))
    } else if segs[k] == ""@ {
        only(end_page(req, k + 1, Some(Page::Bookkeepings), Some(Page::NewBookkeeping)))
    } else {
        match i64_parse(segs[k]) {
            Err(e) => only(bad_index(e)),
            Ok(b) => after(LookupModel::Bookkeeping(b), bookkeeping_plan(req, k + 1)),
        }
    }
}

pub open spec fn bookkeeping_plan(req: Request, k: int) -> PlanModel {
    let segs = segments(req);
    if k >= segs.len() {
        only(redirect_to_dir(req))
    } else if segs[k] == ""@ {
        only(end_page(req, k + 1, Some(Page::Bookkeeping), None))
    } else if segs[k] == "accounts"@ {
        only(leaf_plan(req, k + 1, None, Some(Page::NewAccount)))
    } else if segs[k] == "groupings"@ {
        groupings_plan(req, k + 1)
    } else if segs[k] == "imported_account_changes"@ {
        only(leaf_plan(req, k + 1, Some(Page::ImportedAccountChanges), None))
    } else {
        only(not_found(req))
    }
}

/// A level with nothing below its own page.
pub open spec fn leaf_plan(req: Request, k: int, get: Option<Page>, post: Option<Page>) -> OutcomeModel {
    let segs = segments(req);
    if k >= segs.len() {
        redirect_to_dir(req)
    } else if segs[k] == ""@ {
        end_page(req, k + 1, get, post)
    } else {
        not_found(req)
    }
}

pub open spec fn groupings_plan(req: Request, k: int) -> PlanModel {
    let segs = segments(req);
    if k >= segs.len() {
        only(redirect_to_dir(req))
    } else if segs[k] == ""@ {
        only(end_page(req, k + 1, None, Some(Page::NewGrouping)))
    } else {
        match i64_parse(segs[k]) {
            Err(e) => only(bad_index(e)),
            Ok(g) => after(LookupModel::Grouping(g), grouping_plan(req, k + 1)),
        }
    }
}

pub open spec fn grouping_plan(req: Request, k: int) -> PlanModel {
    let segs = segments(req);
    if k >= segs.len() {
        only(redirect_to_dir(req))
    } else if segs[k] == ""@ {
        only(end_page(req, k + 1, Some(Page::Grouping), None))
    } else if segs[k] == "transactions"@ {
        transactions_plan(req, k + 1)
    } else {
        only(not_found(req))
    }
}

pub open spec fn transactions_plan(req: Request, k: int) -> PlanModel {
    let segs = segments(req);
    if k >= segs.len() {
        only(redirect_to_dir(req))
    } else if segs[k] == ""@ {
        only(end_page(req, k + 1, None, Some(Page::NewTransaction)))
    } else {
        match i64_parse(segs[k]) {
            Err(e) => only(bad_index(e)),
            Ok(t) => after(LookupModel::Transaction(t), transaction_plan(req, k + 1)),
        }
    }
}

pub open spec fn transaction_plan(req: Request, k: int) -> PlanModel {
    let segs = segments(req);
    if k >= segs.len() {
        only(redirect_to_dir(req))
    } else if segs[k] == ""@ {
        only(end_page(req, k + 1, Some(Page::Transaction), None))
    } else if segs[k] == "account-changes"@ {
        only(leaf_plan(req, k + 1, None, Some(Page::NewAccountChange)))
    } else {
        only(not_found(req))
    }
}

pub open spec fn is_index(s: Seq<char>) -> bool {
    i64_parse(s) is Ok
}

/// Whether `t`, the segments after the root, name a directory-style
/// resource without its trailing slash: `/`, `/bookkeepings`,
/// `/bookkeepings/{b}`, its `accounts`, `groupings` and
/// `imported_account_changes`, `groupings/{g}`, its `transactions`,
/// `transactions/{t}` and its `account-changes`.
pub open spec fn directory_tail(t: Seq<Seq<char>>) -> bool {
    ||| t.len() == 0
    ||| t.len() == 1 && t[0] == "bookkeepings"@
    ||| t.len() >= 2 && t[0] == "bookkeepings"@ && is_index(t[1]) && {
        ||| t.len() == 2
        ||| t.len() == 3 && (t[2] == "accounts"@ || t[2] == "imported_account_changes"@
            || t[2] == "groupings"@)
        ||| t.len() >= 4 && t[2] == "groupings"@ && is_index(t[3]) && {
            ||| t.len() == 4
            ||| t.len() == 5 && t[4] == "transactions"@
            ||| t.len() >= 6 && t[4] == "transactions"@ && is_index(t[5]) && {
                ||| t.len() == 6
                ||| t.len() == 7 && t[6] == "account-changes"@
            }
        }
    }
}

/// Whether a path's segments name a directory-style resource, without its
/// trailing slash.
pub open spec fn directory_path(segs: Seq<Seq<char>>) -> bool {
    segs.len() >= 1 && segs[0].len() == 0 && directory_tail(segs.drop_first())
}

/// A request for a directory-style resource whose path lacks the trailing
/// slash is answered with a permanent redirect to the same path plus `/`.
/// Under `/bookkeepings` this holds once the request has a session.
pub proof fn lemma_directory_redirect(req: Request)
    requires
        directory_path(segments(req)),
        segments(req).len() > 1 ==> (request_cookies(req) matches Ok(c) && cookie_lookup(
            c,
            "session"@,
        ) is Some),
    ensures
        route_plan(req).1 == redirect_to_dir(req),
{
    reveal_strlit("");
    reveal_strlit("post-login");
    reveal_strlit("bookkeepings");
    reveal_strlit("styles.css");
    reveal_strlit("accounts");
    reveal_strlit("groupings");
    reveal_strlit("imported_account_changes");
    reveal_strlit("transactions");
    reveal_strlit("account-changes");
    let segs = segments(req);
    let t = segs.drop_first();
    crate::text::lemma_split_on_nonempty(req.path@, '/', '/');
    assert(forall|i: int| 0 <= i < t.len() ==> t[i] == #[trigger] segs[i + 1]);
    assert(forall|x: Seq<char>| #[trigger] is_index(x) ==> x != ""@);
    if t.len() == 0 {
        return;
    }
    assert(segs[1] == "bookkeepings"@);
    assert(segs[1] != ""@ && segs[1] != "post-login"@);
    assert(route_plan(req) == bookkeepings_plan(req, 2));
    let c = request_cookies(req)->Ok_0;
    assert(bookkeepings_plan(req, 2).1 == bookkeepings_rest(req, 2).1);
    if t.len() == 1 {
        return;
    }
    assert(is_index(segs[2]));
    assert(bookkeepings_rest(req, 2).1 == bookkeeping_plan(req, 3).1);
    if t.len() == 2 {
        return;
    }
    if t.len() == 3 {
        if segs[3] == "accounts"@ {
            assert(bookkeeping_plan(req, 3).1 == leaf_plan(req, 4, None, Some(Page::NewAccount)));
        } else if segs[3] == "groupings"@ {
            assert(bookkeeping_plan(req, 3) == groupings_plan(req, 4));
        } else {
            assert(segs[3] == "imported_account_changes"@);
            assert(bookkeeping_plan(req, 3).1 == leaf_plan(
                req,
                4,
                Some(Page::ImportedAccountChanges),
                None,
            ));
        }
        return;
    }
    assert(t[2] == segs[3]);
    assert(t[3] == segs[4]);
    assert(segs[3] == "groupings"@);
    assert("groupings"@.len() == 9 && "accounts"@.len() == 8 && ""@.len() == 0);
    assert(segs[3] != ""@ && segs[3] != "accounts"@);
    assert(bookkeeping_plan(req, 3) == groupings_plan(req, 4));
    assert(is_index(segs[4]));
    assert(groupings_plan(req, 4).1 == grouping_plan(req, 5).1);
    if t.len() == 4 {
        return;
    }
    assert(t[4] == segs[5]);
    assert(segs[5] == "transactions"@);
    assert(grouping_plan(req, 5) == transactions_plan(req, 6));
    if t.len() == 5 {
        return;
    }
    assert(t[5] == segs[6]);
    assert(is_index(segs[6]));
    assert(transactions_plan(req, 6).1 == transaction_plan(req, 7).1);
    if t.len() == 6 {
        return;
    }
    assert(t[6] == segs[7]);
    assert(segs[7] == "account-changes"@);
    assert(transaction_plan(req, 7).1 == leaf_plan(req, 8, None, Some(Page::NewAccountChange)));
}

/// The outcome of a plan once its lookups have been tried in order, where
/// `missing` is the first that found nothing, if any: a missing session
/// starts the login flow, a missing entity is a path that does not exist.
pub open spec fn settle_model(p: PlanModel, req: Request, missing: Option<int>) -> OutcomeModel {
    match missing {
        None => p.1,
        Some(i) => if p.0[i] is Session {
            OutcomeModel::StartLogin
        } else {
            not_found(req)
        },
    }
}

impl RoutePlan {
    /// What to do once the lookups have been tried in order; `missing` is
    /// the index of the first that found nothing, if any.
    pub fn settle(self, req: &Request, missing: Option<usize>) -> (r: Outcome)
        requires
            missing matches Some(i) ==> i < self.lookups@.len(),
        ensures
            r@ == settle_model(
                self@,
                *req,
                match missing {
                    Some(i) => Some(i as int),
                    None => None,
                },
            ),
    {
        match missing {
            None => self.outcome,
            Some(i) => match &self.lookups[i] {
                Lookup::Session(_) => Outcome::StartLogin,
                _ => not_found_outcome(req),
            },
        }
    }
}

/// Under `/bookkeepings`, a request without a session cookie, or whose
/// session cookie is not in the session store, is sent to log in, not
/// refused or reported missing.
pub proof fn lemma_no_session_starts_login(req: Request)
    requires
        segments(req).len() >= 2,
        segments(req)[0].len() == 0,
        segments(req)[1] == "bookkeepings"@,
        request_cookies(req) is Ok,
    ensures
        cookie_lookup(request_cookies(req)->Ok_0, "session"@) is None ==> route_plan(req) == only(
            OutcomeModel::StartLogin,
        ),
        cookie_lookup(request_cookies(req)->Ok_0, "session"@) matches Some(id) ==> (route_plan(
            req,
        ).0[0] == LookupModel::Session(id) && settle_model(route_plan(req), req, Some(0))
            == OutcomeModel::StartLogin),
{
    reveal_strlit("");
    reveal_strlit("post-login");
    reveal_strlit("bookkeepings");
    let segs = segments(req);
    assert(""@.len() == 0 && "post-login"@.len() == 10 && "bookkeepings"@.len() == 12);
    assert(segs[1] != ""@ && segs[1] != "post-login"@);
    assert(route_plan(req) == bookkeepings_plan(req, 2));
}

fn only_outcome(o: Outcome) -> (r: RoutePlan)
    ensures
        r@ == only(o@),
{
    let r = RoutePlan { lookups: Vec::new(), outcome: o };
    proof {
        assert(r@.0 =~= Seq::<LookupModel>::empty());
    }
    r
}

fn after_lookup(l: Lookup, p: RoutePlan) -> (r: RoutePlan)
    ensures
        r@ == after(l@, p@),
{
    let mut lookups = p.lookups;
    let ghost before = lookups@;
    let ghost lv = l@;
    lookups.insert(0, l);
    let r = RoutePlan { lookups, outcome: p.outcome };
    proof {
        assert(r@.0 =~= seq![lv] + before.map_values(|x: Lookup| x@));
    }
    r
}

fn redirect_outcome(req: &Request) -> (r: Outcome)
    ensures
        r@ == redirect_to_dir(*req),
{
    Outcome::Redirect(req.path.clone().concat("/"))
}

fn not_found_outcome(req: &Request) -> (r: Outcome)
    ensures
        r@ == not_found(*req),
{
    Outcome::Fail(Error::path_not_found(req))
}

fn seg_is(segs: &Vec<String>, k: usize, lit: &str) -> (r: bool)
    requires
        k < segs@.len(),
    ensures
        r == (views(segs@)[k as int] == lit@),
{
    same_text(segs[k].as_str(), lit)
}

fn end_page_outcome(req: &Request, segs: &Vec<String>, k: usize, get: Option<Page>, post: Option<Page>) -> (r: Outcome)
    requires
        views(segs@) == segments(*req),
    ensures
        r@ == end_page(*req, k as int, get, post),
{
    if k < segs.len() {
        not_found_outcome(req)
    } else if same_text(req.method.as_str(), "GET") && get.is_some() {
        Outcome::Serve(get.unwrap())
    } else if same_text(req.method.as_str(), "POST") && post.is_some() {
        Outcome::Serve(post.unwrap())
    } else {
        Outcome::Fail(Error::method_not_found(req))
    }
}

fn bad_index_outcome(k: crate::number::IntErrorKind) -> (r: Outcome)
    ensures
        r@ == bad_index(k),
{
    Outcome::Fail(Error::ClientError(ClientError::InvalidIndexPath(String::from_str(k.message()))))
}

fn leaf_outcome(req: &Request, segs: &Vec<String>, k: usize, get: Option<Page>, post: Option<Page>) -> (r: Outcome)
    requires
        views(segs@) == segments(*req),
        k <= segs@.len(),
    ensures
        r@ == leaf_plan(*req, k as int, get, post),
{
    if k >= segs.len() {
        redirect_outcome(req)
    } else if seg_is(segs, k, "") {
        end_page_outcome(req, segs, k + 1, get, post)
    } else {
        not_found_outcome(req)
    }
}

fn transaction_route(req: &Request, segs: &Vec<String>, k: usize) -> (r: RoutePlan)
    requires
        views(segs@) == segments(*req),
        k <= segs@.len(),
    ensures
        r@ == transaction_plan(*req, k as int),
{
    if k >= segs.len() {
        only_outcome(redirect_outcome(req))
    } else if seg_is(segs, k, "") {
        only_outcome(end_page_outcome(req, segs, k + 1, Some(Page::Transaction), None))
    } else if seg_is(segs, k, "account-changes") {
        only_outcome(leaf_outcome(req, segs, k + 1, None, Some(Page::NewAccountChange)))
    } else {
        only_outcome(not_found_outcome(req))
    }
}

fn transactions_route(req: &Request, segs: &Vec<String>, k: usize) -> (r: RoutePlan)
    requires
        views(segs@) == segments(*req),
        k <= segs@.len(),
    ensures
        r@ == transactions_plan(*req, k as int),
{
    if k >= segs.len() {
        only_outcome(redirect_outcome(req))
    } else if seg_is(segs, k, "") {
        only_outcome(end_page_outcome(req, segs, k + 1, None, Some(Page::NewTransaction)))
    } else {
        match parse_i64(segs[k].as_str()) {
            Err(e) => only_outcome(bad_index_outcome(e)),
            Ok(t) => after_lookup(Lookup::Transaction(t), transaction_route(req, segs, k + 1)),
        }
    }
}

fn grouping_route(req: &Request, segs: &Vec<String>, k: usize) -> (r: RoutePlan)
    requires
        views(segs@) == segments(*req),
        k <= segs@.len(),
    ensures
        r@ == grouping_plan(*req, k as int),
{
    if k >= segs.len() {
        only_outcome(redirect_outcome(req))
    } else if seg_is(segs, k, "") {
        only_outcome(end_page_outcome(req, segs, k + 1, Some(Page::Grouping), None))
    } else if seg_is(segs, k, "transactions") {
        transactions_route(req, segs, k + 1)
    } else {
        only_outcome(not_found_outcome(req))
    }
}

fn groupings_route(req: &Request, segs: &Vec<String>, k: usize) -> (r: RoutePlan)
    requires
        views(segs@) == segments(*req),
        k <= segs@.len(),
    ensures
        r@ == groupings_plan(*req, k as int),
{
    if k >= segs.len() {
        only_outcome(redirect_outcome(req))
    } else if seg_is(segs, k, "") {
        only_outcome(end_page_outcome(req, segs, k + 1, None, Some(Page::NewGrouping)))
    } else {
        match parse_i64(segs[k].as_str()) {
            Err(e) => only_outcome(bad_index_outcome(e)),
            Ok(g) => after_lookup(Lookup::Grouping(g), grouping_route(req, segs, k + 1)),
        }
    }
}

fn bookkeeping_route(req: &Request, segs: &Vec<String>, k: usize) -> (r: RoutePlan)
    requires
        views(segs@) == segments(*req),
        k <= segs@.len(),
    ensures
        r@ == bookkeeping_plan(*req, k as int),
{
    if k >= segs.len() {
        only_outcome(redirect_outcome(req))
    } else if seg_is(segs, k, "") {
        only_outcome(end_page_outcome(req, segs, k + 1, Some(Page::Bookkeeping), None))
    } else if seg_is(segs, k, "accounts") {
        only_outcome(leaf_outcome(req, segs, k + 1, None, Some(Page::NewAccount)))
    } else if seg_is(segs, k, "groupings") {
        groupings_route(req, segs, k + 1)
    } else if seg_is(segs, k, "imported_account_changes") {
        only_outcome(leaf_outcome(req, segs, k + 1, Some(Page::ImportedAccountChanges), None))
    } else {
        only_outcome(not_found_outcome(req))
    }
}

fn bookkeepings_rest_route(req: &Request, segs: &Vec<String>, k: usize) -> (r: RoutePlan)
    requires
        views(segs@) == segments(*req),
        k <= segs@.len(),
    ensures
        r@ == bookkeepings_rest(*req, k as int),
{
    if k >= segs.len() {
        only_outcome(redirect_outcome(req))
    } else if seg_is(segs, k, "") {
        only_outcome(
            end_page_outcome(req, segs, k + 1, Some(Page::Bookkeepings), Some(Page::NewBookkeeping)),
        )
    } else {
        match parse_i64(segs[k].as_str()) {
            Err(e) => only_outcome(bad_index_outcome(e)),
            Ok(b) => after_lookup(Lookup::Bookkeeping(b), bookkeeping_route(req, segs, k + 1)),
        }
    }
}

fn bookkeepings_route(req: &Request, segs: &Vec<String>, k: usize) -> (r: RoutePlan)
    requires
        views(segs@) == segments(*req),
        k <= segs@.len(),
    ensures
        r@ == bookkeepings_plan(*req, k as int),
{
    match parse_cookies(req) {
        Err(e) => only_outcome(Outcome::Fail(e)),
        Ok(cookies) => match cookie_value(&cookies, "session") {
            None => only_outcome(Outcome::StartLogin),
            Some(id) => after_lookup(Lookup::Session(id), bookkeepings_rest_route(req, segs, k)),
        },
    }
}

/// Routes a request: splits its path into segments and reads them down the
/// tree of pages.
pub fn route(req: &Request) -> (r: RoutePlan)
    ensures
        r@ == route_plan(*req),
{
    let segs = split_on_chars(req.path.as_str(), '/', '/');
    proof {
        crate::text::lemma_split_on_nonempty(req.path@, '/', '/');
        reveal_strlit("");
        if views(segs@)[0].len() == 0 {
            assert(views(segs@)[0] =~= ""@);
        }
    }
    if !seg_is(&segs, 0, "") {
        return only_outcome(Outcome::Fail(Error::path_data_before_root(segs[0].clone())));
    }
    if segs.len() < 2 {
        only_outcome(redirect_outcome(req))
    } else if seg_is(&segs, 1, "") {
        only_outcome(end_page_outcome(req, &segs, 2, Some(Page::Index), None))
    } else if seg_is(&segs, 1, "post-login") {
        only_outcome(end_page_outcome(req, &segs, 2, Some(Page::PostLogin), None))
    } else if seg_is(&segs, 1, "bookkeepings") {
        bookkeepings_route(req, &segs, 2)
    } else if seg_is(&segs, 1, "styles.css") {
        only_outcome(end_page_outcome(req, &segs, 2, Some(Page::Styles), None))
    } else {
        only_outcome(not_found_outcome(req))
    }
}

} // verus!
