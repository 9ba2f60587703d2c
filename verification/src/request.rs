//! The request/decode/validate pipeline. A page describes one network
//! operation as an `ApiRequest`; the host performs it and reports back either
//! a decoded domain value or a `FailReason`. Every failure is folded into an
//! ordered problem list by a fixed conversion: an unauthorized response
//! becomes the single problem "session expired", any other failed status
//! becomes one problem per line of the raw error body (or a single generic
//! problem if the body is empty), and a transport fault or a malformed
//! success payload becomes the single generic problem "server error".

pub mod article_delete;
pub mod article_update;

use vstd::prelude::*;
use vstd::string::*;
use crate::form::{spec_problem_messages, Problem};
use crate::session::Credentials;
use crate::article::ValidForm;

verus! {

#[derive(Debug, PartialEq, Eq, Clone, Copy)]
pub enum Method {
    Get,
    Post,
    Put,
    Delete,
}

/// The payload of an outbound call; the host serializes it on the wire.
#[derive(Debug, PartialEq, Eq)]
pub enum RequestBody {
    Empty,
    ArticleUpsert(ValidForm),
}

/// One outbound network operation, described as plain values: the host
/// performs it and hands the outcome back as a decoded value or a
/// `FailReason`.
#[derive(Debug, PartialEq, Eq)]
pub struct ApiRequest {
    pub method: Method,
    pub path: String,
    pub credentials: Option<Credentials>,
    pub body: RequestBody,
}

/// Why an issued request produced no domain value.
#[derive(Debug, PartialEq, Eq)]
pub enum FailReason {
    /// The transport could not complete the call at all.
    RequestFailed,
    /// The service answered with a failing status and this raw error body.
    StatusFailed(u16, String),
    /// The service answered successfully but the payload was malformed.
    DecodeFailed,
}

impl Clone for FailReason {
    fn clone(&self) -> (res: Self)
        ensures
            res == *self,
    {
        match self {
            FailReason::RequestFailed => FailReason::RequestFailed,
            FailReason::StatusFailed(code, body) => FailReason::StatusFailed(*code, body.clone()),
            FailReason::DecodeFailed => FailReason::DecodeFailed,
        }
    }
}

/// The text split at every newline: each newline separates two lines, so the
/// result always has one more line than the text has newlines, and splitting
/// the empty text yields one empty line.
pub open spec fn spec_lines(s: Seq<char>) -> Seq<Seq<char>>
    decreases s.len(),
{
    if s.len() == 0 {
        seq![Seq::<char>::empty()]
    } else if s[0] == '\n' {
        seq![Seq::<char>::empty()] + spec_lines(s.drop_first())
    } else {
        let rest = spec_lines(s.drop_first());
        seq![seq![s[0]] + rest[0]] + rest.drop_first()
    }
}

pub proof fn lemma_lines_nonempty(s: Seq<char>)
    ensures
        spec_lines(s).len() >= 1,
    decreases s.len(),
{
    if s.len() != 0 {
        lemma_lines_nonempty(s.drop_first());
    }
}

/// A text without newlines is a single line.
pub proof fn lemma_lines_no_newline(s: Seq<char>)
    requires
        forall|j: int| 0 <= j < s.len() ==> s[j] != '\n',
    ensures
        spec_lines(s) == seq![s],
    decreases s.len(),
{
    if s.len() == 0 {
        assert(spec_lines(s) =~~= seq![s]);
    } else {
        lemma_lines_no_newline(s.drop_first());
        assert(seq![s[0]] + s.drop_first() =~= s);
        assert(spec_lines(s) =~~= seq![s]);
    }
}

/// Splitting at the first newline: everything before it is the first line,
/// and the rest of the text is split on its own.
pub proof fn lemma_lines_first_newline(s: Seq<char>, k: int)
    requires
        0 <= k < s.len(),
        s[k] == '\n',
        forall|j: int| 0 <= j < k ==> s[j] != '\n',
    ensures
        spec_lines(s) == seq![s.subrange(0, k)] + spec_lines(s.subrange(k + 1, s.len() as int)),
    decreases k,
{
    if k == 0 {
        assert(s.drop_first() =~= s.subrange(1, s.len() as int));
        assert(s.subrange(0, 0) =~= Seq::<char>::empty());
        assert(spec_lines(s) =~~= seq![s.subrange(0, 0)] + spec_lines(
            s.subrange(1, s.len() as int),
        ));
    } else {
        let t = s.drop_first();
        lemma_lines_first_newline(t, k - 1);
        lemma_lines_nonempty(t.subrange(k, t.len() as int));
        let rest = spec_lines(t);
        assert(rest[0] == t.subrange(0, k - 1));
        assert(seq![s[0]] + t.subrange(0, k - 1) =~= s.subrange(0, k));
        assert(rest.drop_first() =~= spec_lines(t.subrange(k, t.len() as int)));
        assert(t.subrange(k, t.len() as int) =~= s.subrange(k + 1, s.len() as int));
        assert(spec_lines(s) =~~= seq![s.subrange(0, k)] + spec_lines(
            s.subrange(k + 1, s.len() as int),
        ));
    }
}

/// The text split at every newline, as owned lines in order.
pub fn split_lines(s: &str) -> (res: Vec<String>)
    ensures
        res.deep_view() == spec_lines(s@),
{
    let n = s.unicode_len();
    let mut res: Vec<String> = Vec::new();
    let mut start: usize = 0;
    let mut i: usize = 0;
    proof {
        assert(s@.subrange(0, n as int) =~= s@);
        assert(res.deep_view() =~~= Seq::<Seq<char>>::empty());
        assert(spec_lines(s@) =~~= res.deep_view() + spec_lines(s@.subrange(0, n as int)));
    }
    while i < n
        invariant
            start <= i <= n,
            n == s@.len(),
            forall|j: int| start <= j < i ==> s@[j] != '\n',
            spec_lines(s@) == res.deep_view() + spec_lines(
                s@.subrange(start as int, n as int),
            ),
        decreases n - i,
    {
        let c = s.get_char(i);
        if c == '\n' {
            let line = String::from_str(s.substring_char(start, i));
            proof {
                let suffix = s@.subrange(start as int, n as int);
                lemma_lines_first_newline(suffix, i - start);
                assert(suffix.subrange(0, i - start) =~= s@.subrange(start as int, i as int));
                assert(suffix.subrange(i - start + 1, suffix.len() as int) =~= s@.subrange(
                    i + 1,
                    n as int,
                ));
            }
            let ghost old_res = res.deep_view();
            res.push(line);
            proof {
                assert(res.deep_view() =~~= old_res.push(s@.subrange(start as int, i as int)));
                assert(old_res.push(s@.subrange(start as int, i as int)) =~~= old_res + seq![
                    s@.subrange(start as int, i as int),
                ]);
                assert(spec_lines(s@) =~~= res.deep_view() + spec_lines(
                    s@.subrange(i + 1, n as int),
                ));
            }
            start = i + 1;
        }
        i = i + 1;
    }
    let line = String::from_str(s.substring_char(start, n));
    proof {
        lemma_lines_no_newline(s@.subrange(start as int, n as int));
    }
    let ghost old_res = res.deep_view();
    res.push(line);
    proof {
        assert(res.deep_view() =~~= old_res.push(s@.subrange(start as int, n as int)));
        assert(spec_lines(s@) =~~= res.deep_view());
    }
    res
}

/// The problem list a failure is folded into: "session expired" for an
/// unauthorized response, one problem per body line for any other failed
/// status, and the generic "server error" for an empty body, a transport
/// fault or a malformed payload.
pub open spec fn spec_errors_of(fail: FailReason) -> Seq<Seq<char>> {
    match fail {
        FailReason::RequestFailed => seq!["server error"@],
        FailReason::StatusFailed(code, body) => if code == 401 {
            seq!["session expired"@]
        } else if body@.len() == 0 {
            seq!["server error"@]
        } else {
            spec_lines(body@)
        },
        FailReason::DecodeFailed => seq!["server error"@],
    }
}

fn single_error(message: &str) -> (res: Vec<String>)
    ensures
        res.deep_view() == seq![message@],
{
    let mut res: Vec<String> = Vec::new();
    res.push(String::from_str(message));
    proof {
        assert(res.deep_view() =~~= seq![message@]);
    }
    res
}

/// The fixed conversion from a failure to its ordered error messages.
pub fn fail_reason_into_errors(fail: FailReason) -> (res: Vec<String>)
    ensures
        res.deep_view() == spec_errors_of(fail),
{
    match fail {
        FailReason::RequestFailed => single_error("server error"),
        FailReason::StatusFailed(code, body) => {
            if code == 401 {
                single_error("session expired")
            } else if body.as_str().unicode_len() == 0 {
                single_error("server error")
            } else {
                split_lines(body.as_str())
            }
        },
        FailReason::DecodeFailed => single_error("server error"),
    }
}

/// The fixed conversion from a failure to a problem list: the same messages,
/// each carried as a server error.
pub fn fail_reason_into_problems(fail: FailReason) -> (res: Vec<Problem>)
    ensures
        spec_problem_messages(res@) == spec_errors_of(fail),
        forall|i: int| 0 <= i < res@.len() ==> res@[i] is ServerError,
{
    let errors = fail_reason_into_errors(fail);
    let mut res: Vec<Problem> = Vec::new();
    let mut i: usize = 0;
    while i < errors.len()
        invariant
            i <= errors.len(),
            res@.len() == i,
            forall|j: int| 0 <= j < i ==> res@[j] is ServerError,
            forall|j: int| 0 <= j < i ==> #[trigger] res@[j]->ServerError_0@ == errors.deep_view()[j],
        decreases errors.len() - i,
    {
        res.push(Problem::ServerError(errors[i].clone()));
        i = i + 1;
    }
    proof {
        assert(spec_problem_messages(res@) =~~= errors.deep_view());
    }
    res
}

/// One outbound call, described for the host to perform: the outcome of the
/// call comes back to the page that issued it as a completion message, built
/// from the decoded value or from the failure's problem list.
pub fn issue(
    method: Method,
    path: String,
    credentials: Option<Credentials>,
    body: RequestBody,
) -> (res: ApiRequest)
    ensures
        res.method == method,
        res.path == path,
        res.credentials == credentials,
        res.body == body,
{
    ApiRequest { method, path, credentials, body }
}

/// A plain GET request against the backing service, the form every page
/// request starts from.
pub fn new_api_request(path: String, credentials: Option<Credentials>) -> (res: ApiRequest)
    ensures
        res.method == Method::Get,
        res.path == path,
        res.credentials == credentials,
        res.body == RequestBody::Empty,
{
    ApiRequest { method: Method::Get, path, credentials, body: RequestBody::Empty }
}

/// The service path of one article.
pub fn article_path(slug: &str) -> (res: String)
    ensures
        res@ == "articles/"@ + slug@,
{
    String::from_str("articles/").concat(slug)
}

/// The service path of one user's profile.
pub fn profile_path(username: &str) -> (res: String)
    ensures
        res@ == "profiles/"@ + username@,
{
    String::from_str("profiles/").concat(username)
}

} // verus!
