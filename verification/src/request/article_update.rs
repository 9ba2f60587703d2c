//! Updating an existing article: the request a validated editor form is
//! submitted with, and how the completion of that request is folded back
//! into a domain value or a problem list.

use vstd::prelude::*;
use crate::article::{Article, ValidForm};
use crate::form::{spec_problem_messages, Problem};
use crate::request::{
    article_path, fail_reason_into_problems, spec_errors_of, ApiRequest, FailReason, Method,
    RequestBody,
};
use crate::session::Credentials;

verus! {

/// The call that submits a validated editor form against an existing
/// article.
pub fn update(credentials: Option<Credentials>, valid_form: &ValidForm, slug: &String) -> (res:
    ApiRequest)
    ensures
        res.method == Method::Put,
        res.path@ == "articles/"@ + slug@,
        res.credentials == credentials,
        res.body == RequestBody::ArticleUpsert(*valid_form),
{
    ApiRequest {
        method: Method::Put,
        path: article_path(slug.as_str()),
        credentials,
        body: RequestBody::ArticleUpsert(valid_form.clone()),
    }
}

/// Exactly one completion per issued update: the decoded article on
/// success, otherwise the failure folded into a problem list.
pub fn update_completed(result: Result<Article, FailReason>) -> (res: Result<
    Article,
    Vec<Problem>,
>)
    ensures
        match result {
            Ok(article) => res == Result::<Article, Vec<Problem>>::Ok(article),
            Err(fail) => res matches Err(problems) && spec_problem_messages(problems@)
                == spec_errors_of(fail) && (forall|i: int|
                0 <= i < problems@.len() ==> problems@[i] is ServerError),
        },
{
    match result {
        Ok(article) => Ok(article),
        Err(fail) => Err(fail_reason_into_problems(fail)),
    }
}

} // verus!
