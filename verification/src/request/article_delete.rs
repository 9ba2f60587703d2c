//! Deleting an article: the request, built with the credentials of whoever
//! is logged in, and how its completion is folded back into plain error
//! messages.

use vstd::prelude::*;
use crate::request::{
    article_path, fail_reason_into_errors, spec_errors_of, ApiRequest, FailReason, Method,
    RequestBody,
};
use crate::session::{spec_credentials_of, Session};

verus! {

/// The call that deletes one article on behalf of the current session.
pub fn delete_article(session: &Session, slug: &String) -> (res: ApiRequest)
    ensures
        res.method == Method::Delete,
        res.path@ == "articles/"@ + slug@,
        res.credentials == spec_credentials_of(*session),
        res.body == RequestBody::Empty,
{
    ApiRequest {
        method: Method::Delete,
        path: article_path(slug.as_str()),
        credentials: session.credentials(),
        body: RequestBody::Empty,
    }
}

/// Exactly one completion per issued deletion: the deletion carries no
/// payload, so success is plain, and a failure is folded into its error
/// messages.
pub fn delete_article_completed(result: Result<(), FailReason>) -> (res: Result<(), Vec<String>>)
    ensures
        match result {
            Ok(_) => res is Ok,
            Err(fail) => res matches Err(errors) && errors.deep_view() == spec_errors_of(fail),
        },
{
    match result {
        Ok(_) => Ok(()),
        Err(fail) => Err(fail_reason_into_errors(fail)),
    }
}

} // verus!
