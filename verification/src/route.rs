//! A `Route` is a parsed, typed navigable location. Turning a raw location
//! string into a `Route` is the routing collaborator's job; absence of a
//! match is represented by the caller as `None` and mapped to the not-found
//! page by the core.

use vstd::prelude::*;

verus! {

#[derive(Debug, PartialEq, Eq)]
pub enum Route {
    Root,
    Home,
    Login,
    Register,
    Settings,
    Logout,
    NewArticle,
    EditArticle(String),
    Article(String),
    Profile(String),
}

impl Clone for Route {
    fn clone(&self) -> (res: Self)
        ensures
            res == *self,
    {
        match self {
            Route::Root => Route::Root,
            Route::Home => Route::Home,
            Route::Login => Route::Login,
            Route::Register => Route::Register,
            Route::Settings => Route::Settings,
            Route::Logout => Route::Logout,
            Route::NewArticle => Route::NewArticle,
            Route::EditArticle(slug) => Route::EditArticle(slug.clone()),
            Route::Article(slug) => Route::Article(slug.clone()),
            Route::Profile(username) => Route::Profile(username.clone()),
        }
    }
}

} // verus!
