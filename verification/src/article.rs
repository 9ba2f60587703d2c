//! Domain values exchanged with the backing service: a published article and
//! the validated editor form that creates or updates one.

use vstd::prelude::*;

verus! {

/// A published article as decoded from the backing service.
#[derive(Debug, PartialEq, Eq)]
pub struct Article {
    pub slug: String,
    pub title: String,
    pub description: String,
    pub body: String,
}

impl Clone for Article {
    fn clone(&self) -> (res: Self)
        ensures
            res == *self,
    {
        Article {
            slug: self.slug.clone(),
            title: self.title.clone(),
            description: self.description.clone(),
            body: self.body.clone(),
        }
    }
}

/// An article-editor form whose fields have passed local validation and may
/// be submitted to the backing service.
#[derive(Debug, PartialEq, Eq)]
pub struct ValidForm {
    pub title: String,
    pub description: String,
    pub body: String,
}

impl Clone for ValidForm {
    fn clone(&self) -> (res: Self)
        ensures
            res == *self,
    {
        ValidForm {
            title: self.title.clone(),
            description: self.description.clone(),
            body: self.body.clone(),
        }
    }
}

impl ValidForm {
    /// The form an editor starts from when composing a new article.
    pub fn empty() -> (res: ValidForm)
        ensures
            res.title@ == Seq::<char>::empty(),
            res.description@ == Seq::<char>::empty(),
            res.body@ == Seq::<char>::empty(),
    {
        ValidForm { title: String::new(), description: String::new(), body: String::new() }
    }

    /// The editor form prefilled from an existing article.
    pub fn of_article(article: &Article) -> (res: ValidForm)
        ensures
            res.title == article.title,
            res.description == article.description,
            res.body == article.body,
    {
        ValidForm {
            title: article.title.clone(),
            description: article.description.clone(),
            body: article.body.clone(),
        }
    }
}

} // verus!
