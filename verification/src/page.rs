//! One module's worth of state per page kind. Each page owns its private
//! model, an `update` for its own messages (completions of requests it
//! issued), and a handler for global events. Entering a page goes through its
//! `init`, which receives the session carried over from the previous page and
//! may schedule requests; the page is entered immediately, before those
//! requests resolve.

use vstd::prelude::*;
use crate::article::{Article, ValidForm};
use crate::form::Problem;
use crate::request::{article_path, new_api_request, profile_path, ApiRequest, Method, RequestBody};
use crate::route::Route;
use crate::session::{spec_credentials_of, Session};
use crate::{go_to_cmds, Cmd, GMsg};

verus! {

/// Which chrome the rendering collaborator draws around the active page.
#[derive(Debug, PartialEq, Eq)]
pub enum Page {
    Other,
    Home,
    Settings,
    Login,
    Register,
    NewArticle,
    Profile(String),
}

/// Another user's public profile, as decoded from the backing service.
#[derive(Debug, PartialEq, Eq)]
pub struct Author {
    pub username: String,
    pub bio: String,
}

// Home

#[derive(Debug, PartialEq, Eq)]
pub struct HomeModel {
    pub session: Session,
    pub feed: Option<Vec<Article>>,
    pub errors: Vec<String>,
}

#[derive(Debug, PartialEq, Eq)]
pub enum HomeMsg {
    FeedLoadCompleted(Result<Vec<Article>, Vec<String>>),
}

/// The feed request the home page issues on entry.
pub open spec fn home_feed_request(s: Session, req: ApiRequest) -> bool {
    &&& req.method == Method::Get
    &&& req.path@ == "articles"@
    &&& req.credentials == spec_credentials_of(s)
    &&& req.body == RequestBody::Empty
}

pub open spec fn home_init_post(s: Session, m: HomeModel, cmds: Seq<Cmd>) -> bool {
    &&& m.session == s
    &&& m.feed is None
    &&& m.errors@ == Seq::<String>::empty()
    &&& cmds.len() == 1
    &&& cmds[0] matches Cmd::Fetch(req) && home_feed_request(s, req)
}

pub fn home_init(session: Session) -> (res: (HomeModel, Vec<Cmd>))
    ensures
        home_init_post(session, res.0, res.1@),
{
    let credentials = session.credentials();
    let model = HomeModel { session, feed: None, errors: Vec::new() };
    let mut cmds: Vec<Cmd> = Vec::new();
    cmds.push(Cmd::Fetch(new_api_request(String::from_str("articles"), credentials)));
    (model, cmds)
}

pub open spec fn home_update_post(msg: HomeMsg, pre: HomeModel, post: HomeModel, cmds: Seq<Cmd>) -> bool {
    match msg {
        HomeMsg::FeedLoadCompleted(result) => match result {
            Ok(articles) => {
                &&& post.session == pre.session
                &&& post.feed == Some(articles)
                &&& post.errors == pre.errors
                &&& cmds == Seq::<Cmd>::empty()
            },
            Err(errors) => {
                &&& post.session == pre.session
                &&& post.feed == pre.feed
                &&& post.errors == errors
                &&& cmds == Seq::<Cmd>::empty()
            },
        },
    }
}

pub fn home_update(msg: HomeMsg, model: HomeModel) -> (res: (HomeModel, Vec<Cmd>))
    ensures
        home_update_post(msg, model, res.0, res.1@),
{
    match msg {
        HomeMsg::FeedLoadCompleted(result) => match result {
            Ok(articles) => (HomeModel { feed: Some(articles), ..model }, Vec::new()),
            Err(errors) => (HomeModel { errors, ..model }, Vec::new()),
        },
    }
}

// Settings

#[derive(Debug, PartialEq, Eq)]
pub struct SettingsModel {
    pub session: Session,
    pub problems: Vec<Problem>,
}

#[derive(Debug, PartialEq, Eq)]
pub enum SettingsMsg {
    SaveCompleted(Result<crate::session::Viewer, Vec<Problem>>),
}

pub open spec fn settings_init_post(s: Session, m: SettingsModel, cmds: Seq<Cmd>) -> bool {
    &&& m.session == s
    &&& m.problems@ == Seq::<Problem>::empty()
    &&& cmds == Seq::<Cmd>::empty()
}

pub fn settings_init(session: Session) -> (res: (SettingsModel, Vec<Cmd>))
    ensures
        settings_init_post(session, res.0, res.1@),
{
    (SettingsModel { session, problems: Vec::new() }, Vec::new())
}

pub open spec fn settings_update_post(
    msg: SettingsMsg,
    pre: SettingsModel,
    post: SettingsModel,
    cmds: Seq<Cmd>,
) -> bool {
    match msg {
        SettingsMsg::SaveCompleted(result) => match result {
            Ok(viewer) => {
                &&& post == pre
                &&& cmds == seq![Cmd::Broadcast(GMsg::SessionChanged(Session::Authenticated(viewer)))]
            },
            Err(problems) => {
                &&& post.session == pre.session
                &&& post.problems == problems
                &&& cmds == Seq::<Cmd>::empty()
            },
        },
    }
}

pub fn settings_update(msg: SettingsMsg, model: SettingsModel) -> (res: (SettingsModel, Vec<Cmd>))
    ensures
        settings_update_post(msg, model, res.0, res.1@),
{
    match msg {
        SettingsMsg::SaveCompleted(result) => match result {
            Ok(viewer) => {
                let mut cmds: Vec<Cmd> = Vec::new();
                cmds.push(Cmd::Broadcast(GMsg::SessionChanged(Session::Authenticated(viewer))));
                proof {
                    assert(cmds@ =~= seq![
                        Cmd::Broadcast(GMsg::SessionChanged(Session::Authenticated(viewer))),
                    ]);
                }
                (model, cmds)
            },
            Err(problems) => (SettingsModel { problems, ..model }, Vec::new()),
        },
    }
}

// Login

#[derive(Debug, PartialEq, Eq)]
pub struct LoginModel {
    pub session: Session,
    pub problems: Vec<Problem>,
}

#[derive(Debug, PartialEq, Eq)]
pub enum LoginMsg {
    LoginCompleted(Result<crate::session::Viewer, Vec<Problem>>),
}

pub open spec fn login_init_post(s: Session, m: LoginModel, cmds: Seq<Cmd>) -> bool {
    &&& m.session == s
    &&& m.problems@ == Seq::<Problem>::empty()
    &&& cmds == Seq::<Cmd>::empty()
}

pub fn login_init(session: Session) -> (res: (LoginModel, Vec<Cmd>))
    ensures
        login_init_post(session, res.0, res.1@),
{
    (LoginModel { session, problems: Vec::new() }, Vec::new())
}

pub open spec fn login_update_post(
    msg: LoginMsg,
    pre: LoginModel,
    post: LoginModel,
    cmds: Seq<Cmd>,
) -> bool {
    match msg {
        LoginMsg::LoginCompleted(result) => match result {
            Ok(viewer) => {
                &&& post == pre
                &&& cmds == seq![Cmd::Broadcast(GMsg::SessionChanged(Session::Authenticated(viewer)))]
            },
            Err(problems) => {
                &&& post.session == pre.session
                &&& post.problems == problems
                &&& cmds == Seq::<Cmd>::empty()
            },
        },
    }
}

pub fn login_update(msg: LoginMsg, model: LoginModel) -> (res: (LoginModel, Vec<Cmd>))
    ensures
        login_update_post(msg, model, res.0, res.1@),
{
    match msg {
        LoginMsg::LoginCompleted(result) => match result {
            Ok(viewer) => {
                let mut cmds: Vec<Cmd> = Vec::new();
                cmds.push(Cmd::Broadcast(GMsg::SessionChanged(Session::Authenticated(viewer))));
                proof {
                    assert(cmds@ =~= seq![
                        Cmd::Broadcast(GMsg::SessionChanged(Session::Authenticated(viewer))),
                    ]);
                }
                (model, cmds)
            },
            Err(problems) => (LoginModel { problems, ..model }, Vec::new()),
        },
    }
}

// Register

#[derive(Debug, PartialEq, Eq)]
pub struct RegisterModel {
    pub session: Session,
    pub problems: Vec<Problem>,
}

#[derive(Debug, PartialEq, Eq)]
pub enum RegisterMsg {
    RegisterCompleted(Result<crate::session::Viewer, Vec<Problem>>),
}

pub open spec fn register_init_post(s: Session, m: RegisterModel, cmds: Seq<Cmd>) -> bool {
    &&& m.session == s
    &&& m.problems@ == Seq::<Problem>::empty()
    &&& cmds == Seq::<Cmd>::empty()
}

pub fn register_init(session: Session) -> (res: (RegisterModel, Vec<Cmd>))
    ensures
        register_init_post(session, res.0, res.1@),
{
    (RegisterModel { session, problems: Vec::new() }, Vec::new())
}

pub open spec fn register_update_post(
    msg: RegisterMsg,
    pre: RegisterModel,
    post: RegisterModel,
    cmds: Seq<Cmd>,
) -> bool {
    match msg {
        RegisterMsg::RegisterCompleted(result) => match result {
            Ok(viewer) => {
                &&& post == pre
                &&& cmds == seq![Cmd::Broadcast(GMsg::SessionChanged(Session::Authenticated(viewer)))]
            },
            Err(problems) => {
                &&& post.session == pre.session
                &&& post.problems == problems
                &&& cmds == Seq::<Cmd>::empty()
            },
        },
    }
}

pub fn register_update(msg: RegisterMsg, model: RegisterModel) -> (res: (RegisterModel, Vec<Cmd>))
    ensures
        register_update_post(msg, model, res.0, res.1@),
{
    match msg {
        RegisterMsg::RegisterCompleted(result) => match result {
            Ok(viewer) => {
                let mut cmds: Vec<Cmd> = Vec::new();
                cmds.push(Cmd::Broadcast(GMsg::SessionChanged(Session::Authenticated(viewer))));
                proof {
                    assert(cmds@ =~= seq![
                        Cmd::Broadcast(GMsg::SessionChanged(Session::Authenticated(viewer))),
                    ]);
                }
                (model, cmds)
            },
            Err(problems) => (RegisterModel { problems, ..model }, Vec::new()),
        },
    }
}

// Profile

#[derive(Debug, PartialEq, Eq)]
pub struct ProfileModel {
    pub session: Session,
    pub author: Option<Author>,
    pub errors: Vec<String>,
}

#[derive(Debug, PartialEq, Eq)]
pub enum ProfileMsg {
    ProfileLoadCompleted(Result<Author, Vec<String>>),
}

pub open spec fn profile_request(s: Session, username: Seq<char>, req: ApiRequest) -> bool {
    &&& req.method == Method::Get
    &&& req.path@ == "profiles/"@ + username
    &&& req.credentials == spec_credentials_of(s)
    &&& req.body == RequestBody::Empty
}

pub open spec fn profile_init_post(
    s: Session,
    username: Seq<char>,
    m: ProfileModel,
    cmds: Seq<Cmd>,
) -> bool {
    &&& m.session == s
    &&& m.author is None
    &&& m.errors@ == Seq::<String>::empty()
    &&& cmds.len() == 1
    &&& cmds[0] matches Cmd::Fetch(req) && profile_request(s, username, req)
}

pub fn profile_init(session: Session, username: &String) -> (res: (ProfileModel, Vec<Cmd>))
    ensures
        profile_init_post(session, username@, res.0, res.1@),
{
    let credentials = session.credentials();
    let model = ProfileModel { session, author: None, errors: Vec::new() };
    let mut cmds: Vec<Cmd> = Vec::new();
    cmds.push(Cmd::Fetch(new_api_request(profile_path(username.as_str()), credentials)));
    (model, cmds)
}

pub open spec fn profile_update_post(
    msg: ProfileMsg,
    pre: ProfileModel,
    post: ProfileModel,
    cmds: Seq<Cmd>,
) -> bool {
    match msg {
        ProfileMsg::ProfileLoadCompleted(result) => match result {
            Ok(author) => {
                &&& post.session == pre.session
                &&& post.author == Some(author)
                &&& post.errors == pre.errors
                &&& cmds == Seq::<Cmd>::empty()
            },
            Err(errors) => {
                &&& post.session == pre.session
                &&& post.author == pre.author
                &&& post.errors == errors
                &&& cmds == Seq::<Cmd>::empty()
            },
        },
    }
}

pub fn profile_update(msg: ProfileMsg, model: ProfileModel) -> (res: (ProfileModel, Vec<Cmd>))
    ensures
        profile_update_post(msg, model, res.0, res.1@),
{
    match msg {
        ProfileMsg::ProfileLoadCompleted(result) => match result {
            Ok(author) => (ProfileModel { author: Some(author), ..model }, Vec::new()),
            Err(errors) => (ProfileModel { errors, ..model }, Vec::new()),
        },
    }
}

// Article view

#[derive(Debug, PartialEq, Eq)]
pub struct ArticleModel {
    pub session: Session,
    pub article: Option<Article>,
    pub errors: Vec<String>,
}

#[derive(Debug, PartialEq, Eq)]
pub enum ArticleMsg {
    LoadCompleted(Result<Article, Vec<String>>),
    DeleteCompleted(Result<(), Vec<String>>),
}

pub open spec fn article_request(s: Session, slug: Seq<char>, req: ApiRequest) -> bool {
    &&& req.method == Method::Get
    &&& req.path@ == "articles/"@ + slug
    &&& req.credentials == spec_credentials_of(s)
    &&& req.body == RequestBody::Empty
}

pub open spec fn article_init_post(
    s: Session,
    slug: Seq<char>,
    m: ArticleModel,
    cmds: Seq<Cmd>,
) -> bool {
    &&& m.session == s
    &&& m.article is None
    &&& m.errors@ == Seq::<String>::empty()
    &&& cmds.len() == 1
    &&& cmds[0] matches Cmd::Fetch(req) && article_request(s, slug, req)
}

pub fn article_init(session: Session, slug: &String) -> (res: (ArticleModel, Vec<Cmd>))
    ensures
        article_init_post(session, slug@, res.0, res.1@),
{
    let credentials = session.credentials();
    let model = ArticleModel { session, article: None, errors: Vec::new() };
    let mut cmds: Vec<Cmd> = Vec::new();
    cmds.push(Cmd::Fetch(new_api_request(article_path(slug.as_str()), credentials)));
    (model, cmds)
}

pub open spec fn article_update_post(
    msg: ArticleMsg,
    pre: ArticleModel,
    post: ArticleModel,
    cmds: Seq<Cmd>,
) -> bool {
    match msg {
        ArticleMsg::LoadCompleted(result) => match result {
            Ok(article) => {
                &&& post.session == pre.session
                &&& post.article == Some(article)
                &&& post.errors == pre.errors
                &&& cmds == Seq::<Cmd>::empty()
            },
            Err(errors) => {
                &&& post.session == pre.session
                &&& post.article == pre.article
                &&& post.errors == errors
                &&& cmds == Seq::<Cmd>::empty()
            },
        },
        ArticleMsg::DeleteCompleted(result) => match result {
            Ok(_) => {
                &&& post == pre
                &&& cmds == go_to_cmds(Route::Home)
            },
            Err(errors) => {
                &&& post.session == pre.session
                &&& post.article == pre.article
                &&& post.errors == errors
                &&& cmds == Seq::<Cmd>::empty()
            },
        },
    }
}

pub fn article_update(msg: ArticleMsg, model: ArticleModel) -> (res: (ArticleModel, Vec<Cmd>))
    ensures
        article_update_post(msg, model, res.0, res.1@),
{
    match msg {
        ArticleMsg::LoadCompleted(result) => match result {
            Ok(article) => (ArticleModel { article: Some(article), ..model }, Vec::new()),
            Err(errors) => (ArticleModel { errors, ..model }, Vec::new()),
        },
        ArticleMsg::DeleteCompleted(result) => match result {
            Ok(_) => (model, crate::go_to(Route::Home)),
            Err(errors) => (ArticleModel { errors, ..model }, Vec::new()),
        },
    }
}

// Article editor

#[derive(Debug, PartialEq, Eq)]
pub struct ArticleEditorModel {
    pub session: Session,
    pub form: Option<ValidForm>,
    pub problems: Vec<Problem>,
}

#[derive(Debug, PartialEq, Eq)]
pub enum ArticleEditorMsg {
    LoadCompleted(Result<Article, Vec<Problem>>),
    SubmitCompleted(Result<Article, Vec<Problem>>),
}

pub open spec fn editor_new_init_post(s: Session, m: ArticleEditorModel, cmds: Seq<Cmd>) -> bool {
    &&& m.session == s
    &&& m.form matches Some(form) && form.title@ == Seq::<char>::empty() && form.description@
        == Seq::<char>::empty() && form.body@ == Seq::<char>::empty()
    &&& m.problems@ == Seq::<Problem>::empty()
    &&& cmds == Seq::<Cmd>::empty()
}

/// A new article starts from an empty form and issues no request.
pub fn editor_init_new(session: Session) -> (res: (ArticleEditorModel, Vec<Cmd>))
    ensures
        editor_new_init_post(session, res.0, res.1@),
{
    (
        ArticleEditorModel { session, form: Some(ValidForm::empty()), problems: Vec::new() },
        Vec::new(),
    )
}

pub open spec fn editor_edit_init_post(
    s: Session,
    slug: Seq<char>,
    m: ArticleEditorModel,
    cmds: Seq<Cmd>,
) -> bool {
    &&& m.session == s
    &&& m.form is None
    &&& m.problems@ == Seq::<Problem>::empty()
    &&& cmds.len() == 1
    &&& cmds[0] matches Cmd::Fetch(req) && article_request(s, slug, req)
}

/// Editing an existing article starts without a form and requests the
/// article, whose fields fill the form when the load completes.
pub fn editor_init_edit(session: Session, slug: &String) -> (res: (ArticleEditorModel, Vec<Cmd>))
    ensures
        editor_edit_init_post(session, slug@, res.0, res.1@),
{
    let credentials = session.credentials();
    let model = ArticleEditorModel { session, form: None, problems: Vec::new() };
    let mut cmds: Vec<Cmd> = Vec::new();
    cmds.push(Cmd::Fetch(new_api_request(article_path(slug.as_str()), credentials)));
    (model, cmds)
}

pub open spec fn editor_update_post(
    msg: ArticleEditorMsg,
    pre: ArticleEditorModel,
    post: ArticleEditorModel,
    cmds: Seq<Cmd>,
) -> bool {
    match msg {
        ArticleEditorMsg::LoadCompleted(result) => match result {
            Ok(article) => {
                &&& post.session == pre.session
                &&& post.form matches Some(form) && form.title == article.title
                    && form.description == article.description && form.body == article.body
                &&& post.problems == pre.problems
                &&& cmds == Seq::<Cmd>::empty()
            },
            Err(problems) => {
                &&& post.session == pre.session
                &&& post.form == pre.form
                &&& post.problems == problems
                &&& cmds == Seq::<Cmd>::empty()
            },
        },
        ArticleEditorMsg::SubmitCompleted(result) => match result {
            Ok(article) => {
                &&& post == pre
                &&& cmds == go_to_cmds(Route::Article(article.slug))
            },
            Err(problems) => {
                &&& post.session == pre.session
                &&& post.form == pre.form
                &&& post.problems == problems
                &&& cmds == Seq::<Cmd>::empty()
            },
        },
    }
}

pub fn editor_update(msg: ArticleEditorMsg, model: ArticleEditorModel) -> (res: (
    ArticleEditorModel,
    Vec<Cmd>,
))
    ensures
        editor_update_post(msg, model, res.0, res.1@),
{
    match msg {
        ArticleEditorMsg::LoadCompleted(result) => match result {
            Ok(article) => (
                ArticleEditorModel { form: Some(ValidForm::of_article(&article)), ..model },
                Vec::new(),
            ),
            Err(problems) => (ArticleEditorModel { problems, ..model }, Vec::new()),
        },
        ArticleEditorMsg::SubmitCompleted(result) => match result {
            Ok(article) => {
                let cmds = crate::go_to(Route::Article(article.slug));
                (model, cmds)
            },
            Err(problems) => (ArticleEditorModel { problems, ..model }, Vec::new()),
        },
    }
}

// Global-event handlers. Every page reacts to a session-changed broadcast
// the same way: it adopts the new session as its own and navigates home.
// Other global events are of no local concern and leave the page untouched,
// which is why the dispatcher hands these handlers the new session directly.

pub fn home_g_msg(session: Session, model: HomeModel) -> (res: (HomeModel, Vec<Cmd>))
    ensures
        res.0.session == session,
        res.0.feed == model.feed,
        res.0.errors == model.errors,
        res.1@ == go_to_cmds(Route::Home),
{
    (HomeModel { session, ..model }, crate::go_to(Route::Home))
}

pub fn settings_g_msg(session: Session, model: SettingsModel) -> (res: (SettingsModel, Vec<Cmd>))
    ensures
        res.0.session == session,
        res.0.problems == model.problems,
        res.1@ == go_to_cmds(Route::Home),
{
    (SettingsModel { session, ..model }, crate::go_to(Route::Home))
}

pub fn login_g_msg(session: Session, model: LoginModel) -> (res: (LoginModel, Vec<Cmd>))
    ensures
        res.0.session == session,
        res.0.problems == model.problems,
        res.1@ == go_to_cmds(Route::Home),
{
    (LoginModel { session, ..model }, crate::go_to(Route::Home))
}

pub fn register_g_msg(session: Session, model: RegisterModel) -> (res: (RegisterModel, Vec<Cmd>))
    ensures
        res.0.session == session,
        res.0.problems == model.problems,
        res.1@ == go_to_cmds(Route::Home),
{
    (RegisterModel { session, ..model }, crate::go_to(Route::Home))
}

pub fn profile_g_msg(session: Session, model: ProfileModel) -> (res: (ProfileModel, Vec<Cmd>))
    ensures
        res.0.session == session,
        res.0.author == model.author,
        res.0.errors == model.errors,
        res.1@ == go_to_cmds(Route::Home),
{
    (ProfileModel { session, ..model }, crate::go_to(Route::Home))
}

pub fn article_g_msg(session: Session, model: ArticleModel) -> (res: (ArticleModel, Vec<Cmd>))
    ensures
        res.0.session == session,
        res.0.article == model.article,
        res.0.errors == model.errors,
        res.1@ == go_to_cmds(Route::Home),
{
    (ArticleModel { session, ..model }, crate::go_to(Route::Home))
}

pub fn editor_g_msg(session: Session, model: ArticleEditorModel) -> (res: (
    ArticleEditorModel,
    Vec<Cmd>,
))
    ensures
        res.0.session == session,
        res.0.form == model.form,
        res.0.problems == model.problems,
        res.1@ == go_to_cmds(Route::Home),
{
    (ArticleEditorModel { session, ..model }, crate::go_to(Route::Home))
}

} // verus!
