//! Client-side controller of a single-page application.
//!
//! The library owns which page is currently active, drives transitions
//! between pages in response to navigation and background events, and turns
//! every failed network request into a structured problem list. All I/O —
//! the transport, the browser location, credential storage, rendering — is
//! left to the host: the functions here map a state and an event to the next
//! state and a list of commands for the host to perform.

pub mod article;
pub mod form;
pub mod laws;
pub mod page;
pub mod request;
pub mod route;
pub mod session;

use vstd::prelude::*;
use crate::page::{
    article_init, article_init_post, article_update, article_update_post, editor_edit_init_post,
    editor_init_edit, editor_init_new, editor_new_init_post, editor_update, editor_update_post,
    home_init, home_init_post, home_update, home_update_post, login_init, login_init_post,
    login_update, login_update_post, profile_init, profile_init_post, profile_update,
    profile_update_post, register_init, register_init_post, register_update,
    register_update_post, settings_init, settings_init_post, settings_update,
    settings_update_post, ArticleEditorModel, ArticleEditorMsg, ArticleModel, ArticleMsg,
    HomeModel, HomeMsg, LoginModel, LoginMsg, Page, ProfileModel, ProfileMsg, RegisterModel,
    RegisterMsg, SettingsModel, SettingsMsg,
};
use crate::request::ApiRequest;
use crate::route::Route;
use crate::session::{spec_viewer_of, Session, Viewer};

verus! {

/// Which page is active, together with that page's private model. Exactly
/// one variant is live; a transition replaces the whole value after first
/// extracting the embedded session.
#[derive(Debug, PartialEq, Eq)]
pub enum Model {
    Redirect(Session),
    NotFound(Session),
    Home(HomeModel),
    Settings(SettingsModel),
    Login(LoginModel),
    Register(RegisterModel),
    Profile(ProfileModel, String),
    Article(ArticleModel),
    ArticleEditor(ArticleEditorModel, Option<String>),
}

impl Default for Model {
    /// Before any route has resolved the application is redirecting, with
    /// nobody logged in.
    fn default() -> (res: Self)
        ensures
            res == Model::Redirect(Session::Guest),
    {
        Model::Redirect(Session::Guest)
    }
}

impl Model {
    /// Moves the current page state out, leaving the well-defined
    /// redirecting placeholder behind.
    pub fn take(&mut self) -> (res: Model)
        ensures
            res == *old(self),
            *final(self) == Model::Redirect(Session::Guest),
    {
        let mut placeholder: Model = Model::default();
        core::mem::swap(self, &mut placeholder);
        placeholder
    }
}

/// The session embedded in the active page state; it is carried across
/// every transition.
pub open spec fn spec_session_of(m: Model) -> Session {
    match m {
        Model::Redirect(session) => session,
        Model::NotFound(session) => session,
        Model::Home(model) => model.session,
        Model::Settings(model) => model.session,
        Model::Login(model) => model.session,
        Model::Register(model) => model.session,
        Model::Profile(model, _) => model.session,
        Model::Article(model) => model.session,
        Model::ArticleEditor(model, _) => model.session,
    }
}

impl From<Model> for Session {
    /// Consumes the old page state, keeping only its session.
    fn from(model: Model) -> Session {
        match model {
            Model::Redirect(session) => session,
            Model::NotFound(session) => session,
            Model::Home(model) => model.session,
            Model::Settings(model) => model.session,
            Model::Login(model) => model.session,
            Model::Register(model) => model.session,
            Model::Profile(model, _) => model.session,
            Model::Article(model) => model.session,
            Model::ArticleEditor(model, _) => model.session,
        }
    }
}

impl vstd::std_specs::convert::FromSpecImpl<Model> for Session {
    open spec fn obeys_from_spec() -> bool {
        true
    }

    open spec fn from_spec(m: Model) -> Session {
        spec_session_of(m)
    }
}

/// An event relevant to more than one page.
#[derive(Debug, PartialEq, Eq)]
pub enum GMsg {
    RoutePushed(Route),
    SessionChanged(Session),
}

/// An event for the core: either a global concern of its own, or a message
/// tagged for exactly one page variant.
#[derive(Debug, PartialEq, Eq)]
pub enum Msg {
    ChangedRoute(Option<Route>),
    GotSession(Session),
    GotHomeMsg(HomeMsg),
    GotSettingsMsg(SettingsMsg),
    GotLoginMsg(LoginMsg),
    GotRegisterMsg(RegisterMsg),
    GotProfileMsg(ProfileMsg),
    GotArticleMsg(ArticleMsg),
    GotArticleEditorMsg(ArticleEditorMsg),
}

/// What the host is asked to do after a dispatch turn, in order.
#[derive(Debug, PartialEq, Eq)]
pub enum Cmd {
    /// Change the browser location, with no event of its own.
    SetLocation(Route),
    /// Queue a message for the core.
    Local(Msg),
    /// Queue a session-wide broadcast.
    Broadcast(GMsg),
    /// Clear the stored credentials.
    ClearIdentity,
    /// Perform one network operation and report its outcome back to the
    /// page that issued it.
    Fetch(ApiRequest),
}

/// Navigation: a location change plus the synthetic route-change broadcast
/// that makes the core resolve the new location.
pub open spec fn go_to_cmds(route: Route) -> Seq<Cmd> {
    seq![Cmd::SetLocation(route), Cmd::Broadcast(GMsg::RoutePushed(route))]
}

/// Requests navigation to a route.
pub fn go_to(route: Route) -> (cmds: Vec<Cmd>)
    ensures
        cmds@ == go_to_cmds(route),
{
    let mut cmds: Vec<Cmd> = Vec::new();
    cmds.push(Cmd::SetLocation(route.clone()));
    cmds.push(Cmd::Broadcast(GMsg::RoutePushed(route)));
    proof {
        assert(cmds@ =~= go_to_cmds(route));
    }
    cmds
}

/// What a transition leaves behind and asks for: the route-to-page mapping.
/// `None` enters the not-found page; `Root` and `Logout` never become live
/// states and only redirect (logout first clearing the stored identity and
/// broadcasting the guest session); every other route enters the matching
/// page variant through that page's `init`, with the session carried over.
pub open spec fn transition_post(
    route: Option<Route>,
    pre: Model,
    post: Model,
    cmds: Seq<Cmd>,
) -> bool {
    let s = spec_session_of(pre);
    match route {
        None => post == Model::NotFound(s) && cmds == Seq::<Cmd>::empty(),
        Some(route) => match route {
            Route::Root => post == pre && cmds == go_to_cmds(Route::Home),
            Route::Logout => post == pre && cmds == seq![
                Cmd::ClearIdentity,
                Cmd::Broadcast(GMsg::SessionChanged(Session::Guest)),
            ] + go_to_cmds(Route::Home),
            Route::Home => post matches Model::Home(m) && home_init_post(s, m, cmds),
            Route::Login => post matches Model::Login(m) && login_init_post(s, m, cmds),
            Route::Register => post matches Model::Register(m) && register_init_post(
                s,
                m,
                cmds,
            ),
            Route::Settings => post matches Model::Settings(m) && settings_init_post(
                s,
                m,
                cmds,
            ),
            Route::NewArticle => post matches Model::ArticleEditor(m, slug) && slug is None
                && editor_new_init_post(s, m, cmds),
            Route::EditArticle(slug) => post matches Model::ArticleEditor(m, s2) && s2 == Some(
                slug,
            ) && editor_edit_init_post(s, slug@, m, cmds),
            Route::Article(slug) => post matches Model::Article(m) && article_init_post(
                s,
                slug@,
                m,
                cmds,
            ),
            Route::Profile(username) => post matches Model::Profile(m, u) && u == username
                && profile_init_post(s, username@, m, cmds),
        },
    }
}

/// Resolves a route (or its absence) into the next page state, extracting
/// the session from the old state first. The operation is all-or-nothing:
/// the new state is entered immediately, before any request it schedules
/// resolves.
pub fn change_model_by_route(route: Option<Route>, model: &mut Model) -> (cmds: Vec<Cmd>)
    ensures
        transition_post(route, *old(model), *final(model), cmds@),
{
    match route {
        None => {
            let session = Session::from(model.take());
            *model = Model::NotFound(session);
            Vec::new()
        },
        Some(route) => match route {
            Route::Root => go_to(Route::Home),
            Route::Logout => {
                let mut cmds: Vec<Cmd> = Vec::new();
                cmds.push(Cmd::ClearIdentity);
                cmds.push(Cmd::Broadcast(GMsg::SessionChanged(Session::Guest)));
                let mut nav = go_to(Route::Home);
                cmds.append(&mut nav);
                proof {
                    assert(cmds@ =~= seq![
                        Cmd::ClearIdentity,
                        Cmd::Broadcast(GMsg::SessionChanged(Session::Guest)),
                    ] + go_to_cmds(Route::Home));
                }
                cmds
            },
            Route::Home => {
                let session = Session::from(model.take());
                let (m, cmds) = home_init(session);
                *model = Model::Home(m);
                cmds
            },
            Route::Login => {
                let session = Session::from(model.take());
                let (m, cmds) = login_init(session);
                *model = Model::Login(m);
                cmds
            },
            Route::Register => {
                let session = Session::from(model.take());
                let (m, cmds) = register_init(session);
                *model = Model::Register(m);
                cmds
            },
            Route::Settings => {
                let session = Session::from(model.take());
                let (m, cmds) = settings_init(session);
                *model = Model::Settings(m);
                cmds
            },
            Route::NewArticle => {
                let session = Session::from(model.take());
                let (m, cmds) = editor_init_new(session);
                *model = Model::ArticleEditor(m, None);
                cmds
            },
            Route::EditArticle(slug) => {
                let session = Session::from(model.take());
                let (m, cmds) = editor_init_edit(session, &slug);
                *model = Model::ArticleEditor(m, Some(slug));
                cmds
            },
            Route::Article(slug) => {
                let session = Session::from(model.take());
                let (m, cmds) = article_init(session, &slug);
                *model = Model::Article(m);
                cmds
            },
            Route::Profile(username) => {
                let session = Session::from(model.take());
                let (m, cmds) = profile_init(session, &username);
                *model = Model::Profile(m, username);
                cmds
            },
        },
    }
}

/// How one local message changes the state: a route change transitions, a
/// freshly loaded session promotes the redirecting state towards home, and a
/// page-tagged message reaches that page's `update` only while that exact
/// variant is live — a message for a page already left changes nothing.
pub open spec fn update_post(msg: Msg, pre: Model, post: Model, cmds: Seq<Cmd>) -> bool {
    match msg {
        Msg::ChangedRoute(route) => transition_post(route, pre, post, cmds),
        Msg::GotSession(session) => if pre is Redirect {
            post == Model::Redirect(session) && cmds == go_to_cmds(Route::Home)
        } else {
            post == pre && cmds == Seq::<Cmd>::empty()
        },
        Msg::GotHomeMsg(msg) => match pre {
            Model::Home(m) => post matches Model::Home(m2) && home_update_post(msg, m, m2, cmds),
            _ => post == pre && cmds == Seq::<Cmd>::empty(),
        },
        Msg::GotSettingsMsg(msg) => match pre {
            Model::Settings(m) => post matches Model::Settings(m2) && settings_update_post(
                msg,
                m,
                m2,
                cmds,
            ),
            _ => post == pre && cmds == Seq::<Cmd>::empty(),
        },
        Msg::GotLoginMsg(msg) => match pre {
            Model::Login(m) => post matches Model::Login(m2) && login_update_post(msg, m, m2, cmds),
            _ => post == pre && cmds == Seq::<Cmd>::empty(),
        },
        Msg::GotRegisterMsg(msg) => match pre {
            Model::Register(m) => post matches Model::Register(m2) && register_update_post(
                msg,
                m,
                m2,
                cmds,
            ),
            _ => post == pre && cmds == Seq::<Cmd>::empty(),
        },
        Msg::GotProfileMsg(msg) => match pre {
            Model::Profile(m, u) => post matches Model::Profile(m2, u2) && u2 == u
                && profile_update_post(msg, m, m2, cmds),
            _ => post == pre && cmds == Seq::<Cmd>::empty(),
        },
        Msg::GotArticleMsg(msg) => match pre {
            Model::Article(m) => post matches Model::Article(m2) && article_update_post(
                msg,
                m,
                m2,
                cmds,
            ),
            _ => post == pre && cmds == Seq::<Cmd>::empty(),
        },
        Msg::GotArticleEditorMsg(msg) => match pre {
            Model::ArticleEditor(m, slug) => post matches Model::ArticleEditor(m2, slug2) && slug2
                == slug && editor_update_post(msg, m, m2, cmds),
            _ => post == pre && cmds == Seq::<Cmd>::empty(),
        },
    }
}

/// Local-event dispatch: delivers one message, replacing the page state and
/// handing back the commands the turn produced.
pub fn update(msg: Msg, model: &mut Model) -> (cmds: Vec<Cmd>)
    ensures
        update_post(msg, *old(model), *final(model), cmds@),
{
    match msg {
        Msg::ChangedRoute(route) => change_model_by_route(route, model),
        Msg::GotSession(session) => {
            let cur = model.take();
            match cur {
                Model::Redirect(_) => {
                    *model = Model::Redirect(session);
                    go_to(Route::Home)
                },
                other => {
                    *model = other;
                    Vec::new()
                },
            }
        },
        Msg::GotHomeMsg(msg) => {
            let cur = model.take();
            match cur {
                Model::Home(m) => {
                    let (m2, cmds) = home_update(msg, m);
                    *model = Model::Home(m2);
                    cmds
                },
                other => {
                    *model = other;
                    Vec::new()
                },
            }
        },
        Msg::GotSettingsMsg(msg) => {
            let cur = model.take();
            match cur {
                Model::Settings(m) => {
                    let (m2, cmds) = settings_update(msg, m);
                    *model = Model::Settings(m2);
                    cmds
                },
                other => {
                    *model = other;
                    Vec::new()
                },
            }
        },
        Msg::GotLoginMsg(msg) => {
            let cur = model.take();
            match cur {
                Model::Login(m) => {
                    let (m2, cmds) = login_update(msg, m);
                    *model = Model::Login(m2);
                    cmds
                },
                other => {
                    *model = other;
                    Vec::new()
                },
            }
        },
        Msg::GotRegisterMsg(msg) => {
            let cur = model.take();
            match cur {
                Model::Register(m) => {
                    let (m2, cmds) = register_update(msg, m);
                    *model = Model::Register(m2);
                    cmds
                },
                other => {
                    *model = other;
                    Vec::new()
                },
            }
        },
        Msg::GotProfileMsg(msg) => {
            let cur = model.take();
            match cur {
                Model::Profile(m, username) => {
                    let (m2, cmds) = profile_update(msg, m);
                    *model = Model::Profile(m2, username);
                    cmds
                },
                other => {
                    *model = other;
                    Vec::new()
                },
            }
        },
        Msg::GotArticleMsg(msg) => {
            let cur = model.take();
            match cur {
                Model::Article(m) => {
                    let (m2, cmds) = article_update(msg, m);
                    *model = Model::Article(m2);
                    cmds
                },
                other => {
                    *model = other;
                    Vec::new()
                },
            }
        },
        Msg::GotArticleEditorMsg(msg) => {
            let cur = model.take();
            match cur {
                Model::ArticleEditor(m, slug) => {
                    let (m2, cmds) = editor_update(msg, m);
                    *model = Model::ArticleEditor(m2, slug);
                    cmds
                },
                other => {
                    *model = other;
                    Vec::new()
                },
            }
        },
    }
}

/// How one global event is dispatched: a pushed route is always turned into
/// a local route-change message; a session-changed broadcast is consumed by
/// the core itself while redirecting or on the not-found page (queued as a
/// local session message), and otherwise forwarded to the active page, which
/// adopts the new session and navigates home.
pub open spec fn g_msg_post(g_msg: GMsg, pre: Model, post: Model, cmds: Seq<Cmd>) -> bool {
    match g_msg {
        GMsg::RoutePushed(route) => post == pre && cmds == seq![
            Cmd::Local(Msg::ChangedRoute(Some(route))),
        ],
        GMsg::SessionChanged(session) => match pre {
            Model::Redirect(_) => post == pre && cmds == seq![Cmd::Local(Msg::GotSession(session))],
            Model::NotFound(_) => post == pre && cmds == seq![Cmd::Local(Msg::GotSession(session))],
            Model::Home(m) => post matches Model::Home(m2) && m2.session == session && m2.feed
                == m.feed && m2.errors == m.errors && cmds == go_to_cmds(Route::Home),
            Model::Settings(m) => post matches Model::Settings(m2) && m2.session == session
                && m2.problems == m.problems && cmds == go_to_cmds(Route::Home),
            Model::Login(m) => post matches Model::Login(m2) && m2.session == session
                && m2.problems == m.problems && cmds == go_to_cmds(Route::Home),
            Model::Register(m) => post matches Model::Register(m2) && m2.session == session
                && m2.problems == m.problems && cmds == go_to_cmds(Route::Home),
            Model::Profile(m, u) => post matches Model::Profile(m2, u2) && u2 == u && m2.session
                == session && m2.author == m.author && m2.errors == m.errors && cmds == go_to_cmds(
                Route::Home,
            ),
            Model::Article(m) => post matches Model::Article(m2) && m2.session == session
                && m2.article == m.article && m2.errors == m.errors && cmds == go_to_cmds(
                Route::Home,
            ),
            Model::ArticleEditor(m, slug) => post matches Model::ArticleEditor(m2, slug2) && slug2
                == slug && m2.session == session && m2.form == m.form && m2.problems == m.problems
                && cmds == go_to_cmds(Route::Home),
        },
    }
}

/// Global-event dispatch: routes one broadcast either to the core itself or
/// to the active page's global-event handler.
pub fn g_msg_handler(g_msg: GMsg, model: &mut Model) -> (cmds: Vec<Cmd>)
    ensures
        g_msg_post(g_msg, *old(model), *final(model), cmds@),
{
    match g_msg {
        GMsg::RoutePushed(route) => {
            let mut cmds: Vec<Cmd> = Vec::new();
            cmds.push(Cmd::Local(Msg::ChangedRoute(Some(route))));
            proof {
                assert(cmds@ =~= seq![cmds@[0]]);
            }
            cmds
        },
        GMsg::SessionChanged(session) => {
            let cur = model.take();
            match cur {
                Model::Redirect(old_session) => {
                    *model = Model::Redirect(old_session);
                    let mut cmds: Vec<Cmd> = Vec::new();
                    cmds.push(Cmd::Local(Msg::GotSession(session)));
                    proof {
                        assert(cmds@ =~= seq![cmds@[0]]);
                    }
                    cmds
                },
                Model::NotFound(old_session) => {
                    *model = Model::NotFound(old_session);
                    let mut cmds: Vec<Cmd> = Vec::new();
                    cmds.push(Cmd::Local(Msg::GotSession(session)));
                    proof {
                        assert(cmds@ =~= seq![cmds@[0]]);
                    }
                    cmds
                },
                Model::Home(m) => {
                    let (m2, cmds) = crate::page::home_g_msg(session, m);
                    *model = Model::Home(m2);
                    cmds
                },
                Model::Settings(m) => {
                    let (m2, cmds) = crate::page::settings_g_msg(session, m);
                    *model = Model::Settings(m2);
                    cmds
                },
                Model::Login(m) => {
                    let (m2, cmds) = crate::page::login_g_msg(session, m);
                    *model = Model::Login(m2);
                    cmds
                },
                Model::Register(m) => {
                    let (m2, cmds) = crate::page::register_g_msg(session, m);
                    *model = Model::Register(m2);
                    cmds
                },
                Model::Profile(m, username) => {
                    let (m2, cmds) = crate::page::profile_g_msg(session, m);
                    *model = Model::Profile(m2, username);
                    cmds
                },
                Model::Article(m) => {
                    let (m2, cmds) = crate::page::article_g_msg(session, m);
                    *model = Model::Article(m2);
                    cmds
                },
                Model::ArticleEditor(m, slug) => {
                    let (m2, cmds) = crate::page::editor_g_msg(session, m);
                    *model = Model::ArticleEditor(m2, slug);
                    cmds
                },
            }
        },
    }
}

/// Which chrome the rendering collaborator draws for the active page.
pub open spec fn spec_page_of(m: Model) -> Page {
    match m {
        Model::Redirect(_) => Page::Other,
        Model::NotFound(_) => Page::Other,
        Model::Home(_) => Page::Home,
        Model::Settings(_) => Page::Settings,
        Model::Login(_) => Page::Login,
        Model::Register(_) => Page::Register,
        Model::Profile(_, username) => Page::Profile(username),
        Model::Article(_) => Page::Other,
        Model::ArticleEditor(_, slug) => if slug is None {
            Page::NewArticle
        } else {
            Page::Other
        },
    }
}

/// The state's projection for rendering: the page kind and the viewer
/// derived from the embedded session. Purely a function of the state.
pub fn view(model: &Model) -> (res: (Page, Option<Viewer>))
    ensures
        res.0 == spec_page_of(*model),
        res.1 == spec_viewer_of(spec_session_of(*model)),
{
    let page = match model {
        Model::Redirect(_) => Page::Other,
        Model::NotFound(_) => Page::Other,
        Model::Home(_) => Page::Home,
        Model::Settings(_) => Page::Settings,
        Model::Login(_) => Page::Login,
        Model::Register(_) => Page::Register,
        Model::Profile(_, username) => Page::Profile(username.clone()),
        Model::Article(_) => Page::Other,
        Model::ArticleEditor(_, slug) => match slug {
            None => Page::NewArticle,
            Some(_) => Page::Other,
        },
    };
    let viewer = match model {
        Model::Redirect(session) => session.viewer_owned(),
        Model::NotFound(session) => session.viewer_owned(),
        Model::Home(m) => m.session.viewer_owned(),
        Model::Settings(m) => m.session.viewer_owned(),
        Model::Login(m) => m.session.viewer_owned(),
        Model::Register(m) => m.session.viewer_owned(),
        Model::Profile(m, _) => m.session.viewer_owned(),
        Model::Article(m) => m.session.viewer_owned(),
        Model::ArticleEditor(m, _) => m.session.viewer_owned(),
    };
    (page, viewer)
}

/// The startup state: redirecting with the best-effort stored session, and
/// one queued route-change message for the location the application was
/// opened on.
pub fn init(route: Option<Route>, session: Session) -> (res: (Model, Vec<Cmd>))
    ensures
        res.0 == Model::Redirect(session),
        res.1@ == seq![Cmd::Local(Msg::ChangedRoute(route))],
{
    let mut cmds: Vec<Cmd> = Vec::new();
    cmds.push(Cmd::Local(Msg::ChangedRoute(route)));
    proof {
        assert(cmds@ =~= seq![cmds@[0]]);
    }
    (Model::Redirect(session), cmds)
}

} // verus!
