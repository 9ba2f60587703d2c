//! Laws of the application core, proved from the dispatch contracts alone:
//! every claim below follows from the postconditions of `update`,
//! `g_msg_handler` and `change_model_by_route`, not from their bodies.

use vstd::prelude::*;
use crate::request::ApiRequest;
use crate::route::Route;
use crate::session::Session;
use crate::{
    g_msg_post, spec_session_of, transition_post, update_post, Cmd, GMsg, Model, Msg,
};

verus! {

/// The page variant a local message is tagged for.
pub enum PageTag {
    Home,
    Settings,
    Login,
    Register,
    Profile,
    Article,
    ArticleEditor,
}

/// The page variant a local message is tagged for, or `None` for a message
/// the core consumes itself.
pub open spec fn spec_msg_tag(msg: Msg) -> Option<PageTag> {
    match msg {
        Msg::ChangedRoute(_) => None,
        Msg::GotSession(_) => None,
        Msg::GotHomeMsg(_) => Some(PageTag::Home),
        Msg::GotSettingsMsg(_) => Some(PageTag::Settings),
        Msg::GotLoginMsg(_) => Some(PageTag::Login),
        Msg::GotRegisterMsg(_) => Some(PageTag::Register),
        Msg::GotProfileMsg(_) => Some(PageTag::Profile),
        Msg::GotArticleMsg(_) => Some(PageTag::Article),
        Msg::GotArticleEditorMsg(_) => Some(PageTag::ArticleEditor),
    }
}

/// The page variant that is live, or `None` while redirecting or on the
/// not-found page.
pub open spec fn spec_model_tag(m: Model) -> Option<PageTag> {
    match m {
        Model::Redirect(_) => None,
        Model::NotFound(_) => None,
        Model::Home(_) => Some(PageTag::Home),
        Model::Settings(_) => Some(PageTag::Settings),
        Model::Login(_) => Some(PageTag::Login),
        Model::Register(_) => Some(PageTag::Register),
        Model::Profile(_, _) => Some(PageTag::Profile),
        Model::Article(_) => Some(PageTag::Article),
        Model::ArticleEditor(_, _) => Some(PageTag::ArticleEditor),
    }
}

/// For every route and page state, a transition enters the page variant the
/// route prescribes — not-found for an unmatched location, the state left in
/// place for the two pure redirects — and the session recovered from the new
/// state is exactly the session extracted from the old one: no transition
/// loses the session.
pub proof fn lemma_transition_matches_route(
    route: Option<Route>,
    pre: Model,
    post: Model,
    cmds: Seq<Cmd>,
)
    requires
        transition_post(route, pre, post, cmds),
    ensures
        spec_session_of(post) == spec_session_of(pre),
        match route {
            None => post is NotFound,
            Some(r) => match r {
                Route::Root => post == pre,
                Route::Logout => post == pre,
                Route::Home => post is Home,
                Route::Login => post is Login,
                Route::Register => post is Register,
                Route::Settings => post is Settings,
                Route::NewArticle => post is ArticleEditor,
                Route::EditArticle(_) => post is ArticleEditor,
                Route::Article(_) => post is Article,
                Route::Profile(_) => post is Profile,
            },
        },
{
}

/// A local message tagged for one page variant, delivered while a different
/// variant (or no page at all) is live, has no observable effect: the state
/// is unchanged and no command is issued.
pub proof fn lemma_stale_message_dropped(msg: Msg, pre: Model, post: Model, cmds: Seq<Cmd>)
    requires
        update_post(msg, pre, post, cmds),
        spec_msg_tag(msg) is Some,
        spec_msg_tag(msg) != spec_model_tag(pre),
    ensures
        post == pre,
        cmds == Seq::<Cmd>::empty(),
{
}

/// Logging out settles on the home page as a guest. The one exception is
/// the not-found page, which by design ignores the session broadcast: a
/// logout issued there keeps the in-memory session, so the claim holds of a
/// not-found start only when that session is already the guest one. The
/// steps below are the ones the event queue performs: the logout transition
/// leaves the state in place and emits the guest broadcast and a navigation
/// home; delivering the broadcast makes the live page adopt the guest
/// session, or queues a session message that the redirecting state
/// consumes; resolving the navigation then enters the home page, which
/// carries the guest session forward.
pub proof fn lemma_logout_settles_home_as_guest(
    start: Model,
    after_logout: Model,
    logout_cmds: Seq<Cmd>,
    after_broadcast: Model,
    broadcast_cmds: Seq<Cmd>,
    after_session_msg: Model,
    session_cmds: Seq<Cmd>,
    settled: Model,
    home_cmds: Seq<Cmd>,
)
    requires
        start matches Model::NotFound(session) ==> session == Session::Guest,
        transition_post(Some(Route::Logout), start, after_logout, logout_cmds),
        g_msg_post(
            GMsg::SessionChanged(Session::Guest),
            after_logout,
            after_broadcast,
            broadcast_cmds,
        ),
        update_post(
            Msg::GotSession(Session::Guest),
            after_broadcast,
            after_session_msg,
            session_cmds,
        ),
        transition_post(Some(Route::Home), after_session_msg, settled, home_cmds),
    ensures
        logout_cmds.len() == 4,
        logout_cmds[0] == Cmd::ClearIdentity,
        logout_cmds[1] == Cmd::Broadcast(GMsg::SessionChanged(Session::Guest)),
        logout_cmds[3] == Cmd::Broadcast(GMsg::RoutePushed(Route::Home)),
        settled is Home,
        spec_session_of(settled) == Session::Guest,
{
    assert(spec_session_of(after_session_msg) == Session::Guest);
}

/// Two page states that a user cannot tell apart: the same variant, the
/// same session and route parameters, and private models whose contents
/// agree.
pub open spec fn model_equiv(a: Model, b: Model) -> bool {
    match (a, b) {
        (Model::Redirect(s1), Model::Redirect(s2)) => s1 == s2,
        (Model::NotFound(s1), Model::NotFound(s2)) => s1 == s2,
        (Model::Home(m1), Model::Home(m2)) => m1.session == m2.session && m1.feed == m2.feed
            && m1.errors@ == m2.errors@,
        (Model::Settings(m1), Model::Settings(m2)) => m1.session == m2.session && m1.problems@
            == m2.problems@,
        (Model::Login(m1), Model::Login(m2)) => m1.session == m2.session && m1.problems@
            == m2.problems@,
        (Model::Register(m1), Model::Register(m2)) => m1.session == m2.session && m1.problems@
            == m2.problems@,
        (Model::Profile(m1, u1), Model::Profile(m2, u2)) => u1@ == u2@ && m1.session == m2.session
            && m1.author == m2.author && m1.errors@ == m2.errors@,
        (Model::Article(m1), Model::Article(m2)) => m1.session == m2.session && m1.article
            == m2.article && m1.errors@ == m2.errors@,
        (Model::ArticleEditor(m1, s1), Model::ArticleEditor(m2, s2)) => opt_string_equiv(s1, s2)
            && m1.session == m2.session && opt_form_equiv(m1.form, m2.form) && m1.problems@
            == m2.problems@,
        _ => false,
    }
}

pub open spec fn opt_string_equiv(a: Option<String>, b: Option<String>) -> bool {
    match (a, b) {
        (None, None) => true,
        (Some(x), Some(y)) => x@ == y@,
        _ => false,
    }
}

pub open spec fn opt_form_equiv(
    a: Option<crate::article::ValidForm>,
    b: Option<crate::article::ValidForm>,
) -> bool {
    match (a, b) {
        (None, None) => true,
        (Some(f1), Some(f2)) => f1.title@ == f2.title@ && f1.description@ == f2.description@
            && f1.body@ == f2.body@,
        _ => false,
    }
}

/// Two requests that ask the host for the same network operation.
pub open spec fn request_equiv(a: ApiRequest, b: ApiRequest) -> bool {
    a.method == b.method && a.path@ == b.path@ && a.credentials == b.credentials && a.body == b.body
}

pub open spec fn cmd_equiv(a: Cmd, b: Cmd) -> bool {
    match (a, b) {
        (Cmd::Fetch(r1), Cmd::Fetch(r2)) => request_equiv(r1, r2),
        _ => a == b,
    }
}

pub open spec fn cmds_equiv(a: Seq<Cmd>, b: Seq<Cmd>) -> bool {
    a.len() == b.len() && forall|i: int| 0 <= i < a.len() ==> cmd_equiv(a[i], b[i])
}

/// Resolving the same route twice in a row, with no intervening change to
/// the session, enters equivalent page states and re-issues the same
/// requests: repeated identical navigation is idempotent up to the expected
/// re-fetch.
pub proof fn lemma_transition_idempotent(
    route: Option<Route>,
    pre: Model,
    mid: Model,
    first_cmds: Seq<Cmd>,
    post: Model,
    second_cmds: Seq<Cmd>,
)
    requires
        transition_post(route, pre, mid, first_cmds),
        transition_post(route, mid, post, second_cmds),
    ensures
        model_equiv(mid, post),
        cmds_equiv(first_cmds, second_cmds),
{
    lemma_transition_matches_route(route, pre, mid, first_cmds);
    lemma_transition_matches_route(route, mid, post, second_cmds);
    match route {
        None => {
            assert(cmds_equiv(first_cmds, second_cmds));
        },
        Some(r) => match r {
            Route::Root => {
                assert(cmds_equiv(first_cmds, second_cmds));
            },
            Route::Logout => {
                assert(cmds_equiv(first_cmds, second_cmds));
            },
            _ => {
            },
        },
    }
}

} // verus!
