use conduit_core::article::{Article, ValidForm};
use conduit_core::form::Problem;
use conduit_core::page::{
    ArticleEditorMsg, ArticleMsg, HomeMsg, LoginModel, LoginMsg, Page, SettingsModel, SettingsMsg,
};
use conduit_core::request::article_delete::{delete_article, delete_article_completed};
use conduit_core::request::article_update::{update as update_article, update_completed};
use conduit_core::request::{
    fail_reason_into_errors, fail_reason_into_problems, issue, new_api_request, split_lines,
    ApiRequest, FailReason, Method, RequestBody,
};
use conduit_core::route::Route;
use conduit_core::session::{Credentials, Session, Viewer};
use conduit_core::{
    change_model_by_route, g_msg_handler, go_to, init, update, view, Cmd, GMsg, Model, Msg,
};

fn viewer() -> Viewer {
    Viewer {
        username: String::from("aftok"),
        credentials: Credentials { token: String::from("a-token") },
    }
}

fn authenticated() -> Session {
    Session::Authenticated(viewer())
}

fn article() -> Article {
    Article {
        slug: String::from("my-slug"),
        title: String::from("a title"),
        description: String::from("a description"),
        body: String::from("a body"),
    }
}

fn drain_one(cmds: Vec<Cmd>) -> Cmd {
    assert_eq!(cmds.len(), 1);
    cmds.into_iter().next().unwrap()
}

// Transitions: the route-to-page mapping, with the session carried over.

#[test]
fn no_route_enters_not_found_keeping_session() {
    let mut model = Model::Redirect(authenticated());
    let cmds = change_model_by_route(None, &mut model);
    assert!(cmds.is_empty());
    assert_eq!(model, Model::NotFound(authenticated()));
}

#[test]
fn root_only_redirects_home() {
    let mut model = Model::NotFound(authenticated());
    let cmds = change_model_by_route(Some(Route::Root), &mut model);
    assert_eq!(model, Model::NotFound(authenticated()));
    assert_eq!(
        cmds,
        vec![
            Cmd::SetLocation(Route::Home),
            Cmd::Broadcast(GMsg::RoutePushed(Route::Home)),
        ]
    );
}

#[test]
fn logout_clears_identity_broadcasts_guest_and_redirects_home() {
    let mut model = Model::Redirect(authenticated());
    let cmds = change_model_by_route(Some(Route::Logout), &mut model);
    assert_eq!(model, Model::Redirect(authenticated()));
    assert_eq!(
        cmds,
        vec![
            Cmd::ClearIdentity,
            Cmd::Broadcast(GMsg::SessionChanged(Session::Guest)),
            Cmd::SetLocation(Route::Home),
            Cmd::Broadcast(GMsg::RoutePushed(Route::Home)),
        ]
    );
}

#[test]
fn home_route_enters_home_and_fetches_the_feed() {
    let mut model = Model::Redirect(authenticated());
    let cmds = change_model_by_route(Some(Route::Home), &mut model);
    match &model {
        Model::Home(m) => {
            assert_eq!(m.session, authenticated());
            assert_eq!(m.feed, None);
            assert!(m.errors.is_empty());
        },
        other => panic!("expected the home page, got {:?}", other),
    }
    let req = match drain_one(cmds) {
        Cmd::Fetch(req) => req,
        other => panic!("expected a fetch, got {:?}", other),
    };
    assert_eq!(
        req,
        ApiRequest {
            method: Method::Get,
            path: String::from("articles"),
            credentials: Some(Credentials { token: String::from("a-token") }),
            body: RequestBody::Empty,
        }
    );
}

#[test]
fn profile_route_carries_username_and_fetches_the_profile() {
    let mut model = Model::Redirect(Session::Guest);
    let cmds = change_model_by_route(Some(Route::Profile(String::from("jane"))), &mut model);
    match &model {
        Model::Profile(m, username) => {
            assert_eq!(username, "jane");
            assert_eq!(m.session, Session::Guest);
            assert_eq!(m.author, None);
        },
        other => panic!("expected the profile page, got {:?}", other),
    }
    let req = match drain_one(cmds) {
        Cmd::Fetch(req) => req,
        other => panic!("expected a fetch, got {:?}", other),
    };
    assert_eq!(req.path, "profiles/jane");
    assert_eq!(req.method, Method::Get);
    assert_eq!(req.credentials, None);
}

#[test]
fn edit_article_route_is_idempotent() {
    // One copy stops after the first transition; the other resolves the
    // same route twice. The results must not differ.
    let mut once = Model::Redirect(authenticated());
    let first_cmds = change_model_by_route(
        Some(Route::EditArticle(String::from("my-slug"))),
        &mut once,
    );
    let mut twice = Model::Redirect(authenticated());
    let _ = change_model_by_route(Some(Route::EditArticle(String::from("my-slug"))), &mut twice);
    let second_cmds = change_model_by_route(
        Some(Route::EditArticle(String::from("my-slug"))),
        &mut twice,
    );
    assert_eq!(once, twice);
    assert_eq!(first_cmds, second_cmds);
    match &once {
        Model::ArticleEditor(m, slug) => {
            assert_eq!(*slug, Some(String::from("my-slug")));
            assert_eq!(m.session, authenticated());
            assert_eq!(m.form, None);
        },
        other => panic!("expected the editor, got {:?}", other),
    }
    match &first_cmds[0] {
        Cmd::Fetch(req) => assert_eq!(req.path, "articles/my-slug"),
        other => panic!("expected a fetch, got {:?}", other),
    }
}

#[test]
fn session_survives_every_route() {
    let routes = vec![
        Some(Route::Home),
        Some(Route::Login),
        Some(Route::Register),
        Some(Route::Settings),
        Some(Route::NewArticle),
        Some(Route::EditArticle(String::from("s"))),
        Some(Route::Article(String::from("s"))),
        Some(Route::Profile(String::from("u"))),
        None,
    ];
    for route in routes {
        let mut model = Model::Redirect(authenticated());
        let _ = change_model_by_route(route, &mut model);
        let session = Session::from(model);
        assert_eq!(session, authenticated());
    }
}

// Dispatch of local messages.

#[test]
fn stale_page_message_is_dropped() {
    let mut model = Model::Login(LoginModel { session: authenticated(), problems: Vec::new() });
    let cmds = update(
        Msg::GotHomeMsg(HomeMsg::FeedLoadCompleted(Ok(vec![article()]))),
        &mut model,
    );
    assert!(cmds.is_empty());
    assert_eq!(
        model,
        Model::Login(LoginModel { session: authenticated(), problems: Vec::new() })
    );
}

#[test]
fn got_session_is_ignored_outside_redirect() {
    let mut model = Model::NotFound(authenticated());
    let cmds = update(Msg::GotSession(Session::Guest), &mut model);
    assert!(cmds.is_empty());
    assert_eq!(model, Model::NotFound(authenticated()));
}

#[test]
fn got_session_promotes_redirect_towards_home() {
    let mut model = Model::Redirect(Session::Guest);
    let cmds = update(Msg::GotSession(authenticated()), &mut model);
    assert_eq!(model, Model::Redirect(authenticated()));
    assert_eq!(
        cmds,
        vec![
            Cmd::SetLocation(Route::Home),
            Cmd::Broadcast(GMsg::RoutePushed(Route::Home)),
        ]
    );
}

#[test]
fn login_completion_broadcasts_the_new_session() {
    let mut model = Model::Login(LoginModel { session: Session::Guest, problems: Vec::new() });
    let cmds = update(Msg::GotLoginMsg(LoginMsg::LoginCompleted(Ok(viewer()))), &mut model);
    assert_eq!(cmds, vec![Cmd::Broadcast(GMsg::SessionChanged(authenticated()))]);
}

#[test]
fn failed_login_shows_its_problems() {
    let mut model = Model::Login(LoginModel { session: Session::Guest, problems: Vec::new() });
    let problems = vec![Problem::ServerError(String::from("session expired"))];
    let _ = update(
        Msg::GotLoginMsg(LoginMsg::LoginCompleted(Err(problems.clone()))),
        &mut model,
    );
    match model {
        Model::Login(m) => assert_eq!(m.problems, problems),
        other => panic!("expected the login page, got {:?}", other),
    }
}

#[test]
fn editor_submit_completion_navigates_to_the_article() {
    let mut model = Model::ArticleEditor(
        conduit_core::page::ArticleEditorModel {
            session: authenticated(),
            form: Some(ValidForm::empty()),
            problems: Vec::new(),
        },
        None,
    );
    let cmds = update(
        Msg::GotArticleEditorMsg(ArticleEditorMsg::SubmitCompleted(Ok(article()))),
        &mut model,
    );
    assert_eq!(
        cmds,
        vec![
            Cmd::SetLocation(Route::Article(String::from("my-slug"))),
            Cmd::Broadcast(GMsg::RoutePushed(Route::Article(String::from("my-slug")))),
        ]
    );
}

#[test]
fn feed_completion_fills_the_home_page() {
    let mut model = Model::Redirect(Session::Guest);
    let _ = change_model_by_route(Some(Route::Home), &mut model);
    let cmds = update(
        Msg::GotHomeMsg(HomeMsg::FeedLoadCompleted(Ok(vec![article()]))),
        &mut model,
    );
    assert!(cmds.is_empty());
    match model {
        Model::Home(m) => {
            assert_eq!(m.feed, Some(vec![article()]));
            assert!(m.errors.is_empty());
        },
        other => panic!("expected the home page, got {:?}", other),
    }
}

#[test]
fn failed_feed_completion_shows_its_errors() {
    let mut model = Model::Redirect(Session::Guest);
    let _ = change_model_by_route(Some(Route::Home), &mut model);
    let errors = fail_reason_into_errors(FailReason::RequestFailed);
    let _ = update(
        Msg::GotHomeMsg(HomeMsg::FeedLoadCompleted(Err(errors))),
        &mut model,
    );
    match model {
        Model::Home(m) => {
            assert_eq!(m.feed, None);
            assert_eq!(m.errors, vec![String::from("server error")]);
        },
        other => panic!("expected the home page, got {:?}", other),
    }
}

#[test]
fn article_deletion_completion_navigates_home() {
    let mut model = Model::Redirect(authenticated());
    let _ = change_model_by_route(Some(Route::Article(String::from("my-slug"))), &mut model);
    let cmds = update(
        Msg::GotArticleMsg(ArticleMsg::DeleteCompleted(Ok(()))),
        &mut model,
    );
    assert_eq!(
        cmds,
        vec![
            Cmd::SetLocation(Route::Home),
            Cmd::Broadcast(GMsg::RoutePushed(Route::Home)),
        ]
    );
}

#[test]
fn editor_load_completion_prefills_the_form() {
    let mut model = Model::Redirect(authenticated());
    let _ = change_model_by_route(Some(Route::EditArticle(String::from("my-slug"))), &mut model);
    let _ = update(
        Msg::GotArticleEditorMsg(ArticleEditorMsg::LoadCompleted(Ok(article()))),
        &mut model,
    );
    match model {
        Model::ArticleEditor(m, slug) => {
            assert_eq!(slug, Some(String::from("my-slug")));
            assert_eq!(
                m.form,
                Some(ValidForm {
                    title: String::from("a title"),
                    description: String::from("a description"),
                    body: String::from("a body"),
                })
            );
        },
        other => panic!("expected the editor, got {:?}", other),
    }
}

#[test]
fn settings_save_completion_broadcasts_the_saved_viewer() {
    let mut model = Model::Settings(SettingsModel { session: authenticated(), problems: Vec::new() });
    let cmds = update(
        Msg::GotSettingsMsg(SettingsMsg::SaveCompleted(Ok(viewer()))),
        &mut model,
    );
    assert_eq!(cmds, vec![Cmd::Broadcast(GMsg::SessionChanged(authenticated()))]);
}

// Dispatch of global events.

#[test]
fn route_pushed_becomes_a_changed_route_message() {
    let mut model = Model::NotFound(Session::Guest);
    let cmds = g_msg_handler(GMsg::RoutePushed(Route::Settings), &mut model);
    assert_eq!(cmds, vec![Cmd::Local(Msg::ChangedRoute(Some(Route::Settings)))]);
    assert_eq!(model, Model::NotFound(Session::Guest));
}

#[test]
fn session_broadcast_is_queued_while_redirecting_and_forwarded_to_a_live_page() {
    let mut redirecting = Model::Redirect(authenticated());
    let cmds = g_msg_handler(GMsg::SessionChanged(Session::Guest), &mut redirecting);
    assert_eq!(cmds, vec![Cmd::Local(Msg::GotSession(Session::Guest))]);
    assert_eq!(redirecting, Model::Redirect(authenticated()));

    let mut live = Model::Settings(SettingsModel { session: authenticated(), problems: Vec::new() });
    let cmds = g_msg_handler(GMsg::SessionChanged(Session::Guest), &mut live);
    assert_eq!(
        live,
        Model::Settings(SettingsModel { session: Session::Guest, problems: Vec::new() })
    );
    assert_eq!(
        cmds,
        vec![
            Cmd::SetLocation(Route::Home),
            Cmd::Broadcast(GMsg::RoutePushed(Route::Home)),
        ]
    );
}

#[test]
fn session_broadcast_at_not_found_causes_no_transition() {
    // The queued session message is ignored outside the redirecting state,
    // so nothing changes.
    let mut model = Model::NotFound(Session::Guest);
    let cmds = g_msg_handler(GMsg::SessionChanged(Session::Guest), &mut model);
    assert_eq!(cmds, vec![Cmd::Local(Msg::GotSession(Session::Guest))]);
    let cmds = update(Msg::GotSession(Session::Guest), &mut model);
    assert!(cmds.is_empty());
    assert_eq!(model, Model::NotFound(Session::Guest));
}

#[test]
fn session_broadcast_while_redirecting_reaches_home() {
    // The same event from the redirecting state promotes it to the home page.
    let mut model = Model::Redirect(authenticated());
    let _ = g_msg_handler(GMsg::SessionChanged(Session::Guest), &mut model);
    let cmds = update(Msg::GotSession(Session::Guest), &mut model);
    assert_eq!(model, Model::Redirect(Session::Guest));
    // The navigation's synthetic broadcast resolves the home route.
    assert!(cmds.contains(&Cmd::Broadcast(GMsg::RoutePushed(Route::Home))));
    let _ = update(Msg::ChangedRoute(Some(Route::Home)), &mut model);
    match model {
        Model::Home(m) => assert_eq!(m.session, Session::Guest),
        other => panic!("expected the home page, got {:?}", other),
    }
}

#[test]
fn logout_from_settings_settles_home_as_guest() {
    // Walk the queue the way the host would, from the settings page.
    let mut model = Model::Settings(SettingsModel { session: authenticated(), problems: Vec::new() });
    let cmds = update(Msg::ChangedRoute(Some(Route::Logout)), &mut model);
    assert_eq!(cmds[0], Cmd::ClearIdentity);
    // Deliver the guest broadcast: the settings page adopts it.
    let _ = g_msg_handler(GMsg::SessionChanged(Session::Guest), &mut model);
    // Deliver the navigation's synthetic broadcast and the route change.
    let queued = g_msg_handler(GMsg::RoutePushed(Route::Home), &mut model);
    assert_eq!(queued, vec![Cmd::Local(Msg::ChangedRoute(Some(Route::Home)))]);
    let _ = update(Msg::ChangedRoute(Some(Route::Home)), &mut model);
    match model {
        Model::Home(m) => assert_eq!(m.session, Session::Guest),
        other => panic!("expected the home page, got {:?}", other),
    }
}

// The request/decode/validate pipeline.

#[test]
fn unauthorized_failure_is_a_session_expired_problem() {
    let errors = fail_reason_into_errors(FailReason::StatusFailed(401, String::from("ignored")));
    assert_eq!(errors, vec![String::from("session expired")]);
}

#[test]
fn failed_status_yields_one_problem_per_body_line_in_order() {
    let errors = fail_reason_into_errors(FailReason::StatusFailed(
        422,
        String::from("title can't be blank\nbody can't be blank"),
    ));
    assert_eq!(
        errors,
        vec![
            String::from("title can't be blank"),
            String::from("body can't be blank"),
        ]
    );
}

#[test]
fn empty_body_transport_fault_and_malformed_payload_are_generic() {
    let empty = fail_reason_into_errors(FailReason::StatusFailed(500, String::new()));
    assert_eq!(empty, vec![String::from("server error")]);
    let fault = fail_reason_into_errors(FailReason::RequestFailed);
    assert_eq!(fault, vec![String::from("server error")]);
    let malformed = fail_reason_into_errors(FailReason::DecodeFailed);
    assert_eq!(malformed, vec![String::from("server error")]);
}

#[test]
fn split_lines_keeps_order_and_trailing_empty_line() {
    assert_eq!(split_lines(""), vec![String::new()]);
    assert_eq!(split_lines("a\nb"), vec![String::from("a"), String::from("b")]);
    assert_eq!(
        split_lines("a\n"),
        vec![String::from("a"), String::new()]
    );
    assert_eq!(
        split_lines("\n\n"),
        vec![String::new(), String::new(), String::new()]
    );
}

#[test]
fn problems_wrap_the_same_messages_as_server_errors() {
    let problems = fail_reason_into_problems(FailReason::StatusFailed(
        422,
        String::from("one\ntwo"),
    ));
    assert_eq!(
        problems,
        vec![
            Problem::ServerError(String::from("one")),
            Problem::ServerError(String::from("two")),
        ]
    );
}

#[test]
fn issue_and_new_api_request_describe_the_call() {
    let req = issue(
        Method::Post,
        String::from("users/login"),
        None,
        RequestBody::Empty,
    );
    assert_eq!(req.method, Method::Post);
    assert_eq!(req.path, "users/login");
    let req = new_api_request(String::from("tags"), None);
    assert_eq!(req.method, Method::Get);
    assert_eq!(req.body, RequestBody::Empty);
}

#[test]
fn update_request_puts_the_form_at_the_article_path() {
    let form = ValidForm {
        title: String::from("t"),
        description: String::from("d"),
        body: String::from("b"),
    };
    let req = update_article(
        Some(Credentials { token: String::from("a-token") }),
        &form,
        &String::from("my-slug"),
    );
    assert_eq!(req.method, Method::Put);
    assert_eq!(req.path, "articles/my-slug");
    assert_eq!(req.body, RequestBody::ArticleUpsert(form));
    assert!(req.credentials.is_some());
}

#[test]
fn update_completion_folds_failures_into_problems() {
    let ok = update_completed(Ok(article()));
    assert_eq!(ok, Ok(article()));
    let err = update_completed(Err(FailReason::StatusFailed(401, String::new())));
    assert_eq!(
        err,
        Err(vec![Problem::ServerError(String::from("session expired"))])
    );
}

#[test]
fn delete_request_uses_the_session_credentials() {
    let req = delete_article(&authenticated(), &String::from("my-slug"));
    assert_eq!(req.method, Method::Delete);
    assert_eq!(req.path, "articles/my-slug");
    assert_eq!(req.credentials, Some(Credentials { token: String::from("a-token") }));
    let guest = delete_article(&Session::Guest, &String::from("my-slug"));
    assert_eq!(guest.credentials, None);
}

#[test]
fn delete_completion_folds_failures_into_errors() {
    assert_eq!(delete_article_completed(Ok(())), Ok(()));
    let err = delete_article_completed(Err(FailReason::StatusFailed(422, String::from("x\ny"))));
    assert_eq!(err, Err(vec![String::from("x"), String::from("y")]));
}

// Startup and rendering projection.

#[test]
fn init_starts_redirecting_and_queues_the_opening_route() {
    let (model, cmds) = init(Some(Route::Login), authenticated());
    assert_eq!(model, Model::Redirect(authenticated()));
    assert_eq!(cmds, vec![Cmd::Local(Msg::ChangedRoute(Some(Route::Login)))]);
}

#[test]
fn view_projects_page_kind_and_viewer() {
    let (page, who) = view(&Model::Redirect(authenticated()));
    assert_eq!(page, Page::Other);
    assert_eq!(who, Some(viewer()));

    let mut model = Model::Redirect(Session::Guest);
    let _ = change_model_by_route(Some(Route::NewArticle), &mut model);
    let (page, who) = view(&model);
    assert_eq!(page, Page::NewArticle);
    assert_eq!(who, None);

    let _ = change_model_by_route(Some(Route::EditArticle(String::from("s"))), &mut model);
    let (page, _) = view(&model);
    assert_eq!(page, Page::Other);

    let _ = change_model_by_route(Some(Route::Profile(String::from("jane"))), &mut model);
    let (page, _) = view(&model);
    assert_eq!(page, Page::Profile(String::from("jane")));
}

#[test]
fn take_leaves_the_redirecting_placeholder() {
    let mut model = Model::NotFound(authenticated());
    let taken = model.take();
    assert_eq!(taken, Model::NotFound(authenticated()));
    assert_eq!(model, Model::Redirect(Session::Guest));
}

#[test]
fn go_to_requests_location_change_and_synthetic_event() {
    let cmds = go_to(Route::Register);
    assert_eq!(
        cmds,
        vec![
            Cmd::SetLocation(Route::Register),
            Cmd::Broadcast(GMsg::RoutePushed(Route::Register)),
        ]
    );
}
