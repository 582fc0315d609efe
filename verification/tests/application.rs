use conduit::entity::{Session, Slug, Username, Viewer};
use conduit::route::Route;
use conduit::{change_model_by_route, home, profile, sink, update, Action, GMsg, Model, Msg};

type AppModel = Model<Vec<u32>, Vec<u32>>;
type AppAction = Action<u8, u8>;
type AppMsg = Msg<Vec<u32>, u8, Vec<u32>, u8>;

fn signed_in(name: &str) -> Session {
    Session::LoggedIn(Viewer { username: Username::from(name.to_string()), auth_token: "tok".to_string() })
}

fn session_name(model: &AppModel) -> Option<String> {
    let session = match model {
        Model::Redirect(s) | Model::NotFound(s) | Model::Settings(s) | Model::Login(s) | Model::Register(s) => s,
        Model::Article(s, _) | Model::ArticleEditor(s, _) => s,
        Model::Home(m) => m.session(),
        Model::Profile(m, _) => m.session(),
    };
    session.viewer().map(|v| v.username().as_str().to_string())
}

#[test]
fn unknown_route_shows_not_found_with_same_session() {
    let mut model: AppModel = Model::Login(signed_in("jake"));
    let actions: Vec<AppAction> = change_model_by_route(None, &mut model);
    assert!(actions.is_empty());
    assert!(matches!(model, Model::NotFound(_)));
    assert_eq!(session_name(&model), Some("jake".to_string()));
}

#[test]
fn root_goes_home_and_keeps_page() {
    let mut model: AppModel = Model::Settings(signed_in("jake"));
    let actions: Vec<AppAction> = change_model_by_route(Some(Route::Root), &mut model);
    assert!(matches!(model, Model::Settings(_)));
    assert_eq!(actions.len(), 1);
    assert!(matches!(actions[0], Action::GoTo(Route::Home)));
}

#[test]
fn logout_forgets_user_and_goes_home() {
    let mut model: AppModel = Model::Settings(signed_in("jake"));
    let actions: Vec<AppAction> = change_model_by_route(Some(Route::Logout), &mut model);
    assert!(matches!(model, Model::Settings(_)));
    assert_eq!(actions.len(), 3);
    assert!(matches!(actions[0], Action::DeleteAppData));
    assert!(matches!(actions[1], Action::SessionChanged(Session::Guest)));
    assert!(matches!(actions[2], Action::GoTo(Route::Home)));
}

#[test]
fn home_route_opens_home_with_session() {
    let mut model: AppModel = Model::default();
    let mut model2: AppModel = Model::Register(signed_in("amy"));
    let actions: Vec<AppAction> = change_model_by_route(Some(Route::Home), &mut model2);
    assert!(matches!(&model2, Model::Home(m) if matches!(m.selected_feed, home::SelectedFeed::Your(_))));
    assert_eq!(session_name(&model2), Some("amy".to_string()));
    assert_eq!(actions.len(), 3);
    assert!(matches!(&actions[2], Action::Home(home::Command::FetchFeed(Some(v), url)) if url == "articles/feed?limit=10&offset=0" && v.auth_token == "tok"));
    let actions: Vec<AppAction> = change_model_by_route(Some(Route::Home), &mut model);
    assert!(matches!(&actions[2], Action::Home(home::Command::FetchFeed(None, url)) if url == "articles?limit=10&offset=0"));
}

#[test]
fn other_routes_open_their_pages() {
    let mut model: AppModel = Model::Home(home::init::<Vec<u32>, u8>(signed_in("x")).0);
    let actions: Vec<AppAction> =
        change_model_by_route(Some(Route::EditArticle(Slug::from("s".to_string()))), &mut model);
    assert!(matches!(&model, Model::ArticleEditor(_, Some(slug)) if slug.as_str() == "s"));
    assert!(matches!(&actions[0], Action::InitEditArticle(slug) if slug.as_str() == "s"));
    assert_eq!(session_name(&model), Some("x".to_string()));
    let actions: Vec<AppAction> = change_model_by_route(Some(Route::NewArticle), &mut model);
    assert!(actions.is_empty());
    assert!(matches!(model, Model::ArticleEditor(_, None)));
    let actions: Vec<AppAction> =
        change_model_by_route(Some(Route::Profile(Username::from("bo".to_string()))), &mut model);
    assert!(matches!(&model, Model::Profile(_, u) if u.as_str() == "bo"));
    assert!(matches!(&actions[1], Action::Profile(profile::Command::LoadAuthor(Some(v), u)) if u.as_str() == "bo" && v.username().as_str() == "x"));
    assert_eq!(session_name(&model), Some("x".to_string()));
}

#[test]
fn pushed_route_is_announced() {
    let mut model: AppModel = Model::Login(Session::Guest);
    let actions: Vec<AppAction> = sink(GMsg::RoutePushed(Route::Settings), &mut model);
    assert_eq!(actions.len(), 2);
    assert!(matches!(actions[0], Action::RouteChanged(Some(Route::Settings))));
    assert!(matches!(actions[1], Action::ToPage(GMsg::RoutePushed(Route::Settings))));
}

#[test]
fn new_session_while_waiting_redirects_home() {
    let mut model: AppModel = Model::NotFound(Session::Guest);
    let actions: Vec<AppAction> = sink(GMsg::SessionChanged(signed_in("z")), &mut model);
    assert!(matches!(model, Model::Redirect(Session::LoggedIn(_))));
    assert_eq!(actions.len(), 1);
    assert!(matches!(actions[0], Action::GoTo(Route::Home)));
}

#[test]
fn new_session_reaches_home_and_profile_pages() {
    let mut model: AppModel = Model::Home(home::init::<Vec<u32>, u8>(Session::Guest).0);
    let actions: Vec<AppAction> = sink(GMsg::SessionChanged(signed_in("z")), &mut model);
    assert!(actions.is_empty());
    assert_eq!(session_name(&model), Some("z".to_string()));
    let mut model: AppModel =
        Model::Profile(profile::init::<Vec<u32>, u8>(Session::Guest, Username::from("p".to_string())).0, Username::from("p".to_string()));
    let actions: Vec<AppAction> = sink(GMsg::SessionChanged(signed_in("z")), &mut model);
    assert_eq!(session_name(&model), Some("z".to_string()));
    assert!(matches!(actions[0], Action::Profile(profile::Command::GoTo(Route::Home))));
}

#[test]
fn page_messages_for_other_pages_are_dropped() {
    let mut model: AppModel = Model::Login(Session::Guest);
    let actions: Vec<AppAction> = update(AppMsg::HomeMsg(home::Msg::SlowLoadThresholdPassed), &mut model);
    assert!(actions.is_empty());
    assert!(matches!(model, Model::Login(_)));
    let mut model: AppModel = Model::Home(home::init::<Vec<u32>, u8>(Session::Guest).0);
    update(AppMsg::HomeMsg(home::Msg::SlowLoadThresholdPassed), &mut model);
    assert!(matches!(&model, Model::Home(m) if matches!(m.feed, home::Status::LoadingSlowly)));
    let actions: Vec<AppAction> = update(AppMsg::ProfileMsg(profile::Msg::FollowClicked), &mut model);
    assert!(actions.is_empty());
}

#[test]
fn route_change_message_changes_page() {
    let mut model: AppModel = Model::default();
    let actions: Vec<AppAction> = update(AppMsg::RouteChanged(Some(Route::Login)), &mut model);
    assert!(actions.is_empty());
    assert!(matches!(model, Model::Login(Session::Guest)));
}

#[test]
fn header_entry_of_each_page() {
    let model: AppModel = Model::ArticleEditor(signed_in("w"), None);
    let (page, viewer) = conduit::page_of(&model);
    assert!(matches!(page, conduit::Page::NewArticle));
    assert_eq!(viewer.map(|v| v.username().as_str()), Some("w"));
    let model: AppModel = Model::ArticleEditor(Session::Guest, Some(Slug::from("s".to_string())));
    let (page, viewer) = conduit::page_of(&model);
    assert!(matches!(page, conduit::Page::Other));
    assert!(viewer.is_none());
    let model: AppModel = Model::Profile(
        profile::init::<Vec<u32>, u8>(Session::Guest, Username::from("p".to_string())).0,
        Username::from("p".to_string()),
    );
    assert!(matches!(conduit::page_of(&model).0, conduit::Page::Profile(u) if u.as_str() == "p"));
    let model: AppModel = Model::NotFound(Session::Guest);
    assert!(matches!(conduit::page_of(&model).0, conduit::Page::Other));
}

#[test]
fn home_message_with_huge_page_is_dropped_elsewhere() {
    let mut model: AppModel = Model::Login(Session::Guest);
    let page = conduit::entity::PageNumber::new(usize::MAX).unwrap();
    let actions: Vec<AppAction> = update(AppMsg::HomeMsg(home::Msg::FeedPageClicked(page)), &mut model);
    assert!(actions.is_empty());
    assert!(matches!(model, Model::Login(_)));
}
