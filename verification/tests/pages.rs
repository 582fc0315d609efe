use conduit::entity::{Author, ErrorMessage, PageNumber, Session, Tag, Username, Viewer};
use conduit::home;
use conduit::profile;
use conduit::GMsg;

fn viewer(name: &str) -> Viewer {
    Viewer { username: Username::from(name.to_string()), auth_token: "t".to_string() }
}

fn error(text: &str) -> ErrorMessage {
    ErrorMessage::from(text.to_string())
}

// ------ home ------

type HomeModel = home::Model<Vec<u32>>;
type HomeCommand = home::Command<u8>;
type HomeMsg = home::Msg<Vec<u32>, u8>;

fn fetch_url(command: &HomeCommand) -> Option<&str> {
    match command {
        home::Command::FetchFeed(_, url) => Some(url.as_str()),
        _ => None,
    }
}

#[test]
fn home_opens_on_global_feed_for_guest() {
    let (model, commands): (HomeModel, Vec<HomeCommand>) = home::init(Session::Guest);
    assert!(matches!(model.selected_feed, home::SelectedFeed::Global));
    assert_eq!(model.feed_page.get(), 1);
    assert!(matches!(model.tags, home::Status::Loading));
    assert!(matches!(model.feed, home::Status::Loading));
    assert_eq!(commands.len(), 3);
    assert!(matches!(commands[0], home::Command::NotifyOnSlowLoad));
    assert!(matches!(commands[1], home::Command::LoadTags));
    assert_eq!(fetch_url(&commands[2]), Some("articles?limit=10&offset=0"));
}

#[test]
fn home_opens_on_own_feed_when_signed_in() {
    let (model, commands): (HomeModel, Vec<HomeCommand>) = home::init(Session::LoggedIn(viewer("jake")));
    assert!(matches!(&model.selected_feed, home::SelectedFeed::Your(v) if v.username().as_str() == "jake"));
    assert_eq!(fetch_url(&commands[2]), Some("articles/feed?limit=10&offset=0"));
}

#[test]
fn tag_click_selects_tag_and_first_page() {
    let (mut model, _): (HomeModel, Vec<HomeCommand>) = home::init(Session::Guest);
    home::update(HomeMsg::FeedPageClicked(PageNumber::new(4).unwrap()), &mut model);
    assert_eq!(model.feed_page.get(), 4);
    let commands = home::update(HomeMsg::TagClicked(Tag::from("go".to_string())), &mut model);
    assert_eq!(model.feed_page.get(), 1);
    assert!(matches!(&model.selected_feed, home::SelectedFeed::Tag(t) if t.as_str() == "go"));
    assert_eq!(commands.len(), 1);
    assert_eq!(fetch_url(&commands[0]), Some("articles?limit=10&offset=0&tag=go"));
}

#[test]
fn page_click_fetches_and_scrolls() {
    let (mut model, _): (HomeModel, Vec<HomeCommand>) = home::init(Session::Guest);
    let commands = home::update(HomeMsg::FeedPageClicked(PageNumber::new(3).unwrap()), &mut model);
    assert_eq!(commands.len(), 2);
    assert_eq!(fetch_url(&commands[0]), Some("articles?limit=10&offset=20"));
    assert!(matches!(commands[1], home::Command::ScrollToTop));
}

#[test]
fn tab_click_selects_feed() {
    let (mut model, _): (HomeModel, Vec<HomeCommand>) = home::init(Session::Guest);
    let commands = home::update(HomeMsg::TabClicked(home::SelectedFeed::Your(viewer("amy"))), &mut model);
    assert!(matches!(model.selected_feed, home::SelectedFeed::Your(_)));
    assert_eq!(fetch_url(&commands[0]), Some("articles/feed?limit=10&offset=0"));
}

#[test]
fn loads_complete_or_fail() {
    let (mut model, _): (HomeModel, Vec<HomeCommand>) = home::init(Session::Guest);
    let commands = home::update(HomeMsg::FeedLoadCompleted(Ok(vec![1, 2])), &mut model);
    assert!(commands.is_empty());
    assert!(matches!(&model.feed, home::Status::Loaded(f) if f == &vec![1, 2]));
    let commands = home::update(HomeMsg::TagsLoadCompleted(Err(vec![error("e")])), &mut model);
    assert!(matches!(model.tags, home::Status::Failed));
    assert!(matches!(&commands[0], home::Command::LogErrors(es) if es.len() == 1 && es[0].as_str() == "e"));
    let commands = home::update(HomeMsg::FeedLoadCompleted(Err(vec![error("x")])), &mut model);
    assert!(matches!(model.feed, home::Status::Failed));
    assert_eq!(commands.len(), 1);
}

#[test]
fn slow_load_marks_only_loading_parts() {
    let (mut model, _): (HomeModel, Vec<HomeCommand>) = home::init(Session::Guest);
    home::update(HomeMsg::TagsLoadCompleted(Ok(vec![])), &mut model);
    let commands = home::update(HomeMsg::SlowLoadThresholdPassed, &mut model);
    assert!(commands.is_empty());
    assert!(matches!(model.feed, home::Status::LoadingSlowly));
    assert!(matches!(model.tags, home::Status::Loaded(_)));
}

#[test]
fn feed_messages_need_a_loaded_feed() {
    let (mut model, _): (HomeModel, Vec<HomeCommand>) = home::init(Session::Guest);
    let commands = home::update(HomeMsg::FeedMsg(7), &mut model);
    assert!(matches!(&commands[0], home::Command::LogError(t) if t == "FeedMsg can be handled only if Status is Loaded"));
    home::update(HomeMsg::FeedLoadCompleted(Ok(vec![])), &mut model);
    let commands = home::update(HomeMsg::FeedMsg(7), &mut model);
    assert!(matches!(commands[0], home::Command::ForwardToFeed(7)));
}

#[test]
fn home_takes_new_session() {
    let (mut model, _): (HomeModel, Vec<HomeCommand>) = home::init(Session::Guest);
    home::sink(GMsg::SessionChanged(Session::LoggedIn(viewer("z"))), &mut model);
    assert!(model.session().viewer().is_some());
}

#[test]
fn home_tabs() {
    let (mut model, _): (HomeModel, Vec<HomeCommand>) = home::init(Session::LoggedIn(viewer("jake")));
    home::update(HomeMsg::TagClicked(Tag::from("go".to_string())), &mut model);
    let tabs = home::view_tabs(&model);
    let titles: Vec<(&str, bool)> = tabs.iter().map(|t| (t.title.as_str(), t.active)).collect();
    assert_eq!(titles, vec![("Your Feed", false), ("Global Feed", false), ("#go", true)]);
    let (model, _): (HomeModel, Vec<HomeCommand>) = home::init(Session::Guest);
    let tabs = home::view_tabs(&model);
    assert_eq!(tabs.len(), 1);
    assert_eq!((tabs[0].title.as_str(), tabs[0].active), ("Global Feed", true));
}

// ------ profile ------

type ProfileModel = profile::Model<Vec<u32>>;
type ProfileCommand = profile::Command<u8>;
type ProfileMsg = profile::Msg<Vec<u32>, u8>;

fn open_profile(session: Session, name: &str) -> (ProfileModel, Vec<ProfileCommand>) {
    profile::init(session, Username::from(name.to_string()))
}

#[test]
fn profile_opens_loading() {
    let (model, commands) = open_profile(Session::Guest, "jake");
    assert!(matches!(&model.author, profile::Status::Loading(u) if u.as_str() == "jake"));
    assert!(model.errors.is_empty());
    assert_eq!(commands.len(), 3);
    assert!(matches!(&commands[1], profile::Command::LoadAuthor(None, u) if u.as_str() == "jake"));
    assert!(matches!(&commands[2], profile::Command::FetchFeed(None, u, profile::SelectedFeed::MyArticles, p) if u.as_str() == "jake" && p.get() == 1));
}

#[test]
fn profile_titles() {
    let (model, _) = open_profile(Session::LoggedIn(viewer("jake")), "jake");
    assert_eq!(profile::title_prefix(&model), "My Profile");
    let (mut model, _) = open_profile(Session::LoggedIn(viewer("jake")), "amy");
    assert_eq!(profile::title_prefix(&model), "Profile");
    profile::update(ProfileMsg::AuthorLoadCompleted(Ok(Author::NotFollowing(Username::from("amy".to_string())))), &mut model);
    assert_eq!(profile::title_prefix(&model), "Profile - amy");
    let (mut model, _) = open_profile(Session::Guest, "jake");
    profile::update(ProfileMsg::AuthorLoadCompleted(Ok(Author::IsViewer(Username::from("jake".to_string())))), &mut model);
    assert_eq!(profile::title_prefix(&model), "My Profile");
}

#[test]
fn profile_errors_are_kept_and_logged() {
    let (mut model, _) = open_profile(Session::Guest, "jake");
    let commands = profile::update(
        ProfileMsg::AuthorLoadCompleted(Err((Username::from("jake".to_string()), vec![error("gone")]))),
        &mut model,
    );
    assert!(matches!(&model.author, profile::Status::Failed(u) if u.as_str() == "jake"));
    assert_eq!(model.errors.len(), 1);
    assert!(matches!(&commands[0], profile::Command::LogErrors(es) if es[0].as_str() == "gone"));
    profile::update(ProfileMsg::DismissErrorsClicked, &mut model);
    assert!(model.errors.is_empty());
}

#[test]
fn profile_follow_uses_author_name() {
    let (mut model, _) = open_profile(Session::LoggedIn(viewer("me")), "amy");
    let commands = profile::update(ProfileMsg::FollowClicked, &mut model);
    assert!(matches!(&commands[0], profile::Command::Follow(Some(v), u) if u.as_str() == "amy" && v.username().as_str() == "me"));
    assert!(matches!(commands[1], profile::Command::SkipRender));
    profile::update(ProfileMsg::FollowChangeCompleted(Ok(Author::Following(Username::from("amy".to_string())))), &mut model);
    let commands = profile::update(ProfileMsg::UnfollowClicked, &mut model);
    assert!(matches!(&commands[0], profile::Command::Unfollow(Some(_), u) if u.as_str() == "amy"));
}

#[test]
fn profile_tabs_and_pages() {
    let (mut model, _) = open_profile(Session::Guest, "amy");
    let commands = profile::update(ProfileMsg::TabClicked(profile::SelectedFeed::FavoritedArticles), &mut model);
    assert!(matches!(&commands[0], profile::Command::FetchFeed(None, u, profile::SelectedFeed::FavoritedArticles, p) if u.as_str() == "amy" && p.get() == 1));
    let commands = profile::update(ProfileMsg::FeedPageClicked(PageNumber::new(2).unwrap()), &mut model);
    assert!(matches!(&commands[0], profile::Command::FetchFeed(_, _, profile::SelectedFeed::FavoritedArticles, p) if p.get() == 2));
    assert!(matches!(commands[1], profile::Command::ScrollToTop));
    let tabs = profile::view_tabs(model.selected_feed);
    assert_eq!(tabs[0].title, "My Articles");
    assert!(!tabs[0].active && tabs[1].active);
}

#[test]
fn profile_slow_load_marks_feed() {
    let (mut model, _) = open_profile(Session::Guest, "amy");
    profile::update(ProfileMsg::SlowLoadThresholdPassed, &mut model);
    assert!(matches!(&model.feed, profile::Status::LoadingSlowly(u) if u.as_str() == "amy"));
    assert!(matches!(model.author, profile::Status::Loading(_)));
}

#[test]
fn profile_session_change_goes_home() {
    let (mut model, _) = open_profile(Session::Guest, "amy");
    let commands: Vec<ProfileCommand> = profile::sink(GMsg::SessionChanged(Session::Guest), &mut model);
    assert!(matches!(commands[0], profile::Command::GoTo(conduit::route::Route::Home)));
}

#[test]
fn follow_buttons() {
    let (model, _) = open_profile(Session::LoggedIn(viewer("me")), "amy");
    let amy = || Username::from("amy".to_string());
    assert!(matches!(profile::view_follow_button(&Author::NotFollowing(amy()), &model), profile::FollowButton::Follow(u) if u.as_str() == "amy"));
    assert!(matches!(profile::view_follow_button(&Author::Following(amy()), &model), profile::FollowButton::Unfollow(_)));
    assert!(matches!(profile::view_follow_button(&Author::IsViewer(amy()), &model), profile::FollowButton::Hidden));
    let (guest_model, _) = open_profile(Session::Guest, "amy");
    assert!(matches!(profile::view_follow_button(&Author::NotFollowing(amy()), &guest_model), profile::FollowButton::Hidden));
}

#[test]
fn signed_in_fetches_carry_the_viewer() {
    let (mut model, _): (HomeModel, Vec<HomeCommand>) = home::init(Session::LoggedIn(viewer("jake")));
    let commands = home::update(HomeMsg::TagClicked(Tag::from("go".to_string())), &mut model);
    assert!(matches!(&commands[0], home::Command::FetchFeed(Some(v), _) if v.username().as_str() == "jake" && v.auth_token == "t"));
}

#[test]
fn parts_of_the_home_page() {
    let (mut model, _): (HomeModel, Vec<HomeCommand>) = home::init(Session::Guest);
    assert!(matches!(home::view_feed(&model), home::Content::Empty));
    home::update(HomeMsg::SlowLoadThresholdPassed, &mut model);
    assert!(matches!(home::view_tags(&model), home::Content::LoadingIcon));
    home::update(HomeMsg::FeedLoadCompleted(Err(vec![])), &mut model);
    assert!(matches!(home::view_feed(&model), home::Content::Error("feed")));
    home::update(HomeMsg::TagsLoadCompleted(Ok(vec![Tag::from("a".to_string())])), &mut model);
    assert!(matches!(home::view_tags(&model), home::Content::Loaded(tags) if tags.len() == 1));
}

#[test]
fn parts_of_the_profile_page() {
    let (mut model, _) = open_profile(Session::Guest, "amy");
    assert!(matches!(profile::view_content(&model), home::Content::Empty));
    profile::update(ProfileMsg::AuthorLoadCompleted(Err((Username::from("amy".to_string()), vec![]))), &mut model);
    assert!(matches!(profile::view_content(&model), home::Content::Error("profile")));
    profile::update(ProfileMsg::SlowLoadThresholdPassed, &mut model);
    assert!(matches!(profile::view_feed(&model), home::Content::LoadingIcon));
    profile::update(ProfileMsg::FeedLoadCompleted(Ok(vec![5])), &mut model);
    assert!(matches!(profile::view_feed(&model), home::Content::Loaded(f) if f == &vec![5]));
}
