use conduit::entity::{Slug, Username};
use conduit::route::Route;

fn path(segments: Vec<&str>) -> Vec<String> {
    segments.into_iter().map(|s| s.to_string()).collect()
}

#[test]
fn home_route_test() {
    let route = Route::from_path(&path(vec![""]));
    assert!(if let Ok(Route::Home) = route { true } else { false })
}

#[test]
fn home_route_trailing_slash_test() {
    let route = Route::from_path(&path(vec![""]));
    assert!(if let Ok(Route::Home) = route { true } else { false })
}

#[test]
fn login_route_test() {
    let route = Route::from_path(&path(vec!["login"]));
    assert!(if let Ok(Route::Login) = route { true } else { false })
}

#[test]
fn logout_route_test() {
    let route = Route::from_path(&path(vec!["logout"]));
    assert!(if let Ok(Route::Logout) = route { true } else { false })
}

#[test]
fn settings_route_test() {
    let route = Route::from_path(&path(vec!["settings"]));
    assert!(if let Ok(Route::Settings) = route { true } else { false })
}

#[test]
fn profile_route_test() {
    let route = Route::from_path(&path(vec!["profile", "john"]));
    assert!(if let Ok(Route::Profile(username)) = route { username.as_str() == "john" } else { false })
}

#[test]
fn register_route_test() {
    let route = Route::from_path(&path(vec!["register"]));
    assert!(if let Ok(Route::Register) = route { true } else { false })
}

#[test]
fn article_route_test() {
    let route = Route::from_path(&path(vec!["article", "my_article"]));
    assert!(if let Ok(Route::Article(slug)) = route { slug.as_str() == "my_article" } else { false })
}

#[test]
fn edit_article_route_test() {
    let route = Route::from_path(&path(vec!["editor", "my_article"]));
    assert!(if let Ok(Route::EditArticle(slug)) = route { slug.as_str() == "my_article" } else { false })
}

#[test]
fn new_article_route_test() {
    let route = Route::from_path(&path(vec!["editor"]));
    assert!(if let Ok(Route::NewArticle) = route { true } else { false }, "Expected NewArticle route");
}

#[test]
fn invalid_route_test() {
    let route: Result<Route, ()> = Route::from_path(&path(vec!["unknown_url"]));
    assert!(route.is_err())
}

#[test]
fn empty_path_is_home() {
    assert!(matches!(Route::from_path(&Vec::new()), Ok(Route::Home)));
}

#[test]
fn names_must_not_be_empty() {
    assert!(Route::from_path(&path(vec!["profile"])).is_err());
    assert!(Route::from_path(&path(vec!["profile", ""])).is_err());
    assert!(Route::from_path(&path(vec!["article"])).is_err());
    assert!(Route::from_path(&path(vec!["article", ""])).is_err());
    assert!(matches!(Route::from_path(&path(vec!["editor", ""])), Ok(Route::NewArticle)));
}

#[test]
fn later_segments_are_not_read() {
    assert!(matches!(Route::from_path(&path(vec!["login", "extra"])), Ok(Route::Login)));
    let route = Route::from_path(&path(vec!["article", "a", "b"]));
    assert!(matches!(route, Ok(Route::Article(slug)) if slug.as_str() == "a"));
}

#[test]
fn route_paths() {
    assert_eq!(Route::Home.path(), Vec::<&str>::new());
    assert_eq!(Route::Root.path(), Vec::<&str>::new());
    assert_eq!(Route::Login.path(), vec!["login"]);
    assert_eq!(Route::NewArticle.path(), vec!["editor"]);
    assert_eq!(Route::EditArticle(Slug::from("s".to_string())).path(), vec!["editor", "s"]);
    assert_eq!(Route::Profile(Username::from("jo".to_string())).path(), vec!["profile", "jo"]);
}

#[test]
fn route_texts() {
    assert_eq!(Route::Home.to_string(), "/");
    assert_eq!(Route::Settings.to_string(), "/settings");
    assert_eq!(Route::Article(Slug::from("my-post".to_string())).to_string(), "/article/my-post");
    assert_eq!(Route::Profile(Username::from("jake".to_string())).to_string(), "/profile/jake");
}

#[test]
fn path_reads_back() {
    let routes = vec![
        Route::Login,
        Route::Logout,
        Route::Register,
        Route::Settings,
        Route::NewArticle,
        Route::Article(Slug::from("a".to_string())),
        Route::Profile(Username::from("b".to_string())),
        Route::EditArticle(Slug::from("c".to_string())),
    ];
    for route in routes {
        let segments: Vec<String> = route.path().into_iter().map(|s| s.to_string()).collect();
        let back = Route::from_path(&segments).unwrap();
        assert_eq!(back.to_string(), route.to_string());
    }
    assert!(matches!(Route::from_path(&Vec::new()), Ok(Route::Home)));
}
