//! Routes: the pages of the application and the URL paths that lead to them.

use vstd::prelude::*;
use vstd::string::StringExecFns;

use crate::entity::{Slug, Username};
use crate::text::{seq_join, str_eq};

verus! {

/// A page of the application, as addressed by a URL path.
pub enum Route {
    Home,
    Root,
    Login,
    Logout,
    Register,
    Settings,
    Article(Slug),
    Profile(Username),
    NewArticle,
    EditArticle(Slug),
}

/// A route seen through the texts it holds.
pub enum RouteView {
    Home,
    Root,
    Login,
    Logout,
    Register,
    Settings,
    Article(Seq<char>),
    Profile(Seq<char>),
    NewArticle,
    EditArticle(Seq<char>),
}

impl View for Route {
    type V = RouteView;

    open spec fn view(&self) -> RouteView {
        match self {
            Route::Home => RouteView::Home,
            Route::Root => RouteView::Root,
            Route::Login => RouteView::Login,
            Route::Logout => RouteView::Logout,
            Route::Register => RouteView::Register,
            Route::Settings => RouteView::Settings,
            Route::Article(slug) => RouteView::Article(slug@),
            Route::Profile(username) => RouteView::Profile(username@),
            Route::NewArticle => RouteView::NewArticle,
            Route::EditArticle(slug) => RouteView::EditArticle(slug@),
        }
    }
}

impl Clone for Route {
    fn clone(&self) -> (route: Route)
        ensures
            route@ == self@,
    {
        match self {
            Route::Home => Route::Home,
            Route::Root => Route::Root,
            Route::Login => Route::Login,
            Route::Logout => Route::Logout,
            Route::Register => Route::Register,
            Route::Settings => Route::Settings,
            Route::Article(slug) => Route::Article(slug.clone()),
            Route::Profile(username) => Route::Profile(username.clone()),
            Route::NewArticle => Route::NewArticle,
            Route::EditArticle(slug) => Route::EditArticle(slug.clone()),
        }
    }
}

/// The segments of the URL path of a route.
pub open spec fn route_path(route: RouteView) -> Seq<Seq<char>> {
    match route {
        RouteView::Home | RouteView::Root => seq![],
        RouteView::Login => seq!["login"@],
        RouteView::Logout => seq!["logout"@],
        RouteView::Register => seq!["register"@],
        RouteView::Settings => seq!["settings"@],
        RouteView::Article(slug) => seq!["article"@, slug],
        RouteView::Profile(username) => seq!["profile"@, username],
        RouteView::NewArticle => seq!["editor"@],
        RouteView::EditArticle(slug) => seq!["editor"@, slug],
    }
}

/// The route that a URL path leads to, if any: the first segment names the
/// page, the second one, where the page needs it, must be a non-empty name,
/// and whatever follows is not read.
pub open spec fn parse_path(path: Seq<Seq<char>>) -> Option<RouteView> {
    if path.len() == 0 || path[0] == ""@ {
        Some(RouteView::Home)
    } else if path[0] == "login"@ {
        Some(RouteView::Login)
    } else if path[0] == "logout"@ {
        Some(RouteView::Logout)
    } else if path[0] == "settings"@ {
        Some(RouteView::Settings)
    } else if path[0] == "profile"@ {
        if path.len() > 1 && path[1].len() > 0 {
            Some(RouteView::Profile(path[1]))
        } else {
            None
        }
    } else if path[0] == "register"@ {
        Some(RouteView::Register)
    } else if path[0] == "article"@ {
        if path.len() > 1 && path[1].len() > 0 {
            Some(RouteView::Article(path[1]))
        } else {
            None
        }
    } else if path[0] == "editor"@ {
        if path.len() > 1 && path[1].len() > 0 {
            Some(RouteView::EditArticle(path[1]))
        } else {
            Some(RouteView::NewArticle)
        }
    } else {
        None
    }
}

/// The text of a route: its path, each segment after a slash.
pub open spec fn route_text(route: RouteView) -> Seq<char> {
    "/"@ + seq_join(route_path(route), "/"@)
}

/// The segments of a path, seen as texts.
pub open spec fn segments_view(path: Seq<String>) -> Seq<Seq<char>> {
    path.map_values(|s: String| s@)
}

/// The words that name pages are distinct from each other and from the
/// empty text.
pub proof fn lemma_page_words_distinct()
    ensures
        ""@ != "login"@, ""@ != "logout"@, ""@ != "settings"@, ""@ != "profile"@,
        ""@ != "register"@, ""@ != "article"@, ""@ != "editor"@,
        "login"@ != "logout"@, "login"@ != "settings"@, "login"@ != "profile"@,
        "login"@ != "register"@, "login"@ != "article"@, "login"@ != "editor"@,
        "logout"@ != "settings"@, "logout"@ != "profile"@, "logout"@ != "register"@,
        "logout"@ != "article"@, "logout"@ != "editor"@,
        "settings"@ != "profile"@, "settings"@ != "register"@, "settings"@ != "article"@,
        "settings"@ != "editor"@,
        "profile"@ != "register"@, "profile"@ != "article"@, "profile"@ != "editor"@,
        "register"@ != "article"@, "register"@ != "editor"@,
        "article"@ != "editor"@,
{
    reveal_strlit("");
    reveal_strlit("login");
    reveal_strlit("logout");
    reveal_strlit("settings");
    reveal_strlit("profile");
    reveal_strlit("register");
    reveal_strlit("article");
    reveal_strlit("editor");
    assert(""@.len() == 0);
    assert("login"@.len() == 5);
    assert("logout"@.len() == 6);
    assert("settings"@.len() == 8);
    assert("profile"@.len() == 7);
    assert("register"@.len() == 8);
    assert("article"@.len() == 7);
    assert("editor"@.len() == 6);
    assert("logout"@[0] != "editor"@[0]);
    assert("settings"@[0] != "register"@[0]);
    assert("profile"@[0] != "article"@[0]);
}

/// Every name that the route holds is non-empty.
pub open spec fn names_non_empty(route: RouteView) -> bool {
    match route {
        RouteView::Article(slug) => slug.len() > 0,
        RouteView::Profile(username) => username.len() > 0,
        RouteView::EditArticle(slug) => slug.len() > 0,
        _ => true,
    }
}

/// Reading back the path of a route gives the route itself, where its names
/// are non-empty; the root's path, which is empty, leads home.
pub proof fn lemma_path_reads_back(route: RouteView)
    requires
        names_non_empty(route),
    ensures
        parse_path(route_path(route)) == Some(
            if route is Root {
                RouteView::Home
            } else {
                route
            },
        ),
{
    lemma_page_words_distinct();
}

impl Route {
    /// The segments of the route's URL path.
    pub fn path(&self) -> (path: Vec<&str>)
        ensures
            path@.map_values(|s: &str| s@) == route_path(self@),
    {
        let path = match self {
            Route::Home | Route::Root => vec![],
            Route::Login => vec!["login"],
            Route::Logout => vec!["logout"],
            Route::Register => vec!["register"],
            Route::Settings => vec!["settings"],
            Route::Article(slug) => vec!["article", slug.as_str()],
            Route::Profile(username) => vec!["profile", username.as_str()],
            Route::NewArticle => vec!["editor"],
            Route::EditArticle(slug) => vec!["editor", slug.as_str()],
        };
        proof {
            assert(path@.map_values(|s: &str| s@) =~= route_path(self@));
        }
        path
    }

    /// The route written as a URL path: `/` and the segments joined by `/`.
    pub fn to_string(&self) -> (text: String)
        ensures
            text@ == route_text(self@),
    {
        let path = self.path();
        let mut text = String::from_str("/");
        let joined = crate::text::join_strs(&path, "/");
        text.append(joined.as_str());
        text
    }

    /// The route that a URL path leads to; `Err(())` where it leads nowhere.
    pub fn from_path(path: &Vec<String>) -> (route: Result<Route, ()>)
        ensures
            match route {
                Ok(r) => parse_path(segments_view(path@)) == Some(r@),
                Err(_) => parse_path(segments_view(path@)) is None,
            },
    {
        let ghost segments = segments_view(path@);
        proof {
            lemma_page_words_distinct();
        }
        if path.len() == 0 {
            return Ok(Route::Home);
        }
        assert(segments[0] == path@[0]@);
        let first = path[0].as_str();
        let second: Option<&String> = if path.len() > 1 {
            assert(segments[1] == path@[1]@);
            Some(&path[1])
        } else {
            None
        };
        let named_second: bool = match second {
            Some(s) => !s.as_str().is_empty(),
            None => false,
        };
        if first.is_empty() {
            proof {
                assert(segments[0] =~= ""@) by {
                    reveal_strlit("");
                }
            }
            Ok(Route::Home)
        } else if str_eq(first, "login") {
            Ok(Route::Login)
        } else if str_eq(first, "logout") {
            Ok(Route::Logout)
        } else if str_eq(first, "settings") {
            Ok(Route::Settings)
        } else if str_eq(first, "profile") {
            match second {
                Some(name) if named_second => Ok(Route::Profile(Username::from(name.clone()))),
                _ => Err(()),
            }
        } else if str_eq(first, "register") {
            Ok(Route::Register)
        } else if str_eq(first, "article") {
            match second {
                Some(slug) if named_second => Ok(Route::Article(Slug::from(slug.clone()))),
                _ => Err(()),
            }
        } else if str_eq(first, "editor") {
            match second {
                Some(slug) if named_second => Ok(Route::EditArticle(Slug::from(slug.clone()))),
                _ => Ok(Route::NewArticle),
            }
        } else {
            proof {
                assert(segments[0] != ""@) by {
                    reveal_strlit("");
                }
            }
            Err(())
        }
    }
}

} // verus!
