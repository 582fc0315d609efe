//! Forms, routes, requests and page state of the Conduit front end.

pub mod article_editor;
pub mod encoder;
pub mod entity;
pub mod form;
pub mod home;
pub mod profile;
pub mod request;
pub mod route;
pub mod text;

use vstd::prelude::*;

use entity::{Session, Slug, Username, Viewer};

use route::Route;

verus! {

/// What one page tells the whole application: a new route was pushed, or the
/// session changed.
pub enum GMsg {
    RoutePushed(Route),
    SessionChanged(Session),
}

/// The page the application shows. The home and profile pages hold their
/// whole state; each other page is known here by the session it holds (and
/// the article it is about), its own state being kept by the page itself.
/// `HF` and `PF` are the loaded feeds of the home and profile pages.
pub enum Model<HF, PF> {
    Redirect(Session),
    NotFound(Session),
    Home(home::Model<HF>),
    Settings(Session),
    Login(Session),
    Register(Session),
    Profile(profile::Model<PF>, Username),
    Article(Session, Slug),
    ArticleEditor(Session, Option<Slug>),
}

/// The session that the page shown holds.
pub open spec fn model_session<HF, PF>(model: Model<HF, PF>) -> Session {
    match model {
        Model::Redirect(session) => session,
        Model::NotFound(session) => session,
        Model::Home(m) => m.session,
        Model::Settings(session) => session,
        Model::Login(session) => session,
        Model::Register(session) => session,
        Model::Profile(m, _) => m.session,
        Model::Article(session, _) => session,
        Model::ArticleEditor(session, _) => session,
    }
}

impl<HF, PF> Default for Model<HF, PF> {
    /// Waiting to be sent somewhere, as a guest.
    fn default() -> (model: Model<HF, PF>)
        ensures
            model == Model::<HF, PF>::Redirect(Session::Guest),
    {
        Model::Redirect(Session::default())
    }
}

impl<HF, PF> From<Model<HF, PF>> for Session {
    /// The session that the page shown held.
    fn from(model: Model<HF, PF>) -> (session: Session) {
        match model {
            Model::Redirect(session) | Model::NotFound(session) => session,
            Model::Home(model) => model.session,
            Model::Settings(session) | Model::Login(session) | Model::Register(session) => session,
            Model::Profile(model, _) => model.session,
            Model::Article(session, _) | Model::ArticleEditor(session, _) => session,
        }
    }
}

impl<HF, PF> vstd::std_specs::convert::FromSpecImpl<Model<HF, PF>> for Session {
    open spec fn obeys_from_spec() -> bool {
        true
    }

    open spec fn from_spec(model: Model<HF, PF>) -> Session {
        model_session(model)
    }
}

/// What happens to the application: the URL changed, or something happened
/// to the home or the profile page. `HF`, `PF` are the pages' loaded feeds,
/// `HFM`, `PFM` what happens to those feeds.
pub enum Msg<HF, HFM, PF, PFM> {
    RouteChanged(Option<Route>),
    HomeMsg(home::Msg<HF, HFM>),
    ProfileMsg(profile::Msg<PF, PFM>),
}

/// What the application asks to be done.
pub enum Action<HFM, PFM> {
    /// A command of the home page.
    Home(home::Command<HFM>),
    /// A command of the profile page.
    Profile(profile::Command<PFM>),
    /// Tell the application that the route is now this one.
    RouteChanged(Option<Route>),
    /// Show this route in the address bar and announce it.
    GoTo(Route),
    /// Forget what is stored about the signed-in user.
    DeleteAppData,
    /// Announce a new session to every page.
    SessionChanged(Session),
    /// Open the settings page, which loads the user's settings.
    InitSettings,
    /// Open the page of this article, which loads it.
    InitArticle(Slug),
    /// Open the editor on this article, which loads it.
    InitEditArticle(Slug),
    /// Hand this to the page shown, which is not the home or profile page.
    ToPage(GMsg),
}

/// Every action is a command of the home page.
pub open spec fn all_home<HFM, PFM>(actions: Seq<Action<HFM, PFM>>) -> bool {
    forall|i: int| 0 <= i < actions.len() ==> #[trigger] actions[i] is Home
}

/// The commands of the home page that the actions carry.
pub open spec fn home_commands<HFM, PFM>(actions: Seq<Action<HFM, PFM>>) -> Seq<home::Command<HFM>> {
    actions.map_values(|a: Action<HFM, PFM>| a->Home_0)
}

/// Every action is a command of the profile page.
pub open spec fn all_profile<HFM, PFM>(actions: Seq<Action<HFM, PFM>>) -> bool {
    forall|i: int| 0 <= i < actions.len() ==> #[trigger] actions[i] is Profile
}

/// The commands of the profile page that the actions carry.
pub open spec fn profile_commands<HFM, PFM>(actions: Seq<Action<HFM, PFM>>) -> Seq<profile::Command<PFM>> {
    actions.map_values(|a: Action<HFM, PFM>| a->Profile_0)
}

/// The commands of the home page, as actions.
fn home_actions<HFM, PFM>(commands: Vec<home::Command<HFM>>) -> (actions: Vec<Action<HFM, PFM>>)
    ensures
        all_home(actions@),
        home_commands(actions@) == commands@,
{
    let ghost all = commands@;
    let mut actions: Vec<Action<HFM, PFM>> = Vec::new();
    for command in it: commands
        invariant
            all == it.seq(),
            actions@.len() == it.index(),
            forall|i: int| 0 <= i < it.index() ==> #[trigger] actions@[i] == Action::<HFM, PFM>::Home(all[i]),
    {
        actions.push(Action::Home(command));
    }
    assert(home_commands(actions@) =~= all);
    actions
}

/// The commands of the profile page, as actions.
fn profile_actions<HFM, PFM>(commands: Vec<profile::Command<PFM>>) -> (actions: Vec<Action<HFM, PFM>>)
    ensures
        all_profile(actions@),
        profile_commands(actions@) == commands@,
{
    let ghost all = commands@;
    let mut actions: Vec<Action<HFM, PFM>> = Vec::new();
    for command in it: commands
        invariant
            all == it.seq(),
            actions@.len() == it.index(),
            forall|i: int| 0 <= i < it.index() ==> #[trigger] actions@[i] == Action::<HFM, PFM>::Profile(all[i]),
    {
        actions.push(Action::Profile(command));
    }
    assert(profile_commands(actions@) =~= all);
    actions
}

/// `new` and `actions` are what the application makes of a change of route
/// to `route` in state `old`. The root goes home and logging out forgets the
/// user, both leaving the page as it is; any other route opens its page with
/// the session of the page shown before, and no route at all shows that the
/// page is not found.
pub open spec fn route_changed<HF, PF, HFM, PFM>(
    route: Option<Route>,
    old: Model<HF, PF>,
    new: Model<HF, PF>,
    actions: Seq<Action<HFM, PFM>>,
) -> bool {
    let session = model_session(old);
    &&& model_session(new) == session
    &&& match route {
        None => new == Model::<HF, PF>::NotFound(session) && actions.len() == 0,
        Some(Route::Root) => new == old && actions == seq![Action::<HFM, PFM>::GoTo(Route::Home)],
        Some(Route::Logout) => {
            &&& new == old
            &&& actions == seq![
                Action::<HFM, PFM>::DeleteAppData,
                Action::SessionChanged(Session::Guest),
                Action::GoTo(Route::Home),
            ]
        },
        Some(Route::NewArticle) => new == Model::<HF, PF>::ArticleEditor(session, None) && actions.len() == 0,
        Some(Route::EditArticle(slug)) => {
            &&& new matches Model::ArticleEditor(_, Some(s)) && s@ == slug@
            &&& actions.len() == 1
            &&& actions[0] matches Action::InitEditArticle(s) && s@ == slug@
        },
        Some(Route::Settings) => new == Model::<HF, PF>::Settings(session) && actions == seq![Action::<HFM, PFM>::InitSettings],
        Some(Route::Home) => {
            &&& new matches Model::Home(m) && home::opened(session, m, home_commands(actions))
            &&& all_home(actions)
        },
        Some(Route::Login) => new == Model::<HF, PF>::Login(session) && actions.len() == 0,
        Some(Route::Register) => new == Model::<HF, PF>::Register(session) && actions.len() == 0,
        Some(Route::Profile(username)) => {
            &&& new matches Model::Profile(m, u) && u == username && profile::opened(
                session,
                username@,
                m,
                profile_commands(actions),
            )
            &&& all_profile(actions)
        },
        Some(Route::Article(slug)) => {
            &&& new matches Model::Article(_, s) && s@ == slug@
            &&& actions.len() == 1
            &&& actions[0] matches Action::InitArticle(s) && s@ == slug@
        },
    }
}

/// Changes the page to the one that `route`, the route the URL led to if
/// any, names; says what is to be done.
pub fn change_model_by_route<HF, PF, HFM, PFM>(route: Option<Route>, model: &mut Model<HF, PF>) -> (actions: Vec<Action<HFM, PFM>>)
    ensures
        route_changed(route, *old(model), *final(model), actions@),
{
    let stays = match &route {
        Some(Route::Root) | Some(Route::Logout) => true,
        _ => false,
    };
    if stays {
        let actions: Vec<Action<HFM, PFM>> = match route {
            Some(Route::Root) => vec![Action::GoTo(Route::Home)],
            _ => vec![Action::DeleteAppData, Action::SessionChanged(Session::Guest), Action::GoTo(Route::Home)],
        };
        proof {
            if route matches Some(Route::Root) {
                assert(actions@ =~= seq![Action::<HFM, PFM>::GoTo(Route::Home)]);
            } else {
                assert(actions@ =~= seq![
                    Action::<HFM, PFM>::DeleteAppData,
                    Action::SessionChanged(Session::Guest),
                    Action::GoTo(Route::Home),
                ]);
            }
        }
        return actions;
    }
    let mut previous: Model<HF, PF> = Model::default();
    std::mem::swap(&mut previous, model);
    let ghost before = previous;
    let session = Session::from(previous);
    assert(session == model_session(before));
    assert(before == *old(model));
    let (page, actions): (Model<HF, PF>, Vec<Action<HFM, PFM>>) = match route {
        None => (Model::NotFound(session), Vec::new()),
        Some(route) => match route {
            Route::NewArticle => (Model::ArticleEditor(session, None), Vec::new()),
            Route::EditArticle(slug) => {
                let actions = vec![Action::InitEditArticle(slug.clone())];
                (Model::ArticleEditor(session, Some(slug)), actions)
            },
            Route::Settings => {
                let actions = vec![Action::InitSettings];
                assert(actions@ =~= seq![Action::<HFM, PFM>::InitSettings]);
                (Model::Settings(session), actions)
            },
            Route::Home => {
                let (page, commands) = home::init(session);
                (Model::Home(page), home_actions(commands))
            },
            Route::Login => (Model::Login(session), Vec::new()),
            Route::Register => (Model::Register(session), Vec::new()),
            Route::Profile(username) => {
                let (page, commands) = profile::init(session, username.to_static());
                (Model::Profile(page, username), profile_actions(commands))
            },
            Route::Article(slug) => {
                let actions = vec![Action::InitArticle(slug.clone())];
                (Model::Article(session, slug), actions)
            },
            Route::Root | Route::Logout => (Model::Redirect(session), Vec::new()),
        },
    };
    *model = page;
    actions
}

/// `new` and `actions` are what the application makes of `g_msg`, which a
/// page sent, in state `old`. A pushed route is announced first. A new
/// session on a page that waits or was not found waits anew with it, and the
/// application goes home; the home and profile pages take it as their own
/// handling says; any other page is handed the message.
pub open spec fn sunk<HF, PF, HFM, PFM>(
    g_msg: GMsg,
    old: Model<HF, PF>,
    new: Model<HF, PF>,
    actions: Seq<Action<HFM, PFM>>,
) -> bool {
    let rest = if g_msg is RoutePushed {
        actions.drop_first()
    } else {
        actions
    };
    &&& g_msg matches GMsg::RoutePushed(pushed) ==> {
        &&& actions.len() >= 1
        &&& actions[0] matches Action::RouteChanged(Some(announced)) && announced@ == pushed@
    }
    &&& match old {
        Model::NotFound(_) | Model::Redirect(_) => match g_msg {
            GMsg::SessionChanged(session) => {
                &&& new == Model::<HF, PF>::Redirect(session)
                &&& rest == seq![Action::<HFM, PFM>::GoTo(Route::Home)]
            },
            _ => new == old && rest.len() == 0,
        },
        Model::Home(page) => {
            &&& rest.len() == 0
            &&& new == match g_msg {
                GMsg::SessionChanged(session) => Model::Home(home::Model { session, ..page }),
                _ => old,
            }
        },
        Model::Profile(page, username) => match g_msg {
            GMsg::SessionChanged(session) => {
                &&& new == Model::<HF, PF>::Profile(profile::Model { session, ..page }, username)
                &&& all_profile(rest)
                &&& profile::commands_view(profile_commands(rest)) == seq![
                    profile::CommandView::<PFM>::GoTo(route::RouteView::Home),
                ]
            },
            _ => new == old && rest.len() == 0,
        },
        _ => new == old && rest == seq![Action::<HFM, PFM>::ToPage(g_msg)],
    }
}

/// Answers what a page told the whole application.
pub fn sink<HF, PF, HFM, PFM>(g_msg: GMsg, model: &mut Model<HF, PF>) -> (actions: Vec<Action<HFM, PFM>>)
    ensures
        sunk(g_msg, *old(model), *final(model), actions@),
{
    let mut actions: Vec<Action<HFM, PFM>> = Vec::new();
    match &g_msg {
        GMsg::RoutePushed(route) => actions.push(Action::RouteChanged(Some(route.clone()))),
        _ => {},
    }
    let ghost first = actions@;
    let waiting = match model {
        Model::NotFound(_) | Model::Redirect(_) => true,
        _ => false,
    };
    if waiting {
        match g_msg {
            GMsg::SessionChanged(session) => {
                *model = Model::Redirect(session);
                actions.push(Action::GoTo(Route::Home));
                proof {
                    if first.len() == 1 {
                        assert(actions@.drop_first() =~= seq![Action::<HFM, PFM>::GoTo(Route::Home)]);
                    } else {
                        assert(actions@ =~= seq![Action::<HFM, PFM>::GoTo(Route::Home)]);
                    }
                }
            },
            _ => {},
        }
    } else {
        match model {
            Model::Home(page) => {
                home::sink(g_msg, page);
            },
            Model::Profile(page, _) => {
                let commands = profile::sink::<PF, PFM>(g_msg, page);
                let mut more = profile_actions(commands);
                actions.append(&mut more);
            },
            _ => {
                let ghost message = g_msg;
                actions.push(Action::ToPage(g_msg));
                proof {
                    if first.len() == 1 {
                        assert(actions@.drop_first() =~= seq![Action::<HFM, PFM>::ToPage(message)]);
                    } else {
                        assert(actions@ =~= seq![Action::<HFM, PFM>::ToPage(message)]);
                    }
                }
            },
        }
    }
    actions
}

/// `new` and `actions` are what the application makes of `msg` in state
/// `old`: a change of route changes the page; a message for the home or the
/// profile page goes to that page if it is the one shown, and is dropped
/// otherwise.
pub open spec fn app_updated<HF, PF, HFM, PFM>(
    msg: Msg<HF, HFM, PF, PFM>,
    old: Model<HF, PF>,
    new: Model<HF, PF>,
    actions: Seq<Action<HFM, PFM>>,
) -> bool {
    match msg {
        Msg::RouteChanged(route) => route_changed(route, old, new, actions),
        Msg::HomeMsg(page_msg) => match old {
            Model::Home(page) => {
                &&& new matches Model::Home(next) && home::updated(page_msg, page, next, home_commands(actions))
                &&& all_home(actions)
            },
            _ => new == old && actions.len() == 0,
        },
        Msg::ProfileMsg(page_msg) => match old {
            Model::Profile(page, username) => {
                &&& new matches Model::Profile(next, name) && name == username && profile::updated(
                    page_msg,
                    page,
                    next,
                    profile_commands(actions),
                )
                &&& all_profile(actions)
            },
            _ => new == old && actions.len() == 0,
        },
    }
}

/// How the application answers `msg`.
pub fn update<HF, PF, HFM, PFM>(msg: Msg<HF, HFM, PF, PFM>, model: &mut Model<HF, PF>) -> (actions: Vec<Action<HFM, PFM>>)
    requires
        *old(model) is Home ==> (msg matches Msg::HomeMsg(page_msg) ==> home::page_fits(page_msg)),
    ensures
        app_updated(msg, *old(model), *final(model), actions@),
{
    match msg {
        Msg::RouteChanged(route) => change_model_by_route(route, model),
        Msg::HomeMsg(page_msg) => match model {
            Model::Home(page) => {
                let commands = home::update(page_msg, page);
                home_actions(commands)
            },
            _ => Vec::new(),
        },
        Msg::ProfileMsg(page_msg) => match model {
            Model::Profile(page, _) => {
                let commands = profile::update(page_msg, page);
                profile_actions(commands)
            },
            _ => Vec::new(),
        },
    }
}

/// Whatever happens, the page shown keeps its session: only a new session
/// sent by a page changes it.
pub proof fn lemma_update_keeps_session<HF, PF, HFM, PFM>(
    msg: Msg<HF, HFM, PF, PFM>,
    old: Model<HF, PF>,
    new: Model<HF, PF>,
    actions: Seq<Action<HFM, PFM>>,
)
    requires
        app_updated(msg, old, new, actions),
    ensures
        model_session(new) == model_session(old),
{
}

/// Which entry of the header the page shown belongs to.
pub enum Page<'a> {
    Other,
    Home,
    Login,
    Register,
    Settings,
    Profile(&'a Username),
    NewArticle,
}

/// The header entry of the page shown, and the signed-in user, if any, whom
/// the header shows.
pub fn page_of<HF, PF>(model: &Model<HF, PF>) -> (page: (Page<'_>, Option<&Viewer>))
    ensures
        page.1 == match model_session(*model) {
            Session::LoggedIn(v) => Some(&v),
            Session::Guest => None,
        },
        match *model {
            Model::Home(_) => page.0 is Home,
            Model::Settings(_) => page.0 is Settings,
            Model::Login(_) => page.0 is Login,
            Model::Register(_) => page.0 is Register,
            Model::Profile(_, username) => page.0 matches Page::Profile(u) && *u == username,
            Model::ArticleEditor(_, None) => page.0 is NewArticle,
            _ => page.0 is Other,
        },
{
    match model {
        Model::Redirect(session) | Model::NotFound(session) => (Page::Other, session.viewer()),
        Model::Settings(session) => (Page::Settings, session.viewer()),
        Model::Home(page) => (Page::Home, page.session().viewer()),
        Model::Login(session) => (Page::Login, session.viewer()),
        Model::Register(session) => (Page::Register, session.viewer()),
        Model::Profile(page, username) => (Page::Profile(username), page.session().viewer()),
        Model::Article(session, _) => (Page::Other, session.viewer()),
        Model::ArticleEditor(session, None) => (Page::NewArticle, session.viewer()),
        Model::ArticleEditor(session, Some(_)) => (Page::Other, session.viewer()),
    }
}

/// A change of route opens the page that the route names, with the session of
/// the page shown before: no route shows that nothing was found, the root and
/// logging out leave the page as it is, and every other route shows its own
/// page (about the article or the user it names). Opening the login, register
/// or new-article page, or the not-found page, asks for nothing.
pub proof fn lemma_route_opens_named_page<HF, PF, HFM, PFM>(
    route: Option<Route>,
    old: Model<HF, PF>,
    new: Model<HF, PF>,
    actions: Seq<Action<HFM, PFM>>,
)
    requires
        route_changed(route, old, new, actions),
    ensures
        model_session(new) == model_session(old),
        route is None ==> new is NotFound && actions.len() == 0,
        route matches Some(r) ==> match r {
            Route::Root => new == old && actions.len() == 1 && actions[0] == Action::<HFM, PFM>::GoTo(Route::Home),
            Route::Logout => new == old && actions.len() == 3 && actions[0] is DeleteAppData
                && actions[1] == Action::<HFM, PFM>::SessionChanged(Session::Guest)
                && actions[2] == Action::<HFM, PFM>::GoTo(Route::Home),
            Route::Home => new is Home && actions.len() == 3,
            Route::Login => new is Login && actions.len() == 0,
            Route::Register => new is Register && actions.len() == 0,
            Route::Settings => new is Settings && actions.len() == 1 && actions[0] is InitSettings,
            Route::NewArticle => new matches Model::ArticleEditor(_, None) && actions.len() == 0,
            Route::EditArticle(slug) => new matches Model::ArticleEditor(_, Some(s)) && s@ == slug@,
            Route::Article(slug) => new matches Model::Article(_, s) && s@ == slug@,
            Route::Profile(username) => new matches Model::Profile(page, u) && u == username
                && (page.author matches profile::Status::Loading(name) && name@ == username@),
        },
{
    match route {
        Some(Route::Home) => {
            let commands = home_commands(actions);
            assert(commands.len() == actions.len());
            assert(home::commands_view(commands).len() == commands.len());
        },
        _ => {},
    }
}

/// A message for the home or profile page changes nothing while another page
/// is shown, and asks for nothing.
pub proof fn lemma_message_for_other_page_is_dropped<HF, PF, HFM, PFM>(
    msg: Msg<HF, HFM, PF, PFM>,
    old: Model<HF, PF>,
    new: Model<HF, PF>,
    actions: Seq<Action<HFM, PFM>>,
)
    requires
        app_updated(msg, old, new, actions),
        msg is HomeMsg ==> !(old is Home),
        msg is ProfileMsg ==> !(old is Profile),
        !(msg is RouteChanged),
    ensures
        new == old,
        actions.len() == 0,
{
}

} // verus!
