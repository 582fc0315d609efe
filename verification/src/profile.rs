//! A user's profile page: the author, their articles or their favourites,
//! and how the page answers what happens to it.

use vstd::prelude::*;
use vstd::string::StringExecFns;

use crate::entity::{
    author_username, copy_messages, messages_view, option_viewer_view, session_viewer, Author,
    ErrorMessage, PageNumber, Session,
    Username, Viewer,
};
use crate::home::Content;
use crate::route::Route;
use crate::GMsg;

verus! {

/// How far a part of the page has come. While it is not loaded it keeps the
/// name of the user whose profile it is.
pub enum Status<T> {
    Loading(Username),
    LoadingSlowly(Username),
    Loaded(T),
    Failed(Username),
}

impl<T> Default for Status<T> {
    fn default() -> (status: Status<T>)
        ensures
            status matches Status::Loading(username) && username@.len() == 0,
    {
        Status::Loading(Username::from(String::new()))
    }
}

/// The name of the user whose profile it is, as the author's status knows it.
pub open spec fn status_username(status: Status<Author>) -> Seq<char> {
    match status {
        Status::Loading(username) => username@,
        Status::LoadingSlowly(username) => username@,
        Status::Failed(username) => username@,
        Status::Loaded(author) => author_username(author),
    }
}

impl Status<Author> {
    pub fn username(&self) -> (username: &Username)
        ensures
            username@ == status_username(*self),
    {
        match self {
            Status::Loading(username) | Status::LoadingSlowly(username) | Status::Failed(username) => username,
            Status::Loaded(author) => author.username(),
        }
    }
}

/// The list shown under the profile: the user's articles, or those they
/// marked as favourite.
#[derive(Clone, Copy)]
pub enum SelectedFeed {
    MyArticles,
    FavoritedArticles,
}

impl Default for SelectedFeed {
    fn default() -> (feed: SelectedFeed)
        ensures
            feed is MyArticles,
    {
        SelectedFeed::MyArticles
    }
}

/// The state of the profile page. `F` is the feed of articles once loaded.
pub struct Model<F> {
    pub session: Session,
    pub errors: Vec<ErrorMessage>,
    pub selected_feed: SelectedFeed,
    pub feed_page: PageNumber,
    pub author: Status<Author>,
    pub feed: Status<F>,
}

impl<F> Model<F> {
    pub fn session(&self) -> (session: &Session)
        ensures
            session == self.session,
    {
        &self.session
    }
}

impl<F> From<Model<F>> for Session {
    /// The session that the page held.
    fn from(model: Model<F>) -> (session: Session) {
        model.session
    }
}

impl<F> vstd::std_specs::convert::FromSpecImpl<Model<F>> for Session {
    open spec fn obeys_from_spec() -> bool {
        true
    }

    open spec fn from_spec(model: Model<F>) -> Session {
        model.session
    }
}

/// What happens to the profile page. `F` is a loaded feed, `FM` what happens
/// to the feed itself.
pub enum Msg<F, FM> {
    DismissErrorsClicked,
    FollowClicked,
    UnfollowClicked,
    TabClicked(SelectedFeed),
    FeedPageClicked(PageNumber),
    FollowChangeCompleted(Result<Author, Vec<ErrorMessage>>),
    AuthorLoadCompleted(Result<Author, (Username, Vec<ErrorMessage>)>),
    FeedLoadCompleted(Result<F, (Username, Vec<ErrorMessage>)>),
    FeedMsg(FM),
    SlowLoadThresholdPassed,
}

/// What the profile page asks to be done.
pub enum Command<FM> {
    /// Report back with `SlowLoadThresholdPassed` once loading takes long.
    NotifyOnSlowLoad,
    /// Load the profile of this user, the request signed by the viewer.
    LoadAuthor(Option<Viewer>, Username),
    /// Load a page of this user's articles or favourites, the request signed
    /// by the viewer.
    FetchFeed(Option<Viewer>, Username, SelectedFeed, PageNumber),
    /// Follow this user, the request signed by the viewer.
    Follow(Option<Viewer>, Username),
    /// Stop following this user, the request signed by the viewer.
    Unfollow(Option<Viewer>, Username),
    /// The page need not be drawn again.
    SkipRender,
    ScrollToTop,
    LogErrors(Vec<ErrorMessage>),
    LogError(String),
    /// Hand this to the loaded feed.
    ForwardToFeed(FM),
    GoTo(Route),
}

/// A command seen through the texts and numbers it holds.
pub enum CommandView<FM> {
    NotifyOnSlowLoad,
    LoadAuthor(Option<(Seq<char>, Seq<char>)>, Seq<char>),
    FetchFeed(Option<(Seq<char>, Seq<char>)>, Seq<char>, SelectedFeed, nat),
    Follow(Option<(Seq<char>, Seq<char>)>, Seq<char>),
    Unfollow(Option<(Seq<char>, Seq<char>)>, Seq<char>),
    SkipRender,
    ScrollToTop,
    LogErrors(Seq<Seq<char>>),
    LogError(Seq<char>),
    ForwardToFeed(FM),
    GoTo(crate::route::RouteView),
}

impl<FM> View for Command<FM> {
    type V = CommandView<FM>;

    open spec fn view(&self) -> CommandView<FM> {
        match self {
            Command::NotifyOnSlowLoad => CommandView::NotifyOnSlowLoad,
            Command::LoadAuthor(viewer, username) => CommandView::LoadAuthor(option_viewer_view(*viewer), username@),
            Command::FetchFeed(viewer, username, feed, page) => CommandView::FetchFeed(
                option_viewer_view(*viewer),
                username@,
                *feed,
                page.spec_number(),
            ),
            Command::Follow(viewer, username) => CommandView::Follow(option_viewer_view(*viewer), username@),
            Command::Unfollow(viewer, username) => CommandView::Unfollow(option_viewer_view(*viewer), username@),
            Command::SkipRender => CommandView::SkipRender,
            Command::ScrollToTop => CommandView::ScrollToTop,
            Command::LogErrors(errors) => CommandView::LogErrors(messages_view(errors@)),
            Command::LogError(text) => CommandView::LogError(text@),
            Command::ForwardToFeed(msg) => CommandView::ForwardToFeed(*msg),
            Command::GoTo(route) => CommandView::GoTo(route@),
        }
    }
}

/// The commands, seen through their views.
pub open spec fn commands_view<FM>(commands: Seq<Command<FM>>) -> Seq<CommandView<FM>> {
    commands.map_values(|c: Command<FM>| c@)
}

/// `model` is the profile page of the user named `username` as it opens for
/// `session`, and `commands` what it asks for: to be told when loading is
/// slow, the author, and the first page of their articles.
pub open spec fn opened<F, FM>(session: Session, username: Seq<char>, model: Model<F>, commands: Seq<Command<FM>>) -> bool {
    &&& model.session == session
    &&& model.errors@.len() == 0
    &&& model.selected_feed is MyArticles
    &&& model.feed_page.spec_number() == 1
    &&& model.author matches Status::Loading(name) && name@ == username
    &&& model.feed matches Status::Loading(name) && name@ == username
    &&& commands_view(commands) == seq![
        CommandView::<FM>::NotifyOnSlowLoad,
        CommandView::LoadAuthor(session_viewer(session), username),
        CommandView::FetchFeed(session_viewer(session), username, SelectedFeed::MyArticles, 1),
    ]
}

/// The profile page of `username` as it opens, and what it asks for: to be
/// told when loading is slow, the author, and the first page of their
/// articles.
pub fn init<F, FM>(session: Session, username: Username) -> (result: (Model<F>, Vec<Command<FM>>))
    ensures
        opened(session, username@, result.0, result.1@),
{
    let feed_page = PageNumber::default();
    let commands: Vec<Command<FM>> = vec![
        Command::NotifyOnSlowLoad,
        Command::LoadAuthor(session.cloned_viewer(), username.to_static()),
        Command::FetchFeed(session.cloned_viewer(), username.to_static(), SelectedFeed::default(), feed_page),
    ];
    proof {
        assert(commands_view(commands@) =~= seq![
            CommandView::<FM>::NotifyOnSlowLoad,
            CommandView::LoadAuthor(session_viewer(session), username@),
            CommandView::FetchFeed(session_viewer(session), username@, SelectedFeed::MyArticles, 1),
        ]);
    }
    let model = Model {
        session,
        errors: Vec::new(),
        selected_feed: SelectedFeed::default(),
        feed_page,
        author: Status::Loading(username.to_static()),
        feed: Status::Loading(username),
    };
    (model, commands)
}

/// A new session replaces the page's, and the application goes home.
pub fn sink<F, FM>(g_msg: GMsg, model: &mut Model<F>) -> (commands: Vec<Command<FM>>)
    ensures
        match g_msg {
            GMsg::SessionChanged(session) => {
                &&& *final(model) == (Model { session, ..*old(model) })
                &&& commands_view(commands@) == seq![CommandView::<FM>::GoTo(crate::route::RouteView::Home)]
            },
            _ => *final(model) == *old(model) && commands@.len() == 0,
        },
{
    match g_msg {
        GMsg::SessionChanged(session) => {
            model.session = session;
            let commands = vec![Command::GoTo(Route::Home)];
            assert(commands_view(commands@) =~= seq![CommandView::<FM>::GoTo(crate::route::RouteView::Home)]);
            commands
        },
        _ => Vec::new(),
    }
}

/// The text logged when the feed is sent something before it is loaded.
pub open spec fn feed_not_loaded_text() -> Seq<char> {
    "FeedMsg can be handled only if Status is Loaded"@
}

/// `new` and `commands` are what the page makes of `msg` in state `old`.
pub open spec fn updated<F, FM>(msg: Msg<F, FM>, old: Model<F>, new: Model<F>, commands: Seq<Command<FM>>) -> bool {
    &&& new.session == old.session
    &&& match msg {
        Msg::DismissErrorsClicked => {
            &&& new.errors@.len() == 0
            &&& new == (Model { errors: new.errors, ..old })
            &&& commands.len() == 0
        },
        Msg::FollowClicked => {
            &&& new == old
            &&& commands_view(commands) == seq![
                CommandView::<FM>::Follow(session_viewer(old.session), status_username(old.author)),
                CommandView::SkipRender,
            ]
        },
        Msg::UnfollowClicked => {
            &&& new == old
            &&& commands_view(commands) == seq![
                CommandView::<FM>::Unfollow(session_viewer(old.session), status_username(old.author)),
                CommandView::SkipRender,
            ]
        },
        Msg::TabClicked(selected_feed) => {
            &&& new == (Model { selected_feed, feed_page: new.feed_page, ..old })
            &&& new.feed_page.spec_number() == 1
            &&& commands_view(commands) == seq![
                CommandView::<FM>::FetchFeed(session_viewer(old.session), status_username(old.author), selected_feed, 1),
            ]
        },
        Msg::FeedPageClicked(page) => {
            &&& new == (Model { feed_page: page, ..old })
            &&& commands_view(commands) == seq![
                CommandView::<FM>::FetchFeed(
                    session_viewer(old.session),
                    status_username(old.author),
                    old.selected_feed,
                    page.spec_number(),
                ),
                CommandView::ScrollToTop,
            ]
        },
        Msg::FollowChangeCompleted(Ok(author)) => {
            &&& new == (Model { author: Status::Loaded(author), ..old })
            &&& commands.len() == 0
        },
        Msg::FollowChangeCompleted(Err(errors)) => {
            &&& new == (Model { errors, ..old })
            &&& commands_view(commands) == seq![CommandView::<FM>::LogErrors(messages_view(errors@))]
        },
        Msg::AuthorLoadCompleted(Ok(author)) => {
            &&& new == (Model { author: Status::Loaded(author), ..old })
            &&& commands.len() == 0
        },
        Msg::AuthorLoadCompleted(Err((username, errors))) => {
            &&& new == (Model { author: Status::Failed(username), errors, ..old })
            &&& commands_view(commands) == seq![CommandView::<FM>::LogErrors(messages_view(errors@))]
        },
        Msg::FeedLoadCompleted(Ok(feed)) => {
            &&& new == (Model { feed: Status::Loaded(feed), ..old })
            &&& commands.len() == 0
        },
        Msg::FeedLoadCompleted(Err((username, errors))) => {
            &&& new == (Model { feed: Status::Failed(username), errors, ..old })
            &&& commands_view(commands) == seq![CommandView::<FM>::LogErrors(messages_view(errors@))]
        },
        Msg::FeedMsg(feed_msg) => {
            &&& new == old
            &&& commands_view(commands) == if old.feed is Loaded {
                seq![CommandView::ForwardToFeed(feed_msg)]
            } else {
                seq![CommandView::<FM>::LogError(feed_not_loaded_text())]
            }
        },
        Msg::SlowLoadThresholdPassed => {
            &&& commands.len() == 0
            &&& match old.feed {
                Status::Loading(username) => {
                    &&& new.feed matches Status::LoadingSlowly(name) && name@ == username@
                    &&& new == (Model { feed: new.feed, ..old })
                },
                _ => new == old,
            }
        },
    }
}

/// How the page answers `msg`: the new state, and what it asks to be done.
pub fn update<F, FM>(msg: Msg<F, FM>, model: &mut Model<F>) -> (commands: Vec<Command<FM>>)
    ensures
        updated(msg, *old(model), *final(model), commands@),
{
    match msg {
        Msg::DismissErrorsClicked => {
            model.errors.clear();
            Vec::new()
        },
        Msg::FollowClicked => {
            let commands = vec![
                Command::Follow(model.session.cloned_viewer(), model.author.username().to_static()),
                Command::SkipRender,
            ];
            assert(commands_view(commands@) =~= seq![
                CommandView::<FM>::Follow(session_viewer(model.session), status_username(model.author)),
                CommandView::SkipRender,
            ]);
            commands
        },
        Msg::UnfollowClicked => {
            let commands = vec![
                Command::Unfollow(model.session.cloned_viewer(), model.author.username().to_static()),
                Command::SkipRender,
            ];
            assert(commands_view(commands@) =~= seq![
                CommandView::<FM>::Unfollow(session_viewer(model.session), status_username(model.author)),
                CommandView::SkipRender,
            ]);
            commands
        },
        Msg::TabClicked(selected_feed) => {
            model.selected_feed = selected_feed;
            model.feed_page = PageNumber::default();
            let commands = vec![
                Command::FetchFeed(
                    model.session.cloned_viewer(),
                    model.author.username().to_static(),
                    selected_feed,
                    model.feed_page,
                ),
            ];
            assert(commands_view(commands@) =~= seq![
                CommandView::<FM>::FetchFeed(session_viewer(model.session), status_username(model.author), selected_feed, 1),
            ]);
            commands
        },
        Msg::FeedPageClicked(page_number) => {
            model.feed_page = page_number;
            let commands = vec![
                Command::FetchFeed(
                    model.session.cloned_viewer(),
                    model.author.username().to_static(),
                    model.selected_feed,
                    model.feed_page,
                ),
                Command::ScrollToTop,
            ];
            assert(commands_view(commands@) =~= seq![
                CommandView::<FM>::FetchFeed(
                    session_viewer(model.session),
                    status_username(model.author),
                    model.selected_feed,
                    page_number.spec_number(),
                ),
                CommandView::ScrollToTop,
            ]);
            commands
        },
        Msg::FollowChangeCompleted(Ok(author)) => {
            model.author = Status::Loaded(author);
            Vec::new()
        },
        Msg::FollowChangeCompleted(Err(errors)) => {
            let commands = vec![Command::LogErrors(copy_messages(&errors))];
            assert(commands_view(commands@) =~= seq![CommandView::<FM>::LogErrors(messages_view(errors@))]);
            model.errors = errors;
            commands
        },
        Msg::AuthorLoadCompleted(Ok(author)) => {
            model.author = Status::Loaded(author);
            Vec::new()
        },
        Msg::AuthorLoadCompleted(Err((username, errors))) => {
            model.author = Status::Failed(username);
            let commands = vec![Command::LogErrors(copy_messages(&errors))];
            assert(commands_view(commands@) =~= seq![CommandView::<FM>::LogErrors(messages_view(errors@))]);
            model.errors = errors;
            commands
        },
        Msg::FeedLoadCompleted(Ok(feed)) => {
            model.feed = Status::Loaded(feed);
            Vec::new()
        },
        Msg::FeedLoadCompleted(Err((username, errors))) => {
            model.feed = Status::Failed(username);
            let commands = vec![Command::LogErrors(copy_messages(&errors))];
            assert(commands_view(commands@) =~= seq![CommandView::<FM>::LogErrors(messages_view(errors@))]);
            model.errors = errors;
            commands
        },
        Msg::FeedMsg(feed_msg) => {
            let loaded = match &model.feed {
                Status::Loaded(_) => true,
                _ => false,
            };
            if loaded {
                let commands = vec![Command::ForwardToFeed(feed_msg)];
                assert(commands_view(commands@) =~= seq![CommandView::ForwardToFeed(feed_msg)]);
                commands
            } else {
                let text = String::from_str("FeedMsg can be handled only if Status is Loaded");
                let commands = vec![Command::LogError(text)];
                assert(commands_view(commands@) =~= seq![CommandView::<FM>::LogError(feed_not_loaded_text())]);
                commands
            }
        },
        Msg::SlowLoadThresholdPassed => {
            let loading_name: Option<Username> = match &model.feed {
                Status::Loading(username) => Some(username.to_static()),
                _ => None,
            };
            match loading_name {
                Some(username) => {
                    model.feed = Status::LoadingSlowly(username);
                },
                None => {},
            }
            Vec::new()
        },
    }
}

/// Whatever the profile page's message, its session stays: only `sink`
/// sets a new one.
pub proof fn lemma_update_keeps_session<F, FM>(msg: Msg<F, FM>, old: Model<F>, new: Model<F>, commands: Seq<Command<FM>>)
    requires
        updated(msg, old, new, commands),
    ensures
        new.session == old.session,
{
}

/// The profile page of a user opens on that user's own articles, at page 1,
/// with the author and the list still loading for that user and no error;
/// it asks to be told when loading is slow, for that user's profile, and for
/// page 1 of their articles, each request signed by the session's user.
pub proof fn lemma_opens_on_first_page_of_articles<F, FM>(
    session: Session,
    username: Seq<char>,
    model: Model<F>,
    commands: Seq<Command<FM>>,
)
    requires
        opened(session, username, model, commands),
    ensures
        model.session == session,
        model.errors@.len() == 0,
        model.selected_feed is MyArticles,
        model.feed_page.spec_number() == 1,
        status_username(model.author) == username,
        model.author is Loading,
        model.feed matches Status::Loading(name) && name@ == username,
        commands.len() == 3,
        commands[0] is NotifyOnSlowLoad,
        commands[1] matches Command::LoadAuthor(viewer, name) && option_viewer_view(viewer) == session_viewer(session)
            && name@ == username,
        commands[2] matches Command::FetchFeed(viewer, name, feed, page) && option_viewer_view(viewer)
            == session_viewer(session) && name@ == username && feed is MyArticles && page.spec_number() == 1,
{
    assert(commands_view(commands).len() == commands.len());
    assert(commands_view(commands)[0] == commands[0]@);
    assert(commands_view(commands)[1] == commands[1]@);
    assert(commands_view(commands)[2] == commands[2]@);
}

/// The follow button is shown only to a signed-in user looking at somebody
/// else: it unfollows an author that the user follows and follows one that
/// the user does not, and it names that author.
pub proof fn lemma_follow_button_toggles(signed_in: bool, author: Author)
    ensures
        !signed_in ==> follow_button_spec(signed_in, author) is None,
        author is IsViewer ==> follow_button_spec(signed_in, author) is None,
        signed_in ==> (author matches Author::Following(name) ==> follow_button_spec(signed_in, author) == Some((false, name@))),
        signed_in ==> (author matches Author::NotFollowing(name) ==> follow_button_spec(signed_in, author) == Some((true, name@))),
{
}

/// Choosing the other list starts it over: whatever page was shown before,
/// the page number goes back to 1, the chosen list is the one shown, the
/// author, the errors and what was loaded stay until the new list comes, and
/// a single command asks for page 1 of that list of the same user.
pub proof fn lemma_tab_click_starts_at_first_page<F, FM>(
    selected_feed: SelectedFeed,
    old: Model<F>,
    new: Model<F>,
    commands: Seq<Command<FM>>,
)
    requires
        updated(Msg::<F, FM>::TabClicked(selected_feed), old, new, commands),
    ensures
        new.session == old.session,
        new.errors == old.errors,
        new.author == old.author,
        new.feed == old.feed,
        new.selected_feed == selected_feed,
        new.feed_page.spec_number() == 1,
        commands.len() == 1,
        commands[0] matches Command::FetchFeed(viewer, username, feed, page) && option_viewer_view(viewer)
            == session_viewer(old.session) && username@ == status_username(old.author) && feed == selected_feed
            && page.spec_number() == 1,
{
    assert(commands_view(commands).len() == commands.len());
    assert(commands_view(commands)[0] == commands[0]@);
}

/// Clicking a page number keeps the list and asks for that page of it, of
/// the same user, then for a scroll to the top.
pub proof fn lemma_page_click_asks_for_that_page<F, FM>(page: PageNumber, old: Model<F>, new: Model<F>, commands: Seq<Command<FM>>)
    requires
        updated(Msg::<F, FM>::FeedPageClicked(page), old, new, commands),
    ensures
        new.session == old.session,
        new.errors == old.errors,
        new.author == old.author,
        new.feed == old.feed,
        new.selected_feed == old.selected_feed,
        new.feed_page == page,
        commands.len() == 2,
        commands[0] matches Command::FetchFeed(viewer, username, feed, asked) && option_viewer_view(viewer)
            == session_viewer(old.session) && username@ == status_username(old.author) && feed
            == old.selected_feed && asked.spec_number() == page.spec_number(),
        commands[1] is ScrollToTop,
{
    assert(commands_view(commands).len() == commands.len());
    assert(commands_view(commands)[0] == commands[0]@);
    assert(commands_view(commands)[1] == commands[1]@);
}

/// The slow-load timer only turns a list that is still loading into one
/// that shows the loading icon, for the same user; in any other state the
/// page is kept as it was. Nothing is asked.
pub proof fn lemma_slow_load_only_touches_loading<F, FM>(old: Model<F>, new: Model<F>, commands: Seq<Command<FM>>)
    requires
        updated(Msg::<F, FM>::SlowLoadThresholdPassed, old, new, commands),
    ensures
        commands.len() == 0,
        new.session == old.session,
        new.errors == old.errors,
        new.author == old.author,
        new.selected_feed == old.selected_feed,
        new.feed_page == old.feed_page,
        old.feed matches Status::Loading(username) ==> (new.feed matches Status::LoadingSlowly(name) && name@ == username@),
        !(old.feed is Loading) ==> new == old,
{
}

// ------ what the page shows ------

/// What a part in `status` shows; `what` names the part in its error.
pub open spec fn status_content<T>(status: Status<T>, content: Content<T>, what: Seq<char>) -> bool {
    match status {
        Status::Loading(_) => content is Empty,
        Status::LoadingSlowly(_) => content is LoadingIcon,
        Status::Failed(_) => content matches Content::Error(text) && text@ == what,
        Status::Loaded(value) => content matches Content::Loaded(shown) && *shown == value,
    }
}

/// What the page shows of the author: nothing yet, the loading icon, an
/// error about the profile, or the loaded author.
pub fn view_content<F>(model: &Model<F>) -> (content: Content<'_, Author>)
    ensures
        status_content(model.author, content, "profile"@),
{
    match &model.author {
        Status::Loading(_) => Content::Empty,
        Status::LoadingSlowly(_) => Content::LoadingIcon,
        Status::Failed(_) => Content::Error("profile"),
        Status::Loaded(author) => Content::Loaded(author),
    }
}

/// What the page shows of the list of articles.
pub fn view_feed<F>(model: &Model<F>) -> (content: Content<'_, F>)
    ensures
        status_content(model.feed, content, "feed"@),
{
    match &model.feed {
        Status::Loading(_) => Content::Empty,
        Status::LoadingSlowly(_) => Content::LoadingIcon,
        Status::Failed(_) => Content::Error("feed"),
        Status::Loaded(feed) => Content::Loaded(feed),
    }
}

/// A tab above the list of articles: its title, the list it shows, and
/// whether it is the list shown now.
pub struct Tab {
    pub title: String,
    pub feed: SelectedFeed,
    pub active: bool,
}

/// The two tabs, "My Articles" and "Favorited Articles", the selected one
/// active.
pub fn view_tabs(selected_feed: SelectedFeed) -> (tabs: Vec<Tab>)
    ensures
        tabs@.len() == 2,
        tabs@[0].title@ == "My Articles"@,
        tabs@[0].feed is MyArticles,
        tabs@[0].active == (selected_feed is MyArticles),
        tabs@[1].title@ == "Favorited Articles"@,
        tabs@[1].feed is FavoritedArticles,
        tabs@[1].active == (selected_feed is FavoritedArticles),
{
    let mine = match selected_feed {
        SelectedFeed::MyArticles => true,
        SelectedFeed::FavoritedArticles => false,
    };
    vec![
        Tab { title: String::from_str("My Articles"), feed: SelectedFeed::MyArticles, active: mine },
        Tab { title: String::from_str("Favorited Articles"), feed: SelectedFeed::FavoritedArticles, active: !mine },
    ]
}

/// The button next to the author's name.
pub enum FollowButton {
    Hidden,
    Follow(Username),
    Unfollow(Username),
}

/// Whom the button follows or unfollows: nobody when no user is signed in or
/// the author is the user; otherwise the author, unfollowed when already
/// followed.
pub open spec fn follow_button_spec(signed_in: bool, author: Author) -> Option<(bool, Seq<char>)> {
    if !signed_in {
        None
    } else {
        match author {
            Author::IsViewer(_) => None,
            Author::Following(username) => Some((false, username@)),
            Author::NotFollowing(username) => Some((true, username@)),
        }
    }
}

/// The button shown for `author` on the page of `model`.
pub fn view_follow_button<F>(author: &Author, model: &Model<F>) -> (button: FollowButton)
    ensures
        follow_button_spec(model.session is LoggedIn, *author) == match button {
            FollowButton::Hidden => None,
            FollowButton::Follow(username) => Some((true, username@)),
            FollowButton::Unfollow(username) => Some((false, username@)),
        },
{
    match model.session.viewer() {
        None => FollowButton::Hidden,
        Some(_) => match author {
            Author::IsViewer(_) => FollowButton::Hidden,
            Author::Following(username) => FollowButton::Unfollow(username.to_static()),
            Author::NotFollowing(username) => FollowButton::Follow(username.to_static()),
        },
    }
}

// ------ the page's title ------

/// The title of one's own profile.
pub open spec fn title_prefix_for_me_text() -> Seq<char> {
    "My Profile"@
}

/// The title of somebody else's profile, while it is not loaded.
pub open spec fn default_title_prefix_text() -> Seq<char> {
    "Profile"@
}

/// The title of the profile of `username` as the viewer, if any, sees it
/// before the profile is loaded.
pub open spec fn title_prefix_for_me_spec(viewer: Option<Seq<char>>, username: Seq<char>) -> Seq<char> {
    if viewer == Some(username) {
        title_prefix_for_me_text()
    } else {
        default_title_prefix_text()
    }
}

/// The title of the page.
pub open spec fn title_prefix_text<F>(model: Model<F>) -> Seq<char> {
    match model.author {
        Status::Loaded(Author::IsViewer(_)) => title_prefix_for_me_text(),
        Status::Loaded(author) => "Profile - "@ + author_username(author),
        _ => title_prefix_for_me_spec(
            crate::entity::session_username(model.session),
            status_username(model.author),
        ),
    }
}

fn title_prefix_for_me(viewer: Option<&Viewer>, username: &Username) -> (title: &'static str)
    ensures
        title@ == title_prefix_for_me_spec(
            match viewer {
                Some(v) => Some(v.username@),
                None => None,
            },
            username@,
        ),
{
    match viewer {
        Some(viewer) => {
            if crate::text::str_eq(username.as_str(), viewer.username().as_str()) {
                return "My Profile";
            }
        },
        None => {},
    }
    "Profile"
}

fn title_prefix_for_other(username: &Username) -> (title: String)
    ensures
        title@ == "Profile - "@ + username@,
{
    let mut title = String::from_str("Profile - ");
    title.append(username.as_str());
    title
}

/// The title of the page: one's own profile is "My Profile", somebody
/// else's is "Profile - " and their name once loaded, "Profile" before.
pub fn title_prefix<F>(model: &Model<F>) -> (title: String)
    ensures
        title@ == title_prefix_text(*model),
{
    match &model.author {
        Status::Loaded(Author::IsViewer(_)) => String::from_str("My Profile"),
        Status::Loaded(author) => title_prefix_for_other(author.username()),
        Status::Loading(username) | Status::LoadingSlowly(username) | Status::Failed(username) => {
            String::from_str(title_prefix_for_me(model.session.viewer(), username))
        },
    }
}

} // verus!
