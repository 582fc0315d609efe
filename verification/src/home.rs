//! The home page: which feed is shown, which page of it, and how the page
//! answers what happens to it.

use vstd::prelude::*;
use vstd::string::StringExecFns;

use crate::entity::{copy_messages, messages_view, option_viewer_view, session_viewer, ErrorMessage, PageNumber, Session, Tag, Viewer};
use crate::request::{home_feed_url, request_url, ARTICLES_PER_PAGE};
use crate::GMsg;

verus! {

/// The feed shown on the home page: the signed-in user's own, everybody's,
/// or the articles with a tag.
pub enum SelectedFeed {
    Your(Viewer),
    Global,
    Tag(Tag),
}

/// A feed seen through the texts it holds: the user's name and token, or
/// the tag.
pub enum SelectedFeedView {
    Your((Seq<char>, Seq<char>)),
    Global,
    Tag(Seq<char>),
}

impl View for SelectedFeed {
    type V = SelectedFeedView;

    open spec fn view(&self) -> SelectedFeedView {
        match self {
            SelectedFeed::Your(viewer) => SelectedFeedView::Your(viewer@),
            SelectedFeed::Global => SelectedFeedView::Global,
            SelectedFeed::Tag(tag) => SelectedFeedView::Tag(tag@),
        }
    }
}

impl Default for SelectedFeed {
    fn default() -> (feed: SelectedFeed)
        ensures
            feed is Global,
    {
        SelectedFeed::Global
    }
}

/// How far a part of the page has come: waiting for the server, waiting
/// long enough that the user is told, shown, or failed.
pub enum Status<T> {
    Loading,
    LoadingSlowly,
    Loaded(T),
    Failed,
}

impl<T> Default for Status<T> {
    fn default() -> (status: Status<T>)
        ensures
            status is Loading,
    {
        Status::Loading
    }
}

/// The state of the home page. `F` is the feed of articles once loaded.
pub struct Model<F> {
    pub session: Session,
    pub selected_feed: SelectedFeed,
    pub feed_page: PageNumber,
    pub tags: Status<Vec<Tag>>,
    pub feed: Status<F>,
}

impl<F> Model<F> {
    pub fn session(&self) -> (session: &Session)
        ensures
            session == self.session,
    {
        &self.session
    }
}

impl<F> From<Model<F>> for Session {
    /// The session that the page held.
    fn from(model: Model<F>) -> (session: Session) {
        model.session
    }
}

impl<F> vstd::std_specs::convert::FromSpecImpl<Model<F>> for Session {
    open spec fn obeys_from_spec() -> bool {
        true
    }

    open spec fn from_spec(model: Model<F>) -> Session {
        model.session
    }
}

/// What happens to the home page. `F` is a loaded feed, `FM` what happens to
/// the feed itself.
pub enum Msg<F, FM> {
    TagClicked(Tag),
    TabClicked(SelectedFeed),
    FeedPageClicked(PageNumber),
    FeedLoadCompleted(Result<F, Vec<ErrorMessage>>),
    TagsLoadCompleted(Result<Vec<Tag>, Vec<ErrorMessage>>),
    FeedMsg(FM),
    SlowLoadThresholdPassed,
}

/// What the home page asks to be done.
pub enum Command<FM> {
    /// Report back with `SlowLoadThresholdPassed` once loading takes long.
    NotifyOnSlowLoad,
    /// Load the popular tags.
    LoadTags,
    /// Load the feed from this path and query, signed by this viewer.
    FetchFeed(Option<Viewer>, String),
    ScrollToTop,
    LogErrors(Vec<ErrorMessage>),
    LogError(String),
    /// Hand this to the loaded feed.
    ForwardToFeed(FM),
}

/// A command seen through the texts it holds.
pub enum CommandView<FM> {
    NotifyOnSlowLoad,
    LoadTags,
    FetchFeed(Option<(Seq<char>, Seq<char>)>, Seq<char>),
    ScrollToTop,
    LogErrors(Seq<Seq<char>>),
    LogError(Seq<char>),
    ForwardToFeed(FM),
}

impl<FM> View for Command<FM> {
    type V = CommandView<FM>;

    open spec fn view(&self) -> CommandView<FM> {
        match self {
            Command::NotifyOnSlowLoad => CommandView::NotifyOnSlowLoad,
            Command::LoadTags => CommandView::LoadTags,
            Command::FetchFeed(viewer, url) => CommandView::FetchFeed(option_viewer_view(*viewer), url@),
            Command::ScrollToTop => CommandView::ScrollToTop,
            Command::LogErrors(errors) => CommandView::LogErrors(messages_view(errors@)),
            Command::LogError(text) => CommandView::LogError(text@),
            Command::ForwardToFeed(msg) => CommandView::ForwardToFeed(*msg),
        }
    }
}

/// The commands, seen through their views.
pub open spec fn commands_view<FM>(commands: Seq<Command<FM>>) -> Seq<CommandView<FM>> {
    commands.map_values(|c: Command<FM>| c@)
}

/// The feed that the page opens on: the user's own when signed in, else
/// everybody's.
pub open spec fn initial_feed(session: Session) -> SelectedFeedView {
    match session {
        Session::LoggedIn(viewer) => SelectedFeedView::Your(viewer@),
        Session::Guest => SelectedFeedView::Global,
    }
}

/// `model` is the home page as it opens for `session`, and `commands` what it
/// asks for: to be told when loading is slow, the tags, and the first page of
/// its feed.
pub open spec fn opened<F, FM>(session: Session, model: Model<F>, commands: Seq<Command<FM>>) -> bool {
    &&& model.session == session
    &&& model.selected_feed@ == initial_feed(session)
    &&& model.feed_page.spec_number() == 1
    &&& model.tags is Loading
    &&& model.feed is Loading
    &&& commands_view(commands) == seq![
        CommandView::<FM>::NotifyOnSlowLoad,
        CommandView::LoadTags,
        CommandView::FetchFeed(session_viewer(session), home_feed_url(initial_feed(session), 1)),
    ]
}

/// The home page as it opens for `session`, and what it asks for: to be told
/// when loading is slow, the tags, and the first page of its feed.
pub fn init<F, FM>(session: Session) -> (result: (Model<F>, Vec<Command<FM>>))
    ensures
        opened(session, result.0, result.1@),
{
    let selected_feed = match session.viewer() {
        Some(viewer) => SelectedFeed::Your(viewer.clone()),
        None => SelectedFeed::default(),
    };
    let feed_page = PageNumber::default();
    let url = request_url(&selected_feed, feed_page);
    let commands: Vec<Command<FM>> = vec![Command::NotifyOnSlowLoad, Command::LoadTags, Command::FetchFeed(session.cloned_viewer(), url)];
    proof {
        assert(commands_view(commands@) =~= seq![
            CommandView::<FM>::NotifyOnSlowLoad,
            CommandView::LoadTags,
            CommandView::FetchFeed(session_viewer(session), home_feed_url(initial_feed(session), 1)),
        ]);
    }
    let model = Model {
        session,
        selected_feed,
        feed_page,
        tags: Status::default(),
        feed: Status::default(),
    };
    (model, commands)
}

/// A new session replaces the page's; nothing else changes.
pub fn sink<F>(g_msg: GMsg, model: &mut Model<F>)
    ensures
        match g_msg {
            GMsg::SessionChanged(session) => *final(model) == (Model { session, ..*old(model) }),
            _ => *final(model) == *old(model),
        },
{
    match g_msg {
        GMsg::SessionChanged(session) => {
            model.session = session;
        },
        _ => {},
    }
}

/// The page can read the page number that `msg` carries.
pub open spec fn page_fits<F, FM>(msg: Msg<F, FM>) -> bool {
    match msg {
        Msg::FeedPageClicked(page) => (page.spec_number() - 1) * ARTICLES_PER_PAGE <= usize::MAX,
        _ => true,
    }
}

/// The text logged when the feed is sent something before it is loaded.
pub open spec fn feed_not_loaded_text() -> Seq<char> {
    "FeedMsg can be handled only if Status is Loaded"@
}

/// `new` and `commands` are what the page makes of `msg` in state `old`.
pub open spec fn updated<F, FM>(msg: Msg<F, FM>, old: Model<F>, new: Model<F>, commands: Seq<Command<FM>>) -> bool {
    &&& new.session == old.session
    &&& match msg {
        Msg::TagClicked(tag) => {
            &&& new.selected_feed == SelectedFeed::Tag(tag)
            &&& new.feed_page.spec_number() == 1
            &&& new.tags == old.tags
            &&& new.feed == old.feed
            &&& commands_view(commands) == seq![CommandView::<FM>::FetchFeed(session_viewer(old.session), home_feed_url(SelectedFeedView::Tag(tag@), 1))]
        },
        Msg::TabClicked(selected_feed) => {
            &&& new.selected_feed == selected_feed
            &&& new.feed_page.spec_number() == 1
            &&& new.tags == old.tags
            &&& new.feed == old.feed
            &&& commands_view(commands) == seq![CommandView::<FM>::FetchFeed(session_viewer(old.session), home_feed_url(selected_feed@, 1))]
        },
        Msg::FeedPageClicked(page) => {
            &&& new.selected_feed == old.selected_feed
            &&& new.feed_page == page
            &&& new.tags == old.tags
            &&& new.feed == old.feed
            &&& commands_view(commands) == seq![
                CommandView::<FM>::FetchFeed(session_viewer(old.session), home_feed_url(old.selected_feed@, page.spec_number())),
                CommandView::ScrollToTop,
            ]
        },
        Msg::FeedLoadCompleted(Ok(feed)) => {
            &&& new == (Model { feed: Status::Loaded(feed), ..old })
            &&& commands.len() == 0
        },
        Msg::FeedLoadCompleted(Err(errors)) => {
            &&& new == (Model { feed: Status::Failed, ..old })
            &&& commands_view(commands) == seq![CommandView::<FM>::LogErrors(messages_view(errors@))]
        },
        Msg::TagsLoadCompleted(Ok(tags)) => {
            &&& new == (Model { tags: Status::Loaded(tags), ..old })
            &&& commands.len() == 0
        },
        Msg::TagsLoadCompleted(Err(errors)) => {
            &&& new == (Model { tags: Status::Failed, ..old })
            &&& commands_view(commands) == seq![CommandView::<FM>::LogErrors(messages_view(errors@))]
        },
        Msg::FeedMsg(feed_msg) => {
            &&& new == old
            &&& commands_view(commands) == if old.feed is Loaded {
                seq![CommandView::ForwardToFeed(feed_msg)]
            } else {
                seq![CommandView::<FM>::LogError(feed_not_loaded_text())]
            }
        },
        Msg::SlowLoadThresholdPassed => {
            &&& new.selected_feed == old.selected_feed
            &&& new.feed_page == old.feed_page
            &&& new.feed == if old.feed is Loading {
                Status::LoadingSlowly
            } else {
                old.feed
            }
            &&& new.tags == if old.tags is Loading {
                Status::LoadingSlowly
            } else {
                old.tags
            }
            &&& commands.len() == 0
        },
    }
}

/// How the page answers `msg`: the new state, and what it asks to be done.
pub fn update<F, FM>(msg: Msg<F, FM>, model: &mut Model<F>) -> (commands: Vec<Command<FM>>)
    requires
        page_fits(msg),
    ensures
        updated(msg, *old(model), *final(model), commands@),
{
    match msg {
        Msg::TagClicked(tag) => {
            model.selected_feed = SelectedFeed::Tag(tag);
            model.feed_page = PageNumber::default();
            let url = request_url(&model.selected_feed, model.feed_page);
            let viewer = model.session.cloned_viewer();
            let ghost viewer_view = option_viewer_view(viewer);
            let commands = vec![Command::FetchFeed(viewer, url)];
            assert(commands_view(commands@) =~= seq![CommandView::<FM>::FetchFeed(viewer_view, url@)]);
            commands
        },
        Msg::TabClicked(selected_feed) => {
            model.selected_feed = selected_feed;
            model.feed_page = PageNumber::default();
            let url = request_url(&model.selected_feed, model.feed_page);
            let viewer = model.session.cloned_viewer();
            let ghost viewer_view = option_viewer_view(viewer);
            let commands = vec![Command::FetchFeed(viewer, url)];
            assert(commands_view(commands@) =~= seq![CommandView::<FM>::FetchFeed(viewer_view, url@)]);
            commands
        },
        Msg::FeedPageClicked(page_number) => {
            model.feed_page = page_number;
            let url = request_url(&model.selected_feed, model.feed_page);
            let viewer = model.session.cloned_viewer();
            let ghost viewer_view = option_viewer_view(viewer);
            let commands = vec![Command::FetchFeed(viewer, url), Command::ScrollToTop];
            assert(commands_view(commands@) =~= seq![CommandView::<FM>::FetchFeed(viewer_view, url@), CommandView::ScrollToTop]);
            commands
        },
        Msg::FeedLoadCompleted(Ok(feed)) => {
            model.feed = Status::Loaded(feed);
            Vec::new()
        },
        Msg::FeedLoadCompleted(Err(errors)) => {
            model.feed = Status::Failed;
            let commands = vec![Command::LogErrors(errors)];
            assert(commands_view(commands@) =~= seq![CommandView::<FM>::LogErrors(messages_view(errors@))]);
            commands
        },
        Msg::TagsLoadCompleted(Ok(tags)) => {
            model.tags = Status::Loaded(tags);
            Vec::new()
        },
        Msg::TagsLoadCompleted(Err(errors)) => {
            model.tags = Status::Failed;
            let commands = vec![Command::LogErrors(errors)];
            assert(commands_view(commands@) =~= seq![CommandView::<FM>::LogErrors(messages_view(errors@))]);
            commands
        },
        Msg::FeedMsg(feed_msg) => {
            let loaded = match &model.feed {
                Status::Loaded(_) => true,
                _ => false,
            };
            if loaded {
                let commands = vec![Command::ForwardToFeed(feed_msg)];
                assert(commands_view(commands@) =~= seq![CommandView::ForwardToFeed(feed_msg)]);
                commands
            } else {
                let text = String::from_str("FeedMsg can be handled only if Status is Loaded");
                let commands = vec![Command::LogError(text)];
                assert(commands_view(commands@) =~= seq![CommandView::<FM>::LogError(feed_not_loaded_text())]);
                commands
            }
        },
        Msg::SlowLoadThresholdPassed => {
            let feed_loading = match &model.feed {
                Status::Loading => true,
                _ => false,
            };
            if feed_loading {
                model.feed = Status::LoadingSlowly;
            }
            let tags_loading = match &model.tags {
                Status::Loading => true,
                _ => false,
            };
            if tags_loading {
                model.tags = Status::LoadingSlowly;
            }
            Vec::new()
        },
    }
}

// ------ the tabs above the feed ------

/// A tab above the feed: its title, the feed it shows, and whether it is the
/// feed shown now.
pub struct Tab {
    pub title: String,
    pub feed: SelectedFeed,
    pub active: bool,
}

/// A tab seen through its texts.
pub type TabView = (Seq<char>, SelectedFeedView, bool);

impl View for Tab {
    type V = TabView;

    open spec fn view(&self) -> TabView {
        (self.title@, self.feed@, self.active)
    }
}

/// The tabs above the feed: the user's own feed when there is a user to
/// show it for, everybody's, and the tag's when a tag is selected; the tab of
/// the selected feed is the active one.
pub open spec fn tabs_spec(selected: SelectedFeedView, viewer: Option<(Seq<char>, Seq<char>)>) -> Seq<TabView> {
    let global = |active: bool| ("Global Feed"@, SelectedFeedView::Global, active);
    let yours = |name: (Seq<char>, Seq<char>), active: bool| ("Your Feed"@, SelectedFeedView::Your(name), active);
    match selected {
        SelectedFeedView::Your(name) => seq![yours(name, true), global(false)],
        SelectedFeedView::Global => match viewer {
            Some(name) => seq![yours(name, false), global(true)],
            None => seq![global(true)],
        },
        SelectedFeedView::Tag(tag) => {
            let tag_tab = ("#"@ + tag, SelectedFeedView::Tag(tag), true);
            match viewer {
                Some(name) => seq![yours(name, false), global(false), tag_tab],
                None => seq![global(false), tag_tab],
            }
        },
    }
}

fn your_feed_tab(viewer: &Viewer, active: bool) -> (tab: Tab)
    ensures
        tab@ == ("Your Feed"@, SelectedFeedView::Your(viewer@), active),
{
    Tab { title: String::from_str("Your Feed"), feed: SelectedFeed::Your(viewer.clone()), active }
}

fn global_feed_tab(active: bool) -> (tab: Tab)
    ensures
        tab@ == ("Global Feed"@, SelectedFeedView::Global, active),
{
    Tab { title: String::from_str("Global Feed"), feed: SelectedFeed::Global, active }
}

fn tag_feed_tab(tag: &Tag) -> (tab: Tab)
    ensures
        tab@ == ("#"@ + tag@, SelectedFeedView::Tag(tag@), true),
{
    let mut title = String::from_str("#");
    title.append(tag.as_str());
    Tab { title, feed: SelectedFeed::Tag(tag.clone()), active: true }
}

/// The tabs shown above the feed of `model`.
pub fn view_tabs<F>(model: &Model<F>) -> (tabs: Vec<Tab>)
    ensures
        tabs@.map_values(|t: Tab| t@) == tabs_spec(
            model.selected_feed@,
            crate::entity::session_viewer(model.session),
        ),
{
    let viewer = model.session.viewer();
    let tabs = match &model.selected_feed {
        SelectedFeed::Your(selected_viewer) => vec![your_feed_tab(selected_viewer, true), global_feed_tab(false)],
        SelectedFeed::Global => match viewer {
            Some(viewer) => vec![your_feed_tab(viewer, false), global_feed_tab(true)],
            None => vec![global_feed_tab(true)],
        },
        SelectedFeed::Tag(tag) => match viewer {
            Some(viewer) => vec![your_feed_tab(viewer, false), global_feed_tab(false), tag_feed_tab(tag)],
            None => vec![global_feed_tab(false), tag_feed_tab(tag)],
        },
    };
    proof {
        assert(tabs@.map_values(|t: Tab| t@) =~= tabs_spec(
            model.selected_feed@,
            crate::entity::session_viewer(model.session),
        ));
    }
    tabs
}

/// Whatever the home page's message, its session stays: only `sink` sets a
/// new one.
pub proof fn lemma_update_keeps_session<F, FM>(msg: Msg<F, FM>, old: Model<F>, new: Model<F>, commands: Seq<Command<FM>>)
    requires
        updated(msg, old, new, commands),
    ensures
        new.session == old.session,
{
}

/// The home page opens on the signed-in user's own feed, or on everybody's
/// for a guest, at page 1, with the feed and the tags still loading; it asks
/// to be told when loading is slow, for the tags, and for page 1 of the feed
/// it opened on, signed by the session's user.
pub proof fn lemma_opens_on_first_page_of_own_feed<F, FM>(session: Session, model: Model<F>, commands: Seq<Command<FM>>)
    requires
        opened(session, model, commands),
    ensures
        model.session == session,
        session matches Session::LoggedIn(viewer) ==> model.selected_feed@ == SelectedFeedView::Your(viewer@),
        session is Guest ==> model.selected_feed is Global,
        model.feed_page.spec_number() == 1,
        model.feed is Loading,
        model.tags is Loading,
        commands.len() == 3,
        commands[0] is NotifyOnSlowLoad,
        commands[1] is LoadTags,
        commands_view(commands)[2] == CommandView::<FM>::FetchFeed(
            session_viewer(session),
            home_feed_url(model.selected_feed@, 1),
        ),
{
    assert(commands_view(commands).len() == commands.len());
    assert(commands_view(commands)[0] == commands[0]@);
    assert(commands_view(commands)[1] == commands[1]@);
}

/// The slow-load timer only turns a part that is still loading into one
/// that shows the loading icon: a part that was loaded or failed is kept
/// as it was, the feed chosen and its page stay, and nothing is asked.
pub proof fn lemma_slow_load_only_touches_loading<F, FM>(old: Model<F>, new: Model<F>, commands: Seq<Command<FM>>)
    requires
        updated(Msg::<F, FM>::SlowLoadThresholdPassed, old, new, commands),
    ensures
        new.session == old.session,
        new.selected_feed == old.selected_feed,
        new.feed_page == old.feed_page,
        old.feed is Loading ==> new.feed is LoadingSlowly,
        !(old.feed is Loading) ==> new.feed == old.feed,
        old.feed is Loaded ==> new.feed is Loaded,
        old.tags is Loading ==> new.tags is LoadingSlowly,
        !(old.tags is Loading) ==> new.tags == old.tags,
        commands.len() == 0,
{
}

/// Choosing a tab or a tag starts its feed over: the page number goes back
/// to 1, the chosen feed is the one shown, what was loaded stays until the
/// new feed comes, and a single command asks for page 1 of that feed.
pub proof fn lemma_new_feed_starts_at_first_page<F, FM>(msg: Msg<F, FM>, old: Model<F>, new: Model<F>, commands: Seq<Command<FM>>)
    requires
        msg is TagClicked || msg is TabClicked,
        updated(msg, old, new, commands),
    ensures
        new.session == old.session,
        new.feed_page.spec_number() == 1,
        msg matches Msg::TagClicked(tag) ==> new.selected_feed == SelectedFeed::Tag(tag),
        msg matches Msg::TabClicked(feed) ==> new.selected_feed == feed,
        new.feed == old.feed,
        new.tags == old.tags,
        commands.len() == 1,
        commands_view(commands)[0] == CommandView::<FM>::FetchFeed(
            session_viewer(old.session),
            home_feed_url(new.selected_feed@, 1),
        ),
{
    assert(commands_view(commands).len() == commands.len());
}

/// Clicking a page number keeps the feed and asks for that page of it, then
/// for a scroll to the top.
pub proof fn lemma_page_click_asks_for_that_page<F, FM>(page: PageNumber, old: Model<F>, new: Model<F>, commands: Seq<Command<FM>>)
    requires
        updated(Msg::<F, FM>::FeedPageClicked(page), old, new, commands),
    ensures
        new.session == old.session,
        new.selected_feed == old.selected_feed,
        new.feed_page == page,
        new.feed == old.feed,
        new.tags == old.tags,
        commands.len() == 2,
        commands_view(commands)[0] == CommandView::<FM>::FetchFeed(
            session_viewer(old.session),
            home_feed_url(old.selected_feed@, page.spec_number()),
        ),
        commands[1] is ScrollToTop,
{
    assert(commands_view(commands).len() == commands.len());
    assert(commands_view(commands)[1] == CommandView::<FM>::ScrollToTop);
}

/// Of the tabs above the feed exactly one is active, and it shows the feed
/// that is selected; a signed-in user always has a "Your Feed" tab first,
/// for that user (or for the feed's own user while it is selected); on everybody's feed the tabs are that user's own feed,
/// inactive, then "Global Feed", active, or "Global Feed" alone for a guest.
pub proof fn lemma_tabs_show_selected_feed(selected: SelectedFeedView, viewer: Option<(Seq<char>, Seq<char>)>)
    ensures
        ({
            let tabs = tabs_spec(selected, viewer);
            &&& exists|i: int| 0 <= i < tabs.len() && tabs[i].2 && tabs[i].1 == selected
            &&& forall|i: int, j: int| 0 <= i < tabs.len() && 0 <= j < tabs.len() && tabs[i].2 && tabs[j].2 ==> i == j
            &&& selected matches SelectedFeedView::Your(name) ==> (tabs.len() > 0 && tabs[0] == ("Your Feed"@, SelectedFeedView::Your(name), true))
            &&& !(selected is Your) ==> (viewer matches Some(name) ==> (tabs.len() > 0 && tabs[0] == ("Your Feed"@, SelectedFeedView::Your(name), false)))
            &&& selected is Global ==> tabs == match viewer {
                Some(name) => seq![("Your Feed"@, SelectedFeedView::Your(name), false), ("Global Feed"@, SelectedFeedView::Global, true)],
                None => seq![("Global Feed"@, SelectedFeedView::Global, true)],
            }
        }),
{
    let tabs = tabs_spec(selected, viewer);
    match selected {
        SelectedFeedView::Your(name) => {
            assert(tabs[0].2 && tabs[0].1 == selected);
        },
        SelectedFeedView::Global => {
            assert(tabs[tabs.len() - 1].2 && tabs[tabs.len() - 1].1 == selected);
        },
        SelectedFeedView::Tag(tag) => {
            assert(tabs[tabs.len() - 1].2 && tabs[tabs.len() - 1].1 == selected);
        },
    }
}

// ------ what a part of the page shows ------

/// What a part of a page shows: nothing yet, the loading icon, an error
/// about what could not be loaded, or what was loaded.
pub enum Content<'a, T> {
    Empty,
    LoadingIcon,
    Error(&'static str),
    Loaded(&'a T),
}

/// What a part in `status` shows; `what` names the part in its error.
pub open spec fn status_content<T>(status: Status<T>, content: Content<T>, what: Seq<char>) -> bool {
    match status {
        Status::Loading => content is Empty,
        Status::LoadingSlowly => content is LoadingIcon,
        Status::Failed => content matches Content::Error(text) && text@ == what,
        Status::Loaded(value) => content matches Content::Loaded(shown) && *shown == value,
    }
}

/// What the feed part of the home page shows.
pub fn view_feed<F>(model: &Model<F>) -> (content: Content<'_, F>)
    ensures
        status_content(model.feed, content, "feed"@),
{
    match &model.feed {
        Status::Loading => Content::Empty,
        Status::LoadingSlowly => Content::LoadingIcon,
        Status::Failed => Content::Error("feed"),
        Status::Loaded(feed) => Content::Loaded(feed),
    }
}

/// What the popular-tags part of the home page shows.
pub fn view_tags<F>(model: &Model<F>) -> (content: Content<'_, Vec<Tag>>)
    ensures
        status_content(model.tags, content, "tags"@),
{
    match &model.tags {
        Status::Loading => Content::Empty,
        Status::LoadingSlowly => Content::LoadingIcon,
        Status::Failed => Content::Error("tags"),
        Status::Loaded(tags) => Content::Loaded(tags),
    }
}

} // verus!
