//! The small values that pages, routes and requests pass around.

use vstd::prelude::*;

verus! {

/// The short name by which an article is found.
pub struct Slug(String);

impl View for Slug {
    type V = Seq<char>;

    open spec fn view(&self) -> Seq<char> {
        self.spec_text()
    }
}

impl Clone for Slug {
    fn clone(&self) -> (slug: Slug)
        ensures
            slug@ == self@,
    {
        Slug(self.0.clone())
    }
}

impl Slug {
    pub closed spec fn spec_text(&self) -> Seq<char> {
        self.0@
    }

    pub fn from(text: String) -> (slug: Slug)
        ensures
            slug@ == text@,
    {
        Slug(text)
    }

    pub fn as_str(&self) -> (text: &str)
        ensures
            text@ == self@,
    {
        self.0.as_str()
    }
}

/// The name of a user.
pub struct Username(String);

impl View for Username {
    type V = Seq<char>;

    open spec fn view(&self) -> Seq<char> {
        self.spec_text()
    }
}

impl Clone for Username {
    fn clone(&self) -> (username: Username)
        ensures
            username@ == self@,
    {
        self.to_static()
    }
}

impl Username {
    pub closed spec fn spec_text(&self) -> Seq<char> {
        self.0@
    }

    pub fn from(text: String) -> (username: Username)
        ensures
            username@ == text@,
    {
        Username(text)
    }

    pub fn as_str(&self) -> (text: &str)
        ensures
            text@ == self@,
    {
        self.0.as_str()
    }

    /// A copy of the name.
    pub fn to_static(&self) -> (username: Username)
        ensures
            username@ == self@,
    {
        Username(self.0.clone())
    }
}

/// A tag of an article.
pub struct Tag(String);

impl View for Tag {
    type V = Seq<char>;

    open spec fn view(&self) -> Seq<char> {
        self.spec_text()
    }
}

impl Clone for Tag {
    fn clone(&self) -> (tag: Tag)
        ensures
            tag@ == self@,
    {
        Tag(self.0.clone())
    }
}

impl Tag {
    pub closed spec fn spec_text(&self) -> Seq<char> {
        self.0@
    }

    pub fn from(text: String) -> (tag: Tag)
        ensures
            tag@ == text@,
    {
        Tag(text)
    }

    pub fn as_str(&self) -> (text: &str)
        ensures
            text@ == self@,
    {
        self.0.as_str()
    }
}

/// The identifier of a comment.
pub struct CommentId(String);

impl View for CommentId {
    type V = Seq<char>;

    open spec fn view(&self) -> Seq<char> {
        self.spec_text()
    }
}

impl CommentId {
    pub closed spec fn spec_text(&self) -> Seq<char> {
        self.0@
    }

    pub fn from(text: String) -> (id: CommentId)
        ensures
            id@ == text@,
    {
        CommentId(text)
    }

    pub fn as_str(&self) -> (text: &str)
        ensures
            text@ == self@,
    {
        self.0.as_str()
    }
}

/// An error reported by the server or met on the way.
pub struct ErrorMessage(String);

impl View for ErrorMessage {
    type V = Seq<char>;

    open spec fn view(&self) -> Seq<char> {
        self.spec_text()
    }
}

impl ErrorMessage {
    pub closed spec fn spec_text(&self) -> Seq<char> {
        self.0@
    }

    pub fn from(text: String) -> (message: ErrorMessage)
        ensures
            message@ == text@,
    {
        ErrorMessage(text)
    }

    pub fn as_str(&self) -> (text: &str)
        ensures
            text@ == self@,
    {
        self.0.as_str()
    }
}

/// The messages, seen as texts.
pub open spec fn messages_view(messages: Seq<ErrorMessage>) -> Seq<Seq<char>> {
    messages.map_values(|m: ErrorMessage| m@)
}

/// A copy of each message, in order.
pub fn copy_messages(messages: &Vec<ErrorMessage>) -> (copy: Vec<ErrorMessage>)
    ensures
        messages_view(copy@) == messages_view(messages@),
{
    let mut copy: Vec<ErrorMessage> = Vec::new();
    let mut i: usize = 0;
    while i < messages.len()
        invariant
            i <= messages@.len(),
            messages_view(copy@) =~= messages_view(messages@.take(i as int)),
        decreases messages@.len() - i,
    {
        let message = ErrorMessage(messages[i].0.clone());
        let ghost before = copy@;
        copy.push(message);
        proof {
            assert(messages@.take(i + 1) =~= messages@.take(i as int).push(messages@[i as int]));
            assert(copy@ =~= before.push(message));
            assert(messages_view(copy@) =~= messages_view(before).push(message@));
            assert(messages_view(messages@.take(i + 1)) =~= messages_view(messages@.take(i as int)).push(messages@[i as int]@));
        }
        i = i + 1;
    }
    proof {
        assert(messages@.take(messages@.len() as int) =~= messages@);
    }
    copy
}

/// The signed-in user.
pub struct Viewer {
    pub username: Username,
    pub auth_token: String,
}

impl View for Viewer {
    /// A viewer is seen as their name and their token.
    type V = (Seq<char>, Seq<char>);

    open spec fn view(&self) -> (Seq<char>, Seq<char>) {
        (self.username@, self.auth_token@)
    }
}

impl Clone for Viewer {
    fn clone(&self) -> (viewer: Viewer)
        ensures
            viewer@ == self@,
    {
        Viewer { username: self.username.to_static(), auth_token: self.auth_token.clone() }
    }
}

impl Viewer {
    pub fn username(&self) -> (username: &Username)
        ensures
            username@ == self.username@,
    {
        &self.username
    }
}

/// Who is using the application: a signed-in user, or a guest.
pub enum Session {
    LoggedIn(Viewer),
    Guest,
}

/// The signed-in user, if any, seen as name and token.
pub open spec fn session_viewer(session: Session) -> Option<(Seq<char>, Seq<char>)> {
    match session {
        Session::LoggedIn(viewer) => Some(viewer@),
        Session::Guest => None,
    }
}

/// The name of the signed-in user, if any.
pub open spec fn session_username(session: Session) -> Option<Seq<char>> {
    match session {
        Session::LoggedIn(viewer) => Some(viewer.username@),
        Session::Guest => None,
    }
}

impl Session {
    pub fn new(viewer: Option<Viewer>) -> (session: Session)
        ensures
            session == (match viewer {
                Some(v) => Session::LoggedIn(v),
                None => Session::Guest,
            }),
    {
        match viewer {
            Some(viewer) => Session::LoggedIn(viewer),
            None => Session::Guest,
        }
    }

    pub fn viewer(&self) -> (viewer: Option<&Viewer>)
        ensures
            viewer == (match self {
                Session::LoggedIn(v) => Some(v),
                Session::Guest => None,
            }),
    {
        match self {
            Session::LoggedIn(viewer) => Some(viewer),
            Session::Guest => None,
        }
    }
}

/// An optional viewer, seen as name and token.
pub open spec fn option_viewer_view(viewer: Option<Viewer>) -> Option<(Seq<char>, Seq<char>)> {
    match viewer {
        Some(v) => Some(v@),
        None => None,
    }
}

impl Session {
    /// A copy of the signed-in user, if any: the one who signs requests.
    pub fn cloned_viewer(&self) -> (viewer: Option<Viewer>)
        ensures
            option_viewer_view(viewer) == session_viewer(*self),
    {
        match self {
            Session::LoggedIn(viewer) => Some(viewer.clone()),
            Session::Guest => None,
        }
    }
}

impl Default for Session {
    fn default() -> (session: Session)
        ensures
            session is Guest,
    {
        Session::Guest
    }
}

/// The number of a page of a list, counted from one.
#[derive(Clone, Copy)]
pub struct PageNumber(usize);

impl PageNumber {
    #[verifier::type_invariant]
    spec fn inv(self) -> bool {
        self.0 >= 1
    }

    pub closed spec fn spec_number(self) -> nat {
        self.0 as nat
    }

    /// The page of number `number`; there is none numbered zero.
    pub fn new(number: usize) -> (page: Option<PageNumber>)
        ensures
            page is Some <==> number >= 1,
            page matches Some(p) ==> p.spec_number() == number,
    {
        if number >= 1 {
            Some(PageNumber(number))
        } else {
            None
        }
    }

    pub fn get(&self) -> (number: usize)
        ensures
            number == self.spec_number(),
            number >= 1,
    {
        proof {
            use_type_invariant(self);
        }
        self.0
    }
}

impl Default for PageNumber {
    /// The first page.
    fn default() -> (page: PageNumber)
        ensures
            page.spec_number() == 1,
    {
        PageNumber(1)
    }
}

/// The author of a profile, as the signed-in user sees them.
pub enum Author {
    IsViewer(Username),
    Following(Username),
    NotFollowing(Username),
}

impl Author {
    pub fn username(&self) -> (username: &Username)
        ensures
            username@ == author_username(*self),
    {
        match self {
            Author::IsViewer(username) => username,
            Author::Following(username) => username,
            Author::NotFollowing(username) => username,
        }
    }
}

/// The name of an author.
pub open spec fn author_username(author: Author) -> Seq<char> {
    match author {
        Author::IsViewer(username) => username@,
        Author::Following(username) => username@,
        Author::NotFollowing(username) => username@,
    }
}

/// One page of a list that the server splits into pages.
pub struct PaginatedList<T> {
    pub items: Vec<T>,
    pub per_page: usize,
    pub total: usize,
}

} // verus!
