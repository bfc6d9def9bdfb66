//! What a page holds, and what it tells the browsers that are viewing it.
use crate::channel::{
    delivered, is_opened_on, missed, newest, Updates, UpdatesView, UPDATE_BUFFER_SIZE,
};
use crate::wire::{
    event, event_text, is_framed, json_object, law_event_holds_no_return,
    law_event_is_framed, lemma_one_line_event_determines_data, lemma_single_line, object_text,
    one_line_event,
};
use hyper::body::Body;
use vstd::prelude::*;

verus! {

/// The `Content` of a page is either `Dynamic` or `Static`. If it is dynamic, it
/// has a title, a body, and a channel to the browsers that are waiting for
/// updates to the page. If it is static, it has a fixed content type and an
/// array of bytes to be returned when fetched.
///
/// A page can be changed from dynamic to static and back. The browsers that are
/// viewing a dynamic page are told when it becomes static; in the other
/// direction a manual reload is needed, because a static page has no channel.
#[derive(Debug)]
pub enum Content {
    Dynamic { title: String, body: String, updates: Updates },
    Static { content_type: Option<String>, raw_contents: Vec<u8> },
}

/// How a browser is to take up the new contents of a page.
#[derive(Debug, Clone, Copy, PartialEq, Eq, Structural)]
pub enum RefreshMode {
    /// Load the whole page again.
    FullReload,
    /// Put the new body in place of the old one.
    SetBody,
    /// Change the old body where the new one differs from it.
    Diff,
}

/// The contents of a page as values, with the channel to the browsers viewing it.
pub enum ContentView {
    Dynamic { title: Seq<char>, body: Seq<char>, updates: UpdatesView },
    Static { content_type: Option<Seq<char>>, raw_contents: Seq<u8> },
}

impl View for Content {
    type V = ContentView;

    open spec fn view(&self) -> ContentView {
        match *self {
            Content::Dynamic { title, body, updates } => ContentView::Dynamic {
                title: title@,
                body: body@,
                updates: updates@,
            },
            Content::Static { content_type, raw_contents } => ContentView::Static {
                content_type: text_view(content_type),
                raw_contents: raw_contents@,
            },
        }
    }
}

/// An optional text as a value.
pub open spec fn text_view(text: Option<String>) -> Option<Seq<char>> {
    match text {
        Some(text) => Some(text@),
        None => None,
    }
}

/// The message that tells a browser to load the whole page again.
pub open spec fn reload_message() -> Seq<char> {
    event_text(None, "refresh"@, "."@)
}

/// The data of the message that tells a browser the contents of a page.
pub open spec fn set_data(title: Seq<char>, body: Seq<char>, diff: bool) -> Seq<char> {
    json_object("title"@, title, "body"@, body, "diff"@, diff)
}

/// The message that tells a browser to refresh its copy of a page.
pub open spec fn refresh_message(title: Seq<char>, body: Seq<char>, mode: RefreshMode) -> Seq<
    char,
> {
    match mode {
        RefreshMode::FullReload => reload_message(),
        RefreshMode::SetBody => event_text(None, "set"@, set_data(title, body, false)),
        RefreshMode::Diff => event_text(None, "set"@, set_data(title, body, true)),
    }
}

/// The message that tells a browser which events of the page to report.
pub open spec fn subscribe_message(subscription: Seq<char>) -> Seq<char> {
    event_text(None, "subscribe"@, subscription)
}

/// The message that keeps a connection alive: an empty event.
pub open spec fn heartbeat_message() -> Seq<char> {
    ":\n\n"@
}

impl ContentView {
    /// A dynamic page with an empty title, an empty body, and a new channel.
    pub open spec fn new() -> ContentView {
        ContentView::Dynamic {
            title: Seq::empty(),
            body: Seq::empty(),
            updates: UpdatesView::new(),
        }
    }

    /// The title, which a static page does not have.
    pub open spec fn title(self) -> Seq<char> {
        match self {
            ContentView::Dynamic { title, .. } => title,
            ContentView::Static { .. } => Seq::empty(),
        }
    }

    /// The body, which a static page does not have.
    pub open spec fn body(self) -> Seq<char> {
        match self {
            ContentView::Dynamic { body, .. } => body,
            ContentView::Static { .. } => Seq::empty(),
        }
    }

    /// The content type, which a dynamic page does not have.
    pub open spec fn content_type(self) -> Option<Seq<char>> {
        match self {
            ContentView::Dynamic { .. } => None,
            ContentView::Static { content_type, .. } => content_type,
        }
    }

    /// The channel to the clients. A static page has none; a new one is opened when
    /// it becomes dynamic.
    pub open spec fn channel(self) -> UpdatesView {
        match self {
            ContentView::Dynamic { updates, .. } => updates,
            ContentView::Static { .. } => UpdatesView::new(),
        }
    }

    /// The messages handed to the channel, the oldest first.
    pub open spec fn told(self) -> Seq<Seq<char>> {
        self.channel().told
    }

    /// How many clients there have been so far, gone or not.
    pub open spec fn clients(self) -> nat {
        self.channel().clients
    }

    /// Whether the page is dynamic with nothing in it.
    pub open spec fn is_blank(self) -> bool {
        self is Dynamic && self.title().len() == 0 && self.body().len() == 0
    }

    /// The contents with the channel in another state. A static page has none.
    pub open spec fn with_channel(self, updates: UpdatesView) -> ContentView {
        match self {
            ContentView::Dynamic { title, body, .. } => ContentView::Dynamic {
                title,
                body,
                updates,
            },
            ContentView::Static { .. } => self,
        }
    }

    /// The contents after one more message was handed to the clients.
    pub open spec fn tell(self, message: Seq<char>) -> ContentView {
        self.with_channel(self.channel().tell(message))
    }

    /// The contents with one more client.
    pub open spec fn join(self) -> ContentView {
        self.with_channel(self.channel().join())
    }

    /// The contents after the update that tells the clients to refresh their copy.
    pub open spec fn refresh(self, mode: RefreshMode) -> ContentView {
        self.tell(refresh_message(self.title(), self.body(), mode))
    }

    /// Whether setting a title and a body makes a difference.
    pub open spec fn differs(self, title: Seq<char>, body: Seq<char>) -> bool {
        self is Static || self.title() != title || self.body() != body
    }

    /// The same dynamic contents with a title and a body put in, or new ones
    /// where they were static.
    pub open spec fn with(self, title: Seq<char>, body: Seq<char>) -> ContentView {
        ContentView::Dynamic { title, body, updates: self.channel() }
    }

    /// The contents after a title and a body were set: the clients are told if
    /// it made a difference.
    pub open spec fn set(
        self,
        title: Seq<char>,
        body: Seq<char>,
        mode: RefreshMode,
    ) -> ContentView {
        if self.differs(title, body) {
            self.with(title, body).refresh(mode)
        } else {
            self
        }
    }
}

/// The data of the message that tells a browser the contents of a page.
///
/// It fits on one line, whichever way lines end, and no other title, body or flag
/// gives the same data.
pub fn set_text(title: &str, body: &str, diff: bool) -> (data: String)
    ensures
        data@ == json_object("title"@, title@, "body"@, body@, "diff"@, diff),
        data@ == set_data(title@, body@, diff),
        data@.len() > 0,
        !data@.contains('\n'),
        !data@.contains('\r'),
        forall|other_title: Seq<char>, other_body: Seq<char>, other_diff: bool|
            #[trigger] set_data(other_title, other_body, other_diff) == data@ ==> other_title
                == title@ && other_body == body@ && other_diff == diff,
{
    proof {
        reveal_strlit("title");
        reveal_strlit("body");
        reveal_strlit("diff");
        assert("body"@[0] != "diff"@[0]);
    }
    object_text("title", title, "body", body, "diff", diff)
}

/// The message that carries the given data to the clients of a page.
pub fn set_event(data: &str) -> (message: String)
    ensures
        message@ == event_text(None, "set"@, data@),
{
    event("set", data)
}

/// The message that tells a browser to refresh its copy of a page.
///
/// Contents are told in a single `data` field, and no other contents read the
/// same. No message holds a carriage return.
pub fn refresh_text(title: &str, body: &str, mode: RefreshMode) -> (message: String)
    ensures
        message@ == refresh_message(title@, body@, mode),
        mode == RefreshMode::FullReload ==> message@ == event_text(None, "refresh"@, "."@),
        mode != RefreshMode::FullReload ==> message@ == event_text(
            None,
            "set"@,
            json_object("title"@, title@, "body"@, body@, "diff"@, mode == RefreshMode::Diff),
        ),
        !message@.contains('\r'),
        mode != RefreshMode::FullReload ==> message@ == one_line_event(
            "set"@,
            set_data(title@, body@, mode == RefreshMode::Diff),
        ),
        mode != RefreshMode::FullReload ==> forall|
            other_title: Seq<char>,
            other_body: Seq<char>,
            other_diff: bool,
        |
            one_line_event("set"@, #[trigger] set_data(other_title, other_body, other_diff))
                == message@ ==> other_title == title@ && other_body == body@ && other_diff == (mode
                == RefreshMode::Diff),
{
    proof {
        reveal_strlit("refresh");
        reveal_strlit(".");
        reveal_strlit("set");
        law_event_holds_no_return(None, "refresh"@, "."@);
    }
    match mode {
        RefreshMode::FullReload => event("refresh", "."),
        RefreshMode::SetBody | RefreshMode::Diff => {
            let data = set_text(title, body, mode == RefreshMode::Diff);
            proof {
                lemma_single_line(data@);
                law_event_holds_no_return(None, "set"@, data@);
                assert forall|other: Seq<char>|
                    #![trigger one_line_event("set"@, other)]
                    one_line_event("set"@, other) == one_line_event("set"@, data@) implies other
                    == data@ by {
                    lemma_one_line_event_determines_data("set"@, other, data@);
                }
            }
            set_event(&data)
        },
    }
}

/// Sends a new total set of subscriptions, as JSON, to the page, so that it can
/// update its event hooks.
///
/// Messages get lost if the subscriptions of a page are set to anything but a
/// total that comes from its subscribers.
pub(crate) fn set_subscriptions(updates: &mut Updates, subscription: &str)
    ensures
        final(updates)@ == old(updates)@.tell(subscribe_message(subscription@)),
        final(updates)@.told == old(updates)@.told.push(
            event_text(None, "subscribe"@, subscription@),
        ),
        old(updates).reached().is_prefix_of(final(updates).reached()),
{
    let _ = updates.tell(event("subscribe", subscription));
}

impl Content {
    /// How many clients each message of the page reached, the oldest first.
    pub open spec fn reached(self) -> Seq<nat> {
        match self {
            Content::Dynamic { updates, .. } => updates.reached(),
            Content::Static { .. } => Seq::empty(),
        }
    }

    /// How many clients the page had each time that they were counted, the oldest
    /// first.
    pub open spec fn counted(self) -> Seq<nat> {
        match self {
            Content::Dynamic { updates, .. } => updates.counted(),
            Content::Static { .. } => Seq::empty(),
        }
    }

    /// Makes a new empty (dynamic) page.
    pub fn new() -> (content: Content)
        ensures
            content@ == ContentView::new(),
            content.reached() == Seq::<nat>::empty(),
            content.counted() == Seq::<nat>::empty(),
    {
        Content::Dynamic {
            title: String::new(),
            body: String::new(),
            updates: Updates::open(),
        }
    }

    /// Tests if this page is empty, where "empty" means that it is dynamic, with
    /// an empty title, an empty body, and nobody viewing it: that is, it is
    /// identical to [`Content::new`].
    ///
    /// The clients of a dynamic page are counted for it. A page that never had a
    /// client has none; after that it depends on who is still connected.
    pub fn is_empty(&mut self) -> (empty: bool)
        ensures
            final(self)@ == old(self)@,
            empty ==> old(self)@.is_blank(),
            old(self)@.title().len() > 0 || old(self)@.body().len() > 0 ==> !empty,
            old(self)@.is_blank() && old(self)@.clients() == 0 ==> empty,
            old(self)@ is Dynamic ==> {
                let counted = final(self).counted();
                &&& counted.len() == old(self).counted().len() + 1
                &&& counted.drop_last() == old(self).counted()
                &&& empty == (old(self)@.is_blank() && counted.last() == 0)
            },
    {
        let receivers = self.receiver_count();
        self.is_empty_with(receivers)
    }

    /// Counts the clients that are still there.
    pub(crate) fn receiver_count(&mut self) -> (receivers: usize)
        ensures
            final(self)@ == old(self)@,
            receivers <= old(self)@.clients(),
            old(self)@ is Dynamic ==> final(self).counted() == old(self).counted().push(
                receivers as nat,
            ),
    {
        match self {
            Content::Dynamic { updates, .. } => updates.receiver_count(),
            Content::Static { .. } => 0,
        }
    }

    /// Tests if this page is empty when so many are viewing it.
    pub fn is_empty_with(&self, receivers: usize) -> (empty: bool)
        ensures
            empty == (self@.is_blank() && receivers == 0),
            empty == (self@ is Dynamic && self@.title().len() == 0 && self@.body().len() == 0
                && receivers == 0),
    {
        match self {
            Content::Dynamic { title, body, .. } => {
                title.as_str().is_empty() && body.as_str().is_empty() && receivers == 0
            },
            Content::Static { .. } => false,
        }
    }

    /// Adds a client to the page, if it is dynamic, and returns the stream to
    /// give to the new client. If the page is static, this has no effect and
    /// returns `None`.
    ///
    /// The page is refreshed after the stream was opened, so the new client gets
    /// the current contents first.
    pub fn update_stream(&mut self) -> (stream: Option<Body>)
        ensures
            stream is Some == old(self)@ is Dynamic,
            stream matches Some(stream) ==> is_opened_on(stream, old(self)@.channel()),
            final(self)@ == old(self)@.join().refresh(RefreshMode::Diff),
    {
        let stream = match self {
            Content::Dynamic { updates, .. } => Some(updates.subscribe()),
            Content::Static { .. } => None,
        };
        // Make sure the page is up to date.
        self.refresh(RefreshMode::Diff);
        stream
    }

    /// Sends an empty "heartbeat" message to all clients of a page, if it is
    /// dynamic, and returns the number of clients getting live updates to the
    /// page. If the page is static, this has no effect and returns `None`.
    pub fn send_heartbeat(&mut self) -> (clients: Option<usize>)
        ensures
            clients is Some == old(self)@ is Dynamic,
            clients matches Some(clients) ==> {
                &&& clients <= old(self)@.clients()
                &&& final(self).reached() == old(self).reached().push(clients as nat)
            },
            final(self)@ == old(self)@.tell(heartbeat_message()),
    {
        match self {
            Content::Dynamic { updates, .. } => Some(updates.tell(":\n\n".to_owned())),
            Content::Static { .. } => None,
        }
    }

    /// Tells all clients to refresh the contents of a page, if it is dynamic.
    /// This has no effect if it is static.
    pub fn refresh(&mut self, refresh: RefreshMode)
        ensures
            final(self)@ == old(self)@.refresh(refresh),
    {
        match self {
            Content::Dynamic { updates, title, body } => {
                let _ = updates.tell(refresh_text(title, body, refresh));
            },
            Content::Static { .. } => {},
        }
    }

    /// Tells all clients the total set of subscriptions, given as JSON, if the
    /// page is dynamic. This has no effect if it is static.
    pub fn set_subscriptions(&mut self, subscription: &str)
        ensures
            final(self)@ == old(self)@.tell(subscribe_message(subscription@)),
            old(self)@ is Dynamic ==> final(self)@.told() == old(self)@.told().push(
                event_text(None, "subscribe"@, subscription@),
            ),
            old(self).reached().is_prefix_of(final(self).reached()),
    {
        match self {
            Content::Dynamic { updates, .. } => set_subscriptions(updates, subscription),
            Content::Static { .. } => {},
        }
    }

    /// Sets the contents of the page to be a static raw set of bytes with no
    /// self-refreshing functionality. All clients are told to reload their page
    /// to get the new static content (which cannot update itself until a client
    /// reloads the page again).
    ///
    /// Returns the former contents, after its clients were told. Their streams
    /// end when it is dropped.
    pub fn set_static(&mut self, content_type: Option<String>, raw_contents: Vec<u8>) -> (former:
        Content)
        ensures
            final(self)@ == (ContentView::Static {
                content_type: text_view(content_type),
                raw_contents: raw_contents@,
            }),
            former@ == old(self)@.refresh(RefreshMode::FullReload),
    {
        let mut content = Content::Static { content_type, raw_contents };
        std::mem::swap(&mut content, self);
        content.refresh(RefreshMode::FullReload);
        content
    }

    /// Gets the content type of a page, or returns `None` if none has been set
    /// (as in the case of a dynamic page, where it is not client-configurable).
    pub fn content_type(&self) -> (content_type: Option<String>)
        ensures
            text_view(content_type) == self@.content_type(),
    {
        match self {
            Content::Dynamic { .. } => None,
            Content::Static { content_type, .. } => match content_type {
                Some(content_type) => Some(content_type.clone()),
                None => None,
            },
        }
    }

    /// Sets the title and the body of the page and tells all clients to take
    /// them up, if necessary. This converts the page into a dynamic page,
    /// overwriting any static content that previously existed. Returns `true` if
    /// the content was changed (either converted from static, or altered while
    /// dynamic).
    pub fn set(&mut self, new_title: String, new_body: String, refresh: RefreshMode) -> (changed:
        bool)
        ensures
            changed == old(self)@.differs(new_title@, new_body@),
            final(self)@ == old(self)@.set(new_title@, new_body@, refresh),
    {
        let mut changed = false;
        if let Content::Static { .. } = self {
            *self = Content::new();
            changed = true;
        }
        if let Content::Dynamic { title, body, .. } = self {
            if !new_title.eq(title) || !new_body.eq(body) {
                changed = true;
            }
            *title = new_title;
            *body = new_body;
        }
        if changed {
            self.refresh(refresh);
        }
        changed
    }

    /// Sets the title of the page and keeps its body, as [`Content::set`] does.
    pub fn set_title(&mut self, new_title: String, refresh: RefreshMode) -> (changed: bool)
        ensures
            changed == old(self)@.differs(new_title@, old(self)@.body()),
            final(self)@ == old(self)@.set(new_title@, old(self)@.body(), refresh),
    {
        let body = match self {
            Content::Dynamic { body, .. } => body.clone(),
            Content::Static { .. } => String::new(),
        };
        self.set(new_title, body, refresh)
    }

    /// Sets the body of the page and keeps its title, as [`Content::set`] does.
    pub fn set_body(&mut self, new_body: String, refresh: RefreshMode) -> (changed: bool)
        ensures
            changed == old(self)@.differs(old(self)@.title(), new_body@),
            final(self)@ == old(self)@.set(old(self)@.title(), new_body@, refresh),
    {
        let title = match self {
            Content::Dynamic { title, .. } => title.clone(),
            Content::Static { .. } => String::new(),
        };
        self.set(title, new_body, refresh)
    }
}

/// Every message that a page sends for its contents is one event by itself, where
/// lines end with line feeds.
pub proof fn law_messages_are_framed(
    title: Seq<char>,
    body: Seq<char>,
    mode: RefreshMode,
    subscription: Seq<char>,
)
    ensures
        is_framed(refresh_message(title, body, mode)),
        is_framed(subscribe_message(subscription)),
        is_framed(heartbeat_message()),
{
    reveal_strlit("refresh");
    reveal_strlit("set");
    reveal_strlit("subscribe");
    reveal_strlit(":\n\n");
    law_event_is_framed(None, "refresh"@, "."@);
    law_event_is_framed(None, "set"@, set_data(title, body, false));
    law_event_is_framed(None, "set"@, set_data(title, body, true));
    law_event_is_framed(None, "subscribe"@, subscription);
}

/// A static page tells nobody anything.
pub proof fn law_static_is_silent(content: ContentView, message: Seq<char>, mode: RefreshMode)
    requires
        content is Static,
    ensures
        content.tell(message) == content,
        content.refresh(mode) == content,
{
}

/// What was set is what the page holds: it is dynamic, with that title and body.
pub proof fn law_set_is_kept(
    content: ContentView,
    title: Seq<char>,
    body: Seq<char>,
    mode: RefreshMode,
)
    ensures
        content.set(title, body, mode) is Dynamic,
        content.set(title, body, mode).title() == title,
        content.set(title, body, mode).body() == body,
        content.set(title, body, mode).content_type() is None,
{
}

/// Setting the contents of a page tells its clients once, and only if it makes a
/// difference. The message alone tells the whole contents, so a client that
/// missed earlier ones is up to date after it.
pub proof fn law_set_tells_changes_once(
    content: ContentView,
    title: Seq<char>,
    body: Seq<char>,
    mode: RefreshMode,
)
    ensures
        content.set(title, body, mode).told() == if content.differs(title, body) {
            content.told().push(refresh_message(title, body, mode))
        } else {
            content.told()
        },
{
}

/// Setting the same contents again changes nothing and tells nobody.
pub proof fn law_set_again_is_idle(
    content: ContentView,
    title: Seq<char>,
    body: Seq<char>,
    mode: RefreshMode,
    again: RefreshMode,
)
    ensures
        !content.set(title, body, mode).differs(title, body),
        content.set(title, body, mode).set(title, body, again) == content.set(title, body, mode),
{
}

/// A page that became dynamic again starts with a new channel, which nobody has
/// joined: all that was handed over is its new contents.
pub proof fn law_set_after_static_starts_anew(
    content: ContentView,
    title: Seq<char>,
    body: Seq<char>,
    mode: RefreshMode,
)
    requires
        content is Static,
    ensures
        content.differs(title, body),
        content.set(title, body, mode).told() == seq![refresh_message(title, body, mode)],
        content.set(title, body, mode).clients() == 0,
{
    assert(Seq::<Seq<char>>::empty().push(refresh_message(title, body, mode)) =~= seq![
        refresh_message(title, body, mode),
    ]);
}

/// Title and body are set independently: in either order the page ends with both
/// as given.
pub proof fn law_title_and_body_are_independent(
    content: ContentView,
    title: Seq<char>,
    body: Seq<char>,
    mode: RefreshMode,
)
    ensures
        ({
            let titled = content.set(title, content.body(), mode);
            let bodied = content.set(content.title(), body, mode);
            let first = titled.set(titled.title(), body, mode);
            let second = bodied.set(title, bodied.body(), mode);
            &&& first.title() == title && first.body() == body
            &&& second.title() == title && second.body() == body
        }),
{
}

/// A new client of a dynamic page, which misses what was handed over before it
/// came, gets the current contents first.
pub proof fn law_new_client_gets_contents(stream: Body, content: ContentView)
    requires
        content is Dynamic,
        is_opened_on(stream, content.channel()),
    ensures
        ({
            let after = content.join().refresh(RefreshMode::Diff);
            let later = after.told().skip(missed(stream).len() as int);
            &&& delivered(stream, later, 0) == seq![
                refresh_message(content.title(), content.body(), RefreshMode::Diff),
            ]
            &&& after.title() == content.title()
            &&& after.body() == content.body()
        }),
{
    let after = content.join().refresh(RefreshMode::Diff);
    let later = after.told().skip(missed(stream).len() as int);
    let message = refresh_message(content.title(), content.body(), RefreshMode::Diff);
    assert(later =~= seq![message]);
    assert(later.skip(0) =~= later);
}

/// Making a page static tells its clients to reload, and nothing else.
pub proof fn law_static_reloads_clients(content: ContentView)
    requires
        content is Dynamic,
    ensures
        content.refresh(RefreshMode::FullReload) == (ContentView::Dynamic {
            title: content.title(),
            body: content.body(),
            updates: content.channel().tell(reload_message()),
        }),
{
}

/// A new page is blank and never had a client, and a blank page differs from a new
/// one only in what has happened on its channel.
pub proof fn law_blank_is_new(content: ContentView)
    ensures
        ContentView::new().is_blank(),
        ContentView::new().clients() == 0,
        content.is_blank() == (content == (ContentView::Dynamic {
            title: ContentView::new().title(),
            body: ContentView::new().body(),
            updates: content.channel(),
        })),
{
    if content.is_blank() {
        assert(content.title() =~= Seq::<char>::empty());
        assert(content.body() =~= Seq::<char>::empty());
    }
}

/// The newest message always gets through, wherever the reader of a stream is: if
/// it is not behind the reader already, and nothing was handed over after it, it
/// is the next that the stream delivers.
pub proof fn law_newest_message_gets_through(
    stream: Body,
    opened_on: ContentView,
    content: ContentView,
    message: Seq<char>,
    passed: nat,
)
    requires
        is_opened_on(stream, opened_on.channel()),
        content is Dynamic,
        opened_on.told().is_prefix_of(content.told()),
        opened_on.told().len() + passed <= content.told().len(),
    ensures
        ({
            let later = content.tell(message).told().skip(missed(stream).len() as int);
            delivered(stream, later, passed) == seq![message]
        }),
{
    let later = content.tell(message).told().skip(missed(stream).len() as int);
    let unread = later.skip(passed as int);
    assert(unread.last() == message);
    assert(newest(unread, UPDATE_BUFFER_SIZE as nat) =~= seq![message]);
}

/// The newest update always gets through: if setting the contents made a
/// difference and nothing was handed over after it, those contents are the next
/// that a stream delivers, whatever was handed over before and however much of it
/// was read.
pub proof fn law_newest_update_gets_through(
    stream: Body,
    opened_on: ContentView,
    content: ContentView,
    title: Seq<char>,
    body: Seq<char>,
    mode: RefreshMode,
    passed: nat,
)
    requires
        is_opened_on(stream, opened_on.channel()),
        content is Dynamic,
        opened_on.told().is_prefix_of(content.told()),
        opened_on.told().len() + passed <= content.told().len(),
        content.differs(title, body),
    ensures
        ({
            let later = content.set(title, body, mode).told().skip(missed(stream).len() as int);
            delivered(stream, later, passed) == seq![refresh_message(title, body, mode)]
        }),
{
    let message = refresh_message(title, body, mode);
    law_newest_message_gets_through(stream, opened_on, content, message, passed);
    assert(content.set(title, body, mode).told() == content.tell(message).told());
}

} // verus!
