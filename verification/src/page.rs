//! A page: its contents, and the requests to its browsers that await answers.
use crate::channel::is_opened_on;
use crate::content::{
    heartbeat_message, law_messages_are_framed, refresh_message, subscribe_message, text_view,
    Content, ContentView, RefreshMode,
};
use crate::evaluate::{
    evaluate_message, evaluate_text, law_request_is_framed, wait_result, Duration, EvalError,
    Outcome, Wait,
};
use crate::queries::Queries;
use crate::template::{Filling, Template};
use crate::wire::{event_text, is_framed};
use hyper::body::Body;
use vstd::prelude::*;

verus! {

/// A `Page` pairs some page `Content` (either dynamic or static) with the
/// evaluations in its browsers that await their results.
///
/// Who subscribes to the events of a page is kept beside it. A method that needs
/// to know takes what the subscribers came to: a total set of subscriptions as
/// JSON, or `None` where the total did not change.
#[derive(Debug)]
pub struct Page<W> {
    content: Content,
    queries: Queries<W>,
}

/// A page as values.
pub struct PageView<W> {
    pub content: ContentView,
    pub waiting: Map<u128, W>,
}

impl<W> View for Page<W> {
    type V = PageView<W>;

    closed spec fn view(&self) -> PageView<W> {
        PageView { content: self.content@, waiting: self.queries@ }
    }
}

impl ContentView {
    /// The contents after the event that tells the clients a total set of
    /// subscriptions, if there is a new one.
    pub open spec fn subscribe(self, subscription: Option<Seq<char>>) -> ContentView {
        match subscription {
            Some(subscription) => self.tell(subscribe_message(subscription)),
            None => self,
        }
    }

    /// The document that a browser gets for the page.
    pub open spec fn render(self, template: Template, subscription: Seq<char>, debug: bool) -> Seq<
        u8,
    > {
        match self {
            ContentView::Dynamic { title, body, .. } => template.filled(
                (Filling { debug, title, subscription, body }),
            ),
            ContentView::Static { raw_contents, .. } => raw_contents,
        }
    }

    /// The contents after the page was cleared.
    pub open spec fn clear(self, no_subscription: Seq<char>) -> ContentView {
        let told = self.tell(subscribe_message(no_subscription));
        let untitled = told.set(Seq::empty(), told.body(), RefreshMode::Diff);
        untitled.set(Seq::empty(), Seq::empty(), RefreshMode::Diff)
    }

    /// What the clients of a dynamic page are handed when it is cleared: the total
    /// set of subscriptions that is left, then the contents without the title, if
    /// there was one, then the empty contents, if there was a body.
    pub open spec fn clear_messages(self, no_subscription: Seq<char>) -> Seq<Seq<char>> {
        let untitled = if self.title().len() > 0 {
            seq![refresh_message(Seq::empty(), self.body(), RefreshMode::Diff)]
        } else {
            Seq::empty()
        };
        let emptied = if self.body().len() > 0 {
            seq![refresh_message(Seq::empty(), Seq::empty(), RefreshMode::Diff)]
        } else {
            Seq::empty()
        };
        seq![subscribe_message(no_subscription)] + untitled + emptied
    }
}

impl<W> PageView<W> {
    /// The page with other contents.
    pub open spec fn with_content(self, content: ContentView) -> PageView<W> {
        PageView { content, waiting: self.waiting }
    }

    /// The page after its browsers were asked to evaluate something, with the one
    /// who waits for the result.
    pub open spec fn ask(
        self,
        id: u128,
        waiter: W,
        expression: Seq<char>,
        statement_mode: bool,
    ) -> PageView<W> {
        PageView {
            content: self.content.tell(evaluate_message(id, expression, statement_mode)),
            waiting: self.waiting.insert(id, waiter),
        }
    }

    /// The page when nobody waits for a result under an identifier any more.
    pub open spec fn release(self, id: u128) -> PageView<W> {
        PageView { content: self.content, waiting: self.waiting.remove(id) }
    }

    /// The one who waits for a result under an identifier.
    pub open spec fn waiter(self, id: u128) -> Option<W> {
        if self.waiting.contains_key(id) {
            Some(self.waiting[id])
        } else {
            None
        }
    }

    /// Whether the page is dynamic with nothing in it and no evaluation waiting.
    pub open spec fn is_blank(self) -> bool {
        self.content.is_blank() && self.waiting == Map::<u128, W>::empty()
    }
}

/// An optional text as a value.
pub open spec fn str_view(text: Option<&str>) -> Option<Seq<char>> {
    match text {
        Some(text) => Some(text@),
        None => None,
    }
}

impl<W> Page<W> {
    /// How many clients each message of the page reached, the oldest first.
    pub closed spec fn reached(self) -> Seq<nat> {
        self.content.reached()
    }

    /// How many clients the page had each time that they were counted, the oldest
    /// first.
    pub closed spec fn counted(self) -> Seq<nat> {
        self.content.counted()
    }

    /// A page is seen as its contents and its requests are.
    proof fn law_page_is_seen_as_it_is(page: Page<W>)
        ensures
            page@.content == page.content@,
            page@.waiting == page.queries@,
            page.reached() == page.content.reached(),
            page.counted() == page.content.counted(),
    {
    }

    /// Makes a new empty (dynamic) page.
    pub fn new() -> (page: Page<W>)
        ensures
            page@ == (PageView { content: ContentView::new(), waiting: Map::<u128, W>::empty() }),
            page.reached() == Seq::<nat>::empty(),
            page.counted() == Seq::<nat>::empty(),
    {
        Page { content: Content::new(), queries: Queries::new() }
    }

    /// Renders a whole page as HTML (for first page load), with the total set of
    /// subscriptions to its events. A static page is given as it is.
    pub fn render(&self, template: &Template, subscription: &str, debug: bool) -> (document: Vec<
        u8,
    >)
        ensures
            document@ == self@.content.render(*template, subscription@, debug),
    {
        match &self.content {
            Content::Dynamic { title, body, .. } => template.fill(
                debug,
                title,
                subscription,
                body,
            ),
            Content::Static { raw_contents, .. } => raw_contents.clone(),
        }
    }

    /// Takes note that another listener subscribed to the events of this page,
    /// which came to the given total set of subscriptions.
    pub fn event_stream(&mut self, total_subscription: &str)
        ensures
            final(self)@ == old(self)@.with_content(
                old(self)@.content.tell(subscribe_message(total_subscription@)),
            ),
            old(self)@.content is Dynamic ==> final(self)@.content.told()
                == old(self)@.content.told().push(
                event_text(None, "subscribe"@, total_subscription@),
            ),
    {
        self.content.set_subscriptions(total_subscription);
    }

    /// Takes note that an event was sent to all subscribers, which may have come
    /// to a new total set of subscriptions.
    pub fn send_event(&mut self, total_subscription: Option<&str>)
        ensures
            final(self)@ == old(self)@.with_content(
                old(self)@.content.subscribe(str_view(total_subscription)),
            ),
    {
        if let Some(total_subscription) = total_subscription {
            self.content.set_subscriptions(total_subscription);
        }
    }

    /// Sends an empty "heartbeat" message to all clients of a page, if it is
    /// dynamic, and then the new total set of subscriptions, if the heartbeat of
    /// the subscribers came to one. Returns the number of clients getting live
    /// updates to the page: those that the heartbeat reached. If the page is
    /// static, this has no effect and returns `None`.
    pub fn send_heartbeat(&mut self, new_subscription: Option<&str>) -> (clients: Option<usize>)
        ensures
            clients is Some == old(self)@.content is Dynamic,
            clients matches Some(clients) ==> {
                &&& clients <= old(self)@.content.clients()
                &&& old(self).reached().push(clients as nat).is_prefix_of(final(self).reached())
            },
            final(self)@ == old(self)@.with_content(
                old(self)@.content.tell(heartbeat_message()).subscribe(str_view(new_subscription)),
            ),
    {
        let clients = self.content.send_heartbeat();
        if let Some(total_subscription) = new_subscription {
            self.content.set_subscriptions(total_subscription);
        }
        clients
    }

    /// Asks the browsers viewing the page to evaluate a given piece of
    /// JavaScript, as either an expression or a statement, with an optional
    /// explicit timeout, and keeps the one who waits for the result under the
    /// given identifier.
    ///
    /// Fails at once on a static page, and on one that nobody is viewing: when the
    /// request reached no client. In that case nobody is kept waiting. How many a
    /// request reaches depends on who is connected; a page that never had a client
    /// reaches none.
    pub fn evaluate(
        &mut self,
        id: u128,
        waiter: W,
        expression: &str,
        statement_mode: bool,
        timeout: Option<Duration>,
    ) -> (result: Result<Wait, EvalError>)
        ensures
            old(self)@.content is Static ==> result == Err::<Wait, EvalError>(EvalError::StaticPage)
                && final(self)@ == old(self)@,
            old(self)@.content is Dynamic ==> {
                let asked = old(self)@.ask(id, waiter, expression@, statement_mode);
                match result {
                    Ok(wait) => wait == Wait::of(id, timeout) && final(self)@ == asked,
                    Err(error) => error == EvalError::NoBrowser && final(self)@ == asked.release(
                        id,
                    ),
                }
            },
            old(self)@.content is Dynamic ==> {
                let reached = final(self).reached();
                &&& reached.len() == old(self).reached().len() + 1
                &&& reached.drop_last() == old(self).reached()
                &&& reached.last() <= old(self)@.content.clients()
                &&& result is Ok == (reached.last() > 0)
            },
    {
        match &mut self.content {
            Content::Dynamic { updates, .. } => {
                self.queries.request(id, waiter);
                let clients = updates.tell(evaluate_text(id, expression, statement_mode));
                self.await_result(id, timeout, clients)
            },
            Content::Static { .. } => Err(EvalError::StaticPage),
        }
    }

    /// Decides whether to wait for the result of an evaluation that reached so
    /// many clients. If nobody is listening, the evaluation is given up.
    pub fn await_result(&mut self, id: u128, timeout: Option<Duration>, clients: usize) -> (result:
        Result<Wait, EvalError>)
        ensures
            clients == 0 ==> result == Err::<Wait, EvalError>(EvalError::NoBrowser)
                && final(self)@ == old(self)@.release(id),
            clients > 0 ==> result == Ok::<Wait, EvalError>(Wait::of(id, timeout)) && final(self)@
                == old(self)@,
            final(self).reached() == old(self).reached(),
    {
        if clients == 0 {
            self.queries.cancel(id);
            Err(EvalError::NoBrowser)
        } else {
            Ok(Wait::new(id, timeout))
        }
    }

    /// Ends the wait for the result of an evaluation. If the time is up, the
    /// evaluation is given up.
    pub fn finish<V>(&mut self, wait: Wait, outcome: Outcome<V>) -> (result: Result<V, EvalError>)
        ensures
            result == wait_result(wait, outcome),
            final(self)@ == (if outcome is TimedOut {
                old(self)@.release(wait.id)
            } else {
                old(self)@
            }),
    {
        match outcome {
            Outcome::TimedOut => {
                self.queries.cancel(wait.id);
                Err(EvalError::Timeout { duration: wait.duration, was_custom: wait.was_custom })
            },
            Outcome::Dropped => Err(EvalError::NoResponsePossible),
            Outcome::Answer(Ok(value)) => Ok(value),
            Outcome::Answer(Err(exception)) => Err(EvalError::JsError(exception)),
        }
    }

    /// Takes out the one who waits for the result of some evaluation, to be
    /// notified of it. Returns `None` if nobody waits for it (any more).
    pub fn send_evaluate_result(&mut self, id: u128) -> (waiter: Option<W>)
        ensures
            waiter == old(self)@.waiter(id),
            final(self)@ == old(self)@.release(id),
    {
        self.queries.respond(id)
    }

    /// Tests if this page is dynamic.
    pub fn is_dynamic(&self) -> (dynamic: bool)
        ensures
            dynamic == self@.content is Dynamic,
    {
        match &self.content {
            Content::Dynamic { .. } => true,
            Content::Static { .. } => false,
        }
    }

    /// Tests if this page is empty, where "empty" means that it is dynamic, with
    /// an empty title, an empty body, nobody viewing it or waiting for an
    /// evaluation in it, and no subscribers to its events: that is, it is
    /// identical to [`Page::new`].
    ///
    /// The clients of a dynamic page are counted for it. A page that never had a
    /// client has none; after that it depends on who is still connected.
    pub fn is_empty(&mut self, subscribers_empty: bool) -> (empty: bool)
        ensures
            final(self)@ == old(self)@,
            empty ==> old(self)@.is_blank() && subscribers_empty,
            old(self)@.content.title().len() > 0 || old(self)@.content.body().len() > 0 ==> !empty,
            old(self)@.is_blank() && old(self)@.content.clients() == 0 && subscribers_empty
                ==> empty,
            old(self)@.content is Dynamic ==> {
                let counted = final(self).counted();
                &&& counted.len() == old(self).counted().len() + 1
                &&& counted.drop_last() == old(self).counted()
                &&& empty == (old(self)@.is_blank() && counted.last() == 0 && subscribers_empty)
            },
    {
        let receivers = self.content.receiver_count();
        self.is_empty_with(receivers, subscribers_empty)
    }

    /// Tests if this page is empty when so many are viewing it.
    pub fn is_empty_with(&self, receivers: usize, subscribers_empty: bool) -> (empty: bool)
        ensures
            empty == (self@.is_blank() && receivers == 0 && subscribers_empty),
            empty == (self@.content is Dynamic && self@.content.title().len() == 0
                && self@.content.body().len() == 0 && self@.waiting == Map::<u128, W>::empty()
                && receivers == 0 && subscribers_empty),
    {
        self.content.is_empty_with(receivers) && subscribers_empty && self.queries.is_empty()
    }

    /// Adds a client to the page, if it is dynamic, and returns the stream to
    /// give to the new client, which gets the current contents first. If the page
    /// is static, this has no effect and returns `None`.
    pub fn update_stream(&mut self) -> (stream: Option<Body>)
        ensures
            stream is Some == old(self)@.content is Dynamic,
            stream matches Some(stream) ==> is_opened_on(
                stream,
                old(self)@.content.channel(),
            ),
            final(self)@ == old(self)@.with_content(
                old(self)@.content.join().refresh(RefreshMode::Diff),
            ),
    {
        self.content.update_stream()
    }

    /// Sets the contents of the page to be a static raw set of bytes with no
    /// self-refreshing functionality. All clients are told to reload their page
    /// to get the new static content (which cannot update itself until a client
    /// reloads the page again).
    ///
    /// Returns the former contents, after its clients were told. Their streams
    /// end when it is dropped.
    pub fn set_static(&mut self, content_type: Option<String>, raw_contents: Vec<u8>) -> (former:
        Content)
        ensures
            final(self)@ == old(self)@.with_content(
                (ContentView::Static {
                    content_type: text_view(content_type),
                    raw_contents: raw_contents@,
                }),
            ),
            former@ == old(self)@.content.refresh(RefreshMode::FullReload),
    {
        self.content.set_static(content_type, raw_contents)
    }

    /// Gets the content type of a page, or returns `None` if none has been set
    /// (as in the case of a dynamic page, where it is not client-configurable).
    pub fn content_type(&self) -> (content_type: Option<String>)
        ensures
            text_view(content_type) == self@.content.content_type(),
    {
        self.content.content_type()
    }

    /// Tells all clients to change the title, if necessary. This converts the
    /// page into a dynamic page, overwriting any static content that previously
    /// existed, if any.
    pub fn set_title(&mut self, new_title: String)
        ensures
            final(self)@ == old(self)@.with_content(
                old(self)@.content.set(
                    new_title@,
                    old(self)@.content.body(),
                    RefreshMode::Diff,
                ),
            ),
    {
        let _ = self.content.set_title(new_title, RefreshMode::Diff);
    }

    /// Tells all clients to change the body, if necessary. This converts the page
    /// into a dynamic page, overwriting any static content that previously
    /// existed, if any.
    pub fn set_body(&mut self, new_body: String)
        ensures
            final(self)@ == old(self)@.with_content(
                old(self)@.content.set(
                    old(self)@.content.title(),
                    new_body@,
                    RefreshMode::Diff,
                ),
            ),
    {
        let _ = self.content.set_body(new_body, RefreshMode::Diff);
    }

    /// Takes note that the subscription of an existing stream was changed, which
    /// may have come to a new total set of subscriptions. Returns `Err(())` if
    /// there was no such stream.
    pub fn change_subscription(&mut self, changed: Result<Option<&str>, ()>) -> (result: Result<
        (),
        (),
    >)
        ensures
            result is Ok == changed is Ok,
            final(self)@ == old(self)@.with_content(
                match changed {
                    Ok(new_aggregate) => old(self)@.content.subscribe(str_view(new_aggregate)),
                    Err(_) => old(self)@.content,
                },
            ),
    {
        match changed {
            Ok(Some(new_aggregate)) => {
                self.content.set_subscriptions(new_aggregate);
                Ok(())
            },
            Ok(None) => Ok(()),
            Err(()) => Err(()),
        }
    }

    /// Clears the page, resetting its title and its body to empty, after its
    /// subscribers were removed: `no_subscription` is the total set of
    /// subscriptions that is left.
    pub fn clear(&mut self, no_subscription: &str)
        ensures
            final(self)@ == old(self)@.with_content(
                old(self)@.content.clear(no_subscription@),
            ),
            old(self)@.content is Dynamic ==> final(self)@.content.told()
                == old(self)@.content.told() + old(self)@.content.clear_messages(no_subscription@),
    {
        proof {
            if self@.content is Dynamic {
                law_clear_tells_in_order(self@.content, no_subscription@);
            }
        }
        self.content.set_subscriptions(no_subscription);
        self.set_title(String::new());
        self.set_body(String::new());
    }
}

/// What a static page was set to is what it gives back: the same bytes, whatever
/// the template, and the same content type.
pub proof fn law_static_is_read_back(
    content_type: Option<Seq<char>>,
    raw_contents: Seq<u8>,
    template: Template,
    subscription: Seq<char>,
    debug: bool,
)
    ensures
        ({
            let content = ContentView::Static { content_type, raw_contents };
            &&& content.render(template, subscription, debug) == raw_contents
            &&& content.content_type() == content_type
        }),
{
}

/// What a dynamic page was set to is what is rendered, wherever the template has
/// a place for it.
pub proof fn law_set_is_rendered(
    content: ContentView,
    title: Seq<char>,
    body: Seq<char>,
    mode: RefreshMode,
    template: Template,
    subscription: Seq<char>,
    debug: bool,
)
    ensures
        content.set(title, body, mode).render(template, subscription, debug) == template.filled(
            (Filling { debug, title, subscription, body }),
        ),
{
}

/// What is handed to the clients makes no difference to what is rendered.
pub proof fn law_telling_keeps_rendering(
    content: ContentView,
    message: Seq<char>,
    template: Template,
    subscription: Seq<char>,
    debug: bool,
)
    ensures
        content.tell(message).render(template, subscription, debug) == content.render(
            template,
            subscription,
            debug,
        ),
{
}

/// A cleared page is dynamic and empty, whatever it was.
pub proof fn law_clear_is_blank(content: ContentView, no_subscription: Seq<char>)
    ensures
        content.clear(no_subscription).is_blank(),
{
}

/// Clearing a dynamic page hands its clients, in this order, the total set of
/// subscriptions that is left, and then the contents without title and without
/// body, each if it makes a difference.
pub proof fn law_clear_tells_in_order(content: ContentView, no_subscription: Seq<char>)
    requires
        content is Dynamic,
    ensures
        content.clear(no_subscription).told() == content.told() + content.clear_messages(
            no_subscription,
        ),
        content.clear(no_subscription).clients() == content.clients(),
{
    let told = content.tell(subscribe_message(no_subscription));
    let untitled = told.set(Seq::empty(), told.body(), RefreshMode::Diff);
    assert(content.title().len() == 0 ==> content.title() =~= Seq::<char>::empty());
    assert(content.body().len() == 0 ==> content.body() =~= Seq::<char>::empty());
    assert(content.clear(no_subscription).told() =~= content.told() + content.clear_messages(
        no_subscription,
    ));
}

/// Clearing a page that was just cleared tells its clients the total set of
/// subscriptions that is left, and changes nothing else.
pub proof fn law_clear_again_tells_subscriptions_only(
    content: ContentView,
    no_subscription: Seq<char>,
)
    ensures
        content.clear(no_subscription).clear(no_subscription) == content.clear(
            no_subscription,
        ).tell(subscribe_message(no_subscription)),
{
}

/// A cleared page that was static has handed over no more than its empty contents.
pub proof fn law_clear_of_static(content: ContentView, no_subscription: Seq<char>)
    requires
        content is Static,
    ensures
        content.clear(no_subscription) == ContentView::new().refresh(RefreshMode::Diff),
{
}

/// An answer reaches the one who waits for it, and nobody waits for it after
/// that. Those who wait for other answers are left alone.
pub proof fn law_answer_reaches_its_waiter<W>(
    page: PageView<W>,
    id: u128,
    waiter: W,
    expression: Seq<char>,
    statement_mode: bool,
    other: u128,
)
    ensures
        ({
            let asked = page.ask(id, waiter, expression, statement_mode);
            &&& asked.waiter(id) == Some(waiter)
            &&& asked.release(id).waiter(id) is None
            &&& other != id ==> asked.waiter(other) == page.waiter(other)
            &&& other != id ==> asked.release(id).waiter(other) == page.waiter(other)
        }),
{
}

/// An evaluation that was answered or given up leaves nobody waiting who was not
/// waiting before it.
pub proof fn law_evaluation_leaves_no_wait<W>(
    page: PageView<W>,
    id: u128,
    waiter: W,
    expression: Seq<char>,
    statement_mode: bool,
)
    requires
        page.waiter(id) is None,
    ensures
        page.ask(id, waiter, expression, statement_mode).release(id).waiting == page.waiting,
{
    assert(page.waiting.insert(id, waiter).remove(id) =~= page.waiting);
}

/// An evaluation leaves the contents of the page as they are, but for the one
/// message to its clients.
pub proof fn law_evaluation_keeps_contents<W>(
    page: PageView<W>,
    id: u128,
    waiter: W,
    expression: Seq<char>,
    statement_mode: bool,
)
    ensures
        ({
            let asked = page.ask(id, waiter, expression, statement_mode);
            &&& asked.content == page.content.tell(
                evaluate_message(id, expression, statement_mode),
            )
            &&& asked.content.title() == page.content.title()
            &&& asked.content.body() == page.content.body()
            &&& asked.release(id).content == asked.content
        }),
{
}

impl ContentView {
    /// Whether every message handed to the clients is one event by itself.
    pub open spec fn tells_events(self) -> bool {
        forall|i: int| 0 <= i < self.told().len() ==> is_framed(#[trigger] self.told()[i])
    }
}

proof fn lemma_tell_event(content: ContentView, message: Seq<char>)
    requires
        content.tells_events(),
        is_framed(message),
    ensures
        content.tell(message).tells_events(),
{
    let after = content.tell(message);
    assert forall|i: int| 0 <= i < after.told().len() implies is_framed(
        #[trigger] after.told()[i],
    ) by {
        if i < content.told().len() {
            assert(after.told()[i] == content.told()[i]);
        }
    }
}

proof fn lemma_set_tells_event(
    content: ContentView,
    title: Seq<char>,
    body: Seq<char>,
    mode: RefreshMode,
)
    requires
        content.tells_events(),
    ensures
        content.set(title, body, mode).tells_events(),
{
    let after = content.with(title, body);
    assert(after.told() == content.told());
    law_messages_are_framed(title, body, mode, Seq::empty());
    lemma_tell_event(after, refresh_message(title, body, mode));
}

/// Whatever happens to a page, its clients are only ever handed whole events, where
/// lines end with line feeds.
pub proof fn law_page_tells_events<W>(
    page: PageView<W>,
    title: Seq<char>,
    body: Seq<char>,
    mode: RefreshMode,
    subscription: Option<Seq<char>>,
    id: u128,
    waiter: W,
    expression: Seq<char>,
    statement_mode: bool,
    no_subscription: Seq<char>,
)
    requires
        page.content.tells_events(),
    ensures
        ContentView::new().tells_events(),
        page.content.refresh(mode).tells_events(),
        page.content.join().refresh(mode).tells_events(),
        page.content.set(title, body, mode).tells_events(),
        page.content.subscribe(subscription).tells_events(),
        page.content.tell(heartbeat_message()).subscribe(subscription).tells_events(),
        page.content.clear(no_subscription).tells_events(),
        page.ask(id, waiter, expression, statement_mode).content.tells_events(),
{
    let content = page.content;
    law_messages_are_framed(content.title(), content.body(), mode, no_subscription);
    lemma_tell_event(content, refresh_message(content.title(), content.body(), mode));
    assert(content.join().told() == content.told());
    lemma_tell_event(content.join(), refresh_message(content.title(), content.body(), mode));
    lemma_set_tells_event(content, title, body, mode);
    lemma_tell_event(content, heartbeat_message());
    if let Some(total) = subscription {
        law_messages_are_framed(title, body, mode, total);
        lemma_tell_event(content, subscribe_message(total));
        lemma_tell_event(content.tell(heartbeat_message()), subscribe_message(total));
    }
    let told = content.tell(subscribe_message(no_subscription));
    lemma_tell_event(content, subscribe_message(no_subscription));
    lemma_set_tells_event(told, Seq::empty(), told.body(), RefreshMode::Diff);
    let untitled = told.set(Seq::empty(), told.body(), RefreshMode::Diff);
    lemma_set_tells_event(untitled, Seq::empty(), Seq::empty(), RefreshMode::Diff);
    law_request_is_framed(id, expression, statement_mode);
    lemma_tell_event(content, evaluate_message(id, expression, statement_mode));
}

} // verus!
