//! What the operations of a page come to, said of their inputs and results.
use crate::channel::{delivered, is_opened_on, missed, newest, UpdatesView, UPDATE_BUFFER_SIZE};
use crate::content::{
    heartbeat_message, refresh_message, reload_message, set_data, subscribe_message, text_view,
    Content, ContentView, RefreshMode,
};
use crate::evaluate::{
    decimal, evaluate_message, wait_result, Duration, EvalError, Outcome, Wait,
    DEFAULT_EVAL_TIMEOUT,
};
use crate::page::{str_view, PageView};
use crate::template::{fill_parts, Filling, Part, Template};
use crate::wire::{
    data_fields, event_text, field, hex, json_object, law_event_is_readable, lines,
    one_line_event,
};
use hyper::body::Body;
use vstd::prelude::*;
use vstd::utf8::{encode_scalar, encode_utf8};

verus! {

// Server-sent events.

/// A field is its name, a colon and a space, its value, and a line feed.
pub proof fn law_field_layout(name: Seq<char>, value: Seq<char>)
    ensures
        field(name, value).len() == name.len() + value.len() + 3,
        field(name, value).take(name.len() as int) == name,
        field(name, value)[name.len() as int] == ':',
        field(name, value)[name.len() as int + 1] == ' ',
        field(name, value).skip(name.len() as int + 2).drop_last() == value,
        field(name, value).last() == '\n',
{
    assert(field(name, value).take(name.len() as int) =~= name);
    assert(field(name, value).skip(name.len() as int + 2).drop_last() =~= value);
}

/// An empty text has no lines.
pub proof fn law_empty_text_has_no_lines()
    ensures
        lines(Seq::<char>::empty()) == Seq::<Seq<char>>::empty(),
{
}

/// A text without a line feed is one line.
pub proof fn law_text_without_feed_is_a_line(text: Seq<char>)
    requires
        text.len() > 0,
        !text.contains('\n'),
    ensures
        lines(text) == seq![text],
{
    text.index_of_first_ensures('\n');
}

/// A line feed, or a carriage return with a line feed, ends a line; the lines of
/// the rest follow.
pub proof fn law_feed_ends_a_line(line: Seq<char>, rest: Seq<char>)
    requires
        !line.contains('\n'),
    ensures
        lines(line + seq!['\r', '\n'] + rest) == seq![line] + lines(rest),
        line.len() == 0 || line.last() != '\r' ==> lines(line + seq!['\n'] + rest) == seq![line]
            + lines(rest),
{
    let returned = line + seq!['\r', '\n'] + rest;
    returned.index_of_first_ensures('\n');
    assert(returned[line.len() as int + 1] == '\n');
    assert forall|j: int| 0 <= j < line.len() + 1 implies returned[j] != '\n' by {
        if j < line.len() {
            assert(returned[j] == line[j]);
            assert(line.contains(line[j]));
        }
    }
    assert(returned.contains('\n'));
    assert(returned.index_of_first('\n') == Some(line.len() as int + 1));
    assert(returned.take(line.len() as int + 1) =~= line.push('\r'));
    assert(line.push('\r').drop_last() =~= line);
    assert(returned.skip(line.len() as int + 2) =~= rest);
    let plain = line + seq!['\n'] + rest;
    plain.index_of_first_ensures('\n');
    assert(plain[line.len() as int] == '\n');
    assert forall|j: int| 0 <= j < line.len() implies plain[j] != '\n' by {
        assert(plain[j] == line[j]);
        assert(line.contains(line[j]));
    }
    assert(plain.contains('\n'));
    assert(plain.index_of_first('\n') == Some(line.len() as int));
    assert(plain.take(line.len() as int) =~= line);
    assert(plain.skip(line.len() as int + 1) =~= rest);
}

/// Lines become one `data` field each, in their order.
pub proof fn law_lines_become_data_fields(line: Seq<char>, rest: Seq<Seq<char>>)
    ensures
        data_fields(Seq::<Seq<char>>::empty()) == Seq::<char>::empty(),
        data_fields(seq![line] + rest) == seq!['d', 'a', 't', 'a', ':', ' '] + line + seq!['\n']
            + data_fields(rest),
{
    let all = seq![line] + rest;
    assert(all.drop_first() =~= rest);
    assert(field(seq!['d', 'a', 't', 'a'], line) =~= seq!['d', 'a', 't', 'a', ':', ' '] + line
        + seq!['\n']);
}

/// An event without an identifier is its type, its data, and a blank line.
pub proof fn law_event_layout(event_type: Seq<char>, data: Seq<char>)
    ensures
        event_text(None, event_type, data) == seq!['e', 'v', 'e', 'n', 't', ':', ' '] + event_type
            + seq!['\n'] + data_fields(lines(data)) + seq!['\n'],
{
    assert(event_text(None, event_type, data) =~= seq!['e', 'v', 'e', 'n', 't', ':', ' ']
        + event_type + seq!['\n'] + data_fields(lines(data)) + seq!['\n']);
}

/// An event with an identifier is the event without it, behind the identifier.
pub proof fn law_event_with_id_layout(id: Seq<char>, event_type: Seq<char>, data: Seq<char>)
    ensures
        event_text(Some(id), event_type, data) == seq!['i', 'd', ':', ' '] + id + seq!['\n']
            + event_text(None, event_type, data),
{
    assert(event_text(Some(id), event_type, data) =~= seq!['i', 'd', ':', ' '] + id + seq!['\n']
        + event_text(None, event_type, data));
}

/// An event with its data in one field is its type, the data, and a blank line.
pub proof fn law_one_line_event_layout(event_type: Seq<char>, data: Seq<char>)
    ensures
        one_line_event(event_type, data) == seq!['e', 'v', 'e', 'n', 't', ':', ' '] + event_type
            + seq!['\n', 'd', 'a', 't', 'a', ':', ' '] + data + seq!['\n', '\n'],
{
    assert(one_line_event(event_type, data) =~= seq!['e', 'v', 'e', 'n', 't', ':', ' ']
        + event_type + seq!['\n', 'd', 'a', 't', 'a', ':', ' '] + data + seq!['\n', '\n']);
}

/// One more hexadecimal digit stands for one more factor of sixteen.
pub proof fn law_hex_digits(value: nat, count: nat)
    ensures
        hex(value, 0).len() == 0,
        hex(value, count + 1).len() == hex(value / 16, count).len() + 1,
        hex(value, count + 1).drop_last() == hex(value / 16, count),
        value % 16 < 10 ==> hex(value, count + 1).last() as int == '0' as int + value % 16,
        value % 16 >= 10 ==> hex(value, count + 1).last() as int == 'a' as int + value % 16 - 10,
{
    assert(hex(value, count + 1).drop_last() =~= hex(value / 16, count));
}

// Messages of a page.

/// A request for an evaluation carries its identifier in 32 hexadecimal digits;
/// then its type, `run` for a statement and `evaluate` for an expression; then the
/// lines of the code, one `data` field each; then a blank line.
pub proof fn law_request_layout(id: u128, code: Seq<char>)
    ensures
        evaluate_message(id, code, true) == field(seq!['i', 'd'], hex(id as nat, 32)) + field(
            seq!['e', 'v', 'e', 'n', 't'],
            seq!['r', 'u', 'n'],
        ) + data_fields(lines(code)) + seq!['\n'],
        evaluate_message(id, code, false) == field(seq!['i', 'd'], hex(id as nat, 32)) + field(
            seq!['e', 'v', 'e', 'n', 't'],
            seq!['e', 'v', 'a', 'l', 'u', 'a', 't', 'e'],
        ) + data_fields(lines(code)) + seq!['\n'],
{
    reveal_strlit("run");
    reveal_strlit("evaluate");
    assert("run"@ =~= seq!['r', 'u', 'n']);
    assert("evaluate"@ =~= seq!['e', 'v', 'a', 'l', 'u', 'a', 't', 'e']);
}

/// The contents of a page are told as a JSON object whose member `title` is the
/// title, whose member `body` is the body, and whose member `diff` is the flag.
pub proof fn law_set_data_members(title: Seq<char>, body: Seq<char>, diff: bool)
    ensures
        set_data(title, body, diff) == json_object("title"@, title, "body"@, body, "diff"@, diff),
{
}

/// A message that tells the contents of a page is a `set` event with that object,
/// whose flag says whether the browser is to change its copy only where it
/// differs. A full reload is a `refresh` event, whatever the contents are.
pub proof fn law_refresh_layout(title: Seq<char>, body: Seq<char>)
    ensures
        refresh_message(title, body, RefreshMode::Diff) == event_text(
            None,
            "set"@,
            json_object("title"@, title, "body"@, body, "diff"@, true),
        ),
        refresh_message(title, body, RefreshMode::SetBody) == event_text(
            None,
            "set"@,
            json_object("title"@, title, "body"@, body, "diff"@, false),
        ),
        refresh_message(title, body, RefreshMode::FullReload) == event_text(
            None,
            "refresh"@,
            "."@,
        ),
        reload_message() == event_text(None, "refresh"@, "."@),
{
}

/// The message that tells the total set of subscriptions is a `subscribe` event
/// with the lines of that total, whatever it is.
pub proof fn law_subscribe_layout(subscription: Seq<char>)
    ensures
        subscribe_message(subscription) == field(
            seq!['e', 'v', 'e', 'n', 't'],
            seq!['s', 'u', 'b', 's', 'c', 'r', 'i', 'b', 'e'],
        ) + data_fields(lines(subscription)) + seq!['\n'],
        subscribe_message(subscription) == event_text(None, "subscribe"@, subscription),
{
    reveal_strlit("subscribe");
    assert("subscribe"@ =~= seq!['s', 'u', 'b', 's', 'c', 'r', 'i', 'b', 'e']);
    assert(subscribe_message(subscription) =~= field(
        seq!['e', 'v', 'e', 'n', 't'],
        seq!['s', 'u', 'b', 's', 'c', 'r', 'i', 'b', 'e'],
    ) + data_fields(lines(subscription)) + seq!['\n']);
}

/// A heartbeat is a comment without text, and a blank line.
pub proof fn law_heartbeat_layout()
    ensures
        heartbeat_message() == seq![':', '\n', '\n'],
{
    reveal_strlit(":\n\n");
    assert(heartbeat_message() =~= seq![':', '\n', '\n']);
}

// Contents.

/// The contents of a page are seen as they are.
pub proof fn law_contents_are_seen_as_they_are(content: Content)
    ensures
        match content {
            Content::Dynamic { title, body, updates } => {
                &&& content@ is Dynamic
                &&& content@.title() == title@
                &&& content@.body() == body@
                &&& content@.content_type() is None
                &&& content@.told() == updates@.told
                &&& content@.clients() == updates@.clients
                &&& content.reached() == updates.reached()
                &&& content.counted() == updates.counted()
            },
            Content::Static { content_type, raw_contents } => {
                &&& content@ matches ContentView::Static { raw_contents: raw, .. } && raw
                    == raw_contents@
                &&& content@.content_type() is Some == content_type is Some
                &&& content_type matches Some(content_type) ==> content@.content_type() == Some(
                    content_type@,
                )
                &&& content@.told().len() == 0
                &&& content@.clients() == 0
            },
        },
{
}

/// An optional text is there if and only if it is seen, and is seen as it is.
pub proof fn law_texts_are_seen_as_they_are(text: Option<String>, part: Option<&str>)
    ensures
        text_view(text) is Some == text is Some,
        text matches Some(text) ==> text_view(Some(text)) == Some(text@),
        str_view(part) is Some == part is Some,
        part matches Some(part) ==> str_view(Some(part)) == Some(part@),
{
}

/// What is in dynamic contents is what they were made of, and contents are empty
/// exactly when they are dynamic with neither title nor body.
pub proof fn law_dynamic_contents(
    title: Seq<char>,
    body: Seq<char>,
    told: Seq<Seq<char>>,
    clients: nat,
)
    ensures
        ({
            let updates = UpdatesView { told, clients };
            let content = ContentView::Dynamic { title, body, updates };
            &&& content.title() == title
            &&& content.body() == body
            &&& content.content_type() is None
            &&& content.told() == told
            &&& content.clients() == clients
            &&& content.channel() == updates
            &&& content.is_blank() == (title.len() == 0 && body.len() == 0)
        }),
{
}

/// Static contents have neither title nor body nor clients, and are never empty.
pub proof fn law_static_contents(content_type: Option<Seq<char>>, raw_contents: Seq<u8>)
    ensures
        ({
            let content = ContentView::Static { content_type, raw_contents };
            &&& content.title().len() == 0
            &&& content.body().len() == 0
            &&& content.content_type() == content_type
            &&& content.told().len() == 0
            &&& content.clients() == 0
            &&& !content.is_blank()
        }),
{
}

/// New contents are dynamic, with neither title nor body, nothing handed over, and
/// no clients so far.
pub proof fn law_new_contents()
    ensures
        ContentView::new() is Dynamic,
        ContentView::new().title().len() == 0,
        ContentView::new().body().len() == 0,
        ContentView::new().told().len() == 0,
        ContentView::new().clients() == 0,
{
}

/// A message joins those that were handed to the clients of a dynamic page before
/// it, and nothing else changes.
pub proof fn law_message_joins_the_others(content: ContentView, message: Seq<char>)
    requires
        content is Dynamic,
    ensures
        ({
            let after = content.tell(message);
            &&& after is Dynamic
            &&& after.told() == content.told().push(message)
            &&& after.title() == content.title()
            &&& after.body() == content.body()
            &&& after.clients() == content.clients()
        }),
{
}

/// A client that joins a dynamic page is one more, and nothing else changes.
pub proof fn law_client_is_one_more(content: ContentView)
    requires
        content is Dynamic,
    ensures
        ({
            let after = content.join();
            &&& after is Dynamic
            &&& after.clients() == content.clients() + 1
            &&& after.told() == content.told()
            &&& after.title() == content.title()
            &&& after.body() == content.body()
        }),
{
}

/// A static page takes no clients.
pub proof fn law_static_takes_no_clients(content: ContentView)
    requires
        content is Static,
    ensures
        content.join() == content,
{
}

/// Refreshing a dynamic page hands over one message, which tells its own title and
/// body, and changes nothing else.
pub proof fn law_refresh_tells_the_contents(content: ContentView, diff: bool)
    requires
        content is Dynamic,
    ensures
        ({
            let mode = if diff {
                RefreshMode::Diff
            } else {
                RefreshMode::SetBody
            };
            let after = content.refresh(mode);
            &&& after.told() == content.told().push(
                event_text(
                    None,
                    "set"@,
                    json_object("title"@, content.title(), "body"@, content.body(), "diff"@, diff),
                ),
            )
            &&& after is Dynamic
            &&& after.title() == content.title()
            &&& after.body() == content.body()
            &&& after.clients() == content.clients()
        }),
        ({
            let after = content.refresh(RefreshMode::FullReload);
            &&& after.told() == content.told().push(event_text(None, "refresh"@, "."@))
            &&& after is Dynamic
            &&& after.title() == content.title()
            &&& after.body() == content.body()
            &&& after.clients() == content.clients()
        }),
{
}

/// Setting contents makes a difference exactly when the page was static, or had
/// another title, or had another body.
pub proof fn law_what_makes_a_difference(content: ContentView, title: Seq<char>, body: Seq<char>)
    ensures
        content is Static ==> content.differs(title, body),
        content is Dynamic ==> content.differs(title, body) == !(content.title() == title
            && content.body() == body),
{
}

/// Setting contents leaves a dynamic page with that title and body and with its
/// clients, and hands over the new title and body if one of them is new.
pub proof fn law_set_tells_the_new_contents(
    content: ContentView,
    title: Seq<char>,
    body: Seq<char>,
    diff: bool,
)
    ensures
        ({
            let mode = if diff {
                RefreshMode::Diff
            } else {
                RefreshMode::SetBody
            };
            let after = content.set(title, body, mode);
            let message = event_text(
                None,
                "set"@,
                json_object("title"@, title, "body"@, body, "diff"@, diff),
            );
            &&& after is Dynamic
            &&& after.title() == title
            &&& after.body() == body
            &&& after.clients() == content.clients()
            &&& content is Dynamic && content.title() == title && content.body() == body
                ==> after.told() == content.told()
            &&& content is Dynamic && !(content.title() == title && content.body() == body)
                ==> after.told() == content.told().push(message)
            &&& content is Static ==> after.told() == seq![message]
        }),
{
    let mode = if diff {
        RefreshMode::Diff
    } else {
        RefreshMode::SetBody
    };
    let message = refresh_message(title, body, mode);
    if content is Static {
        assert(Seq::<Seq<char>>::empty().push(message) =~= seq![message]);
    }
}

/// Setting contents to be taken up by a full reload leaves them with that title
/// and body too, and hands over that the page is to be loaded again, if one of
/// them is new.
pub proof fn law_set_with_reload(content: ContentView, title: Seq<char>, body: Seq<char>)
    ensures
        ({
            let after = content.set(title, body, RefreshMode::FullReload);
            &&& after is Dynamic
            &&& after.title() == title
            &&& after.body() == body
            &&& after.clients() == content.clients()
            &&& content is Dynamic && content.title() == title && content.body() == body
                ==> after.told() == content.told()
            &&& content is Static || !(content.title() == title && content.body() == body)
                ==> after.told() == content.told().push(event_text(None, "refresh"@, "."@))
        }),
{
}

// The page.

/// A page is empty, but for who is connected, exactly when it is dynamic, has
/// neither title nor body, and nobody waits for an evaluation in it.
pub proof fn law_blank_page<W>(page: PageView<W>)
    ensures
        page.is_blank() == (page.content is Dynamic && page.content.title().len() == 0
            && page.content.body().len() == 0 && page.waiting == Map::<u128, W>::empty()),
{
}

/// Other contents leave those who wait alone.
pub proof fn law_contents_leave_waiters_alone<W>(page: PageView<W>, content: ContentView)
    ensures
        page.with_content(content).content == content,
        page.with_content(content).waiting == page.waiting,
{
}

/// Asking for an evaluation in a dynamic page hands over one message, with the
/// identifier, the type and the lines of the code, and keeps the waiter under that
/// identifier.
pub proof fn law_asking_hands_over_the_code<W>(
    page: PageView<W>,
    id: u128,
    waiter: W,
    code: Seq<char>,
    statement_mode: bool,
)
    requires
        page.content is Dynamic,
    ensures
        ({
            let after = page.ask(id, waiter, code, statement_mode);
            let event_type = if statement_mode {
                "run"@
            } else {
                "evaluate"@
            };
            &&& after.content.told() == page.content.told().push(
                event_text(Some(hex(id as nat, 32)), event_type, code),
            )
            &&& after.content is Dynamic
            &&& after.content.title() == page.content.title()
            &&& after.content.body() == page.content.body()
            &&& after.content.clients() == page.content.clients()
            &&& after.waiting == page.waiting.insert(id, waiter)
        }),
{
}

/// Whoever waits under an identifier is found there, is not found there after
/// being released, and is the only one to be released.
pub proof fn law_waiters<W>(page: PageView<W>, id: u128)
    ensures
        page.waiter(id) is Some == page.waiting.contains_key(id),
        page.waiting.contains_key(id) ==> page.waiter(id) == Some(page.waiting[id]),
        page.release(id).waiting == page.waiting.remove(id),
        page.release(id).content == page.content,
{
}

/// A new total set of subscriptions is handed over as a `subscribe` event with its
/// lines, whatever it is; without one nothing happens.
pub proof fn law_new_total_is_handed_over(content: ContentView, subscription: Seq<char>)
    requires
        content is Dynamic,
    ensures
        content.subscribe(None) == content,
        content.subscribe(Some(subscription)).told() == content.told().push(
            event_text(None, "subscribe"@, subscription),
        ),
        content.subscribe(Some(subscription)) is Dynamic,
        content.subscribe(Some(subscription)).title() == content.title(),
        content.subscribe(Some(subscription)).body() == content.body(),
        content.subscribe(Some(subscription)).clients() == content.clients(),
{
}

/// A static page is told no totals.
pub proof fn law_static_is_told_no_totals(content: ContentView, subscription: Option<Seq<char>>)
    requires
        content is Static,
    ensures
        content.subscribe(subscription) == content,
{
}

/// Two totals that differ in their lines are told in different messages.
pub proof fn law_totals_are_told_apart(first: Seq<char>, second: Seq<char>)
    requires
        subscribe_message(first) == subscribe_message(second),
    ensures
        lines(first) == lines(second),
{
    reveal_strlit("subscribe");
    let id = Seq::<char>::empty();
    law_event_with_id_layout(id, "subscribe"@, first);
    law_event_with_id_layout(id, "subscribe"@, second);
    law_event_is_readable(id, "subscribe"@, first, id, "subscribe"@, second);
}

/// Clearing a dynamic page hands over the total set of subscriptions that is left;
/// then the contents without the title, if there was one; then the empty contents,
/// if there was a body. It leaves the page without title and body, and its clients
/// where they are.
pub proof fn law_clear_hands_over(content: ContentView, no_subscription: Seq<char>)
    requires
        content is Dynamic,
    ensures
        ({
            let after = content.clear(no_subscription);
            let nothing = Seq::<char>::empty();
            let total = content.told().push(event_text(None, "subscribe"@, no_subscription));
            let untitled = if content.title().len() > 0 {
                total.push(
                    event_text(
                        None,
                        "set"@,
                        json_object("title"@, nothing, "body"@, content.body(), "diff"@, true),
                    ),
                )
            } else {
                total
            };
            let emptied = if content.body().len() > 0 {
                untitled.push(
                    event_text(
                        None,
                        "set"@,
                        json_object("title"@, nothing, "body"@, nothing, "diff"@, true),
                    ),
                )
            } else {
                untitled
            };
            &&& after.told() == emptied
            &&& after is Dynamic
            &&& after.title().len() == 0
            &&& after.body().len() == 0
            &&& after.clients() == content.clients()
        }),
{
    assert(content.title().len() == 0 ==> content.title() =~= Seq::<char>::empty());
    assert(content.body().len() == 0 ==> content.body() =~= Seq::<char>::empty());
}

/// Clearing a static page leaves a dynamic one without title and body, to which
/// its empty contents have been handed over and nobody has come.
pub proof fn law_clear_of_static_hands_over(content: ContentView, no_subscription: Seq<char>)
    requires
        content is Static,
    ensures
        ({
            let after = content.clear(no_subscription);
            let nothing = Seq::<char>::empty();
            &&& after.told() == seq![
                event_text(
                    None,
                    "set"@,
                    json_object("title"@, nothing, "body"@, nothing, "diff"@, true),
                ),
            ]
            &&& after is Dynamic
            &&& after.title().len() == 0
            &&& after.body().len() == 0
            &&& after.clients() == 0
        }),
{
    let after = content.clear(no_subscription);
    assert(after.told() =~= seq![after.told()[0]]);
}

// Rendering.

proof fn lemma_encode_concat(first: Seq<char>, second: Seq<char>)
    ensures
        encode_utf8(first + second) == encode_utf8(first) + encode_utf8(second),
    decreases first.len(),
{
    let both = first + second;
    if first.len() == 0 {
        assert(both =~= second);
        assert(encode_utf8(first) + encode_utf8(second) =~= encode_utf8(second));
    } else {
        let rest = first.drop_first();
        lemma_encode_concat(rest, second);
        assert(both.drop_first() =~= rest + second);
        assert(encode_scalar(first[0] as u32) + (encode_utf8(rest) + encode_utf8(second))
            =~= encode_scalar(first[0] as u32) + encode_utf8(rest) + encode_utf8(second));
    }
}

proof fn lemma_fill_parts_concat(first: Seq<Part>, second: Seq<Part>, filling: Filling)
    ensures
        fill_parts(first + second, filling) == fill_parts(first, filling) + fill_parts(
            second,
            filling,
        ),
    decreases second.len(),
{
    let both = first + second;
    if second.len() == 0 {
        assert(both =~= first);
        assert(fill_parts(first, filling) + fill_parts(second, filling) =~= fill_parts(
            first,
            filling,
        ));
    } else {
        lemma_fill_parts_concat(first, second.drop_last(), filling);
        assert(both.drop_last() =~= first + second.drop_last());
        assert(both.last() == second.last());
        assert(fill_parts(first, filling) + (fill_parts(second.drop_last(), filling)
            + second.last().fill(filling)) =~= fill_parts(first, filling) + fill_parts(
            second.drop_last(),
            filling,
        ) + second.last().fill(filling));
    }
}

proof fn lemma_single_part(parts: Seq<Part>, filling: Filling)
    requires
        parts.len() == 1,
    ensures
        fill_parts(parts, filling) == parts[0].fill(filling),
{
    reveal_with_fuel(fill_parts, 2);
    assert(fill_parts(parts, filling) =~= parts[0].fill(filling));
}

/// A template of one piece renders a dynamic page as that piece alone: a text as
/// it stands, the title, the body or the subscriptions as they are, or the flag.
pub proof fn law_piece_is_rendered_as_it_is(
    content: ContentView,
    template: Template,
    subscription: Seq<char>,
    debug: bool,
)
    requires
        content is Dynamic,
        template.parts@.len() == 1,
    ensures
        ({
            let document = content.render(template, subscription, debug);
            match template.parts@[0] {
                Part::Text(text) => document == encode_utf8(text@),
                Part::Title => document == encode_utf8(content.title()),
                Part::Body => document == encode_utf8(content.body()),
                Part::Subscription => document == encode_utf8(subscription),
                Part::Debug => document == if debug {
                    encode_utf8(seq!['t', 'r', 'u', 'e'])
                } else {
                    encode_utf8(seq!['f', 'a', 'l', 's', 'e'])
                },
            }
        }),
{
    let filling = Filling {
        debug,
        title: content.title(),
        subscription,
        body: content.body(),
    };
    lemma_single_part(template.parts@, filling);
    reveal_strlit("true");
    reveal_strlit("false");
    assert("true"@ =~= seq!['t', 'r', 'u', 'e']);
    assert("false"@ =~= seq!['f', 'a', 'l', 's', 'e']);
}

/// A template that is two others, one after the other, renders a dynamic page as
/// the two do, one after the other. One without pieces renders it as nothing.
pub proof fn law_pieces_are_rendered_in_order(
    content: ContentView,
    first: Template,
    second: Template,
    both: Template,
    subscription: Seq<char>,
    debug: bool,
)
    requires
        content is Dynamic,
        both.parts@ == first.parts@ + second.parts@,
    ensures
        content.render(both, subscription, debug) == content.render(first, subscription, debug)
            + content.render(second, subscription, debug),
        first.parts@.len() == 0 ==> content.render(first, subscription, debug).len() == 0,
{
    let filling = Filling {
        debug,
        title: content.title(),
        subscription,
        body: content.body(),
    };
    lemma_fill_parts_concat(first.parts@, second.parts@, filling);
    lemma_encode_concat(fill_parts(first.parts@, filling), fill_parts(second.parts@, filling));
}

/// A template is filled as a dynamic page with that title and body is rendered.
pub proof fn law_filling_is_rendering(
    template: Template,
    filling: Filling,
    content: ContentView,
)
    requires
        content is Dynamic,
        content.title() == filling.title,
        content.body() == filling.body,
    ensures
        template.filled(filling) == content.render(template, filling.subscription, filling.debug),
{
}

/// A static page is rendered as its bytes, whatever the template is.
pub proof fn law_static_is_rendered_as_it_is(
    content: ContentView,
    template: Template,
    subscription: Seq<char>,
    debug: bool,
)
    ensures
        content matches ContentView::Static { raw_contents, .. } ==> content.render(
            template,
            subscription,
            debug,
        ) == raw_contents,
{
}

// Evaluations.

/// How each error reads.
pub proof fn law_errors_read_so(duration: Duration, exception: String)
    ensures
        EvalError::NoBrowser.message() == "No browser is currently viewing the page"@,
        EvalError::StaticPage.message() == "The page is static, which means it cannot run scripts"@,
        EvalError::NoResponsePossible.message() == "Internal error: page handle dropped"@,
        (EvalError::Timeout { duration, was_custom: true }).message()
            == "Exceeded custom timeout of "@ + decimal(
            (duration.secs * 1000 + duration.nanos / 1_000_000) as nat,
        ) + "ms"@,
        (EvalError::Timeout { duration, was_custom: false }).message()
            == "Exceeded default timeout of "@ + decimal(
            (duration.secs * 1000 + duration.nanos / 1_000_000) as nat,
        ) + "ms"@,
        EvalError::JsError(exception).message() == "Exception: "@ + exception@,
{
}

/// A number below ten is one digit. Any other is the digits of its tenth part, and
/// then the digit that is left.
pub proof fn law_decimal_digits(value: nat)
    ensures
        value < 10 ==> decimal(value).len() == 1 && decimal(value)[0] as int == '0' as int + value,
        value >= 10 ==> {
            &&& decimal(value).len() == decimal(value / 10).len() + 1
            &&& decimal(value).drop_last() == decimal(value / 10)
            &&& decimal(value).last() as int == '0' as int + value % 10
        },
{
    if value >= 10 {
        assert(decimal(value).drop_last() =~= decimal(value / 10));
    }
}

/// A span of so many milliseconds lasts exactly as long, and is written with less
/// than a second of nanoseconds.
pub proof fn law_millis_are_kept(millis: u64)
    ensures
        Duration::of_millis(millis as nat).millis() == millis,
        Duration::of_millis(millis as nat).secs == millis / 1000,
        Duration::of_millis(millis as nat).nanos == millis % 1000 * 1_000_000,
{
}

/// A span lasts its seconds and the whole milliseconds of its nanoseconds.
pub proof fn law_millis_of_a_span(duration: Duration)
    ensures
        duration.millis() == duration.secs * 1000 + duration.nanos / 1_000_000,
{
}

/// A request is waited for under its own identifier: as long as its caller chose,
/// or else for one second.
pub proof fn law_how_long_to_wait(id: u128, duration: Duration)
    ensures
        Wait::of(id, Some(duration)) == (Wait { id, duration, was_custom: true }),
        Wait::of(id, None) == (Wait {
            id,
            duration: Duration { secs: 1, nanos: 0 },
            was_custom: false,
        }),
        DEFAULT_EVAL_TIMEOUT == 1000,
{
}

/// How each end of a wait comes out.
pub proof fn law_how_a_wait_ends<V>(wait: Wait, value: V, exception: String)
    ensures
        wait_result(wait, Outcome::<V>::TimedOut) == Err::<V, EvalError>(
            EvalError::Timeout { duration: wait.duration, was_custom: wait.was_custom },
        ),
        wait_result(wait, Outcome::<V>::Dropped) == Err::<V, EvalError>(
            EvalError::NoResponsePossible,
        ),
        wait_result(wait, Outcome::<V>::Answer(Ok(value))) == Ok::<V, EvalError>(value),
        wait_result(wait, Outcome::<V>::Answer(Err(exception))) == Err::<V, EvalError>(
            EvalError::JsError(exception),
        ),
{
}

// Streams.

/// A stream misses exactly what was handed over before it was opened. Of what is
/// handed over later it delivers, to a reader that has passed all but the newest,
/// the newest, and to one that has passed everything, nothing.
pub proof fn law_stream_delivers_what_comes_later(
    stream: Body,
    channel: UpdatesView,
    later: Seq<Seq<char>>,
    message: Seq<char>,
)
    requires
        is_opened_on(stream, channel),
    ensures
        missed(stream) == channel.told,
        forall|passed: nat|
            passed <= later.len() ==> #[trigger] delivered(stream, later.push(message), passed)
                == seq![message],
        delivered(stream, later, later.len()).len() == 0,
        UPDATE_BUFFER_SIZE == 1,
{
    assert forall|passed: nat| passed <= later.len() implies #[trigger] delivered(
        stream,
        later.push(message),
        passed,
    ) == seq![message] by {
        let unread = later.push(message).skip(passed as int);
        assert(unread.last() == message);
        assert(newest(unread, 1) =~= seq![message]);
    }
    assert(later.skip(later.len() as int) =~= Seq::<Seq<char>>::empty());
}

/// A new channel has had no messages and no clients. One more message or client
/// changes nothing else.
pub proof fn law_channel(channel: UpdatesView, message: Seq<char>)
    ensures
        UpdatesView::new().told.len() == 0,
        UpdatesView::new().clients == 0,
        channel.tell(message).told == channel.told.push(message),
        channel.tell(message).clients == channel.clients,
        channel.join().told == channel.told,
        channel.join().clients == channel.clients + 1,
{
}

} // verus!
