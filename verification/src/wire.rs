//! What a page puts on the wire: server-sent events, and the texts inside them.
use hyper_usse::EventBuilder;
use serde_json::{Map as JsonObject, Value};
use uuid::Uuid;
use vstd::prelude::*;

verus! {

/// A line without the carriage return that stood before its line feed.
pub open spec fn without_return(line: Seq<char>) -> Seq<char> {
    if line.len() > 0 && line.last() == '\r' {
        line.drop_last()
    } else {
        line
    }
}

/// The lines of a text, without their endings: a line ends with a line feed, or
/// with a carriage return and a line feed, or at the end of a non-empty rest.
pub open spec fn lines(text: Seq<char>) -> Seq<Seq<char>>
    decreases text.len(),
{
    if text.len() == 0 {
        Seq::empty()
    } else {
        match text.index_of_first('\n') {
            Some(end) => {
                proof {
                    text.index_of_first_ensures('\n');
                }
                seq![without_return(text.take(end))] + lines(text.skip(end + 1))
            },
            None => seq![text],
        }
    }
}

/// One field of a server-sent event, with its line feed.
pub open spec fn field(name: Seq<char>, value: Seq<char>) -> Seq<char> {
    name + seq![':', ' '] + value + seq!['\n']
}

/// A `data` field for each of the lines.
pub open spec fn data_fields(lines: Seq<Seq<char>>) -> Seq<char>
    decreases lines.len(),
{
    if lines.len() == 0 {
        Seq::empty()
    } else {
        field(seq!['d', 'a', 't', 'a'], lines.first()) + data_fields(lines.drop_first())
    }
}

/// The fields of a server-sent event that come before its data: its identifier,
/// where it has one, and its type.
pub open spec fn head_fields(id: Option<Seq<char>>, event_type: Seq<char>) -> Seq<char> {
    (match id {
        Some(id) => field(seq!['i', 'd'], id),
        None => Seq::empty(),
    }) + field(seq!['e', 'v', 'e', 'n', 't'], event_type)
}

/// A server-sent event: its head, a `data` field for each line of its data, and
/// the blank line that ends it.
pub open spec fn event_text(id: Option<Seq<char>>, event_type: Seq<char>, data: Seq<char>) -> Seq<
    char,
> {
    head_fields(id, event_type) + data_fields(lines(data)) + seq!['\n']
}

/// A server-sent event without an identifier, with its data in one field.
pub open spec fn one_line_event(event_type: Seq<char>, data: Seq<char>) -> Seq<char> {
    field(seq!['e', 'v', 'e', 'n', 't'], event_type) + field(seq!['d', 'a', 't', 'a'], data) + seq![
        '\n',
    ]
}

/// Data that holds no line feed makes a single `data` field.
pub proof fn lemma_single_line(data: Seq<char>)
    requires
        data.len() > 0,
        !data.contains('\n'),
    ensures
        lines(data) == seq![data],
        forall|event_type: Seq<char>| #[trigger]
            event_text(None, event_type, data) == one_line_event(event_type, data),
{
    data.index_of_first_ensures('\n');
    assert(lines(data) == seq![data]);
    assert forall|event_type: Seq<char>| #[trigger]
        event_text(None, event_type, data) == one_line_event(event_type, data) by {
        reveal_with_fuel(data_fields, 2);
        assert(lines(data).drop_first() =~= Seq::<Seq<char>>::empty());
        assert(event_text(None, event_type, data) =~= one_line_event(event_type, data));
    }
}

/// An event tells its data: two that read the same carry the same.
pub proof fn lemma_one_line_event_determines_data(
    event_type: Seq<char>,
    first: Seq<char>,
    second: Seq<char>,
)
    requires
        one_line_event(event_type, first) == one_line_event(event_type, second),
    ensures
        first == second,
{
    let one = one_line_event(event_type, first);
    let two = one_line_event(event_type, second);
    let start = field(seq!['e', 'v', 'e', 'n', 't'], event_type).len() as int + 6;
    assert(one.subrange(start, one.len() - 2) =~= first);
    assert(two.subrange(start, two.len() - 2) =~= second);
}

/// The text of a JSON object with two texts and a flag as members.
pub uninterp spec fn json_object(
    first_name: Seq<char>,
    first: Seq<char>,
    second_name: Seq<char>,
    second: Seq<char>,
    flag_name: Seq<char>,
    flag: bool,
) -> Seq<char>;

/// A lower-case hexadecimal digit.
pub open spec fn hex_digit(value: int) -> char {
    if value < 10 {
        ('0' as int + value) as char
    } else {
        ('a' as int + value - 10) as char
    }
}

/// The last `count` hexadecimal digits of a number, the most significant first.
pub open spec fn hex(value: nat, count: nat) -> Seq<char>
    decreases count,
{
    if count == 0 {
        Seq::empty()
    } else {
        hex(value / 16, (count - 1) as nat).push(hex_digit((value % 16) as int))
    }
}

/// Builds an event with `hyper_usse::EventBuilder`: `new`, `event_type` and
/// `build`.
///
/// The event has no `id` field. Its data is split into lines as `str::lines`
/// splits them, and each becomes a `data` field; data without a line gives none.
#[verifier::external_body]
pub(crate) fn event(event_type: &str, data: &str) -> (text: String)
    ensures
        text@ == event_text(None, event_type@, data@),
{
    EventBuilder::new(data).event_type(event_type).build()
}

/// Builds an event with `hyper_usse::EventBuilder`: `new`, `event_type`, `id`
/// and `build`.
///
/// As [`event`], with an `id` field in front.
#[verifier::external_body]
pub(crate) fn event_with_id(id: &str, event_type: &str, data: &str) -> (text: String)
    ensures
        text@ == event_text(Some(id@), event_type@, data@),
{
    EventBuilder::new(data).event_type(event_type).id(id).build()
}

/// Writes a JSON object as text with `serde_json::to_string`.
///
/// The text is compact: every control character of a member is escaped, so it
/// is never empty and holds none. Members of different names keep their values
/// apart, so the same text under the same names comes from the same values.
/// How a value is written is not said.
#[verifier::external_body]
pub(crate) fn object_text(
    first_name: &str,
    first: &str,
    second_name: &str,
    second: &str,
    flag_name: &str,
    flag: bool,
) -> (text: String)
    requires
        first_name@ != second_name@,
        first_name@ != flag_name@,
        second_name@ != flag_name@,
    ensures
        text@ == json_object(first_name@, first@, second_name@, second@, flag_name@, flag),
        text@.len() > 0,
        forall|i: int| 0 <= i < text@.len() ==> #[trigger] text@[i] >= ' ',
        forall|first_value: Seq<char>, second_value: Seq<char>, flag_value: bool|
            text@ == #[trigger] json_object(
                first_name@,
                first_value,
                second_name@,
                second_value,
                flag_name@,
                flag_value,
            ) ==> first_value == first@ && second_value == second@ && flag_value == flag,
{
    let mut members = JsonObject::new();
    members.insert(first_name.to_owned(), Value::String(first.to_owned()));
    members.insert(second_name.to_owned(), Value::String(second.to_owned()));
    members.insert(flag_name.to_owned(), Value::Bool(flag));
    serde_json::to_string(&Value::Object(members)).unwrap()
}

/// Writes an identifier with `uuid::Uuid::to_simple_ref` and `to_string`.
///
/// The text is the 128 bits as 32 lower-case hexadecimal digits, the most
/// significant first, without hyphens.
#[verifier::external_body]
pub(crate) fn id_text(id: u128) -> (text: String)
    ensures
        text@ == hex(id as nat, 32),
{
    Uuid::from_u128(id).to_simple_ref().to_string()
}

/// Whether a text is one event by itself, where lines end with line feeds: it ends
/// with a blank line, and no line before that is blank.
///
/// A reader of events takes a carriage return for the end of a line too. To a
/// text that holds none (see [`law_event_holds_no_return`]) that makes no
/// difference.
pub open spec fn is_framed(text: Seq<char>) -> bool {
    &&& text.len() >= 2
    &&& text[0] != '\n'
    &&& text[text.len() - 2] == '\n'
    &&& text[text.len() - 1] == '\n'
    &&& forall|i: int|
        0 <= i < text.len() - 2 && #[trigger] text[i] == '\n' ==> text[i + 1] != '\n'
}

/// Whether a text is made of whole lines none of which is blank.
spec fn is_unbroken(text: Seq<char>) -> bool {
    &&& text.len() > 0 ==> text[0] != '\n' && text.last() == '\n'
    &&& forall|i: int|
        0 <= i < text.len() - 1 && #[trigger] text[i] == '\n' ==> text[i + 1] != '\n'
}

proof fn lemma_field_unbroken(name: Seq<char>, value: Seq<char>)
    requires
        name.len() > 0,
        !name.contains('\n'),
        !value.contains('\n'),
    ensures
        is_unbroken(field(name, value)),
{
    let text = field(name, value);
    assert forall|i: int| 0 <= i < text.len() - 1 implies #[trigger] text[i] != '\n' by {
        if i < name.len() {
            assert(name.contains(name[i]));
            assert(text[i] == name[i]);
        } else if i >= name.len() + 2 {
            let j = i - name.len() - 2;
            assert(value.contains(value[j]));
            assert(text[i] == value[j]);
        }
    }
}

proof fn lemma_concat_unbroken(first: Seq<char>, second: Seq<char>)
    requires
        is_unbroken(first),
        is_unbroken(second),
    ensures
        is_unbroken(first + second),
{
    let text = first + second;
    assert forall|i: int| 0 <= i < text.len() - 1 && #[trigger] text[i] == '\n' implies text[i + 1]
        != '\n' by {
        if i + 1 < first.len() {
            assert(text[i] == first[i]);
            assert(text[i + 1] == first[i + 1]);
        } else if i + 1 == first.len() {
            assert(text[i + 1] == second[0]);
        } else {
            let j = i - first.len();
            assert(text[i] == second[j]);
            assert(text[i + 1] == second[j + 1]);
        }
    }
}

/// No line of a text holds a line feed.
proof fn lemma_lines_hold_no_feed(text: Seq<char>)
    ensures
        forall|i: int| 0 <= i < lines(text).len() ==> !(#[trigger] lines(text)[i]).contains('\n'),
    decreases text.len(),
{
    if text.len() > 0 {
        text.index_of_first_ensures('\n');
        if let Some(end) = text.index_of_first('\n') {
            let first = without_return(text.take(end));
            let rest = lines(text.skip(end + 1));
            lemma_lines_hold_no_feed(text.skip(end + 1));
            assert forall|i: int| 0 <= i < lines(text).len() implies !(#[trigger] lines(
                text,
            )[i]).contains('\n') by {
                if i == 0 {
                    assert(lines(text)[0] == first);
                    assert forall|j: int| 0 <= j < first.len() implies first[j] != '\n' by {
                        assert(first[j] == text[j]);
                    }
                } else {
                    assert(lines(text)[i] == rest[i - 1]);
                }
            }
        }
    }
}

proof fn lemma_data_fields_unbroken(lines: Seq<Seq<char>>)
    requires
        forall|i: int| 0 <= i < lines.len() ==> !(#[trigger] lines[i]).contains('\n'),
    ensures
        is_unbroken(data_fields(lines)),
    decreases lines.len(),
{
    if lines.len() > 0 {
        let name = seq!['d', 'a', 't', 'a'];
        assert(!name.contains('\n'));
        lemma_field_unbroken(name, lines.first());
        assert forall|i: int| 0 <= i < lines.drop_first().len() implies !(
        #[trigger] lines.drop_first()[i]).contains('\n') by {
            assert(lines.drop_first()[i] == lines[i + 1]);
        }
        lemma_data_fields_unbroken(lines.drop_first());
        lemma_concat_unbroken(field(name, lines.first()), data_fields(lines.drop_first()));
    }
}

/// Whatever its data is, an event whose head holds no line feed is one event where
/// lines end with line feeds: no two of them in its data can end it early.
pub proof fn law_event_is_framed(id: Option<Seq<char>>, event_type: Seq<char>, data: Seq<char>)
    requires
        id matches Some(id) ==> !id.contains('\n'),
        !event_type.contains('\n'),
    ensures
        is_framed(event_text(id, event_type, data)),
{
    let event_name = seq!['e', 'v', 'e', 'n', 't'];
    let id_name = seq!['i', 'd'];
    assert(!event_name.contains('\n'));
    assert(!id_name.contains('\n'));
    let type_field = field(event_name, event_type);
    lemma_field_unbroken(event_name, event_type);
    let id_field = match id {
        Some(id) => field(id_name, id),
        None => Seq::empty(),
    };
    if let Some(id) = id {
        lemma_field_unbroken(id_name, id);
    }
    lemma_concat_unbroken(id_field, type_field);
    let head = head_fields(id, event_type);
    assert(head == id_field + type_field);
    lemma_lines_hold_no_feed(data);
    lemma_data_fields_unbroken(lines(data));
    let body = head + data_fields(lines(data));
    lemma_concat_unbroken(head, data_fields(lines(data)));
    let text = event_text(id, event_type, data);
    assert(text == body.push('\n'));
    assert forall|i: int| 0 <= i < text.len() - 2 && #[trigger] text[i] == '\n' implies text[i + 1]
        != '\n' by {
        assert(text[i] == body[i]);
        assert(text[i + 1] == body[i + 1]);
    }
}

proof fn lemma_lines_hold_no_other(text: Seq<char>, other: char)
    requires
        !text.contains(other),
    ensures
        forall|i: int| 0 <= i < lines(text).len() ==> !(#[trigger] lines(text)[i]).contains(other),
    decreases text.len(),
{
    if text.len() > 0 {
        text.index_of_first_ensures('\n');
        if let Some(end) = text.index_of_first('\n') {
            let first = without_return(text.take(end));
            let tail = text.skip(end + 1);
            assert forall|j: int| 0 <= j < tail.len() implies tail[j] != other by {
                assert(tail[j] == text[end + 1 + j]);
                assert(text.contains(text[end + 1 + j]));
            }
            lemma_lines_hold_no_other(tail, other);
            assert forall|i: int| 0 <= i < lines(text).len() implies !(#[trigger] lines(
                text,
            )[i]).contains(other) by {
                if i == 0 {
                    assert(lines(text)[0] == first);
                    assert forall|j: int| 0 <= j < first.len() implies first[j] != other by {
                        assert(first[j] == text[j]);
                        assert(text.contains(text[j]));
                    }
                } else {
                    assert(lines(text)[i] == lines(tail)[i - 1]);
                }
            }
        }
    }
}

proof fn lemma_concat_holds_no_other(first: Seq<char>, second: Seq<char>, other: char)
    requires
        !first.contains(other),
        !second.contains(other),
    ensures
        !(first + second).contains(other),
{
    let text = first + second;
    assert forall|i: int| 0 <= i < text.len() implies text[i] != other by {
        if i < first.len() {
            assert(text[i] == first[i]);
            assert(first.contains(first[i]));
        } else {
            assert(text[i] == second[i - first.len()]);
            assert(second.contains(second[i - first.len()]));
        }
    }
}

proof fn lemma_field_holds_no_return(name: Seq<char>, value: Seq<char>)
    requires
        !name.contains('\r'),
        !value.contains('\r'),
    ensures
        !field(name, value).contains('\r'),
{
    let colon = seq![':', ' '];
    let feed = seq!['\n'];
    assert(!colon.contains('\r'));
    assert(!feed.contains('\r'));
    lemma_concat_holds_no_other(name, colon, '\r');
    lemma_concat_holds_no_other(name + colon, value, '\r');
    lemma_concat_holds_no_other(name + colon + value, feed, '\r');
}

proof fn lemma_data_fields_hold_no_return(lines: Seq<Seq<char>>)
    requires
        forall|i: int| 0 <= i < lines.len() ==> !(#[trigger] lines[i]).contains('\r'),
    ensures
        !data_fields(lines).contains('\r'),
    decreases lines.len(),
{
    if lines.len() > 0 {
        let name = seq!['d', 'a', 't', 'a'];
        assert(!name.contains('\r'));
        assert(!lines[0].contains('\r'));
        lemma_field_holds_no_return(name, lines.first());
        assert forall|i: int| 0 <= i < lines.drop_first().len() implies !(
        #[trigger] lines.drop_first()[i]).contains('\r') by {
            assert(lines.drop_first()[i] == lines[i + 1]);
        }
        lemma_data_fields_hold_no_return(lines.drop_first());
        lemma_concat_holds_no_other(
            field(name, lines.first()),
            data_fields(lines.drop_first()),
            '\r',
        );
    }
}

/// An event whose head and data hold no carriage return holds none.
pub proof fn law_event_holds_no_return(
    id: Option<Seq<char>>,
    event_type: Seq<char>,
    data: Seq<char>,
)
    requires
        id matches Some(id) ==> !id.contains('\r'),
        !event_type.contains('\r'),
        !data.contains('\r'),
    ensures
        !event_text(id, event_type, data).contains('\r'),
{
    let event_name = seq!['e', 'v', 'e', 'n', 't'];
    let id_name = seq!['i', 'd'];
    assert(!event_name.contains('\r'));
    assert(!id_name.contains('\r'));
    let type_field = field(event_name, event_type);
    lemma_field_holds_no_return(event_name, event_type);
    let id_field = match id {
        Some(id) => field(id_name, id),
        None => Seq::empty(),
    };
    if let Some(id) = id {
        lemma_field_holds_no_return(id_name, id);
    }
    lemma_concat_holds_no_other(id_field, type_field, '\r');
    lemma_lines_hold_no_other(data, '\r');
    lemma_data_fields_hold_no_return(lines(data));
    let head = head_fields(id, event_type);
    let fields = data_fields(lines(data));
    lemma_concat_holds_no_other(head, fields, '\r');
    let feed = seq!['\n'];
    assert(!feed.contains('\r'));
    lemma_concat_holds_no_other(head + fields, feed, '\r');
}

proof fn lemma_field_determines_value(
    name: Seq<char>,
    first: Seq<char>,
    second: Seq<char>,
    first_rest: Seq<char>,
    second_rest: Seq<char>,
)
    requires
        !first.contains('\n'),
        !second.contains('\n'),
        field(name, first) + first_rest == field(name, second) + second_rest,
    ensures
        first == second,
        first_rest == second_rest,
{
    let one = field(name, first) + first_rest;
    let two = field(name, second) + second_rest;
    let start = name.len() as int + 2;
    assert(one[start + first.len()] == '\n');
    assert(two[start + second.len()] == '\n');
    if first.len() < second.len() {
        assert(two[start + first.len()] == second[first.len() as int]);
        assert(second.contains(second[first.len() as int]));
    } else if second.len() < first.len() {
        assert(one[start + second.len()] == first[second.len() as int]);
        assert(first.contains(first[second.len() as int]));
    }
    assert forall|i: int| 0 <= i < first.len() implies first[i] == second[i] by {
        assert(one[start + i] == first[i]);
        assert(two[start + i] == second[i]);
    }
    assert(first =~= second);
    assert(one.skip(start + first.len() + 1) =~= first_rest);
    assert(two.skip(start + first.len() + 1) =~= second_rest);
}

proof fn lemma_data_fields_determine_lines(first: Seq<Seq<char>>, second: Seq<Seq<char>>)
    requires
        forall|i: int| 0 <= i < first.len() ==> !(#[trigger] first[i]).contains('\n'),
        forall|i: int| 0 <= i < second.len() ==> !(#[trigger] second[i]).contains('\n'),
        data_fields(first) == data_fields(second),
    ensures
        first == second,
    decreases first.len(),
{
    let name = seq!['d', 'a', 't', 'a'];
    if first.len() == 0 {
        if second.len() > 0 {
            assert(data_fields(second).len() >= field(name, second.first()).len());
        }
        assert(first =~= second);
    } else if second.len() == 0 {
        assert(data_fields(first).len() >= field(name, first.first()).len());
    } else {
        let first_rest = first.drop_first();
        let second_rest = second.drop_first();
        assert(!first[0].contains('\n'));
        assert(!second[0].contains('\n'));
        lemma_field_determines_value(
            name,
            first.first(),
            second.first(),
            data_fields(first_rest),
            data_fields(second_rest),
        );
        assert forall|i: int| 0 <= i < first_rest.len() implies !(
        #[trigger] first_rest[i]).contains('\n') by {
            assert(first_rest[i] == first[i + 1]);
        }
        assert forall|i: int| 0 <= i < second_rest.len() implies !(
        #[trigger] second_rest[i]).contains('\n') by {
            assert(second_rest[i] == second[i + 1]);
        }
        lemma_data_fields_determine_lines(first_rest, second_rest);
        assert(first =~= seq![first.first()] + first_rest);
        assert(second =~= seq![second.first()] + second_rest);
    }
}

/// An event tells its identifier, its type and the lines of its data: two events
/// that read the same agree in all three.
pub proof fn law_event_is_readable(
    first_id: Seq<char>,
    first_type: Seq<char>,
    first_data: Seq<char>,
    second_id: Seq<char>,
    second_type: Seq<char>,
    second_data: Seq<char>,
)
    requires
        !first_id.contains('\n'),
        !first_type.contains('\n'),
        !second_id.contains('\n'),
        !second_type.contains('\n'),
        event_text(Some(first_id), first_type, first_data) == event_text(
            Some(second_id),
            second_type,
            second_data,
        ),
    ensures
        first_id == second_id,
        first_type == second_type,
        lines(first_data) == lines(second_data),
{
    let id_name = seq!['i', 'd'];
    let event_name = seq!['e', 'v', 'e', 'n', 't'];
    let first_fields = data_fields(lines(first_data));
    let second_fields = data_fields(lines(second_data));
    let first_tail = field(event_name, first_type) + (first_fields + seq!['\n']);
    let second_tail = field(event_name, second_type) + (second_fields + seq!['\n']);
    assert(event_text(Some(first_id), first_type, first_data) =~= field(id_name, first_id)
        + first_tail);
    assert(event_text(Some(second_id), second_type, second_data) =~= field(id_name, second_id)
        + second_tail);
    lemma_field_determines_value(id_name, first_id, second_id, first_tail, second_tail);
    lemma_field_determines_value(
        event_name,
        first_type,
        second_type,
        first_fields + seq!['\n'],
        second_fields + seq!['\n'],
    );
    assert(first_fields =~= (first_fields + seq!['\n']).drop_last());
    assert(second_fields =~= (second_fields + seq!['\n']).drop_last());
    lemma_lines_hold_no_feed(first_data);
    lemma_lines_hold_no_feed(second_data);
    lemma_data_fields_determine_lines(lines(first_data), lines(second_data));
}

/// Hexadecimal digits hold no line feed.
pub proof fn lemma_hex_holds_no_feed(value: nat, count: nat)
    ensures
        hex(value, count).len() == count,
        !hex(value, count).contains('\n'),
    decreases count,
{
    if count > 0 {
        lemma_hex_holds_no_feed(value / 16, (count - 1) as nat);
        let front = hex(value / 16, (count - 1) as nat);
        let text = hex(value, count);
        assert forall|i: int| 0 <= i < text.len() implies text[i] != '\n' by {
            if i < front.len() {
                assert(text[i] == front[i]);
                assert(front.contains(front[i]));
            }
        }
    }
}

proof fn lemma_hex_digit_determines_value(first: int, second: int)
    requires
        0 <= first < 16,
        0 <= second < 16,
        hex_digit(first) == hex_digit(second),
    ensures
        first == second,
{
    assert(hex_digit(first) as int == if first < 10 {
        48 + first
    } else {
        87 + first
    });
    assert(hex_digit(second) as int == if second < 10 {
        48 + second
    } else {
        87 + second
    });
}

proof fn lemma_hex_determines_value(first: nat, second: nat, count: nat)
    requires
        hex(first, count) == hex(second, count),
        first < vstd::arithmetic::power::pow(16, count),
        second < vstd::arithmetic::power::pow(16, count),
    ensures
        first == second,
    decreases count,
{
    reveal(vstd::arithmetic::power::pow);
    if count > 0 {
        let rest = (count - 1) as nat;
        let one = hex(first / 16, rest);
        let two = hex(second / 16, rest);
        assert(hex(first, count).last() == hex_digit((first % 16) as int));
        assert(hex(second, count).last() == hex_digit((second % 16) as int));
        lemma_hex_digit_determines_value((first % 16) as int, (second % 16) as int);
        assert(hex(first, count).drop_last() =~= one);
        assert(hex(second, count).drop_last() =~= two);
        lemma_hex_determines_value(first / 16, second / 16, rest);
    }
}

/// Different identifiers are written differently.
pub proof fn law_ids_are_told_apart(first: u128, second: u128)
    requires
        hex(first as nat, 32) == hex(second as nat, 32),
    ensures
        first == second,
{
    assert(vstd::arithmetic::power::pow(16, 32) == 0x1_0000_0000_0000_0000_0000_0000_0000_0000) by {
        reveal(vstd::arithmetic::power::pow);
        reveal_with_fuel(vstd::arithmetic::power::pow, 33);
    }
    lemma_hex_determines_value(first as nat, second as nat, 32);
}

} // verus!
