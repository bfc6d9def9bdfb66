//! Evaluating JavaScript in the browsers that are viewing a page: how long to
//! wait, how a request ends, and how its failure reads.
use crate::wire::{
    event_text, event_with_id, hex, id_text, is_framed, law_event_is_framed, law_event_is_readable,
    law_ids_are_told_apart, lemma_hex_holds_no_feed, lines,
};
use vstd::prelude::*;

verus! {

/// A span of time: whole seconds, and nanoseconds on top of them.
#[derive(Debug, Clone, Copy, PartialEq, Eq, Structural)]
pub struct Duration {
    pub secs: u64,
    pub nanos: u32,
}

/// The default timeout for evaluating JavaScript in a page, in milliseconds.
pub const DEFAULT_EVAL_TIMEOUT: u64 = 1000;

impl Duration {
    /// The span in whole milliseconds, rounded down.
    pub open spec fn millis(self) -> nat {
        (self.secs * 1000 + self.nanos / 1_000_000) as nat
    }

    /// A span of so many milliseconds.
    pub open spec fn of_millis(millis: nat) -> Duration {
        Duration { secs: (millis / 1000) as u64, nanos: (millis % 1000 * 1_000_000) as u32 }
    }

    /// Makes a span of so many milliseconds.
    pub fn from_millis(millis: u64) -> (duration: Duration)
        ensures
            duration == Duration::of_millis(millis as nat),
            duration.millis() == millis,
    {
        Duration { secs: millis / 1000, nanos: (millis % 1000) as u32 * 1_000_000 }
    }

    /// Returns the span in whole milliseconds, rounded down.
    pub fn as_millis(&self) -> (millis: u128)
        ensures
            millis == self.millis(),
    {
        self.secs as u128 * 1000 + (self.nanos / 1_000_000) as u128
    }
}

/// The possible errors that can occur while evaluating JavaScript in the
/// context of a page.
#[derive(Debug, Clone)]
pub enum EvalError {
    /// There was no browser viewing the page, so could not run JavaScript.
    NoBrowser,
    /// The page was static, so could not run JavaScript.
    StaticPage,
    /// An internal error caused the page handle to be dropped.
    NoResponsePossible,
    /// The page took too long to respond.
    Timeout { duration: Duration, was_custom: bool },
    /// The code threw some kind of exception in JavaScript.
    JsError(String),
}

/// A decimal digit.
pub open spec fn decimal_digit(value: int) -> char {
    ('0' as int + value) as char
}

/// A number in decimal digits, without leading zeros.
pub open spec fn decimal(value: nat) -> Seq<char>
    decreases value,
{
    if value < 10 {
        seq![decimal_digit(value as int)]
    } else {
        decimal(value / 10).push(decimal_digit((value % 10) as int))
    }
}

/// A decimal digit as text.
fn digit_text(value: u8) -> (text: &'static str)
    requires
        value < 10,
    ensures
        text@ == seq![decimal_digit(value as int)],
{
    proof {
        reveal_strlit("0");
        reveal_strlit("1");
        reveal_strlit("2");
        reveal_strlit("3");
        reveal_strlit("4");
        reveal_strlit("5");
        reveal_strlit("6");
        reveal_strlit("7");
        reveal_strlit("8");
        reveal_strlit("9");
    }
    match value {
        0 => "0",
        1 => "1",
        2 => "2",
        3 => "3",
        4 => "4",
        5 => "5",
        6 => "6",
        7 => "7",
        8 => "8",
        _ => "9",
    }
}

/// Appends a number in decimal digits to a text.
fn append_decimal(text: &mut String, value: u128)
    ensures
        final(text)@ == old(text)@ + decimal(value as nat),
    decreases value,
{
    if value >= 10 {
        append_decimal(text, value / 10);
    }
    text.append(digit_text((value % 10) as u8));
}

impl EvalError {
    /// How the error reads.
    pub open spec fn message(self) -> Seq<char> {
        match self {
            EvalError::NoBrowser => "No browser is currently viewing the page"@,
            EvalError::StaticPage => "The page is static, which means it cannot run scripts"@,
            EvalError::NoResponsePossible => "Internal error: page handle dropped"@,
            EvalError::Timeout { duration, was_custom } => if was_custom {
                "Exceeded custom timeout of "@ + decimal(duration.millis()) + "ms"@
            } else {
                "Exceeded default timeout of "@ + decimal(duration.millis()) + "ms"@
            },
            EvalError::JsError(err) => "Exception: "@ + err@,
        }
    }

    /// Writes the error as a text for people.
    pub fn to_string(&self) -> (text: String)
        ensures
            text@ == self.message(),
    {
        match self {
            EvalError::NoBrowser => "No browser is currently viewing the page".to_owned(),
            EvalError::StaticPage =>
                "The page is static, which means it cannot run scripts".to_owned(),
            EvalError::NoResponsePossible => "Internal error: page handle dropped".to_owned(),
            EvalError::Timeout { duration, was_custom } => {
                let mut text = if *was_custom {
                    "Exceeded custom timeout of ".to_owned()
                } else {
                    "Exceeded default timeout of ".to_owned()
                };
                append_decimal(&mut text, duration.as_millis());
                text.append("ms");
                text
            },
            EvalError::JsError(err) => {
                let mut text = "Exception: ".to_owned();
                text.append(err);
                text
            },
        }
    }
}

/// The type of the event that asks a browser to run some code.
pub open spec fn evaluate_type(statement_mode: bool) -> Seq<char> {
    if statement_mode {
        "run"@
    } else {
        "evaluate"@
    }
}

/// The message that asks a browser to evaluate some code and to answer under
/// the given identifier.
pub open spec fn evaluate_message(id: u128, expression: Seq<char>, statement_mode: bool) -> Seq<
    char,
> {
    event_text(Some(hex(id as nat, 32)), evaluate_type(statement_mode), expression)
}

/// Builds the message that asks a browser to evaluate some code, as an
/// expression or as a statement, and to answer under the given identifier.
pub fn evaluate_text(id: u128, expression: &str, statement_mode: bool) -> (message: String)
    ensures
        message@ == evaluate_message(id, expression@, statement_mode),
        statement_mode ==> message@ == event_text(Some(hex(id as nat, 32)), "run"@, expression@),
        !statement_mode ==> message@ == event_text(
            Some(hex(id as nat, 32)),
            "evaluate"@,
            expression@,
        ),
{
    let event_type = if statement_mode {
        "run"
    } else {
        "evaluate"
    };
    event_with_id(&id_text(id), event_type, expression)
}

/// A request that was sent to the browsers and awaits its answer.
#[derive(Debug, Clone, Copy, PartialEq, Eq, Structural)]
pub struct Wait {
    /// The identifier of the request.
    pub id: u128,
    /// How long to wait for the answer.
    pub duration: Duration,
    /// Whether the caller chose how long to wait.
    pub was_custom: bool,
}

impl Wait {
    /// The wait for the answer to a request with the given timeout.
    pub open spec fn of(id: u128, timeout: Option<Duration>) -> Wait {
        match timeout {
            Some(duration) => Wait { id, duration, was_custom: true },
            None => Wait {
                id,
                duration: Duration::of_millis(DEFAULT_EVAL_TIMEOUT as nat),
                was_custom: false,
            },
        }
    }

    /// Makes the wait for the answer to a request: as long as the given timeout,
    /// or for [`DEFAULT_EVAL_TIMEOUT`].
    pub fn new(id: u128, timeout: Option<Duration>) -> (wait: Wait)
        ensures
            wait == Wait::of(id, timeout),
    {
        match timeout {
            Some(duration) => Wait { id, duration, was_custom: true },
            None => Wait {
                id,
                duration: Duration::from_millis(DEFAULT_EVAL_TIMEOUT),
                was_custom: false,
            },
        }
    }
}

/// How a wait for an answer ends.
pub enum Outcome<V> {
    /// The time is up.
    TimedOut,
    /// Nobody is left who could answer.
    Dropped,
    /// The answer of a browser: a value, or the exception that the code threw.
    Answer(Result<V, String>),
}

/// The result of an evaluation whose wait has ended.
pub open spec fn wait_result<V>(wait: Wait, outcome: Outcome<V>) -> Result<V, EvalError> {
    match outcome {
        Outcome::TimedOut => Err(
            EvalError::Timeout { duration: wait.duration, was_custom: wait.was_custom },
        ),
        Outcome::Dropped => Err(EvalError::NoResponsePossible),
        Outcome::Answer(Ok(value)) => Ok(value),
        Outcome::Answer(Err(exception)) => Err(EvalError::JsError(exception)),
    }
}

/// Whatever the code is, the message that asks for its evaluation is one event by
/// itself, where lines end with line feeds.
pub proof fn law_request_is_framed(id: u128, expression: Seq<char>, statement_mode: bool)
    ensures
        is_framed(evaluate_message(id, expression, statement_mode)),
{
    reveal_strlit("run");
    reveal_strlit("evaluate");
    lemma_hex_holds_no_feed(id as nat, 32);
    law_event_is_framed(Some(hex(id as nat, 32)), evaluate_type(statement_mode), expression);
}

/// The message that asks for an evaluation tells which one it is: two that read
/// the same ask for the same lines of code, in the same mode, under the same
/// identifier.
pub proof fn law_request_is_readable(
    first_id: u128,
    first: Seq<char>,
    first_mode: bool,
    second_id: u128,
    second: Seq<char>,
    second_mode: bool,
)
    requires
        evaluate_message(first_id, first, first_mode) == evaluate_message(
            second_id,
            second,
            second_mode,
        ),
    ensures
        first_id == second_id,
        first_mode == second_mode,
        lines(first) == lines(second),
{
    reveal_strlit("run");
    reveal_strlit("evaluate");
    lemma_hex_holds_no_feed(first_id as nat, 32);
    lemma_hex_holds_no_feed(second_id as nat, 32);
    law_event_is_readable(
        hex(first_id as nat, 32),
        evaluate_type(first_mode),
        first,
        hex(second_id as nat, 32),
        evaluate_type(second_mode),
        second,
    );
    law_ids_are_told_apart(first_id, second_id);
    assert("run"@.len() != "evaluate"@.len());
}

/// An answer that came in time is handed on as it is: a value as the result, an
/// exception as the error. No other end of a wait gives either.
pub proof fn law_answer_is_handed_on<V>(wait: Wait, outcome: Outcome<V>)
    ensures
        wait_result(wait, outcome) matches Ok(value) ==> outcome == Outcome::Answer(Ok(value)),
        wait_result(wait, outcome) matches Err(EvalError::JsError(exception)) ==> outcome
            == Outcome::<V>::Answer(Err(exception)),
        outcome matches Outcome::Answer(answer) ==> (match answer {
            Ok(value) => wait_result(wait, outcome) == Ok::<V, EvalError>(value),
            Err(exception) => wait_result(wait, outcome) == Err::<V, EvalError>(
                EvalError::JsError(exception),
            ),
        }),
{
}

/// A wait that runs out reports the time that was waited, and whether the caller
/// chose it.
pub proof fn law_timeout_is_reported<V>(id: u128, timeout: Option<Duration>)
    ensures
        wait_result(Wait::of(id, timeout), Outcome::<V>::TimedOut) == Err::<V, EvalError>(
            EvalError::Timeout {
                duration: match timeout {
                    Some(duration) => duration,
                    None => Duration::of_millis(DEFAULT_EVAL_TIMEOUT as nat),
                },
                was_custom: timeout is Some,
            },
        ),
{
}

} // verus!
