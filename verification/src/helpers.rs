//! What the tabs share: notices for the message bar, the orders that the
//! tables sort by, and the forms' optional fields.

use crate::helpers::downloader::DownloaderAction;
use crate::syncher::{DataType, Request};
use crate::text::code;
use std::cmp::Ordering;
use vstd::prelude::*;

pub mod downloader;
pub mod iconic_button;

pub use iconic_button::IconicButton;

verus! {

/// What a table shows in place of a value that is missing.
pub const MISSING_DATA: &'static str = "N/A";

/// How serious a notice in the message bar is.
#[derive(Debug, Clone, Copy, PartialEq, Eq, Structural)]
pub enum StatusMessageSeverity {
    Info,
    Warning,
    Error,
}

/// A notice for the message bar.
#[derive(Debug, PartialEq, Eq)]
pub struct StatusMessage {
    pub severity: StatusMessageSeverity,
    pub message: String,
}

impl StatusMessage {
    /// The notice has this severity and these words.
    pub open spec fn says(&self, severity: StatusMessageSeverity, words: Seq<char>) -> bool {
        self.severity == severity && self.message@ == words
    }

    /// The notice for a state that the controls should not have allowed.
    pub fn wrong() -> (r: Self)
        ensures
            r.severity == StatusMessageSeverity::Warning,
            r.message@ == "Something went wrong."@,
    {
        Self { severity: StatusMessageSeverity::Warning, message: "Something went wrong.".to_owned() }
    }
}

/// How a value of a table stands out.
#[derive(Debug, Clone, Copy, PartialEq, Eq, Structural)]
pub enum Emphasis {
    Plain,
    Strong,
    Italics,
}

/// How an optional value is shown in a table: strong where it is there, and
/// the words for missing data where it is not.
pub fn format_data_option(data: &Option<String>) -> (r: (String, Emphasis))
    ensures
        match *data {
            Some(value) => r.0@ == value@ && r.1 == Emphasis::Strong,
            None => r.0@ == MISSING_DATA@ && r.1 == Emphasis::Plain,
        },
{
    match data {
        Some(value) => (value.clone(), Emphasis::Strong),
        None => (MISSING_DATA.to_owned(), Emphasis::Plain),
    }
}

/// How an optional value is shown in a table beside `other`: in italics
/// where it says what `other` says, strong where it says something else,
/// and the words for missing data where it is not there.
pub fn format_unique_data_option(data: &Option<String>, other: &String) -> (r: (String, Emphasis))
    ensures
        match *data {
            Some(value) => r.0@ == value@ && r.1 == if value@ == other@ {
                Emphasis::Italics
            } else {
                Emphasis::Strong
            },
            None => r.0@ == MISSING_DATA@ && r.1 == Emphasis::Plain,
        },
{
    match data {
        Some(value) => if *other == *value {
            (value.clone(), Emphasis::Italics)
        } else {
            (value.clone(), Emphasis::Strong)
        },
        None => (MISSING_DATA.to_owned(), Emphasis::Plain),
    }
}

/// What the user did to an optional field of a form.
#[derive(Debug, PartialEq, Eq)]
pub enum DataEdit {
    Nothing,
    /// The field's text was edited and now reads so.
    Typed(String),
    /// The field was removed by its menu.
    Delete,
    /// The field was added by its button.
    Add,
}

/// Lets the user edit an optional field. A field that is there can be typed
/// in and removed; one that is not there can be added, empty. Returns
/// whether the text changed or the field was added.
pub fn enter_data_option(data: &mut Option<String>, edit: DataEdit) -> (changed: bool)
    ensures
        match (*old(data), edit) {
            (Some(_), DataEdit::Typed(text)) => changed && *final(data) == Some(text),
            (Some(_), DataEdit::Delete) => !changed && final(data).is_none(),
            (None, DataEdit::Add) => changed && (*final(data) matches Some(text) && text@.len() == 0),
            _ => !changed && *final(data) == *old(data),
        },
{
    let there = data.is_some();
    match edit {
        DataEdit::Typed(text) => {
            if there {
                *data = Some(text);
            }
            there
        },
        DataEdit::Delete => {
            if there {
                *data = None;
            }
            false
        },
        DataEdit::Add => {
            if !there {
                *data = Some(String::new());
            }
            !there
        },
        DataEdit::Nothing => false,
    }
}

/// `after` is `before` with one more notice at its end.
pub open spec fn noted(
    before: Seq<StatusMessage>,
    after: Seq<StatusMessage>,
    severity: StatusMessageSeverity,
    words: Seq<char>,
) -> bool {
    &&& after.len() == before.len() + 1
    &&& after.drop_last() == before
    &&& after.last().says(severity, words)
}

/// Adds a notice to the end of `messages`.
pub fn push_notice(messages: &mut Vec<StatusMessage>, severity: StatusMessageSeverity, message: String)
    ensures
        noted(old(messages)@, final(messages)@, severity, message@),
{
    messages.push(StatusMessage { severity, message });
    assert(messages@.drop_last() =~= old(messages)@);
}

/// `request` and `after` are what the pending action of a cache of records
/// of the kind `kind` comes to: a request to the worker, or, for a delete
/// without a selection, a warning.
pub open spec fn dispatched(
    action: DownloaderAction,
    kind: DataType,
    before: Seq<StatusMessage>,
    after: Seq<StatusMessage>,
    request: Option<Request>,
) -> bool {
    match action {
        DownloaderAction::Nothing => request.is_none() && after == before,
        DownloaderAction::Delete(Some(id)) => request == Some(Request::DeleteItem(kind, id))
            && after == before,
        DownloaderAction::Delete(None) => request.is_none() && noted(
            before,
            after,
            StatusMessageSeverity::Warning,
            "Something went wrong..."@,
        ),
        DownloaderAction::Download(scope) => request == Some(Request::Download(kind, scope))
            && after == before,
    }
}

/// Turns the pending action of a cache into a request to the worker, or into
/// a warning.
pub fn dispatch(action: DownloaderAction, kind: DataType, messages: &mut Vec<StatusMessage>) -> (request:
    Option<Request>)
    ensures
        dispatched(action, kind, old(messages)@, final(messages)@, request),
{
    match action {
        DownloaderAction::Nothing => None,
        DownloaderAction::Delete(Some(id)) => Some(Request::DeleteItem(kind, id)),
        DownloaderAction::Delete(None) => {
            push_notice(
                messages,
                StatusMessageSeverity::Warning,
                "Something went wrong...".to_owned(),
            );
            None
        },
        DownloaderAction::Download(scope) => Some(Request::Download(kind, scope)),
    }
}

/// The order of two integers.
pub open spec fn int_order(a: int, b: int) -> Ordering {
    if a < b {
        Ordering::Less
    } else if a == b {
        Ordering::Equal
    } else {
        Ordering::Greater
    }
}

/// The order of two identities or counts.
pub open spec fn i32_order(a: i32, b: i32) -> Ordering {
    if a < b {
        Ordering::Less
    } else if a == b {
        Ordering::Equal
    } else {
        Ordering::Greater
    }
}

/// The order of two texts: by the first character in which they differ, and
/// a text before each of its extensions.
pub open spec fn text_order(a: Seq<char>, b: Seq<char>) -> Ordering
    decreases a.len(),
{
    if a.len() == 0 && b.len() == 0 {
        Ordering::Equal
    } else if a.len() == 0 {
        Ordering::Less
    } else if b.len() == 0 {
        Ordering::Greater
    } else if code(a[0]) != code(b[0]) {
        int_order(code(a[0]), code(b[0]))
    } else {
        text_order(a.skip(1), b.skip(1))
    }
}

/// The order of two optional texts: a text that is there comes before one
/// that is missing.
pub open spec fn opt_text_order(a: Option<String>, b: Option<String>) -> Ordering {
    match (a, b) {
        (None, None) => Ordering::Equal,
        (None, Some(_)) => Ordering::Greater,
        (Some(_), None) => Ordering::Less,
        (Some(x), Some(y)) => text_order(x@, y@),
    }
}

/// The order of two optional integers: an integer that is there comes before
/// one that is missing.
pub open spec fn opt_int_order(a: Option<i32>, b: Option<i32>) -> Ordering {
    match (a, b) {
        (None, None) => Ordering::Equal,
        (None, Some(_)) => Ordering::Greater,
        (Some(_), None) => Ordering::Less,
        (Some(x), Some(y)) => i32_order(x, y),
    }
}

/// Compares two integers.
pub fn cmp_i32(a: i32, b: i32) -> (o: Ordering)
    ensures
        o == i32_order(a, b),
{
    if a < b {
        Ordering::Less
    } else if a == b {
        Ordering::Equal
    } else {
        Ordering::Greater
    }
}

/// Compares two optional texts; a missing one comes last.
pub fn opt_cmp(a: &Option<String>, b: &Option<String>) -> (o: Ordering)
    ensures
        o == opt_text_order(*a, *b),
{
    match (a, b) {
        (None, None) => Ordering::Equal,
        (None, Some(_)) => Ordering::Greater,
        (Some(_), None) => Ordering::Less,
        (Some(av), Some(bv)) => cmp_text(av.as_str(), bv.as_str()),
    }
}

/// Compares two optional integers; a missing one comes last.
pub fn opt_cmp_i32(a: Option<i32>, b: Option<i32>) -> (o: Ordering)
    ensures
        o == opt_int_order(a, b),
{
    match (a, b) {
        (None, None) => Ordering::Equal,
        (None, Some(_)) => Ordering::Greater,
        (Some(_), None) => Ordering::Less,
        (Some(av), Some(bv)) => cmp_i32(av, bv),
    }
}

/// Calls `str::cmp`. Trusted: the standard library orders texts
/// lexicographically by their bytes, which is the order of their code points.
#[verifier::external_body]
pub(crate) fn cmp_text(a: &str, b: &str) -> (o: Ordering)
    ensures
        o == text_order(a@, b@),
{
    a.cmp(b)
}

/// An order turned round.
pub open spec fn flipped(o: Ordering) -> Ordering {
    match o {
        Ordering::Less => Ordering::Greater,
        Ordering::Equal => Ordering::Equal,
        Ordering::Greater => Ordering::Less,
    }
}

/// Two texts turned round compare the other way round.
pub proof fn lemma_text_order_flips(a: Seq<char>, b: Seq<char>)
    ensures
        text_order(b, a) == flipped(text_order(a, b)),
    decreases a.len(),
{
    if a.len() > 0 && b.len() > 0 && code(a[0]) == code(b[0]) {
        lemma_text_order_flips(a.skip(1), b.skip(1));
    }
}

/// A text that is not behind a second, which is not behind a third, is not
/// behind the third.
pub proof fn lemma_text_order_is_transitive(a: Seq<char>, b: Seq<char>, c: Seq<char>)
    requires
        text_order(a, b) != Ordering::Greater,
        text_order(b, c) != Ordering::Greater,
    ensures
        text_order(a, c) != Ordering::Greater,
    decreases a.len(),
{
    if a.len() > 0 && b.len() > 0 && c.len() > 0 && code(a[0]) == code(b[0]) && code(b[0])
        == code(c[0]) {
        lemma_text_order_is_transitive(a.skip(1), b.skip(1), c.skip(1));
    }
}

/// The order of optional texts turns round with its arguments, and is
/// transitive.
pub proof fn lemma_opt_text_order_is_total(a: Option<String>, b: Option<String>, c: Option<String>)
    ensures
        opt_text_order(b, a) == flipped(opt_text_order(a, b)),
        opt_text_order(a, b) != Ordering::Greater && opt_text_order(b, c) != Ordering::Greater
            ==> opt_text_order(a, c) != Ordering::Greater,
{
    if let (Some(x), Some(y)) = (a, b) {
        lemma_text_order_flips(x@, y@);
        if let Some(z) = c {
            if text_order(x@, y@) != Ordering::Greater && text_order(y@, z@)
                != Ordering::Greater {
                lemma_text_order_is_transitive(x@, y@, z@);
            }
        }
    }
}

} // verus!
