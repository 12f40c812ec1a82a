//! The errors that a GraphQL call can end in, and how they are shown.

use vstd::prelude::*;
use vstd::string::*;
use serde_json::Value;
use crate::json::{json_text, text};

verus! {

/// The error of the transport, carried through without looking inside.
#[verifier::external_type_specification]
#[verifier::external_body]
pub struct ExTransportError(reqwest::Error);

/// The description that the `Display` of `reqwest::Error` writes.
pub uninterp spec fn transport_description(error: reqwest::Error) -> String;

/// The characters of that description.
pub open spec fn transport_text(error: reqwest::Error) -> Seq<char> {
    transport_description(error)@
}

/// Calls `to_string` on a `reqwest::Error`, which goes through its `Display`.
/// The contract only names the text.
#[verifier::external_body]
fn describe(error: &reqwest::Error) -> (r: String)
    ensures
        r == transport_description(*error),
{
    error.to_string()
}

/// A place in the query text that an error points at.
#[derive(Debug, Clone, Copy, PartialEq, Eq)]
pub struct GraphQLErrorLocation {
    pub line: u32,
    pub column: u32,
}

/// One step of the path to the field that an error belongs to.
#[derive(Debug, Clone, PartialEq, Eq)]
pub enum GraphQLErrorPathParam {
    String(String),
    Number(u32),
}

/// One entry of the `errors` list of a response.
#[derive(Debug, Clone, PartialEq)]
pub enum GraphQLErrorMessage {
    /// An entry in the shape that GraphQL prescribes for errors.
    ConventionalError {
        message: String,
        locations: Option<Vec<GraphQLErrorLocation>>,
        extensions: Option<Value>,
        path: Option<Vec<GraphQLErrorPathParam>>,
    },
    /// Any other entry, kept as it came.
    UnconventionalError(Value),
}

/// What a failed call hands to its caller: a summary, and the entries of the
/// server's `errors` list where the server sent one.
pub struct GraphQLError {
    pub message: String,
    pub json: Option<Vec<GraphQLErrorMessage>>,
}

/// A path step as a mathematical value.
pub enum PathParamView {
    String(Seq<char>),
    Number(u32),
}

/// An error entry as a mathematical value.
pub enum ErrorMessageView {
    ConventionalError {
        message: Seq<char>,
        locations: Option<Seq<GraphQLErrorLocation>>,
        extensions: Option<Value>,
        path: Option<Seq<PathParamView>>,
    },
    UnconventionalError(Value),
}

/// An error as a mathematical value.
pub struct ErrorView {
    pub message: Seq<char>,
    pub json: Option<Seq<ErrorMessageView>>,
}

impl View for GraphQLErrorPathParam {
    type V = PathParamView;

    open spec fn view(&self) -> PathParamView {
        match self {
            GraphQLErrorPathParam::String(s) => PathParamView::String(s@),
            GraphQLErrorPathParam::Number(n) => PathParamView::Number(*n),
        }
    }
}

impl View for GraphQLErrorMessage {
    type V = ErrorMessageView;

    open spec fn view(&self) -> ErrorMessageView {
        match self {
            GraphQLErrorMessage::ConventionalError { message, locations, extensions, path } => {
                ErrorMessageView::ConventionalError {
                    message: message@,
                    locations: match locations {
                        Some(l) => Some(l@),
                        None => None,
                    },
                    extensions: *extensions,
                    path: match path {
                        Some(p) => Some(path_view(p@)),
                        None => None,
                    },
                }
            },
            GraphQLErrorMessage::UnconventionalError(value) => {
                ErrorMessageView::UnconventionalError(*value)
            },
        }
    }
}

impl View for GraphQLError {
    type V = ErrorView;

    open spec fn view(&self) -> ErrorView {
        ErrorView {
            message: self.message@,
            json: match self.json {
                Some(list) => Some(messages_view(list@)),
                None => None,
            },
        }
    }
}

/// The steps of a path, each by its view.
pub open spec fn path_view(path: Seq<GraphQLErrorPathParam>) -> Seq<PathParamView> {
    Seq::new(path.len(), |i: int| path[i]@)
}

/// The entries of an error list, each by its view.
pub open spec fn messages_view(list: Seq<GraphQLErrorMessage>) -> Seq<ErrorMessageView> {
    Seq::new(list.len(), |i: int| list[i]@)
}

impl ErrorMessageView {
    /// The text that stands for this entry in a report: its `message`, or the
    /// JSON text of an entry that has none.
    pub open spec fn text(self) -> Seq<char> {
        match self {
            ErrorMessageView::ConventionalError { message, .. } => message,
            ErrorMessageView::UnconventionalError(value) => json_text(value),
        }
    }
}

/// The lines of a report that follow the summary: one for each entry, in
/// order.
pub open spec fn message_lines(list: Seq<ErrorMessageView>) -> Seq<char>
    decreases list.len(),
{
    if list.len() == 0 {
        Seq::empty()
    } else {
        message_lines(list.drop_last()) + "Message: "@ + list.last().text() + "\n"@
    }
}

/// A report lists the entries in order: the lines of two lists joined are
/// the lines of the first, then those of the second.
pub proof fn lemma_message_lines_concat(a: Seq<ErrorMessageView>, b: Seq<ErrorMessageView>)
    ensures
        message_lines(a + b) == message_lines(a) + message_lines(b),
    decreases b.len(),
{
    if b.len() == 0 {
        assert(a + b =~= a);
        assert(message_lines(a) + message_lines(b) =~= message_lines(a));
    } else {
        lemma_message_lines_concat(a, b.drop_last());
        assert((a + b).drop_last() =~= a + b.drop_last());
        assert((a + b).last() == b.last());
        assert(message_lines(a + b) =~= message_lines(a) + message_lines(b));
    }
}

impl ErrorView {
    /// The report of this error: the summary line, then one line for each
    /// entry.
    pub open spec fn rendering(self) -> Seq<char> {
        "GQLClient Error: "@ + self.message + "\n"@ + match self.json {
            Some(list) => message_lines(list),
            None => Seq::empty(),
        }
    }
}

impl GraphQLErrorMessage {
    /// The text that stands for this entry in a report.
    pub fn message(&self) -> (r: String)
        ensures
            r@ == self@.text(),
    {
        match self {
            GraphQLErrorMessage::ConventionalError { message, .. } => message.clone(),
            GraphQLErrorMessage::UnconventionalError(value) => text(value),
        }
    }
}

impl From<reqwest::Error> for GraphQLError {
    /// The error for a request that the transport could not carry out:
    /// `from_transport`.
    fn from(error: reqwest::Error) -> (r: Self) {
        GraphQLError { message: describe(&error), json: None }
    }
}

impl vstd::std_specs::convert::FromSpecImpl<reqwest::Error> for GraphQLError {
    open spec fn obeys_from_spec() -> bool {
        true
    }

    open spec fn from_spec(error: reqwest::Error) -> Self {
        GraphQLError { message: transport_description(error), json: None }
    }
}

impl std::str::FromStr for GraphQLError {
    type Err = std::convert::Infallible;

    /// An error that is a summary and nothing else: `from_string`.
    fn from_str(s: &str) -> (r: Result<Self, std::convert::Infallible>)
        ensures
            r matches Ok(e) && e@ == (ErrorView { message: s@, json: None }),
    {
        Ok(GraphQLError::from_string(s))
    }
}

impl GraphQLError {
    /// An error that is a summary and nothing else.
    pub fn from_string(text: &str) -> (r: Self)
        ensures
            r@ == (ErrorView { message: text@, json: None }),
    {
        GraphQLError { message: String::from_str(text), json: None }
    }

    /// The error for a request that the transport could not carry out: its
    /// summary is the description of the transport's error.
    pub fn from_transport(error: &reqwest::Error) -> (r: Self)
        ensures
            r@ == (ErrorView { message: transport_text(*error), json: None }),
    {
        GraphQLError { message: describe(error), json: None }
    }

    /// An error that carries the entries a server sent, under a fixed summary.
    pub fn from_json(json: Vec<GraphQLErrorMessage>) -> (r: Self)
        ensures
            r@ == (ErrorView {
                message: "Look at json field for more details"@,
                json: Some(messages_view(json@)),
            }),
            r.json == Some(json),
    {
        GraphQLError {
            message: String::from_str("Look at json field for more details"),
            json: Some(json),
        }
    }

    /// The summary.
    pub fn message(&self) -> (r: &str)
        ensures
            r@ == self@.message,
    {
        self.message.as_str()
    }

    /// The entries that the server sent, if it sent any.
    pub fn json(&self) -> (r: &Option<Vec<GraphQLErrorMessage>>)
        ensures
            *r == self.json,
    {
        &self.json
    }

    /// The report of this error as text.
    pub fn render(&self) -> (r: String)
        ensures
            r@ == self@.rendering(),
    {
        let mut out = String::from_str("GQLClient Error: ");
        out.append(self.message.as_str());
        out.append("\n");
        match &self.json {
            None => {},
            Some(list) => {
                let ghost head = out@;
                let mut i: usize = 0;
                while i < list.len()
                    invariant
                        i <= list@.len(),
                        out@ == head + message_lines(messages_view(list@).take(i as int)),
                    decreases list@.len() - i,
                {
                    let line = list[i].message();
                    proof {
                        let all = messages_view(list@);
                        assert(all.take(i + 1).drop_last() =~= all.take(i as int));
                        assert(all.take(i + 1).last() == list@[i as int]@);
                    }
                    out.append("Message: ");
                    out.append(line.as_str());
                    out.append("\n");
                    i = i + 1;
                }
                proof {
                    assert(messages_view(list@).take(i as int) =~= messages_view(list@));
                }
            },
        }
        out
    }
}

} // verus!
