//! Reading the answer of a GraphQL server.
//!
//! An answer is read as one of two shapes, tried in this order: the shape
//! that GraphQL prescribes, an object with an optional `data` and an
//! optional list `errors`; or any other JSON value, kept as it came. A member
//! that is absent and one that is `null` count alike.

use vstd::prelude::*;
use vstd::string::*;
use serde_json::Value;
use crate::json::{
    json_parsed, json_member, json_items, json_str, json_u64, json_is_null, json_is_object, referent,
    parse, member, items, as_str, as_u64, is_null, is_object,
};
use crate::error::{
    GraphQLError, GraphQLErrorLocation, GraphQLErrorMessage, GraphQLErrorPathParam, ErrorView,
    ErrorMessageView, PathParamView, messages_view, path_view,
};

verus! {

/// The answer of a server, with `data` of type `T`.
pub enum GraphQLResponse<T> {
    ConventionResponse { data: Option<T>, errors: Option<Vec<GraphQLErrorMessage>> },
    UnconventionalResponse(Value),
}

/// An answer as a mathematical value.
pub enum ResponseView<T> {
    ConventionResponse { data: Option<T>, errors: Option<Seq<ErrorMessageView>> },
    UnconventionalResponse(Value),
}

impl<T> View for GraphQLResponse<T> {
    type V = ResponseView<T>;

    open spec fn view(&self) -> ResponseView<T> {
        match self {
            GraphQLResponse::ConventionResponse { data, errors } => {
                ResponseView::ConventionResponse {
                    data: *data,
                    errors: match errors {
                        Some(list) => Some(messages_view(list@)),
                        None => None,
                    },
                }
            },
            GraphQLResponse::UnconventionalResponse(value) => {
                ResponseView::UnconventionalResponse(*value)
            },
        }
    }
}

/// The member of `value` under `key`, unless it is absent or `null`.
pub open spec fn present_member(value: Value, key: Seq<char>) -> Option<Value> {
    match json_member(value, key) {
        Some(m) => if json_is_null(m) {
            None
        } else {
            Some(m)
        },
        None => None,
    }
}

/// The number that `value` stands for, if it is an integer of 32 bits without
/// sign.
pub open spec fn u32_of(value: Value) -> Option<u32> {
    match json_u64(value) {
        Some(n) => if n <= u32::MAX {
            Some(n as u32)
        } else {
            None
        },
        None => None,
    }
}

/// The number under `key`, if there is a member there that is one.
pub open spec fn u32_member(value: Value, key: Seq<char>) -> Option<u32> {
    match json_member(value, key) {
        Some(m) => u32_of(m),
        None => None,
    }
}

/// The location that `value` stands for: it needs a `line` and a `column`,
/// both numbers.
pub open spec fn location_of(value: Value) -> Option<GraphQLErrorLocation> {
    match (u32_member(value, "line"@), u32_member(value, "column"@)) {
        (Some(line), Some(column)) => Some(GraphQLErrorLocation { line, column }),
        _ => None,
    }
}

/// The locations that `items` stand for, if each of them is one.
pub open spec fn locations_of(items: Seq<Value>) -> Option<Seq<GraphQLErrorLocation>> {
    if forall|i: int| 0 <= i < items.len() ==> (#[trigger] location_of(items[i])) is Some {
        Some(Seq::new(items.len(), |i: int| location_of(items[i]).unwrap()))
    } else {
        None
    }
}

/// The member `locations` of an error entry. The outer `None` says that the
/// member is there and is no list of locations.
pub open spec fn locations_member(value: Value) -> Option<Option<Seq<GraphQLErrorLocation>>> {
    match present_member(value, "locations"@) {
        None => Some(None),
        Some(m) => match json_items(m) {
            None => None,
            Some(items) => match locations_of(items) {
                None => None,
                Some(list) => Some(Some(list)),
            },
        },
    }
}

/// The path step that `value` stands for: a string, or a number.
pub open spec fn path_param_of(value: Value) -> Option<PathParamView> {
    match json_str(value) {
        Some(s) => Some(PathParamView::String(s)),
        None => match u32_of(value) {
            Some(n) => Some(PathParamView::Number(n)),
            None => None,
        },
    }
}

/// The path that `items` stand for, if each of them is a step.
pub open spec fn path_of(items: Seq<Value>) -> Option<Seq<PathParamView>> {
    if forall|i: int| 0 <= i < items.len() ==> (#[trigger] path_param_of(items[i])) is Some {
        Some(Seq::new(items.len(), |i: int| path_param_of(items[i]).unwrap()))
    } else {
        None
    }
}

/// The member `path` of an error entry. The outer `None` says that the member
/// is there and is no path.
pub open spec fn path_member(value: Value) -> Option<Option<Seq<PathParamView>>> {
    match present_member(value, "path"@) {
        None => Some(None),
        Some(m) => match json_items(m) {
            None => None,
            Some(items) => match path_of(items) {
                None => None,
                Some(list) => Some(Some(list)),
            },
        },
    }
}

/// The member `message` of an error entry, if it is there and is a string.
pub open spec fn message_member(value: Value) -> Option<Seq<char>> {
    match json_member(value, "message"@) {
        Some(m) => json_str(m),
        None => None,
    }
}

/// The error entry that `value` stands for: a conventional one where it has a
/// `message` that is a string and its `locations` and `path`, if any, fit;
/// else the value itself.
pub open spec fn error_message_of(value: Value) -> ErrorMessageView {
    match (message_member(value), locations_member(value), path_member(value)) {
        (Some(message), Some(locations), Some(path)) => ErrorMessageView::ConventionalError {
            message,
            locations,
            extensions: present_member(value, "extensions"@),
            path,
        },
        _ => ErrorMessageView::UnconventionalError(value),
    }
}

/// The entries that `items` stand for, in order.
pub open spec fn errors_of(items: Seq<Value>) -> Seq<ErrorMessageView> {
    Seq::new(items.len(), |i: int| error_message_of(items[i]))
}

/// The member `errors` of an answer. The outer `None` says that the member is
/// there and is no list.
pub open spec fn errors_member(value: Value) -> Option<Option<Seq<ErrorMessageView>>> {
    match present_member(value, "errors"@) {
        None => Some(None),
        Some(m) => match json_items(m) {
            None => None,
            Some(items) => Some(Some(errors_of(items))),
        },
    }
}

/// The answer that `value` stands for, its `data` still as JSON.
pub open spec fn response_of(value: Value) -> ResponseView<Value> {
    if json_is_object(value) {
        match errors_member(value) {
            Some(errors) => ResponseView::ConventionResponse {
                data: present_member(value, "data"@),
                errors,
            },
            None => ResponseView::UnconventionalResponse(value),
        }
    } else {
        ResponseView::UnconventionalResponse(value)
    }
}

fn present<'v>(value: &'v Value, key: &str) -> (r: Option<&'v Value>)
    ensures
        referent(r) == present_member(*value, key@),
{
    match member(value, key) {
        Some(m) => if is_null(m) {
            None
        } else {
            Some(m)
        },
        None => None,
    }
}

fn read_u32(value: &Value) -> (r: Option<u32>)
    ensures
        r == u32_of(*value),
{
    match as_u64(value) {
        Some(n) => if n <= 0xffff_ffff {
            Some(n as u32)
        } else {
            None
        },
        None => None,
    }
}

fn read_u32_member(value: &Value, key: &str) -> (r: Option<u32>)
    ensures
        r == u32_member(*value, key@),
{
    match member(value, key) {
        Some(m) => read_u32(m),
        None => None,
    }
}

impl GraphQLErrorLocation {
    /// Reads a location from a JSON value.
    pub fn from_value(value: &Value) -> (r: Option<Self>)
        ensures
            r == location_of(*value),
    {
        match (read_u32_member(value, "line"), read_u32_member(value, "column")) {
            (Some(line), Some(column)) => Some(GraphQLErrorLocation { line, column }),
            _ => None,
        }
    }
}

fn read_locations(items: &Vec<Value>) -> (r: Option<Vec<GraphQLErrorLocation>>)
    ensures
        match locations_of(items@) {
            Some(list) => r is Some && r.unwrap()@ == list,
            None => r is None,
        },
{
    let mut out: Vec<GraphQLErrorLocation> = Vec::new();
    let mut i: usize = 0;
    while i < items.len()
        invariant
            i <= items@.len(),
            out@.len() == i,
            forall|j: int| 0 <= j < i ==> (#[trigger] location_of(items@[j])) == Some(out@[j]),
        decreases items@.len() - i,
    {
        match GraphQLErrorLocation::from_value(&items[i]) {
            Some(location) => {
                out.push(location);
            },
            None => {
                return None;
            },
        }
        i = i + 1;
    }
    assert(out@ =~= locations_of(items@).unwrap());
    Some(out)
}

fn read_locations_member(value: &Value) -> (r: Option<Option<Vec<GraphQLErrorLocation>>>)
    ensures
        match locations_member(*value) {
            None => r is None,
            Some(None) => r == Some(None::<Vec<GraphQLErrorLocation>>),
            Some(Some(list)) => r is Some && r.unwrap() is Some && r.unwrap().unwrap()@ == list,
        },
{
    match present(value, "locations") {
        None => Some(None),
        Some(m) => match items(m) {
            None => None,
            Some(list) => match read_locations(list) {
                None => None,
                Some(locations) => Some(Some(locations)),
            },
        },
    }
}

impl GraphQLErrorPathParam {
    /// Reads a path step from a JSON value.
    pub fn from_value(value: &Value) -> (r: Option<Self>)
        ensures
            match path_param_of(*value) {
                Some(step) => r is Some && r.unwrap()@ == step,
                None => r is None,
            },
    {
        match as_str(value) {
            Some(s) => Some(GraphQLErrorPathParam::String(String::from_str(s))),
            None => match read_u32(value) {
                Some(n) => Some(GraphQLErrorPathParam::Number(n)),
                None => None,
            },
        }
    }
}

fn read_path(items: &Vec<Value>) -> (r: Option<Vec<GraphQLErrorPathParam>>)
    ensures
        match path_of(items@) {
            Some(list) => r is Some && path_view(r.unwrap()@) == list,
            None => r is None,
        },
{
    let mut out: Vec<GraphQLErrorPathParam> = Vec::new();
    let mut i: usize = 0;
    while i < items.len()
        invariant
            i <= items@.len(),
            out@.len() == i,
            forall|j: int| 0 <= j < i ==> (#[trigger] path_param_of(items@[j])) == Some(out@[j]@),
        decreases items@.len() - i,
    {
        match GraphQLErrorPathParam::from_value(&items[i]) {
            Some(step) => {
                out.push(step);
            },
            None => {
                return None;
            },
        }
        i = i + 1;
    }
    assert(path_view(out@) =~= path_of(items@).unwrap());
    Some(out)
}

fn read_path_member(value: &Value) -> (r: Option<Option<Vec<GraphQLErrorPathParam>>>)
    ensures
        match path_member(*value) {
            None => r is None,
            Some(None) => r == Some(None::<Vec<GraphQLErrorPathParam>>),
            Some(Some(list)) => r is Some && r.unwrap() is Some && path_view(r.unwrap().unwrap()@)
                == list,
        },
{
    match present(value, "path") {
        None => Some(None),
        Some(m) => match items(m) {
            None => None,
            Some(list) => match read_path(list) {
                None => None,
                Some(path) => Some(Some(path)),
            },
        },
    }
}

fn read_message_member(value: &Value) -> (r: Option<String>)
    ensures
        match message_member(*value) {
            Some(s) => r is Some && r.unwrap()@ == s,
            None => r is None,
        },
{
    match member(value, "message") {
        Some(m) => match as_str(m) {
            Some(s) => Some(String::from_str(s)),
            None => None,
        },
        None => None,
    }
}

impl GraphQLErrorMessage {
    /// Reads an entry of an `errors` list from a JSON value. Every value gives
    /// an entry.
    pub fn from_value(value: &Value) -> (r: Self)
        ensures
            r@ == error_message_of(*value),
    {
        match (read_message_member(value), read_locations_member(value), read_path_member(value)) {
            (Some(message), Some(locations), Some(path)) => {
                let extensions = match present(value, "extensions") {
                    Some(e) => Some(e.clone()),
                    None => None,
                };
                GraphQLErrorMessage::ConventionalError { message, locations, extensions, path }
            },
            _ => GraphQLErrorMessage::UnconventionalError(value.clone()),
        }
    }
}

fn read_errors(items: &Vec<Value>) -> (r: Vec<GraphQLErrorMessage>)
    ensures
        messages_view(r@) == errors_of(items@),
{
    let mut out: Vec<GraphQLErrorMessage> = Vec::new();
    let mut i: usize = 0;
    while i < items.len()
        invariant
            i <= items@.len(),
            out@.len() == i,
            forall|j: int| 0 <= j < i ==> (#[trigger] out@[j])@ == error_message_of(items@[j]),
        decreases items@.len() - i,
    {
        out.push(GraphQLErrorMessage::from_value(&items[i]));
        i = i + 1;
    }
    assert(messages_view(out@) =~= errors_of(items@));
    out
}

fn read_errors_member(value: &Value) -> (r: Option<Option<Vec<GraphQLErrorMessage>>>)
    ensures
        match errors_member(*value) {
            None => r is None,
            Some(None) => r == Some(None::<Vec<GraphQLErrorMessage>>),
            Some(Some(list)) => r is Some && r.unwrap() is Some && messages_view(
                r.unwrap().unwrap()@,
            ) == list,
        },
{
    match present(value, "errors") {
        None => Some(None),
        Some(m) => match items(m) {
            None => None,
            Some(list) => Some(Some(read_errors(list))),
        },
    }
}

/// Reads the body of an answer as JSON. A body that is not JSON is the error
/// `Failed to parse response`, which carries no entries.
pub fn read_response(body: &[u8]) -> (r: Result<Value, GraphQLError>)
    ensures
        match json_parsed(body@) {
            Some(value) => r == Ok::<Value, GraphQLError>(value),
            None => r matches Err(err) && err@ == (ErrorView {
                message: "Failed to parse response"@,
                json: None,
            }),
        },
{
    match parse(body) {
        Some(value) => Ok(value),
        None => Err(GraphQLError::from_string("Failed to parse response")),
    }
}

impl GraphQLResponse<Value> {
    /// Reads an answer from a JSON value. Every value gives an answer: one
    /// that has not the conventional shape is kept whole.
    pub fn from_value(value: &Value) -> (r: Self)
        ensures
            r@ == response_of(*value),
    {
        if !is_object(value) {
            return GraphQLResponse::UnconventionalResponse(value.clone());
        }
        match read_errors_member(value) {
            Some(errors) => {
                let data = match present(value, "data") {
                    Some(d) => Some(d.clone()),
                    None => None,
                };
                GraphQLResponse::ConventionResponse { data, errors }
            },
            None => GraphQLResponse::UnconventionalResponse(value.clone()),
        }
    }

    /// The `data` of a conventional answer, still as JSON.
    pub fn data(&self) -> (r: Option<&Value>)
        ensures
            referent(r) == self@.data(),
    {
        match self {
            GraphQLResponse::ConventionResponse { data: Some(d), .. } => Some(d),
            _ => None,
        }
    }

    /// Puts the decoded `data` in the place of the JSON one. `decoded` is what
    /// decoding that JSON to the caller's type gave, `None` where it did not
    /// fit; `whole` is the value that the answer was read from. An answer
    /// whose `data` did not fit has not the conventional shape, and is kept
    /// whole.
    pub fn with_data<K>(self, decoded: Option<K>, whole: Value) -> (r: GraphQLResponse<K>)
        ensures
            r@ == self@.with_data(decoded, whole),
    {
        match self {
            GraphQLResponse::ConventionResponse { data: Some(_), errors } => match decoded {
                Some(k) => GraphQLResponse::ConventionResponse { data: Some(k), errors },
                None => GraphQLResponse::UnconventionalResponse(whole),
            },
            GraphQLResponse::ConventionResponse { data: None, errors } => {
                GraphQLResponse::ConventionResponse { data: None, errors }
            },
            GraphQLResponse::UnconventionalResponse(value) => {
                GraphQLResponse::UnconventionalResponse(value)
            },
        }
    }
}

impl ResponseView<Value> {
    /// The answer with its `data` decoded: see `GraphQLResponse::with_data`.
    pub open spec fn with_data<K>(self, decoded: Option<K>, whole: Value) -> ResponseView<K> {
        match self {
            ResponseView::ConventionResponse { data: Some(_), errors } => match decoded {
                Some(k) => ResponseView::ConventionResponse { data: Some(k), errors },
                None => ResponseView::UnconventionalResponse(whole),
            },
            ResponseView::ConventionResponse { data: None, errors } => {
                ResponseView::ConventionResponse { data: None, errors }
            },
            ResponseView::UnconventionalResponse(value) => ResponseView::UnconventionalResponse(
                value,
            ),
        }
    }
}

impl<T> ResponseView<T> {
    /// The `data` of a conventional answer.
    pub open spec fn data(self) -> Option<T> {
        match self {
            ResponseView::ConventionResponse { data, .. } => data,
            ResponseView::UnconventionalResponse(_) => None,
        }
    }

    /// A conventional answer with neither `data` nor `errors`: a server that
    /// keeps to the protocol sends none.
    pub open spec fn lacks_data(self) -> bool {
        self matches ResponseView::ConventionResponse { data: None, errors: None }
    }

    /// What the caller of a query gets for this answer.
    pub open spec fn outcome(self) -> Result<T, ErrorView>
        recommends
            !self.lacks_data(),
    {
        match self {
            ResponseView::ConventionResponse { data, errors: None } => Ok(data.unwrap()),
            ResponseView::ConventionResponse { errors: Some(list), .. } => Err(
                ErrorView { message: "Look at json field for more details"@, json: Some(list) },
            ),
            ResponseView::UnconventionalResponse(value) => Err(
                ErrorView {
                    message: "Couldn't parse the result."@,
                    json: Some(seq![ErrorMessageView::UnconventionalError(value)]),
                },
            ),
        }
    }
}

/// What the caller of a query gets for the JSON value `value` of an answer,
/// where decoding its `data` to the caller's type gave `decoded`.
pub open spec fn outcome_of<K>(value: Value, decoded: Option<K>) -> Result<K, ErrorView> {
    response_of(value).with_data(decoded, value).outcome()
}

/// An answer that holds `data` and no `errors` gives the caller the decoded
/// `data`.
pub proof fn lemma_data_reaches_the_caller<K>(value: Value, data: K)
    requires
        json_is_object(value),
        errors_member(value) == Some(None::<Seq<ErrorMessageView>>),
        present_member(value, "data"@) is Some,
    ensures
        outcome_of(value, Some(data)) == Ok::<K, ErrorView>(data),
{
}

/// An answer that holds a list `errors` fails with the entries of that list,
/// in order, under the fixed summary, whether or not it holds `data` too.
pub proof fn lemma_errors_reach_the_caller<K>(
    value: Value,
    decoded: Option<K>,
    list: Seq<ErrorMessageView>,
)
    requires
        json_is_object(value),
        errors_member(value) == Some(Some(list)),
        present_member(value, "data"@) is Some ==> decoded is Some,
    ensures
        outcome_of(value, decoded) == Err::<K, ErrorView>(
            ErrorView { message: "Look at json field for more details"@, json: Some(list) },
        ),
{
}

/// An answer of any other shape fails with the whole value as its one entry:
/// a value that is no object, one whose `errors` are no list, and one whose
/// `data` does not fit the caller's type.
pub proof fn lemma_other_shapes_are_kept_whole<K>(value: Value, decoded: Option<K>)
    requires
        !json_is_object(value) || errors_member(value) is None || (present_member(
            value,
            "data"@,
        ) is Some && decoded is None),
    ensures
        outcome_of(value, decoded) == Err::<K, ErrorView>(
            ErrorView {
                message: "Couldn't parse the result."@,
                json: Some(seq![ErrorMessageView::UnconventionalError(value)]),
            },
        ),
{
}

/// What the caller of a query gets for the JSON value `raw` of an answer,
/// where decoding its `data` to the caller's type gave `decoded`: the answer
/// is read, takes the decoded `data`, and is turned into the result. There is
/// no result, `None`, for an answer that holds neither `data` nor `errors`.
pub fn conclude<K>(raw: Value, decoded: Option<K>) -> (r: Option<Result<K, GraphQLError>>)
    ensures
        r is None <==> response_of(raw).with_data(decoded, raw).lacks_data(),
        r matches Some(out) ==> match outcome_of(raw, decoded) {
            Ok(data) => out == Ok::<K, GraphQLError>(data),
            Err(e) => out matches Err(err) && err@ == e,
        },
{
    let shape = GraphQLResponse::from_value(&raw);
    let typed = shape.with_data(decoded, raw);
    if typed.lacks_data() {
        None
    } else {
        Some(typed.into_result())
    }
}

impl<T> GraphQLResponse<T> {
    /// Whether this is a conventional answer with neither `data` nor `errors`.
    pub fn lacks_data(&self) -> (r: bool)
        ensures
            r == self@.lacks_data(),
    {
        match self {
            GraphQLResponse::ConventionResponse { data: None, errors: None } => true,
            _ => false,
        }
    }

    /// What the caller of a query gets for this answer: the `data` of an
    /// answer without `errors`; the entries of `errors` where there are some;
    /// the whole value, as the one entry of the error, where the answer has
    /// not the conventional shape.
    pub fn into_result(self) -> (r: Result<T, GraphQLError>)
        requires
            !self@.lacks_data(),
        ensures
            match self@.outcome() {
                Ok(data) => r == Ok::<T, GraphQLError>(data),
                Err(e) => r matches Err(err) && err@ == e,
            },
    {
        match self {
            GraphQLResponse::ConventionResponse { data, errors: None } => Ok(data.unwrap()),
            GraphQLResponse::ConventionResponse { errors: Some(list), .. } => Err(
                GraphQLError::from_json(list),
            ),
            GraphQLResponse::UnconventionalResponse(value) => {
                let mut list: Vec<GraphQLErrorMessage> = Vec::new();
                list.push(GraphQLErrorMessage::UnconventionalError(value));
                assert(messages_view(list@) =~= seq![ErrorMessageView::UnconventionalError(value)]);
                Err(
                    GraphQLError {
                        message: String::from_str("Couldn't parse the result."),
                        json: Some(list),
                    },
                )
            },
        }
    }
}

} // verus!
