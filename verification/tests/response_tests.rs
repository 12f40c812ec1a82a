use gql_client::error::{
    GraphQLError, GraphQLErrorLocation, GraphQLErrorMessage, GraphQLErrorPathParam,
};
use gql_client::response::{conclude, read_response, GraphQLResponse};
use std::collections::HashMap;

fn value(text: &str) -> serde_json::Value {
    serde_json::from_str(text).unwrap()
}

/// Takes a body through every step that follows the transport, with the
/// `data` decoded to a map from names to integers.
fn settle(body: &[u8]) -> Result<HashMap<String, i64>, GraphQLError> {
    let raw = read_response(body)?;
    let shape = GraphQLResponse::from_value(&raw);
    let decoded = match shape.data() {
        Some(d) => serde_json::from_value::<HashMap<String, i64>>(d.clone()).ok(),
        None => None,
    };
    let typed = shape.with_data(decoded, raw);
    assert!(!typed.lacks_data());
    typed.into_result()
}

fn failure(body: &[u8]) -> GraphQLError {
    match settle(body) {
        Ok(_) => panic!("the call succeeded"),
        Err(e) => e,
    }
}

#[test]
fn data_without_errors_is_success() {
    let mut expected = HashMap::new();
    expected.insert("x".to_string(), 1);
    match settle(b"{\"data\": {\"x\": 1}}") {
        Ok(data) => assert_eq!(data, expected),
        Err(_) => panic!("the call failed"),
    }
}

#[test]
fn null_errors_count_as_no_errors() {
    let mut expected = HashMap::new();
    expected.insert("x".to_string(), 7);
    match settle(b"{\"data\": {\"x\": 7}, \"errors\": null, \"more\": true}") {
        Ok(data) => assert_eq!(data, expected),
        Err(_) => panic!("the call failed"),
    }
}

#[test]
fn one_conventional_error() {
    let e = failure(b"{\"errors\": [{\"message\": \"boom\"}]}");
    assert_eq!(e.message(), "Look at json field for more details");
    assert_eq!(
        e.json(),
        &Some(vec![GraphQLErrorMessage::ConventionalError {
            message: "boom".to_string(),
            locations: None,
            extensions: None,
            path: None,
        }])
    );
    assert!(e.render().lines().any(|line| line == "Message: boom"));
}

#[test]
fn two_errors_render_in_order() {
    let e = failure(
        b"{\"errors\": [{\"message\":\"a\",\"locations\":[{\"line\":1,\"column\":2}]}, {\"message\":\"b\"}]}",
    );
    assert_eq!(
        e.json(),
        &Some(vec![
            GraphQLErrorMessage::ConventionalError {
                message: "a".to_string(),
                locations: Some(vec![GraphQLErrorLocation { line: 1, column: 2 }]),
                extensions: None,
                path: None,
            },
            GraphQLErrorMessage::ConventionalError {
                message: "b".to_string(),
                locations: None,
                extensions: None,
                path: None,
            },
        ])
    );
    assert_eq!(
        e.render(),
        "GQLClient Error: Look at json field for more details\nMessage: a\nMessage: b\n"
    );
}

#[test]
fn errors_win_over_data() {
    let e = failure(b"{\"data\": {\"x\": 1}, \"errors\": [{\"message\": \"partial\"}]}");
    assert_eq!(e.message(), "Look at json field for more details");
    assert_eq!(e.json().as_ref().unwrap().len(), 1);
}

#[test]
fn a_bare_array_is_unconventional() {
    let e = failure(b"[1,2,3]");
    assert_eq!(e.message(), "Couldn't parse the result.");
    assert_eq!(
        e.json(),
        &Some(vec![GraphQLErrorMessage::UnconventionalError(value("[1,2,3]"))])
    );
    assert_eq!(e.render(), "GQLClient Error: Couldn't parse the result.\nMessage: [1,2,3]\n");
}

#[test]
fn errors_that_are_no_list_make_the_answer_unconventional() {
    let e = failure(b"{\"errors\": \"down\"}");
    assert_eq!(e.message(), "Couldn't parse the result.");
    assert_eq!(
        e.json(),
        &Some(vec![GraphQLErrorMessage::UnconventionalError(value("{\"errors\":\"down\"}"))])
    );
}

#[test]
fn data_that_does_not_fit_makes_the_answer_unconventional() {
    let e = failure(b"{\"data\": {\"x\": \"one\"}}");
    assert_eq!(e.message(), "Couldn't parse the result.");
    assert_eq!(
        e.json(),
        &Some(vec![GraphQLErrorMessage::UnconventionalError(value("{\"data\":{\"x\":\"one\"}}"))])
    );
}

#[test]
fn a_body_that_is_not_json_fails_to_parse() {
    let e = failure(b"not json");
    assert_eq!(e.message(), "Failed to parse response");
    assert!(e.json().is_none());
    let e = failure(b"");
    assert_eq!(e.message(), "Failed to parse response");
    assert!(e.json().is_none());
}

#[test]
fn read_response_gives_the_value_of_a_json_body() {
    match read_response(b" {\"a\": [true, null]} ") {
        Ok(v) => assert_eq!(v, value("{\"a\":[true,null]}")),
        Err(_) => panic!("the body was refused"),
    }
}

#[test]
fn an_empty_object_lacks_data() {
    let shape = GraphQLResponse::from_value(&value("{}"));
    assert!(shape.lacks_data());
    assert!(shape.data().is_none());
    let shape = GraphQLResponse::from_value(&value("{\"data\": null, \"errors\": null}"));
    assert!(shape.lacks_data());
    let shape = GraphQLResponse::from_value(&value("{\"data\": 1}"));
    assert!(!shape.lacks_data());
    assert_eq!(shape.data(), Some(&value("1")));
}

#[test]
fn with_data_keeps_errors_and_ignores_a_decoding_that_was_not_needed() {
    let raw = value("{\"errors\": []}");
    let shape = GraphQLResponse::from_value(&raw);
    match shape.with_data(Some(5u8), raw) {
        GraphQLResponse::ConventionResponse { data, errors } => {
            assert_eq!(data, None);
            assert_eq!(errors, Some(Vec::new()));
        }
        GraphQLResponse::UnconventionalResponse(_) => panic!("the shape changed"),
    }
}

#[test]
fn an_empty_error_list_is_still_an_error() {
    let e = failure(b"{\"data\": {\"x\": 1}, \"errors\": []}");
    assert_eq!(e.message(), "Look at json field for more details");
    assert_eq!(e.json(), &Some(Vec::new()));
}

#[test]
fn a_full_conventional_error_is_read_field_by_field() {
    let entry = GraphQLErrorMessage::from_value(&value(
        "{\"message\":\"m\",\"locations\":[{\"line\":3,\"column\":4},{\"column\":6,\"line\":5}],\
         \"extensions\":{\"code\":\"E1\"},\"path\":[\"user\",2,\"name\"],\"other\":1}",
    ));
    assert_eq!(
        entry,
        GraphQLErrorMessage::ConventionalError {
            message: "m".to_string(),
            locations: Some(vec![
                GraphQLErrorLocation { line: 3, column: 4 },
                GraphQLErrorLocation { line: 5, column: 6 },
            ]),
            extensions: Some(value("{\"code\":\"E1\"}")),
            path: Some(vec![
                GraphQLErrorPathParam::String("user".to_string()),
                GraphQLErrorPathParam::Number(2),
                GraphQLErrorPathParam::String("name".to_string()),
            ]),
        }
    );
}

#[test]
fn null_members_of_an_error_count_as_absent() {
    let entry = GraphQLErrorMessage::from_value(&value(
        "{\"message\":\"m\",\"locations\":null,\"extensions\":null,\"path\":null}",
    ));
    assert_eq!(
        entry,
        GraphQLErrorMessage::ConventionalError {
            message: "m".to_string(),
            locations: None,
            extensions: None,
            path: None,
        }
    );
}

#[test]
fn an_entry_without_a_string_message_is_unconventional() {
    for text in [
        "\"oops\"",
        "{}",
        "{\"message\": 5}",
        "{\"message\": null}",
        "{\"message\":\"m\",\"locations\":{}}",
        "{\"message\":\"m\",\"locations\":[{\"line\":1}]}",
        "{\"message\":\"m\",\"locations\":[{\"line\":1,\"column\":-2}]}",
        "{\"message\":\"m\",\"locations\":[{\"line\":1,\"column\":4294967296}]}",
        "{\"message\":\"m\",\"path\":\"user\"}",
        "{\"message\":\"m\",\"path\":[true]}",
        "{\"message\":\"m\",\"path\":[1.5]}",
        "{\"message\":\"m\",\"path\":[4294967296]}",
    ] {
        let v = value(text);
        assert_eq!(
            GraphQLErrorMessage::from_value(&v),
            GraphQLErrorMessage::UnconventionalError(v.clone()),
            "{}",
            text
        );
    }
}

#[test]
fn an_unconventional_entry_stands_among_conventional_ones() {
    let e = failure(b"{\"errors\": [{\"message\":\"a\"}, \"plain\", {\"code\": 7}]}");
    assert_eq!(
        e.render(),
        "GQLClient Error: Look at json field for more details\n\
         Message: a\nMessage: \"plain\"\nMessage: {\"code\":7}\n"
    );
}

#[test]
fn the_largest_numbers_that_fit_are_read() {
    assert_eq!(
        GraphQLErrorLocation::from_value(&value("{\"line\":4294967295,\"column\":0}")),
        Some(GraphQLErrorLocation { line: 4294967295, column: 0 })
    );
    assert_eq!(GraphQLErrorLocation::from_value(&value("[1,2]")), None);
    assert_eq!(
        GraphQLErrorPathParam::from_value(&value("4294967295")),
        Some(GraphQLErrorPathParam::Number(4294967295))
    );
    assert_eq!(
        GraphQLErrorPathParam::from_value(&value("\"a\"")),
        Some(GraphQLErrorPathParam::String("a".to_string()))
    );
    assert_eq!(GraphQLErrorPathParam::from_value(&value("null")), None);
}

#[test]
fn null_data_beside_errors_reports_the_errors() {
    let e = failure(
        b"{\"data\": null, \"errors\": [{\"message\": \"denied\", \"path\": [\"user\", 0], \"extensions\": {\"code\": \"FORBIDDEN\"}}]}",
    );
    assert_eq!(e.message(), "Look at json field for more details");
    assert_eq!(
        e.json(),
        &Some(vec![GraphQLErrorMessage::ConventionalError {
            message: "denied".to_string(),
            locations: None,
            extensions: Some(value("{\"code\":\"FORBIDDEN\"}")),
            path: Some(vec![
                GraphQLErrorPathParam::String("user".to_string()),
                GraphQLErrorPathParam::Number(0),
            ]),
        }])
    );
    assert_eq!(
        e.render(),
        "GQLClient Error: Look at json field for more details\nMessage: denied\n"
    );
}

#[test]
fn conclude_gives_the_decoded_data() {
    match conclude(value("{\"data\": {\"x\": 1}}"), Some(7u8)) {
        Some(Ok(data)) => assert_eq!(data, 7),
        _ => panic!("no data came back"),
    }
}

#[test]
fn conclude_reports_errors_and_shapes_that_do_not_fit() {
    match conclude(value("{\"data\": {\"x\": 1}, \"errors\": [{\"message\": \"m\"}]}"), Some(7u8)) {
        Some(Err(e)) => {
            assert_eq!(e.message(), "Look at json field for more details");
            assert_eq!(e.render(), "GQLClient Error: Look at json field for more details\nMessage: m\n");
        }
        _ => panic!("no error came back"),
    }
    match conclude(value("{\"data\": {\"x\": 1}}"), None::<u8>) {
        Some(Err(e)) => {
            assert_eq!(e.message(), "Couldn't parse the result.");
            assert_eq!(
                e.json(),
                &Some(vec![GraphQLErrorMessage::UnconventionalError(value("{\"data\":{\"x\":1}}"))])
            );
        }
        _ => panic!("no error came back"),
    }
    match conclude(value("[1,2,3]"), Some(7u8)) {
        Some(Err(e)) => assert_eq!(e.message(), "Couldn't parse the result."),
        _ => panic!("no error came back"),
    }
}

#[test]
fn conclude_has_no_result_for_an_answer_without_data_and_errors() {
    assert!(conclude(value("{}"), None::<u8>).is_none());
    assert!(conclude(value("{\"data\": null}"), Some(7u8)).is_none());
    assert!(conclude(value("{\"errors\": null, \"other\": 1}"), None::<u8>).is_none());
}
