use lm_studio::exchange::{BodyOutcome, SendOutcome};
use lm_studio::failure::Failure;
use lm_studio::listing::{check_response, listing_result};
use lm_studio::models::{model_ids, LmStudioModel, LmStudioModelsResponse};
use lm_studio::status::HttpStatus;

const URL: &str = "http://localhost:1234/v1/models";

fn model(id: &str) -> LmStudioModel {
    LmStudioModel { id: id.to_string(), object: "model".to_string(), owned_by: "org".to_string() }
}

fn reply(ids: &[&str]) -> LmStudioModelsResponse {
    LmStudioModelsResponse {
        object: "list".to_string(),
        data: ids.iter().map(|id| model(id)).collect(),
    }
}

fn decoded(ids: &[&str]) -> BodyOutcome {
    BodyOutcome::Decoded { response: reply(ids) }
}

fn responded(code: u16) -> SendOutcome {
    SendOutcome::Responded { status: HttpStatus::from_u16(code).unwrap() }
}

fn from_json(body: &str) -> BodyOutcome {
    let value: serde_json::Value = match serde_json::from_str(body) {
        Ok(value) => value,
        Err(error) => {
            return BodyOutcome::DecodeFailed { error: error.to_string(), body: body.to_string() }
        }
    };
    let text = |value: &serde_json::Value, key: &str| value[key].as_str().unwrap().to_string();
    let data = value["data"]
        .as_array()
        .unwrap()
        .iter()
        .map(|record| LmStudioModel {
            id: text(record, "id"),
            object: text(record, "object"),
            owned_by: text(record, "owned_by"),
        })
        .collect();
    BodyOutcome::Decoded {
        response: LmStudioModelsResponse { object: text(&value, "object"), data },
    }
}

#[test]
fn well_formed_reply_lists_its_non_empty_identifiers_in_order() {
    let result = listing_result(decoded(&["llama-3", "", "qwen2.5-7b", "", "", "mistral"]));
    assert_eq!(
        result,
        Ok(vec!["llama-3".to_string(), "qwen2.5-7b".to_string(), "mistral".to_string()])
    );
}

#[test]
fn reply_without_empty_identifiers_lists_all() {
    let result = listing_result(decoded(&["b", "a", "c"]));
    assert_eq!(result, Ok(vec!["b".to_string(), "a".to_string(), "c".to_string()]));
}

#[test]
fn repeated_identifiers_are_listed_as_often_as_they_come() {
    let result = listing_result(decoded(&["a", "b", "a", "", "a"]));
    assert_eq!(
        result,
        Ok(vec!["a".to_string(), "b".to_string(), "a".to_string(), "a".to_string()])
    );
}

#[test]
fn identifier_of_blanks_is_not_empty() {
    assert_eq!(listing_result(decoded(&[" ", ""])), Ok(vec![" ".to_string()]));
}

#[test]
fn single_identifier_is_listed() {
    assert_eq!(listing_result(decoded(&["only"])), Ok(vec!["only".to_string()]));
    assert_eq!(listing_result(decoded(&["", "only"])), Ok(vec!["only".to_string()]));
    assert_eq!(listing_result(decoded(&["only", ""])), Ok(vec!["only".to_string()]));
}

#[test]
fn listed_count_is_records_less_empty_ones() {
    let ids = ["", "m1", "", "m2", "m3", "", "m4", ""];
    let listed = listing_result(decoded(&ids)).unwrap();
    let empty = ids.iter().filter(|id| id.is_empty()).count();
    assert_eq!(listed.len(), ids.len() - empty);
    assert_eq!(listed.len(), 4);
}

#[test]
fn model_ids_of_an_empty_reply_is_empty() {
    assert_eq!(model_ids(&reply(&[])), Vec::<String>::new());
    assert_eq!(model_ids(&reply(&["", ""])), Vec::<String>::new());
}

#[test]
fn model_ids_reads_the_identifier_only() {
    let response = LmStudioModelsResponse {
        object: String::new(),
        data: vec![
            LmStudioModel { id: "x".to_string(), object: String::new(), owned_by: String::new() },
            LmStudioModel { id: String::new(), object: "y".to_string(), owned_by: "z".to_string() },
        ],
    };
    assert_eq!(model_ids(&response), vec!["x".to_string()]);
}

#[test]
fn reply_with_no_records_fails_with_no_models() {
    let result = listing_result(decoded(&[]));
    assert_eq!(result, Err(Failure::NoModels));
    assert_eq!(
        result.unwrap_err().message(),
        "No models found in LM Studio. Make sure a model is loaded."
    );
}

#[test]
fn reply_with_empty_identifiers_only_fails_with_no_models() {
    let result = listing_result(decoded(&["", "", ""]));
    assert_eq!(result, Err(Failure::NoModels));
    assert!(result.unwrap_err().message().contains("No models found"));
}

#[test]
fn non_success_status_fails_with_the_status_code() {
    let result = check_response(URL, responded(500));
    assert_eq!(result, Err(Failure::Status { status: HttpStatus::from_u16(500).unwrap() }));
    let message = result.unwrap_err().message();
    assert!(message.contains("500"));
    assert_eq!(
        message,
        "LM Studio returned status 500 Internal Server Error: Internal Server Error"
    );
}

#[test]
fn every_non_success_status_is_named_in_the_message() {
    let mut code: u16 = 100;
    while code <= 999 {
        let result = check_response(URL, responded(code));
        if (200..300).contains(&code) {
            assert_eq!(result, Ok(()));
        } else {
            assert!(result.unwrap_err().message().contains(&code.to_string()));
        }
        code += 1;
    }
}

#[test]
fn success_status_goes_on_to_the_body() {
    assert_eq!(check_response(URL, responded(200)), Ok(()));
    assert_eq!(check_response(URL, responded(204)), Ok(()));
    assert_eq!(check_response(URL, responded(299)), Ok(()));
}

#[test]
fn redirect_and_informational_statuses_fail() {
    assert!(check_response(URL, responded(199)).is_err());
    assert!(check_response(URL, responded(300)).is_err());
    assert_eq!(
        check_response(URL, responded(301)).unwrap_err().message(),
        "LM Studio returned status 301 Moved Permanently: Moved Permanently"
    );
}

#[test]
fn missing_client_fails_the_listing() {
    let sent = SendOutcome::ClientFailed { error: "builder error".to_string() };
    let result = check_response(URL, sent);
    assert_eq!(result, Err(Failure::ClientBuild { error: "builder error".to_string() }));
    assert_eq!(result.unwrap_err().message(), "Failed to create HTTP client: builder error");
}

#[test]
fn missing_response_fails_the_listing_with_the_address() {
    let sent = SendOutcome::TransportFailed { error: "connection refused".to_string() };
    let result = check_response(URL, sent);
    assert_eq!(
        result,
        Err(Failure::Connect { url: URL.to_string(), error: "connection refused".to_string() })
    );
    assert_eq!(
        result.unwrap_err().message(),
        "Failed to connect to LM Studio at http://localhost:1234/v1/models: connection refused"
    );
}

#[test]
fn unread_body_fails_the_listing() {
    let result = listing_result(BodyOutcome::ReadFailed { error: "timed out".to_string() });
    assert_eq!(result, Err(Failure::ReadBody { error: "timed out".to_string() }));
    assert_eq!(result.unwrap_err().message(), "Failed to read response text: timed out");
}

#[test]
fn malformed_json_fails_with_the_parse_error_and_the_body() {
    let body = "{\"object\": \"list\", \"data\": [";
    let outcome = from_json(body);
    let error = match &outcome {
        BodyOutcome::DecodeFailed { error, .. } => error.clone(),
        _ => panic!("the body is not JSON"),
    };
    assert!(!error.is_empty());
    let message = listing_result(outcome).unwrap_err().message();
    assert!(message.contains(&error));
    assert!(message.contains(body));
    assert_eq!(
        message,
        format!("Failed to parse models response: {}. Response was: {}", error, body)
    );
}

#[test]
fn body_that_is_no_json_at_all_fails_with_the_body_quoted() {
    let message = listing_result(from_json("<html>busy</html>")).unwrap_err().message();
    assert_eq!(
        message,
        "Failed to parse models response: expected value at line 1 column 1. \
         Response was: <html>busy</html>"
    );
}

#[test]
fn json_reply_is_listed() {
    let body = "{\"object\":\"list\",\"data\":[\
        {\"id\":\"llama-3\",\"object\":\"model\",\"owned_by\":\"meta\"},\
        {\"id\":\"\",\"object\":\"model\",\"owned_by\":\"nobody\"},\
        {\"id\":\"phi-3\",\"object\":\"model\",\"owned_by\":\"microsoft\"}]}";
    assert_eq!(
        listing_result(from_json(body)),
        Ok(vec!["llama-3".to_string(), "phi-3".to_string()])
    );
}

#[test]
fn json_reply_without_records_fails_with_no_models() {
    let result = listing_result(from_json("{\"object\":\"list\",\"data\":[]}"));
    assert_eq!(result, Err(Failure::NoModels));
}
