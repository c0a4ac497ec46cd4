use perspective::client::{Request, Reply};
use perspective::model::{PerspectiveError, ValueType};
use perspective::request::{
    build_document, request_body, CONTENT_TYPE, ENDPOINT, KEY_PARAMETER, LANGUAGE, METHOD,
};
use perspective::PerspectiveClient;

fn request_of(client: &PerspectiveClient, text: &str, types: Vec<ValueType>) -> Request {
    match client.request(text, &types) {
        Ok(request) => request,
        Err(error) => panic!("no request was made: {:?}", error),
    }
}

#[test]
fn the_body_is_compact_json_with_sorted_members() {
    let body = request_body("hello", &vec![ValueType::Toxicity, ValueType::Spam], true);
    assert_eq!(
        body,
        "{\"comment\":{\"text\":\"hello\"},\"doNotStore\":true,\"languages\":[\"en\"],\"requestedAttributes\":{\"SPAM\":{},\"TOXICITY\":{}}}"
    );
}

#[test]
fn the_privacy_flag_is_forwarded() {
    let kept = request_body("a", &vec![ValueType::Obscene], false);
    assert_eq!(
        kept,
        "{\"comment\":{\"text\":\"a\"},\"doNotStore\":false,\"languages\":[\"en\"],\"requestedAttributes\":{\"OBSCENE\":{}}}"
    );
    let parsed: serde_json::Value = serde_json::from_str(&kept).unwrap();
    assert_eq!(parsed.get("doNotStore"), Some(&serde_json::Value::Bool(false)));
    let dropped = request_body("a", &vec![ValueType::Obscene], true);
    let parsed: serde_json::Value = serde_json::from_str(&dropped).unwrap();
    assert_eq!(parsed.get("doNotStore"), Some(&serde_json::Value::Bool(true)));
}

#[test]
fn escaped_text_comes_back_as_it_went_in() {
    let texts = vec![
        "plain",
        "she said \"no\"",
        "back\\slash and \\\" both",
        "line one\nline two\r\n\ttabbed",
        "control \u{0001}\u{001f} characters",
        "caf\u{00e9} \u{4f60}\u{597d} \u{1f600}",
        "{\"comment\":{\"text\":\"nested\"}}",
        "\u{2028}\u{2029}",
        " ",
    ];
    for text in texts {
        let body = request_body(text, &vec![ValueType::Toxicity], true);
        let parsed: serde_json::Value = serde_json::from_str(&body).unwrap();
        let comment = parsed.get("comment").unwrap();
        assert_eq!(comment.get("text").unwrap().as_str(), Some(text));
        assert_eq!(comment.as_object().unwrap().len(), 1);
    }
}

#[test]
fn the_document_has_the_four_members() {
    let document = build_document("x", &vec![ValueType::Spam], true);
    let members = document.as_object().unwrap();
    let names: Vec<&str> = members.keys().map(|name| name.as_str()).collect();
    assert_eq!(names, vec!["comment", "doNotStore", "languages", "requestedAttributes"]);
    assert_eq!(
        document.get("languages"),
        Some(&serde_json::Value::Array(vec![serde_json::Value::String("en".to_string())]))
    );
}

#[test]
fn toxicity_and_spam_are_the_only_requested_keys() {
    let body = request_body("text", &vec![ValueType::Toxicity, ValueType::Spam], false);
    let parsed: serde_json::Value = serde_json::from_str(&body).unwrap();
    let requested = parsed.get("requestedAttributes").unwrap().as_object().unwrap();
    assert_eq!(requested.len(), 2);
    let empty = serde_json::Value::Object(serde_json::Map::new());
    assert_eq!(requested.get("TOXICITY"), Some(&empty));
    assert_eq!(requested.get("SPAM"), Some(&empty));
    let names: Vec<&str> = requested.keys().map(|name| name.as_str()).collect();
    assert_eq!(names, vec!["SPAM", "TOXICITY"]);
}

#[test]
fn an_attribute_asked_for_twice_is_requested_once() {
    let types = vec![ValueType::Spam, ValueType::Toxicity, ValueType::Spam, ValueType::Spam];
    let document = build_document("text", &types, false);
    let requested = document.get("requestedAttributes").unwrap().as_object().unwrap();
    assert_eq!(requested.len(), 2);
    assert_eq!(
        request_body("text", &types, false),
        request_body("text", &vec![ValueType::Toxicity, ValueType::Spam], false)
    );
}

#[test]
fn all_ten_attributes_can_be_requested() {
    let types = vec![
        ValueType::Unsubstantial,
        ValueType::Toxicity,
        ValueType::Spam,
        ValueType::SevereToxicity,
        ValueType::Obscene,
        ValueType::LikelyToReject,
        ValueType::Inflammatory,
        ValueType::Incoherent,
        ValueType::AttackOnCommenter,
        ValueType::AttackOnAuthor,
    ];
    let document = build_document("text", &types, true);
    let requested = document.get("requestedAttributes").unwrap().as_object().unwrap();
    assert_eq!(requested.len(), 10);
    for attribute in types {
        assert_eq!(
            requested.get(attribute.token()),
            Some(&serde_json::Value::Object(serde_json::Map::new()))
        );
    }
}

#[test]
fn no_attributes_give_an_empty_object() {
    let document = build_document("text", &Vec::new(), true);
    assert_eq!(
        document.get("requestedAttributes"),
        Some(&serde_json::Value::Object(serde_json::Map::new()))
    );
}

#[test]
fn a_request_goes_to_the_endpoint_with_the_key() {
    assert_eq!(ENDPOINT, "https://commentanalyzer.googleapis.com/v1alpha1/comments:analyze");
    assert_eq!(KEY_PARAMETER, "key");
    assert_eq!(CONTENT_TYPE, "application/json");
    assert_eq!(METHOD, "POST");
    assert_eq!(LANGUAGE, "en");
    let client = PerspectiveClient::new("s3cr3t&key=x", true);
    let request = request_of(&client, "some text", vec![ValueType::Inflammatory]);
    assert_eq!(request.method, "POST");
    assert_eq!(request.timeout_seconds, None);
    assert_eq!(request.endpoint, "https://commentanalyzer.googleapis.com/v1alpha1/comments:analyze");
    assert_eq!(request.query, ("key".to_string(), "s3cr3t&key=x".to_string()));
    assert_eq!(request.content_type, "application/json");
    assert_eq!(
        request.body,
        "{\"comment\":{\"text\":\"some text\"},\"doNotStore\":true,\"languages\":[\"en\"],\"requestedAttributes\":{\"INFLAMMATORY\":{}}}"
    );
    assert_eq!(request.body, request_body("some text", &vec![ValueType::Inflammatory], true));
}

#[test]
fn the_client_forwards_its_own_flag() {
    let storing = PerspectiveClient::new("k", false);
    let request = request_of(&storing, "t", vec![ValueType::Spam]);
    let parsed: serde_json::Value = serde_json::from_str(&request.body).unwrap();
    assert_eq!(parsed.get("doNotStore"), Some(&serde_json::Value::Bool(false)));
}

#[test]
fn an_empty_text_makes_no_request() {
    let client = PerspectiveClient::new("k", true);
    assert_eq!(client.request("", &vec![ValueType::Toxicity]), Err(PerspectiveError::EmptyInput));
    assert_eq!(client.request("", &Vec::new()), Err(PerspectiveError::EmptyInput));
}

#[test]
fn an_empty_attribute_list_makes_no_request() {
    let client = PerspectiveClient::new("k", true);
    assert_eq!(client.request("text", &Vec::new()), Err(PerspectiveError::EmptyTypes));
    assert_eq!(client.request(" ", &Vec::new()), Err(PerspectiveError::EmptyTypes));
}

#[test]
fn an_empty_text_is_refused_whatever_the_reply() {
    let client = PerspectiveClient::new("k", true);
    let good = Reply::Body(
        b"{\"attributeScores\":{\"TOXICITY\":{\"summaryScore\":{\"value\":0.87,\"type\":\"PROBABILITY\"}}}}"
            .to_vec(),
    );
    assert_eq!(
        client.analyze("", vec![ValueType::Toxicity], &good),
        Err(PerspectiveError::EmptyInput)
    );
    assert_eq!(
        client.analyze("", vec![ValueType::Toxicity], &Reply::Failed),
        Err(PerspectiveError::EmptyInput)
    );
    assert_eq!(client.analyze("", Vec::new(), &good), Err(PerspectiveError::EmptyInput));
    assert_eq!(
        client.analyze("", vec![ValueType::Spam], &Reply::Body(b"not json".to_vec())),
        Err(PerspectiveError::EmptyInput)
    );
}

#[test]
fn an_empty_attribute_list_is_refused_whatever_the_reply() {
    let client = PerspectiveClient::new("k", false);
    let good = Reply::Body(b"{\"attributeScores\":{}}".to_vec());
    assert_eq!(client.analyze("text", Vec::new(), &good), Err(PerspectiveError::EmptyTypes));
    assert_eq!(
        client.analyze("text", Vec::new(), &Reply::Failed),
        Err(PerspectiveError::EmptyTypes)
    );
    assert_eq!(
        client.analyze("text", Vec::new(), &Reply::Body(Vec::new())),
        Err(PerspectiveError::EmptyTypes)
    );
}

#[test]
fn a_client_keeps_what_it_was_made_with() {
    let client = PerspectiveClient::new("the key", true);
    assert_eq!(client.key(), "the key");
    assert!(client.do_not_store());
    assert_eq!(client.timeout_seconds(), None);
    let other = PerspectiveClient::new("", false);
    assert_eq!(other.key(), "");
    assert!(!other.do_not_store());
}

#[test]
fn a_time_limit_is_handed_to_the_request() {
    let client = PerspectiveClient::new("the key", false).with_timeout(30);
    assert_eq!(client.key(), "the key");
    assert!(!client.do_not_store());
    assert_eq!(client.timeout_seconds(), Some(30));
    let request = request_of(&client, "text", vec![ValueType::Spam]);
    assert_eq!(request.timeout_seconds, Some(30));
    assert_eq!(request.query, ("key".to_string(), "the key".to_string()));
    let sooner = client.with_timeout(5);
    assert_eq!(sooner.timeout_seconds(), Some(5));
}

#[test]
fn the_same_call_gives_the_same_request() {
    let client = PerspectiveClient::new("k", true);
    let types = vec![ValueType::Toxicity, ValueType::Spam];
    assert_eq!(client.request("again", &types), client.request("again", &types));
    let swapped = vec![ValueType::Spam, ValueType::Toxicity];
    assert_eq!(client.request("again", &types), client.request("again", &swapped));
}
