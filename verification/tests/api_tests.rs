use nanogpt_core::api::{
    bearer_header, ApiError, ChatRequest, ChatResponse, Choice, Message, ResponseError, Usage,
};
use nanogpt_core::credentials::{CredentialError, CredentialManager};
use nanogpt_core::utils::get_database_path;

fn ok_response(content: &str) -> ChatResponse {
    ChatResponse {
        id: Some("resp-1".to_string()),
        object: None,
        created: Some(1),
        model: Some("gpt-x".to_string()),
        choices: Some(vec![Choice {
            index: 0,
            message: Message { role: "assistant".to_string(), content: content.to_string() },
            finish_reason: Some("stop".to_string()),
        }]),
        usage: Some(Usage { prompt_tokens: 1, completion_tokens: 2, total_tokens: 3 }),
        error: None,
    }
}

#[test]
fn extract_content_returns_the_first_choice() {
    let r = ok_response("hello!");
    assert_eq!(r.extract_content().unwrap(), "hello!");
}

#[test]
fn embedded_error_takes_precedence_over_choices() {
    let mut r = ok_response("hello!");
    r.error = Some(ApiError {
        message: "quota exceeded".to_string(),
        kind: Some("insufficient_quota".to_string()),
        code: None,
        status: Some(429),
    });
    match r.extract_content() {
        Err(ResponseError::Api(e)) => {
            assert_eq!(e.message, "quota exceeded");
            assert_eq!(e.status, Some(429));
        }
        other => panic!("expected the embedded error, got {:?}", other),
    }
}

#[test]
fn missing_or_empty_choices_is_an_empty_choices_error() {
    let mut r = ok_response("x");
    r.choices = None;
    assert!(matches!(r.extract_content(), Err(ResponseError::EmptyChoices)));
    let mut r2 = ok_response("x");
    r2.choices = Some(vec![]);
    assert!(matches!(r2.extract_content(), Err(ResponseError::EmptyChoices)));
}

#[test]
fn new_request_sets_no_sampling_parameters() {
    let req = ChatRequest::new(
        "gpt-x".to_string(),
        vec![Message { role: "user".to_string(), content: "hi".to_string() }],
    );
    assert_eq!(req.model, "gpt-x");
    assert_eq!(req.messages.len(), 1);
    assert!(req.temperature_milli.is_none());
    assert!(req.max_tokens.is_none());
    assert!(req.top_p_milli.is_none());
    assert!(req.frequency_penalty_milli.is_none());
    assert!(req.presence_penalty_milli.is_none());
    assert!(req.stream.is_none());
}

#[test]
fn bearer_header_prefixes_the_credential() {
    assert_eq!(bearer_header("sk-abc"), "Bearer sk-abc");
    assert_eq!(bearer_header(""), "Bearer ");
}

#[test]
fn credentials_shorter_than_ten_characters_are_rejected() {
    assert!(!CredentialManager::validate_api_key(""));
    assert!(!CredentialManager::validate_api_key("short"));
    assert!(!CredentialManager::validate_api_key("123456789"));
    assert!(CredentialManager::validate_api_key("1234567890"));
    assert!(CredentialManager::validate_api_key("sk-a-perfectly-long-key"));
}

#[test]
fn credential_errors_tell_their_causes_apart() {
    let not_found = CredentialError::NotFound;
    let get = CredentialError::GetError("unreadable".to_string());
    let set = CredentialError::SetError("unwritable".to_string());
    assert_eq!(not_found, CredentialError::NotFound);
    assert_ne!(get, set);
    assert_ne!(get, not_found);
}

#[test]
fn database_path_is_inside_the_data_dir() {
    assert_eq!(get_database_path("/home/u/.local/share/nanogpt-chat"), "/home/u/.local/share/nanogpt-chat/chat.db");
    assert_eq!(get_database_path(""), "/chat.db");
}
