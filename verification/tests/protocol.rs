use ai_toolkit::errors::AiError;
use ai_toolkit::manager::model_names;
use ai_toolkit::ollama_client::{
    generate_request_body, interpret_generate_outcome, interpret_list_outcome,
    interpret_status_outcome, model_name_body, HttpOutcome,
};

#[test]
fn model_name_body_is_json() {
    assert_eq!(model_name_body("llama3.2:1b"), "{\"name\":\"llama3.2:1b\"}");
}

#[test]
fn model_name_body_escapes_the_name() {
    assert_eq!(model_name_body("a\"b\\c"), "{\"name\":\"a\\\"b\\\\c\"}");
    assert_eq!(model_name_body("a\nb\u{1}"), "{\"name\":\"a\\nb\\u0001\"}");
}

#[test]
fn generate_body_holds_model_prompt_and_options() {
    assert_eq!(
        generate_request_body("m1", "fix this"),
        "{\"model\":\"m1\",\"prompt\":\"fix this\",\"stream\":false,\"options\":{\"temperature\":0.1,\"num_predict\":512}}"
    );
}

#[test]
fn generation_reply_is_trimmed() {
    let o = HttpOutcome::Response {
        status: 200,
        body: "{\"response\":\"  Hello, how are you?  \"}".to_string(),
    };
    assert_eq!(interpret_generate_outcome(o), Ok("Hello, how are you?".to_string()));
}

#[test]
fn generation_errors_follow_the_taxonomy() {
    assert_eq!(interpret_generate_outcome(HttpOutcome::TimedOut), Err(AiError::Timeout));
    assert_eq!(interpret_generate_outcome(HttpOutcome::SendFailed), Err(AiError::Transport));
    let o = HttpOutcome::Response { status: 500, body: String::new() };
    assert_eq!(interpret_generate_outcome(o), Err(AiError::Server { status: 500 }));
    let o = HttpOutcome::Response { status: 200, body: "not json".to_string() };
    assert_eq!(interpret_generate_outcome(o), Err(AiError::Protocol));
    let o = HttpOutcome::Response { status: 200, body: "{\"other\":1}".to_string() };
    assert_eq!(interpret_generate_outcome(o), Err(AiError::Protocol));
}

#[test]
fn listing_yields_names_in_server_order() {
    let body = "{\"models\":[\
        {\"name\":\"llama3.2:1b\",\"size\":1000,\"modified_at\":\"2024-01-01T00:00:00Z\"},\
        {\"name\":\"gemma2:2b\",\"size\":270,\"modified_at\":\"2024-02-02T00:00:00Z\"}]}";
    let o = HttpOutcome::Response { status: 200, body: body.to_string() };
    let models = interpret_list_outcome(o).unwrap();
    assert_eq!(models.len(), 2);
    assert_eq!(models[0].name, "llama3.2:1b");
    assert_eq!(models[0].size, 1000);
    assert_eq!(models[0].modified_at, "2024-01-01T00:00:00Z");
    assert_eq!(models[1].name, "gemma2:2b");
    let names = model_names(&models);
    assert_eq!(names, vec!["llama3.2:1b".to_string(), "gemma2:2b".to_string()]);
}

#[test]
fn malformed_listing_is_a_protocol_error() {
    let o = HttpOutcome::Response { status: 200, body: "{}".to_string() };
    assert!(matches!(interpret_list_outcome(o), Err(AiError::Protocol)));
    assert!(matches!(
        interpret_list_outcome(HttpOutcome::SendFailed),
        Err(AiError::Transport)
    ));
}

#[test]
fn deleting_a_missing_model_is_a_server_error() {
    let o = HttpOutcome::Response { status: 404, body: String::new() };
    assert_eq!(interpret_status_outcome(o), Err(AiError::Server { status: 404 }));
    let o = HttpOutcome::Response { status: 200, body: String::new() };
    assert_eq!(interpret_status_outcome(o), Ok(()));
    assert_eq!(interpret_status_outcome(HttpOutcome::SendFailed), Err(AiError::Transport));
}
