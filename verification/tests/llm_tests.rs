use recipebook_api::llm::{
    bearer_token, build_chat_request, chat_endpoint_url, extract_recipe_info,
    normalize_ingredients, normalize_scalar_field, recipe_from_content, recipe_from_fields,
    HttpEvent, JsonField, LlmError, RecipeFields,
};

fn envelope_with_content(content: &str) -> String {
    format!(
        "{{\"choices\":[{{\"message\":{{\"role\":\"assistant\",\"content\":\"{}\"}}}}]}}",
        content.replace('\\', "\\\\").replace('"', "\\\"")
    )
}

#[test]
fn fenced_and_bare_reply_parse_alike() {
    let bare = "{\"ingredients\":[\"1 cup flour\"],\"prep_time\":\"20 min\",\"cook_time\":null,\"total_time\":null,\"servings\":null}";
    let fenced = format!("```json\n{}\n```", bare);
    let from_bare = recipe_from_content(bare).unwrap();
    let from_fenced = recipe_from_content(&fenced).unwrap();
    assert_eq!(from_bare, from_fenced);
    assert_eq!(from_bare.ingredients, vec!["1 cup flour".to_string()]);
    assert_eq!(from_bare.prep_time, Some("20 min".to_string()));
}

#[test]
fn lenient_field_normalization() {
    let content = "{\"ingredients\": [\"A\", \" B \", 5], \"prep_time\": \"null\", \"cook_time\": \"\", \"total_time\": \"10 min\", \"servings\": null}";
    let info = recipe_from_content(content).unwrap();
    assert_eq!(info.ingredients, vec!["A".to_string(), "B".to_string()]);
    assert_eq!(info.prep_time, None);
    assert_eq!(info.cook_time, None);
    assert_eq!(info.total_time, Some("10 min".to_string()));
    assert_eq!(info.servings, None);
}

#[test]
fn missing_members_read_as_absent() {
    let info = recipe_from_content("{}").unwrap();
    assert!(info.ingredients.is_empty());
    assert_eq!(info.prep_time, None);
    assert_eq!(info.cook_time, None);
    assert_eq!(info.total_time, None);
    assert_eq!(info.servings, None);
}

#[test]
fn non_array_ingredients_read_as_empty() {
    let info = recipe_from_content("{\"ingredients\": 5}").unwrap();
    assert!(info.ingredients.is_empty());
}

#[test]
fn scalar_field_cases() {
    assert_eq!(normalize_scalar_field(&JsonField::Missing), None);
    assert_eq!(normalize_scalar_field(&JsonField::NotText), None);
    assert_eq!(normalize_scalar_field(&JsonField::Text(String::from("  "))), None);
    assert_eq!(normalize_scalar_field(&JsonField::Text(String::from("NULL"))), None);
    assert_eq!(normalize_scalar_field(&JsonField::Text(String::from("Null"))), None);
    assert_eq!(
        normalize_scalar_field(&JsonField::Text(String::from(" 25 min "))),
        Some("25 min".to_string())
    );
}

#[test]
fn ingredients_keep_order_and_drop_non_strings() {
    let items = vec![
        JsonField::Text(String::from(" first ")),
        JsonField::NotText,
        JsonField::Text(String::from("second")),
        JsonField::Text(String::from("   ")),
    ];
    let out = normalize_ingredients(&items);
    assert_eq!(out, vec!["first".to_string(), "second".to_string()]);
}

#[test]
fn whole_reply_object_is_normalized() {
    let fields = RecipeFields {
        ingredients: vec![JsonField::Text(String::from("x"))],
        prep_time: JsonField::Text(String::from("null")),
        cook_time: JsonField::Missing,
        total_time: JsonField::Text(String::from(" 1 h ")),
        servings: JsonField::NotText,
    };
    let info = recipe_from_fields(&fields);
    assert_eq!(info.ingredients, vec!["x".to_string()]);
    assert_eq!(info.prep_time, None);
    assert_eq!(info.cook_time, None);
    assert_eq!(info.total_time, Some("1 h".to_string()));
    assert_eq!(info.servings, None);
}

#[test]
fn api_error_carries_status_and_body() {
    let event = HttpEvent::Response { status: 500, body: String::from("quota exceeded") };
    match extract_recipe_info(&event) {
        Err(LlmError::ApiError(detail)) => {
            assert_eq!(detail, "HTTP 500: quota exceeded");
            assert!(detail.contains("500"));
            assert!(detail.contains("quota exceeded"));
        },
        other => panic!("expected ApiError, got {:?}", other),
    }
}

#[test]
fn failing_status_is_not_parsed_as_json() {
    // the body is well-formed JSON, yet a 404 must stay an API error
    let event = HttpEvent::Response { status: 404, body: envelope_with_content("{}") };
    assert!(matches!(extract_recipe_info(&event), Err(LlmError::ApiError(_))));
}

#[test]
fn empty_choices_is_invalid_response() {
    let event = HttpEvent::Response { status: 200, body: String::from("{\"choices\":[]}") };
    assert_eq!(extract_recipe_info(&event), Err(LlmError::InvalidResponse));
}

#[test]
fn malformed_envelope_is_parse_error() {
    let event = HttpEvent::Response { status: 200, body: String::from("not json at all") };
    assert!(matches!(extract_recipe_info(&event), Err(LlmError::ParseError(_))));
    let event = HttpEvent::Response { status: 200, body: String::from("{\"choices\":7}") };
    assert!(matches!(extract_recipe_info(&event), Err(LlmError::ParseError(_))));
}

#[test]
fn malformed_reply_payload_is_parse_error() {
    let event = HttpEvent::Response { status: 200, body: envelope_with_content("not json") };
    assert!(matches!(extract_recipe_info(&event), Err(LlmError::ParseError(_))));
}

#[test]
fn chat_transport_failure_keeps_its_detail() {
    let event = HttpEvent::Failed(String::from("connection refused"));
    match extract_recipe_info(&event) {
        Err(LlmError::NetworkError(detail)) => assert_eq!(detail, "connection refused"),
        other => panic!("expected NetworkError, got {:?}", other),
    }
}

#[test]
fn successful_extraction_through_the_envelope() {
    let content = "{\"ingredients\":[\"2 eggs\"],\"prep_time\":\"5 min\",\"cook_time\":\"10 min\",\"total_time\":\"15 min\",\"servings\":\"4\"}";
    let event = HttpEvent::Response { status: 200, body: envelope_with_content(content) };
    let info = extract_recipe_info(&event).unwrap();
    assert_eq!(info.ingredients, vec!["2 eggs".to_string()]);
    assert_eq!(info.prep_time, Some("5 min".to_string()));
    assert_eq!(info.cook_time, Some("10 min".to_string()));
    assert_eq!(info.total_time, Some("15 min".to_string()));
    assert_eq!(info.servings, Some("4".to_string()));
}

#[test]
fn chat_request_holds_the_conversation() {
    let request = build_chat_request("Mix the flour.");
    assert_eq!(request.model, "openai/gpt-4o");
    assert_eq!(request.messages.len(), 2);
    assert_eq!(request.messages[0].role, "system");
    assert!(request.messages[0].content.contains("without markdown code blocks"));
    assert_eq!(request.messages[1].role, "user");
    assert!(request.messages[1].content.starts_with("Please analyze this recipe content"));
    assert!(request.messages[1].content.ends_with("Recipe content:\n        Mix the flour."));
}

#[test]
fn endpoint_and_bearer_header() {
    assert_eq!(chat_endpoint_url(), "https://openrouter.ai/api/v1/chat/completions");
    assert_eq!(bearer_token("k-123"), "Bearer k-123");
}

#[test]
fn llm_error_descriptions() {
    assert_eq!(LlmError::InvalidResponse.describe(), "Invalid response from API");
    assert_eq!(LlmError::NetworkError(String::from("x")).describe(), "Network error: x");
    assert_eq!(LlmError::ApiError(String::from("HTTP 500: y")).describe(), "API error: HTTP 500: y");
    assert_eq!(LlmError::ParseError(String::from("z")).describe(), "Parse error: z");
}
