use trackhound::json::{JsonItem, JsonValue};
use trackhound::models::EmailMessage;
use trackhound::openai::{classification_prompt, reply_body_content, response_content, ReplyError};
use trackhound::text::truncate;

fn email(body: &str) -> EmailMessage {
    EmailMessage {
        id: "1".to_string(),
        thread_id: "t1".to_string(),
        subject: "Shipment".to_string(),
        from_addr: "shop@example.com".to_string(),
        snippet: "Your package shipped".to_string(),
        body_text: body.to_string(),
        internal_date_ms: 0,
    }
}

#[test]
fn prompt_lists_fields_and_cuts_body() {
    assert_eq!(
        classification_prompt(&email("Tracking soon")),
        "From: shop@example.com\nSubject: Shipment\nSnippet: Your package shipped\nBody:\nTracking soon"
    );
    let long: String = std::iter::repeat('ä').take(12005).collect();
    let p = classification_prompt(&email(&long));
    assert_eq!(p.chars().filter(|c| *c == 'ä').count(), 12000);
}

#[test]
fn truncate_counts_characters() {
    assert_eq!(truncate("héllo", 2), "hé");
    assert_eq!(truncate("héllo", 5), "héllo");
    assert_eq!(truncate("héllo", 9), "héllo");
    assert_eq!(truncate("", 0), "");
}

#[test]
fn reads_reply_content() {
    let reply = JsonValue::Object(vec![(
        "choices".to_string(),
        JsonValue::Array(vec![JsonItem {
            value: JsonValue::Object(vec![(
                "message".to_string(),
                JsonValue::Object(vec![(
                    "content".to_string(),
                    JsonValue::Str("{\"shipments\":[]}".to_string()),
                )]),
            )]),
            text: String::new(),
        }]),
    )]);
    assert_eq!(response_content(&reply).as_deref(), Some("{\"shipments\":[]}"));
    assert_eq!(response_content(&JsonValue::Object(vec![])), None);
    let empty_choices = JsonValue::Object(vec![("choices".to_string(), JsonValue::Array(vec![]))]);
    assert_eq!(response_content(&empty_choices), None);
}

#[test]
fn reads_content_from_reply_text() {
    let body = "{\"choices\":[{\"message\":{\"content\":\"{\\\"shipments\\\":[]}\"}}]}";
    assert_eq!(reply_body_content(body), Ok("{\"shipments\":[]}".to_string()));
    assert_eq!(reply_body_content("oops"), Err(ReplyError::NotJson));
    assert_eq!(reply_body_content("{\"choices\":[]}"), Err(ReplyError::MissingContent));
    assert_eq!(
        reply_body_content("{\"choices\":[{\"message\":{\"content\":7}}]}"),
        Err(ReplyError::MissingContent)
    );
}
