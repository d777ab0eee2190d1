use trackhound::gmail::{join_part_texts, own_part_text};
use trackhound::gmail::HeaderMap;
use trackhound::gmail::{
    decode_part_data, extract_text, header_map, GmailBody, GmailHeader, GmailMessage, GmailPayload,
};

fn text_part(mime: &str, data: Option<&str>) -> GmailPayload {
    GmailPayload {
        mime_type: Some(mime.into()),
        headers: None,
        body: Some(GmailBody { data: data.map(|d| d.to_string()) }),
        parts: None,
    }
}

#[test]
fn decodes_base64url_text_part() {
    let payload = GmailPayload {
        mime_type: Some("text/plain".into()),
        headers: None,
        body: Some(GmailBody {
            data: Some("SGVsbG8tdHJhY2tpbmc".into()),
        }),
        parts: None,
    };
    assert_eq!(extract_text(&payload), "Hello-tracking");
}

#[test]
fn decoding_pads_and_replaces_invalid_utf8() {
    assert_eq!(decode_part_data("aGk"), "hi");
    assert_eq!(decode_part_data("aGk="), "hi");
    assert_eq!(decode_part_data("_w"), "\u{fffd}");
    assert_eq!(decode_part_data("***"), "");
    assert_eq!(decode_part_data(""), "");
}

#[test]
fn sub_parts_are_joined_with_newlines() {
    let payload = GmailPayload {
        mime_type: Some("multipart/alternative".into()),
        headers: None,
        body: Some(GmailBody { data: Some("aGk".into()) }),
        parts: Some(vec![
            text_part("text/plain", Some("aGk")),
            text_part("image/png", Some("aGk")),
            text_part("text/html", None),
        ]),
    };
    assert_eq!(extract_text(&payload), "\nhi\n\n");
    let bare = GmailPayload { mime_type: None, headers: None, body: None, parts: None };
    assert_eq!(extract_text(&bare), "");
}

#[test]
fn headers_are_found_by_lowercase_name_and_last_wins() {
    let payload = GmailPayload {
        mime_type: None,
        headers: Some(vec![
            GmailHeader { name: "Subject".into(), value: "first".into() },
            GmailHeader { name: "FROM".into(), value: "shop@example.com".into() },
            GmailHeader { name: "subject".into(), value: "second".into() },
        ]),
        body: None,
        parts: None,
    };
    let map = header_map(Some(&payload));
    assert_eq!(map.get("subject").map(|s| s.as_str()), Some("second"));
    assert_eq!(map.get("from").map(|s| s.as_str()), Some("shop@example.com"));
    assert_eq!(map.get("Subject"), None);
    assert_eq!(header_map(None).get("subject"), None);
}

#[test]
fn message_becomes_email() {
    let msg = GmailMessage {
        id: "m1".into(),
        thread_id: "t1".into(),
        snippet: None,
        internal_date: Some("1715853600000".into()),
        payload: Some(GmailPayload {
            mime_type: Some("text/plain".into()),
            headers: Some(vec![GmailHeader { name: "Subject".into(), value: "Shipped".into() }]),
            body: Some(GmailBody { data: Some("SGVsbG8tdHJhY2tpbmc".into()) }),
            parts: None,
        }),
    };
    let email = msg.into_email_message();
    assert_eq!(email.id, "m1");
    assert_eq!(email.thread_id, "t1");
    assert_eq!(email.subject, "Shipped");
    assert_eq!(email.from_addr, "");
    assert_eq!(email.snippet, "");
    assert_eq!(email.body_text, "Hello-tracking");
    assert_eq!(email.internal_date_ms, 1715853600000);

    let odd = GmailMessage {
        id: "m2".into(),
        thread_id: "t2".into(),
        snippet: Some("snip".into()),
        internal_date: Some("12x".into()),
        payload: None,
    };
    let email = odd.into_email_message();
    assert_eq!(email.snippet, "snip");
    assert_eq!(email.internal_date_ms, 0);
    assert_eq!(email.body_text, "");
}

#[test]
fn header_map_inserts_replace() {
    let mut m = HeaderMap::new();
    assert_eq!(m.get("a"), None);
    m.insert("a".into(), "1".into());
    m.insert("b".into(), "2".into());
    m.insert("a".into(), "3".into());
    assert_eq!(m.get("a").map(|s| s.as_str()), Some("3"));
    assert_eq!(m.get("b").map(|s| s.as_str()), Some("2"));
}

#[test]
fn part_texts_are_joined_with_newlines() {
    assert_eq!(join_part_texts("own", &vec!["a".to_string(), "".to_string(), "b".to_string()]), "own\na\n\nb");
    assert_eq!(join_part_texts("", &vec![]), "");
    assert_eq!(own_part_text(&text_part("text/plain", Some("aGk"))), "hi");
    assert_eq!(own_part_text(&text_part("image/png", Some("aGk"))), "");
    assert_eq!(own_part_text(&text_part("text/plain", None)), "");
}
