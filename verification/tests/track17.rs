use trackhound::json::{JsonItem, JsonValue};
use trackhound::status::ShipmentStatus;
use trackhound::track17::{
    parse_track17_reply, parse_track17_statuses, register_accepted, register_reply_accepted,
    status_batches,
};

fn s(t: &str) -> JsonValue {
    JsonValue::Str(t.to_string())
}

fn obj(members: Vec<(&str, JsonValue)>) -> JsonValue {
    JsonValue::Object(members.into_iter().map(|(k, v)| (k.to_string(), v)).collect())
}

fn arr(items: Vec<(JsonValue, &str)>) -> JsonValue {
    JsonValue::Array(
        items
            .into_iter()
            .map(|(value, text)| JsonItem { value, text: text.to_string() })
            .collect(),
    )
}

#[test]
fn parses_accepted_status() {
    // {"data":{"accepted":[{"number":"RR123DE","track_info":{"latest_status":{"status":40},
    //   "latest_event":{"description":"Delivered","time_iso":"2026-05-16T10:00:00Z"}}}]}}
    let entry = obj(vec![
        ("number", s("RR123DE")),
        (
            "track_info",
            obj(vec![
                ("latest_status", obj(vec![("status", JsonValue::Number(Some(40)))])),
                (
                    "latest_event",
                    obj(vec![
                        ("description", s("Delivered")),
                        ("time_iso", s("2026-05-16T10:00:00Z")),
                    ]),
                ),
            ]),
        ),
    ]);
    let v = obj(vec![("data", obj(vec![("accepted", arr(vec![(entry, "{\"number\":\"RR123DE\"}")]))]))]);
    let statuses = parse_track17_statuses(&v);
    assert_eq!(statuses.len(), 1);
    assert_eq!(statuses[0].status, ShipmentStatus::Delivered);
}

#[test]
fn entries_fall_back_and_skip_numberless() {
    let with_fallbacks = obj(vec![(
        "track_info",
        obj(vec![
            (
                "tracking",
                obj(vec![
                    ("number", s("AB1")),
                    ("providers", arr(vec![(obj(vec![("provider_status", JsonValue::Number(Some(30)))]), "{}")])),
                ]),
            ),
            ("latest_event", obj(vec![("event", s("Out for delivery")), ("time_utc", s("t"))])),
        ]),
    )]);
    let no_number = obj(vec![("number", s(""))]);
    let text_only = obj(vec![
        ("number", s("CD2")),
        ("track_info", obj(vec![("latest_event", obj(vec![("description", s("Arrived"))]))])),
    ]);
    let v = obj(vec![(
        "data",
        obj(vec![(
            "accepted",
            arr(vec![(with_fallbacks, "raw-a"), (no_number, "raw-b"), (text_only, "raw-c")]),
        )]),
    )]);
    let out = parse_track17_statuses(&v);
    assert_eq!(out.len(), 2);
    assert_eq!(out[0].number, "AB1");
    assert_eq!(out[0].status, ShipmentStatus::OutForDelivery);
    assert_eq!(out[0].event_text.as_deref(), Some("Out for delivery"));
    assert_eq!(out[0].event_at.as_deref(), Some("t"));
    assert_eq!(out[0].raw, "raw-a");
    assert_eq!(out[1].number, "CD2");
    assert_eq!(out[1].status, ShipmentStatus::InTransit);
    assert_eq!(out[1].event_at, None);
    assert_eq!(out[1].raw, "raw-c");
    assert!(parse_track17_statuses(&obj(vec![("data", obj(vec![]))])).is_empty());
    assert!(parse_track17_statuses(&JsonValue::Null).is_empty());
}

#[test]
fn registration_replies() {
    assert!(register_accepted(&obj(vec![("code", JsonValue::Number(Some(0)))])));
    assert!(register_accepted(&obj(vec![])));
    assert!(!register_accepted(&obj(vec![("code", JsonValue::Number(Some(-1)))])));
    let already = obj(vec![
        ("code", JsonValue::Number(Some(-1))),
        (
            "data",
            obj(vec![(
                "rejected",
                arr(vec![(obj(vec![("error", obj(vec![("code", JsonValue::Number(Some(-18019901)))]))]), "{}")]),
            )]),
        ),
    ]);
    assert!(register_accepted(&already));
    assert!(register_accepted(&obj(vec![("code", JsonValue::Number(None))])));
}

#[test]
fn batches_of_forty() {
    let numbers: Vec<String> = (0..95).map(|i| format!("N{i}")).collect();
    let batches = status_batches(&numbers);
    assert_eq!(batches.len(), 3);
    assert_eq!(batches[0].len(), 40);
    assert_eq!(batches[1].len(), 40);
    assert_eq!(batches[2].len(), 15);
    assert_eq!(batches.concat(), numbers);
    assert!(status_batches(&Vec::new()).is_empty());
    let forty: Vec<String> = (0..40).map(|i| i.to_string()).collect();
    assert_eq!(status_batches(&forty).len(), 1);
}

#[test]
fn parses_status_from_reply_text() {
    let body = "{\"data\":{\"accepted\":[{\"number\":\"RR123DE\",\"track_info\":{\"latest_status\":{\"status\":40},\"latest_event\":{\"description\":\"Delivered\",\"time_iso\":\"2026-05-16T10:00:00Z\"}}}]}}";
    let statuses = parse_track17_reply(body).expect("reply is JSON");
    assert_eq!(statuses.len(), 1);
    assert_eq!(statuses[0].number, "RR123DE");
    assert_eq!(statuses[0].status, ShipmentStatus::Delivered);
    assert_eq!(statuses[0].event_text.as_deref(), Some("Delivered"));
    assert_eq!(statuses[0].event_at.as_deref(), Some("2026-05-16T10:00:00Z"));
    assert!(statuses[0].raw.contains("\"number\":\"RR123DE\""));
    assert!(parse_track17_reply("not json").is_none());
    assert_eq!(parse_track17_reply("{}").map(|v| v.len()), Some(0));
}

#[test]
fn registration_reply_texts() {
    assert_eq!(register_reply_accepted("{\"code\":0}"), Some(true));
    assert_eq!(register_reply_accepted("{\"code\":-1}"), Some(false));
    assert_eq!(
        register_reply_accepted(
            "{\"code\":-1,\"data\":{\"rejected\":[{\"error\":{\"code\":-18019901}}]}}"
        ),
        Some(true)
    );
    assert_eq!(register_reply_accepted("<html>"), None);
}
