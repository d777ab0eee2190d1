use trackhound::status::ShipmentStatus;

#[test]
fn maps_17track_codes_to_statuses() {
    assert_eq!(
        ShipmentStatus::from_17track_status(Some(40), None),
        ShipmentStatus::Delivered
    );
    assert_eq!(
        ShipmentStatus::from_17track_status(Some(10), None),
        ShipmentStatus::InTransit
    );
    assert_eq!(
        ShipmentStatus::from_17track_status(Some(30), None),
        ShipmentStatus::OutForDelivery
    );
    assert_eq!(
        ShipmentStatus::from_17track_status(Some(35), None),
        ShipmentStatus::Failed
    );
}

#[test]
fn detects_out_for_delivery_from_text() {
    assert_eq!(
        ShipmentStatus::from_text("Your parcel is out for delivery today"),
        ShipmentStatus::OutForDelivery
    );
}

#[test]
fn remaining_17track_codes_and_text_fallback() {
    assert_eq!(ShipmentStatus::from_17track_status(Some(50), None), ShipmentStatus::Failed);
    assert_eq!(ShipmentStatus::from_17track_status(Some(0), Some("Delivered")), ShipmentStatus::Unknown);
    assert_eq!(ShipmentStatus::from_17track_status(Some(20), None), ShipmentStatus::Unknown);
    assert_eq!(ShipmentStatus::from_17track_status(Some(99), Some("Delivered")), ShipmentStatus::Delivered);
    assert_eq!(ShipmentStatus::from_17track_status(None, Some("Arrived at hub")), ShipmentStatus::InTransit);
    assert_eq!(ShipmentStatus::from_17track_status(None, None), ShipmentStatus::Unknown);
}

#[test]
fn reads_text_case_insensitively_and_by_rule_order() {
    // upper-case input reaches the rules only through lowercasing
    assert_eq!(ShipmentStatus::from_text("DELIVERED"), ShipmentStatus::Delivered);
    assert_eq!(ShipmentStatus::from_text("Paket wurde ZUGESTELLT"), ShipmentStatus::Delivered);
    assert_eq!(ShipmentStatus::from_text("Out-For-Delivery"), ShipmentStatus::OutForDelivery);
    assert_eq!(ShipmentStatus::from_text("Sendung zur Zustellung"), ShipmentStatus::OutForDelivery);
    // "undelivered" contains "delivered", which an earlier rule matches
    assert_eq!(ShipmentStatus::from_text("undelivered"), ShipmentStatus::Delivered);
    assert_eq!(ShipmentStatus::from_text("Delivery exception"), ShipmentStatus::Failed);
    assert_eq!(ShipmentStatus::from_text("Security ALERT"), ShipmentStatus::Failed);
    assert_eq!(ShipmentStatus::from_text("Departed facility"), ShipmentStatus::InTransit);
    assert_eq!(ShipmentStatus::from_text("Processed at sort center"), ShipmentStatus::InTransit);
    assert_eq!(ShipmentStatus::from_text("Label created"), ShipmentStatus::Registered);
    assert_eq!(ShipmentStatus::from_text("registered"), ShipmentStatus::Registered);
    assert_eq!(ShipmentStatus::from_text("hello"), ShipmentStatus::Unknown);
    assert_eq!(ShipmentStatus::from_text(""), ShipmentStatus::Unknown);
    // underscores are not spaces: the stored name of OutForDelivery reads as unknown
    assert_eq!(ShipmentStatus::from_text("out_for_delivery"), ShipmentStatus::Unknown);
    assert_eq!(ShipmentStatus::from_lowercase_text("in_transit"), ShipmentStatus::InTransit);
    assert_eq!(ShipmentStatus::from_lowercase_text("DELIVERED"), ShipmentStatus::Unknown);
}

#[test]
fn names_round_trip() {
    let all = [
        ShipmentStatus::Detected,
        ShipmentStatus::Registered,
        ShipmentStatus::InTransit,
        ShipmentStatus::OutForDelivery,
        ShipmentStatus::Delivered,
        ShipmentStatus::Failed,
        ShipmentStatus::Unknown,
    ];
    let names = [
        "detected",
        "registered",
        "in_transit",
        "out_for_delivery",
        "delivered",
        "failed",
        "unknown",
    ];
    for (s, n) in all.iter().zip(names.iter()) {
        assert_eq!(s.as_str(), *n);
        assert_eq!(ShipmentStatus::from_name(s.as_str()), *s);
        assert_eq!(ShipmentStatus::from(s.as_str()), *s);
        assert_eq!(ShipmentStatus::from(s.as_str().to_string()), *s);
    }
    assert_eq!(ShipmentStatus::from("Delivered"), ShipmentStatus::Unknown);
    assert_eq!(ShipmentStatus::from(""), ShipmentStatus::Unknown);
}

#[test]
fn ascii_letter_case_does_not_matter() {
    for t in ["Out For Delivery", "delivered", "Label Created", "in TRANSIT", "Alert!", "nothing"] {
        let s = ShipmentStatus::from_text(t);
        assert_eq!(ShipmentStatus::from_text(&t.to_ascii_uppercase()), s, "{t}");
        assert_eq!(ShipmentStatus::from_text(&t.to_ascii_lowercase()), s, "{t}");
    }
}
