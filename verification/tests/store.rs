use trackhound::store::mirror_applies;
use trackhound::models::{ExtractedKind, ExtractedShipment};
use trackhound::status::ShipmentStatus;
use trackhound::store::{normalize_tracking, order_status, shipment_upsert};

fn item(tracking: Option<&str>, status: Option<&str>) -> ExtractedShipment {
    ExtractedShipment {
        kind: ExtractedKind::Tracking,
        tracking_number: tracking.map(|s| s.to_string()),
        order_number: Some("123-1234567-1234567".into()),
        carrier: None,
        merchant: Some("Amazon".into()),
        status: status.map(|s| s.to_string()),
        expected_delivery_date: None,
        title: None,
        confidence_bits: 0.95f32.to_bits(),
        reason: None,
    }
}

#[test]
fn normalizes_tracking_numbers() {
    assert_eq!(normalize_tracking(" rr 123 de "), "RR123DE");
}

#[test]
fn normalizing_removes_all_unicode_white_space() {
    assert_eq!(normalize_tracking("\tab\u{a0}12\n3\u{3000}x"), "AB123X");
    assert_eq!(normalize_tracking(""), "");
    assert_eq!(normalize_tracking("AB123"), "AB123");
    assert_eq!(normalize_tracking(&normalize_tracking(" ab 12 ")), "AB12");
}

#[test]
fn shipment_status_depends_on_registration_when_no_text() {
    let u = shipment_upsert(&item(Some("ab 123"), None), true).unwrap();
    assert_eq!(u.tracking_number, "AB123");
    assert_eq!(u.status, ShipmentStatus::Registered);
    assert_eq!(u.track17_registered, 1);
    let u = shipment_upsert(&item(Some("ab123"), None), false).unwrap();
    assert_eq!(u.status, ShipmentStatus::Detected);
    assert_eq!(u.track17_registered, 0);
    let u = shipment_upsert(&item(Some("ab123"), Some("Delivered")), false).unwrap();
    assert_eq!(u.status, ShipmentStatus::Delivered);
    assert!(shipment_upsert(&item(None, None), true).is_none());
}

#[test]
fn two_tracking_numbers_of_one_order_get_distinct_keys() {
    let a = shipment_upsert(&item(Some("AB123"), None), true).unwrap();
    let b = shipment_upsert(&item(Some("CD456"), None), true).unwrap();
    assert_ne!(a.tracking_number, b.tracking_number);
}

#[test]
fn order_status_defaults_to_detected() {
    assert_eq!(order_status(&item(None, None)), ShipmentStatus::Detected);
    assert_eq!(order_status(&item(None, Some("detected"))), ShipmentStatus::Unknown);
    assert_eq!(order_status(&item(None, Some("In transit"))), ShipmentStatus::InTransit);
}

#[test]
fn mirroring_needs_exactly_one_shipment() {
    assert!(mirror_applies(1));
    assert!(!mirror_applies(0));
    assert!(!mirror_applies(2));
}

#[test]
fn normalizing_is_idempotent_and_keys_compare_without_space_or_case() {
    for v in [" rr 123 de ", "ab\t12", "", "XY-9 z"] {
        let n = normalize_tracking(v);
        assert_eq!(normalize_tracking(&n), n);
        assert!(!n.chars().any(|c| c.is_whitespace()));
        assert!(n.len() <= v.len());
    }
    assert_eq!(normalize_tracking("ab 12"), normalize_tracking("A B12"));
    assert_ne!(normalize_tracking("ab12"), normalize_tracking("ab13"));
}

#[test]
fn order_number_is_taken_from_the_item() {
    assert_eq!(
        trackhound::store::order_number_of(&item(None, None)).as_deref(),
        Some("123-1234567-1234567")
    );
    let mut it = item(None, None);
    it.order_number = None;
    assert_eq!(trackhound::store::order_number_of(&it), None);
}
