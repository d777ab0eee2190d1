use trackhound::models::{ExtractedKind, ExtractedShipment, ScanSummary, SyncSummary};
use trackhound::scan::{plan_item, ItemAction};
use trackhound::status::ShipmentStatus;

fn item(kind: ExtractedKind) -> ExtractedShipment {
    ExtractedShipment {
        kind,
        tracking_number: None,
        order_number: None,
        carrier: None,
        merchant: None,
        status: None,
        expected_delivery_date: None,
        title: None,
        confidence_bits: 0.9f32.to_bits(),
        reason: None,
    }
}

#[test]
fn skipped_items_get_no_plan() {
    assert!(plan_item(&item(ExtractedKind::Tracking), true).is_none());
    assert!(plan_item(&item(ExtractedKind::Ignore), false).is_none());
}

#[test]
fn tracking_item_is_registered_with_remark() {
    let mut it = item(ExtractedKind::Tracking);
    it.tracking_number = Some("AB123".into());
    it.order_number = Some("123-1234567-1234567".into());
    it.merchant = Some("Amazon".into());
    let plan = plan_item(&it, false).unwrap();
    assert!(plan.upsert_order);
    match plan.action {
        ItemAction::TrackShipment { tracking_number, remark } => {
            assert_eq!(tracking_number, "AB123");
            assert_eq!(remark.as_deref(), Some("Amazon"));
        }
        other => panic!("unexpected {other:?}"),
    }
    it.title = Some("Book".into());
    match plan_item(&it, false).unwrap().action {
        ItemAction::TrackShipment { remark, .. } => assert_eq!(remark.as_deref(), Some("Book")),
        other => panic!("unexpected {other:?}"),
    }
    it.title = None;
    it.merchant = None;
    match plan_item(&it, false).unwrap().action {
        ItemAction::TrackShipment { remark, .. } => {
            assert_eq!(remark.as_deref(), Some("123-1234567-1234567"))
        }
        other => panic!("unexpected {other:?}"),
    }
}

#[test]
fn amazon_order_only_records_order() {
    let mut it = item(ExtractedKind::AmazonOrder);
    it.order_number = Some("123-1234567-1234567".into());
    let plan = plan_item(&it, false).unwrap();
    assert!(plan.upsert_order);
    assert!(matches!(plan.action, ItemAction::Nothing));
}

#[test]
fn status_update_mirrors_only_with_order() {
    let mut it = item(ExtractedKind::StatusUpdate);
    it.status = Some("Out for delivery".into());
    it.reason = Some("courier mail".into());
    assert!(matches!(plan_item(&it, false).unwrap().action, ItemAction::Nothing));
    it.order_number = Some("1".into());
    match plan_item(&it, false).unwrap().action {
        ItemAction::MirrorStatus { status, raw } => {
            assert_eq!(status, ShipmentStatus::OutForDelivery);
            assert_eq!(raw.as_deref(), Some("courier mail"));
        }
        other => panic!("unexpected {other:?}"),
    }
    it.status = None;
    match plan_item(&it, false).unwrap().action {
        ItemAction::MirrorStatus { status, .. } => assert_eq!(status, ShipmentStatus::Unknown),
        other => panic!("unexpected {other:?}"),
    }
}

#[test]
fn summaries_count() {
    let mut s = ScanSummary::new(3);
    let mut it = item(ExtractedKind::Tracking);
    it.tracking_number = Some("AB1".into());
    it.order_number = Some("O".into());
    let plan = plan_item(&it, false).unwrap();
    s.record_item(&plan, true);
    s.record_item(&plan, false);
    s.record_message();
    assert_eq!(
        s,
        ScanSummary {
            messages_seen: 3,
            messages_processed: 1,
            shipments_upserted: 2,
            orders_upserted: 2,
            registered_in_17track: 1,
        }
    );
    let mut y = SyncSummary::new(5);
    y.record_update();
    assert_eq!(y, SyncSummary { checked: 5, updated: 1 });
}
