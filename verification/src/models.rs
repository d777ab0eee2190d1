//! The records that flow between mailbox, classifier, store and API.

use vstd::prelude::*;

verus! {

/// A shipment as stored, joined with its order's number and merchant.
#[derive(Debug, Clone)]
pub struct ShipmentRow {
    pub id: String,
    pub tracking_number: Option<String>,
    pub order_id: Option<String>,
    pub source: String,
    pub carrier: Option<String>,
    pub title: Option<String>,
    pub status: String,
    pub track17_registered: i64,
    pub expected_delivery_date: Option<String>,
    pub delivered_at: Option<String>,
    pub last_event_at: Option<String>,
    pub last_event_text: Option<String>,
    pub raw_last_event: Option<String>,
    pub last_email_message_id: Option<String>,
    pub last_email_thread_id: Option<String>,
    pub last_email_subject: Option<String>,
    pub created_at: String,
    pub updated_at: String,
    pub order_number: Option<String>,
    pub merchant: Option<String>,
}

/// An e-mail, reduced to what classification needs.
#[derive(Debug, Clone)]
pub struct EmailMessage {
    pub id: String,
    pub thread_id: String,
    pub subject: String,
    pub from_addr: String,
    pub snippet: String,
    pub body_text: String,
    pub internal_date_ms: i64,
}

/// What the classifier says an extracted item is.
#[derive(Debug, Clone, Copy, PartialEq, Eq, Structural)]
pub enum ExtractedKind {
    Tracking,
    AmazonOrder,
    StatusUpdate,
    Ignore,
}

/// One item that the classifier extracted from an e-mail.
#[derive(Debug, Clone)]
pub struct ExtractedShipment {
    pub kind: ExtractedKind,
    pub tracking_number: Option<String>,
    pub order_number: Option<String>,
    pub carrier: Option<String>,
    pub merchant: Option<String>,
    pub status: Option<String>,
    pub expected_delivery_date: Option<String>,
    pub title: Option<String>,
    /// The classifier's confidence, an `f32` between 0 and 1, kept by its bit pattern.
    pub confidence_bits: u32,
    pub reason: Option<String>,
}

/// Everything the classifier extracted from one e-mail.
#[derive(Debug, Clone)]
pub struct ExtractionResult {
    pub shipments: Vec<ExtractedShipment>,
}

/// The counts that a mailbox scan reports.
#[derive(Debug, Clone, Copy, PartialEq, Eq, Structural)]
pub struct ScanSummary {
    pub messages_seen: usize,
    pub messages_processed: usize,
    pub shipments_upserted: usize,
    pub orders_upserted: usize,
    pub registered_in_17track: usize,
}

/// The counts that a 17TRACK sync reports.
#[derive(Debug, Clone, Copy, PartialEq, Eq, Structural)]
pub struct SyncSummary {
    pub checked: usize,
    pub updated: usize,
}

/// The health check's answer.
#[derive(Debug, Clone, Copy, PartialEq, Eq, Structural)]
pub struct Health {
    pub ok: bool,
}

} // verus!
