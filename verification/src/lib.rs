//! Parcel tracking logic: shipment statuses, tracking-number normalisation,
//! e-mail payload decoding, classifier prompts and 17TRACK reply handling.

pub mod text;
pub mod status;
pub mod number;
pub mod json;
pub mod track17;
pub mod models;
pub mod gmail;
pub mod openai;
pub mod store;
pub mod scan;
pub mod config;
pub mod scan_run;
