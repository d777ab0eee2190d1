//! The lifecycle status of a shipment, its text form, and how it is read
//! from free text and from 17TRACK status codes.

use vstd::prelude::*;
use crate::text::{
    ascii_lower, ascii_upper, contains_str, has_substring, lemma_ascii_case_mappings, lowercase_of,
    same_text, to_lowercase,
};
use vstd::utf8::is_ascii_chars;

verus! {

/// Where a parcel is in its journey.
#[derive(Debug, Clone, Copy, PartialEq, Eq, Structural)]
pub enum ShipmentStatus {
    Detected,
    Registered,
    InTransit,
    OutForDelivery,
    Delivered,
    Failed,
    Unknown,
}

/// The snake_case name under which a status is stored and served.
pub open spec fn status_name(s: ShipmentStatus) -> Seq<char> {
    match s {
        ShipmentStatus::Detected => "detected"@,
        ShipmentStatus::Registered => "registered"@,
        ShipmentStatus::InTransit => "in_transit"@,
        ShipmentStatus::OutForDelivery => "out_for_delivery"@,
        ShipmentStatus::Delivered => "delivered"@,
        ShipmentStatus::Failed => "failed"@,
        ShipmentStatus::Unknown => "unknown"@,
    }
}

/// The status that a stored name stands for; any other text is `Unknown`.
pub open spec fn status_from_name(t: Seq<char>) -> ShipmentStatus {
    if t == "detected"@ {
        ShipmentStatus::Detected
    } else if t == "registered"@ {
        ShipmentStatus::Registered
    } else if t == "in_transit"@ {
        ShipmentStatus::InTransit
    } else if t == "out_for_delivery"@ {
        ShipmentStatus::OutForDelivery
    } else if t == "delivered"@ {
        ShipmentStatus::Delivered
    } else if t == "failed"@ {
        ShipmentStatus::Failed
    } else {
        ShipmentStatus::Unknown
    }
}

/// The status that already-lowercased free text describes: the first rule
/// whose phrases occur in the text decides.
pub open spec fn status_of_lowered_text(t: Seq<char>) -> ShipmentStatus {
    if has_substring(t, "out for delivery"@) || has_substring(t, "out-for-delivery"@)
        || has_substring(t, "zur zustellung"@) {
        ShipmentStatus::OutForDelivery
    } else if has_substring(t, "delivered"@) || has_substring(t, "zugestellt"@) {
        ShipmentStatus::Delivered
    } else if has_substring(t, "failed"@) || has_substring(t, "exception"@) || has_substring(
        t,
        "undelivered"@,
    ) || has_substring(t, "alert"@) {
        ShipmentStatus::Failed
    } else if has_substring(t, "transit"@) || has_substring(t, "arrived"@) || has_substring(
        t,
        "departed"@,
    ) || has_substring(t, "processed"@) {
        ShipmentStatus::InTransit
    } else if has_substring(t, "registered"@) || has_substring(t, "label created"@) {
        ShipmentStatus::Registered
    } else {
        ShipmentStatus::Unknown
    }
}

/// The status that free text describes, read case-insensitively.
pub open spec fn status_of_text(t: Seq<char>) -> ShipmentStatus {
    status_of_lowered_text(lowercase_of(t))
}

/// The status that ASCII free text describes: its rules matched against
/// the text's ASCII lowercase.
pub open spec fn status_of_ascii_text(t: Seq<char>) -> ShipmentStatus {
    status_of_lowered_text(ascii_lower(t))
}

/// Reading a status from ASCII text ignores letter case: the text, its
/// uppercase and its lowercase (all ASCII again) describe the same status.
pub proof fn lemma_status_ignores_ascii_case(t: Seq<char>)
    requires
        is_ascii_chars(t),
    ensures
        is_ascii_chars(ascii_upper(t)),
        is_ascii_chars(ascii_lower(t)),
        status_of_ascii_text(ascii_upper(t)) == status_of_ascii_text(t),
        status_of_ascii_text(ascii_lower(t)) == status_of_ascii_text(t),
{
    lemma_ascii_case_mappings(t);
}

/// How lowercase free text is read, phrase by phrase, for every text: a
/// text reads as out for delivery exactly when it holds "out for delivery",
/// "out-for-delivery" or "zur zustellung"; otherwise as delivered exactly
/// when it holds "delivered" or "zugestellt"; otherwise as failed exactly
/// when it holds "failed", "exception", "undelivered" or "alert"; otherwise
/// as in transit exactly when it holds "transit", "arrived", "departed" or
/// "processed"; otherwise as registered exactly when it holds "registered"
/// or "label created"; and as unknown when it holds none of these. No text
/// reads as detected.
pub proof fn lemma_phrase_rules(t: Seq<char>)
    ensures
        ({
            let ofd = has_substring(t, "out for delivery"@) || has_substring(t, "out-for-delivery"@)
                || has_substring(t, "zur zustellung"@);
            let del = has_substring(t, "delivered"@) || has_substring(t, "zugestellt"@);
            let fail = has_substring(t, "failed"@) || has_substring(t, "exception"@)
                || has_substring(t, "undelivered"@) || has_substring(t, "alert"@);
            let moving = has_substring(t, "transit"@) || has_substring(t, "arrived"@)
                || has_substring(t, "departed"@) || has_substring(t, "processed"@);
            let reg = has_substring(t, "registered"@) || has_substring(t, "label created"@);
            let st = status_of_lowered_text(t);
            &&& (st == ShipmentStatus::OutForDelivery <==> ofd)
            &&& (st == ShipmentStatus::Delivered <==> !ofd && del)
            &&& (st == ShipmentStatus::Failed <==> !ofd && !del && fail)
            &&& (st == ShipmentStatus::InTransit <==> !ofd && !del && !fail && moving)
            &&& (st == ShipmentStatus::Registered <==> !ofd && !del && !fail && !moving && reg)
            &&& (st == ShipmentStatus::Unknown <==> !ofd && !del && !fail && !moving && !reg)
            &&& st != ShipmentStatus::Detected
        }),
{
}

/// Free text whose lowercase mentions a failure ("failed", "exception",
/// "undelivered" or "alert") and neither an out-for-delivery phrase nor a
/// delivered phrase reads as failed; for ASCII text the lowercase is the
/// ASCII lowercase, so "failed" and "Delivery failed" read as failed.
pub proof fn lemma_failure_text_reads_failed(t: Seq<char>)
    ensures
        ({
            let l = lowercase_of(t);
            (has_substring(l, "failed"@) || has_substring(l, "exception"@) || has_substring(
                l,
                "undelivered"@,
            ) || has_substring(l, "alert"@)) && !has_substring(l, "out for delivery"@)
                && !has_substring(l, "out-for-delivery"@) && !has_substring(l, "zur zustellung"@)
                && !has_substring(l, "delivered"@) && !has_substring(l, "zugestellt"@)
                ==> status_of_text(t) == ShipmentStatus::Failed
        }),
        ({
            let l = ascii_lower(t);
            (has_substring(l, "failed"@) || has_substring(l, "exception"@) || has_substring(
                l,
                "undelivered"@,
            ) || has_substring(l, "alert"@)) && !has_substring(l, "out for delivery"@)
                && !has_substring(l, "out-for-delivery"@) && !has_substring(l, "zur zustellung"@)
                && !has_substring(l, "delivered"@) && !has_substring(l, "zugestellt"@)
                ==> status_of_ascii_text(t) == ShipmentStatus::Failed
        }),
{
    lemma_phrase_rules(lowercase_of(t));
    lemma_phrase_rules(ascii_lower(t));
}

/// The status that a 17TRACK status code stands for, falling back to the
/// event text where the code is absent or not one of the known ones.
pub open spec fn status_of_17track(code: Option<i64>, text: Option<Seq<char>>) -> ShipmentStatus {
    match code {
        Some(40) => ShipmentStatus::Delivered,
        Some(35) | Some(50) => ShipmentStatus::Failed,
        Some(30) => ShipmentStatus::OutForDelivery,
        Some(10) => ShipmentStatus::InTransit,
        Some(0) | Some(20) => ShipmentStatus::Unknown,
        _ => match text {
            Some(t) => status_of_text(t),
            None => ShipmentStatus::Unknown,
        },
    }
}

/// How a 17TRACK code is read, for every code and event text: 40 is
/// delivered, 35 and 50 are failed, 30 is out for delivery, 10 is in
/// transit, 0 and 20 are unknown, and for these codes the event text is
/// not looked at; for any other code, or none, the event text is read as
/// free text, and without one the status is unknown.
pub proof fn lemma_17track_codes(code: Option<i64>, a: Option<Seq<char>>, b: Option<Seq<char>>)
    ensures
        code == Some(40i64) ==> status_of_17track(code, a) == ShipmentStatus::Delivered,
        code == Some(35i64) || code == Some(50i64) ==> status_of_17track(code, a)
            == ShipmentStatus::Failed,
        code == Some(30i64) ==> status_of_17track(code, a) == ShipmentStatus::OutForDelivery,
        code == Some(10i64) ==> status_of_17track(code, a) == ShipmentStatus::InTransit,
        code == Some(0i64) || code == Some(20i64) ==> status_of_17track(code, a)
            == ShipmentStatus::Unknown,
        (code == Some(0i64) || code == Some(10i64) || code == Some(20i64) || code == Some(30i64)
            || code == Some(35i64) || code == Some(40i64) || code == Some(50i64))
            ==> status_of_17track(code, a) == status_of_17track(code, b),
        !(code == Some(0i64) || code == Some(10i64) || code == Some(20i64) || code == Some(30i64)
            || code == Some(35i64) || code == Some(40i64) || code == Some(50i64)) ==> {
            &&& (a matches Some(t) ==> status_of_17track(code, a) == status_of_text(t))
            &&& (a is None ==> status_of_17track(code, a) == ShipmentStatus::Unknown)
        },
{
}

/// The characters of an optional string.
pub open spec fn opt_str_view(o: Option<&str>) -> Option<Seq<char>> {
    match o {
        Some(t) => Some(t@),
        None => None,
    }
}

impl ShipmentStatus {
    /// The snake_case name of the status.
    pub fn as_str(self) -> (res: &'static str)
        ensures
            res@ == status_name(self),
    {
        match self {
            ShipmentStatus::Detected => "detected",
            ShipmentStatus::Registered => "registered",
            ShipmentStatus::InTransit => "in_transit",
            ShipmentStatus::OutForDelivery => "out_for_delivery",
            ShipmentStatus::Delivered => "delivered",
            ShipmentStatus::Failed => "failed",
            ShipmentStatus::Unknown => "unknown",
        }
    }

    /// Reads a status from text that is already lowercase.
    pub fn from_lowercase_text(t: &str) -> (res: Self)
        ensures
            res == status_of_lowered_text(t@),
    {
        if contains_str(t, "out for delivery") || contains_str(t, "out-for-delivery")
            || contains_str(t, "zur zustellung") {
            ShipmentStatus::OutForDelivery
        } else if contains_str(t, "delivered") || contains_str(t, "zugestellt") {
            ShipmentStatus::Delivered
        } else if contains_str(t, "failed") || contains_str(t, "exception") || contains_str(
            t,
            "undelivered",
        ) || contains_str(t, "alert") {
            ShipmentStatus::Failed
        } else if contains_str(t, "transit") || contains_str(t, "arrived") || contains_str(
            t,
            "departed",
        ) || contains_str(t, "processed") {
            ShipmentStatus::InTransit
        } else if contains_str(t, "registered") || contains_str(t, "label created") {
            ShipmentStatus::Registered
        } else {
            ShipmentStatus::Unknown
        }
    }

    /// Reads a status from free text such as a carrier's event description,
    /// ignoring case.
    pub fn from_text(text: &str) -> (res: Self)
        ensures
            res == status_of_text(text@),
            is_ascii_chars(text@) ==> res == status_of_ascii_text(text@),
    {
        let t = to_lowercase(text);
        Self::from_lowercase_text(t.as_str())
    }

    /// Maps a 17TRACK status code to a status; unknown or absent codes fall
    /// back to the event text.
    pub fn from_17track_status(code: Option<i64>, text: Option<&str>) -> (res: Self)
        ensures
            res == status_of_17track(code, opt_str_view(text)),
    {
        match code {
            Some(40) => ShipmentStatus::Delivered,
            Some(35) | Some(50) => ShipmentStatus::Failed,
            Some(30) => ShipmentStatus::OutForDelivery,
            Some(10) => ShipmentStatus::InTransit,
            Some(0) | Some(20) => ShipmentStatus::Unknown,
            _ => match text {
                Some(t) => Self::from_text(t),
                None => ShipmentStatus::Unknown,
            },
        }
    }

    /// Reads a stored status name; any other text is `Unknown`.
    pub fn from_name(value: &str) -> (res: Self)
        ensures
            res == status_from_name(value@),
    {
        if same_text(value, "detected") {
            ShipmentStatus::Detected
        } else if same_text(value, "registered") {
            ShipmentStatus::Registered
        } else if same_text(value, "in_transit") {
            ShipmentStatus::InTransit
        } else if same_text(value, "out_for_delivery") {
            ShipmentStatus::OutForDelivery
        } else if same_text(value, "delivered") {
            ShipmentStatus::Delivered
        } else if same_text(value, "failed") {
            ShipmentStatus::Failed
        } else {
            ShipmentStatus::Unknown
        }
    }
}


impl<'a> From<&'a str> for ShipmentStatus {
    /// Reads a stored status name; any other text is `Unknown`.
    fn from(value: &'a str) -> (res: Self) {
        Self::from_name(value)
    }
}

impl<'a> vstd::std_specs::convert::FromSpecImpl<&'a str> for ShipmentStatus {
    open spec fn obeys_from_spec() -> bool {
        true
    }

    open spec fn from_spec(value: &'a str) -> Self {
        status_from_name(value@)
    }
}

impl From<String> for ShipmentStatus {
    /// Reads a stored status name; any other text is `Unknown`.
    fn from(value: String) -> (res: Self) {
        Self::from_name(value.as_str())
    }
}

impl vstd::std_specs::convert::FromSpecImpl<String> for ShipmentStatus {
    open spec fn obeys_from_spec() -> bool {
        true
    }

    open spec fn from_spec(value: String) -> Self {
        status_from_name(value@)
    }
}

/// Reading back the stored name of a status gives that status again.
pub proof fn lemma_name_round_trip(s: ShipmentStatus)
    ensures
        status_from_name(status_name(s)) == s,
{
    reveal_strlit("detected");
    reveal_strlit("registered");
    reveal_strlit("in_transit");
    reveal_strlit("out_for_delivery");
    reveal_strlit("delivered");
    reveal_strlit("failed");
    reveal_strlit("unknown");
    let d = "detected"@;
    let r = "registered"@;
    let i = "in_transit"@;
    let o = "out_for_delivery"@;
    let v = "delivered"@;
    let f = "failed"@;
    let u = "unknown"@;
    assert(r[0] != d[0]);
    assert(i[0] != d[0] && i[0] != r[0]);
    assert(o[0] != d[0] && o[0] != r[0] && o[0] != i[0]);
    assert(v.len() != d.len() && v[0] != r[0] && v[0] != i[0] && v[0] != o[0]);
    assert(f[0] != d[0] && f[0] != r[0] && f[0] != i[0] && f[0] != o[0] && f[0] != v[0]);
    assert(u[0] != d[0] && u[0] != r[0] && u[0] != i[0] && u[0] != o[0] && u[0] != v[0] && u[0]
        != f[0]);
}

/// Distinct statuses have distinct stored names.
pub proof fn lemma_names_distinct(a: ShipmentStatus, b: ShipmentStatus)
    ensures
        status_name(a) == status_name(b) ==> a == b,
{
    lemma_name_round_trip(a);
    lemma_name_round_trip(b);
}

} // verus!
