use vstd::prelude::*;

verus! {

/// Relies on time::OffsetDateTime::now_utc and its RFC 3339 formatting. The
/// result depends on the wall clock, so nothing is promised of it.
#[verifier::external_body]
pub fn now_rfc3339() -> String {
    match time::OffsetDateTime::now_utc().format(&time::format_description::well_known::Rfc3339) {
        Ok(s) => s,
        Err(_) => "1970-01-01T00:00:00Z".to_string(),
    }
}

} // verus!
