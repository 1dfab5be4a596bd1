//! What the platform's feed and session hand over, as plain values.

pub mod api_types;
