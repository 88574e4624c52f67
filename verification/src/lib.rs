//! Validation of OpenSLO documents: the document model, the rules that each
//! kind of document must satisfy, and the resolution of references between
//! documents.

pub mod text;
pub mod errors;
pub mod validation_context;
pub mod name_map;
pub mod number;
pub mod common;
pub mod service;
pub mod data_source;
pub mod alert_notification_target;
pub mod alert_condition;
pub mod sli;
pub mod alert_policy;
pub mod objective;
pub mod slo;
pub mod document;
pub mod report;
pub mod laws;
