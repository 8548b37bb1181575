//! The Player Company: its figures, its receipts and its way out of insolvency.

pub mod analytics;
pub mod dashboard;
pub mod editor;
pub mod figures;
pub mod laws;
pub mod receipts;
pub mod recovery;
pub mod report;
pub mod selection;
pub mod workspace;
