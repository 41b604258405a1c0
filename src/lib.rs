//! Invoice data: configuration of business entities, the step-by-step
//! assembly of one invoice record, and the text that goes on the document.

pub mod text;
pub mod date;
pub mod config;
pub mod assembly;
pub mod document;
