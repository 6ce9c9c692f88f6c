//! The records of a Thing Description.

pub mod action;
pub mod additional_expected_response;
pub mod common;
pub mod data_schema;
pub mod event;
pub mod expected_response;
pub mod form;
pub mod interaction_affordances;
pub mod link;
pub mod property;
pub mod security_definition;
pub mod thing_description;
pub mod version_info;
