//! Rules of a deployment dashboard: identifiers and receipts, operation phases and their
//! transitions, workflow policies, failure capsules, and the decisions of the controller, the
//! executor and their adapters.

pub mod controller;
pub mod dependency_fetch;
pub mod deploy_driver;
pub mod domain;
pub mod execution_receipt;
pub mod executor;
pub mod executor_authority;
pub mod executor_intent;
pub mod executor_socket;
pub mod fence_adapter;
pub mod json;
pub mod json_laws;
pub mod names;
pub mod paths;
pub mod seals;
pub mod text;
pub mod unique_id;
