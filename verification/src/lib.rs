//! Verified core of the Graduate command line: session tokens, terminal text,
//! setup screens and restack decisions.

pub mod hex;
pub mod session;
pub mod text;
pub mod error;
pub mod terminal_text;
pub mod refs;
pub mod text_compare;
pub mod config;
pub mod jira;
pub mod restack;
pub mod handoff;
pub mod keys;
pub mod onboarding;
pub mod canvas;
pub mod onboarding_view;
pub mod restack_errors;
pub mod publication;
pub mod git_output;
pub mod terminal_state;
pub mod restack_keys;
pub mod preflight;
pub mod plan_summary;
pub mod history_explanation;
pub mod confirmation;
pub mod review;
pub mod checklist;
pub mod restack_frame;
pub mod machine_json;
pub mod merge_steps;
pub mod invocation;
pub mod history_walk;
pub mod remote_checks;
pub mod reconstruction;
pub mod onboarding_marks;
