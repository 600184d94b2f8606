use vstd::prelude::*;

pub mod abandon;
pub mod assignment_loop;
pub mod auto_replan;
pub mod boot_container_sweeper;
pub mod boot_recovery_scanner;
pub mod codex_runner;
pub mod command;
pub mod command_laws;
pub mod container_laws;
pub mod contracts;
pub mod coordinator;
pub mod dashboard;
pub mod driver_laws;
pub mod git_summary;
pub mod implementation_phase;
pub mod in_flight_phase_tracker;
pub mod json;
pub mod lifecycle;
pub mod lifecycle_laws;
pub mod listing_laws;
pub mod merge_driver;
pub mod merge_laws;
pub mod merge_phase;
pub mod numerals;
pub mod page_laws;
pub mod phase_body_format;
pub mod phase_laws;
pub mod phase_output_view;
pub mod plan_run;
pub mod plan_run_finalize;
pub mod plan_run_status;
pub mod planning_driver;
pub mod planning_laws;
pub mod planning_phase;
pub mod problem;
pub mod production;
pub mod project_store;
pub mod prompt;
pub mod prompt_laws;
pub mod push_attempt;
pub mod re_enable_source_issue;
pub mod recover;
pub mod recovery_laws;
pub mod repair;
pub mod replan_laws;
pub mod review_laws;
pub mod review_loop;
pub mod sandbox;
pub mod shutdown_coordinator;
pub mod store_laws;
pub mod sweep_laws;
pub mod text;
pub mod text_laws;
pub mod text_order;
pub mod text_parts;
pub mod tracker_laws;
pub mod ui;
pub mod verify;
pub mod view_laws;
pub mod worktree_laws;
pub mod worktrunk;

verus! {

} // verus!
