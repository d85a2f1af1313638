//! Decision logic of a task executor that drives coding agents: text formats,
//! pull request detection, review loops, retry budgets and completion gates.
//!
//! Every item is verified. What talks to the network, the disk or an agent
//! lives outside this library and hands it plain values.

pub mod agent_review;
pub mod bots;
pub mod clock;
pub mod closing;
pub mod completion;
pub mod events;
pub mod gates;
pub mod implement;
pub mod interceptors;
pub mod issues;
pub mod items;
pub mod json;
pub mod lifecycle;
pub mod lookup;
pub mod markers;
pub mod mention;
pub mod non_implementation;
pub mod outcome;
pub mod phase;
pub mod pipeline;
pub mod plan_run;
pub mod porcelain;
pub mod pr_checks;
pub mod prompt_builder;
pub mod providers;
pub mod remotes;
pub mod request;
pub mod retry;
pub mod review_loop;
pub mod run;
pub mod settings;
pub mod signals;
pub mod snapshot;
pub mod stream;
pub mod task;
pub mod telemetry;
pub mod test_gate;
pub mod text;
pub mod usage;
pub mod wait_budget;
