//! Session lifecycle engine for browser-driven study runs.
//!
//! - [`state`]: the lifecycle value of a session, its total order, and the
//!   events that produce it.
//! - [`xx`]: a pooled connection with its freshness window and liveness rules.
//! - [`pool`]: what the connection pool asks of its manager, and its settings.
//! - [`task`] and [`plan`]: the task runner as a machine from events to
//!   actions, and the plan of its activity phase.
//! - [`xx_state`] and [`session_state`]: the state cell of a session, and the
//!   registry that issues session ids.
//! - [`laws`]: what holds of every session, proved.
//! - [`admin`]: the administrator's run and the reports of the day.
//! - [`wx`]: messages of the notification service and its access token.
//! - [`qrcode`], [`utils`], [`eval`], [`user_validator`], [`error`],
//!   [`text`], [`clock`]: tickets as pictures and links, pages on offer, what
//!   the page reports, who may use the service, failures and their reasons,
//!   text building blocks, and the times that the clock gives.

pub mod admin;
pub mod clock;
pub mod error;
pub mod eval;
pub mod laws;
pub mod plan;
pub mod pool;
pub mod qrcode;
pub mod session_state;
pub mod state;
pub mod task;
pub mod text;
pub mod user_validator;
pub mod utils;
pub mod wx;
pub mod xx;
pub mod xx_state;
