//! Session control core of a pomodoro task manager.
//!
//! Three cooperating finite-state machines carry the interactive behaviour:
//! a wall-clock countdown [`pomodoro::Timer`] with pause and resume, the
//! work/break cycle engine [`pomodoro::Pomodoro`] with its
//! long-break-every-fourth-cycle rule, and the top-level
//! [`states::SessionState`] that composes the task browser and an active
//! session.  Cursor movement over task tables and form fields is one shared
//! abstraction, the focus ring of [`focus`].
//!
//! The core is pure: time arrives as an argument to every operation that
//! needs it, user input arrives as plain key events, and storage and
//! notification work is handed back to the caller as [`states::Action`]
//! values.  An outer event loop performs those actions and feeds the
//! results back in.

pub mod args;
pub mod focus;
pub mod pomodoro;
pub mod states;
pub mod tasks;
pub mod text;
