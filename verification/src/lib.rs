//! Verified core of a terminal weather dashboard.
//!
//! The dashboard polls a remote provider in the background and repaints the
//! terminal whenever fresh data or a resize arrives. Three threads take part:
//! a fetch worker, an input worker and the render loop. They share a snapshot
//! store and an event channel, and nothing else.
//!
//! Everything that decides *what happens next* lives here, as small state
//! machines with contracts. They do no I/O and never wait: the binary that
//! drives them fetches, reads the terminal, paints, sleeps and blocks, and
//! hands each result to the machine that decides on it.
//!
//! - [`store`]: the cell that holds the latest snapshot;
//! - [`event`], [`channel`]: the events and the queue that carries them to
//!   the render loop;
//! - [`fetch`]: a cycle of the fetch worker and its policy on failures;
//! - [`input`]: the input worker's reading of keys and resizes;
//! - [`render_loop`]: a pass of the render loop;
//! - [`session`]: whole runs of the render loop and what holds of them;
//! - [`snapshot`], [`noaa`], [`units`], [`spinner`], [`weather`], [`cli`]:
//!   the pieces of the data model and of the display that are exact.

pub mod channel;
pub mod cli;
pub mod event;
pub mod fetch;
pub mod input;
pub mod noaa;
pub mod render_loop;
pub mod session;
pub mod snapshot;
pub mod spinner;
pub mod store;
pub mod units;
pub mod weather;
