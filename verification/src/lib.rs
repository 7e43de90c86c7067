//! Decision logic of an overlay that rides on a host application's
//! frame-presentation call and window procedure.
//!
//! The overlay lives inside a process it does not own. It is started when
//! its library is loaded, redirects the host's presentation function to
//! itself, builds its user interface on the first frame, takes the host
//! window's procedure over to read input, and from then on draws itself on
//! every frame before the host's own presentation goes ahead.
//!
//! Nothing in this crate touches the platform, the graphics library or the
//! user-interface library. Each part takes what has happened as plain values
//! and answers with what is to be done; the caller does it and reports back.
//!
//! * [`startup`] runs the steps from the loading of the library to the
//!   active redirection, with [`symbol`] for the lookup of the presentation
//!   function and [`redirect`] for the record of the redirection.
//! * [`driver`] stands in for the presentation call: it builds the overlay
//!   once, draws a frame per call, and hands every call on to the original
//!   function. [`protocol`] states what holds of whole presentation calls.
//! * [`interceptor`] stands in for the window procedure: it records input
//!   events in the [`input`] state and decides which events the host still
//!   gets. [`message`] and [`payload`] read the native events.
//! * [`timing`] measures the time between frames, [`keymap`] names the keys
//!   of the user interface, and [`text`] writes numbers into diagnostics.

pub mod payload;
pub mod message;
pub mod input;
pub mod interceptor;
pub mod timing;
pub mod keymap;
pub mod driver;
pub mod protocol;
pub mod text;
pub mod symbol;
pub mod redirect;
pub mod startup;
