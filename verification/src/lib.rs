//! The verified core of a small binding layer over a native, retained-mode
//! GUI toolkit.
//!
//! The toolkit owns every widget; this crate owns only the rules that sit
//! around the native calls:
//!
//! * [`handle`]: what a reference to a toolkit-owned widget is, and when one
//!   exists at all;
//! * [`attrs`]: the attribute names the binding uses and the values it writes
//!   for booleans, positions and sizes;
//! * [`text`]: decimal text for integers and the test a text value has to pass
//!   before it can cross into the toolkit;
//! * [`store`]: the mapping from user-chosen names to widgets;
//! * [`lifecycle`]: the one-shot sequence open, run, close, the flag that says
//!   whether widget operations are currently defined, and the guarded access to
//!   the named widget store.
//!
//! Every function here is proved against its contract; none of them panics.

pub mod attrs;
pub mod handle;
pub mod lifecycle;
pub mod store;
pub mod text;
