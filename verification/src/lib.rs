//! A sans-I/O core for driving a private aggregate audio device on macOS.
//!
//! An application picks an input and an output device, joins them in one
//! private virtual device, and has a render callback run in step with the
//! hardware clock. This crate holds the rules of that: which property of
//! which object is read or written, in which order, with how much room, and
//! what follows from each answer. It never talks to hardware itself. Each
//! operation is a machine that names the primitive request it wants
//! performed and takes the reply; the caller performs the requests.
//!
//! * [`cf`]: the status error, and plain models of managed strings,
//!   numbers, arrays and dictionaries.
//! * [`protocol`]: requests, replies, and the machine for one property
//!   operation.
//! * [`properties`]: addresses, their tags, and the typed entry points.
//! * [`device`], [`backend`]: device handles and system-wide queries.
//! * [`aggregate_device`]: finding or making the virtual device, rewiring
//!   and destroying it.
//! * [`session`]: starting, swapping and stopping a session; buffer
//!   shapes; the decision of the callback trampoline.
//! * [`traits`]: the capabilities that a backend offers.
//! * [`hardware`], [`laws`]: a reference model of the audio subsystem, and
//!   what is proved of whole runs against it.
pub mod aggregate_device;
pub mod backend;
pub mod cf;
pub mod device;
pub mod hardware;
pub mod laws;
pub mod properties;
pub mod protocol;
pub mod session;
pub mod traits;
