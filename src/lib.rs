//! Drives one relay on a GPIO line for a requested time and guarantees that
//! the line ends low on every exit path.
//!
//! The library holds the decisions: which line a relay is wired to, how the
//! invocation is checked, which steps a single pin write takes, and the order
//! of writes, sleep and exit over a whole run, including an interrupt. The
//! program around it performs the hardware writes, the sleep and the signal
//! handling that these decisions ask for.

pub mod driver;
pub mod invocation;
pub mod relay;
pub mod sequencer;
pub mod text;

pub use driver::{write_plan, DriverOp, Fault, Level, Line, Mode};
pub use invocation::{check_invocation, ArgError, Invocation, Span};
pub use relay::{pins, RELAY_COUNT};
pub use sequencer::{Action, Ending, Event, Guard, Phase, Sequencer, FAULT_EXIT_CODE};
pub use text::parse_u8_trimmed;
