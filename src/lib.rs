pub mod object;
pub mod orchestrate;
pub mod organize;
pub mod safety;
pub mod scheme;
pub mod tally;
pub mod visit;

pub use object::ObjectKind;
pub use orchestrate::{Event, ExplodeError, Explosion, Step};
pub use organize::Mode;
pub use safety::{ConfigError, SafetyCheck};
pub use scheme::Scheme;
pub use tally::{Aborted, Outcome};
pub use visit::{EntryEvent, ObjectError, Resolution};
