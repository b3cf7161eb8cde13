pub mod confirmations;
pub mod mode;
pub mod recursion;
pub mod utils;

pub use confirmations::{ConfirmOption, Confirmations, OverrideOption};
pub use mode::PatternOptions;
pub use recursion::Recursion;
pub use utils::GlobalOrNumbered;
