pub mod cli_options;
pub mod file;
pub mod file_name;
pub mod options;
pub mod path_ext;
pub mod rens_target;
pub mod sed_pattern;
pub mod strategy;
mod text;
pub mod transform;
pub mod traverse;

pub use file::{File, Name, RenameTarget};
pub use rens_target::RensTarget;
pub use file_name::FileName;
pub use sed_pattern::flag::Flag;
pub use sed_pattern::SedPattern;
pub use strategy::Strategy;
