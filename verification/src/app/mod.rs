pub mod startup;
pub mod state;

pub use startup::{boot, BootSummary};
pub use state::Application;
