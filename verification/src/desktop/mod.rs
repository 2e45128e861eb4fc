pub mod focus;
pub mod geometry;
pub mod stacking;
pub mod window;
pub mod workspace;

pub use focus::FocusStack;
pub use geometry::{Point, Rect, Size};
pub use stacking::StackingOrder;
pub use window::{ResizeEdge, Window, WindowId, WindowKind};
pub use workspace::Workspace;
