//! Core of the cubixwm window manager: window bookkeeping, focus and
//! stacking, interactive move/resize grabs, and the state of the
//! compositor's subsystems.

pub mod app;
pub mod backend;
pub mod command;
pub mod desktop;
pub mod input;
pub mod protocol;
pub mod render;
pub mod utils;
pub mod wm;
pub mod x11;

pub use app::{boot, Application, BootSummary};
pub use backend::Backend;
pub use desktop::{
    FocusStack, Point, Rect, ResizeEdge, Size, StackingOrder, Window, WindowId, WindowKind,
    Workspace,
};
pub use wm::{GrabState, WindowAction, WindowManager};
