//! Client-side control layer for window managers that follow the Extended
//! Window Manager Hints conventions.
//!
//! The crate holds the rules of that layer: which property a query reads and
//! how its reply is decoded, which client messages a request sends, and where a
//! window ends up when it is shaped or positioned by a preset. It performs no
//! I/O of its own: a caller that owns the connection carries out the requests
//! described here and hands the replies back.

pub mod atoms;
pub mod error;
pub mod event;
pub mod layout;
pub mod model;
pub mod property;
pub mod text;
pub mod window;
pub mod wm;

pub use atoms::AtomCollection;
pub use error::{ErrorWrapper, WindowManagerError, WindowManagerResult};
pub use model::{WinClass, WinGravity, WinMap, WinPosition, WinShape, WinState, WinType};
pub use property::{GetPropertyResult, PropertyReply, PropertyRequest};
pub use window::{WinOpt, Window, WindowDetails};
pub use wm::WindowManager;
