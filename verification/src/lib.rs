//! Lifecycle adapters for material-design widgets.
//!
//! Each adapter pairs an immutable configuration (`Props`), a resolved widget
//! identifier, and an optional handle to an external behavior object (a ripple
//! effect, a snackbar controller) that the host binds to the backing rendered
//! element after mount. The adapters themselves are pure decision logic: given
//! what the host reports — an element lookup result, a new configuration, a
//! raw event — they update their own state and hand back what the host must
//! do: the calls to make on the behavior object, the callbacks to invoke, and
//! whether to re-render. The host — a reactive rendering framework and the
//! widget library's script objects — performs those commands and owns all
//! actual rendering and event delivery.

pub mod binding;
pub mod drawer_content;
pub mod ident;
pub mod primary_action;
pub mod snackbar;

pub use binding::BehaviorHandle;
pub use binding::CallbackSlot;
pub use binding::ClickEvent;
pub use binding::ContextMenuEvent;
pub use binding::ElementHandle;
pub use binding::Stage;
pub use ident::IdAllocator;
