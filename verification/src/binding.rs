//! Plain-value models of the host boundary.
//!
//! The host hands the adapters opaque tokens for the things it owns: rendered
//! elements and caller-supplied callback functions. The adapters never look
//! inside a token; they only store, compare and hand them back, so each is
//! modeled as a single integer the host allocates.

use vstd::prelude::*;

verus! {

/// Lifecycle stage of an adapter instance. `Unmounted` is initial, `Mounted`
/// is entered exactly once, `Destroyed` is terminal.
#[derive(Clone, Copy, PartialEq, Eq, Structural, Debug)]
pub enum Stage {
    Unmounted,
    Mounted,
    Destroyed,
}

/// The host's token for a live element of the rendered tree.
#[derive(Clone, Copy, PartialEq, Eq, Structural, Debug)]
pub struct ElementHandle {
    pub token: u64,
}

/// Records that one external behavior object is bound to one element.
/// Present in an adapter only between mount and destroy, and never rebound
/// to a different element without an intervening destroy.
#[derive(Clone, Copy, PartialEq, Eq, Structural, Debug)]
pub struct BehaviorHandle {
    pub element: ElementHandle,
}

/// A caller-supplied callback reference, named by a host-side token. The host
/// resolves the token to the actual function when an adapter asks for an
/// invocation.
#[derive(Clone, Copy, PartialEq, Eq, Structural, Debug)]
pub struct CallbackSlot {
    pub token: u64,
}

/// A left-click event as delivered by the host; passed through to the owner's
/// callback unchanged.
#[derive(Clone, Copy, PartialEq, Eq, Structural, Debug)]
pub struct ClickEvent {
    pub token: u64,
}

/// A context-menu event as delivered by the host; passed through to the
/// owner's callback unchanged.
#[derive(Clone, Copy, PartialEq, Eq, Structural, Debug)]
pub struct ContextMenuEvent {
    pub token: u64,
}

/// Structural equality of two optional strings.
pub open spec fn opt_str_equal(a: Option<String>, b: Option<String>) -> bool {
    match (a, b) {
        (Some(x), Some(y)) => x@ == y@,
        (None, None) => true,
        _ => false,
    }
}

/// Structural equality of two optional callback references.
pub open spec fn opt_slot_equal(a: Option<CallbackSlot>, b: Option<CallbackSlot>) -> bool {
    match (a, b) {
        (Some(x), Some(y)) => x == y,
        (None, None) => true,
        _ => false,
    }
}

pub fn opt_string_eq(a: &Option<String>, b: &Option<String>) -> (r: bool)
    ensures
        r == opt_str_equal(*a, *b),
{
    match (a, b) {
        (Some(x), Some(y)) => *x == *y,
        (None, None) => true,
        _ => false,
    }
}

pub fn opt_slot_eq(a: &Option<CallbackSlot>, b: &Option<CallbackSlot>) -> (r: bool)
    ensures
        r == opt_slot_equal(*a, *b),
{
    match (a, b) {
        (Some(x), Some(y)) => x.token == y.token,
        (None, None) => true,
        _ => false,
    }
}

pub fn opt_u16_eq(a: &Option<u16>, b: &Option<u16>) -> (r: bool)
    ensures
        r == (*a == *b),
{
    match (a, b) {
        (Some(x), Some(y)) => x == y,
        (None, None) => true,
        _ => false,
    }
}

} // verus!
