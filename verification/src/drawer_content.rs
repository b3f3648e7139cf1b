//! Adapter for a drawer's content region.
//!
//! The simplest adapter: no external behavior object is ever bound, so its
//! whole lifecycle is identifier resolution, configuration reconciliation and
//! rendering.

use vstd::prelude::*;

use crate::binding::opt_str_equal;
use crate::binding::opt_string_eq;
use crate::ident::auto_id;
use crate::ident::resolve_id;
use crate::ident::IdAllocator;

verus! {

/// Configuration of a drawer content region: an optional explicit identifier
/// and the child markup passed through unchanged.
#[derive(Clone, Debug, PartialEq)]
pub struct Props {
    pub id: Option<String>,
    pub children: String,
}

/// Structural equality of two configurations.
pub open spec fn props_equal(a: Props, b: Props) -> bool {
    opt_str_equal(a.id, b.id) && a.children@ == b.children@
}

pub fn props_eq(a: &Props, b: &Props) -> (r: bool)
    ensures
        r == props_equal(*a, *b),
{
    opt_string_eq(&a.id, &b.id) && a.children == b.children
}

/// Render output: a single root container element.
#[derive(Clone, Debug, PartialEq)]
pub struct Markup {
    pub id: String,
    pub class: String,
    pub children: String,
}

/// Adapter instance for one drawer content region.
pub struct Content {
    pub id: String,
    pub props: Props,
}

impl Content {
    /// Create the adapter: resolve the identifier (the caller-supplied one, or
    /// a generated `drawer-content-<serial>`) and store the configuration.
    pub fn create(props: Props, alloc: &mut IdAllocator) -> (c: Self)
        requires
            props.id is None ==> old(alloc).counter < u64::MAX,
        ensures
            c.props == props,
            props.id matches Some(e) ==> c.id@ == e@ && *final(alloc) == *old(alloc),
            props.id is None ==> c.id@ == auto_id("drawer-content-"@, old(alloc).counter as nat)
                && final(alloc).counter == old(alloc).counter + 1,
    {
        let id = resolve_id("drawer-content-", &props.id, alloc);
        Content { id, props }
    }

    /// Reconcile a change notification: an equal configuration is a no-op and
    /// needs no re-render; a different one replaces the stored configuration
    /// wholesale and requests a re-render.
    pub fn change(&mut self, props: Props) -> (rerender: bool)
        ensures
            rerender == !props_equal(old(self).props, props),
            props_equal(old(self).props, props) ==> *final(self) == *old(self),
            final(self).props == if props_equal(old(self).props, props) {
                old(self).props
            } else {
                props
            },
            final(self).id == old(self).id,
    {
        if props_eq(&self.props, &props) {
            false
        } else {
            self.props = props;
            true
        }
    }

    /// The content region translates no events: every message is dropped and
    /// no re-render is requested.
    pub fn update(&self) -> (rerender: bool)
        ensures
            !rerender,
    {
        false
    }

    /// Render: one root container carrying the resolved identifier, the fixed
    /// drawer-content class, and the child markup unchanged.
    pub fn render(&self) -> (m: Markup)
        ensures
            m.id@ == self.id@,
            m.class@ == "mdc-drawer__content"@,
            m.children@ == self.props.children@,
    {
        Markup {
            id: self.id.clone(),
            class: "mdc-drawer__content".to_owned(),
            children: self.props.children.clone(),
        }
    }
}

} // verus!
