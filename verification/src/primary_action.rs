//! Adapter for a card's primary-action surface.
//!
//! The surface carries a ripple effect: an external behavior object the host
//! binds to the backing element once it is rendered. The adapter resolves the
//! widget identifier, decides at mount time whether a ripple can be bound,
//! translates raw click events into the owner's callbacks, and asks the host
//! to tear the ripple down on destroy.

use vstd::prelude::*;

use crate::binding::opt_slot_eq;
use crate::binding::opt_slot_equal;
use crate::binding::opt_str_equal;
use crate::binding::opt_string_eq;
use crate::binding::BehaviorHandle;
use crate::binding::CallbackSlot;
use crate::binding::ClickEvent;
use crate::binding::ContextMenuEvent;
use crate::binding::ElementHandle;
use crate::binding::Stage;
use crate::ident::auto_id;
use crate::ident::resolve_id;
use crate::ident::IdAllocator;

verus! {

/// Configuration of a primary-action surface: an optional explicit identifier,
/// the child markup passed through unchanged, and the owner's optional click
/// and context-click callbacks.
#[derive(Clone, Debug, PartialEq)]
pub struct Props {
    pub id: Option<String>,
    pub children: String,
    pub onclick: Option<CallbackSlot>,
    pub oncontextclick: Option<CallbackSlot>,
}

/// Structural equality of two configurations; a change notification carrying
/// an equal configuration is a no-op.
pub open spec fn props_equal(a: Props, b: Props) -> bool {
    &&& opt_str_equal(a.id, b.id)
    &&& a.children@ == b.children@
    &&& opt_slot_equal(a.onclick, b.onclick)
    &&& opt_slot_equal(a.oncontextclick, b.oncontextclick)
}

pub fn props_eq(a: &Props, b: &Props) -> (r: bool)
    ensures
        r == props_equal(*a, *b),
{
    opt_string_eq(&a.id, &b.id) && a.children == b.children && opt_slot_eq(&a.onclick, &b.onclick)
        && opt_slot_eq(&a.oncontextclick, &b.oncontextclick)
}

/// A raw event the host delivers to this adapter.
#[derive(Clone, Copy, PartialEq, Eq, Structural, Debug)]
pub enum Msg {
    LeftClick(ClickEvent),
    RightClick(ContextMenuEvent),
}

/// A callback invocation the adapter asks the host to perform.
#[derive(Clone, Copy, PartialEq, Eq, Structural, Debug)]
pub enum Emit {
    Click(CallbackSlot, ClickEvent),
    ContextClick(CallbackSlot, ContextMenuEvent),
}

/// The outcome of translating one raw event: at most one callback invocation,
/// whether the browser's default behavior must be suppressed, and whether a
/// re-render is needed (never, for event handling).
#[derive(Clone, Copy, PartialEq, Eq, Structural, Debug)]
pub struct Dispatch {
    pub emit: Option<Emit>,
    pub prevent_default: bool,
    pub rerender: bool,
}

/// The outcome of the mount step: whether to re-render (never) and the element
/// the host must bind a fresh ripple to, if the lookup found one.
#[derive(Clone, Copy, PartialEq, Eq, Structural, Debug)]
pub struct MountOutcome {
    pub rerender: bool,
    pub bind: Option<ElementHandle>,
}

/// The outcome of the destroy step: whether the host must destroy the bound
/// ripple object.
#[derive(Clone, Copy, PartialEq, Eq, Structural, Debug)]
pub struct TeardownOutcome {
    pub destroy: bool,
}

/// Render output: a single root container element.
#[derive(Clone, Debug, PartialEq)]
pub struct Markup {
    pub id: String,
    pub class: String,
    pub tab_index: u64,
    pub children: String,
}

/// How one raw event is translated under a given configuration: a left click
/// goes to the `onclick` callback and never suppresses the default behavior; a
/// context-menu click goes to the `oncontextclick` callback and suppresses the
/// default exactly when that callback is registered.
pub open spec fn update_dispatch(props: Props, msg: Msg) -> Dispatch {
    match msg {
        Msg::LeftClick(e) => Dispatch {
            emit: match props.onclick {
                Some(cb) => Some(Emit::Click(cb, e)),
                None => None,
            },
            prevent_default: false,
            rerender: false,
        },
        Msg::RightClick(e) => Dispatch {
            emit: match props.oncontextclick {
                Some(cb) => Some(Emit::ContextClick(cb, e)),
                None => None,
            },
            prevent_default: props.oncontextclick is Some,
            rerender: false,
        },
    }
}

/// Left-click translation never suppresses the default browser behavior;
/// context-menu translation suppresses it if and only if an `oncontextclick`
/// callback is registered.
pub proof fn lemma_default_suppression(props: Props, msg: Msg)
    ensures
        msg is LeftClick ==> !update_dispatch(props, msg).prevent_default,
        msg is RightClick ==> (update_dispatch(props, msg).prevent_default <==> props.oncontextclick is Some),
        props.oncontextclick is None ==> !update_dispatch(props, msg).prevent_default,
{
}

/// Adapter instance for one primary-action surface.
pub struct PrimaryAction {
    pub id: String,
    pub props: Props,
    pub ripple: Option<BehaviorHandle>,
    pub stage: Stage,
}

impl PrimaryAction {
    /// Well-formed: a bound ripple exists only while mounted.
    pub open spec fn wf(self) -> bool {
        self.ripple is Some ==> self.stage == Stage::Mounted
    }

    /// Create the adapter: resolve the identifier (the caller-supplied one, or
    /// a generated `card-primary-action-<serial>`), store the configuration,
    /// and start unmounted with no ripple bound.
    pub fn create(props: Props, alloc: &mut IdAllocator) -> (c: Self)
        requires
            props.id is None ==> old(alloc).counter < u64::MAX,
        ensures
            c.wf(),
            c.stage == Stage::Unmounted,
            c.ripple is None,
            c.props == props,
            props.id matches Some(e) ==> c.id@ == e@ && *final(alloc) == *old(alloc),
            props.id is None ==> c.id@ == auto_id("card-primary-action-"@, old(alloc).counter as nat)
                && final(alloc).counter == old(alloc).counter + 1,
    {
        let id = resolve_id("card-primary-action-", &props.id, alloc);
        PrimaryAction { id, props, ripple: None, stage: Stage::Unmounted }
    }

    /// Mount: the host reports the element lookup's result. When an element
    /// was found, record the binding and ask the host to attach a ripple to
    /// it; when none was found, stay inert. Never requests a re-render.
    pub fn mounted(&mut self, element: Option<ElementHandle>) -> (r: MountOutcome)
        requires
            old(self).wf(),
            old(self).stage == Stage::Unmounted,
        ensures
            final(self).wf(),
            final(self).stage == Stage::Mounted,
            final(self).id == old(self).id,
            final(self).props == old(self).props,
            element matches Some(e) ==> final(self).ripple == Some(BehaviorHandle { element: e }),
            element is None ==> final(self).ripple is None,
            r.bind == element,
            !r.rerender,
    {
        self.stage = Stage::Mounted;
        self.ripple = match element {
            Some(e) => Some(BehaviorHandle { element: e }),
            None => None,
        };
        MountOutcome { rerender: false, bind: element }
    }

    /// Reconcile a change notification: an equal configuration is a no-op and
    /// needs no re-render; a different one replaces the stored configuration
    /// wholesale and requests a re-render. The ripple needs no reconfiguration
    /// either way.
    pub fn change(&mut self, props: Props) -> (rerender: bool)
        requires
            old(self).wf(),
        ensures
            final(self).wf(),
            rerender == !props_equal(old(self).props, props),
            props_equal(old(self).props, props) ==> *final(self) == *old(self),
            final(self).props == if props_equal(old(self).props, props) {
                old(self).props
            } else {
                props
            },
            final(self).id == old(self).id,
            final(self).ripple == old(self).ripple,
            final(self).stage == old(self).stage,
    {
        if props_eq(&self.props, &props) {
            false
        } else {
            self.props = props;
            true
        }
    }

    /// Translate one raw event into the owner's callback, per
    /// `update_dispatch`. Event handling itself never mutates the adapter and
    /// never requests a re-render.
    pub fn update(&self, msg: Msg) -> (d: Dispatch)
        ensures
            d == update_dispatch(self.props, msg),
    {
        match msg {
            Msg::LeftClick(event) => Dispatch {
                emit: match self.props.onclick {
                    Some(cb) => Some(Emit::Click(cb, event)),
                    None => None,
                },
                prevent_default: false,
                rerender: false,
            },
            Msg::RightClick(event) => match self.props.oncontextclick {
                Some(cb) => Dispatch {
                    emit: Some(Emit::ContextClick(cb, event)),
                    prevent_default: true,
                    rerender: false,
                },
                None => Dispatch { emit: None, prevent_default: false, rerender: false },
            },
        }
    }

    /// Render: one root container carrying the resolved identifier, the fixed
    /// primary-action class, a zero tab index, and the child markup unchanged.
    pub fn render(&self) -> (m: Markup)
        ensures
            m.id@ == self.id@,
            m.class@ == "mdc-card__primary-action"@,
            m.tab_index == 0,
            m.children@ == self.props.children@,
    {
        Markup {
            id: self.id.clone(),
            class: "mdc-card__primary-action".to_owned(),
            tab_index: 0,
            children: self.props.children.clone(),
        }
    }

    /// Destroy: ask the host to destroy the ripple exactly when one is bound;
    /// an inert adapter tears down as a no-op. Terminal.
    pub fn destroy(&mut self) -> (r: TeardownOutcome)
        requires
            old(self).wf(),
        ensures
            final(self).wf(),
            final(self).stage == Stage::Destroyed,
            final(self).ripple is None,
            final(self).id == old(self).id,
            final(self).props == old(self).props,
            r.destroy == (old(self).ripple is Some),
    {
        let had = self.ripple.is_some();
        self.ripple = None;
        self.stage = Stage::Destroyed;
        TeardownOutcome { destroy: had }
    }
}

} // verus!
