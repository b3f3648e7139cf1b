//! Adapter for a snackbar.
//!
//! The snackbar owns an external controller object that the host binds to the
//! backing element after mount. The adapter decides, as ordered command
//! sequences, how that controller is configured at mount time (timeout, an
//! immediate open, the close-event subscription), how a configuration change
//! is reconciled into open/close calls, and how teardown unsubscribes before
//! destroying the controller. It also translates the controller's events into
//! the owner's callbacks and renders the snackbar surface.

use vstd::prelude::*;

use crate::binding::opt_slot_eq;
use crate::binding::opt_slot_equal;
use crate::binding::opt_str_equal;
use crate::binding::opt_string_eq;
use crate::binding::opt_u16_eq;
use crate::binding::BehaviorHandle;
use crate::binding::CallbackSlot;
use crate::binding::ElementHandle;
use crate::binding::Stage;
use crate::ident::auto_id;
use crate::ident::resolve_id;
use crate::ident::IdAllocator;

verus! {

/// Configuration of a snackbar: an optional explicit identifier, the label
/// text, the action label (empty means no action region), the owner's
/// optional callbacks, an optional auto-dismiss timeout in milliseconds, and
/// the open/closed flag.
#[derive(Clone, Debug, PartialEq)]
pub struct Props {
    pub id: Option<String>,
    pub text: String,
    pub action_text: String,
    pub onactionclicked: Option<CallbackSlot>,
    pub onclose: Option<CallbackSlot>,
    pub timeout_ms: Option<u16>,
    pub open: bool,
}

/// Structural equality of two configurations.
pub open spec fn props_equal(a: Props, b: Props) -> bool {
    &&& opt_str_equal(a.id, b.id)
    &&& a.text@ == b.text@
    &&& a.action_text@ == b.action_text@
    &&& opt_slot_equal(a.onactionclicked, b.onactionclicked)
    &&& opt_slot_equal(a.onclose, b.onclose)
    &&& a.timeout_ms == b.timeout_ms
    &&& a.open == b.open
}

pub fn props_eq(a: &Props, b: &Props) -> (r: bool)
    ensures
        r == props_equal(*a, *b),
{
    opt_string_eq(&a.id, &b.id) && a.text == b.text && a.action_text == b.action_text
        && opt_slot_eq(&a.onactionclicked, &b.onactionclicked) && opt_slot_eq(
        &a.onclose,
        &b.onclose,
    ) && opt_u16_eq(&a.timeout_ms, &b.timeout_ms) && a.open == b.open
}

/// A raw event the host delivers to this adapter: the action button was
/// clicked, or the controller reported the snackbar closed.
#[derive(Clone, Copy, PartialEq, Eq, Structural, Debug)]
pub enum Msg {
    ActionClicked,
    Closed,
}

/// One call the host must make on the snackbar controller, in the order the
/// adapter hands them out.
#[derive(Clone, Debug, PartialEq)]
pub enum SnackbarCommand {
    /// Construct the controller on this element.
    Bind(ElementHandle),
    /// Set the auto-dismiss timeout.
    SetTimeoutMs(u16),
    /// Open the snackbar.
    Open,
    /// Close the snackbar, with an optional reason.
    Close(Option<String>),
    /// Subscribe the adapter's close handler to the controller's close event.
    Listen,
    /// Unsubscribe that handler again.
    Unlisten,
    /// Release the controller object.
    Destroy,
}

/// The outcome of the mount step.
pub struct MountOutcome {
    pub rerender: bool,
    pub commands: Vec<SnackbarCommand>,
}

/// The outcome of reconciling a change notification.
pub struct ChangeOutcome {
    pub rerender: bool,
    pub commands: Vec<SnackbarCommand>,
}

/// The outcome of the destroy step.
pub struct TeardownOutcome {
    pub commands: Vec<SnackbarCommand>,
}

/// The outcome of translating one raw event: at most one callback invocation,
/// and never a re-render.
#[derive(Clone, Copy, PartialEq, Eq, Structural, Debug)]
pub struct Dispatch {
    pub emit: Option<CallbackSlot>,
    pub rerender: bool,
}

/// Render output of the action region: exactly one labeled action button.
#[derive(Clone, Debug, PartialEq)]
pub struct ActionMarkup {
    pub region_class: String,
    pub button_class: String,
    pub button_label: String,
}

/// Render output: one root container with the surface, the label region, and
/// conditionally the action region.
#[derive(Clone, Debug, PartialEq)]
pub struct Markup {
    pub id: String,
    pub class: String,
    pub surface_class: String,
    pub label_class: String,
    pub label_text: String,
    pub action: Option<ActionMarkup>,
}

/// The commands the mount step issues. When the element lookup found nothing
/// the adapter stays inert and issues none. Otherwise: construct the
/// controller on the element, apply the configured timeout if any, open
/// immediately if the configuration says open, and subscribe the close
/// handler.
pub open spec fn mount_commands(props: Props, element: Option<ElementHandle>) -> Seq<
    SnackbarCommand,
> {
    match element {
        None => seq![],
        Some(e) => seq![SnackbarCommand::Bind(e)] + (match props.timeout_ms {
            Some(t) => seq![SnackbarCommand::SetTimeoutMs(t)],
            None => seq![],
        }) + (if props.open {
            seq![SnackbarCommand::Open]
        } else {
            seq![]
        }) + seq![SnackbarCommand::Listen],
    }
}

/// The commands a change notification issues. An equal configuration issues
/// none; an unequal one with a bound controller is reconciled coarsely: one
/// open call when the new configuration says open, else one close call with
/// no reason — regardless of which field changed.
pub open spec fn change_commands(s: Snackbar, new_props: Props) -> Seq<SnackbarCommand> {
    if props_equal(s.props, new_props) {
        seq![]
    } else if s.inner is Some {
        if new_props.open {
            seq![SnackbarCommand::Open]
        } else {
            seq![SnackbarCommand::Close(None)]
        }
    } else {
        seq![]
    }
}

/// The commands the destroy step issues: unsubscribe the close handler, then
/// release the controller — nothing when no controller is bound.
pub open spec fn destroy_commands(s: Snackbar) -> Seq<SnackbarCommand> {
    if s.inner is Some {
        seq![SnackbarCommand::Unlisten, SnackbarCommand::Destroy]
    } else {
        seq![]
    }
}

/// How one raw event is translated under a given configuration: each event
/// goes to its matching optional callback, and event handling never requests
/// a re-render.
pub open spec fn update_dispatch(props: Props, msg: Msg) -> Dispatch {
    match msg {
        Msg::ActionClicked => Dispatch { emit: props.onactionclicked, rerender: false },
        Msg::Closed => Dispatch { emit: props.onclose, rerender: false },
    }
}

/// Adapter instance for one snackbar.
pub struct Snackbar {
    pub id: String,
    pub props: Props,
    pub inner: Option<BehaviorHandle>,
    pub stage: Stage,
}

impl Snackbar {
    /// Well-formed: a bound controller exists only while mounted.
    pub open spec fn wf(self) -> bool {
        self.inner is Some ==> self.stage == Stage::Mounted
    }

    /// Create the adapter: resolve the identifier (the caller-supplied one, or
    /// a generated `snackbar-<serial>`), store the configuration, and start
    /// unmounted with no controller bound.
    pub fn create(props: Props, alloc: &mut IdAllocator) -> (s: Self)
        requires
            props.id is None ==> old(alloc).counter < u64::MAX,
        ensures
            s.wf(),
            s.stage == Stage::Unmounted,
            s.inner is None,
            s.props == props,
            props.id matches Some(e) ==> s.id@ == e@ && *final(alloc) == *old(alloc),
            props.id is None ==> s.id@ == auto_id("snackbar-"@, old(alloc).counter as nat)
                && final(alloc).counter == old(alloc).counter + 1,
    {
        let id = resolve_id("snackbar-", &props.id, alloc);
        Snackbar { id, props, inner: None, stage: Stage::Unmounted }
    }

    /// Mount: the host reports the element lookup's result. When an element
    /// was found, record the binding and hand back the configuration commands
    /// per `mount_commands`; when none was found, stay inert — a silent
    /// degradation, not an error. Never requests a re-render.
    pub fn mounted(&mut self, element: Option<ElementHandle>) -> (r: MountOutcome)
        requires
            old(self).wf(),
            old(self).stage == Stage::Unmounted,
        ensures
            final(self).wf(),
            final(self).stage == Stage::Mounted,
            final(self).id == old(self).id,
            final(self).props == old(self).props,
            element matches Some(e) ==> final(self).inner == Some(BehaviorHandle { element: e }),
            element is None ==> final(self).inner is None,
            r.commands@ == mount_commands(old(self).props, element),
            !r.rerender,
    {
        let mut commands: Vec<SnackbarCommand> = Vec::new();
        match element {
            Some(e) => {
                commands.push(SnackbarCommand::Bind(e));
                match &self.props.timeout_ms {
                    Some(t) => commands.push(SnackbarCommand::SetTimeoutMs(*t)),
                    None => (),
                }
                if self.props.open {
                    commands.push(SnackbarCommand::Open);
                }
                commands.push(SnackbarCommand::Listen);
                self.inner = Some(BehaviorHandle { element: e });
            },
            None => (),
        }
        self.stage = Stage::Mounted;
        proof {
            assert(commands@ =~= mount_commands(old(self).props, element));
        }
        MountOutcome { rerender: false, commands }
    }

    /// Reconcile a change notification: an equal configuration is a no-op —
    /// no re-render, no controller mutation. A different one replaces the
    /// stored configuration wholesale, requests a re-render, and, when a
    /// controller is bound, reconciles it per `change_commands`.
    pub fn change(&mut self, props: Props) -> (r: ChangeOutcome)
        requires
            old(self).wf(),
        ensures
            final(self).wf(),
            r.rerender == !props_equal(old(self).props, props),
            r.commands@ == change_commands(*old(self), props),
            props_equal(old(self).props, props) ==> *final(self) == *old(self),
            final(self).props == if props_equal(old(self).props, props) {
                old(self).props
            } else {
                props
            },
            final(self).id == old(self).id,
            final(self).inner == old(self).inner,
            final(self).stage == old(self).stage,
    {
        let mut commands: Vec<SnackbarCommand> = Vec::new();
        if props_eq(&self.props, &props) {
            ChangeOutcome { rerender: false, commands }
        } else {
            let now_open = props.open;
            self.props = props;
            if self.inner.is_some() {
                if now_open {
                    commands.push(SnackbarCommand::Open);
                } else {
                    commands.push(SnackbarCommand::Close(None));
                }
            }
            proof {
                assert(commands@ =~= change_commands(*old(self), self.props));
            }
            ChangeOutcome { rerender: true, commands }
        }
    }

    /// Translate one raw event into the owner's callback, per
    /// `update_dispatch`. Event handling itself never mutates the adapter and
    /// never requests a re-render.
    pub fn update(&self, msg: Msg) -> (d: Dispatch)
        ensures
            d == update_dispatch(self.props, msg),
    {
        match msg {
            Msg::ActionClicked => Dispatch { emit: self.props.onactionclicked, rerender: false },
            Msg::Closed => Dispatch { emit: self.props.onclose, rerender: false },
        }
    }

    /// Render: one root container carrying the resolved identifier and the
    /// fixed snackbar classes, a label region with the configured text, and an
    /// action region — with exactly one button labeled by the action text —
    /// if and only if the action text is non-empty.
    pub fn render(&self) -> (m: Markup)
        ensures
            m.id@ == self.id@,
            m.class@ == "mdc-snackbar"@,
            m.surface_class@ == "mdc-snackbar__surface"@,
            m.label_class@ == "mdc-snackbar__label"@,
            m.label_text@ == self.props.text@,
            m.action is Some <==> self.props.action_text@.len() > 0,
            m.action matches Some(a) ==> a.button_label@ == self.props.action_text@
                && a.region_class@ == "mdc-snackbar__actions"@ && a.button_class@
                == "mdc-snackbar__action"@,
    {
        let action = if !self.props.action_text.as_str().is_empty() {
            Some(
                ActionMarkup {
                    region_class: "mdc-snackbar__actions".to_owned(),
                    button_class: "mdc-snackbar__action".to_owned(),
                    button_label: self.props.action_text.clone(),
                },
            )
        } else {
            None
        };
        Markup {
            id: self.id.clone(),
            class: "mdc-snackbar".to_owned(),
            surface_class: "mdc-snackbar__surface".to_owned(),
            label_class: "mdc-snackbar__label".to_owned(),
            label_text: self.props.text.clone(),
            action,
        }
    }

    /// Destroy: when a controller is bound, unsubscribe the close handler and
    /// then release the controller, in that order; an inert adapter tears
    /// down as a no-op. Terminal.
    pub fn destroy(&mut self) -> (r: TeardownOutcome)
        requires
            old(self).wf(),
        ensures
            final(self).wf(),
            final(self).stage == Stage::Destroyed,
            final(self).inner is None,
            final(self).id == old(self).id,
            final(self).props == old(self).props,
            r.commands@ == destroy_commands(*old(self)),
    {
        let mut commands: Vec<SnackbarCommand> = Vec::new();
        if self.inner.is_some() {
            commands.push(SnackbarCommand::Unlisten);
            commands.push(SnackbarCommand::Destroy);
        }
        self.inner = None;
        self.stage = Stage::Destroyed;
        proof {
            assert(commands@ =~= destroy_commands(*old(self)));
        }
        TeardownOutcome { commands }
    }
}

/// Turning the open flag on through a change notification issues exactly one
/// open call on the bound controller.
pub proof fn lemma_open_toggle_single_open(s: Snackbar, p: Props)
    requires
        s.inner is Some,
        !s.props.open,
        p.open,
    ensures
        change_commands(s, p) =~= seq![SnackbarCommand::Open],
{
    assert(!props_equal(s.props, p));
}

/// Turning the open flag off through a change notification issues exactly one
/// close call, with no reason, on the bound controller.
pub proof fn lemma_close_toggle_single_close(s: Snackbar, p: Props)
    requires
        s.inner is Some,
        s.props.open,
        !p.open,
    ensures
        change_commands(s, p) =~= seq![SnackbarCommand::Close(None)],
{
    assert(!props_equal(s.props, p));
}

/// An adapter left inert by a mount that found no element tears down as a
/// no-op: its destroy step issues no command.
pub proof fn lemma_inert_destroy_is_noop(s: Snackbar)
    requires
        s.inner is None,
    ensures
        destroy_commands(s) =~= seq![],
{
}

/// Teardown unsubscribes before it destroys: whenever the destroy step issues
/// a release of the controller, it also issues an unsubscribe, and every
/// unsubscribe stands strictly before every release in the command order.
pub proof fn lemma_unlisten_precedes_destroy(s: Snackbar)
    ensures
        destroy_commands(s).contains(SnackbarCommand::Destroy) ==> destroy_commands(s).contains(
            SnackbarCommand::Unlisten,
        ),
        forall|i: int, j: int|
            0 <= i < destroy_commands(s).len() && 0 <= j < destroy_commands(s).len()
                && destroy_commands(s)[i] == SnackbarCommand::Unlisten && destroy_commands(s)[j]
                == SnackbarCommand::Destroy ==> i < j,
{
    if s.inner is Some {
        assert(destroy_commands(s)[0] == SnackbarCommand::Unlisten);
        assert(destroy_commands(s)[1] == SnackbarCommand::Destroy);
        assert(destroy_commands(s).contains(SnackbarCommand::Unlisten));
    }
}

} // verus!
