use mdc_adapters::binding::CallbackSlot;
use mdc_adapters::binding::ClickEvent;
use mdc_adapters::binding::ContextMenuEvent;
use mdc_adapters::binding::ElementHandle;
use mdc_adapters::binding::Stage;
use mdc_adapters::ident::IdAllocator;
use mdc_adapters::primary_action::Emit;
use mdc_adapters::primary_action::Msg;
use mdc_adapters::primary_action::PrimaryAction;
use mdc_adapters::primary_action::Props;

fn card_props() -> Props {
    Props { id: None, children: "<p>hello</p>".to_owned(), onclick: None, oncontextclick: None }
}

#[test]
fn generated_identifier_uses_kind_prefix_and_serial() {
    let mut alloc = IdAllocator::new();
    let first = PrimaryAction::create(card_props(), &mut alloc);
    let second = PrimaryAction::create(card_props(), &mut alloc);
    assert_eq!(first.id, "card-primary-action-0");
    assert_eq!(second.id, "card-primary-action-1");
    assert_eq!(first.stage, Stage::Unmounted);
    assert!(first.ripple.is_none());
}

#[test]
fn mount_with_absent_element_stays_inert_and_destroy_is_noop() {
    let mut alloc = IdAllocator::new();
    let mut adapter = PrimaryAction::create(card_props(), &mut alloc);
    let mounted = adapter.mounted(None);
    assert!(!mounted.rerender);
    assert!(mounted.bind.is_none());
    assert!(adapter.ripple.is_none());
    assert_eq!(adapter.stage, Stage::Mounted);
    let teardown = adapter.destroy();
    assert!(!teardown.destroy);
    assert_eq!(adapter.stage, Stage::Destroyed);
}

#[test]
fn mount_with_present_element_binds_ripple_and_destroy_releases_it() {
    let mut alloc = IdAllocator::new();
    let mut adapter = PrimaryAction::create(card_props(), &mut alloc);
    let element = ElementHandle { token: 11 };
    let mounted = adapter.mounted(Some(element));
    assert_eq!(mounted.bind, Some(element));
    assert!(!mounted.rerender);
    assert_eq!(adapter.ripple.map(|b| b.element), Some(element));
    let teardown = adapter.destroy();
    assert!(teardown.destroy);
    assert!(adapter.ripple.is_none());
}

#[test]
fn change_with_equal_props_is_noop() {
    let mut alloc = IdAllocator::new();
    let mut adapter = PrimaryAction::create(card_props(), &mut alloc);
    assert!(!adapter.change(card_props()));
    assert_eq!(adapter.props, card_props());
}

#[test]
fn change_with_different_props_replaces_and_rerenders() {
    let mut alloc = IdAllocator::new();
    let mut adapter = PrimaryAction::create(card_props(), &mut alloc);
    let mut new_props = card_props();
    new_props.children = "<p>bye</p>".to_owned();
    assert!(adapter.change(new_props.clone()));
    assert_eq!(adapter.props, new_props);
}

#[test]
fn left_click_with_handler_emits_and_never_prevents_default() {
    let mut alloc = IdAllocator::new();
    let slot = CallbackSlot { token: 5 };
    let mut props = card_props();
    props.onclick = Some(slot);
    let adapter = PrimaryAction::create(props, &mut alloc);
    let event = ClickEvent { token: 77 };
    let dispatch = adapter.update(Msg::LeftClick(event));
    assert_eq!(dispatch.emit, Some(Emit::Click(slot, event)));
    assert!(!dispatch.prevent_default);
    assert!(!dispatch.rerender);
}

#[test]
fn left_click_without_handler_is_dropped_and_never_prevents_default() {
    let mut alloc = IdAllocator::new();
    let adapter = PrimaryAction::create(card_props(), &mut alloc);
    let dispatch = adapter.update(Msg::LeftClick(ClickEvent { token: 1 }));
    assert_eq!(dispatch.emit, None);
    assert!(!dispatch.prevent_default);
}

#[test]
fn context_click_with_handler_prevents_default_and_emits() {
    let mut alloc = IdAllocator::new();
    let slot = CallbackSlot { token: 8 };
    let mut props = card_props();
    props.oncontextclick = Some(slot);
    let adapter = PrimaryAction::create(props, &mut alloc);
    let event = ContextMenuEvent { token: 13 };
    let dispatch = adapter.update(Msg::RightClick(event));
    assert_eq!(dispatch.emit, Some(Emit::ContextClick(slot, event)));
    assert!(dispatch.prevent_default);
}

#[test]
fn context_click_without_handler_never_prevents_default() {
    let mut alloc = IdAllocator::new();
    let adapter = PrimaryAction::create(card_props(), &mut alloc);
    let dispatch = adapter.update(Msg::RightClick(ContextMenuEvent { token: 13 }));
    assert_eq!(dispatch.emit, None);
    assert!(!dispatch.prevent_default);
}

#[test]
fn render_carries_id_class_tabindex_and_children() {
    let mut alloc = IdAllocator::new();
    let adapter = PrimaryAction::create(card_props(), &mut alloc);
    let markup = adapter.render();
    assert_eq!(markup.id, "card-primary-action-0");
    assert_eq!(markup.class, "mdc-card__primary-action");
    assert_eq!(markup.tab_index, 0);
    assert_eq!(markup.children, "<p>hello</p>");
}
