use mdc_adapters::ident::u64_to_dec;
use mdc_adapters::ident::IdAllocator;
use mdc_adapters::primary_action;

#[test]
fn decimal_rendering_exact_values() {
    assert_eq!(u64_to_dec(0), "0");
    assert_eq!(u64_to_dec(7), "7");
    assert_eq!(u64_to_dec(10), "10");
    assert_eq!(u64_to_dec(42), "42");
    assert_eq!(u64_to_dec(90210), "90210");
    assert_eq!(u64_to_dec(u64::MAX), "18446744073709551615");
}

#[test]
fn allocator_starts_at_zero_and_increments() {
    let mut alloc = IdAllocator::new();
    assert_eq!(alloc.counter, 0);
    assert_eq!(alloc.next_id(), 0);
    assert_eq!(alloc.next_id(), 1);
    assert_eq!(alloc.next_id(), 2);
    assert_eq!(alloc.counter, 3);
}

#[test]
fn generated_identifiers_are_unique_across_live_instances() {
    let mut alloc = IdAllocator::new();
    let mut ids: Vec<String> = Vec::new();
    for _ in 0..100 {
        let props = primary_action::Props {
            id: None,
            children: String::new(),
            onclick: None,
            oncontextclick: None,
        };
        let adapter = primary_action::PrimaryAction::create(props, &mut alloc);
        assert!(!ids.contains(&adapter.id), "duplicate identifier {}", adapter.id);
        ids.push(adapter.id);
    }
}

#[test]
fn explicit_identifier_leaves_allocator_untouched() {
    let mut alloc = IdAllocator::new();
    let props = primary_action::Props {
        id: Some("my-card".to_owned()),
        children: String::new(),
        onclick: None,
        oncontextclick: None,
    };
    let adapter = primary_action::PrimaryAction::create(props, &mut alloc);
    assert_eq!(adapter.id, "my-card");
    assert_eq!(alloc.counter, 0);
}
