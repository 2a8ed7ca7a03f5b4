use gameplanner_core::{BuildOrder, BuildOrderStep, GameItem};
use std::sync::Arc;

fn create_test_item(id: &str, name: &str) -> Arc<GameItem> {
    Arc::new(GameItem::new(id, name, "Test").with_time_cost(1))
}

fn item_with_cost(id: &str, cost: u64) -> Arc<GameItem> {
    Arc::new(GameItem::new(id, id, "Test").with_time_cost(cost))
}

fn ids(order: &BuildOrder) -> Vec<String> {
    order.steps.iter().map(|s| s.item.id.clone()).collect()
}

fn numbers(order: &BuildOrder) -> Vec<usize> {
    order.steps.iter().map(|s| s.step_number).collect()
}

#[test]
fn test_build_order_creation() {
    let order = BuildOrder::new("Test Order");
    assert_eq!(order.name, "Test Order");
    assert!(order.steps.is_empty());
}

#[test]
fn test_add_step() {
    let mut order = BuildOrder::new("Test Order");
    let item = create_test_item("e4", "e4");

    order.add_step(item.clone());
    assert_eq!(order.steps.len(), 1);
    assert_eq!(order.steps[0].step_number, 1);
    assert_eq!(order.steps[0].item.id, "e4");
}

#[test]
fn test_add_multiple_steps() {
    let mut order = BuildOrder::new("Test Order");
    order.add_step(create_test_item("e4", "e4"));
    order.add_step(create_test_item("e5", "e5"));
    order.add_step(create_test_item("nf3", "Nf3"));

    assert_eq!(order.steps.len(), 3);
    assert_eq!(order.steps[0].step_number, 1);
    assert_eq!(order.steps[1].step_number, 2);
    assert_eq!(order.steps[2].step_number, 3);
}

#[test]
fn test_add_step_with_notes() {
    let mut order = BuildOrder::new("Test Order");
    let item = create_test_item("e4", "e4");

    order.add_step_with_notes(item, "King's pawn opening");
    assert_eq!(order.steps.len(), 1);
    assert_eq!(order.steps[0].notes, "King's pawn opening");
}

#[test]
fn test_remove_step() {
    let mut order = BuildOrder::new("Test Order");
    order.add_step(create_test_item("e4", "e4"));
    order.add_step(create_test_item("e5", "e5"));
    order.add_step(create_test_item("nf3", "Nf3"));

    order.remove_step(1); // Remove middle step
    assert_eq!(order.steps.len(), 2);
    assert_eq!(order.steps[0].step_number, 1);
    assert_eq!(order.steps[1].step_number, 2);
    assert_eq!(order.steps[0].item.id, "e4");
    assert_eq!(order.steps[1].item.id, "nf3");
}

#[test]
fn test_remove_step_out_of_bounds() {
    let mut order = BuildOrder::new("Test Order");
    order.add_step(create_test_item("e4", "e4"));

    order.remove_step(10); // Should not panic
    assert_eq!(order.steps.len(), 1);
}

#[test]
fn test_move_step() {
    let mut order = BuildOrder::new("Test Order");
    order.add_step(create_test_item("e4", "e4"));
    order.add_step(create_test_item("e5", "e5"));
    order.add_step(create_test_item("nf3", "Nf3"));

    order.move_step(0, 2); // Move first to last
    assert_eq!(order.steps.len(), 3);
    assert_eq!(order.steps[0].item.id, "e5");
    assert_eq!(order.steps[1].item.id, "nf3");
    assert_eq!(order.steps[2].item.id, "e4");

    // Check renumbering
    assert_eq!(order.steps[0].step_number, 1);
    assert_eq!(order.steps[1].step_number, 2);
    assert_eq!(order.steps[2].step_number, 3);
}

#[test]
fn test_move_step_same_position() {
    let mut order = BuildOrder::new("Test Order");
    order.add_step(create_test_item("e4", "e4"));
    order.add_step(create_test_item("e5", "e5"));

    order.move_step(0, 0); // Should not change anything
    assert_eq!(order.steps[0].item.id, "e4");
    assert_eq!(order.steps[1].item.id, "e5");
}

#[test]
fn test_clear() {
    let mut order = BuildOrder::new("Test Order");
    order.add_step(create_test_item("e4", "e4"));
    order.add_step(create_test_item("e5", "e5"));

    order.clear();
    assert!(order.steps.is_empty());
}

#[test]
fn test_total_time() {
    let mut order = BuildOrder::new("Test Order");
    order.add_step(create_test_item("e4", "e4")); // 1
    order.add_step(create_test_item("e5", "e5")); // 1
    order.add_step(create_test_item("nf3", "Nf3")); // 1

    assert_eq!(order.total_time(), 3);
}

#[test]
fn test_total_time_empty() {
    let order = BuildOrder::new("Test Order");
    assert_eq!(order.total_time(), 0);
}

#[test]
fn test_build_order_step_creation() {
    let item = create_test_item("e4", "e4");
    let step = BuildOrderStep::new(1, item);

    assert_eq!(step.step_number, 1);
    assert_eq!(step.item.id, "e4");
    assert!(step.notes.is_empty());
}

#[test]
fn test_build_order_step_with_notes() {
    let item = create_test_item("e4", "e4");
    let step = BuildOrderStep::new(1, item).with_notes("Opening move");

    assert_eq!(step.notes, "Opening move");
}

#[test]
fn numbering_stays_dense_over_mixed_operations() {
    let mut order = BuildOrder::new("Mixed");
    for id in ["a", "b", "c", "d", "e"] {
        order.add_step(create_test_item(id, id));
    }
    order.move_step(4, 0);
    order.remove_step(2);
    order.add_step_with_notes(create_test_item("f", "f"), "late");
    order.move_step(1, 3);
    order.remove_step(0);
    assert_eq!(ids(&order), vec!["c", "d", "a", "f"]);
    assert_eq!(numbers(&order), vec![1, 2, 3, 4]);
    order.clear();
    order.add_step(create_test_item("g", "g"));
    assert_eq!(numbers(&order), vec![1]);
}

#[test]
fn remove_at_length_changes_nothing() {
    let mut order = BuildOrder::new("Order");
    order.add_step(create_test_item("e4", "e4"));
    order.add_step_with_notes(create_test_item("e5", "e5"), "reply");
    order.remove_step(2);
    assert_eq!(ids(&order), vec!["e4", "e5"]);
    assert_eq!(numbers(&order), vec![1, 2]);
    assert_eq!(order.steps[1].notes, "reply");
}

#[test]
fn move_out_of_range_changes_nothing() {
    let mut order = BuildOrder::new("Order");
    order.add_step(create_test_item("e4", "e4"));
    order.add_step_with_notes(create_test_item("e5", "e5"), "reply");
    order.move_step(usize::MAX, 0);
    order.move_step(0, 2);
    order.move_step(2, 2);
    assert_eq!(ids(&order), vec!["e4", "e5"]);
    assert_eq!(numbers(&order), vec![1, 2]);
    assert_eq!(order.steps[0].notes, "");
    assert_eq!(order.steps[1].notes, "reply");
}

#[test]
fn remove_on_empty_order_changes_nothing() {
    let mut order = BuildOrder::new("Empty");
    order.remove_step(0);
    order.move_step(0, 0);
    assert!(order.steps.is_empty());
    assert_eq!(order.total_time(), 0);
}

#[test]
fn total_time_sums_item_costs() {
    let mut order = BuildOrder::new("Costs");
    order.add_step(item_with_cost("a", 2));
    assert_eq!(order.total_time(), 2);
    order.add_step(item_with_cost("b", 5));
    assert_eq!(order.total_time(), 7);
    order.add_step_with_notes(item_with_cost("c", 11), "n");
    assert_eq!(order.total_time(), 18);
    order.remove_step(1);
    assert_eq!(order.total_time(), 13);
    order.move_step(0, 1);
    assert_eq!(order.total_time(), 13);
    order.clear();
    assert_eq!(order.total_time(), 0);
}

#[test]
fn total_time_does_not_overflow_u64() {
    let mut order = BuildOrder::new("Large");
    order.add_step(item_with_cost("a", u64::MAX));
    order.add_step(item_with_cost("b", u64::MAX));
    assert_eq!(order.total_time(), 2 * (u64::MAX as u128));
}

#[test]
fn move_keeps_items_and_notes() {
    let mut order = BuildOrder::new("Order");
    order.add_step_with_notes(create_test_item("a", "a"), "first");
    order.add_step_with_notes(create_test_item("b", "b"), "second");
    order.add_step_with_notes(create_test_item("c", "c"), "third");
    let before: Vec<Arc<GameItem>> = order.steps.iter().map(|s| s.item.clone()).collect();
    order.move_step(2, 0);
    assert_eq!(ids(&order), vec!["c", "a", "b"]);
    assert_eq!(numbers(&order), vec![1, 2, 3]);
    let notes: Vec<&str> = order.steps.iter().map(|s| s.notes.as_str()).collect();
    assert_eq!(notes, vec!["third", "first", "second"]);
    assert!(Arc::ptr_eq(&order.steps[0].item, &before[2]));
    assert!(Arc::ptr_eq(&order.steps[1].item, &before[0]));
    assert!(Arc::ptr_eq(&order.steps[2].item, &before[1]));
}

#[test]
fn same_item_can_appear_twice() {
    let shared = create_test_item("e4", "e4");
    let mut order = BuildOrder::new("Twice");
    order.add_step(shared.clone());
    order.add_step(create_test_item("e5", "e5"));
    order.add_step(shared.clone());
    assert!(Arc::ptr_eq(&order.steps[0].item, &order.steps[2].item));
    assert_eq!(order.total_time(), 3);
}
