use velo::arrows::{arrows_to_redraw, ArrowConnect, ArrowConnectPos, ArrowMeta};

fn arrow(a: u32, b: u32) -> ArrowMeta {
    ArrowMeta {
        start: ArrowConnect { id: a, pos: ArrowConnectPos::Right },
        end: ArrowConnect { id: b, pos: ArrowConnectPos::Left },
    }
}

#[test]
fn one_arrow_per_moved_node() {
    let arrows = vec![arrow(1, 2), arrow(2, 3), arrow(3, 1)];
    assert_eq!(arrows_to_redraw(&vec![2], &arrows), vec![0]);
    assert_eq!(arrows_to_redraw(&vec![3], &arrows), vec![1]);
}

#[test]
fn repeated_ids_count_once() {
    let arrows = vec![arrow(1, 2), arrow(2, 3)];
    assert_eq!(arrows_to_redraw(&vec![2, 2, 2], &arrows), vec![0]);
}

#[test]
fn several_nodes_in_order_of_first_mention() {
    let arrows = vec![arrow(1, 2), arrow(4, 3)];
    assert_eq!(arrows_to_redraw(&vec![3, 9, 1, 3], &arrows), vec![1, 0]);
}

#[test]
fn an_arrow_may_be_picked_for_both_ends() {
    let arrows = vec![arrow(1, 2)];
    assert_eq!(arrows_to_redraw(&vec![1, 2], &arrows), vec![0, 0]);
}

#[test]
fn nothing_to_redraw() {
    assert_eq!(arrows_to_redraw(&vec![], &vec![arrow(1, 2)]), Vec::<usize>::new());
    assert_eq!(arrows_to_redraw(&vec![5], &vec![]), Vec::<usize>::new());
}
