use std::collections::HashMap;
use velo::documents::{
    last_saved_after_removal, ConfirmOutcome, Doc, DocumentRemoval, DocumentState, ModalEntity,
    Tab,
};

fn tab(id: u128, active: bool) -> Tab {
    Tab { id, name: format!("tab {}", id), is_active: active }
}

fn state(docs: Vec<(u128, Vec<Tab>)>, current: u128) -> DocumentState {
    let mut map = HashMap::new();
    for (id, tabs) in docs {
        map.insert(id, Doc { name: format!("doc {}", id), tabs });
    }
    DocumentState { docs: map, current_document: Some(current), modal_id: Some(99) }
}

fn tab_flags(s: &DocumentState, doc: u128) -> Vec<(u128, bool)> {
    s.docs[&doc].tabs.iter().map(|t| (t.id, t.is_active)).collect()
}

#[test]
fn closing_the_active_tab_activates_the_last() {
    let mut s = state(vec![(1, vec![tab(10, false), tab(11, true), tab(12, false)])], 1);
    assert!(s.close_active_tab());
    assert_eq!(tab_flags(&s, 1), vec![(10, false), (12, true)]);
    assert_eq!(s.docs[&1].name, "doc 1");
}

#[test]
fn closing_the_last_listed_active_tab() {
    let mut s = state(vec![(1, vec![tab(10, false), tab(11, false), tab(12, true)])], 1);
    assert!(s.close_active_tab());
    assert_eq!(tab_flags(&s, 1), vec![(10, false), (11, true)]);
}

#[test]
fn only_the_first_active_tab_is_closed() {
    let mut s = state(vec![(1, vec![tab(10, true), tab(11, true), tab(12, false)])], 1);
    assert!(s.close_active_tab());
    assert_eq!(tab_flags(&s, 1), vec![(11, true), (12, true)]);
}

#[test]
fn a_single_tab_is_kept() {
    let mut s = state(vec![(1, vec![tab(10, true)])], 1);
    assert!(!s.close_active_tab());
    assert_eq!(tab_flags(&s, 1), vec![(10, true)]);
}

#[test]
fn deleting_a_document_moves_to_the_first_other_listed() {
    let mut s = state(vec![(1, vec![tab(10, true)]), (2, vec![]), (3, vec![])], 1);
    let r = s.delete_current_document(&vec![1, 3, 2]);
    assert_eq!(r, Some(DocumentRemoval { removed: 1, current: 3 }));
    assert_eq!(s.current_document, Some(3));
    assert_eq!(s.docs.len(), 2);
    assert!(!s.docs.contains_key(&1));
}

#[test]
fn deleting_with_no_other_listed_keeps_the_id() {
    let mut s = state(vec![(1, vec![]), (2, vec![])], 1);
    let r = s.delete_current_document(&vec![1]);
    assert_eq!(r, Some(DocumentRemoval { removed: 1, current: 1 }));
    assert_eq!(s.current_document, Some(1));
    assert_eq!(s.docs.len(), 1);
}

#[test]
fn the_only_document_is_not_deleted() {
    let mut s = state(vec![(1, vec![])], 1);
    assert_eq!(s.delete_current_document(&vec![1, 2]), None);
    assert_eq!(s.docs.len(), 1);
    assert_eq!(s.current_document, Some(1));
}

#[test]
fn confirming_a_tab_deletion_closes_the_dialog() {
    let mut s = state(vec![(1, vec![tab(10, true), tab(11, false)])], 1);
    let r = s.confirm_deletion(ModalEntity::Tab, &vec![]);
    assert_eq!(r, ConfirmOutcome { reload: true, removed: None });
    assert_eq!(s.modal_id, None);
    assert_eq!(tab_flags(&s, 1), vec![(11, true)]);
}

#[test]
fn confirming_a_document_deletion() {
    let mut s = state(vec![(1, vec![]), (2, vec![])], 2);
    let r = s.confirm_deletion(ModalEntity::Document, &vec![2, 1]);
    assert_eq!(
        r,
        ConfirmOutcome { reload: true, removed: Some(DocumentRemoval { removed: 2, current: 1 }) }
    );
    assert_eq!(s.modal_id, None);
    assert_eq!(s.current_document, Some(1));
}

#[test]
fn confirming_with_nothing_to_delete_only_closes() {
    let mut s = state(vec![(1, vec![tab(10, true)])], 1);
    let r = s.confirm_deletion(ModalEntity::Document, &vec![1]);
    assert_eq!(r, ConfirmOutcome { reload: false, removed: None });
    let r = s.confirm_deletion(ModalEntity::Tab, &vec![1]);
    assert_eq!(r, ConfirmOutcome { reload: false, removed: None });
    assert_eq!(s.modal_id, None);
    assert_eq!(s.docs.len(), 1);
}

#[test]
fn last_saved_follows_the_deleted_document() {
    assert_eq!(last_saved_after_removal(5, 5, 8), Some(8));
    assert_eq!(last_saved_after_removal(4, 5, 8), None);
}
