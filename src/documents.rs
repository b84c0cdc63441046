use std::collections::HashMap;
use vstd::prelude::*;

verus! {

broadcast use vstd::std_specs::hash::group_hash_axioms;

/// One tab of a document.
#[derive(Clone, Debug)]
pub struct Tab {
    pub id: u128,
    pub name: String,
    pub is_active: bool,
}

/// A document: a name and its tabs, of which one is normally active.
#[derive(Clone, Debug)]
pub struct Doc {
    pub name: String,
    pub tabs: Vec<Tab>,
}

/// What a confirmation dialog asks to delete.
#[derive(Clone, Copy, Debug, PartialEq, Eq, Structural)]
pub enum ModalEntity {
    Tab,
    Document,
}

/// The documents that are open, keyed by id, the one on screen, and the
/// confirmation dialog that is shown, if any.
pub struct DocumentState {
    pub docs: HashMap<u128, Doc>,
    pub current_document: Option<u128>,
    pub modal_id: Option<u128>,
}

/// A deleted document and the document that became current in its place.
#[derive(Clone, Copy, Debug, PartialEq, Eq, Structural)]
pub struct DocumentRemoval {
    pub removed: u128,
    pub current: u128,
}

/// What a confirmed deletion asks of the caller.
#[derive(Clone, Copy, Debug, PartialEq, Eq, Structural)]
pub struct ConfirmOutcome {
    /// The current document must be loaded again.
    pub reload: bool,
    /// The document that was deleted, if any.
    pub removed: Option<DocumentRemoval>,
}

/// Whether `i` is the index of the first active tab of `tabs`.
pub open spec fn is_first_active(tabs: Seq<Tab>, i: int) -> bool {
    &&& 0 <= i < tabs.len()
    &&& tabs[i].is_active
    &&& forall|j: int| 0 <= j < i ==> !(#[trigger] tabs[j]).is_active
}

/// Whether some tab of `tabs` is active.
pub open spec fn has_active(tabs: Seq<Tab>) -> bool {
    exists|i: int| 0 <= i < tabs.len() && (#[trigger] tabs[i]).is_active
}

/// The index of the first active tab of `tabs`.
pub open spec fn first_active(tabs: Seq<Tab>) -> int {
    choose|i: int| is_first_active(tabs, i)
}

/// The tabs left once the first active tab is closed: the last of the rest
/// becomes active.
pub open spec fn tabs_after_close(tabs: Seq<Tab>) -> Seq<Tab> {
    let rest = tabs.remove(first_active(tabs));
    rest.update(rest.len() - 1, Tab { is_active: true, ..rest.last() })
}

/// The first id of `listed` that differs from `id`.
pub open spec fn first_other(listed: Seq<u128>, id: u128) -> Option<u128>
    decreases listed.len(),
{
    if listed.len() == 0 {
        None
    } else if listed[0] != id {
        Some(listed[0])
    } else {
        first_other(listed.drop_first(), id)
    }
}

proof fn lemma_first_other_skip(listed: Seq<u128>, id: u128, i: int)
    requires
        0 <= i < listed.len(),
        listed[i] == id,
    ensures
        first_other(listed.subrange(i, listed.len() as int), id) == first_other(
            listed.subrange(i + 1, listed.len() as int),
            id,
        ),
{
    let s = listed.subrange(i, listed.len() as int);
    assert(s.drop_first() =~= listed.subrange(i + 1, listed.len() as int));
}

proof fn lemma_first_active_unique(tabs: Seq<Tab>, i: int)
    requires
        is_first_active(tabs, i),
    ensures
        first_active(tabs) == i,
{
    let k = first_active(tabs);
    assert(is_first_active(tabs, k));
    if k < i {
        assert(!tabs[k].is_active);
    } else if i < k {
        assert(!tabs[i].is_active);
    }
}

impl DocumentState {
    /// Closes the active tab of the current document, provided the document
    /// keeps at least one tab; the last remaining tab becomes active.
    /// Returns whether a tab was closed (the document must then be reloaded).
    pub fn close_active_tab(&mut self) -> (r: bool)
        requires
            old(self).current_document.is_some(),
            old(self).docs@.contains_key(old(self).current_document.unwrap()),
            old(self).docs@[old(self).current_document.unwrap()].tabs@.len() > 1 ==> has_active(
                old(self).docs@[old(self).current_document.unwrap()].tabs@,
            ),
        ensures
            ({
                let cur = old(self).current_document.unwrap();
                let doc = old(self).docs@[cur];
                &&& r == (doc.tabs@.len() > 1)
                &&& final(self).current_document == old(self).current_document
                &&& final(self).modal_id == old(self).modal_id
                &&& final(self).docs@.dom() == old(self).docs@.dom()
                &&& final(self).docs@.remove(cur) == old(self).docs@.remove(cur)
                &&& final(self).docs@[cur].name == doc.name
                &&& final(self).docs@[cur].tabs@ == if r {
                    tabs_after_close(doc.tabs@)
                } else {
                    doc.tabs@
                }
            }),
    {
        let cur = self.current_document.unwrap();
        let ghost old_docs = self.docs@;
        let ghost tabs0 = old_docs[cur].tabs@;
        let mut doc = self.docs.remove(&cur).unwrap();
        if doc.tabs.len() <= 1 {
            self.docs.insert(cur, doc);
            assert(self.docs@ =~= old_docs);
            return false;
        }
        let mut i: usize = 0;
        while !doc.tabs[i].is_active
            invariant
                doc.tabs@ == tabs0,
                doc.tabs.len() == tabs0.len(),
                has_active(tabs0),
                0 <= i < tabs0.len(),
                forall|j: int| 0 <= j < i ==> !(#[trigger] tabs0[j]).is_active,
            decreases tabs0.len() - i,
        {
            proof {
                if i + 1 >= tabs0.len() {
                    let w = choose|w: int| 0 <= w < tabs0.len() && (#[trigger] tabs0[w]).is_active;
                    assert(w <= i);
                }
            }
            i = i + 1;
        }
        proof {
            lemma_first_active_unique(tabs0, i as int);
        }
        doc.tabs.remove(i);
        let mut last = doc.tabs.pop().unwrap();
        last.is_active = true;
        doc.tabs.push(last);
        proof {
            assert(doc.tabs@ =~= tabs_after_close(tabs0));
        }
        self.docs.insert(cur, doc);
        proof {
            assert(self.docs@.remove(cur) =~= old_docs.remove(cur));
            assert(self.docs@.dom() =~= old_docs.dom());
        }
        true
    }

    /// Deletes the current document, provided another one is open; the first
    /// of `listed` (the document list in display order) that is not the
    /// deleted one becomes current, and if there is none the current id is
    /// left as it was. Returns the deleted id and the id now current.
    pub fn delete_current_document(&mut self, listed: &Vec<u128>) -> (r: Option<DocumentRemoval>)
        requires
            old(self).current_document.is_some(),
        ensures
            ({
                let cur = old(self).current_document.unwrap();
                let next = match first_other(listed@, cur) {
                    Some(n) => n,
                    None => cur,
                };
                &&& final(self).modal_id == old(self).modal_id
                &&& r.is_some() == (old(self).docs@.len() > 1)
                &&& r.is_some() ==> {
                    &&& r == Some(DocumentRemoval { removed: cur, current: next })
                    &&& final(self).docs@ == old(self).docs@.remove(cur)
                    &&& final(self).current_document == Some(next)
                }
                &&& r.is_none() ==> {
                    &&& final(self).docs@ == old(self).docs@
                    &&& final(self).current_document == old(self).current_document
                }
            }),
    {
        let cur = self.current_document.unwrap();
        if self.docs.len() <= 1 {
            return None;
        }
        self.docs.remove(&cur);
        assert(listed@.subrange(0, listed@.len() as int) =~= listed@);
        let mut i: usize = 0;
        while i < listed.len()
            invariant
                0 <= i <= listed@.len(),
                self.current_document == Some(cur),
                self.docs@ == old(self).docs@.remove(cur),
                self.modal_id == old(self).modal_id,
                old(self).docs@.len() > 1,
                cur == old(self).current_document.unwrap(),
                first_other(listed@, cur) == first_other(
                    listed@.subrange(i as int, listed@.len() as int),
                    cur,
                ),
            decreases listed@.len() - i,
        {
            if listed[i] != cur {
                assert(listed@.subrange(i as int, listed@.len() as int)[0] == listed@[i as int]);
                self.current_document = Some(listed[i]);
                return Some(DocumentRemoval { removed: cur, current: listed[i] });
            }
            proof {
                lemma_first_other_skip(listed@, cur, i as int);
            }
            i = i + 1;
        }
        Some(DocumentRemoval { removed: cur, current: cur })
    }

    /// Carries out a confirmed deletion of a tab or of the current document,
    /// then closes the dialog.
    pub fn confirm_deletion(&mut self, delete: ModalEntity, listed: &Vec<u128>) -> (r:
        ConfirmOutcome)
        requires
            old(self).current_document.is_some(),
            delete == ModalEntity::Tab ==> {
                let cur = old(self).current_document.unwrap();
                &&& old(self).docs@.contains_key(cur)
                &&& old(self).docs@[cur].tabs@.len() > 1 ==> has_active(
                    old(self).docs@[cur].tabs@,
                )
            },
        ensures
            ({
                let cur = old(self).current_document.unwrap();
                let next = match first_other(listed@, cur) {
                    Some(n) => n,
                    None => cur,
                };
                &&& final(self).modal_id.is_none()
                &&& delete == ModalEntity::Tab ==> {
                    let doc = old(self).docs@[cur];
                    &&& r == (ConfirmOutcome { reload: doc.tabs@.len() > 1, removed: None })
                    &&& final(self).current_document == old(self).current_document
                    &&& final(self).docs@.dom() == old(self).docs@.dom()
                    &&& final(self).docs@.remove(cur) == old(self).docs@.remove(cur)
                    &&& final(self).docs@[cur].name == doc.name
                    &&& final(self).docs@[cur].tabs@ == if r.reload {
                        tabs_after_close(doc.tabs@)
                    } else {
                        doc.tabs@
                    }
                }
                &&& delete == ModalEntity::Document ==> if old(self).docs@.len() > 1 {
                    &&& r == (ConfirmOutcome { reload: true, removed: Some(DocumentRemoval { removed: cur, current: next }) })
                    &&& final(self).docs@ == old(self).docs@.remove(cur)
                    &&& final(self).current_document == Some(next)
                } else {
                    &&& r == (ConfirmOutcome { reload: false, removed: None })
                    &&& final(self).docs@ == old(self).docs@
                    &&& final(self).current_document == old(self).current_document
                }
            }),
    {
        let mut outcome = ConfirmOutcome { reload: false, removed: None };
        match delete {
            ModalEntity::Tab => {
                outcome.reload = self.close_active_tab();
            },
            ModalEntity::Document => {
                let removed = self.delete_current_document(listed);
                if removed.is_some() {
                    outcome = ConfirmOutcome { reload: true, removed };
                }
            },
        }
        self.modal_id = None;
        outcome
    }
}

/// The id to store as the last saved document once `removed` is deleted and
/// `new_id` is current: `new_id` if the last saved one was deleted, otherwise
/// nothing changes.
pub fn last_saved_after_removal(last_saved: u128, removed: u128, new_id: u128) -> (r: Option<
    u128,
>)
    ensures
        r == if last_saved == removed {
            Some(new_id)
        } else {
            None
        },
{
    if last_saved == removed {
        Some(new_id)
    } else {
        None
    }
}

} // verus!
