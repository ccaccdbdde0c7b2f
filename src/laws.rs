use vstd::prelude::*;
use crate::editor::EditorModel;
use crate::messages::{doc_title, got_msg, not_set_msg};

verus! {

/// Setting a key to a non-empty value and then getting that key yields the
/// value, in the value field and in the log.
pub proof fn set_then_get_yields_value(m: EditorModel, k: Seq<char>, v: Seq<char>)
    requires
        v.len() > 0,
    ensures
        m.with_input(k, v).set().store[k] == v,
        m.with_input(k, v).set().get().value == v,
        m.with_input(k, v).set().get().log == m.with_input(k, v).set().log + got_msg(k, v),
{
}

/// Setting a key to the empty value leaves the store, and so any earlier
/// value of the key, unchanged.
pub proof fn set_empty_keeps_store(m: EditorModel, k: Seq<char>)
    ensures
        m.with_input(k, Seq::empty()).set().store == m.store,
        m.store.contains_key(k) ==> m.with_input(k, Seq::empty()).set().store[k] == m.store[k],
{
}

/// Asking to delete a key changes nothing in the store, and neither does
/// dismissing the request.
pub proof fn delete_request_keeps_store(m: EditorModel, k: Seq<char>)
    ensures
        m.with_key(k).request_delete().store == m.store,
        m.with_key(k).request_delete().cancel_delete().store == m.store,
{
}

/// Asking to delete a non-empty key and confirming removes that key and no
/// other; a get of it then reports that it is not set.
pub proof fn confirmed_delete_removes_key(m: EditorModel, k: Seq<char>)
    requires
        k.len() > 0,
    ensures
        m.with_key(k).request_delete().confirm_delete().store == m.store.remove(k),
        !m.with_key(k).request_delete().confirm_delete().store.contains_key(k),
        m.with_key(k).request_delete().confirm_delete().get().log
            == m.with_key(k).request_delete().confirm_delete().log + not_set_msg(k),
{
    if !m.store.contains_key(k) {
        assert(m.store.remove(k) =~= m.store);
    }
}

/// A new document grows the list by one and stands at its front, titled
/// after the new length; the older documents follow in their order.
pub proof fn new_document_goes_first(m: EditorModel)
    ensures
        m.new_document().docs.len() == m.docs.len() + 1,
        m.new_document().docs[0] == doc_title(m.docs.len() + 1),
        m.new_document().docs.drop_first() == m.docs,
{
    assert(m.new_document().docs.drop_first() =~= m.docs);
}

/// No action stores an empty value.
pub proof fn actions_keep_values_nonempty(m: EditorModel, elapsed_ms: u64)
    requires
        m.inv(),
    ensures
        m.set().inv(),
        m.get().inv(),
        m.request_delete().inv(),
        m.confirm_delete().inv(),
        m.cancel_delete().inv(),
        m.new_document().inv(),
        m.toggle_style_editor().inv(),
        m.toggle_window_2().inv(),
        m.frame(elapsed_ms).inv(),
{
}

} // verus!
