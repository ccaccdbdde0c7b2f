use vstd::prelude::*;
use crate::decimal::decimal;
use crate::loading::{LoadStep, Loader};
use crate::messages::{
    append3, append5, blank_msg, doc_title, exists_msg, got_msg, hiding_msg, not_set_msg,
    removing_msg, setting_msg, showing_msg,
};
use crate::store::Store;

verus! {

/// The whole state of the editor, as mathematical values.
pub struct EditorModel {
    pub loader: Loader,
    pub store: Map<Seq<char>, Seq<char>>,
    pub docs: Seq<Seq<char>>,
    pub key: Seq<char>,
    pub value: Seq<char>,
    pub log: Seq<char>,
    pub pending: Option<Seq<char>>,
    pub show_main_window: bool,
    pub show_style_editor: bool,
    pub show_window_2: bool,
}

impl EditorModel {
    /// The store never maps a key to an empty value.
    pub open spec fn inv(self) -> bool {
        forall|k: Seq<char>| #[trigger] self.store.contains_key(k) ==> self.store[k].len() > 0
    }

    /// The state at start-up.
    pub open spec fn initial() -> EditorModel {
        EditorModel {
            loader: Loader { ready: false, progress_ms: 0 },
            store: Map::empty(),
            docs: Seq::empty(),
            key: "message"@,
            value: "This is a test value"@,
            log: Seq::empty(),
            pending: None,
            show_main_window: true,
            show_style_editor: false,
            show_window_2: false,
        }
    }

    /// The user types `k` into the key field.
    pub open spec fn with_key(self, k: Seq<char>) -> EditorModel {
        EditorModel { key: k, ..self }
    }

    /// The user types `v` into the value field.
    pub open spec fn with_value(self, v: Seq<char>) -> EditorModel {
        EditorModel { value: v, ..self }
    }

    /// The user types `k` into the key field and `v` into the value field.
    pub open spec fn with_input(self, k: Seq<char>, v: Seq<char>) -> EditorModel {
        EditorModel { key: k, value: v, ..self }
    }

    /// Set: store the value under the key, unless the value is empty.
    pub open spec fn set(self) -> EditorModel {
        if self.value.len() == 0 {
            EditorModel { log: self.log + blank_msg(self.key), ..self }
        } else {
            let note = if self.store.contains_key(self.key) {
                exists_msg(self.key)
            } else {
                Seq::empty()
            };
            EditorModel {
                store: self.store.insert(self.key, self.value),
                value: Seq::empty(),
                log: self.log + note + setting_msg(self.key, self.value),
                ..self
            }
        }
    }

    /// Get: copy the stored value into the value field.
    pub open spec fn get(self) -> EditorModel {
        if self.store.contains_key(self.key) {
            EditorModel {
                value: self.store[self.key],
                log: self.log + got_msg(self.key, self.store[self.key]),
                ..self
            }
        } else {
            EditorModel { log: self.log + not_set_msg(self.key), ..self }
        }
    }

    /// Delete: ask for confirmation when the key is stored. Any earlier
    /// request is dismissed.
    pub open spec fn request_delete(self) -> EditorModel {
        if self.key.len() == 0 {
            EditorModel { pending: None, ..self }
        } else if self.store.contains_key(self.key) {
            EditorModel { pending: Some(self.key), ..self }
        } else {
            EditorModel { pending: None, log: self.log + not_set_msg(self.key), ..self }
        }
    }

    /// Confirm the pending delete, if any.
    pub open spec fn confirm_delete(self) -> EditorModel {
        match self.pending {
            Some(k) => EditorModel {
                store: self.store.remove(k),
                log: self.log + removing_msg(k),
                pending: None,
                ..self
            },
            None => self,
        }
    }

    /// Dismiss the pending delete, if any.
    pub open spec fn cancel_delete(self) -> EditorModel {
        EditorModel { pending: None, ..self }
    }

    /// New: put a new document in front of the list.
    pub open spec fn new_document(self) -> EditorModel {
        EditorModel { docs: seq![doc_title(self.docs.len() + 1)] + self.docs, ..self }
    }

    /// Show or hide the style editor window.
    pub open spec fn toggle_style_editor(self) -> EditorModel {
        EditorModel { show_style_editor: !self.show_style_editor, ..self }
    }

    /// Show or hide the second window, and say which.
    pub open spec fn toggle_window_2(self) -> EditorModel {
        EditorModel {
            show_window_2: !self.show_window_2,
            log: self.log + if self.show_window_2 { hiding_msg() } else { showing_msg() },
            ..self
        }
    }

    /// A frame of the loading sequencer at `elapsed_ms`.
    pub open spec fn frame(self, elapsed_ms: u64) -> EditorModel {
        EditorModel { loader: self.loader.next(elapsed_ms), ..self }
    }
}

/// The editor: loading state, store, documents, input fields, log and
/// window flags.
pub struct State {
    loader: Loader,
    pairs: Store,
    docs: Vec<String>,
    /// The key input field.
    pub key: String,
    /// The value input field.
    pub value: String,
    output: String,
    pending: Option<String>,
    show_main_window: bool,
    show_style_editor: bool,
    show_window_2: bool,
}

impl View for State {
    type V = EditorModel;

    closed spec fn view(&self) -> EditorModel {
        EditorModel {
            loader: self.loader,
            store: self.pairs@,
            docs: self.docs@.map_values(|d: String| d@),
            key: self.key@,
            value: self.value@,
            log: self.output@,
            pending: match self.pending {
                Some(k) => Some(k@),
                None => None,
            },
            show_main_window: self.show_main_window,
            show_style_editor: self.show_style_editor,
            show_window_2: self.show_window_2,
        }
    }
}

impl Default for State {
    fn default() -> (r: State)
        ensures
            r.wf(),
            r@ == EditorModel::initial(),
    {
        let r = State {
            loader: Loader::new(),
            pairs: Store::new(),
            docs: Vec::new(),
            key: String::from_str("message"),
            value: String::from_str("This is a test value"),
            output: String::new(),
            pending: None,
            show_main_window: true,
            show_style_editor: false,
            show_window_2: false,
        };
        assert(r@.docs =~= Seq::<Seq<char>>::empty());
        assert(r@ == EditorModel::initial());
        r
    }
}

impl State {
    /// The store is well formed and the model invariant holds.
    pub closed spec fn wf(&self) -> bool {
        self.pairs.wf() && self@.inv()
    }

    /// Runs one frame of the loading sequencer at `elapsed_ms` since start.
    pub fn frame(&mut self, elapsed_ms: u64) -> (r: LoadStep)
        requires
            old(self).wf(),
        ensures
            final(self).wf(),
            final(self)@ == old(self)@.frame(elapsed_ms),
            r == old(self)@.loader.step_of(elapsed_ms),
    {
        self.loader.frame(elapsed_ms)
    }

    /// Replaces the text of the key field.
    pub fn enter_key(&mut self, k: String)
        requires
            old(self).wf(),
        ensures
            final(self).wf(),
            final(self)@ == old(self)@.with_key(k@),
    {
        self.key = k;
        assert(self@ =~= old(self)@.with_key(k@));
    }

    /// Replaces the text of the value field.
    pub fn enter_value(&mut self, v: String)
        requires
            old(self).wf(),
        ensures
            final(self).wf(),
            final(self)@ == old(self)@.with_value(v@),
    {
        self.value = v;
        assert(self@ =~= old(self)@.with_value(v@));
    }

    /// The Set action on the current key and value fields.
    pub fn set(&mut self)
        requires
            old(self).wf(),
        ensures
            final(self).wf(),
            final(self)@ == old(self)@.set(),
    {
        if self.value.as_str().is_empty() {
            append3(
                &mut self.output,
                "Value for `",
                self.key.as_str(),
                "` is blank, not setting.\nUse the [Del] button to remove a key.\n",
            );
        } else {
            if self.pairs.contains_key(&self.key) {
                append3(&mut self.output, "Key ", self.key.as_str(), " exists, removing old value.\n");
            }
            append5(
                &mut self.output,
                "Setting key `",
                self.key.as_str(),
                "` = `",
                self.value.as_str(),
                "`\n",
            );
            let v = self.value.clone();
            self.pairs.insert(self.key.clone(), v);
            self.value = String::new();
        }
        assert(self@ =~= old(self)@.set());
    }

    /// The Get action on the current key field.
    pub fn get(&mut self)
        requires
            old(self).wf(),
        ensures
            final(self).wf(),
            final(self)@ == old(self)@.get(),
    {
        match self.pairs.get(&self.key) {
            Some(v) => {
                self.value = v.clone();
                append5(
                    &mut self.output,
                    "Got `",
                    self.key.as_str(),
                    "`s value: `",
                    self.value.as_str(),
                    "`\n",
                );
            },
            None => {
                append3(&mut self.output, "Key `", self.key.as_str(), "` is not set!\n");
            },
        }
        assert(self@ =~= old(self)@.get());
    }

    /// The Delete action on the current key field; tells whether a
    /// confirmation is now pending.
    pub fn request_delete(&mut self) -> (r: bool)
        requires
            old(self).wf(),
        ensures
            final(self).wf(),
            final(self)@ == old(self)@.request_delete(),
            r == (final(self)@.pending is Some),
    {
        self.pending = None;
        if self.key.as_str().is_empty() {
            assert(self@ =~= old(self)@.request_delete());
            false
        } else if self.pairs.contains_key(&self.key) {
            self.pending = Some(self.key.clone());
            assert(self@ =~= old(self)@.request_delete());
            true
        } else {
            append3(&mut self.output, "Key `", self.key.as_str(), "` is not set!\n");
            assert(self@ =~= old(self)@.request_delete());
            false
        }
    }

    /// Confirms the pending delete, if any.
    pub fn confirm_delete(&mut self)
        requires
            old(self).wf(),
        ensures
            final(self).wf(),
            final(self)@ == old(self)@.confirm_delete(),
    {
        let pending = self.pending.take();
        match pending {
            Some(k) => {
                append3(&mut self.output, "Removing key `", k.as_str(), "`!\n");
                self.pairs.remove(&k);
                assert(self@ =~= old(self)@.confirm_delete());
            },
            None => {
                assert(self@ =~= old(self)@.confirm_delete());
            },
        }
    }

    /// Dismisses the pending delete, if any.
    pub fn cancel_delete(&mut self)
        requires
            old(self).wf(),
        ensures
            final(self).wf(),
            final(self)@ == old(self)@.cancel_delete(),
    {
        self.pending = None;
        assert(self@ =~= old(self)@.cancel_delete());
    }

    /// The New action: a document titled after the new count goes in front.
    pub fn new_document(&mut self)
        requires
            old(self).wf(),
            old(self)@.docs.len() < usize::MAX,
        ensures
            final(self).wf(),
            final(self)@ == old(self)@.new_document(),
    {
        let ghost before = self.docs@;
        assert(before.map_values(|d: String| d@).len() == before.len());
        let n = self.docs.len() + 1;
        let mut title = String::from_str("New Document ");
        let digits = decimal(n);
        title.append(digits.as_str());
        self.docs.insert(0, title);
        assert(self.docs@.map_values(|d: String| d@) =~= seq![doc_title(n as nat)]
            + before.map_values(|d: String| d@));
        assert(self@ =~= old(self)@.new_document());
    }

    /// Shows or hides the style editor window.
    pub fn toggle_style_editor(&mut self)
        requires
            old(self).wf(),
        ensures
            final(self).wf(),
            final(self)@ == old(self)@.toggle_style_editor(),
    {
        self.show_style_editor = !self.show_style_editor;
        assert(self@ =~= old(self)@.toggle_style_editor());
    }

    /// Shows or hides the second window, and logs which.
    pub fn toggle_window_2(&mut self)
        requires
            old(self).wf(),
        ensures
            final(self).wf(),
            final(self)@ == old(self)@.toggle_window_2(),
    {
        self.show_window_2 = !self.show_window_2;
        if self.show_window_2 {
            self.output.append("Showing window!\n");
        } else {
            self.output.append("Hiding window!\n");
        }
        assert(self@ =~= old(self)@.toggle_window_2());
    }

    /// Whether loading is over.
    pub fn is_ready(&self) -> (r: bool)
        ensures
            r == self@.loader.ready,
    {
        self.loader.ready
    }

    /// Loading progress in milliseconds, out of `LOAD_MS`.
    pub fn progress_ms(&self) -> (r: u64)
        ensures
            r == self@.loader.progress_ms,
    {
        self.loader.progress_ms
    }

    /// The value stored under `key`, if any.
    pub fn lookup(&self, key: &String) -> (r: Option<&String>)
        requires
            self.wf(),
        ensures
            match r {
                Some(v) => self@.store.contains_key(key@) && v@ == self@.store[key@],
                None => !self@.store.contains_key(key@),
            },
    {
        self.pairs.get(key)
    }

    /// The document titles, newest first.
    pub fn docs(&self) -> (r: &Vec<String>)
        ensures
            r@.map_values(|d: String| d@) == self@.docs,
    {
        &self.docs
    }

    /// The log.
    pub fn output(&self) -> (r: &String)
        ensures
            r@ == self@.log,
    {
        &self.output
    }

    /// The key whose deletion awaits confirmation, if any.
    pub fn pending_delete(&self) -> (r: Option<&String>)
        ensures
            match r {
                Some(k) => self@.pending == Some(k@),
                None => self@.pending is None,
            },
    {
        match &self.pending {
            Some(k) => Some(k),
            None => None,
        }
    }

    /// Whether the main window is shown.
    pub fn show_main_window(&self) -> (r: bool)
        ensures
            r == self@.show_main_window,
    {
        self.show_main_window
    }

    /// Whether the style editor window is shown.
    pub fn show_style_editor(&self) -> (r: bool)
        ensures
            r == self@.show_style_editor,
    {
        self.show_style_editor
    }

    /// Whether the second window is shown.
    pub fn show_window_2(&self) -> (r: bool)
        ensures
            r == self@.show_window_2,
    {
        self.show_window_2
    }
}

} // verus!
