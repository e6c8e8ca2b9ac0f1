//! The controller: the reducer that owns the history stack, the ownership
//! flag and the current configuration, and decides how each event changes
//! them.
//!
//! The event loop does the platform work around every decision. For any
//! operation that mutates the clipboard it first disables the clipboard
//! change notifications and acquires exclusive access (under the backoff
//! discipline); only after a successful acquisition does it call a method
//! here, perform the write the method asks for, release the clipboard and
//! re-enable notifications. A failed acquisition therefore aborts the
//! operation before the history is touched at all, and leaves the
//! ownership flag unchanged — a deliberate choice: nothing was mutated, so
//! nothing the controller believed has become false.

use vstd::prelude::*;
use crate::clipboard::ClipboardText;
use crate::config::Config;
use crate::stack::{push_model, swap_model, HistoryStack};

verus! {

/// The controller's whole state, as specifications see it.
pub struct ControllerView {
    /// The snapshots held, oldest first.
    pub history: Seq<Seq<u8>>,
    /// Whether the current clipboard content is known to the controller
    /// and therefore safe to manipulate with pop and swap.
    pub managing: bool,
    /// The settings currently in force.
    pub config: Config,
}

/// The clipboard-history controller. It never touches the platform
/// clipboard itself: each method returns what the event loop must write.
#[derive(Debug)]
pub struct Controller {
    stack: HistoryStack,
    managing: bool,
    config: Config,
}

impl View for Controller {
    type V = ControllerView;

    closed spec fn view(&self) -> ControllerView {
        ControllerView { history: self.stack@, managing: self.managing, config: self.config }
    }
}

impl Controller {
    /// A fresh controller: empty history, not yet managing the clipboard
    /// (its current content was not observed by us).
    pub fn new(config: Config) -> (r: Self)
        ensures
            r@.history == Seq::<Seq<u8>>::empty(),
            r@.managing == false,
            r@.config == config,
    {
        Controller { stack: HistoryStack::new(), managing: false, config }
    }

    /// The history, for inspection.
    pub fn history(&self) -> (r: &HistoryStack)
        ensures
            r@ == self@.history,
    {
        &self.stack
    }

    /// Whether the controller currently manages the clipboard content.
    pub fn is_managing(&self) -> (r: bool)
        ensures
            r == self@.managing,
    {
        self.managing
    }

    /// The settings currently in force.
    pub fn current_config(&self) -> (c: Config)
        ensures
            c == self@.config,
    {
        self.config
    }

    /// An external clipboard change delivered text, and the event loop has
    /// already re-claimed the clipboard (read the text, emptied, wrote the
    /// same text back) so that later pop and swap operations are possible.
    /// The snapshot is pushed unless duplicate suppression is on and it
    /// equals the most recent entry; either way the controller now manages
    /// the clipboard.
    pub fn on_text_changed(&mut self, text: ClipboardText)
        ensures
            final(self)@.managing == true,
            final(self)@.config == old(self)@.config,
            final(self)@.history == (if old(self)@.config.prevent_duplicate_push && old(
                self,
            )@.history.len() > 0 && old(self)@.history.last() == text@ {
                old(self)@.history
            } else {
                push_model(old(self)@.history, old(self)@.config.max_stack_size, text@)
            }),
    {
        let duplicate = self.config.prevent_duplicate_push && (match self.stack.peek_tail() {
            Some(tail) => *tail == text,
            None => false,
        });
        if !duplicate {
            self.stack.push(self.config.max_stack_size, text);
        }
        self.managing = true;
    }

    /// An external clipboard change delivered content that is not text.
    /// The controller can neither snapshot nor restore it, so it stops
    /// managing the clipboard until the next text-bearing change; the
    /// history is untouched.
    pub fn on_non_text_changed(&mut self)
        ensures
            final(self)@.managing == false,
            final(self)@.history == old(self)@.history,
            final(self)@.config == old(self)@.config,
    {
        self.managing = false;
    }

    /// The pop command, called once the clipboard is held. When the
    /// controller manages the clipboard the most recent entry (the one
    /// mirrored by the clipboard) is discarded; the returned snapshot — the
    /// entry now most recent, if any — is what the event loop must write
    /// to the emptied clipboard. The controller manages the clipboard
    /// afterwards in every case.
    pub fn pop(&mut self) -> (w: Option<ClipboardText>)
        ensures
            final(self)@.managing == true,
            final(self)@.config == old(self)@.config,
            final(self)@.history == (if old(self)@.managing && old(self)@.history.len() > 0 {
                old(self)@.history.drop_last()
            } else {
                old(self)@.history
            }),
            match w {
                Some(t) => final(self)@.history.len() > 0 && t@ == final(self)@.history.last(),
                None => final(self)@.history.len() == 0,
            },
    {
        if self.managing {
            let _popped = self.stack.pop_tail();
        }
        self.managing = true;
        match self.stack.peek_tail() {
            Some(t) => Some(t.clone()),
            None => None,
        }
    }

    /// The clear command, called once the clipboard is held: the history
    /// is emptied, the event loop leaves the clipboard empty, and the
    /// controller manages the (empty) clipboard afterwards.
    pub fn clear(&mut self)
        ensures
            final(self)@.managing == true,
            final(self)@.config == old(self)@.config,
            final(self)@.history == Seq::<Seq<u8>>::empty(),
    {
        self.stack.clear();
        self.managing = true;
    }

    /// Whether a swap command would act right now, so the event loop knows
    /// whether acquiring the clipboard is worth it.
    pub fn can_swap(&self) -> (r: bool)
        ensures
            r == (self@.managing && self@.history.len() >= 2),
    {
        self.managing && self.stack.len() >= 2
    }

    /// The swap command, called once the clipboard is held. It declines —
    /// leaving everything unchanged and asking for no write — when the
    /// clipboard is not under management (its content could not be
    /// restored) or the history holds fewer than two entries. Otherwise
    /// the two most recent entries are exchanged and the snapshot that is
    /// now most recent is returned to be written.
    pub fn swap(&mut self) -> (w: Option<ClipboardText>)
        ensures
            final(self)@.managing == old(self)@.managing,
            final(self)@.config == old(self)@.config,
            !(old(self)@.managing && old(self)@.history.len() >= 2) ==> w is None
                && final(self)@.history == old(self)@.history,
            old(self)@.managing && old(self)@.history.len() >= 2 ==> (w matches Some(t)
                && final(self)@.history == swap_model(old(self)@.history)
                && t@ == final(self)@.history.last()),
    {
        if !self.managing {
            return None;
        }
        if self.stack.len() < 2 {
            return None;
        }
        self.stack.swap_top_two();
        match self.stack.peek_tail() {
            Some(t) => Some(t.clone()),
            None => None,
        }
    }

    /// A configuration reload that produced new settings: they replace the
    /// old ones between events. The history and the ownership flag are
    /// untouched; when loading fails the event loop simply never calls
    /// this, keeping the prior settings active.
    pub fn reload(&mut self, config: Config)
        ensures
            final(self)@.history == old(self)@.history,
            final(self)@.managing == old(self)@.managing,
            final(self)@.config == config,
    {
        self.config = config;
    }
}

} // verus!
