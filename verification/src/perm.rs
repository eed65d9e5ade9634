//! Permission modal: selection, scrolling and key handling.
//!
//! The terminal drawing lives outside the crate; what the modal decides —
//! which choice is selected, how far the preview is scrolled, and what a
//! key press answers — is modelled and verified here. The preview itself
//! enters the model as its line count, which is all the logic reads.
use vstd::prelude::*;

verus! {

/// The user's answer to a permission request.
#[derive(PartialEq, Eq, Structural, Clone, Copy, Debug)]
pub enum PermissionResponse {
    Allow,
    AllowAlways,
    Deny,
}

/// What the modal does with one input event.
pub enum PermissionModalAction {
    /// Keep the modal open.
    Nope,
    /// Answer the request and close.
    Response { request_id: String, choice: PermissionResponse },
}

/// The key presses the modal reacts to.
#[derive(PartialEq, Eq, Structural, Clone, Copy, Debug)]
pub enum KeyPress {
    Up,
    Down,
    PageUp,
    PageDown,
    Enter,
    Esc,
    Other,
}

/// The mouse events the modal reacts to.
#[derive(PartialEq, Eq, Structural, Clone, Copy, Debug)]
pub enum MouseScroll {
    ScrollUp,
    ScrollDown,
    Other,
}

/// State of the permission modal.
pub struct PermissionWidget {
    /// Id of the permission request being answered.
    pub request_id: String,
    /// How many permission requests are pending in total.
    pub remaining_perms: usize,
    /// Which of the three choices is highlighted.
    pub selected_index: usize,
    /// How far the tool-call preview is scrolled.
    pub scroll_offset: usize,
    /// Number of lines of the rendered preview.
    pub content_lines: usize,
}

/// The furthest the preview can scroll.
pub open spec fn spec_max_scroll(content_lines: usize) -> int {
    if content_lines == 0 {
        0
    } else {
        content_lines - 1
    }
}

impl PermissionWidget {
    /// Valid modal state: one of the three choices is selected and the
    /// scroll position is within the preview.
    pub open spec fn wf(self) -> bool {
        self.selected_index < 3 && self.scroll_offset <= spec_max_scroll(self.content_lines)
    }

    /// A fresh modal over a request whose rendered preview has
    /// `content_lines` lines: first choice selected, preview unscrolled.
    pub fn new(request_id: String, total: usize, content_lines: usize) -> (r: Self)
        ensures
            r.wf(),
            r.request_id == request_id,
            r.remaining_perms == total,
            r.selected_index == 0,
            r.scroll_offset == 0,
            r.content_lines == content_lines,
    {
        PermissionWidget {
            request_id,
            remaining_perms: total,
            selected_index: 0,
            scroll_offset: 0,
            content_lines,
        }
    }

    /// Move the selection up, wrapping from the first to the last choice.
    pub fn move_up(&mut self)
        requires
            old(self).wf(),
        ensures
            final(self).wf(),
            final(self).selected_index == (if old(self).selected_index == 0 {
                2int
            } else {
                old(self).selected_index - 1
            }),
            *final(self) == (PermissionWidget {
                selected_index: final(self).selected_index,
                ..*old(self)
            }),
    {
        self.selected_index = if self.selected_index == 0 {
            2
        } else {
            self.selected_index - 1
        };
    }

    /// Move the selection down, wrapping from the last to the first
    /// choice.
    pub fn move_down(&mut self)
        requires
            old(self).wf(),
        ensures
            final(self).wf(),
            final(self).selected_index == (old(self).selected_index + 1) % 3,
            *final(self) == (PermissionWidget {
                selected_index: final(self).selected_index,
                ..*old(self)
            }),
    {
        self.selected_index = (self.selected_index + 1) % 3;
    }

    /// Scroll the preview up one line, stopping at the top.
    pub fn scroll_up(&mut self)
        requires
            old(self).wf(),
        ensures
            final(self).wf(),
            final(self).scroll_offset == (if old(self).scroll_offset > 0 {
                old(self).scroll_offset - 1
            } else {
                0int
            }),
            *final(self) == (PermissionWidget {
                scroll_offset: final(self).scroll_offset,
                ..*old(self)
            }),
    {
        if self.scroll_offset > 0 {
            self.scroll_offset = self.scroll_offset - 1;
        }
    }

    /// Scroll the preview down one line, stopping at the last line.
    pub fn scroll_down(&mut self)
        requires
            old(self).wf(),
        ensures
            final(self).wf(),
            final(self).scroll_offset == (if old(self).scroll_offset < spec_max_scroll(
                old(self).content_lines,
            ) {
                old(self).scroll_offset + 1
            } else {
                old(self).scroll_offset as int
            }),
            *final(self) == (PermissionWidget {
                scroll_offset: final(self).scroll_offset,
                ..*old(self)
            }),
    {
        let max_scroll = if self.content_lines == 0 {
            0
        } else {
            self.content_lines - 1
        };
        if self.scroll_offset < max_scroll {
            self.scroll_offset = self.scroll_offset + 1;
        }
    }

    /// The choice the selection stands on.
    pub fn get_selected(&self) -> (r: PermissionResponse)
        ensures
            r == spec_selected(self.selected_index),
    {
        match self.selected_index {
            0 => PermissionResponse::Allow,
            1 => PermissionResponse::AllowAlways,
            2 => PermissionResponse::Deny,
            _ => PermissionResponse::Deny,
        }
    }

    /// Height of the rendered modal: the preview plus its fixed chrome.
    pub fn height(&self) -> (r: u16)
        requires
            self.content_lines + 10 <= u16::MAX,
        ensures
            r == self.content_lines + 10,
    {
        (self.content_lines as u16) + 10
    }

    /// React to a mouse event: wheel movement scrolls the preview; the
    /// modal stays open.
    pub fn handle_mouse_event(&mut self, event: MouseScroll) -> (r: PermissionModalAction)
        requires
            old(self).wf(),
        ensures
            final(self).wf(),
            r is Nope,
            event == MouseScroll::ScrollUp ==> *final(self) == (PermissionWidget {
                scroll_offset: (if old(self).scroll_offset > 0 {
                    old(self).scroll_offset - 1
                } else {
                    0int
                }) as usize,
                ..*old(self)
            }),
            event == MouseScroll::ScrollDown ==> *final(self) == (PermissionWidget {
                scroll_offset: (if old(self).scroll_offset < spec_max_scroll(
                    old(self).content_lines,
                ) {
                    old(self).scroll_offset + 1
                } else {
                    old(self).scroll_offset as int
                }) as usize,
                ..*old(self)
            }),
            event == MouseScroll::Other ==> *final(self) == *old(self),
    {
        match event {
            MouseScroll::ScrollUp => {
                self.scroll_up();
            },
            MouseScroll::ScrollDown => {
                self.scroll_down();
            },
            MouseScroll::Other => {},
        }
        PermissionModalAction::Nope
    }

    /// React to a key press: arrows move the selection, page keys scroll
    /// the preview five lines, enter answers with the selected choice,
    /// escape answers with a denial; anything else is ignored.
    pub fn handle_key_event(&mut self, key: KeyPress) -> (r: PermissionModalAction)
        requires
            old(self).wf(),
        ensures
            final(self).wf(),
            final(self).request_id == old(self).request_id,
            final(self).content_lines == old(self).content_lines,
            match key {
                KeyPress::Up => r is Nope && final(self).selected_index == (if old(
                    self,
                ).selected_index == 0 {
                    2int
                } else {
                    old(self).selected_index - 1
                }),
                KeyPress::Down => r is Nope && final(self).selected_index == (old(
                    self,
                ).selected_index + 1) % 3,
                KeyPress::PageUp => r is Nope && final(self).scroll_offset == (if old(
                    self,
                ).scroll_offset >= 5 {
                    old(self).scroll_offset - 5
                } else {
                    0int
                }),
                KeyPress::PageDown => r is Nope && final(self).scroll_offset == (if old(
                    self,
                ).scroll_offset + 5 <= spec_max_scroll(old(self).content_lines) {
                    old(self).scroll_offset + 5
                } else {
                    spec_max_scroll(old(self).content_lines)
                }),
                KeyPress::Enter => r == (PermissionModalAction::Response {
                    request_id: old(self).request_id,
                    choice: spec_selected(old(self).selected_index),
                }) && *final(self) == *old(self),
                KeyPress::Esc => r == (PermissionModalAction::Response {
                    request_id: old(self).request_id,
                    choice: PermissionResponse::Deny,
                }) && *final(self) == *old(self),
                KeyPress::Other => r is Nope && *final(self) == *old(self),
            },
    {
        match key {
            KeyPress::Up => {
                self.move_up();
                PermissionModalAction::Nope
            },
            KeyPress::Down => {
                self.move_down();
                PermissionModalAction::Nope
            },
            KeyPress::PageUp => {
                let mut n: usize = 0;
                while n < 5
                    invariant
                        n <= 5,
                        self.wf(),
                        self.request_id == old(self).request_id,
                        self.remaining_perms == old(self).remaining_perms,
                        self.selected_index == old(self).selected_index,
                        self.content_lines == old(self).content_lines,
                        self.scroll_offset == (if old(self).scroll_offset >= n {
                            old(self).scroll_offset - n
                        } else {
                            0int
                        }),
                    decreases 5 - n,
                {
                    self.scroll_up();
                    n = n + 1;
                }
                PermissionModalAction::Nope
            },
            KeyPress::PageDown => {
                let mut n: usize = 0;
                while n < 5
                    invariant
                        n <= 5,
                        self.wf(),
                        self.request_id == old(self).request_id,
                        self.remaining_perms == old(self).remaining_perms,
                        self.selected_index == old(self).selected_index,
                        self.content_lines == old(self).content_lines,
                        self.scroll_offset == (if old(self).scroll_offset + n <= spec_max_scroll(
                            old(self).content_lines,
                        ) {
                            old(self).scroll_offset + n
                        } else {
                            spec_max_scroll(old(self).content_lines)
                        }),
                    decreases 5 - n,
                {
                    self.scroll_down();
                    n = n + 1;
                }
                PermissionModalAction::Nope
            },
            KeyPress::Enter => {
                let request_id = self.request_id.clone();
                let choice = self.get_selected();
                PermissionModalAction::Response { request_id, choice }
            },
            KeyPress::Esc => {
                let request_id = self.request_id.clone();
                PermissionModalAction::Response {
                    request_id,
                    choice: PermissionResponse::Deny,
                }
            },
            KeyPress::Other => PermissionModalAction::Nope,
        }
    }
}

/// The choice at a selection index: allow, always allow, deny; anything
/// out of range denies.
pub open spec fn spec_selected(index: usize) -> PermissionResponse {
    if index == 0 {
        PermissionResponse::Allow
    } else if index == 1 {
        PermissionResponse::AllowAlways
    } else {
        PermissionResponse::Deny
    }
}

} // verus!
