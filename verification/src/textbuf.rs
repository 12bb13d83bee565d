//! The new-folder sub-dialog's text field.
//!
//! Two independent input sources feed one bounded buffer: direct key events
//! (printable text, backspace, enter) and input-method commit events.  The
//! buffer never grows past 32 characters.  Committing with enter archives
//! the text as a short-lived toast label and clears the field.
use crate::text::{append_range, str_chars, string_of_chars};
use vstd::prelude::*;

verus! {

/// Upper bound on the text field, in characters.
pub const TEXT_CAPACITY: usize = 32;

/// How long an archived entry stays visible, in milliseconds.
pub const TOAST_LIFETIME_MS: u64 = 5000;

/// Printable characters are everything except ASCII control characters and
/// the Unicode private use areas (which keys like Escape can produce).
pub open spec fn is_printable(c: char) -> bool {
    let u = c as u32;
    !((0xe000 <= u && u <= 0xf8ff) || (0xf0000 <= u && u <= 0xffffd) || (0x100000 <= u && u
        <= 0x10fffd)) && !(u < 0x20 || u == 0x7f)
}

pub open spec fn all_printable(t: Seq<char>) -> bool {
    forall|i: int| 0 <= i < t.len() ==> is_printable(#[trigger] t[i])
}

/// An input-method commit is appended up to the capacity: characters past
/// the 32nd are dropped.
pub open spec fn commit_appended(buf: Seq<char>, t: Seq<char>) -> Seq<char> {
    let room = if buf.len() < 32 {
        32 - buf.len()
    } else {
        0
    };
    if t.len() <= room {
        buf + t
    } else {
        buf + t.take(room as int)
    }
}

/// Key text is appended only when it is wholly printable and the result
/// stays within the capacity; otherwise the buffer is left alone.
pub open spec fn key_appended(buf: Seq<char>, t: Seq<char>) -> Seq<char> {
    if all_printable(t) && buf.len() + t.len() <= 32 {
        buf + t
    } else {
        buf
    }
}

/// Backspace drops the last character; on an empty buffer it does nothing.
pub open spec fn after_backspace(buf: Seq<char>) -> Seq<char> {
    if buf.len() == 0 {
        buf
    } else {
        buf.drop_last()
    }
}

/// The buffer never grows past its 32-character capacity: appending to a
/// full buffer changes nothing, and backspace on an empty buffer changes
/// nothing.
pub proof fn lemma_text_buffer_bounds(buf: Seq<char>, t: Seq<char>)
    requires
        buf.len() == 32,
    ensures
        commit_appended(buf, t) == buf,
        key_appended(buf, t) == buf,
        after_backspace(Seq::<char>::empty()) == Seq::<char>::empty(),
{
    assert(buf + t.take(0) =~= buf);
    if all_printable(t) && buf.len() + t.len() <= 32 {
        assert(buf + t =~= buf);
    }
}

/// Exact check for [`is_printable`].
pub fn is_printable_char(chr: char) -> (r: bool)
    ensures
        r == is_printable(chr),
{
    let u = chr as u32;
    let is_in_private_use_area = (0xe000 <= u && u <= 0xf8ff) || (0xf0000 <= u && u <= 0xffffd)
        || (0x100000 <= u && u <= 0x10fffd);
    !is_in_private_use_area && !(u < 0x20 || u == 0x7f)
}

fn chars_all_printable(v: &Vec<char>) -> (r: bool)
    ensures
        r == all_printable(v@),
{
    let mut i: usize = 0;
    while i < v.len()
        invariant
            i <= v@.len(),
            forall|j: int| 0 <= j < i ==> is_printable(#[trigger] v@[j]),
        decreases v@.len() - i,
    {
        if !is_printable_char(v[i]) {
            return false;
        }
        i = i + 1;
    }
    true
}

/// A transient label: the archived text of the field, shown for a fixed
/// lifetime and then despawned.
#[derive(Debug)]
pub struct Toast {
    pub text: String,
    pub remaining_ms: u64,
}

impl Toast {
    pub fn new(text: String) -> (r: Self)
        ensures
            r.text@ == text@,
            r.remaining_ms == TOAST_LIFETIME_MS,
    {
        Toast { text, remaining_ms: TOAST_LIFETIME_MS }
    }

    /// Advances the toast by one frame; reports whether its lifetime just
    /// ran out.
    pub fn tick(&mut self, delta_ms: u64) -> (expired: bool)
        ensures
            final(self).text@ == old(self).text@,
            final(self).remaining_ms == if old(self).remaining_ms >= delta_ms {
                (old(self).remaining_ms - delta_ms) as u64
            } else {
                0u64
            },
            expired == (old(self).remaining_ms <= delta_ms),
    {
        let expired = self.remaining_ms <= delta_ms;
        if self.remaining_ms >= delta_ms {
            self.remaining_ms = self.remaining_ms - delta_ms;
        } else {
            self.remaining_ms = 0;
        }
        expired
    }
}

/// One direct keyboard event, as the host reports it.
#[derive(Debug)]
pub enum KeyPress {
    Enter,
    Backspace,
    Text(String),
}

/// One input-method event.  Only commits mutate the buffer; preedit and
/// enabled/disabled events are observed but reserved for future preview
/// rendering.
#[derive(Debug)]
pub enum ImeEvent {
    Preedit { value: String, has_cursor: bool },
    Commit { value: String },
    Enabled,
    Disabled,
}

/// The bounded text field of the new-folder sub-dialog.
#[derive(Debug)]
pub struct TextBuffer {
    pub chars: Vec<char>,
}

impl TextBuffer {
    /// Within the 32-character capacity.
    pub open spec fn wf(self) -> bool {
        self.chars@.len() <= 32
    }

    pub fn new() -> (r: Self)
        ensures
            r.wf(),
            r.chars@.len() == 0,
    {
        TextBuffer { chars: Vec::new() }
    }

    /// The current text.
    pub fn contents(&self) -> (s: String)
        ensures
            s@ == self.chars@,
    {
        string_of_chars(&self.chars)
    }

    /// Appends an input-method commit, dropping what does not fit.
    pub fn commit_text(&mut self, text: &str)
        requires
            old(self).wf(),
        ensures
            final(self).wf(),
            final(self).chars@ == commit_appended(old(self).chars@, text@),
    {
        let t = str_chars(text);
        let room = if self.chars.len() < TEXT_CAPACITY {
            TEXT_CAPACITY - self.chars.len()
        } else {
            0
        };
        let k = if t.len() <= room {
            t.len()
        } else {
            room
        };
        append_range(&mut self.chars, &t, 0, k);
        proof {
            if t@.len() <= room {
                assert(t@.subrange(0, k as int) =~= t@);
            } else {
                assert(t@.subrange(0, k as int) =~= t@.take(room as int));
            }
        }
    }

    /// Appends key text when it is printable and fits; otherwise a no-op.
    pub fn key_text(&mut self, text: &str)
        requires
            old(self).wf(),
        ensures
            final(self).wf(),
            final(self).chars@ == key_appended(old(self).chars@, text@),
    {
        let t = str_chars(text);
        if chars_all_printable(&t) && t.len() <= TEXT_CAPACITY - self.chars.len() {
            append_range(&mut self.chars, &t, 0, t.len());
            proof {
                assert(t@.subrange(0, t@.len() as int) =~= t@);
            }
        }
    }

    /// Drops the last character; a no-op on an empty buffer.
    pub fn backspace(&mut self)
        requires
            old(self).wf(),
        ensures
            final(self).wf(),
            final(self).chars@ == after_backspace(old(self).chars@),
    {
        let popped = self.chars.pop();
        proof {
            if old(self).chars@.len() > 0 {
                assert(final(self).chars@ =~= old(self).chars@.drop_last());
            }
        }
    }

    /// Archives and clears the field, handing back the entered text.
    pub fn take_text(&mut self) -> (s: String)
        requires
            old(self).wf(),
        ensures
            final(self).wf(),
            final(self).chars@.len() == 0,
            s@ == old(self).chars@,
    {
        let s = string_of_chars(&self.chars);
        self.chars.clear();
        s
    }

    /// One direct key event.  Enter on a non-empty field archives the text
    /// as a toast and clears the field; enter on an empty field does
    /// nothing.  Backspace drops the last character.  Other keys append
    /// their printable text within the capacity.
    pub fn handle_key(&mut self, key: &KeyPress) -> (toast: Option<Toast>)
        requires
            old(self).wf(),
        ensures
            final(self).wf(),
            match key {
                KeyPress::Enter => {
                    if old(self).chars@.len() == 0 {
                        *final(self) == *old(self) && toast is None
                    } else {
                        final(self).chars@.len() == 0 && (toast matches Some(b) && b.text@ == old(
                            self,
                        ).chars@ && b.remaining_ms == TOAST_LIFETIME_MS)
                    }
                },
                KeyPress::Backspace => {
                    final(self).chars@ == after_backspace(old(self).chars@) && toast is None
                },
                KeyPress::Text(t) => {
                    final(self).chars@ == key_appended(old(self).chars@, t@) && toast is None
                },
            },
    {
        match key {
            KeyPress::Enter => {
                if self.chars.len() == 0 {
                    None
                } else {
                    let archived = self.take_text();
                    Some(Toast::new(archived))
                }
            },
            KeyPress::Backspace => {
                self.backspace();
                None
            },
            KeyPress::Text(t) => {
                let text = t.as_str();
                self.key_text(text);
                None
            },
        }
    }

    /// One input-method event: commits append within the capacity, every
    /// other event leaves the buffer alone.
    pub fn handle_ime(&mut self, ev: &ImeEvent)
        requires
            old(self).wf(),
        ensures
            final(self).wf(),
            match ev {
                ImeEvent::Commit { value } => {
                    final(self).chars@ == commit_appended(old(self).chars@, value@)
                },
                _ => *final(self) == *old(self),
            },
    {
        match ev {
            ImeEvent::Commit { value } => {
                let text = value.as_str();
                self.commit_text(text);
            },
            _ => {},
        }
    }
}

} // verus!
