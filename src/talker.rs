use crate::flag::PlayFlag;
use vstd::prelude::*;
use vstd::string::StringSliceAdditionalSpecFns;

verus! {

/// A range of byte offsets into the text, `start..end`.
#[derive(Clone, Copy, Debug, PartialEq, Eq, Structural)]
pub struct Selection {
    pub start: usize,
    pub end: usize,
}

/// Length in bytes of the UTF-8 encoding of `s`, as `str::len` reports it.
pub open spec fn byte_len(s: Seq<char>) -> nat {
    (vstd::utf8::encode_utf8(s).len() as usize) as nat
}

/// The selection after an edit that left `len` bytes of text:
/// `min(0, len)..min(len, len - 1)`, the subtraction stopping at zero. For any
/// non-empty text this is `0..len - 1`, not an empty range.
pub open spec fn selection_after(len: nat) -> (nat, nat) {
    let start: nat = 0;
    let dec: nat = if len > 0 { (len - 1) as nat } else { 0 };
    let end: nat = if len <= dec { len } else { dec };
    (start, end)
}

/// Computes `selection_after(len)`.
pub fn selection_for_len(len: usize) -> (r: Selection)
    ensures
        (r.start as nat, r.end as nat) == selection_after(len as nat),
{
    let dec: usize = len.saturating_sub(1);
    // min(0, len) of an unsigned length
    let start: usize = 0;
    let end: usize = if len <= dec { len } else { dec };
    Selection { start, end }
}

/// A command for the speech engine.
#[derive(Debug, PartialEq, Eq)]
pub enum Command {
    /// Speak the text, interrupting whatever is being said when the flag is set.
    Speak { text: String, interrupt: bool },
    /// Stop speaking.
    Stop,
}

/// Says that `c` is the command that a press of play/pause issues when the
/// flag reads `playing`: stop while playing, otherwise speak `text`,
/// interrupting any earlier utterance.
pub open spec fn is_toggle_of(c: Command, playing: bool, text: Seq<char>) -> bool {
    if playing {
        c == Command::Stop
    } else {
        match c {
            Command::Speak { text: t, interrupt } => t@ == text && interrupt,
            Command::Stop => false,
        }
    }
}

/// The speech session: the text being edited, the selection kept for
/// highlighting, and the shared flag that the engine's notifications keep
/// truthful. The session never writes the flag itself.
pub struct Talker {
    pub text: String,
    pub position: Selection,
    pub flag: PlayFlag,
}

impl Talker {
    /// A session with empty text over a flag whose callbacks are registered.
    pub fn new(flag: PlayFlag) -> (r: Talker)
        ensures
            r.text@.len() == 0,
            r.position == (Selection { start: 0, end: 0 }),
            r.flag == flag,
    {
        Talker { text: String::new(), position: Selection { start: 0, end: 0 }, flag }
    }

    /// Whether speech is playing, as the engine last reported it.
    pub fn running(&self) -> (r: bool) {
        self.flag.is_playing()
    }

    /// The command for a press of play/pause, when the flag reads `playing`.
    pub fn toggle_command(&self, playing: bool) -> (r: Command)
        ensures
            is_toggle_of(r, playing, self.text@),
    {
        if playing {
            Command::Stop
        } else {
            Command::Speak { text: self.text.clone(), interrupt: true }
        }
    }

    /// The command for a press of play/pause: reads the flag once and
    /// decides as `toggle_command` does. The flag is left to the callbacks.
    pub fn toggle(&self) -> (r: Command)
        ensures
            is_toggle_of(r, true, self.text@) || is_toggle_of(r, false, self.text@),
    {
        let playing = self.running();
        self.toggle_command(playing)
    }

    /// Replaces the text after an edit, and resets the selection.
    pub fn set_text(&mut self, new_text: String)
        ensures
            final(self).text@ == new_text@,
            (final(self).position.start as nat, final(self).position.end as nat)
                == selection_after(byte_len(new_text@)),
            final(self).flag == old(self).flag,
    {
        let len: usize = new_text.as_str().len();
        self.text = new_text;
        self.position = selection_for_len(len);
    }
}

} // verus!
