//! Which player command a registered global key stands for.
use vstd::prelude::*;

use crate::player::PlayerCommand;
use crate::text::{join_strings, join_with, texts};

verus! {

/// The command registered under `id`: play/pause ids first, then next,
/// then previous.
pub open spec fn command_of_id(
    id: u32,
    play_pause_ids: Seq<u32>,
    next_ids: Seq<u32>,
    previous_ids: Seq<u32>,
) -> Option<PlayerCommand> {
    if play_pause_ids.contains(id) {
        Some(PlayerCommand::PlayPause)
    } else if next_ids.contains(id) {
        Some(PlayerCommand::Next)
    } else if previous_ids.contains(id) {
        Some(PlayerCommand::Previous)
    } else {
        None
    }
}

/// Whether `ids` holds `id`.
fn holds(ids: &[u32], id: u32) -> (r: bool)
    ensures
        r == ids@.contains(id),
{
    let mut i: usize = 0;
    while i < ids.len()
        invariant
            i <= ids.len(),
            forall|j: int| 0 <= j < i ==> ids@[j] != id,
        decreases ids.len() - i,
    {
        if ids[i] == id {
            return true;
        }
        i = i + 1;
    }
    false
}

/// The command registered under `id`.
pub fn command_for_id(id: u32, play_pause_ids: &[u32], next_ids: &[u32], previous_ids: &[u32]) -> (r:
    Option<PlayerCommand>)
    ensures
        r == command_of_id(id, play_pause_ids@, next_ids@, previous_ids@),
{
    if holds(play_pause_ids, id) {
        Some(PlayerCommand::PlayPause)
    } else if holds(next_ids, id) {
        Some(PlayerCommand::Next)
    } else if holds(previous_ids, id) {
        Some(PlayerCommand::Previous)
    } else {
        None
    }
}

/// The ids of the registered keys, by command, and the warnings about keys
/// that could not be registered.
pub struct HotkeyIds {
    pub play_pause_ids: Vec<u32>,
    pub next_ids: Vec<u32>,
    pub previous_ids: Vec<u32>,
    pub warnings: Vec<String>,
}

impl HotkeyIds {
    /// No key registered yet.
    pub fn new() -> (r: Self)
        ensures
            r.play_pause_ids@.len() == 0,
            r.next_ids@.len() == 0,
            r.previous_ids@.len() == 0,
            r.warnings@.len() == 0,
    {
        HotkeyIds {
            play_pause_ids: Vec::new(),
            next_ids: Vec::new(),
            previous_ids: Vec::new(),
            warnings: Vec::new(),
        }
    }

    /// Records that the key `id` stands for `command`.
    pub fn push_id(&mut self, command: PlayerCommand, id: u32)
        ensures
            final(self).warnings@ == old(self).warnings@,
            final(self).play_pause_ids@ == if command == PlayerCommand::PlayPause {
                old(self).play_pause_ids@.push(id)
            } else {
                old(self).play_pause_ids@
            },
            final(self).next_ids@ == if command == PlayerCommand::Next {
                old(self).next_ids@.push(id)
            } else {
                old(self).next_ids@
            },
            final(self).previous_ids@ == if command == PlayerCommand::Previous {
                old(self).previous_ids@.push(id)
            } else {
                old(self).previous_ids@
            },
    {
        match command {
            PlayerCommand::PlayPause => self.play_pause_ids.push(id),
            PlayerCommand::Next => self.next_ids.push(id),
            PlayerCommand::Previous => self.previous_ids.push(id),
        }
    }

    /// Records a key that could not be registered.
    pub fn push_warning(&mut self, warning: String)
        ensures
            final(self).warnings@ == old(self).warnings@.push(warning),
            final(self).play_pause_ids@ == old(self).play_pause_ids@,
            final(self).next_ids@ == old(self).next_ids@,
            final(self).previous_ids@ == old(self).previous_ids@,
    {
        self.warnings.push(warning);
    }

    /// The command that the key `id` stands for.
    pub fn command_for_id(&self, id: u32) -> (r: Option<PlayerCommand>)
        ensures
            r == command_of_id(id, self.play_pause_ids@, self.next_ids@, self.previous_ids@),
    {
        command_for_id(id, self.play_pause_ids.as_slice(), self.next_ids.as_slice(), self.previous_ids.as_slice())
    }

    /// Where no key at all was registered, the warnings joined with `; `.
    pub fn failure(&self) -> (r: Option<String>)
        ensures
            match r {
                Some(m) => self.play_pause_ids@.len() == 0 && self.next_ids@.len() == 0
                    && self.previous_ids@.len() == 0 && m@ == join_with(
                    texts(self.warnings@),
                    "; "@,
                ),
                None => !(self.play_pause_ids@.len() == 0 && self.next_ids@.len() == 0
                    && self.previous_ids@.len() == 0),
            },
    {
        if self.play_pause_ids.len() == 0 && self.next_ids.len() == 0 && self.previous_ids.len() == 0 {
            Some(join_strings(&self.warnings, "; "))
        } else {
            None
        }
    }
}

} // verus!
