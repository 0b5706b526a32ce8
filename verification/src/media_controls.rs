//! What the system's media controls ask of the player.
use std::time::Duration;
use vstd::prelude::*;

use crate::player::PlayerCommand;

verus! {

/// An event of the system's media controls.
#[derive(Debug, Clone, Copy, PartialEq, Eq)]
pub enum SystemMediaEvent {
    Play,
    Pause,
    Toggle,
    Next,
    Previous,
    Stop,
    SetPosition(Duration),
    Other,
}

/// What the player is asked to do.
#[derive(Debug, Clone, Copy, PartialEq, Eq)]
pub enum SystemMediaCommand {
    Player(PlayerCommand),
    Play,
    Pause,
    Seek(Duration),
}

/// The command an event asks for: `Stop` pauses, and unknown events ask nothing.
pub open spec fn command_of_event(event: SystemMediaEvent) -> Option<SystemMediaCommand> {
    match event {
        SystemMediaEvent::Play => Some(SystemMediaCommand::Play),
        SystemMediaEvent::Pause => Some(SystemMediaCommand::Pause),
        SystemMediaEvent::Stop => Some(SystemMediaCommand::Pause),
        SystemMediaEvent::Toggle => Some(SystemMediaCommand::Player(PlayerCommand::PlayPause)),
        SystemMediaEvent::Next => Some(SystemMediaCommand::Player(PlayerCommand::Next)),
        SystemMediaEvent::Previous => Some(SystemMediaCommand::Player(PlayerCommand::Previous)),
        SystemMediaEvent::SetPosition(position) => Some(SystemMediaCommand::Seek(position)),
        SystemMediaEvent::Other => None,
    }
}

pub fn command_for_event(event: SystemMediaEvent) -> (r: Option<SystemMediaCommand>)
    ensures
        r == command_of_event(event),
{
    match event {
        SystemMediaEvent::Play => Some(SystemMediaCommand::Play),
        SystemMediaEvent::Pause | SystemMediaEvent::Stop => Some(SystemMediaCommand::Pause),
        SystemMediaEvent::Toggle => Some(SystemMediaCommand::Player(PlayerCommand::PlayPause)),
        SystemMediaEvent::Next => Some(SystemMediaCommand::Player(PlayerCommand::Next)),
        SystemMediaEvent::Previous => Some(SystemMediaCommand::Player(PlayerCommand::Previous)),
        SystemMediaEvent::SetPosition(position) => Some(SystemMediaCommand::Seek(position)),
        SystemMediaEvent::Other => None,
    }
}

} // verus!
