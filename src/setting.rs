use vstd::prelude::*;
use crate::event::{Command, MyEvent, command_of_text};

verus! {

/// Change of one wind component per wind command, in tenths.
pub const WIND_STEP: i32 = 2;

/// Vertical gravity, in tenths of a unit acceleration (downwards).
pub const GRAVITY_Y: i64 = -98;

/// The scene the host builds after a scene command.
#[derive(Debug, Clone, Copy, PartialEq, Eq, Structural)]
pub enum Scene {
    /// A fan of boxes, each hung from a fixed point.
    Base,
    /// A vertical chain of boxes growing in size.
    Chain,
    /// A horizontal chain whose first box freezes after a short delay.
    ChainTimer,
}

/// Live simulation settings, changed by the host between ticks. Wind
/// components are in tenths of a unit acceleration.
#[derive(Debug, Clone, Copy, PartialEq, Eq, Structural)]
pub struct Setting {
    pub wind_x: i32,
    pub wind_y: i32,
    pub wind_z: i32,
    pub pause: bool,
}

/// `v + d`, held to the range of `i32`.
pub open spec fn nudged(v: i32, d: int) -> i32 {
    if v + d > i32::MAX {
        i32::MAX
    } else if v + d < i32::MIN {
        i32::MIN
    } else {
        (v + d) as i32
    }
}

/// The settings after command `c`.
pub open spec fn applied(s: Setting, c: Command) -> Setting {
    match c {
        Command::Scene1 => Setting { wind_x: (-80) as i32, wind_y: 0, wind_z: 80, ..s },
        Command::Scene2 => Setting { wind_x: (-80) as i32, wind_y: 0, wind_z: (-80) as i32, ..s },
        Command::Scene3 => Setting { wind_x: 0, wind_y: 0, wind_z: 80, ..s },
        Command::Pause => Setting { pause: !s.pause, ..s },
        Command::ArrowUp => Setting { wind_z: nudged(s.wind_z, -WIND_STEP), ..s },
        Command::ArrowDown => Setting { wind_z: nudged(s.wind_z, WIND_STEP as int), ..s },
        Command::ArrowLeft => Setting { wind_x: nudged(s.wind_x, -WIND_STEP), ..s },
        Command::ArrowRight => Setting { wind_x: nudged(s.wind_x, WIND_STEP as int), ..s },
        Command::PageUp => Setting { wind_y: nudged(s.wind_y, WIND_STEP as int), ..s },
        Command::PageDown => Setting { wind_y: nudged(s.wind_y, -WIND_STEP), ..s },
        Command::MassUp | Command::MassDown => s,
    }
}

/// The scene a command asks the host to build, if any.
pub open spec fn scene_of(c: Command) -> Option<Scene> {
    match c {
        Command::Scene1 => Some(Scene::Base),
        Command::Scene2 => Some(Scene::Chain),
        Command::Scene3 => Some(Scene::ChainTimer),
        _ => None,
    }
}

/// `v + d`, held to the range of `i32`.
fn nudge(v: i32, d: i32) -> (r: i32)
    ensures
        r == nudged(v, d as int),
{
    let sum: i64 = v as i64 + d as i64;
    if sum > i32::MAX as i64 {
        i32::MAX
    } else if sum < i32::MIN as i64 {
        i32::MIN
    } else {
        sum as i32
    }
}

impl Default for Setting {
    fn default() -> (r: Self)
        ensures
            r == (Setting { wind_x: (-80) as i32, wind_y: 0, wind_z: (-80) as i32, pause: false }),
    {
        Setting { wind_x: -80, wind_y: 0, wind_z: -80, pause: false }
    }
}

impl Setting {
    /// Applies one command and returns the scene the host is to rebuild, if
    /// the command asks for one.
    pub fn apply(&mut self, c: Command) -> (r: Option<Scene>)
        ensures
            *final(self) == applied(*old(self), c),
            r == scene_of(c),
    {
        match c {
            Command::Scene1 => {
                self.wind_x = -80;
                self.wind_y = 0;
                self.wind_z = 80;
                Some(Scene::Base)
            },
            Command::Scene2 => {
                self.wind_x = -80;
                self.wind_y = 0;
                self.wind_z = -80;
                Some(Scene::Chain)
            },
            Command::Scene3 => {
                self.wind_x = 0;
                self.wind_y = 0;
                self.wind_z = 80;
                Some(Scene::ChainTimer)
            },
            Command::Pause => {
                self.pause = !self.pause;
                None
            },
            Command::ArrowUp => {
                self.wind_z = nudge(self.wind_z, -WIND_STEP);
                None
            },
            Command::ArrowDown => {
                self.wind_z = nudge(self.wind_z, WIND_STEP);
                None
            },
            Command::ArrowLeft => {
                self.wind_x = nudge(self.wind_x, -WIND_STEP);
                None
            },
            Command::ArrowRight => {
                self.wind_x = nudge(self.wind_x, WIND_STEP);
                None
            },
            Command::PageUp => {
                self.wind_y = nudge(self.wind_y, WIND_STEP);
                None
            },
            Command::PageDown => {
                self.wind_y = nudge(self.wind_y, -WIND_STEP);
                None
            },
            Command::MassUp | Command::MassDown => None,
        }
    }

    /// Handles one event: a message that names no command changes nothing.
    pub fn handle_event(&mut self, event: &MyEvent) -> (r: Option<Scene>)
        ensures
            command_of_text(event.message@) matches Some(c) ==> *final(self) == applied(
                *old(self),
                c,
            ) && r == scene_of(c),
            command_of_text(event.message@) is None ==> *final(self) == *old(self) && r is None,
    {
        match event.command() {
            Some(c) => self.apply(c),
            None => None,
        }
    }

    /// Gravity plus wind, in tenths of a unit acceleration.
    pub fn acceleration(&self) -> (r: (i64, i64, i64))
        ensures
            r.0 == self.wind_x,
            r.1 == GRAVITY_Y + self.wind_y,
            r.2 == self.wind_z,
    {
        (self.wind_x as i64, GRAVITY_Y + self.wind_y as i64, self.wind_z as i64)
    }
}

} // verus!
