use vstd::prelude::*;
use vstd::string::StringSliceAdditionalSpecFns;
use vstd::utf8::encode_utf8_decode_utf8;

verus! {

/// A user request, raised from the keyboard and carried as a message.
#[derive(Debug, Clone, Copy, PartialEq, Eq, Structural)]
pub enum Command {
    Scene1,
    Scene2,
    Scene3,
    Pause,
    MassUp,
    MassDown,
    ArrowUp,
    ArrowDown,
    ArrowLeft,
    ArrowRight,
    PageUp,
    PageDown,
}

/// The message that carries a command between the input and world systems.
#[derive(Debug)]
pub struct MyEvent {
    pub message: String,
}

/// Marker for the input-handling stage of the host.
#[derive(Debug, Clone, Copy)]
pub struct EventPlugin;

/// The keyboard state of one frame: `just_*` are keys pressed in this frame,
/// `held_*` keys that are down.
#[derive(Debug, Clone, Copy, PartialEq, Eq, Structural, Default)]
pub struct KeyInput {
    pub just_digit1: bool,
    pub just_numpad1: bool,
    pub just_digit2: bool,
    pub just_numpad2: bool,
    pub just_digit3: bool,
    pub just_numpad3: bool,
    pub just_p: bool,
    pub held_c: bool,
    pub held_v: bool,
    pub held_up: bool,
    pub held_down: bool,
    pub held_left: bool,
    pub held_right: bool,
    pub held_page_up: bool,
    pub held_page_down: bool,
}

/// The command a frame's keys raise: the first that applies, in this order.
pub open spec fn command_of_keys(k: KeyInput) -> Option<Command> {
    if k.just_digit1 || k.just_numpad1 {
        Some(Command::Scene1)
    } else if k.just_digit2 || k.just_numpad2 {
        Some(Command::Scene2)
    } else if k.just_digit3 || k.just_numpad3 {
        Some(Command::Scene3)
    } else if k.just_p {
        Some(Command::Pause)
    } else if k.held_c {
        Some(Command::MassUp)
    } else if k.held_v {
        Some(Command::MassDown)
    } else if k.held_up {
        Some(Command::ArrowUp)
    } else if k.held_down {
        Some(Command::ArrowDown)
    } else if k.held_left {
        Some(Command::ArrowLeft)
    } else if k.held_right {
        Some(Command::ArrowRight)
    } else if k.held_page_up {
        Some(Command::PageUp)
    } else if k.held_page_down {
        Some(Command::PageDown)
    } else {
        None
    }
}

/// The message text of each command.
pub open spec fn command_text(c: Command) -> Seq<char> {
    match c {
        Command::Scene1 => seq!['s', 'c', 'e', 'n', 'e', '1'],
        Command::Scene2 => seq!['s', 'c', 'e', 'n', 'e', '2'],
        Command::Scene3 => seq!['s', 'c', 'e', 'n', 'e', '3'],
        Command::Pause => seq!['p', 'a', 'u', 's', 'e'],
        Command::MassUp => seq!['m', 'a', 's', 's', '+'],
        Command::MassDown => seq!['m', 'a', 's', 's', '-'],
        Command::ArrowUp => seq!['A', 'r', 'r', 'o', 'w', 'U', 'p'],
        Command::ArrowDown => seq!['A', 'r', 'r', 'o', 'w', 'D', 'o', 'w', 'n'],
        Command::ArrowLeft => seq!['A', 'r', 'r', 'o', 'w', 'L', 'e', 'f', 't'],
        Command::ArrowRight => seq!['A', 'r', 'r', 'o', 'w', 'R', 'i', 'g', 'h', 't'],
        Command::PageUp => seq!['P', 'a', 'g', 'e', 'U', 'p'],
        Command::PageDown => seq!['P', 'a', 'g', 'e', 'D', 'o', 'w', 'n'],
    }
}

/// The command whose text is `s`, if any.
pub open spec fn command_of_text(s: Seq<char>) -> Option<Command> {
    if s == command_text(Command::Scene1) {
        Some(Command::Scene1)
    } else if s == command_text(Command::Scene2) {
        Some(Command::Scene2)
    } else if s == command_text(Command::Scene3) {
        Some(Command::Scene3)
    } else if s == command_text(Command::Pause) {
        Some(Command::Pause)
    } else if s == command_text(Command::MassUp) {
        Some(Command::MassUp)
    } else if s == command_text(Command::MassDown) {
        Some(Command::MassDown)
    } else if s == command_text(Command::ArrowUp) {
        Some(Command::ArrowUp)
    } else if s == command_text(Command::ArrowDown) {
        Some(Command::ArrowDown)
    } else if s == command_text(Command::ArrowLeft) {
        Some(Command::ArrowLeft)
    } else if s == command_text(Command::ArrowRight) {
        Some(Command::ArrowRight)
    } else if s == command_text(Command::PageUp) {
        Some(Command::PageUp)
    } else if s == command_text(Command::PageDown) {
        Some(Command::PageDown)
    } else {
        None
    }
}

/// The command a frame's keys raise, if any.
pub fn input_command(k: &KeyInput) -> (r: Option<Command>)
    ensures
        r == command_of_keys(*k),
{
    if k.just_digit1 || k.just_numpad1 {
        Some(Command::Scene1)
    } else if k.just_digit2 || k.just_numpad2 {
        Some(Command::Scene2)
    } else if k.just_digit3 || k.just_numpad3 {
        Some(Command::Scene3)
    } else if k.just_p {
        Some(Command::Pause)
    } else if k.held_c {
        Some(Command::MassUp)
    } else if k.held_v {
        Some(Command::MassDown)
    } else if k.held_up {
        Some(Command::ArrowUp)
    } else if k.held_down {
        Some(Command::ArrowDown)
    } else if k.held_left {
        Some(Command::ArrowLeft)
    } else if k.held_right {
        Some(Command::ArrowRight)
    } else if k.held_page_up {
        Some(Command::PageUp)
    } else if k.held_page_down {
        Some(Command::PageDown)
    } else {
        None
    }
}

/// Whether two strings hold the same characters.
fn same_text(a: &str, b: &str) -> (r: bool)
    ensures
        r == (a@ == b@),
{
    let x = a.as_bytes();
    let y = b.as_bytes();
    if x.len() != y.len() {
        return false;
    }
    let mut i: usize = 0;
    while i < x.len()
        invariant
            i <= x@.len(),
            x@.len() == y@.len(),
            x@ == a.spec_bytes(),
            y@ == b.spec_bytes(),
            forall|k: int| 0 <= k < i ==> x@[k] == y@[k],
        decreases x@.len() - i,
    {
        if x[i] != y[i] {
            proof {
                assert(x@[i as int] != y@[i as int]);
                assert(x@ != y@);
            }
            return false;
        }
        i = i + 1;
    }
    proof {
        assert(x@ =~= y@);
        encode_utf8_decode_utf8(a@);
        encode_utf8_decode_utf8(b@);
    }
    true
}

/// The text literal of each command.
fn command_literal(c: Command) -> (r: &'static str)
    ensures
        r@ == command_text(c),
{
    match c {
        Command::Scene1 => {
            proof { reveal_strlit("scene1"); }
            "scene1"
        },
        Command::Scene2 => {
            proof { reveal_strlit("scene2"); }
            "scene2"
        },
        Command::Scene3 => {
            proof { reveal_strlit("scene3"); }
            "scene3"
        },
        Command::Pause => {
            proof { reveal_strlit("pause"); }
            "pause"
        },
        Command::MassUp => {
            proof { reveal_strlit("mass+"); }
            "mass+"
        },
        Command::MassDown => {
            proof { reveal_strlit("mass-"); }
            "mass-"
        },
        Command::ArrowUp => {
            proof { reveal_strlit("ArrowUp"); }
            "ArrowUp"
        },
        Command::ArrowDown => {
            proof { reveal_strlit("ArrowDown"); }
            "ArrowDown"
        },
        Command::ArrowLeft => {
            proof { reveal_strlit("ArrowLeft"); }
            "ArrowLeft"
        },
        Command::ArrowRight => {
            proof { reveal_strlit("ArrowRight"); }
            "ArrowRight"
        },
        Command::PageUp => {
            proof { reveal_strlit("PageUp"); }
            "PageUp"
        },
        Command::PageDown => {
            proof { reveal_strlit("PageDown"); }
            "PageDown"
        },
    }
}

impl Command {
    /// The message text of this command.
    pub fn message(&self) -> (r: String)
        ensures
            r@ == command_text(*self),
    {
        command_literal(*self).to_string()
    }
}

impl MyEvent {
    /// The event that carries `c`.
    pub fn from_command(c: Command) -> (r: MyEvent)
        ensures
            r.message@ == command_text(c),
    {
        MyEvent { message: c.message() }
    }

    /// The command this event carries, if its text names one.
    pub fn command(&self) -> (r: Option<Command>)
        ensures
            r == command_of_text(self.message@),
    {
        command_of_message(self.message.as_str())
    }
}

/// The command named by `msg`, if any.
pub fn command_of_message(msg: &str) -> (r: Option<Command>)
    ensures
        r == command_of_text(msg@),
{
    let all: [Command; 12] = [
        Command::Scene1,
        Command::Scene2,
        Command::Scene3,
        Command::Pause,
        Command::MassUp,
        Command::MassDown,
        Command::ArrowUp,
        Command::ArrowDown,
        Command::ArrowLeft,
        Command::ArrowRight,
        Command::PageUp,
        Command::PageDown,
    ];
    let mut i: usize = 0;
    while i < 12
        invariant
            i <= 12,
            all@ == seq![
                Command::Scene1,
                Command::Scene2,
                Command::Scene3,
                Command::Pause,
                Command::MassUp,
                Command::MassDown,
                Command::ArrowUp,
                Command::ArrowDown,
                Command::ArrowLeft,
                Command::ArrowRight,
                Command::PageUp,
                Command::PageDown,
            ],
            forall|k: int| 0 <= k < i ==> msg@ != command_text(all@[k]),
        decreases 12 - i,
    {
        if same_text(msg, command_literal(all[i])) {
            return Some(all[i]);
        }
        i = i + 1;
    }
    None
}

} // verus!
