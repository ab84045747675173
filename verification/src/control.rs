//! The interaction loop as a state machine: one key event in, the next
//! render configuration and the command for the viewport out.

use vstd::prelude::*;
use crate::bitmap::COLOUR_MODE;

verus! {

/// A key event, as the input side hands it over.
#[derive(Clone, Copy, Debug, PartialEq, Eq, Structural)]
pub enum Key {
    Up,
    Down,
    Left,
    Right,
    /// A printable character; letters keep their case.
    Char(char),
    /// A character typed with the control key held.
    Ctrl(char),
    /// Any key that is none of the above.
    Other,
}

/// The direction of a pan on the screen.
#[derive(Clone, Copy, Debug, PartialEq, Eq, Structural)]
pub enum Heading {
    Up,
    Down,
    Left,
    Right,
}

/// How far one pan goes.
#[derive(Clone, Copy, Debug, PartialEq, Eq, Structural)]
pub enum Pace {
    Fine,
    Normal,
    Fast,
}

/// How the frame buffer is painted.
#[derive(Clone, Copy, Debug, PartialEq, Eq, Structural)]
pub enum DisplayMode {
    Color,
    Outline,
}

/// What a key asks for.
#[derive(Clone, Copy, Debug, PartialEq, Eq, Structural)]
pub enum Command {
    Pan(Heading, Pace),
    ZoomIn,
    ZoomOut,
    Deeper,
    Shallower,
    SetMode(DisplayMode),
    ToggleHelp,
    Quit,
}

/// The two states of the loop.
#[derive(Clone, Copy, Debug, PartialEq, Eq, Structural)]
pub enum LoopState {
    Running,
    Terminated,
}

/// What the renderer is told besides the viewport.
#[derive(Clone, Copy, Debug, PartialEq, Eq, Structural)]
pub struct RenderConfig {
    /// Iteration budget of the kernel, in units of `ITERATIONS_PER_UNIT`.
    pub iteration_depth: i32,
    pub display_mode: DisplayMode,
    pub help_visible: bool,
}

/// The outcome of one key event.
#[derive(Clone, Copy, Debug, PartialEq, Eq, Structural)]
pub struct Turn {
    /// The state the loop is in after the event.
    pub state: LoopState,
    /// The configuration after the event.
    pub config: RenderConfig,
    /// What the key asked for; the viewport's owner carries out pans and
    /// zooms.
    pub command: Command,
    /// Whether the frame is to be filled and painted anew.
    pub repaint: bool,
}

/// Kernel iterations per unit of depth.
pub const ITERATIONS_PER_UNIT: i64 = 100;

/// The depth that a session starts with.
pub const INITIAL_DEPTH: i32 = 7;

/// The key bindings.
pub open spec fn command_of(key: Key) -> Command {
    match key {
        Key::Up => Command::Pan(Heading::Up, Pace::Fine),
        Key::Down => Command::Pan(Heading::Down, Pace::Fine),
        Key::Left => Command::Pan(Heading::Left, Pace::Fine),
        Key::Right => Command::Pan(Heading::Right, Pace::Fine),
        Key::Char(c) => if c == 'w' {
            Command::Pan(Heading::Up, Pace::Normal)
        } else if c == 's' {
            Command::Pan(Heading::Down, Pace::Normal)
        } else if c == 'a' {
            Command::Pan(Heading::Left, Pace::Normal)
        } else if c == 'd' {
            Command::Pan(Heading::Right, Pace::Normal)
        } else if c == 'W' {
            Command::Pan(Heading::Up, Pace::Fast)
        } else if c == 'S' {
            Command::Pan(Heading::Down, Pace::Fast)
        } else if c == 'A' {
            Command::Pan(Heading::Left, Pace::Fast)
        } else if c == 'D' {
            Command::Pan(Heading::Right, Pace::Fast)
        } else if c == '+' {
            Command::ZoomIn
        } else if c == '-' {
            Command::ZoomOut
        } else if c == ')' {
            Command::Deeper
        } else if c == '(' {
            Command::Shallower
        } else if c == '1' {
            Command::SetMode(DisplayMode::Color)
        } else if c == '2' {
            Command::SetMode(DisplayMode::Outline)
        } else if c == '?' {
            Command::ToggleHelp
        } else {
            Command::Quit
        },
        Key::Ctrl(_) => Command::Quit,
        Key::Other => Command::Quit,
    }
}

/// Length of one pan, in hundredths of the current scale.
pub open spec fn pace_hundredths(pace: Pace) -> int {
    match pace {
        Pace::Fine => 1,
        Pace::Normal => 10,
        Pace::Fast => 100,
    }
}

/// The heading that undoes `h`.
pub open spec fn opposite(h: Heading) -> Heading {
    match h {
        Heading::Up => Heading::Down,
        Heading::Down => Heading::Up,
        Heading::Left => Heading::Right,
        Heading::Right => Heading::Left,
    }
}

/// The move of the viewport's centre for one pan, as `(x, y)` in hundredths
/// of the current scale. Up is towards smaller `y`.
pub open spec fn pan_offset(h: Heading, pace: Pace) -> (int, int) {
    match h {
        Heading::Up => (0, -pace_hundredths(pace)),
        Heading::Down => (0, pace_hundredths(pace)),
        Heading::Left => (-pace_hundredths(pace), 0),
        Heading::Right => (pace_hundredths(pace), 0),
    }
}

/// The depth after one more unit; it stays where the next would not fit.
pub open spec fn deeper(depth: int) -> int {
    if depth < i32::MAX {
        depth + 1
    } else {
        depth
    }
}

/// The depth after one unit less; it never goes below one.
pub open spec fn shallower(depth: int) -> int {
    if depth > 1 {
        depth - 1
    } else {
        1
    }
}

impl DisplayMode {
    /// The mode's number, as the frame buffer takes it.
    pub open spec fn code_spec(self) -> int {
        match self {
            DisplayMode::Color => COLOUR_MODE as int,
            DisplayMode::Outline => 2,
        }
    }

    /// The mode's number, as the frame buffer takes it.
    pub fn code(self) -> (c: i32)
        ensures
            c == self.code_spec(),
            (c == COLOUR_MODE) == (self == DisplayMode::Color),
    {
        match self {
            DisplayMode::Color => COLOUR_MODE,
            DisplayMode::Outline => 2,
        }
    }
}

impl RenderConfig {
    /// The depth is at least one.
    pub open spec fn wf(self) -> bool {
        self.iteration_depth >= 1
    }

    /// The configuration after `command`.
    pub open spec fn after(self, command: Command) -> RenderConfig {
        match command {
            Command::Deeper => RenderConfig {
                iteration_depth: deeper(self.iteration_depth as int) as i32,
                ..self
            },
            Command::Shallower => RenderConfig {
                iteration_depth: shallower(self.iteration_depth as int) as i32,
                ..self
            },
            Command::SetMode(m) => RenderConfig { display_mode: m, ..self },
            Command::ToggleHelp => RenderConfig { help_visible: !self.help_visible, ..self },
            _ => self,
        }
    }

    /// The configuration that a session starts with.
    pub fn new() -> (c: RenderConfig)
        ensures
            c.wf(),
            c == (RenderConfig {
                iteration_depth: INITIAL_DEPTH,
                display_mode: DisplayMode::Color,
                help_visible: true,
            }),
    {
        RenderConfig {
            iteration_depth: INITIAL_DEPTH,
            display_mode: DisplayMode::Color,
            help_visible: true,
        }
    }

    /// How often the kernel iterates for one pixel.
    pub fn iteration_budget(&self) -> (n: i64)
        requires
            self.wf(),
        ensures
            n == self.iteration_depth * ITERATIONS_PER_UNIT,
            n >= ITERATIONS_PER_UNIT,
    {
        (self.iteration_depth as i64) * ITERATIONS_PER_UNIT
    }

    /// Carries out the part of `command` that concerns the configuration.
    pub fn apply(&self, command: Command) -> (c: RenderConfig)
        requires
            self.wf(),
        ensures
            c == self.after(command),
            c.wf(),
    {
        match command {
            Command::Deeper => RenderConfig {
                iteration_depth: if self.iteration_depth < i32::MAX {
                    self.iteration_depth + 1
                } else {
                    self.iteration_depth
                },
                display_mode: self.display_mode,
                help_visible: self.help_visible,
            },
            Command::Shallower => RenderConfig {
                iteration_depth: if self.iteration_depth > 1 {
                    self.iteration_depth - 1
                } else {
                    1
                },
                display_mode: self.display_mode,
                help_visible: self.help_visible,
            },
            Command::SetMode(m) => RenderConfig {
                iteration_depth: self.iteration_depth,
                display_mode: m,
                help_visible: self.help_visible,
            },
            Command::ToggleHelp => RenderConfig {
                iteration_depth: self.iteration_depth,
                display_mode: self.display_mode,
                help_visible: !self.help_visible,
            },
            _ => *self,
        }
    }
}

/// The command bound to a key. A key without a binding asks to quit.
pub fn dispatch(key: Key) -> (c: Command)
    ensures
        c == command_of(key),
{
    match key {
        Key::Up => Command::Pan(Heading::Up, Pace::Fine),
        Key::Down => Command::Pan(Heading::Down, Pace::Fine),
        Key::Left => Command::Pan(Heading::Left, Pace::Fine),
        Key::Right => Command::Pan(Heading::Right, Pace::Fine),
        Key::Char('w') => Command::Pan(Heading::Up, Pace::Normal),
        Key::Char('s') => Command::Pan(Heading::Down, Pace::Normal),
        Key::Char('a') => Command::Pan(Heading::Left, Pace::Normal),
        Key::Char('d') => Command::Pan(Heading::Right, Pace::Normal),
        Key::Char('W') => Command::Pan(Heading::Up, Pace::Fast),
        Key::Char('S') => Command::Pan(Heading::Down, Pace::Fast),
        Key::Char('A') => Command::Pan(Heading::Left, Pace::Fast),
        Key::Char('D') => Command::Pan(Heading::Right, Pace::Fast),
        Key::Char('+') => Command::ZoomIn,
        Key::Char('-') => Command::ZoomOut,
        Key::Char(')') => Command::Deeper,
        Key::Char('(') => Command::Shallower,
        Key::Char('1') => Command::SetMode(DisplayMode::Color),
        Key::Char('2') => Command::SetMode(DisplayMode::Outline),
        Key::Char('?') => Command::ToggleHelp,
        _ => Command::Quit,
    }
}

/// The move of the viewport's centre for one pan, as `(x, y)` in hundredths
/// of the current scale.
pub fn pan_step(h: Heading, pace: Pace) -> (d: (i32, i32))
    ensures
        d.0 == pan_offset(h, pace).0,
        d.1 == pan_offset(h, pace).1,
{
    let len: i32 = match pace {
        Pace::Fine => 1,
        Pace::Normal => 10,
        Pace::Fast => 100,
    };
    match h {
        Heading::Up => (0, -len),
        Heading::Down => (0, len),
        Heading::Left => (-len, 0),
        Heading::Right => (len, 0),
    }
}

/// What one event does to the loop. A loop that has terminated stays so,
/// whatever comes. In a running loop the end of the input, a failed read
/// (`None`) and a quit command terminate and leave the configuration
/// alone; every other event keeps the loop running, changes the
/// configuration as its command says, and asks for a repaint.
pub open spec fn turn_of(state: LoopState, config: RenderConfig, event: Option<Key>) -> Turn {
    let halt = Turn {
        state: LoopState::Terminated,
        config,
        command: Command::Quit,
        repaint: false,
    };
    match (state, event) {
        (LoopState::Running, Some(key)) => if command_of(key) == Command::Quit {
            halt
        } else {
            Turn {
                state: LoopState::Running,
                config: config.after(command_of(key)),
                command: command_of(key),
                repaint: true,
            }
        },
        _ => halt,
    }
}

/// One turn of the interaction loop.
pub fn step(state: LoopState, config: RenderConfig, event: Option<Key>) -> (t: Turn)
    requires
        config.wf(),
    ensures
        t == turn_of(state, config, event),
        t.config.wf(),
        t.repaint == (t.state == LoopState::Running),
        (t.state == LoopState::Terminated) == (t.command == Command::Quit),
{
    let halt = Turn {
        state: LoopState::Terminated,
        config,
        command: Command::Quit,
        repaint: false,
    };
    match (state, event) {
        (LoopState::Running, Some(key)) => {
            let command = dispatch(key);
            match command {
                Command::Quit => halt,
                _ => Turn {
                    state: LoopState::Running,
                    config: config.apply(command),
                    command,
                    repaint: true,
                },
            }
        },
        _ => halt,
    }
}

/// A loop that has terminated never runs again, and nothing is painted
/// for it.
pub proof fn lemma_terminated_is_final(config: RenderConfig, event: Option<Key>)
    ensures
        turn_of(LoopState::Terminated, config, event).state == LoopState::Terminated,
        !turn_of(LoopState::Terminated, config, event).repaint,
        turn_of(LoopState::Terminated, config, event).config == config,
{
}

/// A pan and the pan of the same pace in the opposite heading add up to
/// no move at all.
pub proof fn lemma_opposite_pans_cancel(h: Heading, pace: Pace)
    ensures
        pan_offset(h, pace).0 + pan_offset(opposite(h), pace).0 == 0,
        pan_offset(h, pace).1 + pan_offset(opposite(h), pace).1 == 0,
{
}

/// No command but a mode selection changes the display mode, and none but
/// a depth command changes the depth.
pub proof fn lemma_commands_are_independent(config: RenderConfig, command: Command)
    ensures
        !(command is SetMode) ==> config.after(command).display_mode == config.display_mode,
        !(command is Deeper || command is Shallower) ==> config.after(command).iteration_depth
            == config.iteration_depth,
        !(command is ToggleHelp) ==> config.after(command).help_visible == config.help_visible,
{
}

} // verus!
