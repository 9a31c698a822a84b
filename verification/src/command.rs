//! The zoom commands, the keys that signal them, and which of several wins.

use vstd::prelude::*;

verus! {

/// A discrete change of the view that the keyboard can ask for.
#[derive(Clone, Copy, Debug, PartialEq, Eq, Structural)]
pub enum ZoomCommand {
    DoubleWidth,
    DoubleHeight,
    HalveWidth,
    HalveHeight,
    Reset,
}

/// A key that the viewer listens to.
#[derive(Clone, Copy, Debug, PartialEq, Eq, Structural)]
pub enum Key {
    X,
    Y,
    O,
}

/// A key together with the state of the shift modifier.
#[derive(Clone, Copy, Debug, PartialEq, Eq, Structural)]
pub struct Binding {
    pub shift: bool,
    pub key: Key,
}

/// What a frame does to one half-extent of the view.
#[derive(Clone, Copy, Debug, PartialEq, Eq, Structural)]
pub enum Scale {
    Keep,
    Double,
    Halve,
}

/// The commands that the keyboard signaled during one frame.
#[derive(Clone, Copy, Debug, PartialEq, Eq, Structural)]
pub struct Signals {
    pub double_width: bool,
    pub double_height: bool,
    pub halve_width: bool,
    pub halve_height: bool,
    pub reset: bool,
}

/// How many commands there are.
pub const COMMANDS: usize = 5;

impl ZoomCommand {
    /// The command's place in the order of precedence: a command with a
    /// smaller rank wins over one with a larger rank.
    pub open spec fn rank(self) -> int {
        match self {
            ZoomCommand::DoubleWidth => 0,
            ZoomCommand::DoubleHeight => 1,
            ZoomCommand::HalveWidth => 2,
            ZoomCommand::HalveHeight => 3,
            ZoomCommand::Reset => 4,
        }
    }

    /// The key chord that signals the command.
    pub open spec fn chord(self) -> Binding {
        match self {
            ZoomCommand::DoubleWidth => Binding { shift: true, key: Key::X },
            ZoomCommand::DoubleHeight => Binding { shift: true, key: Key::Y },
            ZoomCommand::HalveWidth => Binding { shift: false, key: Key::X },
            ZoomCommand::HalveHeight => Binding { shift: false, key: Key::Y },
            ZoomCommand::Reset => Binding { shift: false, key: Key::O },
        }
    }

    /// What the command does to the half-width of the view.
    pub open spec fn width_scale(self) -> Scale {
        match self {
            ZoomCommand::DoubleWidth => Scale::Double,
            ZoomCommand::HalveWidth => Scale::Halve,
            _ => Scale::Keep,
        }
    }

    /// What the command does to the half-height of the view.
    pub open spec fn height_scale(self) -> Scale {
        match self {
            ZoomCommand::DoubleHeight => Scale::Double,
            ZoomCommand::HalveHeight => Scale::Halve,
            _ => Scale::Keep,
        }
    }

    /// Returns the key chord that signals the command.
    pub fn binding(self) -> (binding: Binding)
        ensures
            binding == self.chord(),
    {
        match self {
            ZoomCommand::DoubleWidth => Binding { shift: true, key: Key::X },
            ZoomCommand::DoubleHeight => Binding { shift: true, key: Key::Y },
            ZoomCommand::HalveWidth => Binding { shift: false, key: Key::X },
            ZoomCommand::HalveHeight => Binding { shift: false, key: Key::Y },
            ZoomCommand::Reset => Binding { shift: false, key: Key::O },
        }
    }
}

/// The commands from the one that wins over all others down to the one that
/// yields to all others.
pub open spec fn precedence_order() -> Seq<ZoomCommand> {
    seq![
        ZoomCommand::DoubleWidth,
        ZoomCommand::DoubleHeight,
        ZoomCommand::HalveWidth,
        ZoomCommand::HalveHeight,
        ZoomCommand::Reset,
    ]
}

/// Returns the commands in their order of precedence.
pub fn precedence() -> (order: [ZoomCommand; 5])
    ensures
        order@ == precedence_order(),
        forall|i: int| 0 <= i < 5 ==> (#[trigger] order@[i]).rank() == i,
{
    let order: [ZoomCommand; 5] = [
        ZoomCommand::DoubleWidth,
        ZoomCommand::DoubleHeight,
        ZoomCommand::HalveWidth,
        ZoomCommand::HalveHeight,
        ZoomCommand::Reset,
    ];
    assert(order@ =~= precedence_order());
    order
}

impl Signals {
    /// Whether `command` is among the signaled ones.
    pub open spec fn holds(self, command: ZoomCommand) -> bool {
        match command {
            ZoomCommand::DoubleWidth => self.double_width,
            ZoomCommand::DoubleHeight => self.double_height,
            ZoomCommand::HalveWidth => self.halve_width,
            ZoomCommand::HalveHeight => self.halve_height,
            ZoomCommand::Reset => self.reset,
        }
    }

    /// Returns the signals of a frame in which no key was pressed.
    pub fn none() -> (signals: Signals)
        ensures
            forall|command: ZoomCommand| !signals.holds(command),
    {
        Signals {
            double_width: false,
            double_height: false,
            halve_width: false,
            halve_height: false,
            reset: false,
        }
    }

    /// Tells whether `command` is among the signaled ones.
    pub fn has(&self, command: ZoomCommand) -> (signaled: bool)
        ensures
            signaled == self.holds(command),
    {
        match command {
            ZoomCommand::DoubleWidth => self.double_width,
            ZoomCommand::DoubleHeight => self.double_height,
            ZoomCommand::HalveWidth => self.halve_width,
            ZoomCommand::HalveHeight => self.halve_height,
            ZoomCommand::Reset => self.reset,
        }
    }

    /// Records that `command` was signaled. The other commands stay as they
    /// were.
    pub fn raise(&mut self, command: ZoomCommand)
        ensures
            final(self).holds(command),
            forall|other: ZoomCommand|
                other != command ==> final(self).holds(other) == old(self).holds(other),
    {
        match command {
            ZoomCommand::DoubleWidth => { self.double_width = true; },
            ZoomCommand::DoubleHeight => { self.double_height = true; },
            ZoomCommand::HalveWidth => { self.halve_width = true; },
            ZoomCommand::HalveHeight => { self.halve_height = true; },
            ZoomCommand::Reset => { self.reset = true; },
        }
    }
}

/// The command that a frame applies: the signaled command of the smallest
/// rank, or none where nothing was signaled.
pub open spec fn first_signaled(signals: Signals) -> Option<ZoomCommand> {
    if signals.double_width {
        Some(ZoomCommand::DoubleWidth)
    } else if signals.double_height {
        Some(ZoomCommand::DoubleHeight)
    } else if signals.halve_width {
        Some(ZoomCommand::HalveWidth)
    } else if signals.halve_height {
        Some(ZoomCommand::HalveHeight)
    } else if signals.reset {
        Some(ZoomCommand::Reset)
    } else {
        None
    }
}

/// Picks the one command that a frame applies. The commands are tried in
/// their order of precedence and the first that was signaled is taken; the
/// rest are ignored for that frame.
pub fn resolve(signals: &Signals) -> (chosen: Option<ZoomCommand>)
    ensures
        chosen == first_signaled(*signals),
        match chosen {
            Some(command) => signals.holds(command) && forall|other: ZoomCommand|
                signals.holds(other) ==> command.rank() <= other.rank(),
            None => forall|other: ZoomCommand| !signals.holds(other),
        },
{
    let order = precedence();
    let mut i: usize = 0;
    while i < COMMANDS
        invariant
            i <= COMMANDS,
            order@ == precedence_order(),
            forall|j: int| 0 <= j < i ==> !signals.holds(#[trigger] order@[j]),
        decreases COMMANDS - i,
    {
        let candidate = order[i];
        if signals.has(candidate) {
            return Some(candidate);
        }
        i += 1;
    }
    assert(forall|other: ZoomCommand| other == #[trigger] order@[other.rank()]);
    None
}

/// What a frame does to the half-width and to the half-height of the view,
/// in that order. A doubling or halving command touches one of the two and
/// keeps the other. Without a command both are kept. A reset keeps both too:
/// it replaces the whole rectangle instead.
pub open spec fn scales_of(command: Option<ZoomCommand>) -> (Scale, Scale) {
    match command {
        Some(chosen) => (chosen.width_scale(), chosen.height_scale()),
        None => (Scale::Keep, Scale::Keep),
    }
}

/// Says what a frame does to the half-width and to the half-height of the
/// view, in that order.
pub fn scales(command: Option<ZoomCommand>) -> (pair: (Scale, Scale))
    ensures
        pair == scales_of(command),
{
    match command {
        Some(ZoomCommand::DoubleWidth) => (Scale::Double, Scale::Keep),
        Some(ZoomCommand::DoubleHeight) => (Scale::Keep, Scale::Double),
        Some(ZoomCommand::HalveWidth) => (Scale::Halve, Scale::Keep),
        Some(ZoomCommand::HalveHeight) => (Scale::Keep, Scale::Halve),
        Some(ZoomCommand::Reset) => (Scale::Keep, Scale::Keep),
        None => (Scale::Keep, Scale::Keep),
    }
}

/// Where doubling the width and a reset are signaled in the same frame, the
/// doubling is applied and the reset is not, whatever else was signaled.
pub proof fn double_width_wins_over_reset(signals: Signals)
    requires
        signals.holds(ZoomCommand::DoubleWidth),
        signals.holds(ZoomCommand::Reset),
    ensures
        first_signaled(signals) == Some(ZoomCommand::DoubleWidth),
        first_signaled(signals) != Some(ZoomCommand::Reset),
{
}

/// A command is the one that a frame applies exactly when it was signaled
/// and no signaled command has a smaller rank. No command is applied exactly
/// when none was signaled.
pub proof fn applied_is_least_signaled(signals: Signals, command: ZoomCommand)
    ensures
        first_signaled(signals) == Some(command) <==> signals.holds(command) && forall|
            other: ZoomCommand,
        | signals.holds(other) ==> command.rank() <= other.rank(),
        first_signaled(signals).is_none() <==> forall|other: ZoomCommand| !signals.holds(other),
{
    if first_signaled(signals) != Some(command) && signals.holds(command) {
        let applied = first_signaled(signals).unwrap();
        assert(signals.holds(applied) && applied.rank() < command.rank());
    }
    if first_signaled(signals).is_none() {
        assert forall|other: ZoomCommand| !signals.holds(other) by {
            match other {
                ZoomCommand::DoubleWidth => {},
                ZoomCommand::DoubleHeight => {},
                ZoomCommand::HalveWidth => {},
                ZoomCommand::HalveHeight => {},
                ZoomCommand::Reset => {},
            }
        }
    } else {
        assert(signals.holds(first_signaled(signals).unwrap()));
    }
}

/// No two commands share a key chord.
pub proof fn chords_are_distinct(a: ZoomCommand, b: ZoomCommand)
    requires
        a != b,
    ensures
        a.chord() != b.chord(),
{
}

} // verus!
