//! The window onto the plane.

use crate::command::{first_signaled, Signals, ZoomCommand};
use crate::number::{is_less_than, less_than};
use vstd::prelude::*;

verus! {

/// Bit pattern of the single-precision number `2.0`.
pub const POSITIVE_TWO: u32 = 0x4000_0000;

/// Bit pattern of the single-precision number `-2.0`.
pub const NEGATIVE_TWO: u32 = 0xC000_0000;

/// A point of the plane. Each coordinate is the bit pattern of an IEEE-754
/// single-precision number.
#[derive(Clone, Copy, Debug, PartialEq, Eq, Structural)]
pub struct Point {
    pub x: u32,
    pub y: u32,
}

/// The axis-aligned rectangle of the plane that is on display, given by its
/// lower and upper corners. The viewer means it to be proper at all times:
/// see [`ViewRectangle::proper`].
#[derive(Clone, Copy, Debug, PartialEq, Eq, Structural)]
pub struct ViewRectangle {
    pub min: Point,
    pub max: Point,
}

impl ViewRectangle {
    /// The rectangle that the viewer starts from and that a reset returns to:
    /// from `(-2, -2)` to `(2, 2)`.
    pub open spec fn canonical_view() -> ViewRectangle {
        ViewRectangle {
            min: Point { x: NEGATIVE_TWO, y: NEGATIVE_TWO },
            max: Point { x: POSITIVE_TWO, y: POSITIVE_TWO },
        }
    }

    /// Whether the rectangle has an inside: `min.x < max.x` and
    /// `min.y < max.y`.
    pub open spec fn proper(self) -> bool {
        less_than(self.min.x, self.max.x) && less_than(self.min.y, self.max.y)
    }

    /// The four coordinates in the order in which the shader reads them:
    /// `min.x`, `min.y`, `max.x`, `max.y`.
    pub open spec fn layout(self) -> Seq<u32> {
        seq![self.min.x, self.min.y, self.max.x, self.max.y]
    }

    /// Returns the canonical rectangle.
    pub fn canonical() -> (view: ViewRectangle)
        ensures
            view == Self::canonical_view(),
            view.proper(),
            view.min == (Point { x: NEGATIVE_TWO, y: NEGATIVE_TWO }),
            view.max == (Point { x: POSITIVE_TWO, y: POSITIVE_TWO }),
    {
        ViewRectangle {
            min: Point { x: NEGATIVE_TWO, y: NEGATIVE_TWO },
            max: Point { x: POSITIVE_TWO, y: POSITIVE_TWO },
        }
    }

    /// The rectangle that a frame leaves behind. `moved` is what the caller's
    /// arithmetic made of the rectangle shown before: dragged, and rescaled
    /// about its center as the frame's command asks. A reset discards it.
    pub open spec fn after_frame(command: Option<ZoomCommand>, moved: ViewRectangle)
        -> ViewRectangle {
        if command == Some(ZoomCommand::Reset) {
            Self::canonical_view()
        } else {
            moved
        }
    }

    /// Ends a frame's update of the view. `moved` is the rectangle shown
    /// before, after the caller has dragged it and rescaled it about its
    /// center by the factors that [`crate::command::scales`] gives for
    /// `command`. A reset returns to the canonical rectangle, whatever was
    /// shown before and however far the frame dragged it. In every other frame
    /// `moved` becomes the view.
    pub fn apply(&mut self, command: Option<ZoomCommand>, moved: ViewRectangle)
        ensures
            *final(self) == Self::after_frame(command, moved),
            command == Some(ZoomCommand::Reset) ==> {
                &&& final(self).min == (Point { x: NEGATIVE_TWO, y: NEGATIVE_TWO })
                &&& final(self).max == (Point { x: POSITIVE_TWO, y: POSITIVE_TWO })
            },
            command != Some(ZoomCommand::Reset) ==> *final(self) == moved,
            command == Some(ZoomCommand::Reset) || moved.proper() ==> final(self).proper(),
    {
        match command {
            Some(ZoomCommand::Reset) => {
                *self = Self::canonical();
            },
            _ => {
                *self = moved;
            },
        }
    }

    /// Tells whether the rectangle has an inside.
    pub fn is_proper(&self) -> (proper: bool)
        ensures
            proper == self.proper(),
    {
        is_less_than(self.min.x, self.max.x) && is_less_than(self.min.y, self.max.y)
    }

    /// Returns the four coordinates in the order in which the shader reads
    /// them: `min.x`, `min.y`, `max.x`, `max.y`.
    pub fn uniform_payload(&self) -> (words: [u32; 4])
        ensures
            words@ == self.layout(),
    {
        let words: [u32; 4] = [self.min.x, self.min.y, self.max.x, self.max.y];
        assert(words@ =~= self.layout());
        words
    }
}

/// The view after the first `shown` frames of a run that began at the
/// canonical rectangle. `commands` holds the command of each frame, and
/// `arithmetic(i, view)` stands for what the caller's arithmetic makes, in
/// frame `i`, of the view that the frame finds.
pub open spec fn view_after(
    commands: Seq<Option<ZoomCommand>>,
    arithmetic: spec_fn(int, ViewRectangle) -> ViewRectangle,
    shown: nat,
) -> ViewRectangle
    decreases shown,
{
    if shown == 0 {
        ViewRectangle::canonical_view()
    } else {
        let found = view_after(commands, arithmetic, (shown - 1) as nat);
        ViewRectangle::after_frame(commands[shown - 1], arithmetic(shown - 1, found))
    }
}

/// From the canonical rectangle on, the view is proper after every frame,
/// provided that in each frame that is no reset the caller's arithmetic makes
/// a proper rectangle of the view that it finds.
pub proof fn proper_after_every_frame(
    commands: Seq<Option<ZoomCommand>>,
    arithmetic: spec_fn(int, ViewRectangle) -> ViewRectangle,
    shown: nat,
)
    requires
        shown <= commands.len(),
        forall|i: nat|
            i < shown ==> commands[i as int] == Some(ZoomCommand::Reset) || arithmetic(
                i as int,
                #[trigger] view_after(commands, arithmetic, i),
            ).proper(),
    ensures
        view_after(commands, arithmetic, shown).proper(),
{
    if shown > 0 {
        let found = view_after(commands, arithmetic, (shown - 1) as nat);
        assert(commands[shown - 1] == Some(ZoomCommand::Reset) || arithmetic(
            shown - 1,
            found,
        ).proper());
    }
}

/// A frame whose command is a reset ends at the canonical rectangle, from
/// `(-2, -2)` to `(2, 2)`, whatever frames came before it and whatever the
/// caller's arithmetic did in any of them.
pub proof fn reset_forgets_the_past(
    commands: Seq<Option<ZoomCommand>>,
    arithmetic: spec_fn(int, ViewRectangle) -> ViewRectangle,
    shown: nat,
)
    requires
        0 < shown <= commands.len(),
        commands[shown - 1] == Some(ZoomCommand::Reset),
    ensures
        view_after(commands, arithmetic, shown) == ViewRectangle::canonical_view(),
        view_after(commands, arithmetic, shown).min == (Point { x: NEGATIVE_TWO, y: NEGATIVE_TWO }),
        view_after(commands, arithmetic, shown).max == (Point { x: POSITIVE_TWO, y: POSITIVE_TWO }),
{
}

/// A frame in which a reset is signaled and no other command ends at the
/// canonical rectangle, from `(-2, -2)` to `(2, 2)`, whatever was shown before
/// and whatever the frame's drag made of it.
pub proof fn lone_reset_restores_the_canonical_view(signals: Signals, moved: ViewRectangle)
    requires
        signals.holds(ZoomCommand::Reset),
        forall|other: ZoomCommand| other != ZoomCommand::Reset ==> !signals.holds(other),
    ensures
        ViewRectangle::after_frame(first_signaled(signals), moved)
            == ViewRectangle::canonical_view(),
        ViewRectangle::after_frame(first_signaled(signals), moved).min == (Point {
            x: NEGATIVE_TWO,
            y: NEGATIVE_TWO,
        }),
        ViewRectangle::after_frame(first_signaled(signals), moved).max == (Point {
            x: POSITIVE_TWO,
            y: POSITIVE_TWO,
        }),
{
    assert(!signals.holds(ZoomCommand::DoubleWidth));
    assert(!signals.holds(ZoomCommand::DoubleHeight));
    assert(!signals.holds(ZoomCommand::HalveWidth));
    assert(!signals.holds(ZoomCommand::HalveHeight));
}

} // verus!
