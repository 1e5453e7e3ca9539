//! The three regions of the screen that a window can be kept in.
//!
//! A screen is measured in whole points and a region in half points, so that
//! half of any screen width is a whole number of units.

use vstd::prelude::*;

use crate::error::UnnamedError;
use crate::foreign::{ForeignCall, ForeignReply, Procedure, Progress, ScreenFrame};
use crate::memory::{AXValue, Unique};

verus! {

/// Half points in a point.
pub const UNITS_PER_POINT: i64 = 2;

/// Room kept free at the left edge of the screen: 8 points.
pub const LEFT_INSET: i64 = 16;

/// Room kept free at the right edge of the screen: 8 points.
pub const RIGHT_INSET: i64 = 16;

/// Room kept free below the notch: 6 points.
pub const TOP_INSET: i64 = 12;

/// Room kept free at the bottom edge of the screen: 8 points.
pub const BOTTOM_INSET: i64 = 16;

/// Room between the left and the right region: 12 points, half of it taken
/// from each.
pub const INNER_SPACING: i64 = 24;

/// Height of the strip at the top of the screen that the notch takes: 40
/// points.
pub const NOTCH_HEIGHT: i64 = 80;

/// How many presets there are.
pub const PRESET_COUNT: usize = 3;

/// A region of the screen by name.
#[derive(Clone, Copy, Debug, PartialEq, Eq, Hash, Structural)]
pub enum LayoutPreset {
    /// The whole screen.
    Full,
    /// The left half.
    Left,
    /// The right half.
    Right,
}

/// A rectangle in half points.
#[derive(Clone, Copy, Debug, PartialEq, Eq, Structural)]
pub struct Rect {
    pub x: i64,
    pub y: i64,
    pub width: i64,
    pub height: i64,
}

/// A rectangle in the encoding of the accessibility interface: one foreign
/// value for its origin and one for its size.
#[derive(Debug, PartialEq, Eq)]
pub struct AXRect {
    pub origin: Unique<AXValue>,
    pub size: Unique<AXValue>,
}

/// The encoded rectangle of every preset, in the order of
/// [`LayoutPreset::index`].
#[derive(Debug, PartialEq, Eq)]
pub struct LayoutPresets {
    pub rects: [AXRect; 3],
}

/// Encoding the presets of the main screen, value by value: the origin and
/// the size of the whole screen, of the left half and of the right half.
#[derive(Debug, PartialEq, Eq)]
pub enum PresetEncoding {
    /// Waits for the frame of the main screen.
    Screen,
    /// Waits for the origin of the next preset: the whole screen if `full`
    /// is missing, else the left half if `left` is missing, else the right
    /// half.
    Origin { frames: [Rect; 3], full: Option<AXRect>, left: Option<AXRect> },
    /// Waits for the size of the next preset.
    Size { frames: [Rect; 3], full: Option<AXRect>, left: Option<AXRect>, origin: Unique<AXValue> },
    /// A value could not be made: waits for the release of one of the
    /// values made before it.
    Unwinding { made: Made },
}

/// The values made before one could not be made, for release. A value that
/// was not made, or is released already, is missing.
#[derive(Debug, PartialEq, Eq)]
pub struct Made {
    pub origin: Option<usize>,
    pub left_size: Option<usize>,
    pub left_origin: Option<usize>,
    pub full_size: Option<usize>,
    pub full_origin: Option<usize>,
}

impl Default for LayoutPreset {
    fn default() -> (preset: LayoutPreset)
        ensures
            preset == LayoutPreset::Full,
    {
        LayoutPreset::Full
    }
}

impl LayoutPreset {
    /// The place of the preset's rectangle in [`LayoutPresets::rects`].
    pub open spec fn index_of(self) -> int {
        match self {
            LayoutPreset::Full => 0,
            LayoutPreset::Left => 1,
            LayoutPreset::Right => 2,
        }
    }

    /// The place of the preset's rectangle in [`LayoutPresets::rects`].
    pub fn index(self) -> (index: usize)
        ensures
            index == self.index_of(),
            index < PRESET_COUNT,
    {
        match self {
            LayoutPreset::Full => 0,
            LayoutPreset::Left => 1,
            LayoutPreset::Right => 2,
        }
    }
}

impl Rect {
    /// The rectangle with the given origin and size in whole points.
    pub open spec fn of_points(x: int, y: int, width: int, height: int) -> Rect {
        Rect {
            x: (2 * x) as i64,
            y: (2 * y) as i64,
            width: (2 * width) as i64,
            height: (2 * height) as i64,
        }
    }

    /// The rectangle with the given origin and size in whole points.
    pub fn from_points(x: i32, y: i32, width: i32, height: i32) -> (rect: Rect)
        ensures
            rect == Rect::of_points(x as int, y as int, width as int, height as int),
    {
        let x: i64 = x as i64;
        let y: i64 = y as i64;
        let width: i64 = width as i64;
        let height: i64 = height as i64;
        Rect {
            x: UNITS_PER_POINT * x,
            y: UNITS_PER_POINT * y,
            width: UNITS_PER_POINT * width,
            height: UNITS_PER_POINT * height,
        }
    }

    /// Whether the rectangle is small enough for the arithmetic of this
    /// module. Every rectangle made from a [`ScreenFrame`] is.
    pub open spec fn is_bounded(self) -> bool {
        &&& -0x2_0000_0000 <= self.x <= 0x2_0000_0000
        &&& -0x2_0000_0000 <= self.y <= 0x2_0000_0000
        &&& -0x2_0000_0000 <= self.width <= 0x2_0000_0000
        &&& -0x2_0000_0000 <= self.height <= 0x2_0000_0000
    }
}

/// The left and the right half of a frame of even width: both as high as the
/// frame and half as wide, the right one beginning where the left one ends.
fn split_horizontal(frame: Rect) -> (halves: (Rect, Rect))
    requires
        frame.is_bounded(),
        frame.width % 2 == 0,
    ensures
        halves.0 == (Rect { width: (frame.width / 2) as i64, ..frame }),
        halves.1 == (Rect {
            x: (frame.x + frame.width / 2) as i64,
            width: (frame.width / 2) as i64,
            ..frame
        }),
{
    let half_width: i64 = frame.width / 2;
    let left = Rect { x: frame.x, y: frame.y, width: half_width, height: frame.height };
    let right = Rect {
        x: frame.x + half_width,
        y: frame.y,
        width: half_width,
        height: frame.height,
    };
    (left, right)
}

/// A rectangle made smaller by a margin on each side.
fn inset(rect: Rect, left: i64, right: i64, top: i64, bottom: i64) -> (inner: Rect)
    requires
        rect.is_bounded(),
        0 <= left <= 0x100,
        0 <= right <= 0x100,
        0 <= top <= 0x100,
        0 <= bottom <= 0x100,
    ensures
        inner == (Rect {
            x: (rect.x + left) as i64,
            y: (rect.y + top) as i64,
            width: (rect.width - (left + right)) as i64,
            height: (rect.height - (top + bottom)) as i64,
        }),
{
    Rect {
        x: rect.x + left,
        y: rect.y + top,
        width: rect.width - (left + right),
        height: rect.height - (top + bottom),
    }
}

/// The part of a screen below the notch, in half points.
pub open spec fn usable_frame(screen: ScreenFrame) -> Rect {
    Rect {
        x: (2 * screen.x) as i64,
        y: (2 * screen.y + NOTCH_HEIGHT) as i64,
        width: (2 * screen.width) as i64,
        height: (2 * screen.height - NOTCH_HEIGHT) as i64,
    }
}

/// The rectangle of a preset on a screen. Every preset leaves the insets
/// free at the screen's edges; the left and the right one each take half of
/// the usable width and leave half of the inner spacing free where they meet.
pub open spec fn preset_frame(screen: ScreenFrame, preset: LayoutPreset) -> Rect {
    let usable = usable_frame(screen);
    let y = (usable.y + TOP_INSET) as i64;
    let height = (usable.height - TOP_INSET - BOTTOM_INSET) as i64;
    match preset {
        LayoutPreset::Full => Rect {
            x: (usable.x + LEFT_INSET) as i64,
            y,
            width: (usable.width - LEFT_INSET - RIGHT_INSET) as i64,
            height,
        },
        LayoutPreset::Left => Rect {
            x: (usable.x + LEFT_INSET) as i64,
            y,
            width: (screen.width - LEFT_INSET - INNER_SPACING / 2) as i64,
            height,
        },
        LayoutPreset::Right => Rect {
            x: (usable.x + screen.width + INNER_SPACING / 2) as i64,
            y,
            width: (screen.width - INNER_SPACING / 2 - RIGHT_INSET) as i64,
            height,
        },
    }
}

/// The rectangles of the three presets on a screen.
pub fn preset_frames(screen: ScreenFrame) -> (frames: [Rect; 3])
    ensures
        frames[0] == preset_frame(screen, LayoutPreset::Full),
        frames[1] == preset_frame(screen, LayoutPreset::Left),
        frames[2] == preset_frame(screen, LayoutPreset::Right),
{
    let x: i64 = screen.x as i64;
    let y: i64 = screen.y as i64;
    let width: i64 = screen.width as i64;
    let height: i64 = screen.height as i64;
    let frame = Rect {
        x: UNITS_PER_POINT * x,
        y: UNITS_PER_POINT * y + NOTCH_HEIGHT,
        width: UNITS_PER_POINT * width,
        height: UNITS_PER_POINT * height - NOTCH_HEIGHT,
    };
    let (left_frame, right_frame) = split_horizontal(frame);
    [
        inset(frame, LEFT_INSET, RIGHT_INSET, TOP_INSET, BOTTOM_INSET),
        inset(left_frame, LEFT_INSET, INNER_SPACING / 2, TOP_INSET, BOTTOM_INSET),
        inset(right_frame, INNER_SPACING / 2, RIGHT_INSET, TOP_INSET, BOTTOM_INSET),
    ]
}

impl LayoutPresets {
    /// The handle of the encoded origin of a preset.
    pub open spec fn origin_of(&self, preset: LayoutPreset) -> usize {
        self.rects[preset.index_of()].origin@
    }

    /// The handle of the encoded size of a preset.
    pub open spec fn size_of(&self, preset: LayoutPreset) -> usize {
        self.rects[preset.index_of()].size@
    }

    /// The encoded rectangle of a preset.
    pub fn rect(&self, preset: LayoutPreset) -> (rect: &AXRect)
        ensures
            rect.origin@ == self.origin_of(preset),
            rect.size@ == self.size_of(preset),
    {
        &self.rects[preset.index()]
    }
}

impl Made {
    /// The handles of an encoded rectangle, if there is one.
    pub open spec fn handles_of(rect: Option<AXRect>) -> (Option<usize>, Option<usize>) {
        match rect {
            Some(rect) => (Some(rect.origin@), Some(rect.size@)),
            None => (None, None),
        }
    }

    /// What has been made when a value of the next preset fails.
    pub open spec fn of(origin: Option<Unique<AXValue>>, left: Option<AXRect>, full: Option<AXRect>)
        -> Made {
        Made {
            origin: match origin {
                Some(origin) => Some(origin@),
                None => None,
            },
            left_origin: Self::handles_of(left).0,
            left_size: Self::handles_of(left).1,
            full_origin: Self::handles_of(full).0,
            full_size: Self::handles_of(full).1,
        }
    }

    /// The next release and what is left after it: the newest value first.
    pub open spec fn next_release(self) -> Option<(usize, Made)> {
        if let Some(handle) = self.origin {
            Some((handle, Made { origin: None, ..self }))
        } else if let Some(handle) = self.left_size {
            Some((handle, Made { left_size: None, ..self }))
        } else if let Some(handle) = self.left_origin {
            Some((handle, Made { left_origin: None, ..self }))
        } else if let Some(handle) = self.full_size {
            Some((handle, Made { full_size: None, ..self }))
        } else if let Some(handle) = self.full_origin {
            Some((handle, Made { full_origin: None, ..self }))
        } else {
            None
        }
    }

    fn handles(rect: Option<AXRect>) -> (handles: (Option<usize>, Option<usize>))
        ensures
            handles == Self::handles_of(rect),
    {
        match rect {
            Some(rect) => (Some(rect.origin.get()), Some(rect.size.get())),
            None => (None, None),
        }
    }

    fn collect(origin: Option<Unique<AXValue>>, left: Option<AXRect>, full: Option<AXRect>) -> (made:
        Made)
        ensures
            made == Self::of(origin, left, full),
    {
        let (left_origin, left_size) = Self::handles(left);
        let (full_origin, full_size) = Self::handles(full);
        Made {
            origin: match origin {
                Some(origin) => Some(origin.get()),
                None => None,
            },
            left_size,
            left_origin,
            full_size,
            full_origin,
        }
    }

    fn pop(self) -> (next: Option<(usize, Made)>)
        ensures
            next == self.next_release(),
    {
        if let Some(handle) = self.origin {
            Some((handle, Made { origin: None, ..self }))
        } else if let Some(handle) = self.left_size {
            Some((handle, Made { left_size: None, ..self }))
        } else if let Some(handle) = self.left_origin {
            Some((handle, Made { left_origin: None, ..self }))
        } else if let Some(handle) = self.full_size {
            Some((handle, Made { full_size: None, ..self }))
        } else if let Some(handle) = self.full_origin {
            Some((handle, Made { full_origin: None, ..self }))
        } else {
            None
        }
    }
}

impl PresetEncoding {
    /// The frame to encode next.
    pub open spec fn frame_after(frames: [Rect; 3], full: Option<AXRect>, left: Option<AXRect>)
        -> Rect {
        if full is None {
            frames[0]
        } else if left is None {
            frames[1]
        } else {
            frames[2]
        }
    }

    /// Releases what was made, newest first, and then fails.
    pub open spec fn unwind(made: Made) -> Progress<
        PresetEncoding,
        Result<LayoutPresets, UnnamedError>,
    > {
        match made.next_release() {
            Some((handle, rest)) => Progress::Pending(
                PresetEncoding::Unwinding { made: rest },
                ForeignCall::Release { handle },
            ),
            None => Progress::Finished(Err(UnnamedError::CouldNotCreateCFObject)),
        }
    }

    /// The first step: the call that asks for the main screen's frame.
    pub open spec fn first_step() -> Progress<
        PresetEncoding,
        Result<LayoutPresets, UnnamedError>,
    > {
        Progress::Pending(PresetEncoding::Screen, ForeignCall::MainScreenFrame)
    }

    /// The step after a reply. The screen's frame gives the rectangles of
    /// [`preset_frame`]; each is encoded as an origin and a size. Once all
    /// six values are made the procedure ends with them. If the runtime
    /// makes none where one is asked for, the values made so far are
    /// released, newest first, and the procedure fails.
    pub open spec fn next_step(self, reply: ForeignReply) -> Progress<
        PresetEncoding,
        Result<LayoutPresets, UnnamedError>,
    > {
        match self {
            PresetEncoding::Screen => {
                let frames = [
                    preset_frame(reply.frame, LayoutPreset::Full),
                    preset_frame(reply.frame, LayoutPreset::Left),
                    preset_frame(reply.frame, LayoutPreset::Right),
                ];
                Progress::Pending(
                    PresetEncoding::Origin { frames, full: None, left: None },
                    ForeignCall::CreatePoint { x: frames[0].x, y: frames[0].y },
                )
            },
            PresetEncoding::Origin { frames, full, left } => if reply.handle == 0 {
                Self::unwind(Made::of(None, left, full))
            } else {
                Progress::Pending(
                    PresetEncoding::Size {
                        frames,
                        full,
                        left,
                        origin: Unique::adopted(reply.handle),
                    },
                    ForeignCall::CreateSize {
                        width: Self::frame_after(frames, full, left).width,
                        height: Self::frame_after(frames, full, left).height,
                    },
                )
            },
            PresetEncoding::Size { frames, full, left, origin } => if reply.handle == 0 {
                Self::unwind(Made::of(Some(origin), left, full))
            } else {
                let rect = AXRect { origin, size: Unique::adopted(reply.handle) };
                match (full, left) {
                    (None, left) => Progress::Pending(
                        PresetEncoding::Origin { frames, full: Some(rect), left },
                        ForeignCall::CreatePoint {
                            x: Self::frame_after(frames, Some(rect), left).x,
                            y: Self::frame_after(frames, Some(rect), left).y,
                        },
                    ),
                    (Some(full), None) => Progress::Pending(
                        PresetEncoding::Origin { frames, full: Some(full), left: Some(rect) },
                        ForeignCall::CreatePoint { x: frames[2].x, y: frames[2].y },
                    ),
                    (Some(full), Some(left)) => Progress::Finished(
                        Ok(LayoutPresets { rects: [full, left, rect] }),
                    ),
                }
            },
            PresetEncoding::Unwinding { made } => Self::unwind(made),
        }
    }

    fn release_all(made: Made) -> (progress: Progress<
        PresetEncoding,
        Result<LayoutPresets, UnnamedError>,
    >)
        ensures
            progress == Self::unwind(made),
    {
        match made.pop() {
            Some((handle, rest)) => Progress::Pending(
                PresetEncoding::Unwinding { made: rest },
                ForeignCall::Release { handle },
            ),
            None => Progress::Finished(Err(UnnamedError::CouldNotCreateCFObject)),
        }
    }
}

impl Procedure for PresetEncoding {
    type Output = Result<LayoutPresets, UnnamedError>;

    open spec fn steps_to(self, reply: ForeignReply, progress: Progress<Self, Self::Output>)
        -> bool {
        progress == self.next_step(reply)
    }

    fn resume(self, reply: ForeignReply) -> (progress: Progress<Self, Self::Output>) {
        match self {
            PresetEncoding::Screen => {
                let frames = preset_frames(reply.frame);
                let call = ForeignCall::CreatePoint { x: frames[0].x, y: frames[0].y };
                proof {
                    let expected = [
                        preset_frame(reply.frame, LayoutPreset::Full),
                        preset_frame(reply.frame, LayoutPreset::Left),
                        preset_frame(reply.frame, LayoutPreset::Right),
                    ];
                    assert(frames =~= expected);
                }
                Progress::Pending(PresetEncoding::Origin { frames, full: None, left: None }, call)
            },
            PresetEncoding::Origin { frames, full, left } => match Unique::new_mut(reply.handle) {
                None => Self::release_all(Made::collect(None, left, full)),
                Some(origin) => {
                    let frame = if full.is_none() {
                        frames[0]
                    } else if left.is_none() {
                        frames[1]
                    } else {
                        frames[2]
                    };
                    Progress::Pending(
                        PresetEncoding::Size { frames, full, left, origin },
                        ForeignCall::CreateSize { width: frame.width, height: frame.height },
                    )
                },
            },
            PresetEncoding::Size { frames, full, left, origin } => match Unique::new_mut(
                reply.handle,
            ) {
                None => Self::release_all(Made::collect(Some(origin), left, full)),
                Some(size) => {
                    let rect = AXRect { origin, size };
                    match (full, left) {
                        (None, left) => {
                            let frame = if left.is_none() {
                                frames[1]
                            } else {
                                frames[2]
                            };
                            Progress::Pending(
                                PresetEncoding::Origin { frames, full: Some(rect), left },
                                ForeignCall::CreatePoint { x: frame.x, y: frame.y },
                            )
                        },
                        (Some(full), None) => Progress::Pending(
                            PresetEncoding::Origin { frames, full: Some(full), left: Some(rect) },
                            ForeignCall::CreatePoint { x: frames[2].x, y: frames[2].y },
                        ),
                        (Some(full), Some(left)) => Progress::Finished(
                            Ok(LayoutPresets { rects: [full, left, rect] }),
                        ),
                    }
                },
            },
            PresetEncoding::Unwinding { made } => Self::release_all(made),
        }
    }
}

/// Begins encoding the presets of the main screen.
pub fn get_layout_presets() -> (progress: Progress<
    PresetEncoding,
    Result<LayoutPresets, UnnamedError>,
>)
    ensures
        progress == PresetEncoding::first_step(),
{
    Progress::Pending(PresetEncoding::Screen, ForeignCall::MainScreenFrame)
}

} // verus!
