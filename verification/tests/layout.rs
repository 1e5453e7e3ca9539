use unnamed::foreign::{ForeignCall, ForeignReply, Procedure, Progress, ScreenFrame};
use unnamed::layout::{
    get_layout_presets, preset_frames, LayoutPreset, LayoutPresets, PresetEncoding, Rect,
    BOTTOM_INSET, INNER_SPACING, LEFT_INSET, NOTCH_HEIGHT, PRESET_COUNT, RIGHT_INSET, TOP_INSET,
    UNITS_PER_POINT,
};
use unnamed::UnnamedError;

fn screen(width: i32, height: i32) -> ScreenFrame {
    ScreenFrame { x: 0, y: 0, width, height }
}

/// Answers every call with the next handle, except the call whose number is
/// `fail_at`, which gets null.
fn encode(
    frame: ScreenFrame,
    fail_at: Option<usize>,
) -> (Result<LayoutPresets, UnnamedError>, Vec<ForeignCall>) {
    let mut calls = Vec::new();
    let mut next_handle = 0x100;
    let mut progress = get_layout_presets();
    loop {
        match progress {
            Progress::Finished(result) => return (result, calls),
            Progress::Pending(state, call) => {
                let reply = match &call {
                    ForeignCall::MainScreenFrame => ForeignReply::with_frame(frame),
                    ForeignCall::CreatePoint { .. } | ForeignCall::CreateSize { .. } => {
                        if fail_at == Some(calls.len()) {
                            ForeignReply::with_handle(0)
                        } else {
                            next_handle += 0x10;
                            ForeignReply::with_handle(next_handle)
                        }
                    }
                    _ => ForeignReply::nothing(),
                };
                calls.push(call);
                progress = state.resume(reply);
            }
        }
    }
}

#[test]
fn constants_are_the_insets_in_half_points() {
    assert_eq!(UNITS_PER_POINT, 2);
    assert_eq!(LEFT_INSET, 8 * 2);
    assert_eq!(RIGHT_INSET, 8 * 2);
    assert_eq!(TOP_INSET, 6 * 2);
    assert_eq!(BOTTOM_INSET, 8 * 2);
    assert_eq!(INNER_SPACING, 12 * 2);
    assert_eq!(NOTCH_HEIGHT, 40 * 2);
    assert_eq!(PRESET_COUNT, 3);
}

#[test]
fn presets_are_indexed_full_left_right() {
    assert_eq!(LayoutPreset::Full.index(), 0);
    assert_eq!(LayoutPreset::Left.index(), 1);
    assert_eq!(LayoutPreset::Right.index(), 2);
    assert_eq!(LayoutPreset::default(), LayoutPreset::Full);
}

#[test]
fn rect_from_points_doubles_every_length() {
    assert_eq!(Rect::from_points(8, 46, 1424, 846), Rect { x: 16, y: 92, width: 2848, height: 1692 });
    assert_eq!(Rect::from_points(-3, 0, 1, i32::MAX), Rect { x: -6, y: 0, width: 2, height: 4294967294 });
    assert_eq!(
        Rect::from_points(i32::MIN, 0, 0, 0),
        Rect { x: -4294967296, y: 0, width: 0, height: 0 }
    );
}

#[test]
fn full_preset_of_a_1440_by_900_screen() {
    let frames = preset_frames(screen(1440, 900));
    assert_eq!(frames[0], Rect::from_points(8, 46, 1424, 846));
}

#[test]
fn side_presets_of_a_1440_by_900_screen() {
    let frames = preset_frames(screen(1440, 900));
    assert_eq!(frames[1], Rect::from_points(8, 46, 706, 846));
    assert_eq!(frames[2], Rect::from_points(726, 46, 706, 846));
}

#[test]
fn side_presets_leave_the_inner_spacing_between_them() {
    let frames = preset_frames(screen(1440, 900));
    let left_edge = frames[1].x + frames[1].width;
    assert_eq!(frames[2].x - left_edge, INNER_SPACING);
    assert_eq!(frames[1].x, frames[0].x);
    assert_eq!(frames[2].x + frames[2].width, frames[0].x + frames[0].width);
}

#[test]
fn odd_width_is_split_in_exact_halves() {
    let frames = preset_frames(screen(1441, 900));
    // Half of 1441 points is 720.5 points: 1441 half points.
    assert_eq!(frames[1], Rect { x: 16, y: 92, width: 1441 - 16 - 12, height: 1692 });
    assert_eq!(frames[2], Rect { x: 1441 + 12, y: 92, width: 1441 - 12 - 16, height: 1692 });
}

#[test]
fn screen_origin_moves_every_preset() {
    let frames = preset_frames(ScreenFrame { x: 100, y: -50, width: 1000, height: 800 });
    assert_eq!(frames[0], Rect::from_points(108, -4, 984, 746));
    assert_eq!(frames[1], Rect::from_points(108, -4, 486, 746));
    assert_eq!(frames[2], Rect::from_points(606, -4, 486, 746));
}

#[test]
fn extreme_screens_do_not_overflow() {
    let frames = preset_frames(ScreenFrame {
        x: i32::MAX,
        y: i32::MAX,
        width: i32::MAX,
        height: i32::MAX,
    });
    assert_eq!(frames[2].x, 2 * (i32::MAX as i64) + (i32::MAX as i64) + 12);
    let frames = preset_frames(ScreenFrame {
        x: i32::MIN,
        y: i32::MIN,
        width: i32::MIN,
        height: i32::MIN,
    });
    assert_eq!(frames[0].width, 2 * (i32::MIN as i64) - 32);
    assert_eq!(frames[0].height, 2 * (i32::MIN as i64) - 80 - 28);
}

#[test]
fn presets_are_encoded_origin_then_size_in_order() {
    let (result, calls) = encode(screen(1440, 900), None);
    let presets = result.unwrap();
    assert_eq!(
        calls,
        vec![
            ForeignCall::MainScreenFrame,
            ForeignCall::CreatePoint { x: 16, y: 92 },
            ForeignCall::CreateSize { width: 2848, height: 1692 },
            ForeignCall::CreatePoint { x: 16, y: 92 },
            ForeignCall::CreateSize { width: 1412, height: 1692 },
            ForeignCall::CreatePoint { x: 1452, y: 92 },
            ForeignCall::CreateSize { width: 1412, height: 1692 },
        ]
    );
    assert_eq!(presets.rect(LayoutPreset::Full).origin.get(), 0x110);
    assert_eq!(presets.rect(LayoutPreset::Full).size.get(), 0x120);
    assert_eq!(presets.rect(LayoutPreset::Left).origin.get(), 0x130);
    assert_eq!(presets.rect(LayoutPreset::Left).size.get(), 0x140);
    assert_eq!(presets.rect(LayoutPreset::Right).origin.get(), 0x150);
    assert_eq!(presets.rect(LayoutPreset::Right).size.get(), 0x160);
}

#[test]
fn first_value_missing_fails_without_a_release() {
    let (result, calls) = encode(screen(1440, 900), Some(1));
    assert_eq!(result, Err(UnnamedError::CouldNotCreateCFObject));
    assert_eq!(calls.len(), 2);
}

#[test]
fn a_missing_value_releases_what_was_made_newest_first() {
    let (result, calls) = encode(screen(1440, 900), Some(6));
    assert_eq!(result, Err(UnnamedError::CouldNotCreateCFObject));
    assert_eq!(
        calls[7..],
        [
            ForeignCall::Release { handle: 0x150 },
            ForeignCall::Release { handle: 0x140 },
            ForeignCall::Release { handle: 0x130 },
            ForeignCall::Release { handle: 0x120 },
            ForeignCall::Release { handle: 0x110 },
        ]
    );
    let (result, calls) = encode(screen(1440, 900), Some(3));
    assert_eq!(result, Err(UnnamedError::CouldNotCreateCFObject));
    assert_eq!(
        calls[4..],
        [ForeignCall::Release { handle: 0x120 }, ForeignCall::Release { handle: 0x110 }]
    );
    let (result, calls) = encode(screen(1440, 900), Some(2));
    assert_eq!(result, Err(UnnamedError::CouldNotCreateCFObject));
    assert_eq!(calls[3..], [ForeignCall::Release { handle: 0x110 }]);
}

#[test]
fn encoding_begins_with_the_screen() {
    assert_eq!(
        get_layout_presets(),
        Progress::Pending(PresetEncoding::Screen, ForeignCall::MainScreenFrame)
    );
}
