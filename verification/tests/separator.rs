use orzma::separator::{
    drive_grab, grab_cursor, left_button_edges, retire_grab, start_grab, SeparatorHit, SplitId,
    SplitOrientation, SplitResize,
};
use orzma::terminal::{ButtonState, MouseButton, MouseButtonInput};

type Pos = (f32, f32);

const SEPARATOR: u64 = 9;

fn hit() -> Option<SeparatorHit> {
    Some(SeparatorHit { entity: SEPARATOR, split: SplitId(1), orientation: SplitOrientation::Vertical })
}

fn left(state: ButtonState) -> MouseButtonInput {
    MouseButtonInput { button: MouseButton::Left, state }
}

#[test]
fn left_edges_see_both_halves_of_a_same_frame_click() {
    assert_eq!(left_button_edges(&vec![left(ButtonState::Pressed)]), (true, false));
    assert_eq!(left_button_edges(&vec![left(ButtonState::Pressed), left(ButtonState::Released)]), (true, true));
    let right = MouseButtonInput { button: MouseButton::Right, state: ButtonState::Pressed };
    assert_eq!(left_button_edges(&vec![right]), (false, false));
    assert_eq!(left_button_edges(&vec![]), (false, false));
}

#[test]
fn a_drag_requests_one_move_per_boundary_and_retires_on_release() {
    // The press seeds the grab at the boundary under the cursor (39).
    let (entity, grab) = start_grab(true, true, Some((640.0, 400.0)), hit(), Some(39), false).expect("the press grabs the divider");
    assert_eq!(entity, SEPARATOR);
    let (grab, request) = drive_grab(&grab, (640.0, 400.0), Some(39), false, true);
    assert!(request.is_none(), "an unmoved grab requests nothing");
    let (grab, request) = drive_grab(&grab, (672.0, 400.0), Some(41), false, true);
    assert_eq!(request, Some(SplitResize { split: SplitId(1), position: 41 }));
    let (grab, request) = drive_grab(&grab, (676.0, 400.0), Some(41), false, true);
    assert!(request.is_none(), "jiggling inside the boundary requests nothing");
    assert!(!retire_grab(&grab));
    let (grab, _) = drive_grab(&grab, (676.0, 400.0), Some(41), true, true);
    assert!(retire_grab(&grab), "the release retires the grab");
}

#[test]
fn a_drag_continues_after_the_cursor_leaves_the_window() {
    let (_, grab) = start_grab(true, true, Some((320.0, 200.0)), hit(), Some(40), false).unwrap();
    let (grab, _) = drive_grab(&grab, (900.0, 200.0), Some(112), false, true);
    // Off-window no cursor is reported: the grab goes on from the last one.
    let cursor: Pos = grab_cursor(&grab, None);
    assert_eq!(cursor, (900.0, 200.0));
    assert!(!retire_grab(&grab));
    assert_eq!(grab.last_sent, 112);
}

#[test]
fn a_reported_cursor_is_scaled_to_physical_px() {
    let (_, grab) = start_grab(true, true, Some((640.0, 400.0)), hit(), Some(80), false).unwrap();
    // The cursor handed in is the reported one, already in physical px.
    let reported: Pos = (3600.0, 800.0);
    assert_eq!(grab_cursor(&grab, Some(reported)), reported);
    let (_, request) = drive_grab(&grab, reported, Some(112), false, true);
    assert_eq!(request, Some(SplitResize { split: SplitId(1), position: 112 }));
}

#[test]
fn a_press_and_release_in_one_frame_retires_the_grab() {
    let (pressed, released) = left_button_edges(&vec![left(ButtonState::Pressed), left(ButtonState::Released)]);
    let (_, grab) = start_grab(pressed, true, Some((320.0, 200.0)), hit(), Some(40), released).unwrap();
    assert!(retire_grab(&grab));
}

#[test]
fn losing_window_focus_retires_the_grab() {
    let (_, grab) = start_grab(true, true, Some((320.0, 200.0)), hit(), Some(40), false).unwrap();
    let (grab, _) = drive_grab(&grab, (320.0, 200.0), Some(40), false, false);
    assert!(retire_grab(&grab));
}

#[test]
fn a_grabbed_press_reaches_no_neighbouring_pane() {
    // A grab starts only from a divider hit; a press elsewhere seeds nothing
    // and is left to the panes.
    assert!(start_grab::<Pos>(true, true, Some((100.0, 100.0)), None, Some(40), false).is_none());
    assert!(start_grab::<Pos>(true, true, Some((320.0, 200.0)), hit(), Some(40), false).is_some());
}

#[test]
fn an_ungrabbed_press_still_reaches_the_dispatcher() {
    assert!(start_grab::<Pos>(false, true, Some((320.0, 200.0)), hit(), Some(40), false).is_none());
    assert!(start_grab::<Pos>(true, false, Some((320.0, 200.0)), hit(), Some(40), false).is_none());
    assert!(start_grab::<Pos>(true, true, None, hit(), Some(40), false).is_none());
    assert!(start_grab::<Pos>(true, true, Some((320.0, 200.0)), hit(), None, false).is_none());
}

use orzma::pointer::{pointer_frame, PointerFrame};
use orzma::webview_route::{enter_pointer_frame, WebviewPointer};

#[test]
fn a_same_frame_click_on_a_divider_leaves_the_neighbour_alone() {
    let (pressed, released) = left_button_edges(&vec![left(ButtonState::Pressed), left(ButtonState::Released)]);
    let grab = start_grab::<Pos>(pressed, true, Some((320.0, 200.0)), hit(), Some(40), released);
    assert!(grab.is_some(), "the click is the divider's");
    assert_eq!(
        pointer_frame(true, true, true, false, true),
        PointerFrame::DrainForGrab,
        "while the grab holds the mouse the dispatcher drains the click, so no later frame replays it"
    );
    assert!(retire_grab(&grab.unwrap().1), "the grab ends with the frame");
}

#[test]
fn a_whole_divider_drag_presses_no_pane() {
    let (_, grab) = start_grab(true, true, Some((320.0, 200.0)), hit(), Some(40), false).unwrap();
    let (grab, _) = drive_grab(&grab, (336.0, 200.0), Some(41), false, true);
    assert_eq!(pointer_frame(true, true, true, false, true), PointerFrame::DrainForGrab);
    let (grab, _) = drive_grab(&grab, (336.0, 200.0), Some(41), true, true);
    assert!(retire_grab(&grab));
    assert_eq!(pointer_frame(false, true, true, false, true), PointerFrame::Dispatch, "after the grab the dispatcher runs again");
}

#[test]
fn a_grabbed_press_does_not_reach_the_webview_router() {
    // The webview router does not run while a grab holds the mouse, so an
    // in-flight press stays recorded.
    let s = WebviewPointer { press: Some(7), focused: Some(7) };
    assert_eq!(pointer_frame(true, true, true, false, true), PointerFrame::DrainForGrab);
    assert_eq!(s.press, Some(7));
    // Once routing runs again the press is still there to be released.
    let mut s2 = s;
    let (go, _) = enter_pointer_frame::<Pos>(&mut s2, true, true, false, None);
    assert!(go);
    assert_eq!(s2.press, Some(7));
}

#[test]
fn an_unusable_frame_abandons_the_held_gesture() {
    assert_eq!(pointer_frame(false, false, true, true, true), PointerFrame::Abandon);
    assert_eq!(pointer_frame(false, true, false, false, true), PointerFrame::Abandon);
    assert_eq!(pointer_frame(false, true, true, false, false), PointerFrame::Abandon);
    assert_eq!(pointer_frame(false, true, false, true, true), PointerFrame::Dispatch, "a held gesture keeps a frame with no candidate");
}
