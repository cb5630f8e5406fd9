//! The editing session: the control points being authored, the selection among them,
//! and the two press-and-release gestures that add and move points.
//!
//! The session is driven by plain events. Where a gesture needs a viewport position
//! turned into a world position, the handler hands the position out and the host hands
//! the world position back: the session itself only ever stores and places positions.

use vstd::prelude::*;
use bevy::math::Vec2;
use crate::bounds::bounds_of;
use crate::bounds::HALF_WIDTH;
use crate::curve::fitted;
use crate::curve::positions_fit;
use crate::curve::Curve;
use crate::curve::Curves;
use crate::ring::surface_size;
use crate::ring::track_surface;
use crate::ring::RingMesh;
use crate::selection::advance;
use crate::selection::advanced;
use crate::selection::retreat;
use crate::selection::retreated;
use crate::selection::selects_within;
use crate::track::copy_points;
use crate::track::seed_path;
use crate::track::seed_points;
use crate::track::RaceTrack;

verus! {

/// The number of samples taken per curve segment while a track is edited.
pub const EDITOR_RESOLUTION: usize = 100;

/// The name under which the editor saves its track.
pub const SAVED_TRACK_NAME: &'static str = "Test Track";

/// The control points of the track being edited, and the selected one.
#[derive(Debug)]
pub struct ControlPoints {
    /// The control points, in loop order.
    pub points: Vec<Vec2>,
    /// The index of the selected control point, if one is selected.
    pub selected: Option<usize>,
}

/// What an editing session holds, as mathematical values.
pub struct ControlPointsView {
    /// The control points, in loop order.
    pub points: Seq<Vec2>,
    /// The index of the selected control point, if one is selected.
    pub selected: Option<usize>,
}

impl View for ControlPoints {
    type V = ControlPointsView;

    open spec fn view(&self) -> ControlPointsView {
        ControlPointsView { points: self.points@, selected: self.selected }
    }
}

impl ControlPointsView {
    /// The index invariant: a selection always points at one of the control points.
    pub open spec fn wf(self) -> bool {
        selects_within(self.selected, self.points.len())
    }

    /// With `point` appended. The selection stays.
    pub open spec fn with_point(self, point: Vec2) -> ControlPointsView {
        ControlPointsView { points: self.points.push(point), selected: self.selected }
    }

    /// With the selected point moved to `point`. Without a selection nothing changes.
    pub open spec fn with_selected_at(self, point: Vec2) -> ControlPointsView {
        match self.selected {
            Some(i) if i < self.points.len() => ControlPointsView {
                points: self.points.update(i as int, point),
                selected: self.selected,
            },
            _ => self,
        }
    }

    /// After a deletion: the selected point is removed, or the last point where none is
    /// selected; nothing is selected afterwards.
    pub open spec fn with_removal(self) -> ControlPointsView {
        match self.selected {
            Some(i) => ControlPointsView { points: self.points.remove(i as int), selected: None },
            None => ControlPointsView {
                points: if self.points.len() > 0 {
                    self.points.drop_last()
                } else {
                    self.points
                },
                selected: None,
            },
        }
    }

    /// With the selection stepped one point backwards.
    pub open spec fn with_previous_selected(self) -> ControlPointsView {
        ControlPointsView {
            points: self.points,
            selected: retreated(self.selected, self.points.len()),
        }
    }

    /// With the selection stepped one point forwards.
    pub open spec fn with_next_selected(self) -> ControlPointsView {
        ControlPointsView {
            points: self.points,
            selected: advanced(self.selected, self.points.len()),
        }
    }

    /// With the point list replaced by `points`. The selection stays where it still
    /// points at one of them, and is cleared where it does not.
    pub open spec fn with_points(self, points: Seq<Vec2>) -> ControlPointsView {
        ControlPointsView {
            points,
            selected: match self.selected {
                Some(i) if i < points.len() => self.selected,
                _ => None,
            },
        }
    }
}

impl Default for ControlPoints {
    /// The seed path, with nothing selected.
    fn default() -> (control_points: ControlPoints)
        ensures
            control_points@.points == seed_path(),
            control_points@.selected.is_none(),
    {
        ControlPoints { points: seed_points(), selected: None }
    }
}

impl ControlPoints {
    /// The index invariant: a selection always points at one of the control points.
    pub open spec fn wf(&self) -> bool {
        self@.wf()
    }

    /// A session over `points` with nothing selected.
    pub fn new(points: Vec<Vec2>) -> (control_points: ControlPoints)
        ensures
            control_points.points == points,
            control_points.selected.is_none(),
            control_points.wf(),
    {
        ControlPoints { points, selected: None }
    }

    /// Whether the index invariant holds.
    pub fn is_well_formed(&self) -> (ok: bool)
        ensures
            ok == self.wf(),
    {
        match self.selected {
            None => true,
            Some(i) => i < self.points.len(),
        }
    }

    /// Appends `point` to the control points.
    pub fn add_point(&mut self, point: Vec2)
        ensures
            final(self)@ == old(self)@.with_point(point),
            old(self).wf() ==> final(self).wf(),
    {
        self.points.push(point);
    }

    /// Moves the selected point to `point`, and says whether a point was moved.
    pub fn move_selected(&mut self, point: Vec2) -> (moved: bool)
        ensures
            final(self)@ == old(self)@.with_selected_at(point),
            moved == (old(self).selected matches Some(i) && i < old(self).points@.len()),
            !moved ==> *final(self) == *old(self),
            old(self).wf() ==> final(self).wf(),
    {
        match self.selected {
            None => false,
            Some(index) => {
                if index < self.points.len() {
                    self.points[index] = point;
                    true
                } else {
                    false
                }
            },
        }
    }

    /// Deletes the selected point and clears the selection; where nothing is selected,
    /// deletes the last point. Says whether a point was deleted.
    pub fn remove_point(&mut self) -> (removed: bool)
        requires
            old(self).wf(),
        ensures
            final(self)@ == old(self)@.with_removal(),
            removed == (old(self).points@.len() > 0),
            !removed ==> final(self).points@ == old(self).points@,
            final(self).wf(),
    {
        match self.selected {
            Some(index) => {
                self.points.remove(index);
                self.selected = None;
                true
            },
            None => {
                match self.points.pop() {
                    Some(_) => true,
                    None => false,
                }
            },
        }
    }

    /// Steps the selection one point backwards, round the start to the last point.
    /// Without a selection the first point is selected. Without points nothing is.
    pub fn select_previous(&mut self)
        requires
            old(self).wf(),
        ensures
            final(self)@ == old(self)@.with_previous_selected(),
            final(self).points == old(self).points,
            final(self).wf(),
    {
        self.selected = retreat(self.selected, self.points.len());
    }

    /// Steps the selection one point forwards, round the end to the first point.
    /// Without a selection the first point is selected. Without points nothing is.
    pub fn select_next(&mut self)
        requires
            old(self).wf(),
        ensures
            final(self)@ == old(self)@.with_next_selected(),
            final(self).points == old(self).points,
            final(self).wf(),
    {
        self.selected = advance(self.selected, self.points.len());
    }

    /// Replaces the control points by `points`, as after loading a track. A selection
    /// that points at none of the new points is cleared.
    pub fn replace_points(&mut self, points: Vec<Vec2>)
        ensures
            final(self)@ == old(self)@.with_points(points@),
            final(self).points == points,
            final(self).wf(),
    {
        let keep = match self.selected {
            None => false,
            Some(index) => index < points.len(),
        };
        if !keep {
            self.selected = None;
        }
        self.points = points;
    }

    /// The track to save for this session: the control points under the name
    /// [`SAVED_TRACK_NAME`].
    pub fn to_track(&self) -> (track: RaceTrack)
        ensures
            track.track_name@ == SAVED_TRACK_NAME@,
            track.points@ == self.points@,
    {
        RaceTrack {
            track_name: SAVED_TRACK_NAME.to_owned(),
            points: copy_points(self.points.as_slice()),
        }
    }

    /// Fits the closed curve through the control points. Fewer than two points have
    /// none.
    pub fn form_curve(&self) -> (curves: Curves)
        ensures
            curves.0 == fitted(self.points@),
            curves.0.is_some() <==> self.points@.len() >= 2,
            curves.0 matches Some(c) ==> c.spec_segment_count() == self.points@.len(),
    {
        Curves(Curve::fit(self.points.as_slice()))
    }
}

/// A command from the keyboard.
#[derive(Clone, Copy, Debug, PartialEq, Eq)]
pub enum EditorKey {
    /// Delete the selected control point, or the last one.
    Remove,
    /// Save the track.
    Save,
    /// Load the saved track.
    Load,
    /// Select the previous control point.
    SelectPrevious,
    /// Select the next control point.
    SelectNext,
}

/// What the host has to do after a keyboard command.
#[derive(Debug)]
pub enum KeyAction {
    /// Nothing.
    Nothing,
    /// Write this track to the track file.
    Save(RaceTrack),
    /// Read the track file and hand its points to [`ControlPoints::replace_points`].
    Load,
}

impl KeyAction {
    /// Whether the action is to save the control points `points` under the name
    /// [`SAVED_TRACK_NAME`].
    pub open spec fn saves(self, points: Seq<Vec2>) -> bool {
        self matches KeyAction::Save(track) && track.track_name@ == SAVED_TRACK_NAME@
            && track.points@ == points
    }
}

/// The outcome of a keyboard command.
#[derive(Debug)]
pub struct KeyOutcome {
    /// Whether the list of control points changed.
    pub points_changed: bool,
    /// What is left for the host to do.
    pub action: KeyAction,
}

/// The session after the keyboard command `key`.
pub open spec fn key_effect(before: ControlPointsView, key: EditorKey) -> ControlPointsView {
    match key {
        EditorKey::Remove => before.with_removal(),
        EditorKey::Save => before,
        EditorKey::Load => before,
        EditorKey::SelectPrevious => before.with_previous_selected(),
        EditorKey::SelectNext => before.with_next_selected(),
    }
}

/// Applies one keyboard command to the session, and says what is left for the host.
pub fn handle_keypress(control_points: &mut ControlPoints, key: EditorKey) -> (outcome: KeyOutcome)
    requires
        old(control_points).wf(),
    ensures
        final(control_points)@ == key_effect(old(control_points)@, key),
        final(control_points).wf(),
        outcome.points_changed == (key == EditorKey::Remove
            && old(control_points).points@.len() > 0),
        !outcome.points_changed ==> final(control_points).points@ == old(control_points).points@,
        key == EditorKey::Save ==> outcome.action.saves(old(control_points).points@),
        key == EditorKey::Load ==> outcome.action is Load,
        key != EditorKey::Save && key != EditorKey::Load ==> outcome.action is Nothing,
{
    match key {
        EditorKey::Remove => {
            let removed = control_points.remove_point();
            KeyOutcome { points_changed: removed, action: KeyAction::Nothing }
        },
        EditorKey::Save => KeyOutcome {
            points_changed: false,
            action: KeyAction::Save(control_points.to_track()),
        },
        EditorKey::Load => KeyOutcome { points_changed: false, action: KeyAction::Load },
        EditorKey::SelectPrevious => {
            control_points.select_previous();
            KeyOutcome { points_changed: false, action: KeyAction::Nothing }
        },
        EditorKey::SelectNext => {
            control_points.select_next();
            KeyOutcome { points_changed: false, action: KeyAction::Nothing }
        },
    }
}

/// A mouse button, as far as the editor tells them apart.
#[derive(Clone, Copy, Debug, PartialEq, Eq)]
pub enum MouseButton {
    /// The primary button, which adds points.
    Left,
    /// The secondary button, which moves the selected point.
    Right,
    /// Any other button.
    Other,
}

/// Whether a button went down or came up.
#[derive(Clone, Copy, Debug, PartialEq, Eq)]
pub enum ButtonState {
    /// The button went down.
    Pressed,
    /// The button came up.
    Released,
}

/// A press-and-release gesture.
#[derive(Clone, Copy, Debug)]
pub enum Gesture {
    /// No button is held.
    Idle,
    /// The button went down at this viewport position and is still held.
    Pressed(Vec2),
}

impl Default for Gesture {
    /// No button is held.
    fn default() -> (gesture: Gesture)
        ensures
            gesture is Idle,
    {
        Gesture::Idle
    }
}

impl Gesture {
    /// The gesture after a press at `at`: a press starts an idle gesture and leaves a
    /// started one as it is.
    pub open spec fn pressed_at(self, at: Vec2) -> Gesture {
        match self {
            Gesture::Idle => Gesture::Pressed(at),
            Gesture::Pressed(_) => self,
        }
    }

    /// Where the gesture started, if it has.
    pub open spec fn spec_start(self) -> Option<Vec2> {
        match self {
            Gesture::Idle => None,
            Gesture::Pressed(start) => Some(start),
        }
    }

    /// Takes a press at `at`.
    pub fn press(&mut self, at: Vec2)
        ensures
            *final(self) == old(self).pressed_at(at),
    {
        match self {
            Gesture::Idle => {
                *self = Gesture::Pressed(at);
            },
            Gesture::Pressed(_) => {},
        }
    }

    /// Where the gesture started, if it has.
    pub fn start(&self) -> (start: Option<Vec2>)
        ensures
            start == self.spec_start(),
    {
        match self {
            Gesture::Idle => None,
            Gesture::Pressed(start) => Some(*start),
        }
    }
}

/// The latest known position of the cursor, in viewport coordinates.
#[derive(Clone, Copy, Debug)]
pub struct MousePosition(pub Option<Vec2>);

impl Default for MousePosition {
    /// No position is known.
    fn default() -> (position: MousePosition)
        ensures
            position.0.is_none(),
    {
        MousePosition(None)
    }
}

/// Records the last cursor position of a batch of cursor events; an empty batch leaves
/// the known position as it is.
pub fn handle_mouse_move(mouse_position: &mut MousePosition, last: Option<Vec2>)
    ensures
        final(mouse_position).0 == if last.is_some() {
            last
        } else {
            old(mouse_position).0
        },
{
    match last {
        Some(position) => {
            mouse_position.0 = Some(position);
        },
        None => {},
    }
}

/// The two gestures after a button event, and the viewport position that has to be
/// turned into a world position to finish a release, if the event is one.
///
/// Without a known cursor position every event is ignored. The primary button drives
/// the add gesture: a press starts it, and a release asks for the position where it
/// started. The secondary button drives the move gesture, and only while a point is
/// selected: a press starts it, and a release asks for the position of the release.
pub open spec fn press_effect(
    button: MouseButton,
    state: ButtonState,
    mouse: Option<Vec2>,
    add: Gesture,
    shift: Gesture,
    selected: Option<usize>,
) -> (Gesture, Gesture, Option<Vec2>) {
    match mouse {
        None => (add, shift, None),
        Some(at) => match (button, state) {
            (MouseButton::Left, ButtonState::Pressed) => (add.pressed_at(at), shift, None),
            (MouseButton::Left, ButtonState::Released) => (add, shift, add.spec_start()),
            (MouseButton::Right, ButtonState::Pressed) => {
                if selected.is_some() {
                    (add, shift.pressed_at(at), None)
                } else {
                    (add, shift, None)
                }
            },
            (MouseButton::Right, ButtonState::Released) => {
                if selected.is_some() && shift is Pressed {
                    (add, shift, Some(at))
                } else {
                    (add, shift, None)
                }
            },
            (MouseButton::Other, _) => (add, shift, None),
        },
    }
}

/// Takes one button event. Returns the viewport position to convert where the event is
/// a release that can finish a gesture; the host converts it and calls
/// [`finish_release`].
pub fn handle_mouse_press(
    button: MouseButton,
    state: ButtonState,
    mouse_position: &MousePosition,
    edit_move: &mut Gesture,
    move_move: &mut Gesture,
    control_points: &ControlPoints,
) -> (locate: Option<Vec2>)
    ensures
        (*final(edit_move), *final(move_move), locate) == press_effect(
            button,
            state,
            mouse_position.0,
            *old(edit_move),
            *old(move_move),
            control_points.selected,
        ),
{
    let at = match mouse_position.0 {
        None => {
            return None;
        },
        Some(at) => at,
    };
    match button {
        MouseButton::Left => match state {
            ButtonState::Pressed => {
                edit_move.press(at);
                None
            },
            ButtonState::Released => edit_move.start(),
        },
        MouseButton::Right => {
            if control_points.selected.is_none() {
                return None;
            }
            match state {
                ButtonState::Pressed => {
                    move_move.press(at);
                    None
                },
                ButtonState::Released => match move_move.start() {
                    None => None,
                    Some(_) => Some(at),
                },
            }
        },
        MouseButton::Other => None,
    }
}

/// The gestures and the session after a release whose position came back as `world`.
///
/// A position that could not be converted changes nothing: the gesture stays started.
/// The add gesture, if started, appends the position and ends. The move gesture, if
/// started while a point is selected, moves that point to the position and ends.
pub open spec fn release_effect(
    button: MouseButton,
    world: Option<Vec2>,
    add: Gesture,
    shift: Gesture,
    before: ControlPointsView,
) -> (Gesture, Gesture, ControlPointsView) {
    match world {
        None => (add, shift, before),
        Some(point) => match button {
            MouseButton::Left => {
                if add is Pressed {
                    (Gesture::Idle, shift, before.with_point(point))
                } else {
                    (add, shift, before)
                }
            },
            MouseButton::Right => {
                if shift is Pressed && before.selected.is_some() && before.wf() {
                    (add, Gesture::Idle, before.with_selected_at(point))
                } else {
                    (add, shift, before)
                }
            },
            MouseButton::Other => (add, shift, before),
        },
    }
}

/// Finishes a release with the world position that the host converted. Says whether the
/// list of control points changed.
pub fn finish_release(
    button: MouseButton,
    world: Option<Vec2>,
    edit_move: &mut Gesture,
    move_move: &mut Gesture,
    control_points: &mut ControlPoints,
) -> (points_changed: bool)
    ensures
        (*final(edit_move), *final(move_move), final(control_points)@) == release_effect(
            button,
            world,
            *old(edit_move),
            *old(move_move),
            old(control_points)@,
        ),
        !points_changed ==> *final(control_points) == *old(control_points),
        points_changed ==> world.is_some() && button != MouseButton::Other,
        old(control_points).wf() ==> final(control_points).wf(),
{
    let point = match world {
        None => {
            return false;
        },
        Some(point) => point,
    };
    match button {
        MouseButton::Left => match edit_move.start() {
            None => false,
            Some(_) => {
                control_points.add_point(point);
                *edit_move = Gesture::Idle;
                true
            },
        },
        MouseButton::Right => match move_move.start() {
            None => false,
            Some(_) => {
                if control_points.move_selected(point) {
                    *move_move = Gesture::Idle;
                    true
                } else {
                    false
                }
            },
        },
        MouseButton::Other => false,
    }
}

/// Brings the displayed curve and the track surface up to date with the control
/// points. Nothing is done unless the points changed since the last time; then the
/// curve is fitted anew and the surface rebuilt from scratch, [`EDITOR_RESOLUTION`]
/// samples to each control point. Points without a curve leave no curve and an empty
/// surface.
pub fn update_curve(
    control_points: &ControlPoints,
    changed: bool,
    curve: &mut Curves,
    mesh: &mut RingMesh,
)
    requires
        positions_fit(EDITOR_RESOLUTION * control_points.points@.len() + 1),
    ensures
        !changed ==> *final(curve) == *old(curve) && *final(mesh) == *old(mesh),
        changed ==> final(curve).0 == fitted(control_points.points@),
        changed ==> final(mesh).parts@ == track_surface(
            control_points.points@,
            EDITOR_RESOLUTION as nat,
            HALF_WIDTH as int,
        ),
        changed ==> final(mesh).parts@.len() == surface_size(
            control_points.points@.len(),
            EDITOR_RESOLUTION as nat,
        ),
{
    if !changed {
        return;
    }
    *curve = control_points.form_curve();
    let bounds = bounds_of(curve.0.as_ref(), EDITOR_RESOLUTION, HALF_WIDTH);
    mesh.regenerate(bounds.as_slice());
}

} // verus!
