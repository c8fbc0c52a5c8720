//! Events of the main window, their listeners, and the window's per-frame decisions.
//!
//! Drawing the panels, opening file dialogs and uploading textures belong to the
//! embedding application: each frame it reports what the user did in a [`FrameInput`],
//! and [`MainView::update`] answers with the new window state and the [`ViewAction`]s to
//! perform, in order.
use vstd::prelude::*;

verus! {

/// What the main window asks its listener to do.
#[derive(Clone, Copy, Debug, PartialEq, Eq, Structural)]
pub enum Event {
    DoRender,
    ImportObj,
    ImportScene,
}

/// Receives the main window's events.
pub trait ViewListener {
    fn handle_event(&mut self, event: Event);
}

/// A listener that ignores every event.
pub struct NullListener;

impl ViewListener for NullListener {
    fn handle_event(&mut self, _event: Event) {
    }
}

/// What the user did in one frame of the main window.
pub struct FrameInput {
    /// A finished render is waiting to be shown.
    pub render_output_ready: bool,
    /// "Toggle log-view" was clicked.
    pub toggle_log_clicked: bool,
    /// `Some` when "Import Obj" was clicked; inside it, the file that was picked, or
    /// `None` when the dialog was cancelled.
    pub obj_pick: Option<Option<String>>,
    /// `Some` when "Import Scene" was clicked; inside it, the picked file, if any.
    pub scene_pick: Option<Option<String>>,
    /// "Render" was clicked.
    pub render_clicked: bool,
    /// The field-of-view slider was moved.
    pub fov_changed: bool,
    /// The width field was edited to this value.
    pub width_edit: Option<u32>,
    /// The height field was edited to this value.
    pub height_edit: Option<u32>,
}

/// One thing the embedding application does for the main window.
#[derive(Debug)]
pub enum ViewAction {
    /// Hand this event to the listener.
    Notify(Event),
    /// Take the waiting render output and show it as the window's image.
    ShowRenderOutput,
    /// Hand this object file path to the render pipeline.
    SubmitObjPath(String),
    /// Hand this scene file path to the render pipeline.
    SubmitScenePath(String),
    /// Store the slider's field of view in the render pipeline.
    ApplyFov,
    /// Store this image width in the render pipeline.
    SetWidth(u32),
    /// Store this image height in the render pipeline.
    SetHeight(u32),
}

/// The main window's own state.
pub struct MainView {
    /// No frame has been shown yet.
    pub at_start: bool,
    /// The log view at the bottom is shown.
    pub bottom_visible: bool,
    /// The last object file that was picked.
    pub obj_path: Option<String>,
    /// The last scene file that was picked.
    pub scene_path: Option<String>,
}

/// The actions of the "Import Obj" button once the dialog has closed with `pick`.
pub open spec fn obj_pick_actions(pick: Option<String>) -> Seq<ViewAction> {
    match pick {
        Some(path) => seq![ViewAction::SubmitObjPath(path), ViewAction::Notify(Event::ImportObj)],
        None => seq![ViewAction::Notify(Event::ImportObj)],
    }
}

/// The actions of the "Import Scene" button once the dialog has closed with `pick`.
pub open spec fn scene_pick_actions(pick: Option<String>) -> Seq<ViewAction> {
    match pick {
        Some(path) => seq![
            ViewAction::SubmitScenePath(path),
            ViewAction::Notify(Event::ImportScene),
        ],
        None => seq![ViewAction::Notify(Event::ImportScene)],
    }
}

/// The single `action` when `cond` holds, else nothing.
pub open spec fn one_if(cond: bool, action: ViewAction) -> Seq<ViewAction> {
    if cond {
        seq![action]
    } else {
        Seq::empty()
    }
}

/// The actions of a clicked import button (`Some`), or nothing.
pub open spec fn obj_part(click: Option<Option<String>>) -> Seq<ViewAction> {
    match click {
        Some(pick) => obj_pick_actions(pick),
        None => Seq::empty(),
    }
}

/// The actions of a clicked scene import button (`Some`), or nothing.
pub open spec fn scene_part(click: Option<Option<String>>) -> Seq<ViewAction> {
    match click {
        Some(pick) => scene_pick_actions(pick),
        None => Seq::empty(),
    }
}

/// The actions of a moved field-of-view slider: store the value, then render again.
pub open spec fn fov_part(changed: bool) -> Seq<ViewAction> {
    if changed {
        seq![ViewAction::ApplyFov, ViewAction::Notify(Event::DoRender)]
    } else {
        Seq::empty()
    }
}

/// The action of an edited size field.
pub open spec fn width_part(edit: Option<u32>) -> Seq<ViewAction> {
    match edit {
        Some(w) => seq![ViewAction::SetWidth(w)],
        None => Seq::empty(),
    }
}

/// The action of an edited height field.
pub open spec fn height_part(edit: Option<u32>) -> Seq<ViewAction> {
    match edit {
        Some(h) => seq![ViewAction::SetHeight(h)],
        None => Seq::empty(),
    }
}

/// The actions of one frame, in the order the window performs them: the first render
/// of a new window, showing a finished render, the toolbar, then the side panel.
pub open spec fn frame_actions(at_start: bool, input: FrameInput) -> Seq<ViewAction> {
    one_if(at_start, ViewAction::Notify(Event::DoRender))
        + one_if(input.render_output_ready, ViewAction::ShowRenderOutput)
        + obj_part(input.obj_pick)
        + scene_part(input.scene_pick)
        + one_if(input.render_clicked, ViewAction::Notify(Event::DoRender))
        + fov_part(input.fov_changed)
        + width_part(input.width_edit)
        + height_part(input.height_edit)
}

proof fn lemma_concat_contains(a: Seq<ViewAction>, b: Seq<ViewAction>, x: ViewAction)
    ensures
        (a + b).contains(x) == (a.contains(x) || b.contains(x)),
{
    if a.contains(x) {
        let i = choose|i: int| 0 <= i < a.len() && a[i] == x;
        assert((a + b)[i] == x);
    }
    if b.contains(x) {
        let i = choose|i: int| 0 <= i < b.len() && b[i] == x;
        assert((a + b)[a.len() + i] == x);
    }
    if (a + b).contains(x) {
        let i = choose|i: int| 0 <= i < (a + b).len() && (a + b)[i] == x;
        if i < a.len() {
            assert(a[i] == x);
        } else {
            assert(b[i - a.len()] == x);
        }
    }
}

proof fn lemma_literal_contains(a: ViewAction, b: ViewAction, x: ViewAction)
    ensures
        seq![a].contains(x) == (a == x),
        seq![a, b].contains(x) == (a == x || b == x),
        !Seq::<ViewAction>::empty().contains(x),
{
    assert(seq![a][0] == a);
    assert(seq![a, b][0] == a);
    assert(seq![a, b][1] == b);
}

/// What the actions of one frame contain, part by part.
proof fn lemma_frame_actions_contains(at_start: bool, input: FrameInput, x: ViewAction)
    ensures
        frame_actions(at_start, input).contains(x) == (one_if(
            at_start,
            ViewAction::Notify(Event::DoRender),
        ).contains(x) || one_if(input.render_output_ready, ViewAction::ShowRenderOutput).contains(
            x,
        ) || obj_part(input.obj_pick).contains(x) || scene_part(input.scene_pick).contains(x)
            || one_if(input.render_clicked, ViewAction::Notify(Event::DoRender)).contains(x)
            || fov_part(input.fov_changed).contains(x) || width_part(input.width_edit).contains(x)
            || height_part(input.height_edit).contains(x)),
{
    let p0 = one_if(at_start, ViewAction::Notify(Event::DoRender));
    let p1 = one_if(input.render_output_ready, ViewAction::ShowRenderOutput);
    let p2 = obj_part(input.obj_pick);
    let p3 = scene_part(input.scene_pick);
    let p4 = one_if(input.render_clicked, ViewAction::Notify(Event::DoRender));
    let p5 = fov_part(input.fov_changed);
    let p6 = width_part(input.width_edit);
    let p7 = height_part(input.height_edit);
    lemma_concat_contains(p0, p1, x);
    lemma_concat_contains(p0 + p1, p2, x);
    lemma_concat_contains(p0 + p1 + p2, p3, x);
    lemma_concat_contains(p0 + p1 + p2 + p3, p4, x);
    lemma_concat_contains(p0 + p1 + p2 + p3 + p4, p5, x);
    lemma_concat_contains(p0 + p1 + p2 + p3 + p4 + p5, p6, x);
    lemma_concat_contains(p0 + p1 + p2 + p3 + p4 + p5 + p6, p7, x);
}

proof fn lemma_parts_contain(at_start: bool, input: FrameInput, x: ViewAction)
    ensures
        frame_actions(at_start, input).contains(x) == (
        (at_start && x == ViewAction::Notify(Event::DoRender))
        || (input.render_output_ready && x == ViewAction::ShowRenderOutput)
        || (input.obj_pick is Some && ((input.obj_pick->0 is Some && x == ViewAction::SubmitObjPath(
            input.obj_pick->0->0,
        )) || x == ViewAction::Notify(Event::ImportObj)))
        || (input.scene_pick is Some && ((input.scene_pick->0 is Some && x
            == ViewAction::SubmitScenePath(input.scene_pick->0->0)) || x == ViewAction::Notify(
            Event::ImportScene,
        )))
        || (input.render_clicked && x == ViewAction::Notify(Event::DoRender))
        || (input.fov_changed && (x == ViewAction::ApplyFov || x == ViewAction::Notify(
            Event::DoRender,
        )))
        || (input.width_edit is Some && x == ViewAction::SetWidth(input.width_edit->0))
        || (input.height_edit is Some && x == ViewAction::SetHeight(input.height_edit->0))),
{
    lemma_frame_actions_contains(at_start, input, x);
    let d = ViewAction::Notify(Event::DoRender);
    lemma_literal_contains(d, d, x);
    lemma_literal_contains(ViewAction::ShowRenderOutput, d, x);
    lemma_literal_contains(ViewAction::ApplyFov, d, x);
    lemma_literal_contains(ViewAction::Notify(Event::ImportObj), d, x);
    lemma_literal_contains(ViewAction::Notify(Event::ImportScene), d, x);
    match input.obj_pick {
        Some(Some(p)) => {
            lemma_literal_contains(ViewAction::SubmitObjPath(p), ViewAction::Notify(Event::ImportObj), x);
        },
        _ => {},
    }
    match input.scene_pick {
        Some(Some(p)) => {
            lemma_literal_contains(
                ViewAction::SubmitScenePath(p),
                ViewAction::Notify(Event::ImportScene),
                x,
            );
        },
        _ => {},
    }
    match input.width_edit {
        Some(v) => {
            lemma_literal_contains(ViewAction::SetWidth(v), d, x);
        },
        None => {},
    }
    match input.height_edit {
        Some(v) => {
            lemma_literal_contains(ViewAction::SetHeight(v), d, x);
        },
        None => {},
    }
}

/// Each input of a frame brings its own actions, whatever the other inputs are: a
/// width or height edit is passed on exactly when it was made, with its value; a
/// moved slider stores the field of view; a waiting render is shown; a picked file is
/// handed on; each import button, once clicked, notifies its import; and a render is
/// asked for exactly at the first frame, on "Render" or when the slider moved.
pub proof fn lemma_each_input_brings_its_actions(
    at_start: bool,
    input: FrameInput,
    w: u32,
    path: String,
)
    ensures
        ({
            let a = frame_actions(at_start, input);
            &&& a.contains(ViewAction::SetWidth(w)) == (input.width_edit == Some(w))
            &&& a.contains(ViewAction::SetHeight(w)) == (input.height_edit == Some(w))
            &&& a.contains(ViewAction::ApplyFov) == input.fov_changed
            &&& a.contains(ViewAction::ShowRenderOutput) == input.render_output_ready
            &&& a.contains(ViewAction::SubmitObjPath(path)) == (input.obj_pick == Some(Some(path)))
            &&& a.contains(ViewAction::SubmitScenePath(path)) == (input.scene_pick == Some(
                Some(path),
            ))
            &&& a.contains(ViewAction::Notify(Event::ImportObj)) == input.obj_pick is Some
            &&& a.contains(ViewAction::Notify(Event::ImportScene)) == input.scene_pick is Some
            &&& a.contains(ViewAction::Notify(Event::DoRender)) == (at_start || input.render_clicked
                || input.fov_changed)
        }),
{
    lemma_parts_contain(at_start, input, ViewAction::SetWidth(w));
    lemma_parts_contain(at_start, input, ViewAction::SetHeight(w));
    lemma_parts_contain(at_start, input, ViewAction::ApplyFov);
    lemma_parts_contain(at_start, input, ViewAction::ShowRenderOutput);
    lemma_parts_contain(at_start, input, ViewAction::SubmitObjPath(path));
    lemma_parts_contain(at_start, input, ViewAction::SubmitScenePath(path));
    lemma_parts_contain(at_start, input, ViewAction::Notify(Event::ImportObj));
    lemma_parts_contain(at_start, input, ViewAction::Notify(Event::ImportScene));
    lemma_parts_contain(at_start, input, ViewAction::Notify(Event::DoRender));
}

/// A picked file replaces the remembered one; a cancelled dialog keeps it.
pub open spec fn path_after_pick(path: Option<String>, pick: Option<Option<String>>) -> Option<
    String,
> {
    match pick {
        Some(Some(p)) => Some(p),
        _ => path,
    }
}

/// The window's state after one frame.
pub open spec fn view_after_frame(v: MainView, input: FrameInput) -> MainView {
    MainView {
        at_start: false,
        bottom_visible: if input.toggle_log_clicked {
            !v.bottom_visible
        } else {
            v.bottom_visible
        },
        obj_path: path_after_pick(v.obj_path, input.obj_pick),
        scene_path: path_after_pick(v.scene_path, input.scene_pick),
    }
}

/// After any frame the window is no longer new; the log view flips exactly when its
/// button was clicked; a picked file becomes the remembered one, while a cancelled
/// dialog or an unclicked button keeps the earlier one.
pub proof fn lemma_frame_state(v: MainView, input: FrameInput, path: String)
    ensures
        ({
            let n = view_after_frame(v, input);
            &&& !n.at_start
            &&& (n.bottom_visible != v.bottom_visible) == input.toggle_log_clicked
            &&& input.obj_pick == Some(Some(path)) ==> n.obj_path == Some(path)
            &&& !(input.obj_pick matches Some(Some(_))) ==> n.obj_path == v.obj_path
            &&& input.scene_pick == Some(Some(path)) ==> n.scene_path == Some(path)
            &&& !(input.scene_pick matches Some(Some(_))) ==> n.scene_path == v.scene_path
        }),
{
}

impl MainView {
    /// A new window: nothing shown yet, the log view visible, no files picked.
    pub fn new() -> (r: Self)
        ensures
            r == (MainView { at_start: true, bottom_visible: true, obj_path: None, scene_path: None }),
    {
        MainView { at_start: true, bottom_visible: true, obj_path: None, scene_path: None }
    }

    /// The "Import Obj" button after its dialog closed with `picked`: a picked file is
    /// remembered and handed to the pipeline; the listener hears of the import either way.
    pub fn set_obj_filepath(&mut self, picked: Option<String>) -> (actions: Vec<ViewAction>)
        ensures
            final(self).obj_path == path_after_pick(old(self).obj_path, Some(picked)),
            final(self).at_start == old(self).at_start,
            final(self).bottom_visible == old(self).bottom_visible,
            final(self).scene_path == old(self).scene_path,
            actions@ == obj_pick_actions(picked),
    {
        let mut actions: Vec<ViewAction> = Vec::new();
        match picked {
            Some(path) => {
                self.obj_path = Some(path.clone());
                actions.push(ViewAction::SubmitObjPath(path));
            },
            None => {},
        }
        actions.push(ViewAction::Notify(Event::ImportObj));
        actions
    }

    /// The "Import Scene" button after its dialog closed with `picked`: a picked file is
    /// remembered and handed to the pipeline; the listener hears of the import either way.
    pub fn set_scene_filepath(&mut self, picked: Option<String>) -> (actions: Vec<ViewAction>)
        ensures
            final(self).scene_path == path_after_pick(old(self).scene_path, Some(picked)),
            final(self).at_start == old(self).at_start,
            final(self).bottom_visible == old(self).bottom_visible,
            final(self).obj_path == old(self).obj_path,
            actions@ == scene_pick_actions(picked),
    {
        let mut actions: Vec<ViewAction> = Vec::new();
        match picked {
            Some(path) => {
                self.scene_path = Some(path.clone());
                actions.push(ViewAction::SubmitScenePath(path));
            },
            None => {},
        }
        actions.push(ViewAction::Notify(Event::ImportScene));
        actions
    }

    /// One frame of the main window: the new state and the actions to perform, in order.
    pub fn update(&mut self, input: FrameInput) -> (actions: Vec<ViewAction>)
        ensures
            *final(self) == view_after_frame(*old(self), input),
            actions@ == frame_actions(old(self).at_start, input),
    {
        let FrameInput {
            render_output_ready,
            toggle_log_clicked,
            obj_pick,
            scene_pick,
            render_clicked,
            fov_changed,
            width_edit,
            height_edit,
        } = input;
        let mut actions: Vec<ViewAction> = Vec::new();
        let at_start = self.at_start;
        self.at_start = false;
        push_if(&mut actions, at_start, ViewAction::Notify(Event::DoRender));
        proof {
            assert(actions@ == one_if(at_start, ViewAction::Notify(Event::DoRender)));
        }
        push_if(&mut actions, render_output_ready, ViewAction::ShowRenderOutput);
        if toggle_log_clicked {
            self.bottom_visible = !self.bottom_visible;
        }
        self.obj_click(&mut actions, obj_pick);
        self.scene_click(&mut actions, scene_pick);
        push_if(&mut actions, render_clicked, ViewAction::Notify(Event::DoRender));
        push_fov(&mut actions, fov_changed);
        push_width(&mut actions, width_edit);
        push_height(&mut actions, height_edit);
        actions
    }

    /// The "Import Obj" button in a frame, when it was clicked.
    fn obj_click(&mut self, actions: &mut Vec<ViewAction>, click: Option<Option<String>>)
        ensures
            final(self).obj_path == path_after_pick(old(self).obj_path, click),
            final(self).at_start == old(self).at_start,
            final(self).bottom_visible == old(self).bottom_visible,
            final(self).scene_path == old(self).scene_path,
            final(actions)@ == old(actions)@ + obj_part(click),
    {
        match click {
            Some(picked) => {
                let mut more = self.set_obj_filepath(picked);
                actions.append(&mut more);
            },
            None => {
                assert(old(actions)@ + obj_part(click) == old(actions)@);
            },
        }
    }

    /// The "Import Scene" button in a frame, when it was clicked.
    fn scene_click(&mut self, actions: &mut Vec<ViewAction>, click: Option<Option<String>>)
        ensures
            final(self).scene_path == path_after_pick(old(self).scene_path, click),
            final(self).at_start == old(self).at_start,
            final(self).bottom_visible == old(self).bottom_visible,
            final(self).obj_path == old(self).obj_path,
            final(actions)@ == old(actions)@ + scene_part(click),
    {
        match click {
            Some(picked) => {
                let mut more = self.set_scene_filepath(picked);
                actions.append(&mut more);
            },
            None => {
                assert(old(actions)@ + scene_part(click) == old(actions)@);
            },
        }
    }
}

/// Appends `action` when `cond` holds.
fn push_if(actions: &mut Vec<ViewAction>, cond: bool, action: ViewAction)
    ensures
        final(actions)@ == old(actions)@ + one_if(cond, action),
{
    if cond {
        actions.push(action);
    } else {
        assert(old(actions)@ + one_if(cond, action) == old(actions)@);
    }
}

/// Appends the actions of a moved field-of-view slider.
fn push_fov(actions: &mut Vec<ViewAction>, changed: bool)
    ensures
        final(actions)@ == old(actions)@ + fov_part(changed),
{
    if changed {
        actions.push(ViewAction::ApplyFov);
        actions.push(ViewAction::Notify(Event::DoRender));
    } else {
        assert(old(actions)@ + fov_part(changed) == old(actions)@);
    }
}

/// Appends the action of an edited width field.
fn push_width(actions: &mut Vec<ViewAction>, edit: Option<u32>)
    ensures
        final(actions)@ == old(actions)@ + width_part(edit),
{
    match edit {
        Some(w) => actions.push(ViewAction::SetWidth(w)),
        None => {
            assert(old(actions)@ + width_part(edit) == old(actions)@);
        },
    }
}

/// Appends the action of an edited height field.
fn push_height(actions: &mut Vec<ViewAction>, edit: Option<u32>)
    ensures
        final(actions)@ == old(actions)@ + height_part(edit),
{
    match edit {
        Some(h) => actions.push(ViewAction::SetHeight(h)),
        None => {
            assert(old(actions)@ + height_part(edit) == old(actions)@);
        },
    }
}

} // verus!
