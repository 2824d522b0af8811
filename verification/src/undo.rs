//! The undo stack and the inspector state that decides what goes onto it:
//! edits of an entity's label, drags of a transform value, and gizmo drags.
use vstd::prelude::*;

verus! {

/// Undoable actions, newest last.
pub struct UndoStack<A> {
    actions: Vec<A>,
}

impl<A> UndoStack<A> {
    /// The actions, oldest first.
    pub closed spec fn view_actions(&self) -> Seq<A> {
        self.actions@
    }

    /// An empty stack.
    pub fn new() -> (r: Self)
        ensures
            r.view_actions() == Seq::<A>::empty(),
    {
        UndoStack { actions: Vec::new() }
    }

    /// Records an action.
    pub fn push_to_undo(&mut self, action: A)
        ensures
            final(self).view_actions() == old(self).view_actions().push(action),
    {
        self.actions.push(action);
    }

    /// Takes the newest action, to be undone.
    pub fn pop(&mut self) -> (r: Option<A>)
        ensures
            old(self).view_actions().len() == 0 ==> r is None && final(self).view_actions()
                == old(self).view_actions(),
            old(self).view_actions().len() > 0 ==> r == Some(old(self).view_actions().last())
                && final(self).view_actions() == old(self).view_actions().drop_last(),
    {
        self.actions.pop()
    }

    /// How many actions can be undone.
    pub fn len(&self) -> (r: usize)
        ensures
            r == self.view_actions().len(),
    {
        self.actions.len()
    }

    /// Whether nothing can be undone.
    pub fn is_empty(&self) -> (r: bool)
        ensures
            r == (self.view_actions().len() == 0),
    {
        self.actions.len() == 0
    }
}

/// Undoing what was just done gives it back and leaves the stack as it was.
pub proof fn law_undo_returns_last_push<A>(before: Seq<A>, action: A)
    ensures
        before.push(action).len() > 0,
        before.push(action).last() == action,
        before.push(action).drop_last() == before,
{
    assert(before.push(action).drop_last() =~= before);
}

/// How long a label must rest before its edit becomes an undo step (milliseconds).
pub const LABEL_DEBOUNCE_MS: u64 = 500;

/// The label-edit state as plain values: the entity being edited, the label
/// recorded at its first change, and when the label last changed.
pub type LabelEditView = (Option<u64>, Option<Seq<char>>, Option<u64>);

/// Elapsed milliseconds from `t` to `now`; a clock going back counts as none.
pub open spec fn elapsed(t: u64, now: u64) -> int {
    if now >= t {
        now - t
    } else {
        0
    }
}

/// The state after the label of `entity` changed at `now` to `label`: the
/// first change of an edit records the entity and the label.
pub open spec fn label_changed_spec(s: LabelEditView, entity: u64, label: Seq<char>, now: u64) -> LabelEditView {
    if s.0 is None {
        (Some(entity), Some(label), Some(now))
    } else {
        (s.0, s.1, Some(now))
    }
}

/// The undo step and the state after the label field of `entity` lost focus.
pub open spec fn focus_lost_spec(s: LabelEditView, entity: u64) -> (Option<(u64, Seq<char>)>, LabelEditView) {
    match s.0 {
        None => (None, (None, s.1, None)),
        Some(e) => if e == entity {
            match s.1 {
                Some(l) => (Some((e, l)), (None, None, None)),
                None => (None, (None, None, None)),
            }
        } else {
            (None, (None, None, None))
        },
    }
}

/// The undo step and the state after a frame at `now`.
pub open spec fn tick_spec(s: LabelEditView, now: u64) -> (Option<(u64, Seq<char>)>, LabelEditView) {
    match s.2 {
        Some(t) => if elapsed(t, now) >= LABEL_DEBOUNCE_MS {
            match s.0 {
                Some(e) => match s.1 {
                    Some(l) => (Some((e, l)), (None, None, None)),
                    None => (None, (None, None, None)),
                },
                None => (None, (None, s.1, None)),
            }
        } else {
            (None, s)
        },
        None => (None, s),
    }
}

/// Tracks the edit of an entity's label between the first keystroke and the
/// moment it becomes an undo step.
pub struct LabelEditTracker {
    old_label_entity: Option<u64>,
    label_original: Option<String>,
    label_last_edit: Option<u64>,
}

/// An undo step with an owned label, as plain values.
pub open spec fn step_view(r: Option<(u64, String)>) -> Option<(u64, Seq<char>)> {
    match r {
        Some((e, l)) => Some((e, l@)),
        None => None,
    }
}

impl LabelEditTracker {
    /// The tracker's state.
    pub closed spec fn state(&self) -> LabelEditView {
        (
            self.old_label_entity,
            match self.label_original {
                Some(l) => Some(l@),
                None => None,
            },
            self.label_last_edit,
        )
    }

    /// No edit in progress.
    pub fn new() -> (r: Self)
        ensures
            r.state() == (None::<u64>, None::<Seq<char>>, None::<u64>),
    {
        LabelEditTracker { old_label_entity: None, label_original: None, label_last_edit: None }
    }

    /// The label of `entity` changed at `now` and now reads `label`.
    pub fn label_changed(&mut self, entity: u64, label: &String, now: u64)
        ensures
            final(self).state() == label_changed_spec(old(self).state(), entity, label@, now),
    {
        if self.old_label_entity.is_none() {
            self.old_label_entity = Some(entity);
            self.label_original = Some(label.clone());
        }
        self.label_last_edit = Some(now);
    }

    /// The label field of `entity` lost focus: the edit of that entity becomes
    /// an undo step `(entity, original label)` at once; an edit of another
    /// entity is dropped.
    pub fn focus_lost(&mut self, entity: u64) -> (r: Option<(u64, String)>)
        ensures
            (step_view(r), final(self).state()) == focus_lost_spec(old(self).state(), entity),
    {
        let mut r = None;
        if let Some(ent) = self.old_label_entity.take() {
            if ent == entity {
                if let Some(orig) = self.label_original.take() {
                    r = Some((ent, orig));
                }
            } else {
                self.label_original = None;
            }
        }
        self.label_last_edit = None;
        r
    }

    /// A frame at `now`: once the label has rested for the debounce period,
    /// the edit becomes an undo step `(entity, original label)`.
    pub fn tick(&mut self, now: u64) -> (r: Option<(u64, String)>)
        ensures
            (step_view(r), final(self).state()) == tick_spec(old(self).state(), now),
    {
        if let Some(t) = self.label_last_edit {
            let passed = if now >= t {
                now - t
            } else {
                0
            };
            if passed >= LABEL_DEBOUNCE_MS {
                let mut r = None;
                if let Some(ent) = self.old_label_entity.take() {
                    if let Some(orig) = self.label_original.take() {
                        r = Some((ent, orig));
                    }
                }
                self.label_last_edit = None;
                return r;
            }
        }
        None
    }
}

/// An edit that starts on an idle tracker and loses focus on the same entity
/// becomes the undo step holding the label recorded at the first change.
pub proof fn law_label_edit_focus_lost(entity: u64, label: Seq<char>, now: u64)
    ensures
        focus_lost_spec(label_changed_spec((None, None, None), entity, label, now), entity)
            == (Some((entity, label)), (None::<u64>, None::<Seq<char>>, None::<u64>)),
{
}

/// An edit becomes an undo step once it has rested for the debounce period, and not before.
pub proof fn law_label_edit_debounce(entity: u64, label: Seq<char>, at: u64, now: u64)
    ensures
        ({
            let s = label_changed_spec((None, None, None), entity, label, at);
            &&& elapsed(at, now) >= LABEL_DEBOUNCE_MS ==> tick_spec(s, now).0 == Some((entity, label))
            &&& elapsed(at, now) < LABEL_DEBOUNCE_MS ==> tick_spec(s, now) == (None::<(u64, Seq<char>)>, s)
        }),
{
}

/// The drag state as plain values: the entity, the value it started from, and
/// whether a drag is in progress.
pub type DragView<T> = (Option<u64>, Option<T>, bool);

/// The state after a drag of `entity`'s value starts from `original`.
pub open spec fn drag_started_spec<T>(entity: u64, original: T) -> DragView<T> {
    (Some(entity), Some(original), true)
}

/// The undo step and the state after the drag stopped.
pub open spec fn drag_stopped_spec<T>(s: DragView<T>) -> (Option<(u64, T)>, DragView<T>) {
    if !s.2 {
        (None, s)
    } else {
        match s.0 {
            Some(e) => match s.1 {
                Some(t) => (Some((e, t)), (None, None, false)),
                None => (None, (None, None, false)),
            },
            None => (None, (None, s.1, false)),
        }
    }
}

/// Tracks a drag of one transform value, from its start to the undo step it gives.
pub struct DragUndoTracker<T> {
    transform_old_entity: Option<u64>,
    transform_original_transform: Option<T>,
    transform_in_progress: bool,
}

impl<T> DragUndoTracker<T> {
    /// The tracker's state.
    pub closed spec fn state(&self) -> DragView<T> {
        (self.transform_old_entity, self.transform_original_transform, self.transform_in_progress)
    }

    /// No drag in progress.
    pub fn new() -> (r: Self)
        ensures
            r.state() == (None::<u64>, None::<T>, false),
    {
        DragUndoTracker {
            transform_old_entity: None,
            transform_original_transform: None,
            transform_in_progress: false,
        }
    }

    /// Whether a drag is in progress.
    pub fn in_progress(&self) -> (r: bool)
        ensures
            r == self.state().2,
    {
        self.transform_in_progress
    }

    /// A drag of `entity`'s value starts from `original`.
    pub fn drag_started(&mut self, entity: u64, original: T)
        ensures
            final(self).state() == drag_started_spec(entity, original),
    {
        self.transform_old_entity = Some(entity);
        self.transform_original_transform = Some(original);
        self.transform_in_progress = true;
    }

    /// The drag stopped: a drag in progress gives the undo step
    /// `(entity, original value)` and ends.
    pub fn drag_stopped(&mut self) -> (r: Option<(u64, T)>)
        ensures
            (r, final(self).state()) == drag_stopped_spec(old(self).state()),
    {
        if !self.transform_in_progress {
            return None;
        }
        let mut r = None;
        if let Some(ent) = self.transform_old_entity.take() {
            if let Some(orig) = self.transform_original_transform.take() {
                r = Some((ent, orig));
            }
        }
        self.transform_in_progress = false;
        r
    }
}

/// A drag that starts and then stops gives back exactly the entity and value
/// it started from, and leaves no drag in progress.
pub proof fn law_drag_round_trip<T>(entity: u64, original: T)
    ensures
        drag_stopped_spec(drag_started_spec(entity, original)) == (
            Some((entity, original)),
            (None::<u64>, None::<T>, false),
        ),
{
}

/// Stopping when no drag is in progress gives nothing and changes nothing.
pub proof fn law_drag_stop_idle<T>(s: DragView<T>)
    requires
        !s.2,
    ensures
        drag_stopped_spec(s) == (None::<(u64, T)>, s),
{
}

/// What happened to the gizmo's focus between two frames.
#[derive(Clone, Copy, PartialEq, Eq, Structural, Debug)]
pub enum FocusEdge {
    /// The gizmo was grabbed: remember the transform it starts from.
    Grabbed,
    /// The gizmo was let go: an undo step is due if the transform changed.
    Released,
    Unchanged,
}

/// The focus edge from `was_focused` to `is_focused`.
pub fn focus_edge(was_focused: bool, is_focused: bool) -> (r: FocusEdge)
    ensures
        r == (if is_focused && !was_focused {
            FocusEdge::Grabbed
        } else if was_focused && !is_focused {
            FocusEdge::Released
        } else {
            FocusEdge::Unchanged
        }),
{
    if is_focused && !was_focused {
        FocusEdge::Grabbed
    } else if was_focused && !is_focused {
        FocusEdge::Released
    } else {
        FocusEdge::Unchanged
    }
}

} // verus!
