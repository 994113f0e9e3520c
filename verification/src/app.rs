//! The decisions of the application loop: when the view task renders (it may wait a
//! little for pending asynchronous tasks), what a batch of terminal events amounts to,
//! and one pass of layout, view-context update and paint over the root widget.
use vstd::prelude::*;

use crate::geometry::{BoxConstraints, Point, Size};
use crate::id::{no_duplicates, Id};
use crate::widget::events::{Event, LifeCycle, RawMouseEvent, ViewContext};
use crate::widget::pod::{
    merged, pod_event_post, pod_layout_post, pod_lifecycle_post, pod_paint_post, CxState, DrawCommand, EventCx, LayoutCx, LifeCycleCx, Message, PaintCx, Pod, Widget,
    WidgetState,
};
use crate::style::{empty_style, Style};

verus! {

/// A request from the terminal side to the view task.
pub enum AppMessage {
    /// Messages that widgets sent to views.
    Events(Vec<Message>),
    /// An asynchronous task of the view at this id path made progress.
    Wake(Vec<Id>),
    /// A request to run the application logic; `true` when rendering may wait for
    /// pending asynchronous tasks.
    Render(bool),
}

/// The state of the view task between requests.
#[derive(Clone, Copy, Debug, PartialEq, Eq, Structural)]
pub enum UiState {
    /// Ready for events and render requests.
    Start,
    /// A render request came and has not been answered yet.
    Delayed,
    /// An asynchronous task woke the terminal side.
    WokeUI,
}

/// The view task's bookkeeping: its state, the ids of the views whose asynchronous
/// tasks are pending (each once), and whether a delayed render waits for a deadline.
pub struct AppTaskState {
    pub ui_state: UiState,
    pub pending_async: Vec<Id>,
    pub has_deadline: bool,
}

/// What the view task does after the wake-up of an asynchronous task.
#[derive(Clone, Copy, Debug, PartialEq, Eq, Structural)]
pub struct WakeAction {
    /// Send a wake event to the terminal side, so that it asks for a render.
    pub send_wake_event: bool,
    /// Whether to render now: nothing else is pending for the delayed render.
    pub render: bool,
}

/// The bookkeeping of a view task (see [`AppTaskState`]) as a mathematical value.
pub struct AppTaskModel {
    pub ui_state: UiState,
    pub pending: Set<Id>,
    pub has_deadline: bool,
}

/// The bookkeeping after a render request, and whether it renders at once.
pub open spec fn task_after_render_request(m: AppTaskModel, delay: bool) -> (AppTaskModel, bool) {
    if !delay || m.pending.is_empty() {
        (m, true)
    } else {
        (AppTaskModel { ui_state: UiState::Delayed, has_deadline: true, ..m }, false)
    }
}

/// The bookkeeping after the wake-up of the task of the view with the id `id`, and what
/// the view task does.
pub open spec fn task_after_wake(m: AppTaskModel, id: Id, needs_rebuild: bool) -> (
    AppTaskModel,
    WakeAction,
) {
    if !needs_rebuild {
        (m, WakeAction { send_wake_event: false, render: false })
    } else {
        let pending = m.pending.remove(id);
        let ui_state = if m.ui_state == UiState::Start {
            UiState::WokeUI
        } else {
            m.ui_state
        };
        (
            AppTaskModel { ui_state, pending, has_deadline: m.has_deadline },
            WakeAction {
                send_wake_event: m.ui_state == UiState::Start,
                render: pending.is_empty() && m.ui_state == UiState::Delayed,
            },
        )
    }
}

/// Whether the expiry of the render deadline renders: when a deadline was waited for.
pub open spec fn task_after_deadline(m: AppTaskModel) -> bool {
    m.has_deadline
}

/// The bookkeeping after the tasks of the views with the ids `wakes` woke up in turn,
/// each asking for a rebuild.
pub open spec fn wake_all(m: AppTaskModel, wakes: Seq<Id>) -> AppTaskModel
    decreases wakes.len(),
{
    if wakes.len() == 0 {
        m
    } else {
        task_after_wake(wake_all(m, wakes.drop_last()), wakes.last(), true).0
    }
}

/// Once the view task is not idle (a render waits, or the terminal side was woken),
/// wake-ups with a rebuild only take ids off the pending set.
pub proof fn lemma_wake_all_delayed(m: AppTaskModel, wakes: Seq<Id>)
    requires
        m.ui_state != UiState::Start,
    ensures
        wake_all(m, wakes).ui_state == m.ui_state,
        wake_all(m, wakes).has_deadline == m.has_deadline,
        wake_all(m, wakes).pending == m.pending.difference(wakes.to_set()),
    decreases wakes.len(),
{
    if wakes.len() > 0 {
        lemma_wake_all_delayed(m, wakes.drop_last());
        let prefix = wakes.drop_last();
        assert(wakes =~= prefix.push(wakes.last()));
        assert(wakes.to_set() =~= prefix.to_set().insert(wakes.last())) by {
            assert forall|x: Id| wakes.to_set().contains(x) <==> prefix.to_set().insert(wakes.last()).contains(x) by {
                if wakes.contains(x) {
                    let j = choose|j: int| 0 <= j < wakes.len() && wakes[j] == x;
                    if j < wakes.len() - 1 {
                        assert(prefix[j] == x);
                    }
                }
                if prefix.contains(x) {
                    let j = choose|j: int| 0 <= j < prefix.len() && prefix[j] == x;
                    assert(wakes[j] == x);
                }
            }
        }
        assert(m.pending.difference(prefix.to_set()).remove(wakes.last()) =~= m.pending.difference(
            wakes.to_set(),
        ));
    }
}

/// Law: a render request that may wait, made while the tasks of the views in the
/// (non-empty) set `m.pending` are pending, does not render at once but waits, with a
/// deadline. When the tasks of the views `wakes` then wake up in turn, each with a
/// rebuild, the `k`-th wake-up renders exactly when every pending view has woken up by
/// then, and none of them wakes the terminal side again; until then the deadline is
/// still waited for, and its expiry renders.
pub proof fn lemma_delayed_render_waits_for_all_pending(m: AppTaskModel, wakes: Seq<Id>, k: int)
    requires
        m.ui_state == UiState::Start,
        !m.pending.is_empty(),
        0 <= k < wakes.len(),
    ensures
        !task_after_render_request(m, true).1,
        task_after_render_request(m, true).0.ui_state == UiState::Delayed,
        task_after_deadline(wake_all(task_after_render_request(m, true).0, wakes.take(k))),
        task_after_wake(
            wake_all(task_after_render_request(m, true).0, wakes.take(k)),
            wakes[k],
            true,
        ).1 == (WakeAction {
            send_wake_event: false,
            render: m.pending.subset_of(wakes.take(k + 1).to_set()),
        }),
{
    let m1 = task_after_render_request(m, true).0;
    lemma_wake_all_delayed(m1, wakes.take(k));
    lemma_wake_all_delayed(m1, wakes.take(k + 1));
    assert(wakes.take(k + 1).drop_last() =~= wakes.take(k));
    assert(wakes.take(k + 1).last() == wakes[k]);
    let rest = m.pending.difference(wakes.take(k + 1).to_set());
    assert(rest.is_empty() == m.pending.subset_of(wakes.take(k + 1).to_set())) by {
        if rest.is_empty() {
            assert forall|x: Id| m.pending.contains(x) implies wakes.take(k + 1).to_set().contains(x) by {
                assert(!rest.contains(x));
            }
        }
        if m.pending.subset_of(wakes.take(k + 1).to_set()) {
            assert(rest =~= Set::<Id>::empty());
        }
    }
}

/// Law: while the view task is idle, the first wake-up of a task with a rebuild wakes
/// the terminal side, once: the view task is then marked as having woken it, and the
/// wake-ups with a rebuild that follow (of the views `wakes`, until the next render)
/// wake it no more. Each takes its view's id off the pending set. A wake-up without a
/// rebuild changes nothing.
pub proof fn lemma_idle_wake_sends_one_wake_event(m: AppTaskModel, first: Id, wakes: Seq<Id>, k: int)
    requires
        m.ui_state == UiState::Start,
        0 <= k < wakes.len(),
    ensures
        task_after_wake(m, first, true).1.send_wake_event,
        task_after_wake(m, first, true).0.ui_state == UiState::WokeUI,
        task_after_wake(m, first, true).0.pending == m.pending.remove(first),
        !task_after_wake(wake_all(task_after_wake(m, first, true).0, wakes.take(k)), wakes[k], true).1.send_wake_event,
        wake_all(task_after_wake(m, first, true).0, wakes).ui_state == UiState::WokeUI,
        wake_all(task_after_wake(m, first, true).0, wakes).pending == m.pending.remove(first).difference(
            wakes.to_set(),
        ),
        task_after_wake(m, first, false) == (m, WakeAction { send_wake_event: false, render: false }),
{
    let m1 = task_after_wake(m, first, true).0;
    lemma_wake_all_delayed(m1, wakes.take(k));
    lemma_wake_all_delayed(m1, wakes);
}

impl AppTaskState {
    /// The bookkeeping as a mathematical value.
    pub open spec fn model(&self) -> AppTaskModel {
        AppTaskModel {
            ui_state: self.ui_state,
            pending: self.pending_async@.to_set(),
            has_deadline: self.has_deadline,
        }
    }

    /// No id is pending twice.
    pub open spec fn wf(&self) -> bool {
        no_duplicates(self.pending_async@)
    }

    /// The state of a fresh view task.
    pub fn new() -> (r: Self)
        ensures
            r.wf(),
            r.model().ui_state == UiState::Start,
            r.model().pending == Set::<Id>::empty(),
            !r.model().has_deadline,
    {
        let r = AppTaskState { ui_state: UiState::Start, pending_async: Vec::new(), has_deadline: false };
        assert(r.pending_async@.to_set() =~= Set::<Id>::empty());
        r
    }

    /// Answers a render request: without delay, or when no asynchronous task is
    /// pending, it renders at once (`true`); else it waits for the pending tasks or a
    /// deadline, whichever comes first.
    pub fn on_render_request(&mut self, delay: bool) -> (r: bool)
        requires
            old(self).wf(),
        ensures
            final(self).wf(),
            final(self).pending_async == old(self).pending_async,
            r == (!delay || old(self).pending_async@.len() == 0),
            r ==> final(self).ui_state == old(self).ui_state && final(self).has_deadline
                == old(self).has_deadline,
            !r ==> final(self).ui_state == UiState::Delayed && final(self).has_deadline,
            (final(self).model(), r) == task_after_render_request(old(self).model(), delay),
    {
        proof {
            lemma_empty_seq_set(self.pending_async@);
        }
        if !delay || self.pending_async.len() == 0 {
            true
        } else {
            self.has_deadline = true;
            self.ui_state = UiState::Delayed;
            false
        }
    }

    /// Handles the wake-up of the asynchronous task of the view at `id_path` (`needs_rebuild`
    /// tells whether the view asked for a rebuild). Without a rebuild nothing changes.
    /// With one, the terminal side is woken when the task was idle, the view's id is no
    /// longer pending, and a delayed render happens once nothing is pending any more.
    pub fn on_wake(&mut self, id_path: &[Id], needs_rebuild: bool) -> (r: WakeAction)
        requires
            old(self).wf(),
            id_path@.len() > 0,
        ensures
            final(self).wf(),
            final(self).has_deadline == old(self).has_deadline,
            !needs_rebuild ==> {
                &&& final(self).pending_async == old(self).pending_async
                &&& final(self).ui_state == old(self).ui_state
                &&& !r.send_wake_event
                &&& !r.render
            },
            needs_rebuild ==> {
                let id = id_path@[id_path@.len() - 1];
                &&& final(self).model().pending == old(self).model().pending.remove(id)
                &&& r.send_wake_event == (old(self).ui_state == UiState::Start)
                &&& final(self).ui_state == (if old(self).ui_state == UiState::Start {
                    UiState::WokeUI
                } else {
                    old(self).ui_state
                })
                &&& r.render == (final(self).model().pending.is_empty()
                    && old(self).ui_state == UiState::Delayed)
            },
            (final(self).model(), r) == task_after_wake(
                old(self).model(),
                id_path@[id_path@.len() - 1],
                needs_rebuild,
            ),
    {
        if !needs_rebuild {
            return WakeAction { send_wake_event: false, render: false };
        }
        let send_wake_event = self.ui_state == UiState::Start;
        if send_wake_event {
            self.ui_state = UiState::WokeUI;
        }
        let id = id_path[id_path.len() - 1];
        remove_id(&mut self.pending_async, id);
        let render = self.pending_async.len() == 0 && self.ui_state == UiState::Delayed;
        proof {
            lemma_empty_seq_set(self.pending_async@);
        }
        WakeAction { send_wake_event, render }
    }

    /// Decides what the expiry of the render deadline leads to: the delayed render
    /// happens (`true`) when a deadline was waited for; without one there is nothing to
    /// render.
    pub fn on_deadline(&self) -> (r: bool)
        ensures
            r == self.has_deadline,
            r == task_after_deadline(self.model()),
    {
        self.has_deadline
    }

    /// Takes note of a finished render: the tasks that the new view tree left pending
    /// replace the old ones, no deadline is waited for, and the task is ready again.
    pub fn after_render(&mut self, pending: Vec<Id>)
        requires
            no_duplicates(pending@),
        ensures
            final(self).wf(),
            final(self).pending_async@ == pending@,
            final(self).ui_state == UiState::Start,
            !final(self).has_deadline,
    {
        self.pending_async = pending;
        self.ui_state = UiState::Start;
        self.has_deadline = false;
    }
}

/// A sequence is empty exactly when the set of its elements is.
pub proof fn lemma_empty_seq_set(s: Seq<Id>)
    ensures
        (s.len() == 0) == s.to_set().is_empty(),
{
    if s.len() != 0 {
        assert(s.to_set().contains(s[0]));
    } else {
        assert(s.to_set() =~= Set::<Id>::empty());
    }
}

/// Whether `x` occurs among the first `n` elements of `s`.
pub open spec fn in_prefix(s: Seq<Id>, n: int, x: Id) -> bool {
    exists|j: int| 0 <= j < n && s[j] == x
}

/// Removes `id` from a sequence without duplicates.
fn remove_id(ids: &mut Vec<Id>, id: Id)
    requires
        no_duplicates(old(ids)@),
    ensures
        no_duplicates(final(ids)@),
        final(ids)@.to_set() == old(ids)@.to_set().remove(id),
{
    let mut kept: Vec<Id> = Vec::new();
    let mut i: usize = 0;
    while i < ids.len()
        invariant
            i <= ids@.len(),
            ids@ == old(ids)@,
            no_duplicates(old(ids)@),
            no_duplicates(kept@),
            forall|x: Id| kept@.contains(x) <==> (in_prefix(old(ids)@, i as int, x) && x != id),
        decreases ids.len() - i,
    {
        let x = ids[i];
        let ghost before = kept@;
        if x != id {
            assert forall|k: int| 0 <= k < kept@.len() implies kept@[k] != x by {
                assert(kept@.contains(kept@[k]));
                let j = choose|j: int| 0 <= j < i && old(ids)@[j] == kept@[k];
                assert(old(ids)@[j] == kept@[k]);
            }
            kept.push(x);
        }
        assert forall|y: Id|
            kept@.contains(y) <==> (in_prefix(old(ids)@, i + 1, y) && y != id) by {
            if in_prefix(old(ids)@, i + 1, y) && y != id {
                let j = choose|j: int| 0 <= j < i + 1 && old(ids)@[j] == y;
                if j < i {
                    assert(in_prefix(old(ids)@, i as int, y));
                    assert(before.contains(y));
                    let k = choose|k: int| 0 <= k < before.len() && before[k] == y;
                    assert(kept@[k] == y);
                } else {
                    assert(kept@[kept@.len() - 1] == y);
                }
            }
            if kept@.contains(y) {
                if y == x && x != id {
                    assert(old(ids)@[i as int] == y);
                } else {
                    let k = choose|k: int| 0 <= k < kept@.len() && kept@[k] == y;
                    if x != id {
                        assert(kept@ == before.push(x));
                        assert(k < before.len());
                        assert(before[k] == y);
                    }
                    assert(before.contains(y));
                    assert(in_prefix(old(ids)@, i as int, y));
                    let j = choose|j: int| 0 <= j < i && old(ids)@[j] == y;
                    assert(old(ids)@[j] == y);
                }
            }
        }
        i = i + 1;
    }
    *ids = kept;
    assert forall|y: Id| final(ids)@.to_set().contains(y) <==> old(ids)@.to_set().remove(id).contains(y) by {
        if in_prefix(old(ids)@, old(ids)@.len() as int, y) {
            let j = choose|j: int| 0 <= j < old(ids)@.len() && old(ids)@[j] == y;
            assert(old(ids)@.contains(y));
        }
        if old(ids)@.contains(y) {
            let j = choose|j: int| 0 <= j < old(ids)@.len() && old(ids)@[j] == y;
            assert(in_prefix(old(ids)@, old(ids)@.len() as int, y));
        }
    }
    assert(final(ids)@.to_set() =~= old(ids)@.to_set().remove(id));
}

/// Whether a batch of terminal events asks the application to quit.
pub open spec fn has_quit(events: Seq<Event>) -> bool {
    exists|i: int| 0 <= i < events.len() && events[i] is Quit
}

/// The last mouse event of a batch of terminal events, if any.
pub open spec fn last_mouse(events: Seq<Event>) -> Option<RawMouseEvent>
    decreases events.len(),
{
    if events.len() == 0 {
        None
    } else {
        match events.last() {
            Event::Mouse(m) => Some(m),
            _ => last_mouse(events.drop_last()),
        }
    }
}

/// What a batch of terminal events amounts to for the application loop.
#[derive(Clone, Copy, Debug, PartialEq, Eq, Structural)]
pub struct BatchSummary {
    /// Some event of the batch asks to quit.
    pub quit: bool,
    /// Where the last mouse event of the batch was, if there was one.
    pub cursor: Option<Point>,
}

/// Summarises a batch of terminal events: whether one of them asks to quit, and the
/// position of the last mouse event.
pub fn summarize_batch(events: &Vec<Event>) -> (r: BatchSummary)
    ensures
        r.quit == has_quit(events@),
        r.cursor == (match last_mouse(events@) {
            Some(m) => Some(Point { x: m.column as i32, y: m.row as i32 }),
            None => None,
        }),
{
    let mut quit = false;
    let mut cursor: Option<Point> = None;
    let mut i: usize = 0;
    while i < events.len()
        invariant
            i <= events@.len(),
            quit == has_quit(events@.subrange(0, i as int)),
            cursor == (match last_mouse(events@.subrange(0, i as int)) {
                Some(m) => Some(Point { x: m.column as i32, y: m.row as i32 }),
                None => None,
            }),
        decreases events.len() - i,
    {
        let ghost prefix = events@.subrange(0, i as int);
        let ghost next = events@.subrange(0, i + 1);
        assert(next.drop_last() =~= prefix);
        assert(next.last() == events@[i as int]);
        match &events[i] {
            Event::Quit => {
                quit = true;
            },
            Event::Mouse(m) => {
                cursor = Some(Point::new(m.column as i32, m.row as i32));
            },
            _ => {},
        }
        assert(quit == has_quit(next)) by {
            if has_quit(prefix) {
                let j = choose|j: int| 0 <= j < prefix.len() && prefix[j] is Quit;
                assert(next[j] is Quit);
            }
            if has_quit(next) && !(events@[i as int] is Quit) {
                let j = choose|j: int| 0 <= j < next.len() && next[j] is Quit;
                assert(prefix[j] is Quit);
            }
            if events@[i as int] is Quit {
                assert(next[i as int] is Quit);
            }
        }
        i = i + 1;
    }
    assert(events@.subrange(0, events@.len() as int) =~= events@);
    BatchSummary { quit, cursor }
}

/// The root went through the batch `events`: event `i` took it from `roots[i]` to
/// `roots[i + 1]` and the shared context from `cxs[i]` to `cxs[i + 1]`.
pub open spec fn batch_dispatched<W: Widget>(roots: Seq<Pod<W>>, cxs: Seq<EventCx>, events: Seq<Event>) -> bool {
    &&& roots.len() == events.len() + 1
    &&& cxs.len() == events.len() + 1
    &&& forall|i: int|
        0 <= i < events.len() ==> #[trigger] pod_event_post(
            roots[i],
            roots[i + 1],
            cxs[i],
            cxs[i + 1],
            events[i],
        )
}

/// Hands a batch of terminal events to the root widget, one after the other, with one
/// event context for the whole batch that starts unhandled: once an event has been
/// handled, the rest of the batch no longer reaches the widgets. Returns whether an
/// event was handled.
pub fn dispatch_events<W: Widget>(
    root: &mut Pod<W>,
    root_state: &mut WidgetState,
    cx_state: &mut CxState,
    events: &Vec<Event>,
) -> (r: bool)
    ensures
        crate::widget::pod::same_geometry(old(root).state, final(root).state),
        crate::widget::pod::parent_keeps(*old(root_state), *final(root_state)),
        exists|roots: Seq<Pod<W>>, cxs: Seq<EventCx>|
            #![auto]
            batch_dispatched(roots, cxs, events@) && roots[0] == *old(root)
                && roots[events@.len() as int] == *final(root) && cxs[0] == (EventCx {
                cx_state: *old(cx_state),
                widget_state: *old(root_state),
                is_handled: false,
            }) && cxs[events@.len() as int] == (EventCx {
                cx_state: *final(cx_state),
                widget_state: *final(root_state),
                is_handled: r,
            }),
{
    let mut ws = WidgetState::new();
    core::mem::swap(&mut ws, root_state);
    let mut cs = CxState { messages: Vec::new() };
    core::mem::swap(&mut cs, cx_state);
    let mut cx = crate::widget::pod::EventCx { cx_state: cs, widget_state: ws, is_handled: false };
    let ghost start_root = root.state;
    let ghost start_ws = cx.widget_state;
    let ghost mut roots: Seq<Pod<W>> = seq![*root];
    let ghost mut cxs: Seq<EventCx> = seq![cx];
    let mut i: usize = 0;
    while i < events.len()
        invariant
            i <= events@.len(),
            crate::widget::pod::same_geometry(start_root, root.state),
            crate::widget::pod::parent_keeps(start_ws, cx.widget_state),
            roots.len() == i + 1,
            cxs.len() == i + 1,
            roots[0] == *old(root),
            cxs[0] == (EventCx { cx_state: *old(cx_state), widget_state: *old(root_state), is_handled: false }),
            roots[i as int] == *root,
            cxs[i as int] == cx,
            forall|j: int| 0 <= j < i ==> #[trigger] pod_event_post(roots[j], roots[j + 1], cxs[j], cxs[j + 1], events@[j]),
        decreases events.len() - i,
    {
        root.event(&mut cx, &events[i]);
        proof {
            roots = roots.push(*root);
            cxs = cxs.push(cx);
        }
        i = i + 1;
    }
    let r = cx.is_handled;
    *root_state = cx.widget_state;
    *cx_state = cx.cx_state;
    assert(batch_dispatched(roots, cxs, events@));
    r
}

/// Whether the root widget needs a new layout: it asks for one, its tree changed, or
/// the terminal has a new size.
pub open spec fn needs_layout(flags_bits: u32, term_size: Size, last_size: Size) -> bool {
    flags_bits & 0x12 != 0 || term_size != last_size
}

/// The constraints the root widget is laid out with on a terminal of `term_size`: any
/// size up to the terminal's.
pub open spec fn root_constraints(term_size: Size) -> BoxConstraints {
    BoxConstraints { min: Size::zero_spec(), max: term_size }
}

/// The root `after` is `before` laid out within [`root_constraints`] (with the shared
/// state `cx_state` and the root's context state `root_state`), with the size its widget
/// chose, and put at the origin.
pub open spec fn root_laid_out<W: Widget>(
    before: Pod<W>,
    after: Pod<W>,
    cx_state: CxState,
    root_state: WidgetState,
    term_size: Size,
) -> bool {
    exists|laid: Pod<W>, c1: LayoutCx|
        #[trigger] pod_layout_post(
            before,
            laid,
            LayoutCx { cx_state: cx_state, widget_state: root_state },
            c1,
            root_constraints(term_size),
            laid.state.size,
        ) && after.widget == laid.widget && after.state.size == laid.state.size
            && after.state.origin == Point::new_spec(0, 0)
}

/// Lays the root widget out in the whole terminal (any size up to the terminal's) and
/// puts it at the origin.
pub fn layout_root<W: Widget>(
    root: &mut Pod<W>,
    root_state: &mut WidgetState,
    cx_state: &mut CxState,
    term_size: Size,
)
    ensures
        root_laid_out(*old(root), *final(root), *old(cx_state), *old(root_state), term_size),
        final(root).state.origin == Point::new_spec(0, 0),
        final(root).state.flags.bits & 0x2 == 0,
        final(root).state.parent_window_origin == old(root).state.parent_window_origin,
        crate::widget::pod::same_geometry(*old(root_state), *final(root_state)),
{
    let mut ws = WidgetState::new();
    core::mem::swap(&mut ws, root_state);
    let mut cs = CxState { messages: Vec::new() };
    core::mem::swap(&mut cs, cx_state);
    let mut layout_cx = LayoutCx { cx_state: cs, widget_state: ws };
    let ghost c0 = layout_cx;
    let bc = BoxConstraints::tight(term_size).loosen();
    root.layout(&mut layout_cx, &bc);
    let ghost laid = *root;
    let ghost c1 = layout_cx;
    let ghost b = root.state.flags.bits;
    root.set_origin(&mut layout_cx, Point::origin());
    proof {
        assert(b & 0x2 == 0 ==> (b | 0x100) & 0x2 == 0) by (bit_vector);
    }
    *root_state = layout_cx.widget_state;
    *cx_state = layout_cx.cx_state;
    assert(bc == root_constraints(term_size));
    assert(pod_layout_post(*old(root), laid, c0, c1, root_constraints(term_size), laid.state.size)
        && root.widget == laid.widget && root.state.size == laid.state.size
        && root.state.origin == Point::new_spec(0, 0));
}

/// Tells the root widget where it is in the window (at the origin) and where the mouse
/// is, when its view context changed.
pub fn update_root_view_context<W: Widget>(
    root: &mut Pod<W>,
    root_state: &mut WidgetState,
    cx_state: &mut CxState,
    cursor: Option<Point>,
)
    ensures
        final(root).state.size == old(root).state.size,
        final(root).state.origin == old(root).state.origin,
        final(root).state.parent_window_origin == Point::new_spec(0, 0),
        crate::widget::pod::hot_bit(final(root).state.flags) == crate::widget::pod::hot_at(
            old(root).state,
            cursor,
        ),
        final(root_state).flags == merged(old(root_state).flags, final(root).state.flags),
        old(root).state.flags.bits & 0x8 != 0 ==> final(root).state.flags.bits & 0x8 != 0,
{
    let mut ws = WidgetState::new();
    core::mem::swap(&mut ws, root_state);
    let mut cs = CxState { messages: Vec::new() };
    core::mem::swap(&mut cs, cx_state);
    let mut lifecycle_cx = LifeCycleCx { cx_state: cs, widget_state: ws };
    let view_context = ViewContext { window_origin: Point::origin(), mouse_position: cursor };
    root.lifecycle(&mut lifecycle_cx, &LifeCycle::ViewContextChanged(view_context));
    *root_state = lifecycle_cx.widget_state;
    *cx_state = lifecycle_cx.cx_state;
}

/// Whether `cmds` are the paint instructions of painting `before` (which becomes `after`)
/// from scratch: with the shared state `cx_state` and the root's context state
/// `root_state`, no instructions before and no style imposed.
pub open spec fn painted_from_scratch<W: Widget>(
    before: Pod<W>,
    after: Pod<W>,
    cx_state: CxState,
    root_state: WidgetState,
    cmds: Vec<DrawCommand>,
) -> bool {
    exists|c0: PaintCx, c1: PaintCx|
        #[trigger] pod_paint_post(before, after, c0, c1) && c0.cx_state == cx_state
            && c0.widget_state == root_state && c0.commands@ == Seq::<DrawCommand>::empty()
            && c0.override_style == empty_style() && cmds == c1.commands
}

/// Paints the root widget, with no style imposed, and hands out the paint instructions.
pub fn paint_root<W: Widget>(root: &mut Pod<W>, root_state: &mut WidgetState, cx_state: &mut CxState) -> (r: Vec<DrawCommand>)
    ensures
        final(root).state.flags.bits & 0x8 == 0,
        crate::widget::pod::keeps_state(old(root).state, final(root).state),
        *final(root_state) == *old(root_state),
        painted_from_scratch(*old(root), *final(root), *old(cx_state), *old(root_state), r),
{
    let mut ws = WidgetState::new();
    core::mem::swap(&mut ws, root_state);
    let mut cs = CxState { messages: Vec::new() };
    core::mem::swap(&mut cs, cx_state);
    let mut paint_cx = PaintCx {
        cx_state: cs,
        widget_state: ws,
        commands: Vec::new(),
        override_style: Style::new(),
    };
    let ghost c0 = paint_cx;
    root.paint(&mut paint_cx);
    let ghost c1 = paint_cx;
    *root_state = paint_cx.widget_state;
    *cx_state = paint_cx.cx_state;
    assert(pod_paint_post(*old(root), *root, c0, c1) && c0.cx_state == *old(cx_state)
        && c0.widget_state == *old(root_state) && c0.commands@ == Seq::<DrawCommand>::empty()
        && c0.override_style == empty_style() && paint_cx.commands == c1.commands);
    paint_cx.commands
}

/// What one render pass does (see [`render_pass`]), from the root `old_root` with the
/// context state `old_rs`, the shared state `old_cs` and the last terminal size
/// `old_last`, to `new_root`, `new_rs`, `new_cs` and `new_last`; `r` is what it returns.
pub open spec fn render_pass_post<W: Widget>(
    old_root: Pod<W>,
    new_root: Pod<W>,
    old_rs: WidgetState,
    new_rs: WidgetState,
    old_cs: CxState,
    term_size: Size,
    old_last: Size,
    new_last: Size,
    r: Option<Vec<DrawCommand>>,
) -> bool {
    let layout = needs_layout(old_root.state.flags.bits, term_size, old_last);
    &&& new_last == (if layout {
        term_size
    } else {
        old_last
    })
    &&& layout ==> {
        &&& r is Some
        &&& new_root.state.origin == Point::new_spec(0, 0)
        &&& exists|laid: Pod<W>|
            #[trigger] root_laid_out(old_root, laid, old_cs, old_rs, term_size)
                && new_root.state.size == laid.state.size
    }
    &&& new_root.state.flags.bits & 0x8 == 0
    &&& layout || old_root.state.flags.bits & 0x8 != 0 ==> r is Some
    &&& r is Some && !layout && old_root.state.flags.bits & 0x8 == 0
        ==> old_root.state.flags.bits & 0x100 != 0
    &&& r is Some ==> exists|painted: Pod<W>, cs: CxState, rs: WidgetState|
        #[trigger] painted_from_scratch(painted, new_root, cs, rs, r->0) && (!layout
            ==> painted.state.flags.bits & 0x8 != 0) && (!layout && old_root.state.flags.bits
            & 0x100 == 0 ==> painted == old_root && cs == old_cs && rs == old_rs)
    &&& r is None ==> {
        &&& !layout
        &&& new_root.state.origin == old_root.state.origin
        &&& new_root.state.size == old_root.state.size
    }
}

/// One render pass over the root widget: a new layout when the root asks for one or
/// the terminal changed size (the new size is remembered in `last_size`), then a new
/// view context when the root's changed, then a paint when a paint request stands then
/// (one may come from the view-context pass) or the root was laid out, so that no paint
/// request is left. Returns the paint instructions when it painted: those of painting
/// the root from scratch, as it stood after the layout and the new view context.
pub fn render_pass<W: Widget>(
    root: &mut Pod<W>,
    root_state: &mut WidgetState,
    cx_state: &mut CxState,
    term_size: Size,
    last_size: &mut Size,
    cursor: Option<Point>,
) -> (r: Option<Vec<DrawCommand>>)
    ensures
        render_pass_post(
            *old(root),
            *final(root),
            *old(root_state),
            *final(root_state),
            *old(cx_state),
            term_size,
            *old(last_size),
            *final(last_size),
            r,
        ),
{
    proof {
        crate::widget::pod::lemma_flag_bits(root.state.flags.bits);
    }
    let layout_needed = root.state.flags.intersects(
        crate::flags::PodFlags::request_layout().union(crate::flags::PodFlags::tree_changed()),
    ) || term_size != *last_size;
    proof {
        assert(2u32 | 0x10u32 == 0x12u32) by (bit_vector);
    }
    if layout_needed {
        *last_size = term_size;
        layout_root(root, root_state, cx_state, term_size);
    }
    let ghost laid = *root;
    proof {
        crate::widget::pod::lemma_flag_bits(root.state.flags.bits);
    }
    if root.state.flags.contains(crate::flags::PodFlags::view_context_changed()) {
        update_root_view_context(root, root_state, cx_state, cursor);
    }
    proof {
        crate::widget::pod::lemma_flag_bits(root.state.flags.bits);
    }
    if root.state.flags.intersects(crate::flags::PodFlags::request_paint()) || layout_needed {
        let ghost painted = *root;
        let ghost cs = *cx_state;
        let ghost rs = *root_state;
        let cmds = paint_root(root, root_state, cx_state);
        let r = Some(cmds);
        assert(painted_from_scratch(painted, *root, cs, rs, r->0) && (!layout_needed
            ==> painted.state.flags.bits & 0x8 != 0) && (!layout_needed && old(root).state.flags.bits
            & 0x100 == 0 ==> painted == *old(root) && cs == *old(cx_state) && rs == *old(root_state)));
        assert(layout_needed ==> root_laid_out(*old(root), laid, *old(cx_state), *old(root_state), term_size)
            && root.state.size == laid.state.size);
        r
    } else {
        None
    }
}

/// What rendering a frame answers: the paint instructions when it painted, and whether
/// another frame is wanted (a widget asked for another animation step).
pub struct RenderOutcome {
    pub commands: Option<Vec<DrawCommand>>,
    pub rerender: bool,
}

/// The root `after` (with context state `rs1` and shared state `cs1`) after the animation
/// step of a frame from `before` (with `rs0` and `cs0`): the root gets the animation
/// notification when it asked for one, else nothing changes.
pub open spec fn root_animated<W: Widget>(
    before: Pod<W>,
    after: Pod<W>,
    rs0: WidgetState,
    rs1: WidgetState,
    cs0: CxState,
    cs1: CxState,
) -> bool {
    if before.state.flags.bits & 0x2000 != 0 {
        pod_lifecycle_post(
            before,
            after,
            LifeCycleCx { cx_state: cs0, widget_state: rs0 },
            LifeCycleCx { cx_state: cs1, widget_state: rs1 },
            LifeCycle::Animate,
        )
    } else {
        &&& after == before
        &&& rs1 == rs0
        &&& cs1 == cs0
    }
}

/// The animation step of a frame: when the root asked for another animation step, it
/// gets the animation notification.
pub fn animate_root<W: Widget>(root: &mut Pod<W>, root_state: &mut WidgetState, cx_state: &mut CxState)
    ensures
        root_animated(*old(root), *final(root), *old(root_state), *final(root_state), *old(cx_state), *final(cx_state)),
{
    proof {
        crate::widget::pod::lemma_flag_bits(root.state.flags.bits);
    }
    if root.state.flags.contains(crate::flags::PodFlags::request_animation()) {
        let mut ws = WidgetState::new();
        core::mem::swap(&mut ws, root_state);
        let mut cs = CxState { messages: Vec::new() };
        core::mem::swap(&mut cs, cx_state);
        let mut lifecycle_cx = LifeCycleCx { cx_state: cs, widget_state: ws };
        root.lifecycle(&mut lifecycle_cx, &LifeCycle::Animate);
        *root_state = lifecycle_cx.widget_state;
        *cx_state = lifecycle_cx.cx_state;
    }
}

/// Renders a frame: the animation step (see [`animate_root`]), then a render pass (see
/// [`render_pass`]); another frame is wanted when the root asks for another animation
/// step at the end.
pub fn render_frame<W: Widget>(
    root: &mut Pod<W>,
    root_state: &mut WidgetState,
    cx_state: &mut CxState,
    term_size: Size,
    last_size: &mut Size,
    cursor: Option<Point>,
) -> (r: RenderOutcome)
    ensures
        exists|anim: Pod<W>, rs: WidgetState, cs: CxState|
            #[trigger] root_animated(*old(root), anim, *old(root_state), rs, *old(cx_state), cs)
                && render_pass_post(
                anim,
                *final(root),
                rs,
                *final(root_state),
                cs,
                term_size,
                *old(last_size),
                *final(last_size),
                r.commands,
            ),
        r.rerender == (final(root).state.flags.bits & 0x2000 != 0),
{
    animate_root(root, root_state, cx_state);
    let ghost anim = *root;
    let ghost rs = *root_state;
    let ghost cs = *cx_state;
    let commands = render_pass(root, root_state, cx_state, term_size, last_size, cursor);
    assert(root_animated(*old(root), anim, *old(root_state), rs, *old(cx_state), cs) && render_pass_post(
        anim,
        *root,
        rs,
        *root_state,
        cs,
        term_size,
        *old(last_size),
        *last_size,
        commands,
    ));
    proof {
        crate::widget::pod::lemma_flag_bits(root.state.flags.bits);
    }
    let rerender = root.state.flags.contains(crate::flags::PodFlags::request_animation());
    RenderOutcome { commands, rerender }
}

/// Law: a render request that may wait, made while the task of one view is pending,
/// does not render at once; the wake-up of that task with a rebuild then renders, without
/// waking the terminal side again. A render request that may not wait always renders
/// at once, and a wake-up without a rebuild changes nothing.
pub proof fn lemma_delayed_render_waits_for_pending(m: AppTaskModel, id: Id, other: Id)
    requires
        m.ui_state == UiState::Start,
        m.pending == Set::<Id>::empty().insert(id),
    ensures
        !task_after_render_request(m, true).1,
        task_after_render_request(m, true).0.ui_state == UiState::Delayed,
        task_after_wake(task_after_render_request(m, true).0, id, true).1 == (WakeAction {
            send_wake_event: false,
            render: true,
        }),
        task_after_render_request(m, false).1,
        task_after_wake(m, other, false) == (m, WakeAction { send_wake_event: false, render: false }),
{
    assert(m.pending.contains(id));
    assert(m.pending.remove(id) =~= Set::<Id>::empty());
}

} // verus!
