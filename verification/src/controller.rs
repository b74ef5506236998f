//! The application core: lifecycle, page list, and preview, driven as one
//! state machine. Every decision the unverified shell makes goes through
//! [`AppCore::step`]: the shell delivers an [`Event`], the core updates its
//! state and answers with the one [`UiAction`] the shell must perform.

use vstd::prelude::*;
use crate::page_list::{PageListModel, PageRow, Thumbnail};

verus! {

/// The page number written into every appended row. Page numbering is not
/// derived from the row's position in this core: each opened page is shown
/// as page 1.
pub const OPENED_PAGE_INDEX: u32 = 1;

/// An occurrence the shell reports to the core: a lifecycle signal from the
/// host environment, the outcome of the open dialog, or a cursor change in
/// the list view.
#[derive(Clone, Copy, Debug)]
pub enum Event {
    /// The host environment started the application.
    Startup,
    /// The host environment asked the application to present itself.
    Activate,
    /// The open dialog was accepted and the chosen file decoded.
    OpenDecoded(Thumbnail),
    /// The open dialog was accepted but the chosen file failed to decode.
    OpenDecodeFailed,
    /// The open dialog was cancelled.
    OpenCancelled,
    /// The close command was invoked.
    CloseRequested,
    /// The list view's cursor moved to the given row, or to no row.
    CursorChanged(Option<usize>),
}

/// The one effect the shell must perform after a step.
#[derive(Clone, Copy, PartialEq, Eq, Structural, Debug)]
pub enum UiAction {
    /// Show the freshly built window.
    ShowWindow,
    /// Raise the already-built window.
    PresentWindow,
    /// Insert `row` at `position` in the view's copy of the page list.
    AppendRow { position: usize, row: PageRow },
    /// Tell the user the chosen file could not be decoded.
    ReportDecodeFailure,
    /// Close the window.
    CloseWindow,
    /// Put this thumbnail into the preview widget.
    SetPreview(Thumbnail),
    /// Nothing to do.
    NoEffect,
}

/// The core's state, as contracts see it.
#[verifier::ext_equal]
pub ghost struct CoreView {
    /// Whether the startup signal has been handled.
    pub started: bool,
    /// Whether the main window is shown.
    pub visible: bool,
    /// The page list, oldest row first.
    pub rows: Seq<PageRow>,
    /// What the preview widget shows, if anything.
    pub preview: Option<Thumbnail>,
}

impl CoreView {
    /// The state before any event: no window, no rows, no preview.
    pub open spec fn initial() -> CoreView {
        CoreView { started: false, visible: false, rows: Seq::empty(), preview: None }
    }

    pub open spec fn wf(self) -> bool {
        &&& (self.visible ==> self.started)
        &&& (!self.started ==> self.rows.len() == 0 && self.preview is None)
        &&& (forall|i: int| 0 <= i < self.rows.len() ==> (#[trigger] self.rows[i]).wf())
        &&& (self.preview matches Some(t) ==> t.wf())
    }
}

/// When an event can reach the core at all: lifecycle signals order the
/// rest, a decoded thumbnail fits the decoder's bounding box, and a cursor
/// position names an existing row.
pub open spec fn event_enabled(s: CoreView, e: Event) -> bool {
    match e {
        Event::Startup => !s.started,
        Event::Activate => s.started,
        Event::OpenDecoded(t) => s.started && t.wf(),
        Event::OpenDecodeFailed => s.started,
        Event::OpenCancelled => s.started,
        Event::CloseRequested => s.started,
        Event::CursorChanged(sel) => s.started && (sel matches Some(i) ==> i < s.rows.len()),
    }
}

/// The state after an event.
pub open spec fn step_state(s: CoreView, e: Event) -> CoreView {
    match e {
        Event::Startup => CoreView { started: true, visible: true, ..s },
        Event::Activate => CoreView { visible: true, ..s },
        Event::OpenDecoded(t) => CoreView {
            rows: s.rows.push(PageRow { page_index: OPENED_PAGE_INDEX, thumbnail: t }),
            ..s
        },
        Event::OpenDecodeFailed => s,
        Event::OpenCancelled => s,
        Event::CloseRequested => CoreView { visible: false, ..s },
        Event::CursorChanged(sel) => match sel {
            Some(i) => CoreView { preview: Some(s.rows[i as int].thumbnail), ..s },
            None => s,
        },
    }
}

/// The effect an event asks of the shell.
pub open spec fn step_effect(s: CoreView, e: Event) -> UiAction {
    match e {
        Event::Startup => UiAction::ShowWindow,
        Event::Activate => UiAction::PresentWindow,
        Event::OpenDecoded(t) => UiAction::AppendRow {
            position: s.rows.len() as usize,
            row: PageRow { page_index: OPENED_PAGE_INDEX, thumbnail: t },
        },
        Event::OpenDecodeFailed => UiAction::ReportDecodeFailure,
        Event::OpenCancelled => UiAction::NoEffect,
        Event::CloseRequested => UiAction::CloseWindow,
        Event::CursorChanged(sel) => match sel {
            Some(i) => UiAction::SetPreview(s.rows[i as int].thumbnail),
            None => UiAction::NoEffect,
        },
    }
}

/// The application core.
pub struct AppCore {
    started: bool,
    window_visible: bool,
    model: PageListModel,
    preview: Option<Thumbnail>,
}

impl View for AppCore {
    type V = CoreView;

    closed spec fn view(&self) -> CoreView {
        CoreView {
            started: self.started,
            visible: self.window_visible,
            rows: self.model@,
            preview: self.preview,
        }
    }
}

impl AppCore {
    /// The core as it is before the startup signal.
    pub fn new() -> (core: AppCore)
        ensures
            core@ == CoreView::initial(),
            core@.wf(),
    {
        let core = AppCore {
            started: false,
            window_visible: false,
            model: PageListModel::new(),
            preview: None,
        };
        proof {
            assert(core@ =~= CoreView::initial());
        }
        core
    }

    /// Handles one event: moves to the next state and names the one effect
    /// the shell must perform.
    pub fn step(&mut self, e: Event) -> (effect: UiAction)
        requires
            event_enabled(old(self)@, e),
        ensures
            final(self)@ == step_state(old(self)@, e),
            effect == step_effect(old(self)@, e),
    {
        match e {
            Event::Startup => {
                self.started = true;
                self.window_visible = true;
                UiAction::ShowWindow
            },
            Event::Activate => {
                self.window_visible = true;
                UiAction::PresentWindow
            },
            Event::OpenDecoded(t) => {
                let position = self.model.append(OPENED_PAGE_INDEX, t);
                UiAction::AppendRow {
                    position,
                    row: PageRow { page_index: OPENED_PAGE_INDEX, thumbnail: t },
                }
            },
            Event::OpenDecodeFailed => UiAction::ReportDecodeFailure,
            Event::OpenCancelled => UiAction::NoEffect,
            Event::CloseRequested => {
                self.window_visible = false;
                UiAction::CloseWindow
            },
            Event::CursorChanged(sel) => match sel {
                Some(i) => {
                    let row = self.model.row(i);
                    self.preview = Some(row.thumbnail);
                    UiAction::SetPreview(row.thumbnail)
                },
                None => UiAction::NoEffect,
            },
        }
    }

    pub fn is_started(&self) -> (b: bool)
        ensures
            b == self@.started,
    {
        self.started
    }

    pub fn is_window_visible(&self) -> (b: bool)
        ensures
            b == self@.visible,
    {
        self.window_visible
    }

    pub fn page_count(&self) -> (n: usize)
        ensures
            n == self@.rows.len(),
    {
        self.model.len()
    }

    pub fn page_row(&self, i: usize) -> (r: PageRow)
        requires
            i < self@.rows.len(),
        ensures
            r == self@.rows[i as int],
    {
        self.model.row(i)
    }

    pub fn preview(&self) -> (p: Option<Thumbnail>)
        ensures
            p == self@.preview,
    {
        self.preview
    }
}

/// Every event keeps the core well formed.
pub proof fn lemma_step_preserves_wf(s: CoreView, e: Event)
    requires
        s.wf(),
        event_enabled(s, e),
    ensures
        step_state(s, e).wf(),
{
}

/// The state after a run of successful opens, applied oldest first.
pub open spec fn after_opens(s: CoreView, thumbs: Seq<Thumbnail>) -> CoreView
    decreases thumbs.len(),
{
    if thumbs.len() == 0 {
        s
    } else {
        step_state(after_opens(s, thumbs.drop_last()), Event::OpenDecoded(thumbs.last()))
    }
}

/// Successful opens only append: after a run of them the page list holds
/// the old rows followed by one new row per decoded thumbnail, in order,
/// each carrying the fixed page number; nothing else changes.
pub proof fn lemma_opens_append_rows(s: CoreView, thumbs: Seq<Thumbnail>)
    ensures
        after_opens(s, thumbs).rows =~= s.rows + thumbs.map_values(
            |t: Thumbnail| PageRow { page_index: OPENED_PAGE_INDEX, thumbnail: t },
        ),
        after_opens(s, thumbs).started == s.started,
        after_opens(s, thumbs).visible == s.visible,
        after_opens(s, thumbs).preview == s.preview,
    decreases thumbs.len(),
{
    let to_row = |t: Thumbnail| PageRow { page_index: OPENED_PAGE_INDEX, thumbnail: t };
    if thumbs.len() > 0 {
        lemma_opens_append_rows(s, thumbs.drop_last());
        assert(thumbs.map_values(to_row) =~= thumbs.drop_last().map_values(to_row).push(
            to_row(thumbs.last()),
        ));
    }
}

/// The page list never drops a row: after N successful opens it holds
/// exactly N more rows, so N opens from the empty model leave exactly N.
pub proof fn lemma_open_count(s: CoreView, thumbs: Seq<Thumbnail>)
    ensures
        after_opens(s, thumbs).rows.len() == s.rows.len() + thumbs.len(),
{
    lemma_opens_append_rows(s, thumbs);
}

/// Selecting row `i` sets the preview to exactly row `i`'s thumbnail, and
/// touches nothing else.
pub proof fn lemma_select_sets_preview(s: CoreView, i: usize)
    requires
        i < s.rows.len(),
    ensures
        step_state(s, Event::CursorChanged(Some(i))).preview == Some(s.rows[i as int].thumbnail),
        step_state(s, Event::CursorChanged(Some(i))).rows == s.rows,
        step_state(s, Event::CursorChanged(Some(i))).visible == s.visible,
{
}

/// Clearing the selection changes nothing: the preview keeps showing what
/// it showed.
pub proof fn lemma_clear_selection_is_noop(s: CoreView)
    ensures
        step_state(s, Event::CursorChanged(None)) == s,
        step_effect(s, Event::CursorChanged(None)) == UiAction::NoEffect,
{
}

/// After opening thumbnails t_0 .. t_(N-1) into an empty page list,
/// selecting row `i` previews exactly t_i.
pub proof fn lemma_select_after_opens(s: CoreView, thumbs: Seq<Thumbnail>, i: usize)
    requires
        s.rows.len() == 0,
        i < thumbs.len(),
    ensures
        step_state(after_opens(s, thumbs), Event::CursorChanged(Some(i))).preview == Some(
            thumbs[i as int],
        ),
{
    lemma_opens_append_rows(s, thumbs);
}

/// Closing always hides the window, whatever the page list and preview
/// hold, and leaves both as they were.
pub proof fn lemma_close_hides_window(s: CoreView)
    ensures
        !step_state(s, Event::CloseRequested).visible,
        step_state(s, Event::CloseRequested).rows == s.rows,
        step_state(s, Event::CloseRequested).preview == s.preview,
        step_effect(s, Event::CloseRequested) == UiAction::CloseWindow,
{
}

/// A failed decode leaves the core exactly as it was: no partial row, no
/// change of length.
pub proof fn lemma_decode_failure_changes_nothing(s: CoreView)
    ensures
        step_state(s, Event::OpenDecodeFailed) == s,
        step_state(s, Event::OpenDecodeFailed).rows.len() == s.rows.len(),
{
}

/// No event rewrites a row already inserted: the page list only grows, and
/// every existing row keeps its value.
pub proof fn lemma_rows_immutable(s: CoreView, e: Event, i: int)
    requires
        0 <= i < s.rows.len(),
    ensures
        s.rows.len() <= step_state(s, e).rows.len(),
        step_state(s, e).rows[i] == s.rows[i],
{
}

} // verus!
