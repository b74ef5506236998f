use scantpaper::actions::{
    accelerator, column_schema, command_name, handler_for, parse_command, parse_renderer_tag,
    ColumnSpec, CommandName, Handler, RendererKind,
};
use scantpaper::controller::{AppCore, Event, UiAction, OPENED_PAGE_INDEX};
use scantpaper::page_list::{PageListModel, PageRow, Thumbnail, THUMBNAIL_BOX};
use scantpaper::text::str_eq;

fn thumb(handle: u64, width: u32, height: u32) -> Thumbnail {
    Thumbnail::try_new(handle, width, height).expect("dimensions within the bounding box")
}

fn started_core() -> AppCore {
    let mut core = AppCore::new();
    let effect = core.step(Event::Startup);
    assert_eq!(effect, UiAction::ShowWindow);
    core
}

#[test]
fn startup_shows_window() {
    let mut core = AppCore::new();
    assert!(!core.is_started());
    assert!(!core.is_window_visible());
    let effect = core.step(Event::Startup);
    assert_eq!(effect, UiAction::ShowWindow);
    assert!(core.is_started());
    assert!(core.is_window_visible());
    assert_eq!(core.page_count(), 0);
    assert_eq!(core.preview(), None);
}

#[test]
fn activate_presents_existing_window() {
    let mut core = started_core();
    let effect = core.step(Event::Activate);
    assert_eq!(effect, UiAction::PresentWindow);
    assert!(core.is_window_visible());
    assert_eq!(core.page_count(), 0);
}

#[test]
fn open_count_matches_successful_opens() {
    let mut core = started_core();
    for n in 0..3u64 {
        let effect = core.step(Event::OpenDecoded(thumb(n, 100, 80)));
        assert_eq!(
            effect,
            UiAction::AppendRow {
                position: n as usize,
                row: PageRow {
                    page_index: OPENED_PAGE_INDEX,
                    thumbnail: thumb(n, 100, 80),
                },
            }
        );
        assert_eq!(core.page_count(), n as usize + 1);
    }
}

#[test]
fn select_sets_preview_and_clear_keeps_it() {
    let mut core = started_core();
    let a = thumb(1, 100, 80);
    let b = thumb(2, 60, 100);
    let c = thumb(3, 50, 50);
    core.step(Event::OpenDecoded(a));
    core.step(Event::OpenDecoded(b));
    core.step(Event::OpenDecoded(c));
    for (i, t) in [a, b, c].into_iter().enumerate() {
        let effect = core.step(Event::CursorChanged(Some(i)));
        assert_eq!(effect, UiAction::SetPreview(t));
        assert_eq!(core.preview(), Some(t));
    }
    let effect = core.step(Event::CursorChanged(None));
    assert_eq!(effect, UiAction::NoEffect);
    assert_eq!(core.preview(), Some(c));
}

#[test]
fn close_hides_window_regardless_of_model_state() {
    let mut empty = started_core();
    assert_eq!(empty.step(Event::CloseRequested), UiAction::CloseWindow);
    assert!(!empty.is_window_visible());

    let mut full = started_core();
    full.step(Event::OpenDecoded(thumb(1, 100, 100)));
    full.step(Event::CursorChanged(Some(0)));
    assert_eq!(full.step(Event::CloseRequested), UiAction::CloseWindow);
    assert!(!full.is_window_visible());
    assert_eq!(full.page_count(), 1);
}

#[test]
fn decode_failure_leaves_model_unchanged() {
    let mut core = started_core();
    core.step(Event::OpenDecoded(thumb(1, 100, 80)));
    let effect = core.step(Event::OpenDecodeFailed);
    assert_eq!(effect, UiAction::ReportDecodeFailure);
    assert_eq!(core.page_count(), 1);
    assert_eq!(core.page_row(0).thumbnail, thumb(1, 100, 80));
    assert_eq!(core.preview(), None);
}

#[test]
fn open_cancel_changes_nothing() {
    let mut core = started_core();
    let effect = core.step(Event::OpenCancelled);
    assert_eq!(effect, UiAction::NoEffect);
    assert_eq!(core.page_count(), 0);
    assert!(core.is_window_visible());
}

#[test]
fn rows_keep_their_value_through_every_operation() {
    let mut core = started_core();
    let first = thumb(1, 100, 80);
    core.step(Event::OpenDecoded(first));
    let inserted = core.page_row(0);
    core.step(Event::OpenDecoded(thumb(2, 60, 100)));
    core.step(Event::CursorChanged(Some(1)));
    core.step(Event::CursorChanged(None));
    core.step(Event::OpenDecodeFailed);
    core.step(Event::OpenCancelled);
    core.step(Event::Activate);
    core.step(Event::CloseRequested);
    assert_eq!(core.page_row(0), inserted);
    assert_eq!(
        inserted,
        PageRow {
            page_index: OPENED_PAGE_INDEX,
            thumbnail: first,
        }
    );
}

#[test]
fn example_scenario_two_opens_then_select_then_clear() {
    let mut core = started_core();
    let thumb_a = thumb(1, 100, 80);
    let effect = core.step(Event::OpenDecoded(thumb_a));
    assert_eq!(
        effect,
        UiAction::AppendRow {
            position: 0,
            row: PageRow {
                page_index: 1,
                thumbnail: thumb_a,
            },
        }
    );
    assert_eq!(core.page_count(), 1);
    assert_eq!(
        core.page_row(0),
        PageRow {
            page_index: 1,
            thumbnail: thumb_a,
        }
    );

    let thumb_b = thumb(2, 90, 100);
    core.step(Event::OpenDecoded(thumb_b));
    assert_eq!(core.page_count(), 2);
    assert_eq!(
        core.page_row(1),
        PageRow {
            page_index: 1,
            thumbnail: thumb_b,
        }
    );

    let effect = core.step(Event::CursorChanged(Some(1)));
    assert_eq!(effect, UiAction::SetPreview(thumb_b));
    assert_eq!(core.preview(), Some(thumb_b));

    let effect = core.step(Event::CursorChanged(None));
    assert_eq!(effect, UiAction::NoEffect);
    assert_eq!(core.preview(), Some(thumb_b));
}

#[test]
fn page_list_model_appends_in_order() {
    let mut model = PageListModel::new();
    assert_eq!(model.len(), 0);
    let t = thumb(9, 40, 30);
    assert_eq!(model.append(1, t), 0);
    assert_eq!(model.append(1, thumb(10, 100, 100)), 1);
    assert_eq!(model.len(), 2);
    assert_eq!(
        model.row(0),
        PageRow {
            page_index: 1,
            thumbnail: t,
        }
    );
}

#[test]
fn thumbnail_accepts_exactly_the_bounding_box() {
    assert!(Thumbnail::try_new(1, THUMBNAIL_BOX, THUMBNAIL_BOX).is_some());
    assert!(Thumbnail::try_new(1, 1, 1).is_some());
    assert_eq!(Thumbnail::try_new(1, 0, 50), None);
    assert_eq!(Thumbnail::try_new(1, 50, 0), None);
    assert_eq!(Thumbnail::try_new(1, THUMBNAIL_BOX + 1, 50), None);
    assert_eq!(Thumbnail::try_new(1, 50, THUMBNAIL_BOX + 1), None);
    let t = Thumbnail::try_new(7, 100, 80).unwrap();
    assert_eq!(t.handle, 7);
    assert_eq!(t.width, 100);
    assert_eq!(t.height, 80);
}

#[test]
fn command_names_round_trip() {
    let all = [
        CommandName::New,
        CommandName::Open,
        CommandName::Scan,
        CommandName::Save,
        CommandName::Email,
        CommandName::Print,
        CommandName::Close,
    ];
    for c in all {
        assert_eq!(parse_command(command_name(c)), Some(c));
    }
}

#[test]
fn command_names_are_the_declared_ones() {
    assert_eq!(command_name(CommandName::New), "new");
    assert_eq!(command_name(CommandName::Open), "open");
    assert_eq!(command_name(CommandName::Scan), "scan");
    assert_eq!(command_name(CommandName::Save), "save");
    assert_eq!(command_name(CommandName::Email), "email");
    assert_eq!(command_name(CommandName::Print), "print");
    assert_eq!(command_name(CommandName::Close), "close");
    assert_eq!(parse_command("open"), Some(CommandName::Open));
    assert_eq!(parse_command("quit"), None);
    assert_eq!(parse_command(""), None);
    assert_eq!(parse_command("Open"), None);
}

#[test]
fn accelerators_use_the_declared_keys() {
    assert_eq!(accelerator(CommandName::New), "<Ctrl>N");
    assert_eq!(accelerator(CommandName::Open), "<Ctrl>O");
    assert_eq!(accelerator(CommandName::Scan), "<Ctrl>G");
    assert_eq!(accelerator(CommandName::Save), "<Ctrl>S");
    assert_eq!(accelerator(CommandName::Email), "<Ctrl>E");
    assert_eq!(accelerator(CommandName::Print), "<Ctrl>P");
    assert_eq!(accelerator(CommandName::Close), "<Ctrl>Q");
}

#[test]
fn only_open_and_close_have_handlers() {
    assert_eq!(handler_for(CommandName::Open), Some(Handler::ShowOpenDialog));
    assert_eq!(handler_for(CommandName::Close), Some(Handler::CloseWindow));
    assert_eq!(handler_for(CommandName::New), None);
    assert_eq!(handler_for(CommandName::Scan), None);
    assert_eq!(handler_for(CommandName::Save), None);
    assert_eq!(handler_for(CommandName::Email), None);
    assert_eq!(handler_for(CommandName::Print), None);
}

#[test]
fn renderer_tags_parse_exactly() {
    assert_eq!(parse_renderer_tag("text"), Some(RendererKind::Text));
    assert_eq!(parse_renderer_tag("pixbuf"), Some(RendererKind::Pixbuf));
    assert_eq!(parse_renderer_tag("icon"), None);
    assert_eq!(parse_renderer_tag(""), None);
}

#[test]
fn column_schema_is_text_then_pixbuf() {
    let schema = column_schema();
    assert_eq!(
        schema,
        vec![
            ColumnSpec {
                renderer: RendererKind::Text,
                column: 0,
            },
            ColumnSpec {
                renderer: RendererKind::Pixbuf,
                column: 1,
            },
        ]
    );
}

#[test]
fn str_eq_compares_characters() {
    assert!(str_eq("", ""));
    assert!(str_eq("open", "open"));
    assert!(!str_eq("open", "opem"));
    assert!(!str_eq("open", "ope"));
    assert!(!str_eq("", "a"));
    assert!(str_eq("naïve", "naïve"));
    assert!(!str_eq("naïve", "naive"));
}
