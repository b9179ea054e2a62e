use yoku::app::App;
use yoku::app::EditorMode;
use yoku::todo::FileList;
use yoku::todo::Note;
use yoku::todo::NoteEnum;
use yoku::todo::Section;
use yoku::todo::STARTER_FILE_TITLE;

fn one_doc() -> FileList {
    FileList {
        sections: vec![
            Section {
                title: "Todo".to_string(),
                description: "desc".to_string(),
                notes: vec![
                    Note { content: "a".to_string(), state: NoteEnum::OPEN },
                    Note { content: "b".to_string(), state: NoteEnum::DONE },
                ],
            },
            Section {
                title: "Later".to_string(),
                description: String::new(),
                notes: Vec::new(),
            },
        ],
    }
}

fn sample_app() -> App {
    App::new(
        vec!["first".to_string(), "second".to_string()],
        vec!["/data/first.md".to_string(), "/data/second.md".to_string()],
        vec![one_doc(), one_doc()],
        "/data".to_string(),
    )
}

#[test]
fn create_note_flow() {
    let mut app = sample_app();
    app.create_note();
    assert_eq!(app.mode, EditorMode::CreateNote);
    app.input = "buy milk".to_string();
    app.handle_enter();
    assert_eq!(app.mode, EditorMode::Nothing);
    assert_eq!(app.input, "");
    let notes = &app.lists[0].sections[0].notes;
    assert_eq!(notes.len(), 3);
    assert_eq!(notes[2].content, "buy milk");
    assert_eq!(notes[2].state, NoteEnum::OPEN);
}

#[test]
fn note_state_cycle_has_period_three() {
    let mut app = sample_app();
    app.navigate_down();
    app.navigate_down();
    assert_eq!(app.cursor_vertical, 2);
    assert_eq!(app.lists[0].sections[0].notes[0].state, NoteEnum::OPEN);
    app.cycle_note_state();
    assert_eq!(app.lists[0].sections[0].notes[0].state, NoteEnum::DONE);
    app.cycle_note_state();
    assert_eq!(app.lists[0].sections[0].notes[0].state, NoteEnum::REJECTED);
    app.cycle_note_state();
    assert_eq!(app.lists[0].sections[0].notes[0].state, NoteEnum::OPEN);
}

#[test]
fn set_note_state_direct() {
    let mut app = sample_app();
    app.navigate_down();
    app.navigate_down();
    app.set_note_state(NoteEnum::REJECTED);
    assert_eq!(app.lists[0].sections[0].notes[0].state, NoteEnum::REJECTED);
}

#[test]
fn navigation_stays_in_bounds() {
    let mut app = sample_app();
    for _ in 0..5 {
        app.next();
    }
    assert_eq!(app.file_index, 1);
    app.navigate_down();
    for _ in 0..5 {
        app.next();
    }
    assert_eq!(app.cursor_vertical, 1);
    assert_eq!(app.list_index, 1);
    for _ in 0..5 {
        app.previous();
    }
    assert_eq!(app.list_index, 0);
    app.navigate_down();
    assert_eq!(app.cursor_vertical, 2);
    for _ in 0..5 {
        app.next_note();
    }
    assert_eq!(app.note_index, 1);
    for _ in 0..5 {
        app.previous_note();
    }
    assert_eq!(app.note_index, 0);
    app.navigate_up();
    app.navigate_up();
    app.navigate_up();
    assert_eq!(app.cursor_vertical, 0);
}

#[test]
fn navigation_on_empty_workspace_is_noop() {
    let mut app = App::new(Vec::new(), Vec::new(), Vec::new(), "/data".to_string());
    app.next();
    app.previous();
    app.navigate_down();
    app.navigate_up();
    app.next_note();
    assert_eq!(app.cursor_vertical, 0);
    assert_eq!(app.file_index, 0);
}

#[test]
fn descend_into_empty_section_is_noop() {
    let mut app = sample_app();
    app.navigate_down();
    app.next();
    assert_eq!(app.list_index, 1);
    app.navigate_down();
    assert_eq!(app.cursor_vertical, 1);
}

#[test]
fn removing_last_note_moves_focus_back() {
    let mut app = sample_app();
    app.navigate_down();
    app.navigate_down();
    app.next_note();
    assert_eq!(app.note_index, 1);
    app.remove();
    assert_eq!(app.lists[0].sections[0].notes.len(), 1);
    assert_eq!(app.note_index, 0);
    assert_eq!(app.cursor_vertical, 2);
    app.remove();
    assert_eq!(app.lists[0].sections[0].notes.len(), 0);
    assert_eq!(app.note_index, 0);
    assert_eq!(app.cursor_vertical, 1);
}

#[test]
fn removing_last_section_pulls_focus_up() {
    let mut app = sample_app();
    app.navigate_down();
    app.next();
    assert_eq!(app.list_index, 1);
    app.remove();
    assert_eq!(app.lists[0].sections.len(), 1);
    assert_eq!(app.list_index, 0);
    assert_eq!(app.cursor_vertical, 1);
    app.remove();
    assert_eq!(app.lists[0].sections.len(), 0);
    assert_eq!(app.cursor_vertical, 0);
}

#[test]
fn removing_file_schedules_deletion() {
    let mut app = sample_app();
    app.next();
    assert_eq!(app.file_index, 1);
    app.remove();
    assert_eq!(app.files, vec!["first".to_string()]);
    assert_eq!(app.file_index, 0);
    let plan = app.save_plan();
    assert_eq!(plan.deletions, vec!["/data/second.md".to_string()]);
    app.remove();
    assert_eq!(app.files.len(), 0);
    assert_eq!(app.file_index, 0);
    assert_eq!(app.cursor_vertical, 0);
}

#[test]
fn create_file_appends_starter_document() {
    let mut app = sample_app();
    app.create_file();
    app.input = "errands".to_string();
    app.handle_enter();
    assert_eq!(app.files.len(), 3);
    assert_eq!(app.files[2], "errands");
    assert_eq!(app.paths[2], "/data/errands.md");
    assert_eq!(app.lists[2].sections.len(), 1);
    assert_eq!(app.lists[2].sections[0].title, STARTER_FILE_TITLE);
    assert_eq!(app.lists[2].sections[0].notes.len(), 1);
    assert_eq!(app.lists[2].sections[0].notes[0].state, NoteEnum::OPEN);
}

#[test]
fn create_list_appends_section() {
    let mut app = sample_app();
    app.create_list();
    app.input = "New list".to_string();
    app.handle_enter();
    assert_eq!(app.lists[0].sections.len(), 3);
    assert_eq!(app.lists[0].sections[2].title, "New list");
    assert_eq!(app.lists[0].sections[2].description, "");
    assert_eq!(app.lists[0].sections[2].notes.len(), 0);
}

#[test]
fn rename_file_schedules_old_path() {
    let mut app = sample_app();
    app.change();
    assert_eq!(app.mode, EditorMode::ChangeFileName);
    assert_eq!(app.input, "first");
    app.input = "renamed".to_string();
    app.handle_enter();
    assert_eq!(app.files[0], "renamed");
    assert_eq!(app.paths[0], "/data/renamed.md");
    let plan = app.save_plan();
    assert_eq!(plan.deletions, vec!["/data/first.md".to_string()]);
}

#[test]
fn rename_section_and_note() {
    let mut app = sample_app();
    app.navigate_down();
    app.change();
    assert_eq!(app.mode, EditorMode::ChangeListName);
    assert_eq!(app.input, "Todo");
    app.input = "Renamed".to_string();
    app.handle_enter();
    assert_eq!(app.lists[0].sections[0].title, "Renamed");
    app.navigate_down();
    app.change();
    assert_eq!(app.mode, EditorMode::ChangeNoteContent);
    assert_eq!(app.input, "a");
    app.input = "aa".to_string();
    app.handle_enter();
    assert_eq!(app.lists[0].sections[0].notes[0].content, "aa");
    assert_eq!(app.lists[0].sections[0].notes[0].state, NoteEnum::OPEN);
}

#[test]
fn change_description_flow() {
    let mut app = sample_app();
    app.change_description();
    assert_eq!(app.mode, EditorMode::ChangeListDescription);
    assert_eq!(app.input, "desc");
    app.input = "new words".to_string();
    app.handle_enter();
    assert_eq!(app.lists[0].sections[0].description, "new words");
}

#[test]
fn empty_commit_is_noop() {
    let mut app = sample_app();
    app.create_note();
    app.handle_enter();
    assert_eq!(app.mode, EditorMode::Nothing);
    assert_eq!(app.lists[0].sections[0].notes.len(), 2);
}

#[test]
fn cancel_discards_buffer() {
    let mut app = sample_app();
    app.change();
    app.input = "junk".to_string();
    app.cancel();
    assert_eq!(app.mode, EditorMode::Nothing);
    assert_eq!(app.input, "");
    assert_eq!(app.files[0], "first");
}

#[test]
fn save_plan_rewrites_only_changed_documents() {
    let mut app = sample_app();
    app.record_fingerprints();
    let plan = app.save_plan();
    assert_eq!(plan.writes.len(), 0);
    assert_eq!(plan.deletions.len(), 0);

    app.navigate_down();
    app.navigate_down();
    app.cycle_note_state();
    let plan = app.save_plan();
    assert_eq!(plan.writes.len(), 1);
    assert_eq!(plan.writes[0].path, "/data/first.md");
    assert_eq!(plan.writes[0].content, app.lists[0].serialize());
}

#[test]
fn save_plan_writes_unrecorded_documents() {
    let app = sample_app();
    let plan = app.save_plan();
    assert_eq!(plan.writes.len(), 2);
    assert_eq!(plan.writes[0].path, "/data/first.md");
    assert_eq!(plan.writes[1].path, "/data/second.md");
}

#[test]
fn rename_without_edit_still_rewrites_at_new_path() {
    let mut app = sample_app();
    app.record_fingerprints();
    let plan = app.save_plan();
    assert_eq!(plan.writes.len(), 0);

    app.change();
    app.input = "renamed".to_string();
    app.handle_enter();
    let plan = app.save_plan();
    assert_eq!(plan.deletions, vec!["/data/first.md".to_string()]);
    assert_eq!(plan.writes.len(), 1);
    assert_eq!(plan.writes[0].path, "/data/renamed.md");
    assert_eq!(plan.writes[0].content, app.lists[0].serialize());
}

#[test]
fn input_buffer_push_and_pop() {
    let mut app = sample_app();
    app.create_note();
    app.push_input('h');
    app.push_input('i');
    app.push_input('!');
    assert_eq!(app.input, "hi!");
    app.pop_input();
    assert_eq!(app.input, "hi");
    app.pop_input();
    app.pop_input();
    assert_eq!(app.input, "");
    app.pop_input();
    assert_eq!(app.input, "");
}
