use yoku::codec::parse_lines;
use yoku::todo::FileList;
use yoku::todo::Note;
use yoku::todo::NoteEnum;
use yoku::todo::Section;
use yoku::todo::TodoError;

fn lines(v: &[&str]) -> Vec<String> {
    v.iter().map(|s| s.to_string()).collect()
}

fn sample_doc() -> FileList {
    FileList {
        sections: vec![
            Section {
                title: "Todo".to_string(),
                description: "desc".to_string(),
                notes: vec![
                    Note { content: "a".to_string(), state: NoteEnum::OPEN },
                    Note { content: "b".to_string(), state: NoteEnum::DONE },
                ],
            },
        ],
    }
}

#[test]
fn parse_example() {
    let doc = parse_lines(lines(&["# Todo", "desc", "- [ ] a", "- [x] b"]));
    assert_eq!(doc.sections.len(), 1);
    let sec = &doc.sections[0];
    assert_eq!(sec.title, "Todo");
    assert_eq!(sec.description, "desc");
    assert_eq!(sec.notes.len(), 2);
    assert_eq!(sec.notes[0].content, "a");
    assert_eq!(sec.notes[0].state, NoteEnum::OPEN);
    assert_eq!(sec.notes[1].content, "b");
    assert_eq!(sec.notes[1].state, NoteEnum::DONE);
}

#[test]
fn serialize_example() {
    assert_eq!(sample_doc().serialize(), "# Todo\ndesc\n- [ ] a\n- [x] b\n");
}

#[test]
fn parse_marker_variants() {
    let doc = parse_lines(lines(&[
        "# T",
        "- [] open",
        "- [-] rejected",
        "- [x]",
        "- plain dash is ignored",
    ]));
    let sec = &doc.sections[0];
    assert_eq!(sec.notes.len(), 2);
    assert_eq!(sec.notes[0].content, "open");
    assert_eq!(sec.notes[0].state, NoteEnum::OPEN);
    assert_eq!(sec.notes[1].content, "rejected");
    assert_eq!(sec.notes[1].state, NoteEnum::REJECTED);
    assert_eq!(sec.description, "");
}

#[test]
fn parse_no_header_discards_lines() {
    let doc = parse_lines(lines(&["stray text", "- [ ] stray note"]));
    assert_eq!(doc.sections.len(), 1);
    assert_eq!(doc.sections[0].title, "");
    assert_eq!(doc.sections[0].description, "");
    assert_eq!(doc.sections[0].notes.len(), 0);
}

#[test]
fn parse_empty_input() {
    let doc = parse_lines(Vec::new());
    assert_eq!(doc.sections.len(), 1);
    assert_eq!(doc.sections[0].title, "");
}

#[test]
fn parse_description_collapses_lines() {
    let doc = parse_lines(lines(&["# T", "line one", "", "line two"]));
    assert_eq!(doc.sections[0].description, "line one line two");
}

#[test]
fn parse_several_sections() {
    let doc = parse_lines(lines(&["# A", "- [x] done", "", "# B", "words", "- [ ] todo"]));
    assert_eq!(doc.sections.len(), 2);
    assert_eq!(doc.sections[0].title, "A");
    assert_eq!(doc.sections[0].notes.len(), 1);
    assert_eq!(doc.sections[1].title, "B");
    assert_eq!(doc.sections[1].description, "words");
    assert_eq!(doc.sections[1].notes.len(), 1);
}

#[test]
fn serialize_separates_sections_with_blank_line() {
    let doc = FileList {
        sections: vec![
            Section {
                title: "A".to_string(),
                description: String::new(),
                notes: vec![Note { content: "a".to_string(), state: NoteEnum::OPEN }],
            },
            Section {
                title: "B".to_string(),
                description: "d".to_string(),
                notes: Vec::new(),
            },
        ],
    };
    assert_eq!(doc.serialize(), "# A\n- [ ] a\n\n# B\nd\n");
}

#[test]
fn serialize_lines_match_serialize() {
    let doc = sample_doc();
    let ls = doc.serialize_lines();
    let mut text = String::new();
    for l in &ls {
        text.push_str(l);
        text.push('\n');
    }
    assert_eq!(text, doc.serialize());
}

#[test]
fn roundtrip_preserves_document() {
    let doc = FileList {
        sections: vec![
            Section {
                title: "First".to_string(),
                description: "about things".to_string(),
                notes: vec![
                    Note { content: "one".to_string(), state: NoteEnum::OPEN },
                    Note { content: "two".to_string(), state: NoteEnum::DONE },
                    Note { content: "three".to_string(), state: NoteEnum::REJECTED },
                ],
            },
            Section {
                title: String::new(),
                description: String::new(),
                notes: vec![Note { content: "loose".to_string(), state: NoteEnum::OPEN }],
            },
        ],
    };
    let text = doc.serialize();
    let reparsed = parse_lines(text.lines().map(|l| l.to_string()).collect());
    assert_eq!(reparsed.sections.len(), doc.sections.len());
    for (a, b) in reparsed.sections.iter().zip(doc.sections.iter()) {
        assert_eq!(a.title, b.title);
        assert_eq!(a.description, b.description);
        assert_eq!(a.notes.len(), b.notes.len());
        for (x, y) in a.notes.iter().zip(b.notes.iter()) {
            assert_eq!(x.content, y.content);
            assert_eq!(x.state, y.state);
        }
    }
}

#[test]
fn serialize_is_idempotent_across_parse() {
    let doc = sample_doc();
    let once = doc.serialize();
    let reparsed = parse_lines(once.lines().map(|l| l.to_string()).collect());
    assert_eq!(reparsed.serialize(), once);
}

#[test]
fn note_to_line() {
    let n = Note { content: "x".to_string(), state: NoteEnum::REJECTED };
    assert_eq!(n.to_line(), "- [-] x");
}

#[test]
fn note_to_string_custom() {
    let n = Note { content: "x".to_string(), state: NoteEnum::DONE };
    assert_eq!(n.to_string_custom(">"), "> [x] x");
    let o = Note { content: "y".to_string(), state: NoteEnum::OPEN };
    assert_eq!(o.to_string_custom("-"), "- [ ] y");
}

#[test]
fn note_setters() {
    let mut n = Note { content: "x".to_string(), state: NoteEnum::OPEN };
    n.set_content("z".to_string());
    n.set_state(NoteEnum::DONE);
    assert_eq!(n.content, "z");
    assert_eq!(n.state, NoteEnum::DONE);
}

#[test]
fn filelist_remove_in_range() {
    let mut doc = FileList {
        sections: vec![
            Section { title: "A".to_string(), description: String::new(), notes: Vec::new() },
            Section { title: "B".to_string(), description: String::new(), notes: Vec::new() },
        ],
    };
    assert!(doc.remove(0).is_ok());
    assert_eq!(doc.sections.len(), 1);
    assert_eq!(doc.sections[0].title, "B");
}

#[test]
fn filelist_remove_out_of_range() {
    let mut doc = FileList { sections: Vec::new() };
    assert_eq!(doc.remove(0), Err(TodoError::IndexOutOfRange));
    assert_eq!(doc.sections.len(), 0);
}

#[test]
fn split_lines_basic() {
    let ls = yoku::codec::split_lines("a\nbc\n");
    assert_eq!(ls, vec!["a".to_string(), "bc".to_string()]);
}

#[test]
fn split_lines_no_trailing_newline() {
    let ls = yoku::codec::split_lines("a\nbc");
    assert_eq!(ls, vec!["a".to_string(), "bc".to_string()]);
}

#[test]
fn split_lines_empty_and_blank() {
    assert_eq!(yoku::codec::split_lines(""), Vec::<String>::new());
    assert_eq!(yoku::codec::split_lines("\n\n"), vec![String::new(), String::new()]);
}

#[test]
fn split_then_parse_roundtrip() {
    let doc = sample_doc();
    let text = doc.serialize();
    let reparsed = parse_lines(yoku::codec::split_lines(&text));
    assert_eq!(reparsed.serialize(), text);
}

#[test]
fn extract_filename_parts() {
    assert_eq!(yoku::todo::extract_filename(&"/data/notes.md".to_string()), "notes.md");
    assert_eq!(yoku::todo::extract_filename(&"plain".to_string()), "plain");
    assert_eq!(yoku::todo::extract_filename(&"a/b/".to_string()), "");
}

#[test]
fn extract_naked_filename_strips_extension() {
    assert_eq!(yoku::todo::extract_naked_filename(&"/data/notes.md".to_string()), "notes");
    assert_eq!(yoku::todo::extract_naked_filename(&"/data/a.tar.gz".to_string()), "a.tar");
    assert_eq!(yoku::todo::extract_naked_filename(&"/home/.bashrc".to_string()), ".bashrc");
    assert_eq!(yoku::todo::extract_naked_filename(&"noext".to_string()), "noext");
    assert_eq!(yoku::todo::extract_naked_filename(&"/d/x.".to_string()), "x");
}

#[test]
fn serialize_empty_document_is_lone_newline() {
    let doc = FileList { sections: Vec::new() };
    assert_eq!(doc.serialize(), "\n");
}
