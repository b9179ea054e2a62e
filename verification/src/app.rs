//! The navigation and edit state machine over the loaded files.
//!
//! Three focus levels — files, sections ("lists"), notes — with zero-based
//! indices into the workspace, plus a modal text-entry flow for creating and
//! renaming entities. Every command keeps the indices inside the bounds of
//! the collections they address.

use vstd::prelude::*;

use crate::codec::spec_serialize;
use crate::strutil::char_to_string;
use crate::todo::FileList;
use crate::todo::FileListV;
use crate::todo::Note;
use crate::todo::NoteEnum;
use crate::todo::NoteV;
use crate::todo::Section;
use crate::todo::SectionV;
use crate::todo::STARTER_FILE_DESCRIPTION;
use crate::todo::STARTER_FILE_NOTE;
use crate::todo::STARTER_FILE_TITLE;
use crate::util::fingerprint;
use crate::util::hash_of;

verus! {

/// The document a freshly created file starts with: one starter section
/// holding one open note.
pub open spec fn starter_doc() -> FileListV {
    FileListV {
        sections: seq![
            SectionV {
                title: STARTER_FILE_TITLE@,
                description: STARTER_FILE_DESCRIPTION@,
                notes: seq![NoteV { content: STARTER_FILE_NOTE@, state: NoteEnum::OPEN }],
            },
        ],
    }
}

/// The backing path of a markdown file named `name` under `dir`.
pub open spec fn spec_md_path(dir: Seq<char>, name: Seq<char>) -> Seq<char> {
    dir + "/"@ + name + ".md"@
}

/// One pending file write of a save plan: the full new content for a path.
pub struct FileWrite {
    pub path: String,
    pub content: String,
}

/// The mathematical value of a [`FileWrite`].
#[verifier::ext_equal]
pub ghost struct FileWriteV {
    pub path: Seq<char>,
    pub content: Seq<char>,
}

impl View for FileWrite {
    type V = FileWriteV;

    open spec fn view(&self) -> FileWriteV {
        FileWriteV { path: self.path@, content: self.content@ }
    }
}

/// The values of a vector of pending writes.
pub open spec fn writes_view(v: Vec<FileWrite>) -> Seq<FileWriteV> {
    Seq::new(v@.len(), |i: int| v@[i]@)
}

/// Document `i` must be rewritten: the digest of its serialized text is not
/// the recorded one (in particular, when none was recorded).
pub open spec fn doc_changed(app: App, i: int) -> bool {
    app.hashes@[i] != Some(hash_of(spec_serialize(app.lists@[i]@)))
}

/// The pending writes for the first `n` documents, in index order: exactly
/// the changed ones, each with its path and its serialized text.
pub open spec fn spec_writes_upto(app: App, n: int) -> Seq<FileWriteV>
    decreases n,
{
    if n <= 0 {
        Seq::empty()
    } else if doc_changed(app, n - 1) {
        spec_writes_upto(app, n - 1).push(
            FileWriteV {
                path: app.paths@[n - 1]@,
                content: spec_serialize(app.lists@[n - 1]@),
            },
        )
    } else {
        spec_writes_upto(app, n - 1)
    }
}

/// A document whose serialized text still matches the text whose
/// fingerprint was recorded is not due for a rewrite.
pub proof fn lemma_same_text_unchanged(app: App, i: int, text: Seq<char>)
    requires
        0 <= i < app.doc_count(),
        app.hashes@[i] == Some(hash_of(text)),
        spec_serialize(app.lists@[i]@) == text,
    ensures
        !doc_changed(app, i),
{
}

/// When every document's recorded fingerprint matches its serialized text,
/// the save plan writes no file at all.
pub proof fn lemma_save_skips_unchanged(app: App, n: int)
    requires
        0 <= n <= app.doc_count(),
        forall|i: int| 0 <= i < n ==> !doc_changed(app, i),
    ensures
        spec_writes_upto(app, n) == Seq::<FileWriteV>::empty(),
    decreases n,
{
    if n > 0 {
        lemma_save_skips_unchanged(app, n - 1);
    }
}

/// The write a changed document `i` contributes: its path and its
/// serialized text.
pub open spec fn changed_write_of(app: App, i: int) -> FileWriteV {
    FileWriteV { path: app.paths@[i]@, content: spec_serialize(app.lists@[i]@) }
}

/// `w` is the write of some changed document among the first `n`.
pub open spec fn is_changed_write(app: App, n: int, w: FileWriteV) -> bool {
    exists|i: int| 0 <= i < n && #[trigger] doc_changed(app, i) && w == changed_write_of(app, i)
}

/// Every changed document is in the save plan, with its serialized text.
pub proof fn lemma_save_writes_changed(app: App, i: int, n: int)
    requires
        0 <= i < n <= app.doc_count(),
        doc_changed(app, i),
    ensures
        spec_writes_upto(app, n).contains(changed_write_of(app, i)),
    decreases n,
{
    let w = changed_write_of(app, i);
    if i == n - 1 {
        assert(spec_writes_upto(app, n).last() == w);
    } else {
        lemma_save_writes_changed(app, i, n - 1);
        let k = choose|k: int|
            0 <= k < spec_writes_upto(app, n - 1).len() && #[trigger] spec_writes_upto(
                app,
                n - 1,
            )[k] == w;
        assert(spec_writes_upto(app, n)[k] == w);
    }
}

/// Every write in the save plan is for a changed document: a document whose
/// recorded fingerprint matches its serialized text is never rewritten.
pub proof fn lemma_save_only_changed(app: App, n: int)
    requires
        0 <= n <= app.doc_count(),
    ensures
        forall|k: int|
            0 <= k < spec_writes_upto(app, n).len() ==> is_changed_write(
                app,
                n,
                #[trigger] spec_writes_upto(app, n)[k],
            ),
    decreases n,
{
    if n > 0 {
        lemma_save_only_changed(app, n - 1);
        let prev = spec_writes_upto(app, n - 1);
        assert forall|k: int| 0 <= k < spec_writes_upto(app, n).len() implies is_changed_write(
            app,
            n,
            spec_writes_upto(app, n)[k],
        ) by {
            if k < prev.len() {
                assert(is_changed_write(app, n - 1, prev[k]));
                let i = choose|i: int|
                    0 <= i < n - 1 && #[trigger] doc_changed(app, i) && prev[k]
                        == changed_write_of(app, i);
                assert(spec_writes_upto(app, n)[k] == prev[k]);
                assert(doc_changed(app, i) && spec_writes_upto(app, n)[k] == changed_write_of(
                    app,
                    i,
                ));
            } else {
                assert(doc_changed(app, n - 1) && spec_writes_upto(app, n)[k] == changed_write_of(
                    app,
                    n - 1,
                ));
            }
        }
    }
}

/// The backing path of a markdown file named `name` under `dir`.
fn md_path(dir: &String, name: &String) -> (r: String)
    ensures
        r@ == spec_md_path(dir@, name@),
{
    let mut r = dir.clone();
    r.append("/");
    r.append(name.as_str());
    r.append(".md");
    r
}

/// Which modal text-entry flow, if any, is active.
#[derive(Clone, Copy, Debug, PartialEq, Eq, Structural)]
pub enum EditorMode {
    Nothing,
    CreateFile,
    CreateList,
    CreateNote,
    ChangeFileName,
    ChangeListName,
    ChangeListDescription,
    ChangeNoteContent,
}

/// The next state in the note-state cycle.
pub open spec fn spec_cycle(s: NoteEnum) -> NoteEnum {
    match s {
        NoteEnum::OPEN => NoteEnum::DONE,
        NoteEnum::DONE => NoteEnum::REJECTED,
        NoteEnum::REJECTED => NoteEnum::OPEN,
    }
}

/// `i` moved one step forward but kept below `len`; meaningful for `len > 0`.
pub open spec fn step_up(i: int, len: int) -> int {
    if i + 1 < len {
        i + 1
    } else {
        len - 1
    }
}

/// `i` moved one step back, stopping at zero.
pub open spec fn step_down(i: int) -> int {
    if i > 0 {
        i - 1
    } else {
        0
    }
}

/// `i` clamped into `[0, len - 1]`; meaningful for `len > 0`.
pub open spec fn clamped(i: int, len: int) -> int {
    if i < len {
        i
    } else {
        len - 1
    }
}

/// Cycling a note's state three times returns to the starting state, and
/// neither one nor two steps do: the cycle has period exactly three.
pub proof fn lemma_note_state_cycle_period_three(s: NoteEnum)
    ensures
        spec_cycle(spec_cycle(spec_cycle(s))) == s,
        spec_cycle(s) != s,
        spec_cycle(spec_cycle(s)) != s,
{
}

/// `d` with the section at `l` replaced by `s`.
pub open spec fn doc_with_section(d: FileListV, l: int, s: SectionV) -> FileListV {
    FileListV { sections: d.sections.update(l, s) }
}

/// `d` with the section at `l` removed.
pub open spec fn doc_without_section(d: FileListV, l: int) -> FileListV {
    FileListV { sections: d.sections.remove(l) }
}

/// `d` with the note at section `l`, position `n` removed.
pub open spec fn doc_without_note(d: FileListV, l: int, n: int) -> FileListV {
    FileListV {
        sections: d.sections.update(
            l,
            SectionV {
                title: d.sections[l].title,
                description: d.sections[l].description,
                notes: d.sections[l].notes.remove(n),
            },
        ),
    }
}

/// `d` with the note at section `l`, position `n` replaced by `nv`.
pub open spec fn doc_with_note(d: FileListV, l: int, n: int, nv: NoteV) -> FileListV {
    FileListV {
        sections: d.sections.update(
            l,
            SectionV {
                title: d.sections[l].title,
                description: d.sections[l].description,
                notes: d.sections[l].notes.update(n, nv),
            },
        ),
    }
}

/// The whole workspace and editor: the loaded documents with their names,
/// paths and load-time fingerprints, the focus state, and the modal input.
pub struct App {
    /// The data directory; new file paths are formed under it.
    pub main_path: String,
    /// Display names, index-aligned with `lists`.
    pub files: Vec<String>,
    /// Backing paths, index-aligned with `lists`.
    pub paths: Vec<String>,
    /// The loaded documents.
    pub lists: Vec<FileList>,
    /// Fingerprint of each document's serialized form as recorded at the
    /// last load, or `None` if none was recorded; index-aligned with `lists`.
    pub hashes: Vec<Option<u64>>,
    /// The focus level: 0 files, 1 sections, 2 notes.
    pub cursor_vertical: usize,
    /// Index of the focused document.
    pub file_index: usize,
    /// Index of the focused section within the focused document.
    pub list_index: usize,
    /// Index of the focused note within the focused section.
    pub note_index: usize,
    /// The active text-entry mode.
    pub mode: EditorMode,
    /// The text-entry buffer.
    pub input: String,
    /// Paths whose files are to be deleted at save time.
    pub to_remove: Vec<String>,
}

impl App {
    /// How many documents are loaded.
    pub open spec fn doc_count(self) -> nat {
        self.lists@.len()
    }

    /// The sections of the focused document.
    pub open spec fn cur_sections(self) -> Seq<SectionV> {
        self.lists@[self.file_index as int]@.sections
    }

    /// The notes of the focused section of the focused document.
    pub open spec fn cur_notes(self) -> Seq<NoteV> {
        self.cur_sections()[self.list_index as int].notes
    }

    /// The workspace invariant: the parallel vectors agree in length, and
    /// every index the current focus level relies on is in bounds.
    pub open spec fn wf(self) -> bool {
        &&& self.files@.len() == self.lists@.len()
        &&& self.paths@.len() == self.lists@.len()
        &&& self.hashes@.len() == self.lists@.len()
        &&& self.cursor_vertical <= 2
        &&& (self.doc_count() == 0 ==> self.cursor_vertical == 0 && self.file_index == 0)
        &&& (self.doc_count() > 0 ==> (self.file_index as int) < self.doc_count())
        &&& (self.cursor_vertical >= 1 ==> self.doc_count() > 0 && (self.list_index as int)
            < self.cur_sections().len())
        &&& (self.cursor_vertical == 2 ==> (self.note_index as int) < self.cur_notes().len())
    }

    /// The documents and their bookkeeping are untouched: only focus fields
    /// may differ.
    pub open spec fn same_model(self, other: App) -> bool {
        &&& other.main_path == self.main_path
        &&& other.files == self.files
        &&& other.paths == self.paths
        &&& other.lists == self.lists
        &&& other.hashes == self.hashes
        &&& other.mode == self.mode
        &&& other.input == self.input
        &&& other.to_remove == self.to_remove
    }

    /// The focus fields are untouched: only the model may differ.
    pub open spec fn same_focus(self, other: App) -> bool {
        &&& other.cursor_vertical == self.cursor_vertical
        &&& other.file_index == self.file_index
        &&& other.list_index == self.list_index
        &&& other.note_index == self.note_index
    }

    /// A fresh workspace over the given documents: focus on the first file,
    /// no recorded fingerprints, no pending deletions, no active mode.
    pub fn new(
        files: Vec<String>,
        paths: Vec<String>,
        lists: Vec<FileList>,
        main_path: String,
    ) -> (r: App)
        requires
            files@.len() == lists@.len(),
            paths@.len() == lists@.len(),
        ensures
            r.wf(),
            r.files == files,
            r.paths == paths,
            r.lists == lists,
            r.main_path == main_path,
            r.hashes@.len() == lists@.len(),
            forall|i: int| 0 <= i < r.hashes@.len() ==> r.hashes@[i] is None,
            r.cursor_vertical == 0,
            r.file_index == 0,
            r.list_index == 0,
            r.note_index == 0,
            r.mode == EditorMode::Nothing,
            r.input@.len() == 0,
            r.to_remove@.len() == 0,
    {
        let n = lists.len();
        let mut hashes: Vec<Option<u64>> = Vec::new();
        let mut i: usize = 0;
        while i < n
            invariant
                i <= n,
                hashes@.len() == i,
                forall|k: int| 0 <= k < i ==> hashes@[k] is None,
            decreases n - i,
        {
            hashes.push(None);
            i = i + 1;
        }
        App {
            main_path,
            files,
            paths,
            lists,
            hashes,
            cursor_vertical: 0,
            file_index: 0,
            list_index: 0,
            note_index: 0,
            mode: EditorMode::Nothing,
            input: String::new(),
            to_remove: Vec::new(),
        }
    }

    /// Descend one focus level: files to sections only if the focused
    /// document has a section, sections to notes only if the focused section
    /// has a note; at the note level, move to the next note. The entered
    /// level's index is clamped into bounds. A no-op on an empty workspace.
    pub fn navigate_down(&mut self)
        requires
            old(self).wf(),
        ensures
            final(self).wf(),
            old(self).same_model(*final(self)),
            final(self).file_index == old(self).file_index,
            old(self).doc_count() == 0 ==> *final(self) == *old(self),
            old(self).doc_count() > 0 && old(self).cursor_vertical == 0 ==> ({
                if old(self).cur_sections().len() > 0 {
                    &&& final(self).cursor_vertical == 1
                    &&& final(self).list_index == clamped(
                        old(self).list_index as int,
                        old(self).cur_sections().len() as int,
                    )
                    &&& final(self).note_index == old(self).note_index
                } else {
                    *final(self) == *old(self)
                }
            }),
            old(self).doc_count() > 0 && old(self).cursor_vertical == 1 ==> ({
                if old(self).cur_notes().len() > 0 {
                    &&& final(self).cursor_vertical == 2
                    &&& final(self).list_index == old(self).list_index
                    &&& final(self).note_index == clamped(
                        old(self).note_index as int,
                        old(self).cur_notes().len() as int,
                    )
                } else {
                    *final(self) == *old(self)
                }
            }),
            old(self).doc_count() > 0 && old(self).cursor_vertical == 2 ==> ({
                &&& final(self).cursor_vertical == 2
                &&& final(self).list_index == old(self).list_index
                &&& final(self).note_index == step_up(
                    old(self).note_index as int,
                    old(self).cur_notes().len() as int,
                )
            }),
    {
        if self.lists.is_empty() {
            return ;
        }
        if self.cursor_vertical == 0 {
            let nsec = self.lists[self.file_index].sections.len();
            if nsec > 0 {
                self.cursor_vertical = 1;
                if self.list_index >= nsec {
                    self.list_index = nsec - 1;
                }
            }
        } else if self.cursor_vertical == 1 {
            let nnotes = self.lists[self.file_index].sections[self.list_index].notes.len();
            if nnotes > 0 {
                self.cursor_vertical = 2;
                if self.note_index >= nnotes {
                    self.note_index = nnotes - 1;
                }
            }
        } else {
            let nnotes = self.lists[self.file_index].sections[self.list_index].notes.len();
            if self.note_index + 1 < nnotes {
                self.note_index = self.note_index + 1;
            } else {
                self.note_index = nnotes - 1;
            }
        }
    }

    /// Ascend one focus level: at the note level move to the previous note,
    /// or to the section level when already at the first note; sections go
    /// up to files; at the file level, nothing. A no-op on an empty
    /// workspace.
    pub fn navigate_up(&mut self)
        requires
            old(self).wf(),
        ensures
            final(self).wf(),
            old(self).same_model(*final(self)),
            final(self).file_index == old(self).file_index,
            final(self).list_index == old(self).list_index,
            old(self).doc_count() == 0 ==> *final(self) == *old(self),
            old(self).doc_count() > 0 && old(self).cursor_vertical == 0
                ==> *final(self) == *old(self),
            old(self).doc_count() > 0 && old(self).cursor_vertical == 1
                ==> final(self).cursor_vertical == 0
                && final(self).note_index == old(self).note_index,
            old(self).doc_count() > 0 && old(self).cursor_vertical == 2 ==> ({
                if old(self).note_index > 0 {
                    &&& final(self).cursor_vertical == 2
                    &&& final(self).note_index == old(self).note_index - 1
                } else {
                    &&& final(self).cursor_vertical == 1
                    &&& final(self).note_index == 0
                }
            }),
    {
        if self.lists.is_empty() {
            return ;
        }
        if self.cursor_vertical == 2 {
            if self.note_index > 0 {
                self.note_index = self.note_index - 1;
            } else {
                self.cursor_vertical = 1;
            }
        } else if self.cursor_vertical == 1 {
            self.cursor_vertical = 0;
        }
    }

    /// Move to the next sibling at the current focus level, clamped into
    /// bounds; moving between files or sections resets the finer indices to
    /// zero. A no-op on an empty workspace.
    pub fn next(&mut self)
        requires
            old(self).wf(),
        ensures
            final(self).wf(),
            old(self).same_model(*final(self)),
            final(self).cursor_vertical == old(self).cursor_vertical,
            old(self).doc_count() == 0 ==> *final(self) == *old(self),
            old(self).doc_count() > 0 && old(self).cursor_vertical == 0 ==> ({
                &&& final(self).file_index == step_up(
                    old(self).file_index as int,
                    old(self).doc_count() as int,
                )
                &&& final(self).list_index == 0
                &&& final(self).note_index == 0
            }),
            old(self).doc_count() > 0 && old(self).cursor_vertical == 1 ==> ({
                &&& final(self).file_index == old(self).file_index
                &&& final(self).list_index == step_up(
                    old(self).list_index as int,
                    old(self).cur_sections().len() as int,
                )
                &&& final(self).note_index == 0
            }),
            old(self).doc_count() > 0 && old(self).cursor_vertical == 2 ==> ({
                &&& final(self).file_index == old(self).file_index
                &&& final(self).list_index == old(self).list_index
                &&& final(self).note_index == step_up(
                    old(self).note_index as int,
                    old(self).cur_notes().len() as int,
                )
            }),
    {
        if self.lists.is_empty() {
            return ;
        }
        if self.cursor_vertical == 0 {
            if self.file_index < self.lists.len() - 1 {
                self.file_index = self.file_index + 1;
            } else {
                self.file_index = self.lists.len() - 1;
            }
            self.list_index = 0;
            self.note_index = 0;
        } else if self.cursor_vertical == 1 {
            let nsec = self.lists[self.file_index].sections.len();
            if self.list_index + 1 < nsec {
                self.list_index = self.list_index + 1;
            } else {
                self.list_index = nsec - 1;
            }
            self.note_index = 0;
        } else {
            let nnotes = self.lists[self.file_index].sections[self.list_index].notes.len();
            if self.note_index + 1 < nnotes {
                self.note_index = self.note_index + 1;
            } else {
                self.note_index = nnotes - 1;
            }
        }
    }

    /// Move to the previous sibling at the current focus level, stopping at
    /// zero; moving between files or sections resets the finer indices to
    /// zero. A no-op on an empty workspace.
    pub fn previous(&mut self)
        requires
            old(self).wf(),
        ensures
            final(self).wf(),
            old(self).same_model(*final(self)),
            final(self).cursor_vertical == old(self).cursor_vertical,
            old(self).doc_count() == 0 ==> *final(self) == *old(self),
            old(self).doc_count() > 0 && old(self).cursor_vertical == 0 ==> ({
                &&& final(self).file_index == step_down(old(self).file_index as int)
                &&& final(self).list_index == 0
                &&& final(self).note_index == 0
            }),
            old(self).doc_count() > 0 && old(self).cursor_vertical == 1 ==> ({
                &&& final(self).file_index == old(self).file_index
                &&& final(self).list_index == step_down(old(self).list_index as int)
                &&& final(self).note_index == 0
            }),
            old(self).doc_count() > 0 && old(self).cursor_vertical == 2 ==> ({
                &&& final(self).file_index == old(self).file_index
                &&& final(self).list_index == old(self).list_index
                &&& final(self).note_index == step_down(old(self).note_index as int)
            }),
    {
        if self.lists.is_empty() {
            return ;
        }
        if self.cursor_vertical == 0 {
            if self.file_index > 0 {
                self.file_index = self.file_index - 1;
            }
            self.list_index = 0;
            self.note_index = 0;
        } else if self.cursor_vertical == 1 {
            if self.list_index > 0 {
                self.list_index = self.list_index - 1;
            }
            self.note_index = 0;
        } else {
            if self.note_index > 0 {
                self.note_index = self.note_index - 1;
            }
        }
    }

    /// Move the note focus one note forward, clamped into the focused
    /// section's bounds; a no-op when no section with notes is focused.
    pub fn next_note(&mut self)
        requires
            old(self).wf(),
        ensures
            final(self).wf(),
            old(self).same_model(*final(self)),
            final(self).cursor_vertical == old(self).cursor_vertical,
            final(self).file_index == old(self).file_index,
            final(self).list_index == old(self).list_index,
            ({
                if old(self).doc_count() > 0 && (old(self).list_index as int) < old(self).cur_sections().len() && old(self).cur_notes().len() > 0 {
                    final(self).note_index == step_up(
                        old(self).note_index as int,
                        old(self).cur_notes().len() as int,
                    )
                } else {
                    final(self).note_index == old(self).note_index
                }
            }),
    {
        if self.lists.is_empty() {
            return ;
        }
        if self.list_index >= self.lists[self.file_index].sections.len() {
            return ;
        }
        let nnotes = self.lists[self.file_index].sections[self.list_index].notes.len();
        if nnotes == 0 {
            return ;
        }
        if self.note_index < nnotes - 1 {
            self.note_index = self.note_index + 1;
        } else {
            self.note_index = nnotes - 1;
        }
    }

    /// Move the note focus one note back, stopping at zero.
    pub fn previous_note(&mut self)
        requires
            old(self).wf(),
        ensures
            final(self).wf(),
            old(self).same_model(*final(self)),
            final(self).cursor_vertical == old(self).cursor_vertical,
            final(self).file_index == old(self).file_index,
            final(self).list_index == old(self).list_index,
            final(self).note_index == step_down(old(self).note_index as int),
    {
        if self.note_index > 0 {
            self.note_index = self.note_index - 1;
        }
    }

    /// Everything outside the focused document is untouched, and the
    /// document vector's length is kept.
    pub open spec fn same_but_cur_doc(self, other: App) -> bool {
        &&& other.main_path == self.main_path
        &&& other.files == self.files
        &&& other.paths == self.paths
        &&& other.hashes == self.hashes
        &&& other.to_remove == self.to_remove
        &&& other.lists@.len() == self.lists@.len()
        &&& forall|j: int|
            0 <= j < self.lists@.len() && j != self.file_index ==> other.lists@[j]
                == self.lists@[j]
    }

    /// Advance the focused note's state one step along
    /// `OPEN -> DONE -> REJECTED -> OPEN`.
    pub fn cycle_note_state(&mut self)
        requires
            old(self).wf(),
            old(self).cursor_vertical == 2,
        ensures
            final(self).wf(),
            old(self).same_but_cur_doc(*final(self)),
            old(self).same_focus(*final(self)),
            final(self).mode == old(self).mode,
            final(self).input == old(self).input,
            final(self).lists@[old(self).file_index as int]@ == doc_with_note(
                old(self).lists@[old(self).file_index as int]@,
                old(self).list_index as int,
                old(self).note_index as int,
                NoteV {
                    content: old(self).cur_notes()[old(self).note_index as int].content,
                    state: spec_cycle(old(self).cur_notes()[old(self).note_index as int].state),
                },
            ),
    {
        let fi = self.file_index;
        let li = self.list_index;
        let ni = self.note_index;
        let note = &mut self.lists[fi].sections[li].notes[ni];
        match note.state {
            NoteEnum::OPEN => note.set_state(NoteEnum::DONE),
            NoteEnum::DONE => note.set_state(NoteEnum::REJECTED),
            NoteEnum::REJECTED => note.set_state(NoteEnum::OPEN),
        }
        proof {
            let target = doc_with_note(
                old(self).lists@[fi as int]@,
                li as int,
                ni as int,
                NoteV {
                    content: old(self).cur_notes()[ni as int].content,
                    state: spec_cycle(old(self).cur_notes()[ni as int].state),
                },
            );
            assert(self.lists@[fi as int]@.sections =~~= target.sections);
            assert(self.lists@[fi as int]@ == target);
        }
    }

    /// Set the focused note's state.
    pub fn set_note_state(&mut self, state: NoteEnum)
        requires
            old(self).wf(),
            old(self).cursor_vertical == 2,
        ensures
            final(self).wf(),
            old(self).same_but_cur_doc(*final(self)),
            old(self).same_focus(*final(self)),
            final(self).mode == old(self).mode,
            final(self).input == old(self).input,
            final(self).lists@[old(self).file_index as int]@ == doc_with_note(
                old(self).lists@[old(self).file_index as int]@,
                old(self).list_index as int,
                old(self).note_index as int,
                NoteV {
                    content: old(self).cur_notes()[old(self).note_index as int].content,
                    state: state,
                },
            ),
    {
        let fi = self.file_index;
        let li = self.list_index;
        let ni = self.note_index;
        self.lists[fi].sections[li].notes[ni].set_state(state);
        proof {
            let target = doc_with_note(
                old(self).lists@[fi as int]@,
                li as int,
                ni as int,
                NoteV { content: old(self).cur_notes()[ni as int].content, state: state },
            );
            assert(self.lists@[fi as int]@.sections =~~= target.sections);
            assert(self.lists@[fi as int]@ == target);
        }
    }

    /// Enter the rename or edit mode for the focused entity, seeding the
    /// buffer with its current text: the file's display name, the section's
    /// title, or the note's content, by focus level. A no-op on an empty
    /// workspace.
    pub fn change(&mut self)
        requires
            old(self).wf(),
        ensures
            final(self).wf(),
            old(self).same_focus(*final(self)),
            final(self).main_path == old(self).main_path,
            final(self).files == old(self).files,
            final(self).paths == old(self).paths,
            final(self).lists == old(self).lists,
            final(self).hashes == old(self).hashes,
            final(self).to_remove == old(self).to_remove,
            old(self).doc_count() == 0 ==> *final(self) == *old(self),
            old(self).doc_count() > 0 && old(self).cursor_vertical == 0 ==> final(self).mode
                == EditorMode::ChangeFileName && final(self).input@ == old(self).files@[old(self).file_index as int]@,
            old(self).doc_count() > 0 && old(self).cursor_vertical == 1 ==> final(self).mode
                == EditorMode::ChangeListName && final(self).input@ == old(self).cur_sections()[old(self).list_index as int].title,
            old(self).doc_count() > 0 && old(self).cursor_vertical == 2 ==> final(self).mode
                == EditorMode::ChangeNoteContent && final(self).input@ == old(self).cur_notes()[old(self).note_index as int].content,
    {
        if self.lists.is_empty() {
            return ;
        }
        let fi = self.file_index;
        if self.cursor_vertical == 0 {
            self.input = self.files[fi].clone();
            self.mode = EditorMode::ChangeFileName;
        } else if self.cursor_vertical == 1 {
            self.input = self.lists[fi].sections[self.list_index].title.clone();
            self.mode = EditorMode::ChangeListName;
        } else {
            self.input = self.lists[fi].sections[self.list_index].notes[self.note_index]
                .content.clone();
            self.mode = EditorMode::ChangeNoteContent;
        }
    }

    /// Enter the description-edit mode for the focused section, seeding the
    /// buffer with the current description; a no-op when no section is
    /// focused.
    pub fn change_description(&mut self)
        requires
            old(self).wf(),
        ensures
            final(self).wf(),
            old(self).same_focus(*final(self)),
            final(self).main_path == old(self).main_path,
            final(self).files == old(self).files,
            final(self).paths == old(self).paths,
            final(self).lists == old(self).lists,
            final(self).hashes == old(self).hashes,
            final(self).to_remove == old(self).to_remove,
            !old(self).section_focus_valid() ==> *final(self) == *old(self),
            old(self).section_focus_valid() ==> final(self).mode
                == EditorMode::ChangeListDescription && final(self).input@ == old(self).cur_sections()[old(self).list_index as int].description,
    {
        if self.lists.is_empty() {
            return ;
        }
        let fi = self.file_index;
        if self.list_index >= self.lists[fi].sections.len() {
            return ;
        }
        self.input = self.lists[fi].sections[self.list_index].description.clone();
        self.mode = EditorMode::ChangeListDescription;
    }

    /// A section of the focused document is addressed by `list_index`.
    pub open spec fn section_focus_valid(self) -> bool {
        self.doc_count() > 0 && (self.list_index as int) < self.cur_sections().len()
    }

    /// A note of the focused section is addressed by `note_index`.
    pub open spec fn note_focus_valid(self) -> bool {
        self.section_focus_valid() && (self.note_index as int) < self.cur_notes().len()
    }

    /// Enter the create-file mode with an empty buffer.
    pub fn create_file(&mut self)
        requires
            old(self).wf(),
        ensures
            final(self).wf(),
            old(self).same_focus(*final(self)),
            final(self).main_path == old(self).main_path,
            final(self).files == old(self).files,
            final(self).paths == old(self).paths,
            final(self).lists == old(self).lists,
            final(self).hashes == old(self).hashes,
            final(self).to_remove == old(self).to_remove,
            final(self).mode == EditorMode::CreateFile,
            final(self).input@.len() == 0,
    {
        self.mode = EditorMode::CreateFile;
        self.input = String::new();
    }

    /// Enter the create-section mode with an empty buffer.
    pub fn create_list(&mut self)
        requires
            old(self).wf(),
        ensures
            final(self).wf(),
            old(self).same_focus(*final(self)),
            final(self).main_path == old(self).main_path,
            final(self).files == old(self).files,
            final(self).paths == old(self).paths,
            final(self).lists == old(self).lists,
            final(self).hashes == old(self).hashes,
            final(self).to_remove == old(self).to_remove,
            final(self).mode == EditorMode::CreateList,
            final(self).input@.len() == 0,
    {
        self.mode = EditorMode::CreateList;
        self.input = String::new();
    }

    /// Enter the create-note mode with an empty buffer.
    pub fn create_note(&mut self)
        requires
            old(self).wf(),
        ensures
            final(self).wf(),
            old(self).same_focus(*final(self)),
            final(self).main_path == old(self).main_path,
            final(self).files == old(self).files,
            final(self).paths == old(self).paths,
            final(self).lists == old(self).lists,
            final(self).hashes == old(self).hashes,
            final(self).to_remove == old(self).to_remove,
            final(self).mode == EditorMode::CreateNote,
            final(self).input@.len() == 0,
    {
        self.mode = EditorMode::CreateNote;
        self.input = String::new();
    }

    /// Leave any text-entry mode without touching the model: the buffer is
    /// discarded.
    pub fn cancel(&mut self)
        requires
            old(self).wf(),
        ensures
            final(self).wf(),
            old(self).same_focus(*final(self)),
            final(self).main_path == old(self).main_path,
            final(self).files == old(self).files,
            final(self).paths == old(self).paths,
            final(self).lists == old(self).lists,
            final(self).hashes == old(self).hashes,
            final(self).to_remove == old(self).to_remove,
            final(self).mode == EditorMode::Nothing,
            final(self).input@.len() == 0,
    {
        self.mode = EditorMode::Nothing;
        self.input = String::new();
    }

    /// Append one typed character to the text-entry buffer.
    pub fn push_input(&mut self, c: char)
        requires
            old(self).wf(),
        ensures
            final(self).wf(),
            old(self).same_focus(*final(self)),
            final(self).main_path == old(self).main_path,
            final(self).files == old(self).files,
            final(self).paths == old(self).paths,
            final(self).lists == old(self).lists,
            final(self).hashes == old(self).hashes,
            final(self).to_remove == old(self).to_remove,
            final(self).mode == old(self).mode,
            final(self).input@ == old(self).input@.push(c),
    {
        let s = char_to_string(c);
        self.input.append(s.as_str());
        proof {
            assert(self.input@ =~= old(self).input@.push(c));
        }
    }

    /// Remove the last character of the text-entry buffer, if it has one.
    pub fn pop_input(&mut self)
        requires
            old(self).wf(),
        ensures
            final(self).wf(),
            old(self).same_focus(*final(self)),
            final(self).main_path == old(self).main_path,
            final(self).files == old(self).files,
            final(self).paths == old(self).paths,
            final(self).lists == old(self).lists,
            final(self).hashes == old(self).hashes,
            final(self).to_remove == old(self).to_remove,
            final(self).mode == old(self).mode,
            final(self).input@ == (if old(self).input@.len() > 0 {
                old(self).input@.drop_last()
            } else {
                old(self).input@
            }),
    {
        let n = self.input.as_str().unicode_len();
        if n > 0 {
            let t = self.input.as_str().substring_char(0, n - 1).to_owned();
            proof {
                assert(t@ =~= self.input@.drop_last());
            }
            self.input = t;
        }
    }

    /// Remove the focused entity: the focused file (scheduling its backing
    /// path for deletion at save time), the focused section, or the focused
    /// note, by focus level. The index of the owning collection is clamped
    /// back into bounds; if the collection becomes empty, the focus moves up
    /// one level. A no-op on an empty workspace.
    pub fn remove(&mut self)
        requires
            old(self).wf(),
        ensures
            final(self).wf(),
            final(self).main_path == old(self).main_path,
            final(self).mode == old(self).mode,
            final(self).input == old(self).input,
            old(self).doc_count() == 0 ==> *final(self) == *old(self),
            old(self).doc_count() > 0 && old(self).cursor_vertical == 0 ==> ({
                let fi = old(self).file_index as int;
                let n = old(self).doc_count() as int;
                &&& final(self).to_remove.deep_view() == old(self).to_remove.deep_view().push(
                    old(self).paths@[fi]@,
                )
                &&& final(self).files@ == old(self).files@.remove(fi)
                &&& final(self).paths@ == old(self).paths@.remove(fi)
                &&& final(self).lists@ == old(self).lists@.remove(fi)
                &&& final(self).hashes@ == old(self).hashes@.remove(fi)
                &&& final(self).list_index == old(self).list_index
                &&& final(self).note_index == old(self).note_index
                &&& (n == 1 ==> final(self).file_index == 0 && final(self).cursor_vertical == 0)
                &&& (n > 1 ==> final(self).file_index == clamped(fi, n - 1) && final(self).cursor_vertical == old(self).cursor_vertical)
            }),
            old(self).doc_count() > 0 && old(self).cursor_vertical == 1 ==> ({
                let fi = old(self).file_index as int;
                let li = old(self).list_index as int;
                let m = old(self).cur_sections().len() as int;
                &&& old(self).same_but_cur_doc(*final(self))
                &&& final(self).lists@[fi]@ == doc_without_section(old(self).lists@[fi]@, li)
                &&& final(self).file_index == old(self).file_index
                &&& final(self).note_index == old(self).note_index
                &&& (m == 1 ==> final(self).list_index == 0 && final(self).cursor_vertical == 0)
                &&& (m > 1 ==> final(self).list_index == clamped(li, m - 1) && final(self).cursor_vertical == 1)
            }),
            old(self).doc_count() > 0 && old(self).cursor_vertical == 2 ==> ({
                let fi = old(self).file_index as int;
                let li = old(self).list_index as int;
                let ni = old(self).note_index as int;
                let m = old(self).cur_notes().len() as int;
                &&& old(self).same_but_cur_doc(*final(self))
                &&& final(self).lists@[fi]@ == doc_without_note(old(self).lists@[fi]@, li, ni)
                &&& final(self).file_index == old(self).file_index
                &&& final(self).list_index == old(self).list_index
                &&& (m == 1 ==> final(self).note_index == 0 && final(self).cursor_vertical == 1)
                &&& (m > 1 ==> final(self).note_index == clamped(ni, m - 1) && final(self).cursor_vertical == 2)
            }),
    {
        if self.lists.is_empty() {
            return ;
        }
        let fi = self.file_index;
        if self.cursor_vertical == 0 {
            let path = self.paths[fi].clone();
            self.to_remove.push(path);
            self.paths.remove(fi);
            self.files.remove(fi);
            self.lists.remove(fi);
            self.hashes.remove(fi);
            if self.lists.is_empty() {
                self.file_index = 0;
                self.cursor_vertical = 0;
            } else if self.file_index >= self.lists.len() {
                self.file_index = self.lists.len() - 1;
            }
            proof {
                assert(self.to_remove.deep_view() =~= old(self).to_remove.deep_view().push(
                    old(self).paths@[fi as int]@,
                ));
            }
        } else if self.cursor_vertical == 1 {
            let li = self.list_index;
            self.lists[fi].sections.remove(li);
            proof {
                let target = doc_without_section(old(self).lists@[fi as int]@, li as int);
                assert(self.lists@[fi as int]@.sections =~~= target.sections);
                assert(self.lists@[fi as int]@ == target);
            }
            let m = self.lists[fi].sections.len();
            if m == 0 {
                self.list_index = 0;
                self.cursor_vertical = 0;
            } else if self.list_index >= m {
                self.list_index = m - 1;
            }
        } else {
            let li = self.list_index;
            let ni = self.note_index;
            self.lists[fi].sections[li].notes.remove(ni);
            let m = self.lists[fi].sections[li].notes.len();
            if m == 0 {
                self.note_index = 0;
                self.cursor_vertical = 1;
            } else if self.note_index >= m {
                self.note_index = m - 1;
            }
            proof {
                let target = doc_without_note(old(self).lists@[fi as int]@, li as int, ni as int);
                assert(self.lists@[fi as int]@.sections =~~= target.sections);
                assert(self.lists@[fi as int]@ == target);
            }
        }
    }

    /// Commit the active text-entry mode. With a non-empty buffer, apply the
    /// mode's mutation: append a new file, section or note, or overwrite the
    /// targeted name, title, description or content; renaming a file also
    /// schedules its old backing path for deletion, moves the document to a
    /// new path under the data directory, and forgets its recorded
    /// fingerprint, so the save plan writes it at the new path even when its
    /// content did not change. With an empty buffer, or when no
    /// entity is targeted, change nothing. Either way the buffer is cleared
    /// and the editor returns to viewing.
    pub fn handle_enter(&mut self)
        requires
            old(self).wf(),
        ensures
            final(self).wf(),
            final(self).mode == EditorMode::Nothing,
            final(self).input@.len() == 0,
            old(self).same_focus(*final(self)),
            final(self).main_path == old(self).main_path,
            (old(self).mode == EditorMode::Nothing || old(self).input@.len() == 0) ==> ({
                &&& final(self).files == old(self).files
                &&& final(self).paths == old(self).paths
                &&& final(self).lists == old(self).lists
                &&& final(self).hashes == old(self).hashes
                &&& final(self).to_remove == old(self).to_remove
            }),
            old(self).mode == EditorMode::CreateFile && old(self).input@.len() > 0 ==> ({
                &&& final(self).files.deep_view() == old(self).files.deep_view().push(
                    old(self).input@,
                )
                &&& final(self).paths.deep_view() == old(self).paths.deep_view().push(
                    spec_md_path(old(self).main_path@, old(self).input@),
                )
                &&& final(self).lists@.len() == old(self).doc_count() + 1
                &&& forall|j: int|
                    0 <= j < old(self).doc_count() ==> final(self).lists@[j] == old(self).lists@[j]
                &&& final(self).lists@[old(self).doc_count() as int]@ == starter_doc()
                &&& final(self).hashes@ == old(self).hashes@.push(None)
                &&& final(self).to_remove == old(self).to_remove
            }),
            old(self).mode == EditorMode::CreateList && old(self).input@.len() > 0 && old(
                self,
            ).doc_count() > 0 ==> ({
                &&& old(self).same_but_cur_doc(*final(self))
                &&& final(self).lists@[old(self).file_index as int]@ == (FileListV {
                    sections: old(self).cur_sections().push(
                        SectionV {
                            title: old(self).input@,
                            description: Seq::empty(),
                            notes: Seq::empty(),
                        },
                    ),
                })
            }),
            old(self).mode == EditorMode::CreateNote && old(self).input@.len() > 0 && old(
                self,
            ).section_focus_valid() ==> ({
                &&& old(self).same_but_cur_doc(*final(self))
                &&& final(self).lists@[old(self).file_index as int]@ == doc_with_section(
                    old(self).lists@[old(self).file_index as int]@,
                    old(self).list_index as int,
                    SectionV {
                        title: old(self).cur_sections()[old(self).list_index as int].title,
                        description: old(self).cur_sections()[old(
                            self,
                        ).list_index as int].description,
                        notes: old(self).cur_notes().push(
                            NoteV { content: old(self).input@, state: NoteEnum::OPEN },
                        ),
                    },
                )
            }),
            old(self).mode == EditorMode::ChangeFileName && old(self).input@.len() > 0 && old(
                self,
            ).doc_count() > 0 ==> ({
                &&& final(self).files.deep_view() == old(self).files.deep_view().update(
                    old(self).file_index as int,
                    old(self).input@,
                )
                &&& final(self).paths.deep_view() == old(self).paths.deep_view().update(
                    old(self).file_index as int,
                    spec_md_path(old(self).main_path@, old(self).input@),
                )
                &&& final(self).to_remove.deep_view() == old(self).to_remove.deep_view().push(
                    old(self).paths@[old(self).file_index as int]@,
                )
                &&& final(self).lists == old(self).lists
                &&& final(self).hashes@ == old(self).hashes@.update(
                    old(self).file_index as int,
                    None,
                )
            }),
            old(self).mode == EditorMode::ChangeListName && old(self).input@.len() > 0 && old(
                self,
            ).section_focus_valid() ==> ({
                &&& old(self).same_but_cur_doc(*final(self))
                &&& final(self).lists@[old(self).file_index as int]@ == doc_with_section(
                    old(self).lists@[old(self).file_index as int]@,
                    old(self).list_index as int,
                    SectionV {
                        title: old(self).input@,
                        description: old(self).cur_sections()[old(
                            self,
                        ).list_index as int].description,
                        notes: old(self).cur_notes(),
                    },
                )
            }),
            old(self).mode == EditorMode::ChangeListDescription && old(self).input@.len() > 0
                && old(self).section_focus_valid() ==> ({
                &&& old(self).same_but_cur_doc(*final(self))
                &&& final(self).lists@[old(self).file_index as int]@ == doc_with_section(
                    old(self).lists@[old(self).file_index as int]@,
                    old(self).list_index as int,
                    SectionV {
                        title: old(self).cur_sections()[old(self).list_index as int].title,
                        description: old(self).input@,
                        notes: old(self).cur_notes(),
                    },
                )
            }),
            old(self).mode == EditorMode::ChangeNoteContent && old(self).input@.len() > 0 && old(
                self,
            ).note_focus_valid() ==> ({
                &&& old(self).same_but_cur_doc(*final(self))
                &&& final(self).lists@[old(self).file_index as int]@ == doc_with_note(
                    old(self).lists@[old(self).file_index as int]@,
                    old(self).list_index as int,
                    old(self).note_index as int,
                    NoteV {
                        content: old(self).input@,
                        state: old(self).cur_notes()[old(self).note_index as int].state,
                    },
                )
            }),
            old(self).mode == EditorMode::CreateList && old(self).input@.len() > 0 && old(
                self,
            ).doc_count() == 0 ==> old(self).same_model_but_editor(*final(self)),
            old(self).mode == EditorMode::CreateNote && old(self).input@.len() > 0 && !old(
                self,
            ).section_focus_valid() ==> old(self).same_model_but_editor(*final(self)),
            old(self).mode == EditorMode::ChangeFileName && old(self).input@.len() > 0 && old(
                self,
            ).doc_count() == 0 ==> old(self).same_model_but_editor(*final(self)),
            old(self).mode == EditorMode::ChangeListName && old(self).input@.len() > 0 && !old(
                self,
            ).section_focus_valid() ==> old(self).same_model_but_editor(*final(self)),
            old(self).mode == EditorMode::ChangeListDescription && old(self).input@.len() > 0
                && !old(self).section_focus_valid() ==> old(self).same_model_but_editor(
                *final(self),
            ),
            old(self).mode == EditorMode::ChangeNoteContent && old(self).input@.len() > 0 && !old(
                self,
            ).note_focus_valid() ==> old(self).same_model_but_editor(*final(self)),
    {
        let fi = self.file_index;
        if !self.input.as_str().is_empty() {
            match self.mode {
                EditorMode::CreateFile => {
                    let input = self.input.clone();
                    let path = md_path(&self.main_path, &input);
                    let ghost files0 = self.files.deep_view();
                    let ghost paths0 = self.paths.deep_view();
                    self.files.push(input.clone());
                    self.paths.push(path);
                    let mut notes: Vec<Note> = Vec::new();
                    notes.push(Note { content: STARTER_FILE_NOTE.to_owned(), state: NoteEnum::OPEN });
                    let mut secs: Vec<Section> = Vec::new();
                    secs.push(
                        Section {
                            title: STARTER_FILE_TITLE.to_owned(),
                            description: STARTER_FILE_DESCRIPTION.to_owned(),
                            notes,
                        },
                    );
                    let list = FileList { sections: secs };
                    proof {
                        assert(list@.sections =~~= starter_doc().sections);
                        assert(list@ == starter_doc());
                    }
                    self.lists.push(list);
                    self.hashes.push(None);
                    proof {
                        assert(self.files.deep_view() =~= files0.push(old(self).input@));
                        assert(self.paths.deep_view() =~= paths0.push(
                            spec_md_path(old(self).main_path@, old(self).input@),
                        ));
                    }
                },
                EditorMode::CreateList => {
                    if !self.lists.is_empty() {
                        let input = self.input.clone();
                        self.lists[fi].sections.push(
                            Section { title: input, description: String::new(), notes: Vec::new() },
                        );
                        proof {
                            let target = FileListV {
                                sections: old(self).cur_sections().push(
                                    SectionV {
                                        title: old(self).input@,
                                        description: Seq::empty(),
                                        notes: Seq::empty(),
                                    },
                                ),
                            };
                            assert(self.lists@[fi as int]@.sections =~~= target.sections);
                            assert(self.lists@[fi as int]@ == target);
                        }
                    }
                },
                EditorMode::CreateNote => {
                    if !self.lists.is_empty() {
                        let li = self.list_index;
                        if li < self.lists[fi].sections.len() {
                            let input = self.input.clone();
                            self.lists[fi].sections[li].notes.push(
                                Note { content: input, state: NoteEnum::OPEN },
                            );
                            proof {
                                let target = doc_with_section(
                                    old(self).lists@[fi as int]@,
                                    li as int,
                                    SectionV {
                                        title: old(self).cur_sections()[li as int].title,
                                        description: old(self).cur_sections()[li as int].description,
                                        notes: old(self).cur_notes().push(
                                            NoteV { content: old(self).input@, state: NoteEnum::OPEN },
                                        ),
                                    },
                                );
                                assert(self.lists@[fi as int]@.sections =~~= target.sections);
                                assert(self.lists@[fi as int]@ == target);
                            }
                        }
                    }
                },
                EditorMode::ChangeFileName => {
                    if !self.lists.is_empty() {
                        let input = self.input.clone();
                        let old_path = self.paths[fi].clone();
                        let ghost removals0 = self.to_remove.deep_view();
                        let ghost files0 = self.files.deep_view();
                        let ghost paths0 = self.paths.deep_view();
                        self.to_remove.push(old_path);
                        let new_path = md_path(&self.main_path, &input);
                        self.files[fi] = input;
                        self.paths[fi] = new_path;
                        // The recorded fingerprint belonged to the old path;
                        // forgetting it makes the save plan write the
                        // document at its new path even if it was not edited.
                        self.hashes[fi] = None;
                        proof {
                            assert(self.to_remove.deep_view() =~= removals0.push(
                                old(self).paths@[fi as int]@,
                            ));
                            assert(self.files.deep_view() =~= files0.update(
                                fi as int,
                                old(self).input@,
                            ));
                            assert(self.paths.deep_view() =~= paths0.update(
                                fi as int,
                                spec_md_path(old(self).main_path@, old(self).input@),
                            ));
                        }
                    }
                },
                EditorMode::ChangeListName => {
                    if !self.lists.is_empty() {
                        let li = self.list_index;
                        if li < self.lists[fi].sections.len() {
                            let input = self.input.clone();
                            self.lists[fi].sections[li].title = input;
                            proof {
                                let target = doc_with_section(
                                    old(self).lists@[fi as int]@,
                                    li as int,
                                    SectionV {
                                        title: old(self).input@,
                                        description: old(self).cur_sections()[li as int].description,
                                        notes: old(self).cur_sections()[li as int].notes,
                                    },
                                );
                                assert(self.lists@[fi as int]@.sections =~~= target.sections);
                                assert(self.lists@[fi as int]@ == target);
                            }
                        }
                    }
                },
                EditorMode::ChangeListDescription => {
                    if !self.lists.is_empty() {
                        let li = self.list_index;
                        if li < self.lists[fi].sections.len() {
                            let input = self.input.clone();
                            self.lists[fi].sections[li].description = input;
                            proof {
                                let target = doc_with_section(
                                    old(self).lists@[fi as int]@,
                                    li as int,
                                    SectionV {
                                        title: old(self).cur_sections()[li as int].title,
                                        description: old(self).input@,
                                        notes: old(self).cur_sections()[li as int].notes,
                                    },
                                );
                                assert(self.lists@[fi as int]@.sections =~~= target.sections);
                                assert(self.lists@[fi as int]@ == target);
                            }
                        }
                    }
                },
                EditorMode::ChangeNoteContent => {
                    if !self.lists.is_empty() {
                        let li = self.list_index;
                        if li < self.lists[fi].sections.len() {
                            let ni = self.note_index;
                            if ni < self.lists[fi].sections[li].notes.len() {
                                let input = self.input.clone();
                                self.lists[fi].sections[li].notes[ni].set_content(input);
                                proof {
                                    let target = doc_with_note(
                                        old(self).lists@[fi as int]@,
                                        li as int,
                                        ni as int,
                                        NoteV {
                                            content: old(self).input@,
                                            state: old(self).cur_notes()[ni as int].state,
                                        },
                                    );
                                    assert(self.lists@[fi as int]@.sections =~~= target.sections);
                                    assert(self.lists@[fi as int]@ == target);
                                }
                            }
                        }
                    }
                },
                EditorMode::Nothing => {},
            }
        }
        self.mode = EditorMode::Nothing;
        self.input = String::new();
    }

    /// Everything but the text-entry mode and buffer is untouched.
    pub open spec fn same_model_but_editor(self, other: App) -> bool {
        &&& other.main_path == self.main_path
        &&& other.files == self.files
        &&& other.paths == self.paths
        &&& other.lists == self.lists
        &&& other.hashes == self.hashes
        &&& other.to_remove == self.to_remove
    }

    /// Record, for every document, the fingerprint of its serialized text as
    /// it stands now; the save plan then rewrites none of them until they
    /// change again.
    pub fn record_fingerprints(&mut self)
        requires
            old(self).wf(),
        ensures
            final(self).wf(),
            old(self).same_focus(*final(self)),
            final(self).main_path == old(self).main_path,
            final(self).files == old(self).files,
            final(self).paths == old(self).paths,
            final(self).lists == old(self).lists,
            final(self).to_remove == old(self).to_remove,
            final(self).mode == old(self).mode,
            final(self).input == old(self).input,
            final(self).hashes@.len() == old(self).hashes@.len(),
            forall|i: int|
                0 <= i < old(self).doc_count() ==> final(self).hashes@[i] == Some(
                    hash_of(spec_serialize(old(self).lists@[i]@)),
                ),
    {
        let n = self.lists.len();
        let mut i: usize = 0;
        while i < n
            invariant
                i <= n,
                n == self.lists@.len(),
                self.wf(),
                old(self).same_focus(*self),
                self.main_path == old(self).main_path,
                self.files == old(self).files,
                self.paths == old(self).paths,
                self.lists == old(self).lists,
                self.to_remove == old(self).to_remove,
                self.mode == old(self).mode,
                self.input == old(self).input,
                self.hashes@.len() == old(self).hashes@.len(),
                forall|k: int|
                    0 <= k < i ==> self.hashes@[k] == Some(
                        hash_of(spec_serialize(old(self).lists@[k]@)),
                    ),
            decreases n - i,
        {
            let text = self.lists[i].serialize();
            let fp = fingerprint(&text);
            self.hashes[i] = Some(fp);
            i = i + 1;
        }
    }

    /// The save plan: which paths to delete, and the full new text of every
    /// document whose fingerprint differs from the recorded one — exactly
    /// those, in index order.
    pub fn save_plan(&self) -> (r: SavePlan)
        requires
            self.wf(),
        ensures
            r.deletions.deep_view() == self.to_remove.deep_view(),
            writes_view(r.writes) == spec_writes_upto(*self, self.doc_count() as int),
    {
        let deletions = self.to_remove.clone();
        proof {
            broadcast use vstd::std_specs::vec::vec_clone_deep_view_proof;
        }
        let mut writes: Vec<FileWrite> = Vec::new();
        let n = self.lists.len();
        let mut i: usize = 0;
        while i < n
            invariant
                i <= n,
                n == self.lists@.len(),
                self.wf(),
                writes_view(writes) == spec_writes_upto(*self, i as int),
            decreases n - i,
        {
            let text = self.lists[i].serialize();
            let fp = fingerprint(&text);
            let changed = match self.hashes[i] {
                Some(h) => h != fp,
                None => true,
            };
            if changed {
                let path = self.paths[i].clone();
                writes.push(FileWrite { path, content: text });
            }
            proof {
                assert(writes_view(writes) =~= spec_writes_upto(*self, i + 1));
            }
            i = i + 1;
        }
        SavePlan { deletions, writes }
    }
}

/// What saving must do: delete these paths, then overwrite these files with
/// this content.
pub struct SavePlan {
    /// Paths whose files are deleted first.
    pub deletions: Vec<String>,
    /// The documents to rewrite, each with its full new text.
    pub writes: Vec<FileWrite>,
}

} // verus!
