//! The document model: notes, sections, and whole list files.

use vstd::prelude::*;

use crate::strutil::str_tail;

verus! {

/// Name of the data directory that holds the list files.
pub const MAIN_DIR: &'static str = "yoku";

/// Name of the starter list that seeds an empty data directory.
pub const STARTER_FILE: &'static str = "starter.md";

/// Contents of the starter list.
pub const STARTER_FILE_CONTENT: &'static str = "# Start\n\nThis is a simple todo list\n\n- [ ] you may change note state with Enter, Spacebar, x, +, - or delete it with r\n- [ ] navigation keys include WASD, HJKL and arrow keys\n\n# Create\n\nThis list contains shortcuts related to creating new files\n\n- [ ] u = create new file (press enter to confirm)\n- [ ] i = create new list (press enter to confirm)\n- [ ] o = create new note (press enter to confirm)\n\n# Modify\n\nThis list contains shortcuts related to modifying data\n\n- [ ] e = edit current file/note/list\n- [ ] Ctrl + e = edit current list's description \n- [ ] r = remove current file/note/list\n- [ ] use the Escape key to unselect the current note\n\n# Exiting\n\n- [ ] q = exit and save\n- [ ] Ctrl + q  = exit and discard changes\n- [ ] Ctrl + C  = exit and discard changes\n\n";

/// Title of the one section a freshly created file starts with.
pub const STARTER_FILE_TITLE: &'static str = "Todo";

/// Description of the one section a freshly created file starts with.
pub const STARTER_FILE_DESCRIPTION: &'static str = "This is a simple todo list";

/// Content of the one note a freshly created file starts with.
pub const STARTER_FILE_NOTE: &'static str = "you may check this";

/// The errors a document operation can report.
#[derive(Clone, Copy, Debug, PartialEq, Eq, Structural)]
pub enum TodoError {
    IndexOutOfRange,
}

/// The state of one todo item.
#[derive(Clone, Copy, Debug, PartialEq, Eq, Structural)]
pub enum NoteEnum {
    OPEN,
    DONE,
    REJECTED,
}

/// One todo item: its text and its checkbox state.
#[derive(Clone, Debug)]
pub struct Note {
    pub content: String,
    pub state: NoteEnum,
}

/// The mathematical value of a [`Note`].
#[verifier::ext_equal]
pub ghost struct NoteV {
    pub content: Seq<char>,
    pub state: NoteEnum,
}

impl View for Note {
    type V = NoteV;

    open spec fn view(&self) -> NoteV {
        NoteV { content: self.content@, state: self.state }
    }
}

/// One list inside a file: a title, a free-text description, and the todo
/// items in order.
#[derive(Clone, Debug)]
pub struct Section {
    pub title: String,
    pub description: String,
    pub notes: Vec<Note>,
}

/// The mathematical value of a [`Section`].
#[verifier::ext_equal]
pub ghost struct SectionV {
    pub title: Seq<char>,
    pub description: Seq<char>,
    pub notes: Seq<NoteV>,
}

impl View for Section {
    type V = SectionV;

    open spec fn view(&self) -> SectionV {
        SectionV {
            title: self.title@,
            description: self.description@,
            notes: Seq::new(self.notes@.len(), |i: int| self.notes@[i]@),
        }
    }
}

/// The in-memory form of one list file: its sections in order.
#[derive(Clone, Debug)]
pub struct FileList {
    pub sections: Vec<Section>,
}

/// The mathematical value of a [`FileList`].
#[verifier::ext_equal]
pub ghost struct FileListV {
    pub sections: Seq<SectionV>,
}

impl View for FileList {
    type V = FileListV;

    open spec fn view(&self) -> FileListV {
        FileListV { sections: Seq::new(self.sections@.len(), |i: int| self.sections@[i]@) }
    }
}

/// The text between `start` and the content in [`Note::to_string_custom`],
/// chosen by the note's state.
pub open spec fn state_infix(state: NoteEnum) -> Seq<char> {
    match state {
        NoteEnum::DONE => " [x] "@,
        NoteEnum::OPEN => " [ ] "@,
        NoteEnum::REJECTED => " [-] "@,
    }
}

/// The line a note serializes to, without its terminating newline.
pub open spec fn spec_note_line(n: NoteV) -> Seq<char> {
    match n.state {
        NoteEnum::DONE => "- [x] "@ + n.content,
        NoteEnum::OPEN => "- [ ] "@ + n.content,
        NoteEnum::REJECTED => "- [-] "@ + n.content,
    }
}

impl Note {
    pub fn set_content(&mut self, content: String)
        ensures
            final(self).content == content,
            final(self).state == old(self).state,
    {
        self.content = content;
    }

    pub fn set_state(&mut self, state: NoteEnum)
        ensures
            final(self).state == state,
            final(self).content == old(self).content,
    {
        self.state = state;
    }

    /// Render the note with a caller-chosen lead-in in place of the `-`
    /// bullet, e.g. a cursor mark.
    pub fn to_string_custom(&self, start: &str) -> (r: String)
        ensures
            r@ == start@ + state_infix(self.state) + self.content@,
    {
        let mut r = start.to_owned();
        match self.state {
            NoteEnum::DONE => r.append(" [x] "),
            NoteEnum::OPEN => r.append(" [ ] "),
            NoteEnum::REJECTED => r.append(" [-] "),
        }
        r.append(self.content.as_str());
        r
    }

    /// The markdown line for this note: checkbox marker, then the content.
    pub fn to_line(&self) -> (r: String)
        ensures
            r@ == spec_note_line(self@),
    {
        match self.state {
            NoteEnum::DONE => {
                let mut r = "- [x] ".to_owned();
                r.append(self.content.as_str());
                r
            },
            NoteEnum::OPEN => {
                let mut r = "- [ ] ".to_owned();
                r.append(self.content.as_str());
                r
            },
            NoteEnum::REJECTED => {
                let mut r = "- [-] ".to_owned();
                r.append(self.content.as_str());
                r
            },
        }
    }
}

/// The part of a path after its last `/`: the whole path if it has none.
pub open spec fn spec_filename(p: Seq<char>) -> Seq<char>
    decreases p.len(),
{
    if p.len() == 0 {
        p
    } else if p.last() == '/' {
        Seq::empty()
    } else {
        spec_filename(p.drop_last()).push(p.last())
    }
}

/// `name` has a `.` at some position after its first character, so it has an
/// extension to strip.
pub open spec fn has_ext_dot(name: Seq<char>) -> bool {
    exists|k: int| 1 <= k < name.len() && name[k] == '.'
}

/// `name` cut at its last `.`, when that dot is not the first character;
/// a name without such a dot is kept whole.
pub open spec fn spec_strip_extension(name: Seq<char>) -> Seq<char>
    decreases name.len(),
{
    if !has_ext_dot(name) {
        name
    } else if name.last() == '.' {
        name.drop_last()
    } else {
        spec_strip_extension(name.drop_last())
    }
}

/// A suffix of `p` with no `/` in it, that either is all of `p` or starts
/// right after a `/`, is the filename.
proof fn lemma_filename_suffix(p: Seq<char>, j: int)
    requires
        0 <= j <= p.len(),
        forall|k: int| j <= k < p.len() ==> p[k] != '/',
        j > 0 ==> p[j - 1] == '/',
    ensures
        spec_filename(p) == p.skip(j),
    decreases p.len(),
{
    if p.len() == 0 {
        assert(p.skip(0) =~= p);
    } else if p.last() == '/' {
        assert(j == p.len());
        assert(p.skip(j) =~= Seq::<char>::empty());
    } else {
        assert(j < p.len());
        lemma_filename_suffix(p.drop_last(), j);
        assert(p.drop_last().skip(j).push(p.last()) =~= p.skip(j));
    }
}

/// Cutting at the last inner dot is what [`spec_strip_extension`] does.
proof fn lemma_strip_at_last_dot(name: Seq<char>, k: int)
    requires
        1 <= k < name.len(),
        name[k] == '.',
        forall|m: int| k < m < name.len() ==> name[m] != '.',
    ensures
        spec_strip_extension(name) == name.take(k),
    decreases name.len(),
{
    assert(has_ext_dot(name));
    if k == name.len() - 1 {
        assert(name.drop_last() =~= name.take(k));
    } else {
        assert(name.last() != '.');
        lemma_strip_at_last_dot(name.drop_last(), k);
        assert(name.drop_last().take(k) =~= name.take(k));
    }
}

/// The filename component of a path: everything after the last `/`, or the
/// whole path when it has no `/`.
pub fn extract_filename(path: &String) -> (r: String)
    ensures
        r@ == spec_filename(path@),
{
    let s = path.as_str();
    let n = s.unicode_len();
    let mut i: usize = n;
    while i > 0 && s.get_char(i - 1) != '/'
        invariant
            i <= n,
            n == s@.len(),
            forall|k: int| i <= k < n ==> s@[k] != '/',
        decreases i,
    {
        i = i - 1;
    }
    proof {
        lemma_filename_suffix(s@, i as int);
    }
    str_tail(s, i)
}

/// The display name of a path: its filename with the extension stripped.
pub fn extract_naked_filename(path: &String) -> (r: String)
    ensures
        r@ == spec_strip_extension(spec_filename(path@)),
{
    let name = extract_filename(path);
    let s = name.as_str();
    let n = s.unicode_len();
    let mut i: usize = n;
    while i > 1 && s.get_char(i - 1) != '.'
        invariant
            i <= n,
            n == s@.len(),
            forall|k: int| i <= k < n ==> s@[k] != '.',
        decreases i,
    {
        i = i - 1;
    }
    if i > 1 {
        proof {
            lemma_strip_at_last_dot(s@, i - 1);
        }
        let r = s.substring_char(0, i - 1).to_owned();
        proof {
            assert(r@ =~= s@.take(i - 1));
        }
        r
    } else {
        proof {
            assert(!has_ext_dot(s@)) by {
                if has_ext_dot(s@) {
                    let k = choose|k: int| 1 <= k < s@.len() && s@[k] == '.';
                    assert(s@[k] != '.');
                }
            }
        }
        name
    }
}

impl FileList {
    /// Remove the section at `index`; reject an out-of-range index.
    pub fn remove(&mut self, index: usize) -> (r: Result<(), TodoError>)
        ensures
            index < old(self).sections@.len() ==> r is Ok && final(self).sections@
                == old(self).sections@.remove(index as int),
            index >= old(self).sections@.len() ==> r is Err && *final(self) == *old(self),
    {
        if index < self.sections.len() {
            self.sections.remove(index);
            Ok(())
        } else {
            Err(TodoError::IndexOutOfRange)
        }
    }
}

} // verus!
