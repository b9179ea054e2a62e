//! The markdown codec: parsing lines into a [`FileList`] and serializing a
//! [`FileList`] back to text.
//!
//! The format: each section starts with a `"# "` header line, followed by an
//! optional description line and the notes, one `"- [x] "` / `"- [ ] "` /
//! `"- [-] "` line each; sections are separated by one blank line, and the
//! serialized text ends with exactly one trailing newline.

use vstd::prelude::*;

use crate::strutil::has_prefix;
use crate::strutil::str_has_prefix;
use crate::strutil::str_tail;
use crate::todo::FileList;
use crate::todo::FileListV;
use crate::todo::Note;
use crate::todo::NoteEnum;
use crate::todo::NoteV;
use crate::todo::Section;
use crate::todo::SectionV;
use crate::todo::spec_note_line;

verus! {

/// A section with nothing in it: the accumulator before any header line, and
/// the placeholder section of an input without headers.
pub open spec fn empty_section() -> SectionV {
    SectionV { title: Seq::empty(), description: Seq::empty(), notes: Seq::empty() }
}

/// The parser's accumulator: whether a header has been seen, the section in
/// progress, and the finished sections.
pub ghost struct ParseState {
    pub started: bool,
    pub cur: SectionV,
    pub done: Seq<SectionV>,
}

/// The parser's starting state.
pub open spec fn parse_init() -> ParseState {
    ParseState { started: false, cur: empty_section(), done: Seq::empty() }
}

/// `st` with one note appended to the section in progress.
pub open spec fn push_note(st: ParseState, content: Seq<char>, state: NoteEnum) -> ParseState {
    ParseState {
        started: st.started,
        cur: SectionV {
            title: st.cur.title,
            description: st.cur.description,
            notes: st.cur.notes.push(NoteV { content, state }),
        },
        done: st.done,
    }
}

/// One parser step: how a single line changes the accumulator.
///
/// A `"# "` line starts a new section, flushing the one in progress; a
/// recognized checkbox line adds a note to the section in progress; any other
/// `"- "` line is dropped; any other non-empty line extends the description,
/// joined with a single space. Lines before the first header are dropped.
pub open spec fn parse_step(st: ParseState, line: Seq<char>) -> ParseState {
    if has_prefix(line, "# "@) {
        ParseState {
            started: true,
            cur: SectionV {
                title: line.skip("# "@.len() as int),
                description: Seq::empty(),
                notes: Seq::empty(),
            },
            done: if st.started {
                st.done.push(st.cur)
            } else {
                st.done
            },
        }
    } else if has_prefix(line, "- "@) {
        if !st.started {
            st
        } else if has_prefix(line, "- [x] "@) {
            push_note(st, line.skip("- [x] "@.len() as int), NoteEnum::DONE)
        } else if has_prefix(line, "- [ ] "@) {
            push_note(st, line.skip("- [ ] "@.len() as int), NoteEnum::OPEN)
        } else if has_prefix(line, "- [] "@) {
            push_note(st, line.skip("- [] "@.len() as int), NoteEnum::OPEN)
        } else if has_prefix(line, "- [-] "@) {
            push_note(st, line.skip("- [-] "@.len() as int), NoteEnum::REJECTED)
        } else {
            st
        }
    } else if st.started && line.len() > 0 {
        ParseState {
            started: st.started,
            cur: SectionV {
                title: st.cur.title,
                description: if st.cur.description.len() == 0 {
                    line
                } else {
                    st.cur.description + " "@ + line
                },
                notes: st.cur.notes,
            },
            done: st.done,
        }
    } else {
        st
    }
}

/// The accumulator after feeding every line of `lines` to [`parse_step`].
pub open spec fn parse_all(st: ParseState, lines: Seq<Seq<char>>) -> ParseState
    decreases lines.len(),
{
    if lines.len() == 0 {
        st
    } else {
        parse_step(parse_all(st, lines.drop_last()), lines.last())
    }
}

/// What parsing yields: the finished sections plus the final accumulator,
/// which is an empty placeholder section if no header was ever seen.
pub open spec fn spec_parse(lines: Seq<Seq<char>>) -> FileListV {
    let st = parse_all(parse_init(), lines);
    FileListV { sections: st.done.push(st.cur) }
}

/// The lines one section serializes to: header, description if non-empty,
/// then one line per note.
pub open spec fn spec_section_lines(s: SectionV) -> Seq<Seq<char>> {
    seq!["# "@ + s.title] + (if s.description.len() > 0 {
        seq![s.description]
    } else {
        Seq::<Seq<char>>::empty()
    }) + Seq::new(s.notes.len(), |i: int| spec_note_line(s.notes[i]))
}

/// The lines a whole document serializes to: the sections' lines, separated
/// by one empty line.
pub open spec fn spec_serialize_lines(sections: Seq<SectionV>) -> Seq<Seq<char>>
    decreases sections.len(),
{
    if sections.len() == 0 {
        Seq::empty()
    } else if sections.len() == 1 {
        spec_section_lines(sections[0])
    } else {
        spec_serialize_lines(sections.drop_last()) + seq![Seq::<char>::empty()]
            + spec_section_lines(sections.last())
    }
}

/// The text of a sequence of lines: each line followed by one newline.
pub open spec fn spec_join(lines: Seq<Seq<char>>) -> Seq<char>
    decreases lines.len(),
{
    if lines.len() == 0 {
        Seq::empty()
    } else {
        spec_join(lines.drop_last()) + lines.last() + seq!['\n']
    }
}

/// The serialized text of a document: its lines, each closed by a newline,
/// so the text ends with exactly one trailing newline. A document with no
/// sections has no lines and serializes to a lone newline.
pub open spec fn spec_serialize(d: FileListV) -> Seq<char> {
    if d.sections.len() == 0 {
        seq!['\n']
    } else {
        spec_join(spec_serialize_lines(d.sections))
    }
}

/// The lines of a text: maximal runs without `'\n'`; a terminating newline
/// closes a line and does not open a new one, so `"a\nb\n"` and `"a\nb"`
/// both have the lines `a` and `b`.
pub open spec fn spec_lines_of(t: Seq<char>) -> Seq<Seq<char>>
    decreases t.len(),
{
    if t.len() == 0 {
        Seq::empty()
    } else if t[0] == '\n' {
        seq![Seq::<char>::empty()] + spec_lines_of(t.skip(1))
    } else {
        let rest = spec_lines_of(t.skip(1));
        if rest.len() == 0 {
            seq![t]
        } else {
            seq![seq![t[0]] + rest[0]] + rest.skip(1)
        }
    }
}

/// The first line of a non-empty text runs to the first `'\n'`, or to the
/// end if there is none; the remaining lines are those of what follows.
pub proof fn lemma_lines_of_head(t: Seq<char>, j: int)
    requires
        t.len() > 0,
        0 <= j <= t.len(),
        forall|k: int| 0 <= k < j ==> t[k] != '\n',
        j < t.len() ==> t[j] == '\n',
    ensures
        spec_lines_of(t) == seq![t.take(j)] + (if j < t.len() {
            spec_lines_of(t.skip(j + 1))
        } else {
            Seq::<Seq<char>>::empty()
        }),
    decreases j,
{
    if j == 0 {
        assert(t[0] == '\n');
        assert(t.take(0) =~= Seq::<char>::empty());
        assert(seq![t.take(0)] + spec_lines_of(t.skip(1)) =~= seq![Seq::<char>::empty()]
            + spec_lines_of(t.skip(1)));
    } else {
        assert(t[0] != '\n');
        if t.len() == 1 {
            assert(j == 1);
            assert(t.skip(1).len() == 0);
            assert(spec_lines_of(t.skip(1)) == Seq::<Seq<char>>::empty());
            assert(spec_lines_of(t) == seq![t]);
            assert(t.take(1) =~= t);
            assert(seq![t.take(1)] + Seq::<Seq<char>>::empty() =~= seq![t]);
        } else {
            let u = t.skip(1);
            assert(u.len() > 0);
            assert(forall|k: int| 0 <= k < j - 1 ==> u[k] == t[k + 1] && u[k] != '\n');
            assert(j - 1 < u.len() ==> u[j - 1] == t[j]);
            lemma_lines_of_head(u, j - 1);
            let rest = spec_lines_of(u);
            assert(rest.len() > 0);
            assert(rest[0] == u.take(j - 1));
            assert(seq![t[0]] + u.take(j - 1) =~= t.take(j));
            if j < t.len() {
                assert(u.skip(j) =~= t.skip(j + 1));
                assert(rest.skip(1) =~= spec_lines_of(t.skip(j + 1)));
                assert(spec_lines_of(t) =~= seq![t.take(j)] + spec_lines_of(t.skip(j + 1)));
            } else {
                assert(rest.skip(1) =~= Seq::<Seq<char>>::empty());
                assert(spec_lines_of(t) =~= seq![t.take(j)]);
            }
        }
    }
}

/// Split a text into its lines, without their newlines.
pub fn split_lines(text: &str) -> (r: Vec<String>)
    ensures
        r.deep_view() == spec_lines_of(text@),
{
    let n = text.unicode_len();
    let mut r: Vec<String> = Vec::new();
    proof {
        assert(text@.skip(0) =~= text@);
        assert(r.deep_view() =~= Seq::<Seq<char>>::empty());
        assert(r.deep_view() + spec_lines_of(text@) =~= spec_lines_of(text@));
    }
    let mut i: usize = 0;
    while i < n
        invariant
            i <= n,
            n == text@.len(),
            spec_lines_of(text@) == r.deep_view() + spec_lines_of(text@.skip(i as int)),
        decreases n - i,
    {
        let mut j: usize = i;
        while j < n && text.get_char(j) != '\n'
            invariant
                i <= j <= n,
                n == text@.len(),
                forall|k: int| i <= k < j ==> text@[k] != '\n',
            decreases n - j,
        {
            j = j + 1;
        }
        let line = text.substring_char(i, j).to_owned();
        let ghost t_i = text@.skip(i as int);
        proof {
            assert(forall|k: int| 0 <= k < j - i ==> t_i[k] == text@[i + k] && t_i[k] != '\n');
            assert((j as int) - (i as int) < t_i.len() ==> t_i[(j as int) - (i as int)]
                == text@[j as int]);
            lemma_lines_of_head(t_i, (j as int) - (i as int));
            assert(line@ =~= t_i.take((j as int) - (i as int)));
        }
        let ghost before = r.deep_view();
        r.push(line);
        proof {
            assert(r.deep_view() =~= before.push(line@));
            if j < n {
                assert(t_i.skip((j as int) - (i as int) + 1) =~= text@.skip(j + 1));
                assert(r.deep_view() + spec_lines_of(text@.skip(j + 1)) =~= before + (seq![
                    t_i.take((j as int) - (i as int)),
                ] + spec_lines_of(t_i.skip((j as int) - (i as int) + 1))));
            } else {
                assert(r.deep_view() + spec_lines_of(text@.skip(n as int)) =~= before + seq![
                    t_i.take((j as int) - (i as int)),
                ]);
            }
        }
        if j < n {
            i = j + 1;
        } else {
            i = n;
        }
    }
    proof {
        assert(text@.skip(n as int).len() == 0);
        assert(r.deep_view() =~= spec_lines_of(text@));
    }
    r
}

/// Parse `lines` into a document, line by line.
pub fn parse_lines(lines: Vec<String>) -> (r: FileList)
    ensures
        r@ == spec_parse(lines.deep_view()),
{
    let ghost lv: Seq<Seq<char>> = lines.deep_view();
    let mut started: bool = false;
    let mut cur_title: String = String::new();
    let mut cur_desc: String = String::new();
    let mut cur_notes: Vec<Note> = Vec::new();
    let mut done: Vec<Section> = Vec::new();

    let n = lines.len();
    let mut i: usize = 0;
    while i < n
        invariant
            i <= n,
            n == lv.len(),
            lv == lines.deep_view(),
            n == lines@.len(),
            ({
                let st = parse_all(parse_init(), lv.take(i as int));
                &&& st.started == started
                &&& st.cur.title == cur_title@
                &&& st.cur.description == cur_desc@
                &&& st.cur.notes == Seq::new(cur_notes@.len(), |k: int| cur_notes@[k]@)
                &&& st.done == Seq::new(done@.len(), |k: int| done@[k]@)
            }),
        decreases n - i,
    {
        let line: &String = &lines[i];
        proof {
            assert(lv.take(i + 1).drop_last() =~= lv.take(i as int));
            assert(lv[i as int] == line@);
            assert(lv.take(i + 1).last() == line@);
        }
        let ghost prev = parse_all(parse_init(), lv.take(i as int));
        let ghost next = parse_all(parse_init(), lv.take(i + 1));
        assert(next == parse_step(prev, line@));
        if str_has_prefix(line.as_str(), "# ") {
            if started {
                let sec = Section { title: cur_title, description: cur_desc, notes: cur_notes };
                proof {
                    assert(sec@ == prev.cur);
                }
                done.push(sec);
                proof {
                    assert(Seq::new(done@.len(), |k: int| done@[k]@) =~= next.done);
                }
            }
            proof {
                reveal_strlit("# ");
            }
            cur_title = str_tail(line.as_str(), 2);
            cur_desc = String::new();
            cur_notes = Vec::new();
            started = true;
            assert(next.cur.notes =~= Seq::new(cur_notes@.len(), |k: int| cur_notes@[k]@));
        } else if str_has_prefix(line.as_str(), "- ") {
            if started {
                if str_has_prefix(line.as_str(), "- [x] ") {
                    proof {
                        reveal_strlit("- [x] ");
                    }
                    let content = str_tail(line.as_str(), 6);
                    cur_notes.push(Note { content, state: NoteEnum::DONE });
                    proof {
                        assert(Seq::new(cur_notes@.len(), |k: int| cur_notes@[k]@)
                            =~= next.cur.notes);
                    }
                } else if str_has_prefix(line.as_str(), "- [ ] ") {
                    proof {
                        reveal_strlit("- [ ] ");
                    }
                    let content = str_tail(line.as_str(), 6);
                    cur_notes.push(Note { content, state: NoteEnum::OPEN });
                    proof {
                        assert(Seq::new(cur_notes@.len(), |k: int| cur_notes@[k]@)
                            =~= next.cur.notes);
                    }
                } else if str_has_prefix(line.as_str(), "- [] ") {
                    proof {
                        reveal_strlit("- [] ");
                    }
                    let content = str_tail(line.as_str(), 5);
                    cur_notes.push(Note { content, state: NoteEnum::OPEN });
                    proof {
                        assert(Seq::new(cur_notes@.len(), |k: int| cur_notes@[k]@)
                            =~= next.cur.notes);
                    }
                } else if str_has_prefix(line.as_str(), "- [-] ") {
                    proof {
                        reveal_strlit("- [-] ");
                    }
                    let content = str_tail(line.as_str(), 6);
                    cur_notes.push(Note { content, state: NoteEnum::REJECTED });
                    proof {
                        assert(Seq::new(cur_notes@.len(), |k: int| cur_notes@[k]@)
                            =~= next.cur.notes);
                    }
                }
            }
        } else if started && !line.as_str().is_empty() {
            if cur_desc.as_str().is_empty() {
                cur_desc = line.clone();
                assert(cur_desc@ == next.cur.description);
            } else {
                cur_desc.append(" ");
                cur_desc.append(line.as_str());
                assert(cur_desc@ == next.cur.description);
            }
        }
        i = i + 1;
    }
    proof {
        assert(lv.take(n as int) =~= lv);
    }
    let ghost st = parse_all(parse_init(), lv);
    let last = Section { title: cur_title, description: cur_desc, notes: cur_notes };
    assert(last@ == st.cur);
    done.push(last);
    let r = FileList { sections: done };
    proof {
        assert(r@.sections =~= st.done.push(st.cur));
    }
    r
}

impl FileList {
    /// The lines this document serializes to, in order and without newlines.
    pub fn serialize_lines(&self) -> (r: Vec<String>)
        ensures
            r.deep_view() == spec_serialize_lines(self@.sections),
    {
        let ghost secs: Seq<SectionV> = self@.sections;
        let mut r: Vec<String> = Vec::new();
        let n = self.sections.len();
        let mut i: usize = 0;
        while i < n
            invariant
                i <= n,
                n == self.sections@.len(),
                secs == self@.sections,
                secs.len() == n,
                r.deep_view() == spec_serialize_lines(secs.take(i as int)),
            decreases n - i,
        {
            let sec: &Section = &self.sections[i];
            proof {
                assert(secs.take(i + 1).drop_last() =~= secs.take(i as int));
                assert(secs[i as int] == sec@);
                assert(secs.take(i + 1).last() == sec@);
            }
            let ghost before = r.deep_view();
            let ghost target = spec_serialize_lines(secs.take(i + 1));
            if i > 0 {
                r.push(String::new());
            }
            let mut hdr = "# ".to_owned();
            hdr.append(sec.title.as_str());
            r.push(hdr);
            if !sec.description.as_str().is_empty() {
                r.push(sec.description.clone());
            }
            let ghost mid = r.deep_view();
            let m = sec.notes.len();
            let mut j: usize = 0;
            while j < m
                invariant
                    j <= m,
                    m == sec.notes@.len(),
                    r.deep_view() == mid + Seq::new(j as nat, |k: int| spec_note_line(sec@.notes[k])),
            decreases m - j,
            {
                let line = sec.notes[j].to_line();
                let ghost pre = r.deep_view();
                r.push(line);
                proof {
                    assert(sec@.notes[j as int] == sec.notes@[j as int]@);
                    assert(r.deep_view() =~= pre.push(line@));
                    assert(Seq::new((j + 1) as nat, |k: int| spec_note_line(sec@.notes[k]))
                        =~= Seq::new(j as nat, |k: int| spec_note_line(sec@.notes[k])).push(
                        spec_note_line(sec@.notes[j as int]),
                    ));
                    assert(r.deep_view() =~= mid + Seq::new(
                        (j + 1) as nat,
                        |k: int| spec_note_line(sec@.notes[k]),
                    ));
                }
                j = j + 1;
            }
            proof {
                if i > 0 {
                    assert(target == spec_serialize_lines(secs.take(i as int))
                        + seq![Seq::<char>::empty()] + spec_section_lines(sec@));
                } else {
                    assert(secs.take(1) =~= seq![secs[0]]);
                    assert(target == spec_section_lines(sec@));
                }
                assert(r.deep_view() =~= spec_serialize_lines(secs.take(i + 1)));
            }
            i = i + 1;
        }
        proof {
            assert(secs.take(n as int) =~= secs);
        }
        r
    }

    /// The serialized text: every line of [`Self::serialize_lines`] followed
    /// by a newline, so the text ends with exactly one trailing newline; a
    /// document with no sections serializes to a lone newline.
    pub fn serialize(&self) -> (r: String)
        ensures
            r@ == spec_serialize(self@),
    {
        if self.sections.is_empty() {
            let r = "\n".to_owned();
            proof {
                reveal_strlit("\n");
                assert(r@ =~= seq!['\n']);
            }
            return r;
        }
        let lines = self.serialize_lines();
        let ghost ls: Seq<Seq<char>> = lines.deep_view();
        let mut r = String::new();
        let n = lines.len();
        let mut i: usize = 0;
        while i < n
            invariant
                i <= n,
                n == lines@.len(),
                ls == lines.deep_view(),
                ls.len() == n,
                r@ == spec_join(ls.take(i as int)),
            decreases n - i,
        {
            proof {
                assert(ls.take(i + 1).drop_last() =~= ls.take(i as int));
                assert(ls.take(i + 1).last() == ls[i as int]);
                reveal_strlit("\n");
                assert("\n"@ =~= seq!['\n']);
            }
            r.append(lines[i].as_str());
            r.append("\n");
            assert(r@ =~= spec_join(ls.take(i + 1)));
            i = i + 1;
        }
        proof {
            assert(ls.take(n as int) =~= ls);
        }
        r
    }
}

} // verus!
