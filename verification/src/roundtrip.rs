//! Round-trip laws of the codec: parsing a serialized document recovers it
//! exactly, and serialization is idempotent across a parse.
//!
//! Both laws hold for well-formed documents (see [`wf_doc`]). They fail for
//! others: a description that itself starts with `"- "` or `"# "` would be
//! read back as a note line or a header line, not as description text.

use vstd::prelude::*;

use crate::codec::ParseState;
use crate::codec::lemma_lines_of_head;
use crate::codec::parse_all;
use crate::codec::parse_init;
use crate::codec::parse_step;
use crate::codec::push_note;
use crate::codec::spec_join;
use crate::codec::spec_lines_of;
use crate::codec::spec_parse;
use crate::codec::spec_section_lines;
use crate::codec::spec_serialize;
use crate::codec::spec_serialize_lines;
use crate::strutil::has_prefix;
use crate::todo::FileListV;
use crate::todo::NoteEnum;
use crate::todo::NoteV;
use crate::todo::SectionV;
use crate::todo::spec_note_line;

verus! {

/// A section the serialized form of which parses back unchanged: its
/// description must not look like a header line or a bullet line.
pub open spec fn wf_section(s: SectionV) -> bool {
    &&& !has_prefix(s.description, "# "@)
    &&& !has_prefix(s.description, "- "@)
}

/// Every section of the document is well-formed.
pub open spec fn wf_doc(d: FileListV) -> bool {
    forall|i: int| 0 <= i < d.sections.len() ==> wf_section(#[trigger] d.sections[i])
}

/// The character-level content of the marker literals.
proof fn marker_facts()
    ensures
        "# "@ =~= seq!['#', ' '],
        "- "@ =~= seq!['-', ' '],
        "- [x] "@ =~= seq!['-', ' ', '[', 'x', ']', ' '],
        "- [ ] "@ =~= seq!['-', ' ', '[', ' ', ']', ' '],
        "- [] "@ =~= seq!['-', ' ', '[', ']', ' '],
        "- [-] "@ =~= seq!['-', ' ', '[', '-', ']', ' '],
{
    reveal_strlit("# ");
    reveal_strlit("- ");
    reveal_strlit("- [x] ");
    reveal_strlit("- [ ] ");
    reveal_strlit("- [] ");
    reveal_strlit("- [-] ");
}

/// If `p` is a prefix of `s`, the two agree at every index below `p.len()`.
proof fn lemma_prefix_index(s: Seq<char>, p: Seq<char>, k: int)
    requires
        has_prefix(s, p),
        0 <= k < p.len(),
    ensures
        s[k] == p[k],
{
    assert(s.subrange(0, p.len() as int)[k] == s[k]);
}

/// A concatenation starts with its first operand.
proof fn lemma_concat_has_prefix(p: Seq<char>, t: Seq<char>)
    ensures
        has_prefix(p + t, p),
        (p + t).skip(p.len() as int) =~= t,
{
    assert((p + t).subrange(0, p.len() as int) =~= p);
}

/// Feeding a concatenation of line sequences is feeding one after the other.
proof fn lemma_parse_all_concat(st: ParseState, a: Seq<Seq<char>>, b: Seq<Seq<char>>)
    ensures
        parse_all(st, a + b) == parse_all(parse_all(st, a), b),
    decreases b.len(),
{
    if b.len() == 0 {
        assert(a + b =~= a);
    } else {
        lemma_parse_all_concat(st, a, b.drop_last());
        assert((a + b).drop_last() =~= a + b.drop_last());
        assert((a + b).last() == b.last());
    }
}

/// One parser step on a serialized note line appends exactly that note.
proof fn lemma_parse_step_note(st: ParseState, n: NoteV)
    requires
        st.started,
    ensures
        parse_step(st, spec_note_line(n)) == push_note(st, n.content, n.state),
{
    marker_facts();
    let line = spec_note_line(n);
    match n.state {
        NoteEnum::DONE => {
            lemma_concat_has_prefix("- [x] "@, n.content);
            assert(line[0] == '-');
            assert(!has_prefix(line, "# "@)) by {
                if has_prefix(line, "# "@) {
                    lemma_prefix_index(line, "# "@, 0);
                }
            }
            assert(has_prefix(line, "- "@)) by {
                assert(line.subrange(0, 2) =~= "- "@);
            }
        },
        NoteEnum::OPEN => {
            lemma_concat_has_prefix("- [ ] "@, n.content);
            assert(line[0] == '-');
            assert(line[3] == ' ');
            assert(!has_prefix(line, "# "@)) by {
                if has_prefix(line, "# "@) {
                    lemma_prefix_index(line, "# "@, 0);
                }
            }
            assert(has_prefix(line, "- "@)) by {
                assert(line.subrange(0, 2) =~= "- "@);
            }
            assert(!has_prefix(line, "- [x] "@)) by {
                if has_prefix(line, "- [x] "@) {
                    lemma_prefix_index(line, "- [x] "@, 3);
                }
            }
        },
        NoteEnum::REJECTED => {
            lemma_concat_has_prefix("- [-] "@, n.content);
            assert(line[0] == '-');
            assert(line[3] == '-');
            assert(!has_prefix(line, "# "@)) by {
                if has_prefix(line, "# "@) {
                    lemma_prefix_index(line, "# "@, 0);
                }
            }
            assert(has_prefix(line, "- "@)) by {
                assert(line.subrange(0, 2) =~= "- "@);
            }
            assert(!has_prefix(line, "- [x] "@)) by {
                if has_prefix(line, "- [x] "@) {
                    lemma_prefix_index(line, "- [x] "@, 3);
                }
            }
            assert(!has_prefix(line, "- [ ] "@)) by {
                if has_prefix(line, "- [ ] "@) {
                    lemma_prefix_index(line, "- [ ] "@, 3);
                }
            }
            assert(!has_prefix(line, "- [] "@)) by {
                if has_prefix(line, "- [] "@) {
                    lemma_prefix_index(line, "- [] "@, 3);
                }
            }
        },
    }
}

/// Feeding every serialized note line of `notes` appends exactly `notes`.
proof fn lemma_parse_note_lines(st: ParseState, notes: Seq<NoteV>)
    requires
        st.started,
    ensures
        parse_all(st, Seq::new(notes.len(), |i: int| spec_note_line(notes[i]))) == (ParseState {
            started: st.started,
            cur: SectionV {
                title: st.cur.title,
                description: st.cur.description,
                notes: st.cur.notes + notes,
            },
            done: st.done,
        }),
    decreases notes.len(),
{
    let lines = Seq::new(notes.len(), |i: int| spec_note_line(notes[i]));
    if notes.len() == 0 {
        assert(st.cur.notes + notes =~= st.cur.notes);
        assert(SectionV {
            title: st.cur.title,
            description: st.cur.description,
            notes: st.cur.notes + notes,
        } == st.cur);
    } else {
        let prefix = notes.drop_last();
        lemma_parse_note_lines(st, prefix);
        assert(lines.drop_last() =~= Seq::new(prefix.len(), |i: int| spec_note_line(prefix[i])));
        let st1 = parse_all(st, lines.drop_last());
        lemma_parse_step_note(st1, notes.last());
        assert(NoteV { content: notes.last().content, state: notes.last().state } == notes.last());
        assert(st.cur.notes + prefix.push(notes.last()) =~= st.cur.notes + notes);
        assert((st.cur.notes + prefix).push(notes.last()) =~= st.cur.notes + notes);
    }
}

/// Feeding the serialized lines of one well-formed section flushes the
/// section in progress, if any, and leaves exactly `s` in progress.
proof fn lemma_parse_section(st: ParseState, s: SectionV)
    requires
        wf_section(s),
    ensures
        parse_all(st, spec_section_lines(s)) == (ParseState {
            started: true,
            cur: s,
            done: if st.started {
                st.done.push(st.cur)
            } else {
                st.done
            },
        }),
{
    marker_facts();
    let hdr = seq!["# "@ + s.title];
    let desc: Seq<Seq<char>> = if s.description.len() > 0 {
        seq![s.description]
    } else {
        Seq::<Seq<char>>::empty()
    };
    let nls = Seq::new(s.notes.len(), |i: int| spec_note_line(s.notes[i]));
    assert(spec_section_lines(s) == hdr + desc + nls);
    lemma_parse_all_concat(st, hdr + desc, nls);
    lemma_parse_all_concat(st, hdr, desc);

    // The header line.
    assert(hdr.drop_last() =~= Seq::<Seq<char>>::empty());
    assert(parse_all(st, Seq::<Seq<char>>::empty()) == st);
    assert(parse_all(st, hdr) == parse_step(st, "# "@ + s.title));
    lemma_concat_has_prefix("# "@, s.title);
    let st1 = parse_step(st, "# "@ + s.title);
    assert(st1.cur.title == s.title);

    // The description line, if the description is non-empty.
    let st2 = parse_all(st1, desc);
    if s.description.len() > 0 {
        assert(desc.drop_last() =~= Seq::<Seq<char>>::empty());
        assert(parse_all(st1, Seq::<Seq<char>>::empty()) == st1);
        assert(st2 == parse_step(st1, s.description));
        assert(st2.cur.description == s.description);
    } else {
        assert(st2 == st1);
        assert(st2.cur.description =~= s.description);
    }

    // The note lines.
    lemma_parse_note_lines(st2, s.notes);
    let st3 = parse_all(st2, nls);
    assert(st3.cur.notes =~= s.notes);
    assert(st3.cur == s);
}

/// Feeding the serialized lines of a well-formed document reconstructs all
/// its sections: the last one is left in progress, the rest are finished.
proof fn lemma_parse_sections(sections: Seq<SectionV>)
    requires
        sections.len() > 0,
        forall|i: int| 0 <= i < sections.len() ==> wf_section(#[trigger] sections[i]),
    ensures
        parse_all(parse_init(), spec_serialize_lines(sections)) == (ParseState {
            started: true,
            cur: sections.last(),
            done: sections.drop_last(),
        }),
    decreases sections.len(),
{
    marker_facts();
    if sections.len() == 1 {
        lemma_parse_section(parse_init(), sections[0]);
        assert(sections.drop_last() =~= Seq::<SectionV>::empty());
    } else {
        let dl = sections.drop_last();
        lemma_parse_sections(dl);
        let st1 = parse_all(parse_init(), spec_serialize_lines(dl));
        let sep = seq![Seq::<char>::empty()];
        assert(spec_serialize_lines(sections) == spec_serialize_lines(dl) + sep
            + spec_section_lines(sections.last()));
        assert(spec_serialize_lines(dl) + sep + spec_section_lines(sections.last())
            =~= spec_serialize_lines(dl) + (sep + spec_section_lines(sections.last())));
        lemma_parse_all_concat(
            parse_init(),
            spec_serialize_lines(dl),
            sep + spec_section_lines(sections.last()),
        );
        lemma_parse_all_concat(st1, sep, spec_section_lines(sections.last()));

        // The separating blank line changes nothing.
        assert(sep.drop_last() =~= Seq::<Seq<char>>::empty());
        assert(parse_all(st1, Seq::<Seq<char>>::empty()) == st1);
        assert(parse_all(st1, sep) == parse_step(st1, Seq::<char>::empty()));
        assert(parse_step(st1, Seq::<char>::empty()) == st1);

        lemma_parse_section(st1, sections.last());
        assert(dl.drop_last().push(dl.last()) =~= dl);
    }
}

/// Parsing the serialized lines of a well-formed, non-empty document yields
/// the document back, exactly: every title, every description, and every
/// note's content and state, all in order.
pub proof fn lemma_parse_serialize_roundtrip(d: FileListV)
    requires
        wf_doc(d),
        d.sections.len() > 0,
    ensures
        spec_parse(spec_serialize_lines(d.sections)) == d,
{
    lemma_parse_sections(d.sections);
    assert(d.sections.drop_last().push(d.sections.last()) =~= d.sections);
    assert(spec_parse(spec_serialize_lines(d.sections)) == (FileListV { sections: d.sections }));
    assert(FileListV { sections: d.sections } == d);
}

/// Serialization is idempotent across a parse: re-serializing what the
/// serialized form parses to reproduces the serialized text, byte for byte.
pub proof fn lemma_serialize_idempotent(d: FileListV)
    requires
        wf_doc(d),
        d.sections.len() > 0,
    ensures
        spec_serialize(spec_parse(spec_serialize_lines(d.sections))) == spec_serialize(d),
{
    lemma_parse_serialize_roundtrip(d);
}

/// `l` holds no newline character.
pub open spec fn line_clean(l: Seq<char>) -> bool {
    forall|k: int| 0 <= k < l.len() ==> l[k] != '\n'
}

/// No line of `ls` holds a newline character.
pub open spec fn lines_clean(ls: Seq<Seq<char>>) -> bool {
    forall|i: int| 0 <= i < ls.len() ==> line_clean(#[trigger] ls[i])
}

/// No text of the document holds a newline character, so its serialized
/// form splits back into exactly the lines it was built from.
pub open spec fn doc_clean(d: FileListV) -> bool {
    forall|i: int|
        0 <= i < d.sections.len() ==> {
            let s = #[trigger] d.sections[i];
            &&& line_clean(s.title)
            &&& line_clean(s.description)
            &&& forall|j: int| 0 <= j < s.notes.len() ==> line_clean(#[trigger] s.notes[j].content)
        }
}

/// Joined text can be peeled from the front: the first line, a newline, and
/// the rest.
proof fn lemma_join_cons(ls: Seq<Seq<char>>)
    requires
        ls.len() > 0,
    ensures
        spec_join(ls) == ls[0] + seq!['\n'] + spec_join(ls.skip(1)),
    decreases ls.len(),
{
    if ls.len() == 1 {
        assert(ls.drop_last() =~= Seq::<Seq<char>>::empty());
        assert(ls.skip(1) =~= Seq::<Seq<char>>::empty());
        assert(spec_join(Seq::<Seq<char>>::empty()) == Seq::<char>::empty());
        assert(spec_join(ls) =~= ls[0] + seq!['\n'] + spec_join(ls.skip(1)));
    } else {
        let dl = ls.drop_last();
        lemma_join_cons(dl);
        assert(ls.skip(1).drop_last() =~= dl.skip(1));
        assert(ls.skip(1).last() == ls.last());
        assert(ls.skip(1).len() > 0);
        assert(spec_join(ls.skip(1)) == spec_join(dl.skip(1)) + ls.last() + seq!['\n']);
        assert(ls[0] == dl[0]);
        assert(spec_join(ls) =~= ls[0] + seq!['\n'] + spec_join(ls.skip(1)));
    }
}

/// Splitting the joined text of newline-free lines gives the lines back.
pub proof fn lemma_lines_of_join(ls: Seq<Seq<char>>)
    requires
        lines_clean(ls),
    ensures
        spec_lines_of(spec_join(ls)) == ls,
    decreases ls.len(),
{
    if ls.len() == 0 {
        assert(spec_join(ls).len() == 0);
    } else {
        lemma_join_cons(ls);
        let t = spec_join(ls);
        let j = ls[0].len() as int;
        assert(line_clean(ls[0]));
        assert(forall|k: int| 0 <= k < j ==> t[k] == ls[0][k] && t[k] != '\n');
        assert(t[j] == '\n');
        assert(t.len() >= j + 1);
        lemma_lines_of_head(t, j);
        assert(t.take(j) =~= ls[0]);
        assert(t.skip(j + 1) =~= spec_join(ls.skip(1)));
        assert(lines_clean(ls.skip(1))) by {
            assert(forall|i: int| 0 <= i < ls.skip(1).len() ==> ls.skip(1)[i] == ls[i + 1]);
        }
        lemma_lines_of_join(ls.skip(1));
        assert(spec_lines_of(t) =~= seq![ls[0]] + ls.skip(1));
        assert(seq![ls[0]] + ls.skip(1) =~= ls);
    }
}

/// Concatenation keeps lines newline-free.
proof fn lemma_line_clean_concat(a: Seq<char>, b: Seq<char>)
    requires
        line_clean(a),
        line_clean(b),
    ensures
        line_clean(a + b),
{
    assert(forall|k: int| 0 <= k < a.len() ==> (a + b)[k] == a[k]);
    assert(forall|k: int| a.len() <= k < a.len() + b.len() ==> (a + b)[k] == b[k - a.len()]);
}

/// The serialized lines of clean sections are themselves newline-free.
proof fn lemma_ser_lines_clean(sections: Seq<SectionV>)
    requires
        forall|i: int|
            0 <= i < sections.len() ==> {
                let s = #[trigger] sections[i];
                &&& line_clean(s.title)
                &&& line_clean(s.description)
                &&& forall|j: int|
                    0 <= j < s.notes.len() ==> line_clean(#[trigger] s.notes[j].content)
            },
    ensures
        lines_clean(spec_serialize_lines(sections)),
    decreases sections.len(),
{
    marker_facts();
    if sections.len() == 0 {
    } else {
        let s = sections.last();
        assert(line_clean(s.title) && line_clean(s.description));
        let sec_lines = spec_section_lines(s);
        assert(lines_clean(sec_lines)) by {
            assert(line_clean("# "@));
            lemma_line_clean_concat("# "@, s.title);
            assert forall|i: int| 0 <= i < sec_lines.len() implies line_clean(
                #[trigger] sec_lines[i],
            ) by {
                let nls = Seq::new(s.notes.len(), |k: int| spec_note_line(s.notes[k]));
                if i > 0 && (s.description.len() == 0 || i > 1) {
                    let k = if s.description.len() > 0 {
                        i - 2
                    } else {
                        i - 1
                    };
                    assert(sec_lines[i] == nls[k]);
                    assert(line_clean(s.notes[k].content));
                    assert(line_clean("- [x] "@));
                    assert(line_clean("- [ ] "@));
                    assert(line_clean("- [-] "@));
                    lemma_line_clean_concat("- [x] "@, s.notes[k].content);
                    lemma_line_clean_concat("- [ ] "@, s.notes[k].content);
                    lemma_line_clean_concat("- [-] "@, s.notes[k].content);
                }
            }
        }
        if sections.len() == 1 {
            assert(spec_serialize_lines(sections) == sec_lines);
        } else {
            let dl = sections.drop_last();
            lemma_ser_lines_clean(dl);
            let prefix = spec_serialize_lines(dl);
            let all = prefix + seq![Seq::<char>::empty()] + sec_lines;
            assert forall|i: int| 0 <= i < all.len() implies line_clean(#[trigger] all[i]) by {
                if i < prefix.len() {
                    assert(all[i] == prefix[i]);
                } else if i == prefix.len() {
                    assert(all[i] =~= Seq::<char>::empty());
                } else {
                    assert(all[i] == sec_lines[i - prefix.len() - 1]);
                }
            }
        }
    }
}

/// The text-level round trip: splitting the serialized text of a
/// well-formed, newline-free, non-empty document into lines and parsing
/// them yields the document back, exactly.
pub proof fn lemma_text_roundtrip(d: FileListV)
    requires
        wf_doc(d),
        doc_clean(d),
        d.sections.len() > 0,
    ensures
        spec_lines_of(spec_serialize(d)) == spec_serialize_lines(d.sections),
        spec_parse(spec_lines_of(spec_serialize(d))) == d,
{
    lemma_ser_lines_clean(d.sections);
    lemma_lines_of_join(spec_serialize_lines(d.sections));
    lemma_parse_serialize_roundtrip(d);
}

/// The text-level idempotence law: serializing, parsing the text's lines,
/// and serializing again reproduces the text, byte for byte.
pub proof fn lemma_serialize_text_idempotent(d: FileListV)
    requires
        wf_doc(d),
        doc_clean(d),
        d.sections.len() > 0,
    ensures
        spec_serialize(spec_parse(spec_lines_of(spec_serialize(d)))) == spec_serialize(d),
{
    lemma_text_roundtrip(d);
}

} // verus!
