//! The configuration document: an INI-style text parsed into named
//! profiles, each a flat table of string fields.
//!
//! The grammar is the subset the launcher needs. The document is trimmed
//! of surrounding blanks and read line by line; each line is trimmed too.
//! A line `[name]` opens the profile section `name`; a line `key = value`
//! (split at the first `=`, both sides trimmed) adds a field to the open
//! section, or a top-level string entry when no section is open yet; blank
//! lines are skipped; any other line is a parse fault. A later section or
//! field with an already-used name supersedes the earlier one.
use vstd::prelude::*;

use crate::table::Pair;
use crate::table::keys_unique;
use crate::table::pairs_model;
use crate::table::table_set;
use crate::text::first_index;
use crate::text::lemma_first_index;
use crate::text::split_into_lines;
use crate::text::split_lines;
use crate::text::trim_str;
use crate::text::trimmed;

verus! {

/// A top-level entry of the document: a plain string that stood before
/// any section header, or a named profile section.
pub enum TopEntry {
    Leaf(String),
    Section(Vec<Pair>),
}

/// One named top-level entry.
pub struct TopItem {
    pub name: String,
    pub entry: TopEntry,
}

/// What a top-level entry stands for mathematically.
pub enum EntryModel {
    Leaf(Seq<char>),
    Section(Map<Seq<char>, Seq<char>>),
}

pub open spec fn entry_model(e: TopEntry) -> EntryModel {
    match e {
        TopEntry::Leaf(v) => EntryModel::Leaf(v@),
        TopEntry::Section(t) => EntryModel::Section(pairs_model(t@)),
    }
}

/// The mapping a list of top-level items stands for; a later item with
/// the same name supersedes an earlier one.
pub open spec fn doc_model(items: Seq<TopItem>) -> Map<Seq<char>, EntryModel>
    decreases items.len(),
{
    if items.len() == 0 {
        Map::empty()
    } else {
        doc_model(items.drop_last()).insert(
            items.last().name@,
            entry_model(items.last().entry),
        )
    }
}

/// No two top-level items share a name.
pub open spec fn names_unique(items: Seq<TopItem>) -> bool {
    forall|i: int, j: int| 0 <= i < j < items.len() ==> items[i].name@ != items[j].name@
}

/// Every section's field keys are unique.
pub open spec fn sections_wf(items: Seq<TopItem>) -> bool {
    forall|i: int|
        0 <= i < items.len() && items[i].entry is Section ==> keys_unique(
            (#[trigger] items[i].entry)->Section_0@,
        )
}

/// A name is in the mapping exactly when some item carries it.
pub proof fn lemma_doc_model_contains(items: Seq<TopItem>, n: Seq<char>)
    ensures
        doc_model(items).contains_key(n) <==> exists|i: int|
            0 <= i < items.len() && items[i].name@ == n,
    decreases items.len(),
{
    if items.len() > 0 {
        let d = items.drop_last();
        lemma_doc_model_contains(d, n);
        if items.last().name@ == n {
            assert(items[items.len() - 1].name@ == n);
        } else {
            if doc_model(items).contains_key(n) {
                let i = choose|i: int| 0 <= i < d.len() && d[i].name@ == n;
                assert(items[i].name@ == n);
            }
            if exists|i: int| 0 <= i < items.len() && items[i].name@ == n {
                let i = choose|i: int| 0 <= i < items.len() && items[i].name@ == n;
                assert(d[i].name@ == n);
            }
        }
    }
}

/// With unique names, the mapping sends an item's name to its entry.
pub proof fn lemma_doc_model_index(items: Seq<TopItem>, i: int)
    requires
        names_unique(items),
        0 <= i < items.len(),
    ensures
        doc_model(items).contains_key(items[i].name@),
        doc_model(items)[items[i].name@] == entry_model(items[i].entry),
    decreases items.len(),
{
    let d = items.drop_last();
    if i == items.len() - 1 {
    } else {
        assert(items[i].name@ != items.last().name@);
        lemma_doc_model_index(d, i);
        assert(d[i] == items[i]);
    }
}

/// Replacing the item that holds a name updates the mapping at that name.
pub proof fn lemma_doc_model_update(items: Seq<TopItem>, i: int, it: TopItem)
    requires
        names_unique(items),
        0 <= i < items.len(),
        it.name@ == items[i].name@,
    ensures
        doc_model(items.update(i, it)) == doc_model(items).insert(
            it.name@,
            entry_model(it.entry),
        ),
        names_unique(items.update(i, it)),
    decreases items.len(),
{
    let d = items.drop_last();
    let u = items.update(i, it);
    assert(forall|j: int| 0 <= j < items.len() ==> u[j].name@ == items[j].name@);
    if i == items.len() - 1 {
        assert(u.drop_last() =~= d);
        assert(u.last() == it);
        assert(doc_model(d).insert(it.name@, entry_model(items.last().entry)).insert(
            it.name@,
            entry_model(it.entry),
        ) =~= doc_model(d).insert(it.name@, entry_model(it.entry)));
    } else {
        assert(items[i].name@ != items.last().name@);
        lemma_doc_model_update(d, i, it);
        assert(u.drop_last() =~= d.update(i, it));
        assert(u.last() == items.last());
        assert(doc_model(d).insert(it.name@, entry_model(it.entry)).insert(
            items.last().name@,
            entry_model(items.last().entry),
        ) =~= doc_model(d).insert(items.last().name@, entry_model(items.last().entry)).insert(
            it.name@,
            entry_model(it.entry),
        ));
    }
}

/// Appending a fresh item updates the mapping at its name.
pub proof fn lemma_doc_model_push(items: Seq<TopItem>, it: TopItem)
    ensures
        doc_model(items.push(it)) == doc_model(items).insert(it.name@, entry_model(it.entry)),
{
    assert(items.push(it).drop_last() =~= items);
    assert(items.push(it).last() == it);
}

/// Finds the item that carries a name, if any.
pub fn find_item(items: &Vec<TopItem>, name: &String) -> (r: Option<usize>)
    ensures
        match r {
            Some(i) => i < items@.len() && items@[i as int].name@ == name@,
            None => forall|i: int| 0 <= i < items@.len() ==> items@[i].name@ != name@,
        },
{
    let mut i: usize = 0;
    while i < items.len()
        invariant
            i <= items@.len(),
            forall|j: int| 0 <= j < i ==> items@[j].name@ != name@,
        decreases items@.len() - i,
    {
        if items[i].name == *name {
            return Some(i);
        }
        i = i + 1;
    }
    None
}

/// Binds a top-level name to an entry: the item already carrying the name
/// is replaced, or a fresh item is appended.
fn doc_set(items: &mut Vec<TopItem>, name: String, entry: TopEntry)
    requires
        names_unique(old(items)@),
        sections_wf(old(items)@),
        entry is Section ==> keys_unique(entry->Section_0@),
    ensures
        names_unique(final(items)@),
        sections_wf(final(items)@),
        doc_model(final(items)@) == doc_model(old(items)@).insert(name@, entry_model(entry)),
{
    let ghost n = name@;
    match find_item(items, &name) {
        Some(i) => {
            let it = TopItem { name, entry };
            proof {
                lemma_doc_model_update(items@, i as int, it);
            }
            items[i] = it;
        },
        None => {
            let ghost s0 = items@;
            items.push(TopItem { name, entry });
            proof {
                lemma_doc_model_push(s0, items@.last());
                assert(items@ =~= s0.push(items@.last()));
                assert(forall|j: int| 0 <= j < s0.len() ==> #[trigger] items@[j].name@ != n);
            }
        },
    }
}

/// Malformed configuration text: a non-blank line that is neither a
/// section header nor a `key = value` pair.
#[derive(Clone, Copy, Debug, PartialEq, Eq)]
pub struct ParseError;

/// The section table a document maps a name to, or the empty table when
/// the name is absent or names a plain string entry.
pub open spec fn section_of(m: Map<Seq<char>, EntryModel>, name: Seq<char>) -> Map<
    Seq<char>,
    Seq<char>,
> {
    if m.contains_key(name) && m[name] is Section {
        m[name]->Section_0
    } else {
        Map::empty()
    }
}

/// How one raw line transforms the document being built. The state is the
/// document so far and the name of the open section, if any; a malformed
/// line yields `None`.
pub open spec fn line_step(
    doc: Map<Seq<char>, EntryModel>,
    cur: Option<Seq<char>>,
    raw: Seq<char>,
) -> Option<(Map<Seq<char>, EntryModel>, Option<Seq<char>>)> {
    let t = trimmed(raw);
    if t.len() == 0 {
        Some((doc, cur))
    } else if t.len() >= 2 && t[0] == '[' && t.last() == ']' {
        let name = t.subrange(1, t.len() - 1);
        Some((doc.insert(name, EntryModel::Section(Map::empty())), Some(name)))
    } else if first_index(t, '=') >= 0 {
        let p = first_index(t, '=');
        let key = trimmed(t.subrange(0, p));
        let value = trimmed(t.subrange(p + 1, t.len() as int));
        match cur {
            Option::None => Some((doc.insert(key, EntryModel::Leaf(value)), cur)),
            Option::Some(name) => Some(
                (
                    doc.insert(
                        name,
                        EntryModel::Section(section_of(doc, name).insert(key, value)),
                    ),
                    cur,
                ),
            ),
        }
    } else {
        Option::<(Map<Seq<char>, EntryModel>, Option<Seq<char>>)>::None
    }
}

/// Folds `line_step` over a sequence of raw lines.
pub open spec fn run_lines(
    doc: Map<Seq<char>, EntryModel>,
    cur: Option<Seq<char>>,
    lines: Seq<Seq<char>>,
) -> Option<(Map<Seq<char>, EntryModel>, Option<Seq<char>>)>
    decreases lines.len(),
{
    if lines.len() == 0 {
        Some((doc, cur))
    } else {
        match line_step(doc, cur, lines[0]) {
            Option::None => Option::None,
            Option::Some(st) => run_lines(st.0, st.1, lines.drop_first()),
        }
    }
}

/// What parsing a whole document text yields: the final mapping, or
/// `None` when some line is malformed.
pub open spec fn parse_model(text: Seq<char>) -> Option<Map<Seq<char>, EntryModel>> {
    match run_lines(Map::empty(), Option::None, split_lines(trimmed(text))) {
        Option::None => Option::None,
        Option::Some(st) => Some(st.0),
    }
}

/// The document the parser's loop stands for: the completed items plus
/// the still-open section, if any.
pub open spec fn working_doc(
    items: Seq<TopItem>,
    os: Option<(String, Vec<Pair>)>,
) -> Map<Seq<char>, EntryModel> {
    match os {
        Option::None => doc_model(items),
        Option::Some(np) => doc_model(items).insert(
            np.0@,
            EntryModel::Section(pairs_model(np.1@)),
        ),
    }
}

/// The name of the parser's open section, if any.
pub open spec fn working_cur(os: Option<(String, Vec<Pair>)>) -> Option<Seq<char>> {
    match os {
        Option::None => Option::None,
        Option::Some(np) => Some(np.0@),
    }
}

/// The open section's keys are unique.
pub open spec fn working_wf(os: Option<(String, Vec<Pair>)>) -> bool {
    match os {
        Option::None => true,
        Option::Some(np) => keys_unique(np.1@),
    }
}

/// A parsed configuration document.
pub struct ConfigDocument {
    pub items: Vec<TopItem>,
}

impl View for ConfigDocument {
    type V = Map<Seq<char>, EntryModel>;

    open spec fn view(&self) -> Map<Seq<char>, EntryModel> {
        doc_model(self.items@)
    }
}

impl ConfigDocument {
    /// Names and section keys are unique, so lookups are unambiguous.
    pub open spec fn wf(&self) -> bool {
        names_unique(self.items@) && sections_wf(self.items@)
    }

    /// Parses configuration text into a document, as `parse_model` says.
    pub fn parse(text: &str) -> (r: Result<ConfigDocument, ParseError>)
        ensures
            match r {
                Ok(doc) => doc.wf() && parse_model(text@) == Some(doc@),
                Err(_) => parse_model(text@) is None,
            },
    {
        let body = trim_str(text);
        let lines = split_into_lines(body);
        let ghost all = lines.deep_view();
        let mut items: Vec<TopItem> = Vec::new();
        let mut open_section: Option<(String, Vec<Pair>)> = None;
        let mut li: usize = 0;
        proof {
            assert(all.subrange(0, all.len() as int) =~= all);
            assert(doc_model(items@) =~= Map::<Seq<char>, EntryModel>::empty());
        }
        while li < lines.len()
            invariant
                li <= lines.len(),
                all == lines.deep_view(),
                all == split_lines(trimmed(text@)),
                names_unique(items@),
                sections_wf(items@),
                working_wf(open_section),
                run_lines(Map::empty(), Option::None, all) == run_lines(
                    working_doc(items@, open_section),
                    working_cur(open_section),
                    all.subrange(li as int, all.len() as int),
                ),
            decreases lines.len() - li,
        {
            let ghost raw = all[li as int];
            let ghost doc0 = working_doc(items@, open_section);
            let ghost cur0 = working_cur(open_section);
            proof {
                assert(all.subrange(li as int, all.len() as int).drop_first() =~= all.subrange(
                    li + 1,
                    all.len() as int,
                ));
                assert(lines.deep_view()[li as int] == lines@[li as int]@);
            }
            let line = &lines[li];
            let t = trim_str(line.as_str());
            let n = t.unicode_len();
            if n == 0 {
                proof {
                    assert(trimmed(raw).len() == 0);
                    assert(line_step(doc0, cur0, raw) == Some((doc0, cur0)));
                }
            } else if n >= 2 && t.get_char(0) == '[' && t.get_char(n - 1) == ']' {
                let name = t.substring_char(1, n - 1).to_owned();
                proof {
                    assert(name@ =~= trimmed(raw).subrange(1, trimmed(raw).len() - 1));
                }
                // a header closes the open section and opens a fresh one
                match open_section {
                    Option::None => {},
                    Option::Some((sec_name, sec_pairs)) => {
                        doc_set(&mut items, sec_name, TopEntry::Section(sec_pairs));
                    },
                }
                proof {
                    assert(doc_model(items@) == doc0);
                }
                open_section = Some((name, Vec::new()));
                proof {
                    assert(pairs_model(Seq::<Pair>::empty()) =~= Map::<Seq<char>, Seq<char>>::empty());
                    assert(working_doc(items@, open_section) == doc0.insert(
                        trimmed(raw).subrange(1, trimmed(raw).len() - 1),
                        EntryModel::Section(Map::empty()),
                    ));
                    assert(line_step(doc0, cur0, raw) == Some(
                        (working_doc(items@, open_section), working_cur(open_section)),
                    ));
                }
            } else {
                let eq = match crate::text::find_char(t, '=') {
                    Some(p) => p,
                    None => {
                        proof {
                            lemma_first_index(t@, '=');
                        }
                        return Err(ParseError);
                    },
                };
                proof {
                    lemma_first_index(t@, '=');
                }
                let key = trim_str(t.substring_char(0, eq)).to_owned();
                let value = trim_str(t.substring_char(eq + 1, n)).to_owned();
                proof {
                    assert(first_index(t@, '=') == eq as int);
                    assert(key@ == trimmed(trimmed(raw).subrange(0, eq as int)));
                    assert(value@ == trimmed(
                        trimmed(raw).subrange(eq + 1, trimmed(raw).len() as int),
                    ));
                }
                let ghost gkey = key@;
                let ghost gvalue = value@;
                match open_section {
                    Option::None => {
                        doc_set(&mut items, key, TopEntry::Leaf(value));
                        open_section = None;
                        proof {
                            assert(working_doc(items@, open_section) == doc0.insert(
                                gkey,
                                EntryModel::Leaf(gvalue),
                            ));
                            assert(line_step(doc0, cur0, raw) == Some(
                                (working_doc(items@, open_section), working_cur(open_section)),
                            ));
                        }
                    },
                    Option::Some((sec_name, mut sec_pairs)) => {
                        let ghost gsn = sec_name@;
                        let ghost gsp = sec_pairs@;
                        table_set(&mut sec_pairs, key, value);
                        open_section = Some((sec_name, sec_pairs));
                        proof {
                            assert(section_of(doc0, gsn) =~= pairs_model(gsp));
                            assert(doc0.insert(
                                gsn,
                                EntryModel::Section(pairs_model(gsp).insert(gkey, gvalue)),
                            ) =~= doc_model(items@).insert(
                                gsn,
                                EntryModel::Section(pairs_model(gsp).insert(gkey, gvalue)),
                            ));
                            assert(working_doc(items@, open_section) == doc0.insert(
                                gsn,
                                EntryModel::Section(section_of(doc0, gsn).insert(gkey, gvalue)),
                            ));
                            assert(line_step(doc0, cur0, raw) == Some(
                                (working_doc(items@, open_section), working_cur(open_section)),
                            ));
                        }
                    },
                }
            }
            proof {
                let suffix = all.subrange(li as int, all.len() as int);
                assert(run_lines(doc0, cur0, suffix) == run_lines(
                    working_doc(items@, open_section),
                    working_cur(open_section),
                    suffix.drop_first(),
                ));
            }
            li = li + 1;
        }
        proof {
            assert(all.subrange(li as int, all.len() as int) =~= Seq::<Seq<char>>::empty());
        }
        match open_section {
            Option::None => {},
            Option::Some((sec_name, sec_pairs)) => {
                doc_set(&mut items, sec_name, TopEntry::Section(sec_pairs));
            },
        }
        Ok(ConfigDocument { items })
    }
}

} // verus!
