//! Searching the tags of several files for the kinds that a query names.
//!
//! A [`Search`] holds the files and the kinds asked for, each in the order
//! given, and for each file what came of it. Reading the files is the
//! caller's part: [`Search::execute`] takes the tags of each file, or the
//! word that it could not be read, and keeps of each file the payloads of
//! the kinds asked for.
//!
//! [`table_text`] writes what was found as comma-separated values, given the
//! text of each cell.
use crate::enums::DataTagKind;
use crate::tag::{text_view, Data, DataView, Tag, TagView};
use std::path::PathBuf;
use vstd::prelude::*;
use vstd::string::StringExecFns;

verus! {

/// `std::path::PathBuf`. Trusted: the type is opaque; the library carries
/// paths and never looks into them.
#[verifier::external_type_specification]
#[verifier::external_body]
pub struct ExPathBuf(PathBuf);

/// The views of a sequence of payloads.
pub open spec fn data_views(data: Seq<Data>) -> Seq<DataView> {
    data.map_values(|d: Data| d@)
}

/// The payloads of the data tags of kind `kind`, in the order of the tags.
pub open spec fn matches_of(tags: Seq<TagView>, kind: DataTagKind) -> Seq<DataView>
    decreases tags.len(),
{
    if tags.len() == 0 {
        Seq::empty()
    } else {
        match tags.last() {
            TagView::Data { kind: k, data } if k == kind => matches_of(tags.drop_last(), kind).push(
                data,
            ),
            _ => matches_of(tags.drop_last(), kind),
        }
    }
}

/// What a search for the kinds of `query` finds among `tags`: for each kind
/// of the query that occurs, the payloads of its tags in the order of the
/// tags. A kind that does not occur has no entry.
pub open spec fn found(tags: Seq<TagView>, query: Seq<DataTagKind>) -> Map<
    DataTagKind,
    Seq<DataView>,
> {
    Map::new(
        |kind: DataTagKind| query.contains(kind) && matches_of(tags, kind).len() > 0,
        |kind: DataTagKind| matches_of(tags, kind),
    )
}

/// The payloads found in one file, by kind.
#[derive(Debug, PartialEq)]
pub struct ResultSet {
    entries: Vec<(DataTagKind, Vec<Data>)>,
}

/// Whether `i` is the place of the entry for `kind`.
spec fn entry_at(entries: Seq<(DataTagKind, Vec<Data>)>, kind: DataTagKind, i: int)
    -> bool {
    0 <= i < entries.len() && entries[i].0 == kind
}

/// Whether `kind` has an entry.
spec fn has_entry(entries: Seq<(DataTagKind, Vec<Data>)>, kind: DataTagKind) -> bool {
    exists|i: int| entry_at(entries, kind, i)
}

/// The place of an entry for `kind`.
spec fn place_of(entries: Seq<(DataTagKind, Vec<Data>)>, kind: DataTagKind) -> int {
    choose|i: int| entry_at(entries, kind, i)
}

impl View for ResultSet {
    type V = Map<DataTagKind, Seq<DataView>>;

    closed spec fn view(&self) -> Map<DataTagKind, Seq<DataView>> {
        Map::new(
            |kind: DataTagKind| has_entry(self.entries@, kind),
            |kind: DataTagKind| data_views(self.entries@[place_of(self.entries@, kind)].1@),
        )
    }
}

impl ResultSet {
    /// The invariant of the representation: no kind has two entries, and no
    /// entry is empty.
    pub closed spec fn wf(&self) -> bool {
        &&& forall|i: int, j: int|
            0 <= i < j < self.entries@.len() ==> self.entries@[i].0 != self.entries@[j].0
        &&& forall|i: int|
            0 <= i < self.entries@.len() ==> (#[trigger] self.entries@[i]).1@.len() > 0
    }

    /// Makes a result set with no entry.
    pub fn new() -> (r: Self)
        ensures
            r.wf(),
            r@ == Map::<DataTagKind, Seq<DataView>>::empty(),
    {
        let r = ResultSet { entries: Vec::new() };
        assert(r@ =~= Map::<DataTagKind, Seq<DataView>>::empty());
        r
    }

    /// The place of the entry for `kind`, if there is one.
    fn find(&self, kind: DataTagKind) -> (r: Option<usize>)
        requires
            self.wf(),
        ensures
            r matches Some(i) ==> entry_at(self.entries@, kind, i as int),
            r is None ==> forall|i: int| !entry_at(self.entries@, kind, i),
            r is Some <==> self@.contains_key(kind),
            r matches Some(i) ==> self@[kind] == data_views(self.entries@[i as int].1@),
    {
        let mut i: usize = 0;
        while i < self.entries.len()
            invariant
                self.wf(),
                i <= self.entries@.len(),
                forall|j: int| 0 <= j < i ==> self.entries@[j].0 != kind,
            decreases self.entries@.len() - i,
        {
            if self.entries[i].0 == kind {
                proof {
                    assert(entry_at(self.entries@, kind, i as int));
                    let c = place_of(self.entries@, kind);
                    assert(entry_at(self.entries@, kind, c));
                    assert(c == i);
                }
                return Some(i);
            }
            i = i + 1;
        }
        None
    }

    /// Adds a payload to those found of `kind`, behind the others.
    pub fn add(&mut self, kind: DataTagKind, data: Data)
        requires
            old(self).wf(),
        ensures
            final(self).wf(),
            final(self)@ == old(self)@.insert(
                kind,
                if old(self)@.contains_key(kind) {
                    old(self)@[kind].push(data@)
                } else {
                    seq![data@]
                },
            ),
    {
        let ghost before = self.entries@;
        match self.find(kind) {
            Some(i) => {
                let mut list: Vec<Data> = Vec::new();
                let mut entry = (kind, list);
                core::mem::swap(&mut self.entries[i], &mut entry);
                list = entry.1;
                list.push(data);
                self.entries[i] = (kind, list);
                proof {
                    assert(data_views(self.entries@[i as int].1@) =~= old(self)@[kind].push(data@));
                    lemma_view_after_change(before, self.entries@, kind, i as int);
                    assert(self@ =~= old(self)@.insert(kind, old(self)@[kind].push(data@)));
                }
            },
            None => {
                let mut list: Vec<Data> = Vec::new();
                list.push(data);
                self.entries.push((kind, list));
                proof {
                    let i = before.len() as int;
                    assert(entry_at(self.entries@, kind, i));
                    assert(data_views(self.entries@[i].1@) =~= seq![data@]);
                    lemma_view_after_change(before, self.entries@, kind, i);
                    assert(self@ =~= old(self)@.insert(kind, seq![data@]));
                }
            },
        }
    }

    /// The payloads found of `kind`, if any were.
    pub fn get(&self, kind: DataTagKind) -> (r: Option<&Vec<Data>>)
        requires
            self.wf(),
        ensures
            r is Some <==> self@.contains_key(kind),
            r matches Some(list) ==> data_views(list@) == self@[kind] && list@.len() > 0,
    {
        match self.find(kind) {
            Some(i) => Some(&self.entries[i].1),
            None => None,
        }
    }

    /// The number of kinds of which something was found.
    pub fn len(&self) -> (n: usize)
        requires
            self.wf(),
        ensures
            n == self@.dom().len(),
            self@.dom().finite(),
    {
        proof {
            lemma_dom_len(self.entries@);
            assert(self@.dom() =~= keys_of(self.entries@));
        }
        self.entries.len()
    }
}

/// The kinds that have an entry.
spec fn keys_of(entries: Seq<(DataTagKind, Vec<Data>)>) -> Set<DataTagKind> {
    Set::new(|kind: DataTagKind| has_entry(entries, kind))
}

/// Entries with distinct kinds have as many kinds as there are entries.
proof fn lemma_dom_len(entries: Seq<(DataTagKind, Vec<Data>)>)
    requires
        forall|i: int, j: int| 0 <= i < j < entries.len() ==> entries[i].0 != entries[j].0,
    ensures
        keys_of(entries).finite(),
        keys_of(entries).len() == entries.len(),
    decreases entries.len(),
{
    if entries.len() == 0 {
        assert(keys_of(entries) =~= Set::<DataTagKind>::empty());
    } else {
        let front = entries.drop_last();
        lemma_dom_len(front);
        let kind = entries.last().0;
        assert(entry_at(entries, kind, entries.len() - 1));
        assert forall|k: DataTagKind| keys_of(entries).contains(k) <==> keys_of(front).insert(
            kind,
        ).contains(k) by {
            if keys_of(entries).contains(k) {
                let i = place_of(entries, k);
                if i < front.len() {
                    assert(entry_at(front, k, i));
                }
            }
            if keys_of(front).contains(k) {
                let i = place_of(front, k);
                assert(entry_at(entries, k, i));
            }
        }
        assert(keys_of(entries) =~= keys_of(front).insert(kind));
        if keys_of(front).contains(kind) {
            let i = place_of(front, kind);
            assert(entries[i].0 == entries[entries.len() - 1].0);
        }
    }
}

/// Where entries change at one place only, and keep their kinds, the entry
/// of every other kind stays what it was.
proof fn lemma_view_after_change(
    before: Seq<(DataTagKind, Vec<Data>)>,
    after: Seq<(DataTagKind, Vec<Data>)>,
    kind: DataTagKind,
    at: int,
)
    requires
        forall|i: int, j: int| 0 <= i < j < before.len() ==> before[i].0 != before[j].0,
        0 <= at < after.len(),
        after[at].0 == kind,
        after.len() == before.len() || (after.len() == before.len() + 1 && at == before.len()),
        forall|i: int| 0 <= i < before.len() && i != at ==> after[i] == before[i],
        at < before.len() ==> before[at].0 == kind,
        at == before.len() ==> !has_entry(before, kind),
    ensures
        forall|i: int, j: int| 0 <= i < j < after.len() ==> after[i].0 != after[j].0,
        forall|k: DataTagKind| #[trigger]
            has_entry(after, k) <==> k == kind || has_entry(before, k),
        place_of(after, kind) == at,
        forall|k: DataTagKind|
            k != kind && has_entry(before, k) ==> after[#[trigger] place_of(after, k)]
                == before[place_of(before, k)],
{
    assert forall|i: int, j: int| 0 <= i < j < after.len() implies after[i].0 != after[j].0 by {
        if j == at && at == before.len() {
            assert(!entry_at(before, kind, i));
        }
    }
    assert(entry_at(after, kind, at));
    assert forall|k: DataTagKind| #[trigger]
        has_entry(after, k) <==> k == kind || has_entry(before, k) by {
        if has_entry(after, k) {
            let i = place_of(after, k);
            if k != kind {
                assert(entry_at(before, k, i));
            }
        }
        if has_entry(before, k) {
            let i = place_of(before, k);
            assert(entry_at(after, k, i));
        }
    }
    assert forall|k: DataTagKind| k != kind && has_entry(before, k) implies after[
    #[trigger] place_of(after, k)] == before[place_of(before, k)] by {
        let b = place_of(before, k);
        assert(entry_at(after, k, b));
        let a = place_of(after, k);
        assert(entry_at(before, k, a));
    }
}

/// Whether `kind` is among the kinds of `query`.
fn asks_for(query: &Vec<DataTagKind>, kind: DataTagKind) -> (r: bool)
    ensures
        r == query@.contains(kind),
{
    let mut i: usize = 0;
    while i < query.len()
        invariant
            i <= query@.len(),
            forall|j: int| 0 <= j < i ==> query@[j] != kind,
        decreases query@.len() - i,
    {
        if query[i] == kind {
            return true;
        }
        i = i + 1;
    }
    false
}

/// What one more tag adds to what a search has found.
proof fn lemma_found_step(tags: Seq<TagView>, query: Seq<DataTagKind>)
    requires
        tags.len() > 0,
    ensures
        found(tags, query) == (match tags.last() {
            TagView::Data { kind, data } if query.contains(kind) => found(
                tags.drop_last(),
                query,
            ).insert(kind, matches_of(tags.drop_last(), kind).push(data)),
            _ => found(tags.drop_last(), query),
        }),
{
    let front = tags.drop_last();
    match tags.last() {
        TagView::Data { kind, data } if query.contains(kind) => {
            assert(found(tags, query) =~= found(front, query).insert(
                kind,
                matches_of(front, kind).push(data),
            ));
        },
        _ => {
            assert(found(tags, query) =~= found(front, query));
        },
    }
}

/// Collects from the tags of a file the payloads of the kinds asked for.
///
/// Each kind of the query that occurs among the data tags gets the payloads
/// of its tags, in the order of the tags. Structural tags are passed over.
pub fn search_tags(tags: Vec<Tag>, query: &Vec<DataTagKind>) -> (r: ResultSet)
    ensures
        r.wf(),
        r@ == found(tags@.map_values(|t: Tag| t@), query@),
{
    let mut results = ResultSet::new();
    let ghost all = tags@.map_values(|t: Tag| t@);
    proof {
        assert(found(all.take(0), query@) =~= Map::<DataTagKind, Seq<DataView>>::empty());
    }
    for tag in it: tags
        invariant
            all == tags@.map_values(|t: Tag| t@),
            it.seq() == tags@,
            results.wf(),
            results@ == found(all.take(it.index() as int), query@),
    {
        let ghost k = it.index() as int;
        proof {
            assert(all.take(k + 1).drop_last() =~= all.take(k));
            assert(all.take(k + 1).last() == tag@);
            lemma_found_step(all.take(k + 1), query@);
        }
        match tag {
            Tag::Data { kind, data } => {
                if asks_for(query, kind) {
                    results.add(kind, data);
                    proof {
                        let before = found(all.take(k), query@);
                        if !before.contains_key(kind) {
                            assert(matches_of(all.take(k), kind).push(data@) =~= seq![data@]);
                        }
                    }
                }
            },
            _ => {},
        }
    }
    proof {
        assert(all.take(tags@.len() as int) =~= all);
    }
    results
}

/// What has come of the search of one file.
#[derive(Debug, PartialEq)]
pub enum SearchState {
    /// The file has not been searched yet.
    Pending,
    /// The file was read, and this was found in it.
    Complete(ResultSet),
    /// The file could not be read.
    Failed,
}

/// What a [`SearchState`] holds, as mathematical values.
pub enum StateView {
    Pending,
    Complete(Map<DataTagKind, Seq<DataView>>),
    Failed,
}

impl View for SearchState {
    type V = StateView;

    open spec fn view(&self) -> StateView {
        match self {
            SearchState::Pending => StateView::Pending,
            SearchState::Complete(results) => StateView::Complete(results@),
            SearchState::Failed => StateView::Failed,
        }
    }
}

impl SearchState {
    /// Whether what was found, if anything, is well formed.
    pub open spec fn wf(&self) -> bool {
        self matches SearchState::Complete(results) ==> results.wf()
    }
}

/// A search as a mathematical value: the files and the kinds asked for, each
/// in the order given, and the state of each file.
pub struct SearchView {
    pub files: Seq<PathBuf>,
    pub codes: Seq<DataTagKind>,
    pub states: Seq<StateView>,
}

/// The state of a file after it was read, or was found unreadable.
pub open spec fn state_after(read: Option<Vec<Tag>>, codes: Seq<DataTagKind>) -> StateView {
    match read {
        Some(tags) => StateView::Complete(found(tags@.map_values(|t: Tag| t@), codes)),
        None => StateView::Failed,
    }
}

/// What the table of a search shows of one kind in one file: the first
/// payload found, or nothing where none was.
pub open spec fn first_found(results: Map<DataTagKind, Seq<DataView>>, kind: DataTagKind)
    -> Option<DataView> {
    if results.contains_key(kind) && results[kind].len() > 0 {
        Some(results[kind][0])
    } else {
        None
    }
}

/// The view of a cell of the table.
pub open spec fn cell_view(cell: Option<&Data>) -> Option<DataView> {
    match cell {
        Some(data) => Some(data@),
        None => None,
    }
}

/// A search of several files for tags of several kinds.
#[derive(Debug)]
pub struct Search {
    files: Vec<PathBuf>,
    codes: Vec<DataTagKind>,
    state: Vec<SearchState>,
}

impl View for Search {
    type V = SearchView;

    closed spec fn view(&self) -> SearchView {
        SearchView {
            files: self.files@,
            codes: self.codes@,
            states: self.state@.map_values(|s: SearchState| s@),
        }
    }
}

impl Search {
    /// The invariant of the representation: a state for each file, each well
    /// formed.
    pub closed spec fn wf(&self) -> bool {
        &&& self.state@.len() == self.files@.len()
        &&& forall|i: int| 0 <= i < self.state@.len() ==> (#[trigger] self.state@[i]).wf()
    }

    /// Makes a search for the kinds `codes` in `files`, with every file
    /// pending.
    pub fn new(codes: Vec<DataTagKind>, files: Vec<PathBuf>) -> (r: Self)
        ensures
            r.wf(),
            r@.files == files@,
            r@.codes == codes@,
            r@.states.len() == files@.len(),
            forall|i: int| 0 <= i < files@.len() ==> r@.states[i] == StateView::Pending,
    {
        let mut state: Vec<SearchState> = Vec::new();
        let mut i: usize = 0;
        while i < files.len()
            invariant
                i <= files@.len(),
                state@.len() == i,
                forall|j: int| 0 <= j < i ==> state@[j] == SearchState::Pending,
            decreases files@.len() - i,
        {
            state.push(SearchState::Pending);
            i = i + 1;
        }
        Search { files, codes, state }
    }

    /// The files, in the order given.
    pub fn files(&self) -> (r: &Vec<PathBuf>)
        ensures
            r@ == self@.files,
    {
        &self.files
    }

    /// The kinds asked for, in the order given.
    pub fn codes(&self) -> (r: &Vec<DataTagKind>)
        ensures
            r@ == self@.codes,
    {
        &self.codes
    }

    /// The state of the file at place `file`.
    pub fn state(&self, file: usize) -> (r: &SearchState)
        requires
            self.wf(),
            file < self@.files.len(),
        ensures
            r@ == self@.states[file as int],
            r.wf(),
    {
        &self.state[file]
    }

    /// Takes in what was read of the files: for each file, in the order of
    /// the files, its tags, or nothing where it could not be read.
    ///
    /// A file that was read is complete, with what [`found`] says of its
    /// tags. A file that could not be read has failed, and the others are
    /// none the worse for it. Where `read` is shorter than the files, the
    /// files behind it stay as they are; what it has beyond them is dropped.
    pub fn execute(&mut self, read: Vec<Option<Vec<Tag>>>)
        requires
            old(self).wf(),
        ensures
            final(self).wf(),
            final(self)@.files == old(self)@.files,
            final(self)@.codes == old(self)@.codes,
            final(self)@.states.len() == old(self)@.states.len(),
            forall|i: int|
                0 <= i < final(self)@.states.len() ==> #[trigger] final(self)@.states[i] == (if i
                    < read@.len() {
                    state_after(read@[i], old(self)@.codes)
                } else {
                    old(self)@.states[i]
                }),
    {
        let ghost before = self.state@;
        let count = read.len();
        let mut at: usize = 0;
        for outcome in it: read
            invariant
                it.seq() == read@,
                at == it.index(),
                count == read@.len(),
                self.files == old(self).files,
                self.codes == old(self).codes,
                before == old(self).state@,
                self.wf(),
                self.state@.len() == before.len(),
                forall|i: int|
                    0 <= i < self.state@.len() ==> #[trigger] self.state@[i]@ == (if i
                        < it.index() {
                        state_after(read@[i], self.codes@)
                    } else {
                        before[i]@
                    }),
        {
            if at < self.state.len() {
                let next = match outcome {
                    Some(tags) => SearchState::Complete(search_tags(tags, &self.codes)),
                    None => SearchState::Failed,
                };
                self.state[at] = next;
            }
            assert(at < read@.len());
            at = at + 1;
        }
    }

    /// The row of the table for the file at place `file`: for each kind
    /// asked for, in the order given, the first payload found of it, or
    /// nothing where none was found. A file that is not complete has no row.
    pub fn row(&self, file: usize) -> (r: Option<Vec<Option<&Data>>>)
        requires
            self.wf(),
        ensures
            file < self@.files.len() && self@.states[file as int] is Complete <==> r is Some,
            r matches Some(cells) ==> cells@.len() == self@.codes.len() && forall|j: int|
                0 <= j < cells@.len() ==> cell_view(#[trigger] cells@[j]) == first_found(
                    self@.states[file as int]->Complete_0,
                    self@.codes[j],
                ),
    {
        if file >= self.state.len() {
            return None;
        }
        match &self.state[file] {
            SearchState::Complete(results) => {
                let mut cells: Vec<Option<&Data>> = Vec::new();
                let mut j: usize = 0;
                while j < self.codes.len()
                    invariant
                        results.wf(),
                        j <= self.codes@.len(),
                        cells@.len() == j,
                        forall|c: int|
                            0 <= c < j ==> cell_view(#[trigger] cells@[c]) == first_found(
                                results@,
                                self.codes@[c],
                            ),
                    decreases self.codes@.len() - j,
                {
                    let cell = match results.get(self.codes[j]) {
                        Some(list) => Some(&list[0]),
                        None => None,
                    };
                    cells.push(cell);
                    j = j + 1;
                }
                Some(cells)
            },
            _ => None,
        }
    }
}

/// The line that `csv` writes for a record of the given fields, with a comma
/// between fields and quotes where a field needs them, where it writes one.
pub uninterp spec fn csv_record(fields: Seq<Seq<char>>) -> Option<Seq<char>>;

/// Writes one record with `csv::Writer::write_record`, on a writer that
/// `csv::WriterBuilder` made with a comma as delimiter, and takes what was
/// written with `csv::Writer::into_inner`.
///
/// Trusted: what is written, and whether anything is, depends on the fields
/// alone.
#[verifier::external_body]
fn write_record(fields: &Vec<String>) -> (r: Option<String>)
    ensures
        text_view(r) == csv_record(fields@.map_values(|s: String| s@)),
{
    let mut writer = csv::WriterBuilder::new().delimiter(b',').from_writer(vec![]);
    match writer.write_record(fields) {
        Ok(()) => match writer.into_inner() {
            Ok(bytes) => String::from_utf8(bytes).ok(),
            Err(_) => None,
        },
        Err(_) => None,
    }
}

/// The text of a cell of the table: what was found, or the words for
/// nothing found.
pub open spec fn cell_text(cell: Option<String>) -> Seq<char> {
    match cell {
        Some(text) => text@,
        None => seq!['N', 'o', 't', ' ', 'f', 'o', 'u', 'n', 'd'],
    }
}

/// The fields of the first record of the table: the word `file`, and the
/// name of each kind asked for.
pub open spec fn header_fields(names: Seq<String>) -> Seq<Seq<char>> {
    seq![seq!['f', 'i', 'l', 'e']] + names.map_values(|s: String| s@)
}

/// The fields of the record of one file: its name, and the text of each of
/// its cells.
pub open spec fn row_fields(row: (String, Vec<Option<String>>)) -> Seq<Seq<char>> {
    seq![row.0@] + row.1@.map_values(|c: Option<String>| cell_text(c))
}

/// The records of a table: the header, and then one for each file.
pub open spec fn records_of(names: Seq<String>, rows: Seq<(String, Vec<Option<String>>)>) -> Seq<
    Seq<Seq<char>>,
> {
    seq![header_fields(names)] + rows.map_values(|r: (String, Vec<Option<String>>)| row_fields(r))
}

/// The lines of the records one after the other, where every record has a
/// line.
pub open spec fn lines_of(records: Seq<Seq<Seq<char>>>) -> Option<Seq<char>>
    decreases records.len(),
{
    if records.len() == 0 {
        Some(Seq::empty())
    } else {
        match (lines_of(records.drop_last()), csv_record(records.last())) {
            (Some(before), Some(line)) => Some(before + line),
            _ => None,
        }
    }
}

/// Writes a record and adds its line to the text so far.
fn add_line(out: &mut String, fields: &Vec<String>) -> (done: bool)
    ensures
        match csv_record(fields@.map_values(|s: String| s@)) {
            Some(line) => done && final(out)@ == old(out)@ + line,
            None => !done && final(out)@ == old(out)@,
        },
{
    match write_record(fields) {
        Some(line) => {
            out.append(line.as_str());
            true
        },
        None => false,
    }
}

/// Writes the table of a search as comma-separated values.
///
/// `names` are the names of the kinds asked for, and `rows` holds for each
/// file to show its name and the text of each cell, or nothing where nothing
/// was found. The first record is the word `file` and the names. Each
/// further record is a file's name and its cells, with `Not found` for a
/// cell without text. There is no table where a record cannot be written.
pub fn table_text(names: &Vec<String>, rows: &Vec<(String, Vec<Option<String>>)>) -> (r: Option<
    String,
>)
    ensures
        text_view(r) == lines_of(records_of(names@, rows@)),
{
    let ghost records = records_of(names@, rows@);
    let mut out = String::new();
    let mut fields: Vec<String> = Vec::new();
    proof {
        reveal_strlit("file");
        assert("file"@ =~= seq!['f', 'i', 'l', 'e']);
    }
    fields.push(String::from_str("file"));
    let mut j: usize = 0;
    while j < names.len()
        invariant
            j <= names@.len(),
            fields@.map_values(|s: String| s@) == header_fields(names@.take(j as int)),
        decreases names@.len() - j,
    {
        let ghost before = fields@.map_values(|s: String| s@);
        fields.push(names[j].clone());
        proof {
            assert(fields@.map_values(|s: String| s@) =~= before.push(names@[j as int]@));
            assert(before.push(names@[j as int]@) =~= header_fields(names@.take(j + 1)));
        }
        j = j + 1;
    }
    proof {
        assert(names@.take(names@.len() as int) =~= names@);
        assert(records.take(1) =~= seq![header_fields(names@)]);
        assert(records.take(1).drop_last() =~= Seq::<Seq<Seq<char>>>::empty());
        assert(records.take(1).last() == header_fields(names@));
        assert(lines_of(records.take(1).drop_last()) == Some(Seq::<char>::empty()));
        assert(out@ + csv_record(header_fields(names@))->0 =~= csv_record(
            header_fields(names@),
        )->0);
    }
    if !add_line(&mut out, &fields) {
        proof {
            lemma_no_lines(records, 1);
        }
        return None;
    }
    let mut i: usize = 0;
    while i < rows.len()
        invariant
            records == records_of(names@, rows@),
            i <= rows@.len(),
            lines_of(records.take(i + 1)) == Some(out@),
        decreases rows@.len() - i,
    {
        let row = &rows[i];
        let mut fields: Vec<String> = Vec::new();
        fields.push(row.0.clone());
        let mut j: usize = 0;
        proof {
            assert(fields@.map_values(|s: String| s@) =~= seq![row.0@] + row.1@.take(
                0,
            ).map_values(|c: Option<String>| cell_text(c)));
        }
        while j < row.1.len()
            invariant
                j <= row.1@.len(),
                fields@.map_values(|s: String| s@) == seq![row.0@] + row.1@.take(
                    j as int,
                ).map_values(|c: Option<String>| cell_text(c)),
            decreases row.1@.len() - j,
        {
            let ghost before = fields@.map_values(|s: String| s@);
            let text = match &row.1[j] {
                Some(text) => text.clone(),
                None => {
                    proof {
                        reveal_strlit("Not found");
                        assert("Not found"@ =~= seq!['N', 'o', 't', ' ', 'f', 'o', 'u', 'n', 'd']);
                    }
                    String::from_str("Not found")
                },
            };
            fields.push(text);
            proof {
                assert(fields@.map_values(|s: String| s@) =~= before.push(
                    cell_text(row.1@[j as int]),
                ));
                assert(before.push(cell_text(row.1@[j as int])) =~= seq![row.0@] + row.1@.take(
                    j + 1,
                ).map_values(|c: Option<String>| cell_text(c)));
            }
            j = j + 1;
        }
        proof {
            assert(row.1@.take(row.1@.len() as int) =~= row.1@);
            assert(records.take(i + 2).drop_last() =~= records.take(i + 1));
            assert(records.take(i + 2).last() == row_fields(rows@[i as int]));
        }
        if !add_line(&mut out, &fields) {
            proof {
                lemma_no_lines(records, i + 2);
            }
            return None;
        }
        i = i + 1;
    }
    proof {
        assert(records.take(rows@.len() as int + 1) =~= records);
    }
    Some(out)
}

/// Where the first records have no lines, all of them have none.
proof fn lemma_no_lines(records: Seq<Seq<Seq<char>>>, n: int)
    requires
        0 <= n <= records.len(),
        lines_of(records.take(n)) is None,
    ensures
        lines_of(records) is None,
    decreases records.len() - n,
{
    if n < records.len() {
        assert(records.take(n + 1).drop_last() =~= records.take(n));
        lemma_no_lines(records, n + 1);
    } else {
        assert(records.take(n) =~= records);
    }
}

} // verus!
