//! Notes: a store of them, a search over them, and dictation.
use vstd::prelude::*;
use vstd::string::*;

use crate::ids::{new_id, serial_id};
use crate::json::opt_view;
use crate::newest_first::{
    listed_before, newest_first, order_by_time, positions, the_list_is_complete_and_ordered,
};
use crate::text::{
    contains, copy_strings, has, is_whitespace, lowercase, occurs_at, same, to_lowercase, trim,
    trimmed, trimmed_to_nothing, views,
};
use crate::transcript::RecordingState;

verus! {

#[derive(Debug, Clone)]
pub struct Note {
    pub id: String,
    pub title: String,
    pub body: String,
    pub project: Option<String>,
    pub tags: Vec<String>,
    pub created_at_ms: u64,
    pub updated_at_ms: u64,
    pub linked_note_ids: Vec<String>,
}

/// The view of a note.
pub struct NoteView {
    pub id: Seq<char>,
    pub title: Seq<char>,
    pub body: Seq<char>,
    pub project: Option<Seq<char>>,
    pub tags: Seq<Seq<char>>,
    pub created_at_ms: u64,
    pub updated_at_ms: u64,
    pub linked_note_ids: Seq<Seq<char>>,
}

impl Note {
    pub open spec fn view(&self) -> NoteView {
        NoteView {
            id: self.id@,
            title: self.title@,
            body: self.body@,
            project: opt_view(self.project),
            tags: views(self.tags@),
            created_at_ms: self.created_at_ms,
            updated_at_ms: self.updated_at_ms,
            linked_note_ids: views(self.linked_note_ids@),
        }
    }

    /// A note equal to this one.
    pub fn copy(&self) -> (r: Note)
        ensures
            r@ == self@,
    {
        Note {
            id: self.id.clone(),
            title: self.title.clone(),
            body: self.body.clone(),
            project: self.project.clone(),
            tags: copy_strings(&self.tags),
            created_at_ms: self.created_at_ms,
            updated_at_ms: self.updated_at_ms,
            linked_note_ids: copy_strings(&self.linked_note_ids),
        }
    }
}

/// The views of a sequence of notes.
pub open spec fn note_views(notes: Seq<Note>) -> Seq<NoteView> {
    notes.map_values(|n: Note| n@)
}

/// When notes were last changed.
pub open spec fn update_times(notes: Seq<NoteView>) -> Seq<u64> {
    notes.map_values(|n: NoteView| n.updated_at_ms)
}

/// Notes as they are listed: the one changed last first.
pub open spec fn listed(notes: Seq<NoteView>) -> Seq<NoteView> {
    newest_first(update_times(notes), notes.len()).map_values(|i: int| notes[i])
}

fn list(notes: &Vec<Note>) -> (r: Vec<Note>)
    ensures
        note_views(r@) == listed(note_views(notes@)),
{
    let ghost all = note_views(notes@);
    let mut times: Vec<u64> = Vec::new();
    let mut i: usize = 0;
    while i < notes.len()
        invariant
            i <= notes@.len(),
            times@.len() == i,
            forall|j: int| 0 <= j < i ==> #[trigger] times@[j] == notes@[j].updated_at_ms,
        decreases notes@.len() - i,
    {
        times.push(notes[i].updated_at_ms);
        i += 1;
    }
    proof {
        assert(times@ =~= update_times(all));
    }
    let order: Vec<usize> = order_by_time(&times);
    let mut out: Vec<Note> = Vec::new();
    let mut k: usize = 0;
    while k < order.len()
        invariant
            k <= order@.len(),
            out@.len() == k,
            order@.len() == notes@.len(),
            times@.len() == notes@.len(),
            forall|j: int| 0 <= j < order@.len() ==> #[trigger] order@[j] < times@.len(),
            forall|j: int| 0 <= j < k ==> (#[trigger] out@[j])@ == notes@[order@[j] as int]@,
        decreases order@.len() - k,
    {
        out.push(notes[order[k]].copy());
        k += 1;
    }
    proof {
        let ordered = newest_first(update_times(all), all.len());
        assert(positions(order@) == ordered);
        assert forall|j: int| 0 <= j < out@.len() implies #[trigger] note_views(out@)[j] == listed(
            all,
        )[j] by {
            assert(ordered[j] == positions(order@)[j]);
            assert(positions(order@)[j] == order@[j]);
            assert(out@[j]@ == notes@[order@[j] as int]@);
        }
        assert(ordered.len() == positions(order@).len());
        assert(note_views(out@) =~= listed(all));
    }
    out
}

/// The position, at or after `i`, of the note with an identifier.
pub open spec fn note_at(notes: Seq<NoteView>, id: Seq<char>, i: int) -> Option<int>
    decreases notes.len() - i,
{
    if i < 0 || i >= notes.len() {
        None
    } else if notes[i].id == id {
        Some(i)
    } else {
        note_at(notes, id, i + 1)
    }
}

/// The note with an identifier.
pub open spec fn found(notes: Seq<NoteView>, id: Seq<char>) -> Option<NoteView> {
    match note_at(notes, id, 0) {
        Some(i) => Some(notes[i]),
        None => None,
    }
}

/// A text, unless there is nothing but space in it.
pub open spec fn unless_blank(text: Option<Seq<char>>) -> Option<Seq<char>> {
    match text {
        Some(t) => if trim(t).len() == 0 {
            None
        } else {
            Some(t)
        },
        None => None,
    }
}

/// A text, unless there is nothing but space in it.
pub fn without_blank(text: Option<String>) -> (r: Option<String>)
    ensures
        opt_view(r) == unless_blank(opt_view(text)),
{
    match text {
        Some(t) => {
            let visible: String = trimmed(t.as_str());
            if visible.as_str().is_empty() {
                None
            } else {
                Some(t)
            }
        },
        None => None,
    }
}

/// Notes without those with an identifier.
pub open spec fn without(notes: Seq<NoteView>, id: Seq<char>) -> Seq<NoteView>
    decreases notes.len(),
{
    if notes.len() == 0 {
        Seq::empty()
    } else if notes.last().id == id {
        without(notes.drop_last(), id)
    } else {
        without(notes.drop_last(), id).push(notes.last())
    }
}

/// One of some texts, in lower case, holds the given text.
pub open spec fn any_holds(texts: Seq<Seq<char>>, needle: Seq<char>) -> bool {
    exists|i: int| 0 <= i < texts.len() && #[trigger] contains(lowercase(texts[i]), needle)
}

/// The title, the body, the project or a tag of a note, in lower case, holds the
/// given text.
pub open spec fn holds(note: NoteView, needle: Seq<char>) -> bool {
    ||| contains(lowercase(note.title), needle)
    ||| contains(lowercase(note.body), needle)
    ||| contains(
        lowercase(
            match note.project {
                Some(p) => p,
                None => Seq::empty(),
            },
        ),
        needle,
    )
    ||| any_holds(note.tags, needle)
}

/// Whether the title, the body, the project or a tag of a note, in lower case,
/// holds the given text.
pub fn note_holds(note: &Note, needle: &str) -> (r: bool)
    ensures
        r == holds(note@, needle@),
{
    let title: String = to_lowercase(note.title.as_str());
    if has(title.as_str(), needle) {
        return true;
    }
    let body: String = to_lowercase(note.body.as_str());
    if has(body.as_str(), needle) {
        return true;
    }
    let project: String = match &note.project {
        Some(p) => to_lowercase(p.as_str()),
        None => {
            proof {
                reveal_strlit("");
                assert(""@ =~= Seq::empty());
            }
            to_lowercase("")
        },
    };
    if has(project.as_str(), needle) {
        return true;
    }
    let ghost tags = views(note.tags@);
    let mut i: usize = 0;
    while i < note.tags.len()
        invariant
            i <= note.tags@.len(),
            tags == views(note.tags@),
            forall|j: int| 0 <= j < i ==> !#[trigger] contains(lowercase(tags[j]), needle@),
        decreases note.tags@.len() - i,
    {
        proof {
            assert(tags[i as int] == note.tags@[i as int]@);
        }
        let tag: String = to_lowercase(note.tags[i].as_str());
        if has(tag.as_str(), needle) {
            proof {
                assert(contains(lowercase(tags[i as int]), needle@));
            }
            return true;
        }
        i += 1;
    }
    false
}

/// The notes that hold a text.
pub open spec fn holding(notes: Seq<NoteView>, needle: Seq<char>) -> Seq<NoteView>
    decreases notes.len(),
{
    if notes.len() == 0 {
        Seq::empty()
    } else if holds(notes.last(), needle) {
        holding(notes.drop_last(), needle).push(notes.last())
    } else {
        holding(notes.drop_last(), needle)
    }
}

/// What a search gives: the notes that hold what is searched for, as they are
/// listed. A search for nothing gives all.
pub open spec fn searched(notes: Seq<NoteView>, query: Seq<char>) -> Seq<NoteView> {
    let needle = lowercase(trim(query));
    if needle.len() == 0 {
        listed(notes)
    } else {
        listed(holding(notes, needle))
    }
}

/// A new note.
pub open spec fn new_note(
    id: Seq<char>,
    now: u64,
    title: Seq<char>,
    body: Seq<char>,
    project: Option<Seq<char>>,
    tags: Option<Seq<Seq<char>>>,
) -> NoteView {
    NoteView {
        id,
        title,
        body,
        project: unless_blank(project),
        tags: match tags {
            Some(t) => t,
            None => Seq::empty(),
        },
        created_at_ms: now,
        updated_at_ms: now,
        linked_note_ids: Seq::empty(),
    }
}

/// What changes in a note; what is not given stays as it is.
#[derive(Debug)]
pub struct NoteChanges {
    pub title: Option<String>,
    pub body: Option<String>,
    pub project: Option<String>,
    pub tags: Option<Vec<String>>,
    pub linked_note_ids: Option<Vec<String>>,
}

/// The views of texts that may not be given.
pub open spec fn opt_texts(texts: Option<Vec<String>>) -> Option<Seq<Seq<char>>> {
    match texts {
        Some(t) => Some(views(t@)),
        None => None,
    }
}

/// A note with changes.
pub open spec fn changed(note: NoteView, changes: NoteChanges, now: u64) -> NoteView {
    NoteView {
        title: match changes.title {
            Some(t) => t@,
            None => note.title,
        },
        body: match changes.body {
            Some(b) => b@,
            None => note.body,
        },
        project: if changes.project is Some {
            unless_blank(opt_view(changes.project))
        } else {
            note.project
        },
        tags: match opt_texts(changes.tags) {
            Some(t) => t,
            None => note.tags,
        },
        linked_note_ids: match opt_texts(changes.linked_note_ids) {
            Some(l) => l,
            None => note.linked_note_ids,
        },
        updated_at_ms: now,
        ..note
    }
}

/// The notes that are kept, in the order in which they were made.
#[derive(Debug)]
pub struct NotesStore {
    notes: Vec<Note>,
}

impl NotesStore {
    pub closed spec fn view(&self) -> Seq<NoteView> {
        note_views(self.notes@)
    }

    /// Whether there are no notes; then those on file are to be taken.
    pub fn is_empty(&self) -> (r: bool)
        ensures
            r == (self@.len() == 0),
    {
        self.notes.len() == 0
    }

    /// Takes the notes on file, if there are none here.
    pub fn ensure_loaded(&mut self, on_file: Vec<Note>)
        ensures
            final(self)@ == (if old(self)@.len() == 0 {
                note_views(on_file@)
            } else {
                old(self)@
            }),
    {
        if self.notes.len() == 0 {
            self.notes = on_file;
        }
    }

    /// The notes, in the order in which they were made.
    pub fn notes(&self) -> (r: &Vec<Note>)
        ensures
            note_views(r@) == self@,
    {
        &self.notes
    }

    /// The notes, the one changed last first.
    pub fn list_notes(&self) -> (r: Vec<Note>)
        ensures
            note_views(r@) == listed(self@),
    {
        list(&self.notes)
    }

    fn find(&self, id: &str) -> (r: Option<usize>)
        ensures
            match r {
                Some(i) => note_at(self@, id@, 0) == Some(i as int) && i < self.notes@.len(),
                None => note_at(self@, id@, 0) is None,
            },
    {
        let mut i: usize = 0;
        while i < self.notes.len()
            invariant
                i <= self.notes@.len(),
                note_at(self@, id@, 0) == note_at(self@, id@, i as int),
            decreases self.notes@.len() - i,
        {
            proof {
                assert(self@[i as int] == self.notes@[i as int]@);
            }
            if same(self.notes[i].id.as_str(), id) {
                return Some(i);
            }
            i += 1;
        }
        None
    }

    /// The note with an identifier.
    pub fn get_note(&self, id: &str) -> (r: Option<Note>)
        ensures
            match r {
                Some(n) => found(self@, id@) == Some(n@),
                None => found(self@, id@) is None,
            },
    {
        match self.find(id) {
            Some(i) => Some(self.notes[i].copy()),
            None => None,
        }
    }

    /// Makes a note. `serial` is the number of notes made before it.
    pub fn create_note(
        &mut self,
        now: u64,
        serial: u64,
        title: String,
        body: String,
        project: Option<String>,
        tags: Option<Vec<String>>,
    ) -> (r: Note)
        ensures
            r@ == new_note(
                serial_id("note"@, now as nat, serial as nat),
                now,
                title@,
                body@,
                opt_view(project),
                opt_texts(tags),
            ),
            final(self)@ == old(self)@.push(r@),
    {
        let tags: Vec<String> = match tags {
            Some(t) => t,
            None => Vec::new(),
        };
        let note = Note {
            id: new_id("note", now, serial),
            title,
            body,
            project: without_blank(project),
            tags,
            created_at_ms: now,
            updated_at_ms: now,
            linked_note_ids: Vec::new(),
        };
        let ghost empty = Seq::<Seq<char>>::empty();
        proof {
            assert(note@.linked_note_ids =~= empty);
            assert(views(Seq::<String>::empty()) =~= empty);
            assert(tags@.len() == 0 ==> views(tags@) =~= empty);
        }
        let r: Note = note.copy();
        self.notes.push(note);
        proof {
            assert(self@ =~= old(self)@.push(r@));
        }
        r
    }

    /// Changes the note with an identifier.
    pub fn update_note(&mut self, id: &str, changes: NoteChanges, now: u64) -> (r: Result<
        Note,
        String,
    >)
        ensures
            match note_at(old(self)@, id@, 0) {
                Some(i) => {
                    &&& r matches Ok(n) && n@ == changed(old(self)@[i], changes, now)
                    &&& final(self)@ == old(self)@.update(i, changed(old(self)@[i], changes, now))
                },
                None => {
                    &&& r matches Err(e) && e@ == "note not found"@
                    &&& final(self)@ == old(self)@
                },
            },
    {
        match self.find(id) {
            Some(i) => {
                let mut note: Note = self.notes[i].copy();
                match changes.title {
                    Some(t) => {
                        note.title = t;
                    },
                    None => {},
                }
                match changes.body {
                    Some(b) => {
                        note.body = b;
                    },
                    None => {},
                }
                if changes.project.is_some() {
                    note.project = without_blank(changes.project);
                }
                match changes.tags {
                    Some(t) => {
                        note.tags = t;
                    },
                    None => {},
                }
                match changes.linked_note_ids {
                    Some(l) => {
                        note.linked_note_ids = l;
                    },
                    None => {},
                }
                note.updated_at_ms = now;
                let r: Note = note.copy();
                self.notes.set(i, note);
                proof {
                    assert(r@ == changed(old(self)@[i as int], changes, now));
                    assert(self@ =~= old(self)@.update(i as int, r@));
                }
                Ok(r)
            },
            None => Err("note not found".to_owned()),
        }
    }

    /// Deletes the note with an identifier.
    pub fn delete_note(&mut self, id: &str)
        ensures
            final(self)@ == without(old(self)@, id@),
    {
        let ghost all = self@;
        let mut kept: Vec<Note> = Vec::new();
        let mut i: usize = 0;
        proof {
            assert(all.take(0) =~= Seq::empty());
            assert(note_views(kept@) =~= Seq::empty());
        }
        while i < self.notes.len()
            invariant
                i <= self.notes@.len(),
                all == note_views(self.notes@),
                note_views(kept@) == without(all.take(i as int), id@),
            decreases self.notes@.len() - i,
        {
            let ghost before = note_views(kept@);
            proof {
                assert(all.take(i as int + 1).drop_last() =~= all.take(i as int));
                assert(all.take(i as int + 1).last() == self.notes@[i as int]@);
            }
            if !same(self.notes[i].id.as_str(), id) {
                let note: Note = self.notes[i].copy();
                kept.push(note);
                proof {
                    assert(note_views(kept@) =~= before.push(note@));
                }
            }
            i += 1;
        }
        proof {
            assert(all.take(i as int) =~= all);
        }
        self.notes = kept;
    }

    /// Searches the notes.
    pub fn search_notes(&self, query: &str) -> (r: Vec<Note>)
        ensures
            note_views(r@) == searched(self@, query@),
    {
        let text: String = trimmed(query);
        let needle: String = to_lowercase(text.as_str());
        if needle.as_str().is_empty() {
            return list(&self.notes);
        }
        let ghost all = self@;
        let mut matching: Vec<Note> = Vec::new();
        let mut i: usize = 0;
        proof {
            assert(all.take(0) =~= Seq::empty());
            assert(note_views(matching@) =~= Seq::empty());
        }
        while i < self.notes.len()
            invariant
                i <= self.notes@.len(),
                all == note_views(self.notes@),
                note_views(matching@) == holding(all.take(i as int), needle@),
            decreases self.notes@.len() - i,
        {
            let ghost before = note_views(matching@);
            proof {
                assert(all.take(i as int + 1).drop_last() =~= all.take(i as int));
                assert(all.take(i as int + 1).last() == self.notes@[i as int]@);
            }
            if note_holds(&self.notes[i], needle.as_str()) {
                let note: Note = self.notes[i].copy();
                matching.push(note);
                proof {
                    assert(note_views(matching@) =~= before.push(note@));
                }
            }
            i += 1;
        }
        proof {
            assert(all.take(i as int) =~= all);
        }
        list(&matching)
    }
}

impl Default for NotesStore {
    fn default() -> (r: NotesStore)
        ensures
            r@ == Seq::<NoteView>::empty(),
    {
        let r = NotesStore { notes: Vec::new() };
        proof {
            assert(r@ =~= Seq::empty());
        }
        r
    }
}

/// What has been dictated.
#[derive(Debug)]
pub struct DictationBuffer {
    text: String,
}

impl DictationBuffer {
    pub closed spec fn view(&self) -> Seq<char> {
        self.text@
    }

    /// Forgets what has been dictated.
    pub fn clear(&mut self)
        ensures
            final(self)@ == Seq::<char>::empty(),
    {
        self.text = String::new();
    }

    /// Adds an utterance, without the space around it; a space parts it from
    /// what came before.
    pub fn add(&mut self, utterance: &str)
        ensures
            final(self)@ == (if old(self)@.len() == 0 {
                trim(utterance@)
            } else {
                old(self)@ + " "@ + trim(utterance@)
            }),
    {
        if !self.text.as_str().is_empty() {
            self.text.append(" ");
        }
        let said: String = trimmed(utterance);
        self.text.append(said.as_str());
        proof {
            assert(Seq::<char>::empty() + said@ =~= said@);
        }
    }

    /// What has been dictated.
    pub fn text(&self) -> (r: String)
        ensures
            r@ == self@,
    {
        self.text.clone()
    }
}

impl Default for DictationBuffer {
    fn default() -> (r: DictationBuffer)
        ensures
            r@ == Seq::<char>::empty(),
    {
        DictationBuffer { text: String::new() }
    }
}

/// The session of dictation: there is one at a time.
#[derive(Debug)]
pub struct DictationSession {
    running: bool,
    recording: RecordingState,
}

impl DictationSession {
    /// The session runs.
    pub closed spec fn running(&self) -> bool {
        self.running
    }

    /// How the recording stands.
    pub closed spec fn recording(&self) -> RecordingState {
        self.recording
    }

    /// Prepares a session: what was dictated before is forgotten. The session
    /// runs from `started` on.
    pub fn prepare(&mut self, buffer: &mut DictationBuffer) -> (r: Result<(), String>)
        ensures
            final(self).running() == old(self).running(),
            if old(self).running() {
                &&& r matches Err(e) && e@ == "dictation already running"@
                &&& final(buffer)@ == old(buffer)@
                &&& final(self).recording() == old(self).recording()
            } else {
                &&& r is Ok
                &&& final(buffer)@ == Seq::<char>::empty()
                &&& final(self).recording() == RecordingState::Recording
            },
    {
        if self.running {
            return Err("dictation already running".to_owned());
        }
        buffer.clear();
        self.recording = RecordingState::Recording;
        Ok(())
    }

    /// The session has been started.
    pub fn started(&mut self)
        ensures
            final(self).running(),
            final(self).recording() == old(self).recording(),
    {
        self.running = true;
    }

    /// Ends the session, if there is one, and gives what has been dictated.
    pub fn stop(&mut self, buffer: &DictationBuffer) -> (r: String)
        ensures
            !final(self).running(),
            final(self).recording() == RecordingState::Stopped,
            r@ == buffer@,
    {
        self.running = false;
        self.recording = RecordingState::Stopped;
        buffer.text()
    }
}

impl Default for DictationSession {
    fn default() -> (r: DictationSession)
        ensures
            !r.running(),
            r.recording() == RecordingState::Idle,
    {
        DictationSession { running: false, recording: RecordingState::Idle }
    }
}

proof fn note_at_finds(notes: Seq<NoteView>, id: Seq<char>, i: int)
    requires
        0 <= i,
    ensures
        match note_at(notes, id, i) {
            Some(at) => i <= at < notes.len() && notes[at].id == id && forall|j: int|
                i <= j < at ==> (#[trigger] notes[j]).id != id,
            None => forall|j: int| i <= j < notes.len() ==> (#[trigger] notes[j]).id != id,
        },
    decreases notes.len() - i,
{
    if i < notes.len() && notes[i].id != id {
        note_at_finds(notes, id, i + 1);
    }
}

proof fn note_at_is(notes: Seq<NoteView>, id: Seq<char>, i: int, at: int)
    requires
        0 <= i <= at < notes.len(),
        notes[at].id == id,
        forall|j: int| i <= j < at ==> (#[trigger] notes[j]).id != id,
    ensures
        note_at(notes, id, i) == Some(at),
    decreases at - i,
{
    if i < at {
        note_at_is(notes, id, i + 1, at);
    }
}

/// A note that was made is found again by its identifier, if no other note has
/// it; and every note that was found before is still found.
pub proof fn a_note_is_found_again(notes: Seq<NoteView>, note: NoteView, other: Seq<char>)
    ensures
        found(notes, note.id) is None ==> found(notes.push(note), note.id) == Some(note),
        found(notes, other) is Some ==> found(notes.push(note), other) == found(notes, other),
{
    let after = notes.push(note);
    note_at_finds(notes, note.id, 0);
    note_at_finds(notes, other, 0);
    if found(notes, note.id) is None {
        assert forall|j: int| 0 <= j < notes.len() implies (#[trigger] after[j]).id != note.id by {
            assert(notes[j].id != note.id);
        }
        note_at_is(after, note.id, 0, notes.len() as int);
    }
    match note_at(notes, other, 0) {
        Some(at) => {
            assert forall|j: int| 0 <= j < at implies (#[trigger] after[j]).id != other by {
                assert(notes[j].id != other);
            }
            note_at_is(after, other, 0, at);
        },
        None => {},
    }
}

/// A note that was changed is found with its changes; every other note is found
/// as it was.
pub proof fn only_the_note_is_changed(
    notes: Seq<NoteView>,
    id: Seq<char>,
    changes: NoteChanges,
    now: u64,
    other: Seq<char>,
)
    requires
        note_at(notes, id, 0) is Some,
        other != id,
    ensures
        ({
            let i = note_at(notes, id, 0)->Some_0;
            let after = notes.update(i, changed(notes[i], changes, now));
            &&& found(after, id) == Some(changed(notes[i], changes, now))
            &&& found(after, other) == found(notes, other)
            &&& after.len() == notes.len()
        }),
{
    let i = note_at(notes, id, 0)->Some_0;
    let after = notes.update(i, changed(notes[i], changes, now));
    note_at_finds(notes, id, 0);
    note_at_finds(notes, other, 0);
    note_at_finds(after, other, 0);
    assert forall|j: int| 0 <= j < i implies (#[trigger] after[j]).id != id by {
        assert(notes[j].id != id);
    }
    note_at_is(after, id, 0, i);
    match note_at(notes, other, 0) {
        Some(at) => {
            assert forall|j: int| 0 <= j < at implies (#[trigger] after[j]).id != other by {
                assert(notes[j].id != other);
            }
            note_at_is(after, other, 0, at);
        },
        None => {
            match note_at(after, other, 0) {
                Some(at) => {
                    assert(notes[at].id == after[at].id);
                },
                None => {},
            }
        },
    }
}

/// A note that was deleted is no longer found; every other note is found as it
/// was.
pub proof fn a_deleted_note_is_gone(notes: Seq<NoteView>, id: Seq<char>, other: Seq<char>)
    requires
        other != id,
    ensures
        found(without(notes, id), id) is None,
        found(without(notes, id), other) == found(notes, other),
    decreases notes.len(),
{
    if notes.len() > 0 {
        let before = notes.drop_last();
        a_deleted_note_is_gone(before, id, other);
        let last = notes.last();
        let kept = without(before, id);
        assert(before.push(last) =~= notes);
        note_at_finds(before, other, 0);
        note_at_finds(kept, other, 0);
        note_at_finds(notes, other, 0);
        note_at_finds(kept, id, 0);
        if last.id == id {
            match note_at(before, other, 0) {
                Some(at) => {
                    assert forall|j: int| 0 <= j < at implies (#[trigger] notes[j]).id != other by {
                        assert(before[j].id != other);
                    }
                    note_at_is(notes, other, 0, at);
                },
                None => {
                    match note_at(notes, other, 0) {
                        Some(at) => {
                            assert(at < before.len() ==> before[at].id == other);
                        },
                        None => {},
                    }
                },
            }
        } else {
            let after = kept.push(last);
            note_at_finds(after, id, 0);
            match note_at(after, id, 0) {
                Some(at) => {
                    assert(at < kept.len() ==> kept[at].id == id);
                },
                None => {},
            }
            if found(before, other) is Some {
                a_note_is_found_again(before, last, other);
                a_note_is_found_again(kept, last, other);
            } else if last.id == other {
                a_note_is_found_again(before, last, other);
                a_note_is_found_again(kept, last, other);
            } else {
                note_at_finds(after, other, 0);
                match note_at(after, other, 0) {
                    Some(at) => {
                        assert(at < kept.len() ==> kept[at].id == other);
                    },
                    None => {},
                }
                match note_at(notes, other, 0) {
                    Some(at) => {
                        assert(at < before.len() ==> before[at].id == other);
                    },
                    None => {},
                }
            }
        }
    }
}

/// A list shows notes newest first: every note once, no other, the one changed
/// last first, and those changed at one time in the order in which they were
/// made. `order` says which note stands where.
pub open spec fn shows_newest_first(
    notes: Seq<NoteView>,
    shown: Seq<NoteView>,
    order: Seq<int>,
) -> bool {
    &&& shown.len() == notes.len()
    &&& order.len() == notes.len()
    &&& forall|k: int|
        0 <= k < order.len() ==> 0 <= #[trigger] order[k] < notes.len() && shown[k]
            == notes[order[k]]
    &&& forall|i: int| 0 <= i < notes.len() ==> #[trigger] order.contains(i)
    &&& forall|j: int, k: int|
        0 <= j < k < order.len() ==> {
            let a = notes[#[trigger] order[j]].updated_at_ms;
            let b = notes[#[trigger] order[k]].updated_at_ms;
            a > b || (a == b && order[j] < order[k])
        }
}

/// Notes are listed newest first.
pub proof fn notes_are_listed_newest_first(notes: Seq<NoteView>)
    ensures
        exists|order: Seq<int>| shows_newest_first(notes, listed(notes), order),
        forall|note: NoteView| #[trigger] listed(notes).contains(note) <==> notes.contains(note),
        forall|j: int, k: int|
            0 <= j < k < listed(notes).len() ==> (#[trigger] listed(notes)[j]).updated_at_ms >= (
            #[trigger] listed(notes)[k]).updated_at_ms,
{
    let times = update_times(notes);
    let order = newest_first(times, notes.len());
    let shown = listed(notes);
    the_list_is_complete_and_ordered(times, notes.len());
    assert forall|j: int, k: int| 0 <= j < k < order.len() implies {
        let a = notes[#[trigger] order[j]].updated_at_ms;
        let b = notes[#[trigger] order[k]].updated_at_ms;
        a > b || (a == b && order[j] < order[k])
    } by {
        assert(listed_before(times, order[j], order[k]));
        assert(times[order[j]] == notes[order[j]].updated_at_ms);
        assert(times[order[k]] == notes[order[k]].updated_at_ms);
    }
    assert(shows_newest_first(notes, shown, order));
    assert forall|j: int, k: int| 0 <= j < k < shown.len() implies (
    #[trigger] shown[j]).updated_at_ms >= (#[trigger] shown[k]).updated_at_ms by {
        assert(shown[j] == notes[order[j]] && shown[k] == notes[order[k]]);
    }
    assert forall|note: NoteView| #[trigger] shown.contains(note) <==> notes.contains(note) by {
        if shown.contains(note) {
            let k = choose|k: int| 0 <= k < shown.len() && shown[k] == note;
            assert(notes[order[k]] == note);
        }
        if notes.contains(note) {
            let i = choose|i: int| 0 <= i < notes.len() && notes[i] == note;
            assert(order.contains(i));
            let k = choose|k: int| 0 <= k < order.len() && order[k] == i;
            assert(shown[k] == note);
        }
    }
}

/// A text occurs in another, once the other is in lower case.
pub open spec fn occurs_in_lower_case(text: Seq<char>, needle: Seq<char>) -> bool {
    exists|i: int|
        0 <= i && i + needle.len() <= lowercase(text).len() && #[trigger] lowercase(
            text,
        ).subrange(i, i + needle.len()) == needle
}

proof fn occurring_is_being_contained(text: Seq<char>, needle: Seq<char>)
    ensures
        occurs_in_lower_case(text, needle) <==> contains(lowercase(text), needle),
{
    let low = lowercase(text);
    if occurs_in_lower_case(text, needle) {
        let i = choose|i: int|
            0 <= i && i + needle.len() <= low.len() && #[trigger] low.subrange(
                i,
                i + needle.len(),
            ) == needle;
        assert(occurs_at(low, needle, i));
    }
    if contains(low, needle) {
        let i = choose|i: int| occurs_at(low, needle, i);
        assert(low.subrange(i, i + needle.len()) == needle);
    }
}

proof fn what_holding_keeps(notes: Seq<NoteView>, needle: Seq<char>)
    ensures
        forall|note: NoteView| #[trigger]
            holding(notes, needle).contains(note) <==> notes.contains(note) && holds(note, needle),
    decreases notes.len(),
{
    if notes.len() > 0 {
        let before = notes.drop_last();
        let last = notes.last();
        what_holding_keeps(before, needle);
        let kept = holding(before, needle);
        assert forall|note: NoteView| #[trigger]
            holding(notes, needle).contains(note) <==> notes.contains(note) && holds(
            note,
            needle,
        ) by {
            let all = holding(notes, needle);
            if notes.contains(note) {
                let i = choose|i: int| 0 <= i < notes.len() && notes[i] == note;
                if i < before.len() {
                    assert(before[i] == note);
                    assert(before.contains(note));
                    if holds(note, needle) {
                        assert(kept.contains(note));
                        let k = choose|k: int| 0 <= k < kept.len() && kept[k] == note;
                        assert(all[k] == note);
                    }
                } else if holds(note, needle) {
                    assert(all[all.len() - 1] == note);
                }
            }
            if all.contains(note) {
                let k = choose|k: int| 0 <= k < all.len() && all[k] == note;
                if k < kept.len() {
                    assert(kept[k] == note);
                    assert(kept.contains(note));
                    let i = choose|i: int| 0 <= i < before.len() && before[i] == note;
                    assert(notes[i] == note);
                } else {
                    assert(note == last);
                    assert(notes[notes.len() - 1] == note);
                }
            }
        }
    }
}

/// A search finds exactly the notes in which what is searched for occurs, in
/// whatever case: in the title, in the body, in the project or in one of the
/// tags. They are shown newest first. A search for nothing shows all notes.
pub proof fn a_search_finds_what_holds_it(notes: Seq<NoteView>, query: Seq<char>, note: NoteView)
    ensures
        ({
            let needle = lowercase(trim(query));
            let shown = searched(notes, query);
            &&& needle.len() == 0 ==> (shown.contains(note) <==> notes.contains(note))
            &&& needle.len() > 0 && notes.contains(note) && occurs_in_lower_case(
                note.title,
                needle,
            ) ==> shown.contains(note)
            &&& needle.len() > 0 && notes.contains(note) && occurs_in_lower_case(
                note.body,
                needle,
            ) ==> shown.contains(note)
            &&& needle.len() > 0 && notes.contains(note) && note.project is Some
                && occurs_in_lower_case(note.project->Some_0, needle) ==> shown.contains(note)
            &&& needle.len() > 0 && notes.contains(note) ==> forall|t: int|
                0 <= t < note.tags.len() && occurs_in_lower_case(
                    #[trigger] note.tags[t],
                    needle,
                ) ==> shown.contains(note)
            &&& shown.contains(note) ==> notes.contains(note)
            &&& needle.len() > 0 && shown.contains(note) ==> {
                ||| occurs_in_lower_case(note.title, needle)
                ||| occurs_in_lower_case(note.body, needle)
                ||| occurs_in_lower_case(
                    match note.project {
                        Some(p) => p,
                        None => Seq::empty(),
                    },
                    needle,
                )
                ||| exists|t: int|
                    0 <= t < note.tags.len() && occurs_in_lower_case(
                        #[trigger] note.tags[t],
                        needle,
                    )
            }
            &&& forall|j: int, k: int|
                0 <= j < k < shown.len() ==> (#[trigger] shown[j]).updated_at_ms >= (
                #[trigger] shown[k]).updated_at_ms
        }),
{
    let needle = lowercase(trim(query));
    let kept = holding(notes, needle);
    what_holding_keeps(notes, needle);
    notes_are_listed_newest_first(notes);
    notes_are_listed_newest_first(kept);
    assert(searched(notes, query) == if needle.len() == 0 {
        listed(notes)
    } else {
        listed(kept)
    });
    assert(needle.len() > 0 ==> (listed(kept).contains(note) <==> kept.contains(note)));
    occurring_is_being_contained(note.title, needle);
    occurring_is_being_contained(note.body, needle);
    occurring_is_being_contained(
        match note.project {
            Some(p) => p,
            None => Seq::empty(),
        },
        needle,
    );
    assert forall|t: int| 0 <= t < note.tags.len() implies (occurs_in_lower_case(
        #[trigger] note.tags[t],
        needle,
    ) <==> contains(lowercase(note.tags[t]), needle)) by {
        occurring_is_being_contained(note.tags[t], needle);
    }
}

/// A note is made of what was given for it: title, body and tags as they are,
/// the project unless it is blank, no links, and the present time as the time of
/// both its making and its last change. It goes to the end of the notes.
pub proof fn a_new_note_is_what_was_given(
    id: Seq<char>,
    now: u64,
    title: Seq<char>,
    body: Seq<char>,
    project: Option<Seq<char>>,
    tags: Option<Seq<Seq<char>>>,
)
    ensures
        ({
            let note = new_note(id, now, title, body, project, tags);
            &&& note.id == id
            &&& note.title == title
            &&& note.body == body
            &&& note.created_at_ms == now && note.updated_at_ms == now
            &&& note.linked_note_ids.len() == 0
            &&& tags is Some ==> note.tags == tags->Some_0
            &&& tags is None ==> note.tags.len() == 0
            &&& note.project is Some ==> project == note.project
            &&& note.project is Some <==> project is Some && exists|i: int|
                0 <= i < project->Some_0.len() && !is_whitespace(#[trigger] project->Some_0[i])
        }),
{
    match project {
        Some(p) => {
            trimmed_to_nothing(p);
        },
        None => {},
    }
}

/// A change changes what it names and nothing else: each of the title, the body,
/// the tags and the links is the given one if one is given, and else as it was;
/// a blank project takes the project away; the identifier and the time of making
/// stay; the time of the last change is the present.
pub proof fn a_change_changes_what_it_names(note: NoteView, changes: NoteChanges, now: u64)
    ensures
        ({
            let after = changed(note, changes, now);
            &&& after.id == note.id
            &&& after.created_at_ms == note.created_at_ms
            &&& after.updated_at_ms == now
            &&& changes.title is None ==> after.title == note.title
            &&& changes.title is Some ==> after.title == changes.title->Some_0@
            &&& changes.body is None ==> after.body == note.body
            &&& changes.body is Some ==> after.body == changes.body->Some_0@
            &&& changes.project is None ==> after.project == note.project
            &&& changes.project is Some && (forall|i: int|
                0 <= i < changes.project->Some_0@.len() ==> is_whitespace(
                    #[trigger] changes.project->Some_0@[i],
                )) ==> after.project is None
            &&& changes.project is Some && (exists|i: int|
                0 <= i < changes.project->Some_0@.len() && !is_whitespace(
                    #[trigger] changes.project->Some_0@[i],
                )) ==> after.project == Some(changes.project->Some_0@)
            &&& changes.tags is None ==> after.tags == note.tags
            &&& changes.tags is Some ==> after.tags == views(changes.tags->Some_0@)
            &&& changes.linked_note_ids is None ==> after.linked_note_ids == note.linked_note_ids
            &&& changes.linked_note_ids is Some ==> after.linked_note_ids == views(
                changes.linked_note_ids->Some_0@,
            )
        }),
{
    match changes.project {
        Some(p) => {
            trimmed_to_nothing(p@);
        },
        None => {},
    }
}

/// Deleting takes away the notes with the identifier and no others: the others
/// stay, in their order.
pub proof fn deleting_keeps_the_others(notes: Seq<NoteView>, id: Seq<char>)
    ensures
        without(notes, id) == notes.filter(|n: NoteView| n.id != id),
    decreases notes.len(),
{
    reveal(Seq::filter);
    if notes.len() > 0 {
        deleting_keeps_the_others(notes.drop_last(), id);
    }
}

/// What the contracts say of a value is said of its fields, each under its own name.
pub proof fn each_field_is_seen_as_it_is(note: Note)
    ensures
        note@.id == note.id@,
        note@.title == note.title@,
        note@.body == note.body@,
        note@.project == opt_view(note.project),
        note@.tags == views(note.tags@),
        note@.created_at_ms == note.created_at_ms,
        note@.updated_at_ms == note.updated_at_ms,
        note@.linked_note_ids == views(note.linked_note_ids@),
{
}

} // verus!
