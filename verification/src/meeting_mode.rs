//! Meetings: what is noted while one runs, what is asked for at its end, and
//! the history of those that have ended.
use vstd::prelude::*;
use vstd::string::*;

use crate::backend::{MeetingSummary, MeetingSummaryRequest, MeetingSummaryView, MeetingTurnIn};
use crate::ids::{new_id, serial_id};
use crate::json::opt_view;
use crate::newest_first::{
    listed_before, newest_first, order_by_time, positions, the_list_is_complete_and_ordered,
};
use crate::notes_mode::{unless_blank, without_blank};
use crate::text::{
    copy_strings, is_whitespace, same, trim, trimmed, trimmed_to_nothing, views,
};

verus! {

/// How an answer in a meeting is to be, as the user chose it.
#[derive(Debug, Clone)]
pub struct MeetingAskOptions {
    pub answer_length: String,
    pub response_style: String,
    pub humanization: String,
    pub meeting_title: Option<String>,
    pub participants: Option<String>,
    pub llm_provider: Option<String>,
}

impl Default for MeetingAskOptions {
    fn default() -> (r: MeetingAskOptions)
        ensures
            r.answer_length@ == "default"@,
            r.response_style@ == "natural"@,
            r.humanization@ == "natural"@,
            r.meeting_title is None,
            r.participants is None,
            r.llm_provider is None,
    {
        MeetingAskOptions {
            answer_length: "default".to_owned(),
            response_style: "natural".to_owned(),
            humanization: "natural".to_owned(),
            meeting_title: None,
            participants: None,
            llm_provider: None,
        }
    }
}

/// What is noted in a meeting.
#[derive(Debug, Clone, Copy, PartialEq, Eq, Structural)]
pub enum MeetingItemKind {
    KeyPoint,
    Decision,
    ActionItem,
}

/// What has been noted in a meeting.
#[derive(Debug)]
pub struct MeetingSession {
    key_points: Vec<String>,
    decisions: Vec<String>,
    action_items: Vec<String>,
}

/// The view of what has been noted.
pub struct MeetingSessionView {
    pub key_points: Seq<Seq<char>>,
    pub decisions: Seq<Seq<char>>,
    pub action_items: Seq<Seq<char>>,
}

/// Nothing has been noted.
pub open spec fn nothing_noted() -> MeetingSessionView {
    MeetingSessionView {
        key_points: Seq::empty(),
        decisions: Seq::empty(),
        action_items: Seq::empty(),
    }
}

impl MeetingSessionView {
    /// With another item noted.
    pub open spec fn with(self, kind: MeetingItemKind, text: Seq<char>) -> MeetingSessionView {
        match kind {
            MeetingItemKind::KeyPoint => MeetingSessionView {
                key_points: self.key_points.push(text),
                ..self
            },
            MeetingItemKind::Decision => MeetingSessionView {
                decisions: self.decisions.push(text),
                ..self
            },
            MeetingItemKind::ActionItem => MeetingSessionView {
                action_items: self.action_items.push(text),
                ..self
            },
        }
    }
}

/// Something that was said in a meeting, and by whom.
#[derive(Debug)]
pub struct MeetingTurnPayload {
    pub speaker: String,
    pub text: String,
}

/// The views of what was said.
pub open spec fn payload_views(turns: Seq<MeetingTurnPayload>) -> Seq<(Seq<char>, Seq<char>)> {
    turns.map_values(|t: MeetingTurnPayload| (t.speaker@, t.text@))
}

/// The views of what was said, as it is asked about.
pub open spec fn said_views(turns: Seq<MeetingTurnIn>) -> Seq<(Seq<char>, Seq<char>)> {
    turns.map_values(|t: MeetingTurnIn| (t.speaker@, t.text@))
}

impl MeetingSession {
    pub closed spec fn view(&self) -> MeetingSessionView {
        MeetingSessionView {
            key_points: views(self.key_points@),
            decisions: views(self.decisions@),
            action_items: views(self.action_items@),
        }
    }

    /// Notes an item, without the space around it.
    pub fn track_meeting_item(&mut self, kind: MeetingItemKind, text: &str) -> (r: Result<
        (),
        String,
    >)
        ensures
            if trim(text@).len() == 0 {
                &&& r matches Err(e) && e@ == "cannot track an empty item"@
                &&& final(self)@ == old(self)@
            } else {
                &&& r is Ok
                &&& final(self)@ == old(self)@.with(kind, trim(text@))
            },
    {
        let item: String = trimmed(text);
        if item.as_str().is_empty() {
            return Err("cannot track an empty item".to_owned());
        }
        let ghost shown = item@;
        match kind {
            MeetingItemKind::KeyPoint => {
                self.key_points.push(item);
                proof {
                    assert(self@.key_points =~= old(self)@.key_points.push(shown));
                }
            },
            MeetingItemKind::Decision => {
                self.decisions.push(item);
                proof {
                    assert(self@.decisions =~= old(self)@.decisions.push(shown));
                }
            },
            MeetingItemKind::ActionItem => {
                self.action_items.push(item);
                proof {
                    assert(self@.action_items =~= old(self)@.action_items.push(shown));
                }
            },
        }
        Ok(())
    }

    /// Forgets what has been noted.
    pub fn clear_meeting_session(&mut self)
        ensures
            final(self)@ == nothing_noted(),
    {
        *self = MeetingSession::default();
    }

    /// What is asked for at the end of a meeting: a summary of what was said,
    /// with what has been noted.
    pub fn end_meeting(
        &self,
        turns: &Vec<MeetingTurnPayload>,
        meeting_title: Option<String>,
        participants: Option<String>,
    ) -> (r: MeetingSummaryRequest)
        ensures
            said_views(r.turns@) == payload_views(turns@),
            views(r.key_points@) == self@.key_points,
            views(r.decisions@) == self@.decisions,
            views(r.action_items@) == self@.action_items,
            opt_view(r.meeting_title) == opt_view(meeting_title),
            opt_view(r.participants) == opt_view(participants),
    {
        let mut said: Vec<MeetingTurnIn> = Vec::new();
        let mut i: usize = 0;
        while i < turns.len()
            invariant
                i <= turns@.len(),
                said@.len() == i,
                forall|j: int|
                    0 <= j < i ==> (#[trigger] said@[j]).speaker@ == turns@[j].speaker@
                        && said@[j].text@ == turns@[j].text@,
            decreases turns@.len() - i,
        {
            said.push(
                MeetingTurnIn { speaker: turns[i].speaker.clone(), text: turns[i].text.clone() },
            );
            i += 1;
        }
        proof {
            assert(said_views(said@) =~= payload_views(turns@));
        }
        MeetingSummaryRequest {
            turns: said,
            key_points: copy_strings(&self.key_points),
            decisions: copy_strings(&self.decisions),
            action_items: copy_strings(&self.action_items),
            meeting_title,
            participants,
        }
    }
}

impl Default for MeetingSession {
    fn default() -> (r: MeetingSession)
        ensures
            r@ == nothing_noted(),
    {
        let r = MeetingSession {
            key_points: Vec::new(),
            decisions: Vec::new(),
            action_items: Vec::new(),
        };
        proof {
            let empty = Seq::<Seq<char>>::empty();
            assert(r@.key_points =~= empty);
            assert(r@.decisions =~= empty);
            assert(r@.action_items =~= empty);
        }
        r
    }
}

/// Something that was said in a meeting of the past.
#[derive(Debug, Clone)]
pub struct MeetingHistoryTurn {
    pub speaker: String,
    pub text: String,
}

/// The views of what was said in a meeting of the past.
pub open spec fn history_turn_views(turns: Seq<MeetingHistoryTurn>) -> Seq<
    (Seq<char>, Seq<char>),
> {
    turns.map_values(|t: MeetingHistoryTurn| (t.speaker@, t.text@))
}

/// A meeting of the past.
#[derive(Debug, Clone)]
pub struct MeetingHistoryEntry {
    pub id: String,
    pub started_at_ms: u64,
    pub ended_at_ms: u64,
    pub meeting_title: Option<String>,
    pub participants: Option<String>,
    pub turns: Vec<MeetingHistoryTurn>,
    pub summary: MeetingSummary,
}

/// The view of a meeting of the past.
pub struct MeetingView {
    pub id: Seq<char>,
    pub started_at_ms: u64,
    pub ended_at_ms: u64,
    pub meeting_title: Option<Seq<char>>,
    pub participants: Option<Seq<char>>,
    pub turns: Seq<(Seq<char>, Seq<char>)>,
    pub summary: MeetingSummaryView,
}

impl MeetingHistoryEntry {
    pub open spec fn view(&self) -> MeetingView {
        MeetingView {
            id: self.id@,
            started_at_ms: self.started_at_ms,
            ended_at_ms: self.ended_at_ms,
            meeting_title: opt_view(self.meeting_title),
            participants: opt_view(self.participants),
            turns: history_turn_views(self.turns@),
            summary: self.summary@,
        }
    }

    /// A meeting equal to this one.
    pub fn copy(&self) -> (r: MeetingHistoryEntry)
        ensures
            r@ == self@,
    {
        let mut turns: Vec<MeetingHistoryTurn> = Vec::new();
        let mut i: usize = 0;
        while i < self.turns.len()
            invariant
                i <= self.turns@.len(),
                turns@.len() == i,
                forall|j: int|
                    0 <= j < i ==> (#[trigger] turns@[j]).speaker@ == self.turns@[j].speaker@
                        && turns@[j].text@ == self.turns@[j].text@,
            decreases self.turns@.len() - i,
        {
            turns.push(
                MeetingHistoryTurn {
                    speaker: self.turns[i].speaker.clone(),
                    text: self.turns[i].text.clone(),
                },
            );
            i += 1;
        }
        proof {
            assert(history_turn_views(turns@) =~= history_turn_views(self.turns@));
        }
        MeetingHistoryEntry {
            id: self.id.clone(),
            started_at_ms: self.started_at_ms,
            ended_at_ms: self.ended_at_ms,
            meeting_title: self.meeting_title.clone(),
            participants: self.participants.clone(),
            turns,
            summary: MeetingSummary {
                summary: self.summary.summary.clone(),
                key_points: copy_strings(&self.summary.key_points),
                decisions: copy_strings(&self.summary.decisions),
                action_items: copy_strings(&self.summary.action_items),
                next_steps: copy_strings(&self.summary.next_steps),
                message: self.summary.message.clone(),
            },
        }
    }
}

/// The views of meetings of the past.
pub open spec fn meeting_views(entries: Seq<MeetingHistoryEntry>) -> Seq<MeetingView> {
    entries.map_values(|e: MeetingHistoryEntry| e@)
}

/// When meetings began.
pub open spec fn start_times(entries: Seq<MeetingView>) -> Seq<u64> {
    entries.map_values(|e: MeetingView| e.started_at_ms)
}

/// Meetings as they are listed: the one that began last first.
pub open spec fn listed(entries: Seq<MeetingView>) -> Seq<MeetingView> {
    newest_first(start_times(entries), entries.len()).map_values(|i: int| entries[i])
}

/// Meetings without those with an identifier.
pub open spec fn without(entries: Seq<MeetingView>, id: Seq<char>) -> Seq<MeetingView>
    decreases entries.len(),
{
    if entries.len() == 0 {
        Seq::empty()
    } else if entries.last().id == id {
        without(entries.drop_last(), id)
    } else {
        without(entries.drop_last(), id).push(entries.last())
    }
}

/// A meeting as it is kept.
pub open spec fn archived(
    id: Seq<char>,
    now: u64,
    started_at_ms: u64,
    meeting_title: Option<Seq<char>>,
    participants: Option<Seq<char>>,
    turns: Seq<(Seq<char>, Seq<char>)>,
    summary: MeetingSummaryView,
) -> MeetingView {
    MeetingView {
        id,
        started_at_ms,
        ended_at_ms: now,
        meeting_title: unless_blank(meeting_title),
        participants: unless_blank(participants),
        turns,
        summary,
    }
}

/// The meetings of the past, in the order in which they ended.
#[derive(Debug)]
pub struct MeetingHistoryStore {
    entries: Vec<MeetingHistoryEntry>,
}

impl MeetingHistoryStore {
    pub closed spec fn view(&self) -> Seq<MeetingView> {
        meeting_views(self.entries@)
    }

    /// Whether there are no meetings; then those on file are to be taken.
    pub fn is_empty(&self) -> (r: bool)
        ensures
            r == (self@.len() == 0),
    {
        self.entries.len() == 0
    }

    /// Takes the meetings on file, if there are none here.
    pub fn ensure_loaded(&mut self, on_file: Vec<MeetingHistoryEntry>)
        ensures
            final(self)@ == (if old(self)@.len() == 0 {
                meeting_views(on_file@)
            } else {
                old(self)@
            }),
    {
        if self.entries.len() == 0 {
            self.entries = on_file;
        }
    }

    /// The meetings, in the order in which they ended.
    pub fn entries(&self) -> (r: &Vec<MeetingHistoryEntry>)
        ensures
            meeting_views(r@) == self@,
    {
        &self.entries
    }

    /// The meetings, the one that began last first.
    pub fn list_meeting_history(&self) -> (r: Vec<MeetingHistoryEntry>)
        ensures
            meeting_views(r@) == listed(self@),
    {
        let ghost all = self@;
        let mut times: Vec<u64> = Vec::new();
        let mut i: usize = 0;
        while i < self.entries.len()
            invariant
                i <= self.entries@.len(),
                times@.len() == i,
                forall|j: int|
                    0 <= j < i ==> #[trigger] times@[j] == self.entries@[j].started_at_ms,
            decreases self.entries@.len() - i,
        {
            times.push(self.entries[i].started_at_ms);
            i += 1;
        }
        proof {
            assert(times@ =~= start_times(all));
        }
        let order: Vec<usize> = order_by_time(&times);
        let mut out: Vec<MeetingHistoryEntry> = Vec::new();
        let mut k: usize = 0;
        while k < order.len()
            invariant
                k <= order@.len(),
                out@.len() == k,
                order@.len() == self.entries@.len(),
                times@.len() == self.entries@.len(),
                forall|j: int| 0 <= j < order@.len() ==> #[trigger] order@[j] < times@.len(),
                forall|j: int|
                    0 <= j < k ==> (#[trigger] out@[j])@ == self.entries@[order@[j] as int]@,
            decreases order@.len() - k,
        {
            out.push(self.entries[order[k]].copy());
            k += 1;
        }
        proof {
            let ordered = newest_first(start_times(all), all.len());
            assert(positions(order@) == ordered);
            assert forall|j: int| 0 <= j < out@.len() implies #[trigger] meeting_views(out@)[j]
                == listed(all)[j] by {
                assert(ordered[j] == positions(order@)[j]);
                assert(positions(order@)[j] == order@[j]);
                assert(out@[j]@ == self.entries@[order@[j] as int]@);
            }
            assert(ordered.len() == positions(order@).len());
            assert(meeting_views(out@) =~= listed(all));
        }
        out
    }

    /// Keeps a meeting that has ended, unless nothing was said in it. `serial`
    /// is the number of meetings kept before it.
    pub fn archive_meeting(
        &mut self,
        now: u64,
        serial: u64,
        started_at_ms: u64,
        meeting_title: Option<String>,
        participants: Option<String>,
        turns: Vec<MeetingHistoryTurn>,
        summary: MeetingSummary,
    ) -> (r: Option<MeetingHistoryEntry>)
        ensures
            if turns@.len() == 0 {
                &&& r is None
                &&& final(self)@ == old(self)@
            } else {
                &&& r matches Some(e) && e@ == archived(
                    serial_id("meeting"@, now as nat, serial as nat),
                    now,
                    started_at_ms,
                    opt_view(meeting_title),
                    opt_view(participants),
                    history_turn_views(turns@),
                    summary@,
                )
                &&& final(self)@ == old(self)@.push(r->Some_0@)
            },
    {
        if turns.len() == 0 {
            return None;
        }
        let entry = MeetingHistoryEntry {
            id: new_id("meeting", now, serial),
            started_at_ms,
            ended_at_ms: now,
            meeting_title: without_blank(meeting_title),
            participants: without_blank(participants),
            turns,
            summary,
        };
        let r: MeetingHistoryEntry = entry.copy();
        self.entries.push(entry);
        proof {
            assert(self@ =~= old(self)@.push(r@));
        }
        Some(r)
    }

    /// Deletes the meeting with an identifier.
    pub fn delete_meeting_history_entry(&mut self, id: &str)
        ensures
            final(self)@ == without(old(self)@, id@),
    {
        let ghost all = self@;
        let mut kept: Vec<MeetingHistoryEntry> = Vec::new();
        let mut i: usize = 0;
        proof {
            assert(all.take(0) =~= Seq::empty());
            assert(meeting_views(kept@) =~= Seq::empty());
        }
        while i < self.entries.len()
            invariant
                i <= self.entries@.len(),
                all == meeting_views(self.entries@),
                meeting_views(kept@) == without(all.take(i as int), id@),
            decreases self.entries@.len() - i,
        {
            let ghost before = meeting_views(kept@);
            proof {
                assert(all.take(i as int + 1).drop_last() =~= all.take(i as int));
                assert(all.take(i as int + 1).last() == self.entries@[i as int]@);
            }
            if !same(self.entries[i].id.as_str(), id) {
                let entry: MeetingHistoryEntry = self.entries[i].copy();
                kept.push(entry);
                proof {
                    assert(meeting_views(kept@) =~= before.push(entry@));
                }
            }
            i += 1;
        }
        proof {
            assert(all.take(i as int) =~= all);
        }
        self.entries = kept;
    }
}

impl Default for MeetingHistoryStore {
    fn default() -> (r: MeetingHistoryStore)
        ensures
            r@ == Seq::<MeetingView>::empty(),
    {
        let r = MeetingHistoryStore { entries: Vec::new() };
        proof {
            assert(r@ =~= Seq::empty());
        }
        r
    }
}

/// A meeting that was deleted is no longer among those that are kept; the others
/// are, in their order.
pub proof fn a_deleted_meeting_is_gone(entries: Seq<MeetingView>, id: Seq<char>)
    ensures
        forall|i: int|
            0 <= i < without(entries, id).len() ==> (#[trigger] without(entries, id)[i]).id != id,
        without(entries, id) == entries.filter(|e: MeetingView| e.id != id),
    decreases entries.len(),
{
    reveal(Seq::filter);
    if entries.len() > 0 {
        a_deleted_meeting_is_gone(entries.drop_last(), id);
    }
}

/// What is noted in a meeting is kept under its kind, after what was noted
/// before, and the other kinds stay as they are.
pub proof fn what_is_noted_is_kept_under_its_kind(
    session: MeetingSessionView,
    kind: MeetingItemKind,
    text: Seq<char>,
)
    ensures
        ({
            let after = session.with(kind, text);
            &&& kind is KeyPoint <==> after.key_points == session.key_points.push(text)
            &&& kind is Decision <==> after.decisions == session.decisions.push(text)
            &&& kind is ActionItem <==> after.action_items == session.action_items.push(text)
            &&& !(kind is KeyPoint) ==> after.key_points == session.key_points
            &&& !(kind is Decision) ==> after.decisions == session.decisions
            &&& !(kind is ActionItem) ==> after.action_items == session.action_items
        }),
{
    assert(session.key_points.push(text).len() != session.key_points.len());
    assert(session.decisions.push(text).len() != session.decisions.len());
    assert(session.action_items.push(text).len() != session.action_items.len());
}

/// A list shows meetings newest first: every meeting once, no other, the one
/// begun last first, and those begun at one time in the order in which they were
/// kept. `order` says which meeting stands where.
pub open spec fn shows_newest_first(
    entries: Seq<MeetingView>,
    shown: Seq<MeetingView>,
    order: Seq<int>,
) -> bool {
    &&& shown.len() == entries.len()
    &&& order.len() == entries.len()
    &&& forall|k: int|
        0 <= k < order.len() ==> 0 <= #[trigger] order[k] < entries.len() && shown[k]
            == entries[order[k]]
    &&& forall|i: int| 0 <= i < entries.len() ==> #[trigger] order.contains(i)
    &&& forall|j: int, k: int|
        0 <= j < k < order.len() ==> {
            let a = entries[#[trigger] order[j]].started_at_ms;
            let b = entries[#[trigger] order[k]].started_at_ms;
            a > b || (a == b && order[j] < order[k])
        }
}

/// Meetings are listed newest first.
pub proof fn meetings_are_listed_newest_first(entries: Seq<MeetingView>)
    ensures
        exists|order: Seq<int>| shows_newest_first(entries, listed(entries), order),
        forall|j: int, k: int|
            0 <= j < k < listed(entries).len() ==> (#[trigger] listed(entries)[j]).started_at_ms
                >= (#[trigger] listed(entries)[k]).started_at_ms,
{
    let times = start_times(entries);
    let order = newest_first(times, entries.len());
    let shown = listed(entries);
    the_list_is_complete_and_ordered(times, entries.len());
    assert forall|j: int, k: int| 0 <= j < k < order.len() implies {
        let a = entries[#[trigger] order[j]].started_at_ms;
        let b = entries[#[trigger] order[k]].started_at_ms;
        a > b || (a == b && order[j] < order[k])
    } by {
        assert(listed_before(times, order[j], order[k]));
        assert(times[order[j]] == entries[order[j]].started_at_ms);
        assert(times[order[k]] == entries[order[k]].started_at_ms);
    }
    assert(shows_newest_first(entries, shown, order));
    assert forall|j: int, k: int| 0 <= j < k < shown.len() implies (
    #[trigger] shown[j]).started_at_ms >= (#[trigger] shown[k]).started_at_ms by {
        assert(shown[j] == entries[order[j]] && shown[k] == entries[order[k]]);
    }
}

/// A meeting is kept as it was: its beginning, the present as its end, its title
/// and who took part unless they are blank, every turn in order with who spoke,
/// and its summary.
pub proof fn a_meeting_is_kept_as_it_was(
    id: Seq<char>,
    now: u64,
    started_at_ms: u64,
    meeting_title: Option<Seq<char>>,
    participants: Option<Seq<char>>,
    turns: Seq<(Seq<char>, Seq<char>)>,
    summary: MeetingSummaryView,
)
    ensures
        ({
            let kept = archived(
                id,
                now,
                started_at_ms,
                meeting_title,
                participants,
                turns,
                summary,
            );
            &&& kept.id == id
            &&& kept.started_at_ms == started_at_ms
            &&& kept.ended_at_ms == now
            &&& kept.turns == turns
            &&& kept.summary == summary
            &&& kept.meeting_title is Some ==> kept.meeting_title == meeting_title
            &&& kept.participants is Some ==> kept.participants == participants
            &&& kept.meeting_title is None <==> meeting_title is None || forall|i: int|
                0 <= i < meeting_title->Some_0.len() ==> is_whitespace(
                    #[trigger] meeting_title->Some_0[i],
                )
            &&& kept.participants is None <==> participants is None || forall|i: int|
                0 <= i < participants->Some_0.len() ==> is_whitespace(
                    #[trigger] participants->Some_0[i],
                )
        }),
{
    match meeting_title {
        Some(t) => {
            trimmed_to_nothing(t);
        },
        None => {},
    }
    match participants {
        Some(t) => {
            trimmed_to_nothing(t);
        },
        None => {},
    }
}

/// What the contracts say of a value is said of its fields, each under its own name.
pub proof fn each_field_is_seen_as_it_is(meeting: MeetingHistoryEntry)
    ensures
        meeting@.id == meeting.id@,
        meeting@.started_at_ms == meeting.started_at_ms,
        meeting@.ended_at_ms == meeting.ended_at_ms,
        meeting@.meeting_title == opt_view(meeting.meeting_title),
        meeting@.participants == opt_view(meeting.participants),
        meeting@.turns == history_turn_views(meeting.turns@),
        meeting@.summary == meeting.summary@,
{
}

} // verus!
