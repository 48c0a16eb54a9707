//! Updates: what a check of a source finds, how a list of them is put in
//! order of publication, and the sentence that sums such a list up.

use crate::text::{decimal, decimal_text, span, Span, Tint};
use crate::time::{written, zone_offset, DatePattern, Timestamp};
use vstd::prelude::*;
use vstd::string::StringExecFns;

verus! {

/// An update from a source.
#[derive(Debug, PartialEq, Eq)]
pub struct SourceUpdate {
    /// The title of the update.
    pub title: String,
    /// An absolute link to the update.
    pub link: String,
    /// When the update was published.
    pub published_date: Timestamp,
}

/// An update as the contracts speak of it: its texts as sequences of characters.
pub struct UpdateView {
    pub title: Seq<char>,
    pub link: Seq<char>,
    pub published_date: Timestamp,
}

impl View for SourceUpdate {
    type V = UpdateView;

    open spec fn view(&self) -> UpdateView {
        UpdateView { title: self.title@, link: self.link@, published_date: self.published_date }
    }
}

impl Clone for SourceUpdate {
    fn clone(&self) -> (copy: Self)
        ensures
            copy == *self,
    {
        SourceUpdate {
            title: self.title.clone(),
            link: self.link.clone(),
            published_date: self.published_date,
        }
    }
}

/// The updates of a list, each as the contracts speak of it.
pub open spec fn update_views(updates: Seq<SourceUpdate>) -> Seq<UpdateView> {
    Seq::new(updates.len(), |i: int| updates[i]@)
}

/// Whether each update of the list was published no later than those after it.
pub open spec fn ascending(updates: Seq<UpdateView>) -> bool {
    forall|i: int, j: int|
        0 <= i <= j < updates.len() ==> (#[trigger] updates[i]).published_date.at_or_before(
            (#[trigger] updates[j]).published_date,
        )
}

/// Where an update published at `date` goes into the ordered list `sorted`:
/// behind every update that was not published after it.
pub open spec fn slot(sorted: Seq<UpdateView>, date: Timestamp) -> int
    decreases sorted.len(),
{
    if sorted.len() > 0 && date.before(sorted.last().published_date) {
        slot(sorted.drop_last(), date)
    } else {
        sorted.len() as int
    }
}

/// The list in order of publication, earliest first. Updates that were
/// published at the same instant keep the order they had.
pub open spec fn sorted_by_date(updates: Seq<UpdateView>) -> Seq<UpdateView>
    decreases updates.len(),
{
    if updates.len() == 0 {
        updates
    } else {
        let sorted = sorted_by_date(updates.drop_last());
        sorted.insert(slot(sorted, updates.last().published_date), updates.last())
    }
}

/// How the sentence names the number of updates.
pub open spec fn count_phrase(count: nat) -> Seq<char> {
    if count == 1 {
        "has been 1 update"@
    } else {
        "have been "@ + decimal(count) + " updates"@
    }
}

/// How the sentence refers to the update it describes.
pub open spec fn pronoun(count: nat) -> Seq<char> {
    if count == 1 {
        "it"@
    } else {
        "the earliest"@
    }
}

/// The sentence up to the link: how many updates there are, and title and
/// date of publication of the one that is described.
pub open spec fn message_lead(count: nat, title: Seq<char>, released: Seq<char>) -> Seq<char> {
    "There "@ + count_phrase(count) + ", "@ + pronoun(count) + " was \""@ + title
        + "\" released on "@ + released + ", found here: "@
}

/// How the date of publication of an update is written for a time zone that
/// lies `offset` seconds ahead of Greenwich.
pub open spec fn release_text(date: Timestamp, offset: int) -> Seq<char> {
    written(date@.0, date@.1, offset, DatePattern::Release.notation())
}

/// The sentence that sums up `count` updates by the one with the given title,
/// date of publication and link. On a terminal the link is bright blue.
pub open spec fn message_line(
    count: nat,
    title: Seq<char>,
    released: Seq<char>,
    link: Seq<char>,
    tty: bool,
) -> Seq<(Seq<char>, Tint)> {
    seq![
        (message_lead(count, title, released), Tint::Plain),
        (
            link,
            if tty {
                Tint::BrightBlue
            } else {
                Tint::Plain
            },
        ),
    ]
}

/// Every update before the slot was published no later than `date`, and in an
/// ordered list every update from the slot on was published after it.
proof fn lemma_slot_divides(sorted: Seq<UpdateView>, date: Timestamp)
    requires
        ascending(sorted),
    ensures
        0 <= slot(sorted, date) <= sorted.len(),
        forall|i: int|
            0 <= i < slot(sorted, date) ==> (#[trigger] sorted[i]).published_date.at_or_before(date),
        forall|i: int|
            slot(sorted, date) <= i < sorted.len() ==> date.before(
                (#[trigger] sorted[i]).published_date,
            ),
    decreases sorted.len(),
{
    if sorted.len() > 0 && date.before(sorted.last().published_date) {
        let shorter = sorted.drop_last();
        lemma_slot_divides(shorter, date);
        assert forall|i: int| 0 <= i < slot(sorted, date) implies (
        #[trigger] sorted[i]).published_date.at_or_before(date) by {
            assert(sorted[i] == shorter[i]);
        }
        assert forall|i: int| slot(sorted, date) <= i < sorted.len() implies date.before(
            (#[trigger] sorted[i]).published_date,
        ) by {
            if i < shorter.len() {
                assert(sorted[i] == shorter[i]);
            }
        }
    }
}

/// The list in order of publication is in ascending order, and holds the
/// updates of the list it was made from, each as often as that list does.
pub proof fn lemma_sorted_is_ascending_permutation(updates: Seq<UpdateView>)
    ensures
        ascending(sorted_by_date(updates)),
        sorted_by_date(updates).len() == updates.len(),
        sorted_by_date(updates).to_multiset() == updates.to_multiset(),
    decreases updates.len(),
{
    broadcast use vstd::seq_lib::group_to_multiset_ensures;

    if updates.len() > 0 {
        let shorter = updates.drop_last();
        let last = updates.last();
        lemma_sorted_is_ascending_permutation(shorter);
        let sorted = sorted_by_date(shorter);
        lemma_slot_divides(sorted, last.published_date);
        assert(updates =~= shorter.push(last));
    }
}

/// In a list in ascending order no update was published before the first.
pub proof fn lemma_first_is_earliest(updates: Seq<UpdateView>)
    requires
        ascending(updates),
    ensures
        forall|j: int|
            0 <= j < updates.len() ==> updates[0].published_date.at_or_before(
                (#[trigger] updates[j]).published_date,
            ),
{
}

/// A list that is in ascending order already is left as it is.
pub proof fn lemma_sorted_keeps_ascending(updates: Seq<UpdateView>)
    requires
        ascending(updates),
    ensures
        sorted_by_date(updates) == updates,
    decreases updates.len(),
{
    if updates.len() > 0 {
        let shorter = updates.drop_last();
        lemma_sorted_keeps_ascending(shorter);
    }
}

/// The list in order of publication, earliest first. Updates that were
/// published at the same instant keep the order they had.
pub fn sort_by_date(updates: Vec<SourceUpdate>) -> (sorted: Vec<SourceUpdate>)
    ensures
        update_views(sorted@) == sorted_by_date(update_views(updates@)),
        ascending(update_views(sorted@)),
        sorted@.len() == updates@.len(),
{
    let mut sorted: Vec<SourceUpdate> = Vec::new();
    let mut i: usize = 0;
    while i < updates.len()
        invariant
            i <= updates.len(),
            update_views(sorted@) == sorted_by_date(update_views(updates@).take(i as int)),
        decreases updates.len() - i,
    {
        let update = updates[i].clone();
        let ghost before = update_views(sorted@);
        let mut at: usize = sorted.len();
        proof {
            assert(before.take(at as int) =~= before);
        }
        while at > 0 && update.published_date.is_before(&sorted[at - 1].published_date)
            invariant
                at <= sorted.len(),
                before == update_views(sorted@),
                slot(before, update.published_date) == slot(
                    before.take(at as int),
                    update.published_date,
                ),
            decreases at,
        {
            proof {
                assert(before.take(at as int).drop_last() =~= before.take(at - 1));
            }
            at -= 1;
        }
        proof {
            let seen = update_views(updates@).take(i + 1);
            assert(seen.drop_last() =~= update_views(updates@).take(i as int));
        }
        sorted.insert(at, update);
        i += 1;
    }
    proof {
        assert(update_views(updates@).take(i as int) =~= update_views(updates@));
        lemma_sorted_is_ascending_permutation(update_views(updates@));
    }
    sorted
}

/// The sentence that sums up `count` updates by the one with the given title,
/// date of publication and link. On a terminal the link is bright blue.
pub fn compose_message(count: usize, title: &str, released: &str, link: &str, tty: bool) -> (line:
    Vec<Span>)
    ensures
        crate::text::line_view(line@) == message_line(count as nat, title@, released@, link@, tty),
{
    let mut lead = "There ".to_owned();
    if count == 1 {
        lead.append("has been 1 update");
    } else {
        lead.append("have been ");
        lead.append(decimal_text(count as u64).as_str());
        lead.append(" updates");
    }
    lead.append(", ");
    if count == 1 {
        lead.append("it");
    } else {
        lead.append("the earliest");
    }
    lead.append(" was \"");
    lead.append(title);
    lead.append("\" released on ");
    lead.append(released);
    lead.append(", found here: ");
    let tint = if tty {
        Tint::BrightBlue
    } else {
        Tint::Plain
    };
    let mut line: Vec<Span> = Vec::new();
    line.push(span(lead.as_str(), Tint::Plain));
    line.push(span(link, tint));
    proof {
        assert(lead@ =~= message_lead(count as nat, title@, released@));
    }
    line
}

impl SourceUpdate {
    /// The sentence that sums up a list of updates by its first, which in a
    /// list in order of publication is the earliest. The date is written in
    /// the machine's local time; how far that lies ahead of Greenwich depends
    /// on the machine, so the contract leaves that open.
    pub fn message(updates: &Vec<SourceUpdate>, tty: bool) -> (line: Vec<Span>)
        requires
            updates.len() > 0,
        ensures
            exists|offset: int|
                zone_offset(offset) && crate::text::line_view(line@) == #[trigger] message_line(
                    updates.len() as nat,
                    updates[0].title@,
                    release_text(updates[0].published_date, offset),
                    updates[0].link@,
                    tty,
                ),
    {
        let first = &updates[0];
        let released = first.published_date.local_text(DatePattern::Release);
        let line = compose_message(
            updates.len(),
            first.title.as_str(),
            released.as_str(),
            first.link.as_str(),
            tty,
        );
        proof {
            let offset = choose|offset: int|
                zone_offset(offset) && released@ == #[trigger] written(
                    first.published_date@.0,
                    first.published_date@.1,
                    offset,
                    DatePattern::Release.notation(),
                );
            assert(crate::text::line_view(line@) == message_line(
                updates.len() as nat,
                updates[0].title@,
                release_text(updates[0].published_date, offset),
                updates[0].link@,
                tty,
            ));
        }
        line
    }

    /// The sentence that sums up what a check found, where it found
    /// anything: see `message`.
    pub fn summary(updates: &Vec<SourceUpdate>, tty: bool) -> (line: Option<Vec<Span>>)
        ensures
            updates.len() == 0 ==> line is None,
            updates.len() > 0 ==> line is Some && exists|offset: int|
                zone_offset(offset) && crate::text::line_view(line->0@) == #[trigger] message_line(
                    updates.len() as nat,
                    updates[0].title@,
                    release_text(updates[0].published_date, offset),
                    updates[0].link@,
                    tty,
                ),
    {
        if updates.len() == 0 {
            None
        } else {
            Some(SourceUpdate::message(updates, tty))
        }
    }
}

} // verus!
