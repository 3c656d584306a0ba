use vstd::prelude::*;

use crate::broadcast::{are_disconnects, failed_of, line_of, names_after, names_after_all, recipients_of};
use crate::event::{subject, text_line, Event};
use crate::names::{lemma_others_of, others_of, reserved};

verus! {

/// However many connect, text and disconnect events the actor handles, no
/// nickname is ever held by two sessions at once.
pub proof fn lemma_events_keep_nicknames_unique(names: Seq<Seq<char>>, events: Seq<Event>)
    requires
        names.no_duplicates(),
    ensures
        names_after_all(names, events).no_duplicates(),
    decreases events.len(),
{
    if events.len() > 0 {
        lemma_events_keep_nicknames_unique(names, events.drop_last());
        lemma_others_of(names_after_all(names, events.drop_last()), subject(events.last()));
    }
}

/// A line of text goes, as it was sent, to every live session but its sender,
/// and never back to the sender.
pub proof fn lemma_text_reaches_all_but_sender(names: Seq<Seq<char>>, e: Event)
    requires
        e is Text,
    ensures
        !recipients_of(names, e).contains(subject(e)),
        forall|m: Seq<char>| names.contains(m) && m != subject(e) ==> #[trigger] recipients_of(names, e).contains(m),
        forall|m: Seq<char>| #[trigger] recipients_of(names, e).contains(m) ==> names.contains(m),
        e matches Event::Text { nickname, line } && line_of(e) == text_line(nickname@, line@),
        names_after(names, e) == names,
{
    lemma_others_of(names, subject(e));
}

/// Once a disconnect of a nickname has been handled, the nickname is free:
/// reserving it again succeeds.
pub proof fn lemma_disconnect_frees_nickname(names: Seq<Seq<char>>, e: Event)
    requires
        e is Disconnect,
    ensures
        !names_after(names, e).contains(subject(e)),
        reserved(names_after(names, e), subject(e)) == names_after(names, e).push(subject(e)),
{
    lemma_others_of(names, subject(e));
}

/// Of two reservations of one free nickname, whichever comes first succeeds
/// and the other fails.
pub proof fn lemma_reservation_exclusive(names: Seq<Seq<char>>, n: Seq<char>)
    requires
        !names.contains(n),
    ensures
        reserved(names, n) == names.push(n),
        reserved(names, n).contains(n),
        reserved(reserved(names, n), n) == reserved(names, n),
{
    assert(names.push(n)[names.len() as int] == n);
}

/// Where a write failed, and only there: `failed_of` lists a recipient exactly
/// when some write to it failed.
pub proof fn lemma_failed_of(recipients: Seq<Seq<char>>, delivered: Seq<bool>)
    requires
        recipients.len() == delivered.len(),
    ensures
        forall|m: Seq<char>| #[trigger] failed_of(recipients, delivered).contains(m) <==> exists|i: int|
            0 <= i < recipients.len() && !delivered[i] && recipients[i] == m,
    decreases recipients.len(),
{
    let f = failed_of(recipients, delivered);
    if recipients.len() > 0 {
        let ri = recipients.drop_last();
        let di = delivered.drop_last();
        lemma_failed_of(ri, di);
        let fi = failed_of(ri, di);
        let last = recipients.len() - 1;
        assert forall|m: Seq<char>| #[trigger] f.contains(m) <==> exists|i: int|
            0 <= i < recipients.len() && !delivered[i] && recipients[i] == m by {
            if f.contains(m) {
                if fi.contains(m) {
                    let i = choose|i: int| 0 <= i < ri.len() && !di[i] && ri[i] == m;
                    assert(!delivered[i] && recipients[i] == m);
                } else {
                    let k = choose|k: int| 0 <= k < f.len() && f[k] == m;
                    if k < fi.len() {
                        assert(fi[k] == m);
                    }
                    assert(!delivered[last] && recipients[last] == m);
                }
            }
            if exists|i: int| 0 <= i < recipients.len() && !delivered[i] && recipients[i] == m {
                let i = choose|i: int| 0 <= i < recipients.len() && !delivered[i] && recipients[i] == m;
                if i < last {
                    assert(!di[i] && ri[i] == m);
                    assert(fi.contains(m));
                    let k = choose|k: int| 0 <= k < fi.len() && fi[k] == m;
                    assert(f[k] == m);
                } else {
                    assert(f[f.len() - 1] == m);
                }
            }
        }
    } else {
        assert forall|m: Seq<char>| #[trigger] f.contains(m) <==> exists|i: int|
            0 <= i < recipients.len() && !delivered[i] && recipients[i] == m by {}
    }
}

/// Handling a run of disconnects takes out exactly the nicknames they name.
pub proof fn lemma_disconnects_remove_exactly(names: Seq<Seq<char>>, events: Seq<Event>, gone: Seq<Seq<char>>)
    requires
        are_disconnects(events, gone),
    ensures
        forall|m: Seq<char>| #[trigger] names_after_all(names, events).contains(m) <==> names.contains(m)
            && !gone.contains(m),
    decreases events.len(),
{
    if events.len() > 0 {
        let ei = events.drop_last();
        let gi = gone.drop_last();
        assert(are_disconnects(ei, gi)) by {
            assert forall|i: int| 0 <= i < ei.len() implies (#[trigger] ei[i]) is Disconnect && subject(ei[i]) == gi[i] by {
                assert(ei[i] == events[i]);
            }
        }
        lemma_disconnects_remove_exactly(names, ei, gi);
        let before = names_after_all(names, ei);
        let n = subject(events.last());
        assert(events.last() == events[events.len() - 1]);
        lemma_others_of(before, n);
        assert(names_after_all(names, events) == others_of(before, n));
        assert(gone =~= gi.push(n));
        assert forall|m: Seq<char>| #[trigger] names_after_all(names, events).contains(m) <==> names.contains(m)
            && !gone.contains(m) by {
            if gone.contains(m) && m != n {
                let k = choose|k: int| 0 <= k < gone.len() && gone[k] == m;
                assert(gi[k] == m);
            }
            if gi.contains(m) {
                let k = choose|k: int| 0 <= k < gi.len() && gi[k] == m;
                assert(gone[k] == m);
            }
            if m == n {
                assert(gone[gone.len() - 1] == m);
            }
        }
    }
}

/// A failed write to one recipient keeps no other from the line: every
/// recipient is written to, those whose write failed are dropped as though
/// they had disconnected, and every other session stays live.
pub proof fn lemma_failed_write_drops_only_that_recipient(
    names: Seq<Seq<char>>,
    e: Event,
    delivered: Seq<bool>,
    drops: Seq<Event>,
)
    requires
        names.no_duplicates(),
        !(e is Disconnect),
        delivered.len() == recipients_of(names, e).len(),
        are_disconnects(drops, failed_of(recipients_of(names, e), delivered)),
    ensures
        forall|i: int| 0 <= i < delivered.len() && delivered[i] ==> #[trigger] names_after_all(names, drops).contains(
            recipients_of(names, e)[i],
        ),
        forall|i: int| 0 <= i < delivered.len() && !delivered[i] ==> !#[trigger] names_after_all(names, drops).contains(
            recipients_of(names, e)[i],
        ),
        names_after_all(names, drops).contains(subject(e)) == names.contains(subject(e)),
{
    let rs = recipients_of(names, e);
    let failed = failed_of(rs, delivered);
    lemma_others_of(names, subject(e));
    lemma_failed_of(rs, delivered);
    lemma_disconnects_remove_exactly(names, drops, failed);
    assert forall|i: int| 0 <= i < delivered.len() && delivered[i] implies #[trigger] names_after_all(names, drops).contains(
        rs[i],
    ) by {
        assert(rs.contains(rs[i]));
        if failed.contains(rs[i]) {
            let j = choose|j: int| 0 <= j < rs.len() && !delivered[j] && rs[j] == rs[i];
            assert(i != j);
        }
    }
    assert forall|i: int| 0 <= i < delivered.len() && !delivered[i] implies !#[trigger] names_after_all(names, drops).contains(
        rs[i],
    ) by {
        assert(failed.contains(rs[i]));
    }
    if failed.contains(subject(e)) {
        let j = choose|j: int| 0 <= j < rs.len() && !delivered[j] && rs[j] == subject(e);
        assert(rs.contains(subject(e)));
    }
}

} // verus!
