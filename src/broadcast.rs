use vstd::prelude::*;

use crate::event::{
    connect_notice, disconnect_notice, format_connect, format_disconnect, format_text, subject,
    text_line, Event,
};
use crate::names::{lemma_others_of, lemma_others_of_absent, others_of};
use crate::registry::Registry;

verus! {

/// What the actor owes the outside world after one event: write `line` to each
/// of `recipients`, in order, and flush and shut down `closed` if there is one.
pub struct Broadcast<H> {
    pub recipients: Vec<String>,
    pub line: String,
    pub closed: Option<H>,
}

/// The nicknames after the actor has handled `e`.
pub open spec fn names_after(names: Seq<Seq<char>>, e: Event) -> Seq<Seq<char>> {
    match e {
        Event::Disconnect { nickname } => others_of(names, nickname@),
        _ => names,
    }
}

/// Those that the actor writes to for `e`, given the nicknames before it.
pub open spec fn recipients_of(names: Seq<Seq<char>>, e: Event) -> Seq<Seq<char>> {
    match e {
        Event::Disconnect { nickname } => if names.contains(nickname@) {
            others_of(names, nickname@)
        } else {
            Seq::empty()
        },
        _ => others_of(names, subject(e)),
    }
}

/// The line that the actor writes for `e`.
pub open spec fn line_of(e: Event) -> Seq<char> {
    match e {
        Event::Connect { nickname, peer } => connect_notice(nickname@, peer@),
        Event::Disconnect { nickname } => disconnect_notice(nickname@),
        Event::Text { nickname, line } => text_line(nickname@, line@),
    }
}

/// The nicknames after a run of events, handled one after the other.
pub open spec fn names_after_all(names: Seq<Seq<char>>, events: Seq<Event>) -> Seq<Seq<char>>
    decreases events.len(),
{
    if events.len() == 0 {
        names
    } else {
        names_after(names_after_all(names, events.drop_last()), events.last())
    }
}

/// The recipients whose write failed, in order; `delivered[i]` tells how the
/// write to `recipients[i]` went.
pub open spec fn failed_of(recipients: Seq<Seq<char>>, delivered: Seq<bool>) -> Seq<Seq<char>>
    decreases recipients.len(),
{
    if recipients.len() == 0 || delivered.len() != recipients.len() {
        Seq::empty()
    } else {
        let init = failed_of(recipients.drop_last(), delivered.drop_last());
        if delivered.last() {
            init
        } else {
            init.push(recipients.last())
        }
    }
}

/// A run of disconnects, one for each nickname, in order.
pub open spec fn are_disconnects(events: Seq<Event>, nicknames: Seq<Seq<char>>) -> bool {
    &&& events.len() == nicknames.len()
    &&& forall|i: int| 0 <= i < events.len() ==> (#[trigger] events[i]) is Disconnect && subject(events[i]) == nicknames[i]
}

/// After a fan-out, turns each recipient whose write failed into a disconnect
/// of that recipient, to be handled next; the others are left alone.
pub fn failed_recipients(recipients: &Vec<String>, delivered: &Vec<bool>) -> (r: Vec<Event>)
    requires
        recipients@.len() == delivered@.len(),
    ensures
        are_disconnects(r@, failed_of(recipients@.map_values(|s: String| s@), delivered@)),
{
    let ghost names = recipients@.map_values(|s: String| s@);
    let mut out: Vec<Event> = Vec::new();
    let mut i: usize = 0;
    while i < recipients.len()
        invariant
            i <= recipients@.len(),
            recipients@.len() == delivered@.len(),
            names == recipients@.map_values(|s: String| s@),
            are_disconnects(out@, failed_of(names.take(i as int), delivered@.take(i as int))),
        decreases recipients@.len() - i,
    {
        proof {
            assert(names.take(i as int + 1).drop_last() =~= names.take(i as int));
            assert(delivered@.take(i as int + 1).drop_last() =~= delivered@.take(i as int));
        }
        if !delivered[i] {
            out.push(Event::Disconnect { nickname: recipients[i].clone() });
        }
        i = i + 1;
    }
    proof {
        assert(names.take(i as int) =~= names);
        assert(delivered@.take(i as int) =~= delivered@);
    }
    out
}

impl<H> Registry<H> {
    /// Handles one event to completion: a disconnect takes its session out,
    /// and every event but a disconnect of an absent session yields one line
    /// for every other live session.
    pub fn apply(&mut self, event: &Event) -> (r: Broadcast<H>)
        requires
            old(self).wf(),
        ensures
            final(self).wf(),
            final(self).names() == names_after(old(self).names(), *event),
            r.recipients@.map_values(|s: String| s@) == recipients_of(old(self).names(), *event),
            r.line@ == line_of(*event),
            r.closed is Some <==> (event is Disconnect && old(self).has(subject(*event))),
            r.closed matches Some(h) ==> old(self).holds(subject(*event), h),
            r.closed is None ==> final(self).handles() == old(self).handles(),
    {
        match event {
            Event::Connect { nickname, peer } => {
                Broadcast { recipients: self.others(nickname), line: format_connect(nickname, peer), closed: None }
            },
            Event::Text { nickname, line } => {
                Broadcast { recipients: self.others(nickname), line: format_text(nickname, line), closed: None }
            },
            Event::Disconnect { nickname } => {
                let closed = self.remove(nickname);
                let line = format_disconnect(nickname);
                if closed.is_some() {
                    proof {
                        lemma_others_of(old(self).names(), nickname@);
                        lemma_others_of_absent(self.names(), nickname@);
                    }
                    Broadcast { recipients: self.others(nickname), line, closed }
                } else {
                    let recipients: Vec<String> = Vec::new();
                    proof {
                        assert(recipients@.map_values(|s: String| s@) =~= Seq::<Seq<char>>::empty());
                    }
                    Broadcast { recipients, line, closed }
                }
            },
        }
    }
}

} // verus!
