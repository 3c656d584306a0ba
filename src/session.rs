use vstd::prelude::*;
use vstd::string::*;

use crate::event::Event;

verus! {

/// What a session reader does with what one read gave it.
pub enum ReaderStep {
    /// Hand the event to the actor and read on.
    Forward(Event),
    /// Nothing to send; read on.
    Skip,
    /// Hand the event to the actor and stop reading.
    Finish(Event),
}

/// The line with which a client ends its session.
pub open spec fn disconnect_command() -> Seq<char> {
    "disconnect\n"@
}

/// Whether the outcome of one read ends the session: `None` for a failed read,
/// `Some(line)` for the line read, which is empty at end of stream.
pub open spec fn ends_session(read: Option<Seq<char>>) -> bool {
    match read {
        None => true,
        Some(line) => line.len() == 0 || line == disconnect_command(),
    }
}

/// The outcome of a read over plain sequences.
pub open spec fn read_view(read: Option<String>) -> Option<Seq<char>> {
    match read {
        None => None,
        Some(l) => Some(l@),
    }
}

/// Whether a line is worth sending on: it holds more than its newline.
pub open spec fn carries_text(line: Seq<char>) -> bool {
    line.len() > 1
}

/// Decides what a session reader does after one read.
pub fn read_step(nickname: &String, read: Option<String>) -> (r: ReaderStep)
    ensures
        ends_session(read_view(read)) ==> (r matches ReaderStep::Finish(
            Event::Disconnect { nickname: n },
        ) && n@ == nickname@),
        !ends_session(read_view(read)) && carries_text(read.unwrap()@) ==> (r matches ReaderStep::Forward(
            Event::Text { nickname: n, line },
        ) && n@ == nickname@ && line@ == read.unwrap()@),
        !ends_session(read_view(read)) && !carries_text(read.unwrap()@) ==> r is Skip,
{
    match read {
        None => ReaderStep::Finish(Event::Disconnect { nickname: nickname.clone() }),
        Some(line) => {
            let command = String::from_str("disconnect\n");
            if line.as_str().is_empty() || line == command {
                ReaderStep::Finish(Event::Disconnect { nickname: nickname.clone() })
            } else if line.as_str().unicode_len() > 1 {
                ReaderStep::Forward(Event::Text { nickname: nickname.clone(), line })
            } else {
                ReaderStep::Skip
            }
        },
    }
}

} // verus!
