use vstd::prelude::*;
use vstd::string::*;

verus! {

/// What a session reader or the accept loop tells the broadcast actor.
pub enum Event {
    /// A session joined; `peer` is the printed form of its address.
    Connect { nickname: String, peer: String },
    /// A session ended, or is to be dropped.
    Disconnect { nickname: String },
    /// A line of chat, with its trailing newline.
    Text { nickname: String, line: String },
}

/// The nickname that an event is about.
pub open spec fn subject(e: Event) -> Seq<char> {
    match e {
        Event::Connect { nickname, .. } => nickname@,
        Event::Disconnect { nickname } => nickname@,
        Event::Text { nickname, .. } => nickname@,
    }
}

pub open spec fn connect_notice(nickname: Seq<char>, peer: Seq<char>) -> Seq<char> {
    "User "@ + nickname + " connected from ip: "@ + peer + "!\n"@
}

pub open spec fn disconnect_notice(nickname: Seq<char>) -> Seq<char> {
    "User "@ + nickname + " disconnected.\n"@
}

pub open spec fn text_line(nickname: Seq<char>, line: Seq<char>) -> Seq<char> {
    nickname + ": "@ + line
}

impl Event {
    pub fn nickname(&self) -> (r: &String)
        ensures
            r@ == subject(*self),
    {
        match self {
            Event::Connect { nickname, .. } => nickname,
            Event::Disconnect { nickname } => nickname,
            Event::Text { nickname, .. } => nickname,
        }
    }
}

/// `"User {nickname} connected from ip: {peer}!\n"`
pub fn format_connect(nickname: &String, peer: &String) -> (r: String)
    ensures
        r@ == connect_notice(nickname@, peer@),
{
    let mut s = String::from_str("User ");
    s.append(nickname.as_str());
    s.append(" connected from ip: ");
    s.append(peer.as_str());
    s.append("!\n");
    s
}

/// `"User {nickname} disconnected.\n"`
pub fn format_disconnect(nickname: &String) -> (r: String)
    ensures
        r@ == disconnect_notice(nickname@),
{
    let mut s = String::from_str("User ");
    s.append(nickname.as_str());
    s.append(" disconnected.\n");
    s
}

/// `"{nickname}: {line}"`; the line keeps its own newline.
pub fn format_text(nickname: &String, line: &String) -> (r: String)
    ensures
        r@ == text_line(nickname@, line@),
{
    let mut s = nickname.clone();
    s.append(": ");
    s.append(line.as_str());
    s
}

} // verus!
