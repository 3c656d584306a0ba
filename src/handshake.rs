use vstd::prelude::*;
use vstd::string::*;

use crate::event::Event;
use crate::names::reserved;
use crate::registry::Registry;

verus! {

/// The status byte with which the server accepts a nickname.
pub const STATUS_OK: u8 = 0x01;

/// The status byte with which the server refuses a nickname.
pub const STATUS_ERR: u8 = 0xFF;

/// The server's answer to a nickname: a status byte, and after a refusal a
/// newline-terminated message.
pub struct Reply {
    pub status: u8,
    pub message: Option<String>,
}

pub open spec fn taken_message() -> Seq<char> {
    "Nickname already taken!\n"@
}

/// A line without its trailing newline, if it has one.
pub open spec fn strip_newline(line: Seq<char>) -> Seq<char> {
    if line.len() > 0 && line.last() == '\n' {
        line.drop_last()
    } else {
        line
    }
}

/// The nickname that a client sent as its handshake line.
pub fn nickname_from_line(line: &String) -> (r: String)
    ensures
        r@ == strip_newline(line@),
{
    let s = line.as_str();
    let n = s.unicode_len();
    if n > 0 && s.get_char(n - 1) == '\n' {
        let r = String::from_str(s.substring_char(0, n - 1));
        proof {
            assert(r@ =~= line@.drop_last());
        }
        r
    } else {
        line.clone()
    }
}

/// Whether a status byte from the server is a refusal.
pub fn is_refusal(status: u8) -> (r: bool)
    ensures
        r == (status == STATUS_ERR),
{
    status == STATUS_ERR
}

impl<H> Registry<H> {
    /// The accept loop's step for a client that asked for `nickname`: reserve it
    /// with `handle`; on success answer OK and hand back the connect event for
    /// the actor; where it is taken, answer with the error and change nothing.
    pub fn accept_nickname(&mut self, nickname: String, peer: String, handle: H) -> (r: (Reply, Option<Event>))
        requires
            old(self).wf(),
        ensures
            final(self).wf(),
            final(self).names() == reserved(old(self).names(), nickname@),
            !old(self).has(nickname@) ==> r.0.status == STATUS_OK && r.0.message is None,
            !old(self).has(nickname@) ==> (r.1 matches Some(Event::Connect { nickname: n, peer: p })
                && n@ == nickname@ && p@ == peer@),
            old(self).has(nickname@) ==> r.0.status == STATUS_ERR && r.1 is None,
            old(self).has(nickname@) ==> (r.0.message matches Some(m) && m@ == taken_message()),
    {
        let name = nickname.clone();
        if self.reserve(nickname, handle) {
            (Reply { status: STATUS_OK, message: None }, Some(Event::Connect { nickname: name, peer }))
        } else {
            (Reply { status: STATUS_ERR, message: Some(String::from_str("Nickname already taken!\n")) }, None)
        }
    }
}

} // verus!
