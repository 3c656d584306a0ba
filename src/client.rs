use vstd::prelude::*;
use vstd::string::*;

verus! {

/// The lines with which a user leaves the client.
pub open spec fn is_quit_line(line: Seq<char>) -> bool {
    line == "/exit\n"@ || line == "/quit\n"@
}

/// Whether a line typed by the user ends the client's input loop.
pub fn is_quit_command(line: &String) -> (r: bool)
    ensures
        r == is_quit_line(line@),
{
    *line == String::from_str("/exit\n") || *line == String::from_str("/quit\n")
}

/// Whether a line from the server tells the client to stop.
pub fn is_exit_notice(line: &String) -> (r: bool)
    ensures
        r == (line@ == "exit\n"@),
{
    *line == String::from_str("exit\n")
}

} // verus!
