//! The value shapes and parsing rules of the interactive client.

use vstd::prelude::*;

use crate::strutil::{lower_seq, str_eq_ci};

verus! {

/// One turn of the client's local chat history.
pub struct ChatMessage {
    pub role: String,
    pub content: String,
}

impl Clone for ChatMessage {
    fn clone(&self) -> (r: Self)
        ensures
            r == *self,
    {
        ChatMessage { role: self.role.clone(), content: self.content.clone() }
    }
}

/// A task summary as the client shows it.
pub struct TaskInfo {
    pub id: String,
    pub status: String,
    pub instruction: String,
    pub output: Option<String>,
    pub created_at: String,
}

/// A value reads as switched on.
pub open spec fn spec_is_on(s: Seq<char>) -> bool {
    lower_seq(s) == "on"@ || lower_seq(s) == "true"@ || lower_seq(s) == "1"@ || lower_seq(s)
        == "yes"@
}

/// A value reads as switched off.
pub open spec fn spec_is_off(s: Seq<char>) -> bool {
    lower_seq(s) == "off"@ || lower_seq(s) == "false"@ || lower_seq(s) == "0"@ || lower_seq(s)
        == "no"@
}

/// Reads a toggle value, case-insensitively: `on`, `true`, `1` and `yes`
/// switch on; `off`, `false`, `0` and `no` switch off; anything else is
/// no toggle.
pub fn parse_on_off(value: &str) -> (r: Option<bool>)
    ensures
        spec_is_on(value@) ==> r == Some(true),
        spec_is_off(value@) ==> r == Some(false),
        !spec_is_on(value@) && !spec_is_off(value@) ==> r is None,
{
    proof {
        reveal_strlit("on");
        reveal_strlit("true");
        reveal_strlit("1");
        reveal_strlit("yes");
        reveal_strlit("off");
        reveal_strlit("false");
        reveal_strlit("0");
        reveal_strlit("no");
        assert("on"@.len() == 2 && "true"@.len() == 4 && "1"@.len() == 1 && "yes"@.len() == 3);
        assert("off"@.len() == 3 && "false"@.len() == 5 && "0"@.len() == 1 && "no"@.len() == 2);
        assert("1"@[0] == '1' && "0"@[0] == '0');
        assert("on"@[0] == 'o' && "no"@[0] == 'n');
        assert("yes"@[0] == 'y' && "off"@[0] == 'o');
    }
    if str_eq_ci(value, "on") || str_eq_ci(value, "true") || str_eq_ci(value, "1") || str_eq_ci(
        value,
        "yes",
    ) {
        Some(true)
    } else if str_eq_ci(value, "off") || str_eq_ci(value, "false") || str_eq_ci(value, "0")
        || str_eq_ci(value, "no") {
        Some(false)
    } else {
        None
    }
}

} // verus!
