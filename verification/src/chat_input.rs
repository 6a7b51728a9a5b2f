use vstd::prelude::*;

use crate::agents::SessionRecord;

verus! {

/// What `char::is_whitespace` returns: whether the character counts as
/// Unicode whitespace, a property of the character alone.
pub uninterp spec fn is_space_char(c: char) -> bool;

/// Relies on char::is_whitespace: whitespace-ness depends on the
/// character alone.
pub assume_specification[ char::is_whitespace ](c: char) -> (r: bool)
    ensures
        r == is_space_char(c),
;

/// A message made of nothing but whitespace (or nothing at all) is not
/// worth sending.
pub open spec fn spec_blank(s: Seq<char>) -> bool {
    forall|i: int| 0 <= i < s.len() ==> is_space_char(#[trigger] s[i])
}

/// Whether `text` holds no visible character: such input is skipped
/// instead of being sent into a session.
pub fn message_is_blank(text: &str) -> (r: bool)
    ensures
        r == spec_blank(text@),
{
    let n = text.unicode_len();
    let mut i: usize = 0;
    while i < n
        invariant
            i <= n,
            n == text@.len(),
            forall|j: int| 0 <= j < i ==> is_space_char(#[trigger] text@[j]),
        decreases n - i,
    {
        if !text.get_char(i).is_whitespace() {
            return false;
        }
        i = i + 1;
    }
    true
}

/// The label a session carries in the session picker: `Session ` followed
/// by the first eight characters of its id (all of it when shorter).
pub open spec fn spec_session_label(sid: Seq<char>) -> Seq<char> {
    "Session "@ + (if sid.len() > 8 {
        sid.subrange(0, 8)
    } else {
        sid
    })
}

/// Renders the picker label for one session id.
pub fn session_display(session_id: &str) -> (r: String)
    ensures
        r@ == spec_session_label(session_id@),
{
    let n = session_id.unicode_len();
    let shown = if n > 8 {
        session_id.substring_char(0, 8)
    } else {
        session_id
    };
    let r = String::from_str("Session ").concat(shown);
    proof {
        assert(r@ =~= spec_session_label(session_id@));
    }
    r
}

/// Renders the picker labels for a session snapshot, in order.
pub fn session_labels(sessions: &Vec<SessionRecord>) -> (r: Vec<String>)
    ensures
        r@.len() == sessions@.len(),
        forall|i: int|
            0 <= i < sessions@.len() ==> (#[trigger] r@[i])@ == spec_session_label(
                sessions@[i].session_id@,
            ),
{
    let mut r: Vec<String> = Vec::new();
    let n = sessions.len();
    let mut i: usize = 0;
    while i < n
        invariant
            i <= n,
            n == sessions@.len(),
            r@.len() == i,
            forall|j: int|
                0 <= j < i ==> (#[trigger] r@[j])@ == spec_session_label(
                    sessions@[j].session_id@,
                ),
        decreases n - i,
    {
        r.push(session_display(sessions[i].session_id.as_str()));
        i = i + 1;
    }
    r
}

/// One entry of the chat input's context picker.
#[derive(Debug)]
pub struct ContextItem {
    /// Display name.
    pub name: String,
    /// Icon identifier.
    pub icon: String,
}

impl Clone for ContextItem {
    fn clone(&self) -> (res: Self)
        ensures
            res == *self,
    {
        ContextItem { name: self.name.clone(), icon: self.icon.clone() }
    }
}

/// The fixed list of context kinds offered in the chat input popover.
#[derive(Debug)]
pub struct ContextListDelegate {
    /// The offered entries, in display order.
    pub items: Vec<ContextItem>,
}

impl ContextListDelegate {
    /// The seven context kinds, from files to URLs.
    pub fn new() -> (d: Self)
        ensures
            d.items@.len() == 7,
            d.items@[0].name@ == "Files"@ && d.items@[0].icon@ == "file"@,
            d.items@[1].name@ == "Folders"@ && d.items@[1].icon@ == "folder"@,
            d.items@[2].name@ == "Code"@ && d.items@[2].icon@ == "code"@,
            d.items@[3].name@ == "Git Changes"@ && d.items@[3].icon@ == "git-branch"@,
            d.items@[4].name@ == "Terminal"@ && d.items@[4].icon@ == "terminal"@,
            d.items@[5].name@ == "Problems"@ && d.items@[5].icon@ == "alert-circle"@,
            d.items@[6].name@ == "URLs"@ && d.items@[6].icon@ == "link"@,
    {
        let mut items: Vec<ContextItem> = Vec::new();
        items.push(ContextItem {
            name: String::from_str("Files"),
            icon: String::from_str("file"),
        });
        items.push(ContextItem {
            name: String::from_str("Folders"),
            icon: String::from_str("folder"),
        });
        items.push(ContextItem {
            name: String::from_str("Code"),
            icon: String::from_str("code"),
        });
        items.push(ContextItem {
            name: String::from_str("Git Changes"),
            icon: String::from_str("git-branch"),
        });
        items.push(ContextItem {
            name: String::from_str("Terminal"),
            icon: String::from_str("terminal"),
        });
        items.push(ContextItem {
            name: String::from_str("Problems"),
            icon: String::from_str("alert-circle"),
        });
        items.push(ContextItem {
            name: String::from_str("URLs"),
            icon: String::from_str("link"),
        });
        ContextListDelegate { items }
    }

    /// How many entries the picker offers.
    pub fn items_count(&self) -> (r: usize)
        ensures
            r == self.items@.len(),
    {
        self.items.len()
    }
}

} // verus!
