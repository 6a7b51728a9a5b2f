use vstd::prelude::*;

use crate::events::ToolCallStatus;
use crate::text::spec_line_count;

verus! {

/// One line of a line-by-line diff between two texts.
#[derive(Clone, Copy, PartialEq, Eq, Structural, Debug)]
pub enum ChangeKind {
    /// The line occurs in both texts.
    Equal,
    /// The line occurs only in the old text.
    Delete,
    /// The line occurs only in the new text.
    Insert,
}

/// What the line diff of the two texts yields: a deterministic function
/// of the texts alone.
pub uninterp spec fn line_changes_of(old_text: Seq<char>, new_text: Seq<char>) -> Seq<ChangeKind>;

/// Relies on similar::TextDiff::from_lines and TextDiff::iter_all_changes:
/// the change sequence depends on the two texts alone, each change tagged
/// equal, deleted or inserted.
#[verifier::external_body]
fn diff_line_changes(old_text: &str, new_text: &str) -> (r: Vec<ChangeKind>)
    ensures
        r@ == line_changes_of(old_text@, new_text@),
{
    let diff = similar::TextDiff::from_lines(old_text, new_text);
    diff.iter_all_changes().map(|c| match c.tag() {
        similar::ChangeTag::Equal => ChangeKind::Equal,
        similar::ChangeTag::Delete => ChangeKind::Delete,
        similar::ChangeTag::Insert => ChangeKind::Insert,
    }).collect()
}

/// How often `k` occurs in `s`.
pub open spec fn count_kind(s: Seq<ChangeKind>, k: ChangeKind) -> nat
    decreases s.len(),
{
    if s.len() == 0 {
        0
    } else {
        count_kind(s.drop_last(), k) + if s.last() == k {
            1nat
        } else {
            0nat
        }
    }
}

proof fn lemma_count_kind_step(s: Seq<ChangeKind>, k: ChangeKind, i: int)
    requires
        0 <= i < s.len(),
    ensures
        count_kind(s.subrange(0, i + 1), k) == count_kind(s.subrange(0, i), k) + if s[i] == k {
            1nat
        } else {
            0nat
        },
{
    assert(s.subrange(0, i + 1).drop_last() =~= s.subrange(0, i));
}

/// Added and removed line counts of one diff.
#[derive(Clone, Copy, PartialEq, Eq, Structural, Debug)]
pub struct DiffStats {
    /// Lines present only in the new text.
    pub additions: usize,
    /// Lines present only in the old text.
    pub deletions: usize,
}

impl Default for DiffStats {
    /// No changes.
    fn default() -> (res: Self)
        ensures
            res.additions == 0,
            res.deletions == 0,
    {
        DiffStats { additions: 0, deletions: 0 }
    }
}

/// Counts the inserted and deleted lines of the line diff between
/// `old_text` and `new_text`.
pub fn calculate_diff_stats(old_text: &str, new_text: &str) -> (r: DiffStats)
    ensures
        r.additions == count_kind(line_changes_of(old_text@, new_text@), ChangeKind::Insert),
        r.deletions == count_kind(line_changes_of(old_text@, new_text@), ChangeKind::Delete),
{
    let changes = diff_line_changes(old_text, new_text);
    let n = changes.len();
    let mut additions: usize = 0;
    let mut deletions: usize = 0;
    let mut i: usize = 0;
    while i < n
        invariant
            i <= n,
            n == changes@.len(),
            additions <= i,
            deletions <= i,
            additions == count_kind(changes@.subrange(0, i as int), ChangeKind::Insert),
            deletions == count_kind(changes@.subrange(0, i as int), ChangeKind::Delete),
        decreases n - i,
    {
        match changes[i] {
            ChangeKind::Insert => {
                additions = additions + 1;
            },
            ChangeKind::Delete => {
                deletions = deletions + 1;
            },
            ChangeKind::Equal => {},
        }
        proof {
            lemma_count_kind_step(changes@, ChangeKind::Insert, i as int);
            lemma_count_kind_step(changes@, ChangeKind::Delete, i as int);
        }
        i = i + 1;
    }
    proof {
        assert(changes@.subrange(0, n as int) =~= changes@);
    }
    DiffStats { additions, deletions }
}

/// One piece of content attached to a tool call.
#[derive(Debug)]
pub enum ToolCallContent {
    /// A file edit: the old text (absent for a new file) and the new one.
    Diff {
        /// What the file held before, `None` for a newly created file.
        old_text: Option<String>,
        /// What the file holds after.
        new_text: String,
    },
    /// Plain streamed text.
    Text {
        /// The text.
        text: String,
    },
}

impl Clone for ToolCallContent {
    fn clone(&self) -> (res: Self)
        ensures
            res == *self,
    {
        match self {
            ToolCallContent::Diff { old_text, new_text } => ToolCallContent::Diff {
                old_text: match old_text {
                    Some(o) => Some(o.clone()),
                    None => None,
                },
                new_text: new_text.clone(),
            },
            ToolCallContent::Text { text } => ToolCallContent::Text { text: text.clone() },
        }
    }
}

/// One tool call as the protocol reports it.
#[derive(Debug)]
pub struct ToolCall {
    /// Protocol-issued id.
    pub id: String,
    /// Human-readable title.
    pub title: String,
    /// Lifecycle status.
    pub status: ToolCallStatus,
    /// Attached content, in arrival order.
    pub content: Vec<ToolCallContent>,
}

impl Clone for ToolCall {
    fn clone(&self) -> (res: Self)
        ensures
            res.id == self.id,
            res.title == self.title,
            res.status == self.status,
            res.content@ == self.content@,
    {
        let mut content: Vec<ToolCallContent> = Vec::new();
        let n = self.content.len();
        let mut i: usize = 0;
        while i < n
            invariant
                i <= n,
                n == self.content@.len(),
                content@.len() == i,
                forall|j: int| 0 <= j < i ==> #[trigger] content@[j] == self.content@[j],
            decreases n - i,
        {
            content.push(self.content[i].clone());
            i = i + 1;
        }
        proof {
            assert(content@ =~= self.content@);
        }
        ToolCall {
            id: self.id.clone(),
            title: self.title.clone(),
            status: self.status,
            content,
        }
    }
}

/// Whether `st` is the diff statistic belonging to a diff with these
/// texts: line-diff counts when an old text exists, else every line of
/// the new file is an addition.
pub open spec fn stats_match(st: DiffStats, old_text: Option<String>, new_text: Seq<char>) -> bool {
    match old_text {
        Some(o) => {
            &&& st.additions == count_kind(line_changes_of(o@, new_text), ChangeKind::Insert)
            &&& st.deletions == count_kind(line_changes_of(o@, new_text), ChangeKind::Delete)
        },
        None => st.additions == spec_line_count(new_text) && st.deletions == 0,
    }
}

/// The statistics of the first diff attached to `tool_call`, `None` when
/// it carries no diff.
pub fn extract_diff_stats_from_tool_call(tool_call: &ToolCall) -> (r: Option<DiffStats>)
    ensures
        r is None <==> (forall|i: int|
            0 <= i < tool_call.content@.len() ==> !((#[trigger] tool_call.content@[i])
                is Diff)),
        r matches Some(st) ==> exists|i: int|
            {
                &&& 0 <= i < tool_call.content@.len()
                &&& (#[trigger] tool_call.content@[i]) matches ToolCallContent::Diff {
                    old_text,
                    new_text,
                } && stats_match(st, old_text, new_text@)
                &&& forall|j: int| 0 <= j < i ==> !(tool_call.content@[j] is Diff)
            },
{
    let n = tool_call.content.len();
    let mut i: usize = 0;
    while i < n
        invariant
            i <= n,
            n == tool_call.content@.len(),
            forall|j: int| 0 <= j < i ==> !((#[trigger] tool_call.content@[j]) is Diff),
        decreases n - i,
    {
        match &tool_call.content[i] {
            ToolCallContent::Diff { old_text, new_text } => {
                let st = match old_text {
                    Some(o) => calculate_diff_stats(o.as_str(), new_text.as_str()),
                    None => DiffStats {
                        additions: crate::text::count_lines(new_text.as_str()),
                        deletions: 0,
                    },
                };
                proof {
                    assert(tool_call.content@[i as int] is Diff);
                }
                return Some(st);
            },
            _ => {},
        }
        i = i + 1;
    }
    None
}

/// The session-level status shown beside a tool call.
#[derive(Clone, Copy, PartialEq, Eq, Structural, Debug)]
pub enum SessionStatus {
    /// Nothing running.
    Idle,
    /// Announced, not yet started.
    Pending,
    /// Currently executing.
    InProgress,
    /// Finished successfully.
    Completed,
    /// Finished with an error.
    Failed,
}

/// The tool call list entry shown in a conversation: the call itself and
/// whether its content is expanded. The rendering around it lives
/// outside; this is the state it draws from.
#[derive(Debug)]
pub struct ToolCallItem {
    tool_call: ToolCall,
    open: bool,
}

impl ToolCallItem {
    /// The current tool call data.
    pub closed spec fn spec_tool_call(&self) -> ToolCall {
        self.tool_call
    }

    /// Whether the content is expanded.
    pub closed spec fn spec_open(&self) -> bool {
        self.open
    }

    /// A collapsed item for `tool_call`.
    pub fn new(tool_call: ToolCall) -> (item: Self)
        ensures
            item.spec_tool_call() == tool_call,
            !item.spec_open(),
    {
        ToolCallItem { tool_call, open: false }
    }

    /// Flips the expanded state.
    pub fn toggle(&mut self)
        ensures
            final(self).spec_open() == !old(self).spec_open(),
            final(self).spec_tool_call() == old(self).spec_tool_call(),
    {
        self.open = !self.open;
    }

    /// Sets the expanded state.
    pub fn set_open(&mut self, open: bool)
        ensures
            final(self).spec_open() == open,
            final(self).spec_tool_call() == old(self).spec_tool_call(),
    {
        self.open = open;
    }

    /// Replaces the tool call data.
    pub fn update_tool_call(&mut self, tool_call: ToolCall)
        ensures
            final(self).spec_tool_call() == tool_call,
            final(self).spec_open() == old(self).spec_open(),
    {
        self.tool_call = tool_call;
    }

    /// Updates only the status.
    pub fn update_status(&mut self, status: ToolCallStatus)
        ensures
            final(self).spec_tool_call().status == status,
            final(self).spec_tool_call().id == old(self).spec_tool_call().id,
            final(self).spec_tool_call().title == old(self).spec_tool_call().title,
            final(self).spec_tool_call().content == old(self).spec_tool_call().content,
            final(self).spec_open() == old(self).spec_open(),
    {
        self.tool_call.status = status;
    }

    /// Appends one piece of content.
    pub fn add_content(&mut self, content: ToolCallContent)
        ensures
            final(self).spec_tool_call().content@ == old(self).spec_tool_call().content@.push(
                content,
            ),
            final(self).spec_tool_call().id == old(self).spec_tool_call().id,
            final(self).spec_tool_call().title == old(self).spec_tool_call().title,
            final(self).spec_tool_call().status == old(self).spec_tool_call().status,
            final(self).spec_open() == old(self).spec_open(),
    {
        self.tool_call.content.push(content);
    }

    /// Whether the content is expanded.
    pub fn is_open(&self) -> (r: bool)
        ensures
            r == self.spec_open(),
    {
        self.open
    }

    /// The current tool call data.
    pub fn tool_call(&self) -> (r: &ToolCall)
        ensures
            *r == self.spec_tool_call(),
    {
        &self.tool_call
    }

    /// Whether any content arrived yet.
    pub fn has_content(&self) -> (r: bool)
        ensures
            r == (self.spec_tool_call().content@.len() > 0),
    {
        self.tool_call.content.len() > 0
    }

    /// The session-level status equivalent of the call's own status.
    pub fn status_to_session_status(&self) -> (r: SessionStatus)
        ensures
            r == (match self.spec_tool_call().status {
                ToolCallStatus::Pending => SessionStatus::Pending,
                ToolCallStatus::InProgress => SessionStatus::InProgress,
                ToolCallStatus::Completed => SessionStatus::Completed,
                ToolCallStatus::Failed => SessionStatus::Failed,
            }),
    {
        match self.tool_call.status {
            ToolCallStatus::Pending => SessionStatus::Pending,
            ToolCallStatus::InProgress => SessionStatus::InProgress,
            ToolCallStatus::Completed => SessionStatus::Completed,
            ToolCallStatus::Failed => SessionStatus::Failed,
        }
    }
}

} // verus!
