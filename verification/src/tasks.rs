use vstd::prelude::*;

use crate::text::{spec_decimal, u64_to_string};
use crate::workspace::TaskStatus;

verus! {

/// The decimal rendering of `n` with a leading minus for negative values.
pub open spec fn spec_signed_decimal(n: int) -> Seq<char> {
    if n >= 0 {
        spec_decimal(n as nat)
    } else {
        seq!['-'] + spec_decimal((-n) as nat)
    }
}

/// Renders an `i16` in decimal, minus sign included.
pub fn i16_to_string(n: i16) -> (s: String)
    ensures
        s@ == spec_signed_decimal(n as int),
{
    if n >= 0 {
        let s = u64_to_string(n as u64);
        proof {
            assert(s@ =~= spec_signed_decimal(n as int));
        }
        s
    } else {
        let wide: i64 = n as i64;
        let mag: u64 = (-wide) as u64;
        let digits = u64_to_string(mag);
        let s = String::from_str("-").concat(digits.as_str());
        proof {
            reveal_strlit("-");
            assert(s@ =~= spec_signed_decimal(n as int));
        }
        s
    }
}

/// One demo task row: a name, a grouping type, change counters and the
/// strings rendered from them.
#[derive(Debug)]
pub struct AgentTask {
    /// Display name.
    pub name: String,
    /// The group the task is listed under.
    pub task_type: String,
    /// Lines added by the task's changes.
    pub add_new_code_lines: i16,
    /// Lines deleted by the task's changes.
    pub delete_code_lines: i16,
    /// Lifecycle status.
    pub status: TaskStatus,
    /// Change timestamp, kept as handed in.
    pub change_timestamp: i16,
    /// Rendered form of the change timestamp.
    pub change_timestamp_str: String,
    /// The added-lines counter rendered as `+n`.
    pub add_new_code_lines_str: String,
    /// The deleted-lines counter rendered as `-n`.
    pub delete_code_lines_str: String,
}

impl Clone for AgentTask {
    fn clone(&self) -> (res: Self)
        ensures
            res == *self,
    {
        AgentTask {
            name: self.name.clone(),
            task_type: self.task_type.clone(),
            add_new_code_lines: self.add_new_code_lines,
            delete_code_lines: self.delete_code_lines,
            status: self.status,
            change_timestamp: self.change_timestamp,
            change_timestamp_str: self.change_timestamp_str.clone(),
            add_new_code_lines_str: self.add_new_code_lines_str.clone(),
            delete_code_lines_str: self.delete_code_lines_str.clone(),
        }
    }
}

impl AgentTask {
    /// Fills the rendered counter strings from the counters: `+n` for
    /// added lines and `-n` for deleted lines; everything else is kept.
    pub fn prepare(self) -> (r: Self)
        ensures
            r.add_new_code_lines_str@ == seq!['+'] + spec_signed_decimal(
                self.add_new_code_lines as int,
            ),
            r.delete_code_lines_str@ == seq!['-'] + spec_signed_decimal(
                self.delete_code_lines as int,
            ),
            r.name == self.name,
            r.task_type == self.task_type,
            r.add_new_code_lines == self.add_new_code_lines,
            r.delete_code_lines == self.delete_code_lines,
            r.status == self.status,
            r.change_timestamp == self.change_timestamp,
            r.change_timestamp_str == self.change_timestamp_str,
    {
        let adds = String::from_str("+").concat(i16_to_string(self.add_new_code_lines).as_str());
        let dels = String::from_str("-").concat(i16_to_string(self.delete_code_lines).as_str());
        proof {
            reveal_strlit("+");
            reveal_strlit("-");
            assert(adds@ =~= seq!['+'] + spec_signed_decimal(self.add_new_code_lines as int));
            assert(dels@ =~= seq!['-'] + spec_signed_decimal(self.delete_code_lines as int));
        }
        AgentTask { add_new_code_lines_str: adds, delete_code_lines_str: dels, ..self }
    }
}

/// Prepares every loaded task row for display.
pub fn prepare_all(tasks: Vec<AgentTask>) -> (r: Vec<AgentTask>)
    ensures
        r@.len() == tasks@.len(),
        forall|i: int|
            0 <= i < tasks@.len() ==> {
                &&& (#[trigger] r@[i]).name == tasks@[i].name
                &&& r@[i].task_type == tasks@[i].task_type
                &&& r@[i].status == tasks@[i].status
                &&& r@[i].add_new_code_lines == tasks@[i].add_new_code_lines
                &&& r@[i].delete_code_lines == tasks@[i].delete_code_lines
                &&& r@[i].add_new_code_lines_str@ == seq!['+'] + spec_signed_decimal(
                    tasks@[i].add_new_code_lines as int,
                )
                &&& r@[i].delete_code_lines_str@ == seq!['-'] + spec_signed_decimal(
                    tasks@[i].delete_code_lines as int,
                )
            },
{
    let mut r: Vec<AgentTask> = Vec::new();
    let n = tasks.len();
    let mut i: usize = 0;
    while i < n
        invariant
            i <= n,
            n == tasks@.len(),
            r@.len() == i,
            forall|j: int|
                0 <= j < i ==> {
                    &&& (#[trigger] r@[j]).name == tasks@[j].name
                    &&& r@[j].task_type == tasks@[j].task_type
                    &&& r@[j].status == tasks@[j].status
                    &&& r@[j].add_new_code_lines == tasks@[j].add_new_code_lines
                    &&& r@[j].delete_code_lines == tasks@[j].delete_code_lines
                    &&& r@[j].add_new_code_lines_str@ == seq!['+'] + spec_signed_decimal(
                        tasks@[j].add_new_code_lines as int,
                    )
                    &&& r@[j].delete_code_lines_str@ == seq!['-'] + spec_signed_decimal(
                        tasks@[j].delete_code_lines as int,
                    )
                },
        decreases n - i,
    {
        r.push(tasks[i].clone().prepare());
        i = i + 1;
    }
    r
}

/// The status picked for a given seed: the four statuses cycle with the
/// seed's remainder by four.
pub open spec fn spec_status_of_seed(seed: nat) -> TaskStatus {
    if seed % 4 == 0 {
        TaskStatus::Pending
    } else if seed % 4 == 1 {
        TaskStatus::InProgress
    } else if seed % 4 == 2 {
        TaskStatus::Completed
    } else {
        TaskStatus::Failed
    }
}

/// The status a seed maps to.
pub fn status_from_seed(seed: u64) -> (r: TaskStatus)
    ensures
        r == spec_status_of_seed(seed as nat),
{
    let m = seed % 4;
    if m == 0 {
        TaskStatus::Pending
    } else if m == 1 {
        TaskStatus::InProgress
    } else if m == 2 {
        TaskStatus::Completed
    } else {
        TaskStatus::Failed
    }
}

/// Relies on std::time::SystemTime::now: the current time in nanoseconds
/// since the epoch, truncated to 64 bits; zero when the clock reads
/// before the epoch. Nothing is promised of the value.
#[verifier::external_body]
fn now_unix_nanos() -> u64 {
    match std::time::SystemTime::now().duration_since(std::time::UNIX_EPOCH) {
        Ok(d) => d.as_nanos() as u64,
        Err(_) => 0,
    }
}

/// A task status drawn from the clock, for demo rows; which one comes
/// back depends on the moment of the call.
pub fn random_status() -> TaskStatus {
    let seed = now_unix_nanos();
    status_from_seed(seed)
}

} // verus!
