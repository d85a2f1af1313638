//! How long a task may wait for reviews.

use crate::task;
use crate::task::{TaskChange, TaskStatus};
use crate::text;
use vstd::prelude::*;
use vstd::string::*;

verus! {

/// A limit on the time spent waiting. Zero is no limit.
#[derive(Clone, Copy, Debug, PartialEq, Eq, Structural)]
pub struct ReviewWaitBudget {
    pub budget_secs: u64,
}

impl ReviewWaitBudget {
    /// Whether the limit is reached after `elapsed` seconds.
    pub open spec fn exceeded(self, elapsed: u64) -> bool {
        self.budget_secs != 0 && elapsed >= self.budget_secs
    }

    /// The seconds to sleep when `wait` are wanted: no longer than what is left of
    /// the limit.
    pub open spec fn sleep(self, wait: u64, elapsed: u64) -> u64 {
        if self.budget_secs == 0 {
            wait
        } else if elapsed >= self.budget_secs {
            0
        } else if wait <= self.budget_secs - elapsed {
            wait
        } else {
            (self.budget_secs - elapsed) as u64
        }
    }

    /// A limit of `budget_secs` seconds.
    pub fn new(budget_secs: u64) -> (r: ReviewWaitBudget)
        ensures
            r.budget_secs == budget_secs,
    {
        ReviewWaitBudget { budget_secs }
    }

    /// Whether the limit is reached after `elapsed_secs` seconds.
    pub fn is_exceeded(self, elapsed_secs: u64) -> (r: bool)
        ensures
            r == self.exceeded(elapsed_secs),
    {
        self.budget_secs != 0 && elapsed_secs >= self.budget_secs
    }

    /// The seconds to sleep when `wait_secs` are wanted.
    pub fn sleep_secs(self, wait_secs: u64, elapsed_secs: u64) -> (r: u64)
        ensures
            r == self.sleep(wait_secs, elapsed_secs),
    {
        if self.budget_secs == 0 {
            return wait_secs;
        }
        let left: u64 = if elapsed_secs >= self.budget_secs {
            0
        } else {
            self.budget_secs - elapsed_secs
        };
        if wait_secs <= left {
            wait_secs
        } else {
            left
        }
    }

    /// The failure of a task whose limit is reached in `round`, if it is.
    pub fn fail_if_exceeded(self, elapsed_secs: u64, round: u32) -> (r: Option<TaskChange>)
        ensures
            r is Some == self.exceeded(elapsed_secs),
            r matches Some(c) ==> c@ == task::moved(
                TaskStatus::Failed,
                Some(round as nat),
                Some(exceeded_text(elapsed_secs as nat, self.budget_secs as nat)),
            ),
    {
        if self.is_exceeded(elapsed_secs) {
            Some(exceeded_change(elapsed_secs, self.budget_secs, round))
        } else {
            None
        }
    }
}

/// The error of a task that waited too long.
pub open spec fn exceeded_text(elapsed: nat, budget: nat) -> Seq<char> {
    "review wait budget exceeded: elapsed "@ + text::decimal(elapsed)
        + "s exceeded configured budget "@ + text::decimal(budget) + "s"@
}

/// The failure of a task that waited too long.
pub fn exceeded_change(elapsed_secs: u64, budget_secs: u64, round: u32) -> (r: TaskChange)
    ensures
        r@ == task::moved(
            TaskStatus::Failed,
            Some(round as nat),
            Some(exceeded_text(elapsed_secs as nat, budget_secs as nat)),
        ),
{
    let mut message = "review wait budget exceeded: elapsed ".to_owned();
    message.append(text::decimal_text(elapsed_secs).as_str());
    message.append("s exceeded configured budget ");
    message.append(text::decimal_text(budget_secs).as_str());
    message.append("s");
    TaskChange::to(TaskStatus::Failed, Some(round), Some(message))
}

/// A sleep never carries the wait past its limit, and is never longer than asked for.
pub proof fn law_sleep_stays_in_budget(b: ReviewWaitBudget, wait: u64, elapsed: u64)
    ensures
        b.sleep(wait, elapsed) <= wait,
        b.budget_secs != 0 && elapsed <= b.budget_secs ==> elapsed + b.sleep(wait, elapsed)
            <= b.budget_secs,
        b.budget_secs == 0 ==> b.sleep(wait, elapsed) == wait && !b.exceeded(elapsed),
{
}

/// A limit is reached as soon as all of its seconds have passed, and not before; then
/// there is nothing left to sleep. Before that a sleep is as long as asked for, where the
/// limit leaves room for it, and else as long as the limit leaves.
pub proof fn law_limit_is_reached_on_time(budget_secs: u64, wait: u64, elapsed: u64)
    requires
        budget_secs > 0,
    ensures
        ({
            let b = ReviewWaitBudget { budget_secs };
            &&& b.exceeded(budget_secs)
            &&& b.exceeded(elapsed) <==> elapsed >= budget_secs
            &&& elapsed >= budget_secs ==> b.sleep(wait, elapsed) == 0
            &&& elapsed + wait <= budget_secs ==> b.sleep(wait, elapsed) == wait
            &&& elapsed < budget_secs && elapsed + wait > budget_secs ==> elapsed + b.sleep(
                wait,
                elapsed,
            ) == budget_secs
        }),
{
}

/// The error of a task that waited too long tells how long it waited and how long it might.
pub proof fn law_long_wait_is_told(elapsed: nat, budget: nat)
    ensures
        exceeded_text(elapsed, budget) == "review wait budget exceeded: elapsed "@ + text::decimal(
            elapsed,
        ) + "s exceeded configured budget "@ + text::decimal(budget) + "s"@,
{
}

} // verus!
