//! The batch job's schedule: three recurring triggers, the tasks each one runs, and a
//! guard that keeps a trigger from starting again while its previous run goes on.

use vstd::prelude::*;

verus! {

/// A recurring trigger of the batch job.
#[derive(Clone, Copy, Debug, PartialEq, Eq, Structural)]
pub enum Trigger {
    /// Every day at midnight.
    Daily,
    /// Every Monday at midnight.
    Weekly,
    /// At the start of every minute.
    EveryMinute,
}

/// One unit of work of the batch job.
#[derive(Clone, Copy, Debug, PartialEq, Eq, Structural)]
pub enum Task {
    /// Mail each courier their report of yesterday.
    CourierReports,
    /// Mail the curators' report of yesterday.
    CuratorReport,
    /// Mail each restaurant its settlement of the past week.
    RestaurantSettlements,
    /// Run the database's approvals procedure.
    ProcessApprovals,
}

/// The cron expression of a trigger (seconds, minutes, hours, day of month, month,
/// day of week, year).
pub open spec fn cron_text(t: Trigger) -> Seq<char> {
    match t {
        Trigger::Daily => "0 0 0 * * * *"@,
        Trigger::Weekly => "0 0 0 * * Mon *"@,
        Trigger::EveryMinute => "0 * * * * * *"@,
    }
}

/// The tasks a trigger runs, in order.
pub open spec fn task_list(t: Trigger) -> Seq<Task> {
    match t {
        Trigger::Daily => seq![Task::CourierReports, Task::CuratorReport],
        Trigger::Weekly => seq![Task::RestaurantSettlements],
        Trigger::EveryMinute => seq![Task::ProcessApprovals],
    }
}

/// The tasks run once when the job starts, before any trigger fires.
pub open spec fn startup_list() -> Seq<Task> {
    seq![Task::CourierReports, Task::CuratorReport, Task::RestaurantSettlements]
}

/// The cron expression of a trigger.
pub fn cron_expression(t: Trigger) -> (r: &'static str)
    ensures
        r@ == cron_text(t),
{
    match t {
        Trigger::Daily => "0 0 0 * * * *",
        Trigger::Weekly => "0 0 0 * * Mon *",
        Trigger::EveryMinute => "0 * * * * * *",
    }
}

/// The tasks a trigger runs, in order.
pub fn tasks_of(t: Trigger) -> (r: Vec<Task>)
    ensures
        r@ == task_list(t),
{
    let r = match t {
        Trigger::Daily => vec![Task::CourierReports, Task::CuratorReport],
        Trigger::Weekly => vec![Task::RestaurantSettlements],
        Trigger::EveryMinute => vec![Task::ProcessApprovals],
    };
    assert(r@ =~= task_list(t));
    r
}

/// The tasks run once when the job starts: the daily reports, then the settlements.
pub fn startup_tasks() -> (r: Vec<Task>)
    ensures
        r@ == startup_list(),
{
    let r = vec![Task::CourierReports, Task::CuratorReport, Task::RestaurantSettlements];
    assert(r@ =~= startup_list());
    r
}

/// Which triggers have a run in progress.
#[derive(Clone, Copy, Debug, PartialEq, Eq, Structural)]
pub struct Runs {
    pub daily: bool,
    pub weekly: bool,
    pub minute: bool,
}

impl Runs {
    /// Whether trigger `t` has a run in progress.
    pub open spec fn running(self, t: Trigger) -> bool {
        match t {
            Trigger::Daily => self.daily,
            Trigger::Weekly => self.weekly,
            Trigger::EveryMinute => self.minute,
        }
    }

    /// The same runs, with trigger `t` marked as running or not.
    pub open spec fn with(self, t: Trigger, on: bool) -> Runs {
        match t {
            Trigger::Daily => Runs { daily: on, ..self },
            Trigger::Weekly => Runs { weekly: on, ..self },
            Trigger::EveryMinute => Runs { minute: on, ..self },
        }
    }

    /// No run in progress.
    pub fn idle() -> (r: Runs)
        ensures
            !r.running(Trigger::Daily),
            !r.running(Trigger::Weekly),
            !r.running(Trigger::EveryMinute),
    {
        Runs { daily: false, weekly: false, minute: false }
    }

    fn set(&mut self, t: Trigger, on: bool)
        ensures
            *final(self) == old(self).with(t, on),
    {
        match t {
            Trigger::Daily => self.daily = on,
            Trigger::Weekly => self.weekly = on,
            Trigger::EveryMinute => self.minute = on,
        }
    }

    /// Trigger `t` fired: its tasks, and the trigger marked as running; nothing while
    /// its previous run goes on.
    pub fn fire(&mut self, t: Trigger) -> (r: Vec<Task>)
        ensures
            old(self).running(t) ==> r@ == Seq::<Task>::empty() && *final(self) == *old(self),
            !old(self).running(t) ==> r@ == task_list(t) && *final(self) == old(self).with(t, true),
    {
        let busy = match t {
            Trigger::Daily => self.daily,
            Trigger::Weekly => self.weekly,
            Trigger::EveryMinute => self.minute,
        };
        if busy {
            Vec::new()
        } else {
            self.set(t, true);
            tasks_of(t)
        }
    }

    /// The run of trigger `t` ended.
    pub fn finish(&mut self, t: Trigger)
        ensures
            *final(self) == old(self).with(t, false),
    {
        self.set(t, false);
    }
}

} // verus!
