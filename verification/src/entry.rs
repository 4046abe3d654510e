//! The job data model: what to run (`Action`/`Execute`), when to run it
//! (`Trigger`/`Timer`), the conflict policy (`DoIfRunning`), the coarse
//! lifecycle flag (`Status`), and the persisted job definition (`Entry`)
//! with its runtime trigger cursor (`TriggerState`).

use vstd::prelude::*;

use crate::time::{calendar_in_range, duration_offset, ts_in_chrono_range, DateTime, Duration};

verus! {

/// Coarse lifecycle flag of a job, independent of its trigger cursor.
#[derive(Clone, Copy, Debug, PartialEq, Eq, Structural)]
pub enum Status {
    Error,
    Running,
    Paused,
    Pending,
}

impl Default for Status {
    /// New jobs start out pending.
    fn default() -> (r: Self)
        ensures
            r is Pending,
    {
        Status::Pending
    }
}

/// Where a job's output is logged.
#[derive(Debug, PartialEq)]
pub enum Logger {
    File(String),
    Default,
    Off,
}

impl Clone for Logger {
    fn clone(&self) -> (r: Self)
        ensures
            r == *self,
    {
        match self {
            Logger::File(path) => Logger::File(path.clone()),
            Logger::Default => Logger::Default,
            Logger::Off => Logger::Off,
        }
    }
}

impl Default for Logger {
    fn default() -> (r: Self)
        ensures
            r is Default,
    {
        Logger::Default
    }
}

/// A Unix account snapshot taken at entry-creation time.
#[derive(Debug, PartialEq)]
pub struct UnixUser {
    pub uid: u32,
    pub gid: u32,
    pub username: String,
}

impl Clone for UnixUser {
    fn clone(&self) -> (r: Self)
        ensures
            r == *self,
    {
        UnixUser { uid: self.uid, gid: self.gid, username: self.username.clone() }
    }
}

/// A Windows account snapshot taken at entry-creation time.
#[derive(Debug, PartialEq)]
pub struct WindowsUser {
    pub username: String,
    pub group_windows: Vec<String>,
}

/// The mathematical value of a `WindowsUser`: its list field as a sequence.
pub ghost struct WindowsUserV {
    pub username: String,
    pub group_windows: Seq<String>,
}

impl View for WindowsUser {
    type V = WindowsUserV;

    open spec fn view(&self) -> WindowsUserV {
        WindowsUserV { username: self.username, group_windows: self.group_windows@ }
    }
}

impl Clone for WindowsUser {
    fn clone(&self) -> (r: Self)
        ensures
            r@ == self@,
    {
        WindowsUser {
            username: self.username.clone(),
            group_windows: clone_strings(&self.group_windows),
        }
    }
}

/// The run-as identity of a job, resolved once from a user-name lookup when
/// the entry is built and stored as a snapshot. The lookup itself is an
/// operating-system concern and is performed by the surrounding binary.
#[derive(Debug, PartialEq)]
pub enum SystemUser {
    Unix(UnixUser),
    Windows(WindowsUser),
}

/// The mathematical value of a `SystemUser`.
pub ghost enum SystemUserV {
    Unix(UnixUser),
    Windows(WindowsUserV),
}

impl View for SystemUser {
    type V = SystemUserV;

    open spec fn view(&self) -> SystemUserV {
        match self {
            SystemUser::Unix(u) => SystemUserV::Unix(*u),
            SystemUser::Windows(w) => SystemUserV::Windows(w@),
        }
    }
}

impl Clone for SystemUser {
    fn clone(&self) -> (r: Self)
        ensures
            r@ == self@,
    {
        match self {
            SystemUser::Unix(u) => SystemUser::Unix(u.clone()),
            SystemUser::Windows(w) => SystemUser::Windows(w.clone()),
        }
    }
}

/// The executable specification of a job: binary, argument list,
/// environment pairs, working directory, and run-as user. All paths are
/// carried as plain strings; the surrounding binary turns them into
/// OS-level values when it spawns the process.
#[derive(Debug, PartialEq)]
pub struct Execute {
    pub env: Option<Vec<(String, String)>>,
    pub working_dir: Option<String>,
    pub executable: String,
    pub user: Option<SystemUser>,
    pub args: Option<Vec<String>>,
}

/// The mathematical value of an `Execute`: list fields as sequences.
pub ghost struct ExecuteV {
    pub env: Option<Seq<(String, String)>>,
    pub working_dir: Option<String>,
    pub executable: String,
    pub user: Option<SystemUserV>,
    pub args: Option<Seq<String>>,
}

impl View for Execute {
    type V = ExecuteV;

    open spec fn view(&self) -> ExecuteV {
        ExecuteV {
            env: match self.env {
                Some(pairs) => Some(pairs@),
                None => None,
            },
            working_dir: self.working_dir,
            executable: self.executable,
            user: match self.user {
                Some(u) => Some(u@),
                None => None,
            },
            args: match self.args {
                Some(a) => Some(a@),
                None => None,
            },
        }
    }
}

impl Clone for Execute {
    fn clone(&self) -> (r: Self)
        ensures
            r@ == self@,
    {
        Execute {
            env: match &self.env {
                Some(pairs) => Some(clone_string_pairs(pairs)),
                None => None,
            },
            working_dir: clone_opt_string(&self.working_dir),
            executable: self.executable.clone(),
            user: match &self.user {
                Some(u) => Some(u.clone()),
                None => None,
            },
            args: match &self.args {
                Some(a) => Some(clone_strings(a)),
                None => None,
            },
        }
    }
}

/// What a job does when it fires.
#[derive(Debug, PartialEq)]
pub enum Action {
    Exec(Execute),
    Nothing,
}

/// The mathematical value of an `Action`.
pub ghost enum ActionV {
    Exec(ExecuteV),
    Nothing,
}

impl View for Action {
    type V = ActionV;

    open spec fn view(&self) -> ActionV {
        match self {
            Action::Exec(e) => ActionV::Exec(e@),
            Action::Nothing => ActionV::Nothing,
        }
    }
}

impl Clone for Action {
    fn clone(&self) -> (r: Self)
        ensures
            r@ == self@,
    {
        match self {
            Action::Exec(e) => Action::Exec(e.clone()),
            Action::Nothing => Action::Nothing,
        }
    }
}

impl Default for Action {
    fn default() -> (r: Self)
        ensures
            r is Nothing,
    {
        Action::Nothing
    }
}

/// Policy consulted when a due trigger fires while the job is already
/// running. Its enforcement point is the scheduler loop around this core.
#[derive(Clone, Copy, Debug, PartialEq, Eq, Structural)]
pub enum DoIfRunning {
    StartNew,
    Stop,
    Restart,
    Continue,
}

impl Default for DoIfRunning {
    fn default() -> (r: Self)
        ensures
            r is StartNew,
    {
        DoIfRunning::StartNew
    }
}

/// How the next due time of a job evolves.
#[derive(Clone, Copy, Debug, PartialEq, Eq, Structural)]
pub enum Timer {
    Repeat(Duration),
    Once(DateTime),
    ManyTimes(Duration, u32),
    Never,
}

impl Default for Timer {
    fn default() -> (r: Self)
        ensures
            r is Never,
    {
        Timer::Never
    }
}

/// A job either has no automatic scheduling or a timer.
#[derive(Clone, Copy, Debug, PartialEq, Eq, Structural)]
pub enum Trigger {
    Timer(Timer),
    Nothing,
}

impl Default for Trigger {
    fn default() -> (r: Self)
        ensures
            r is Nothing,
    {
        Trigger::Nothing
    }
}

/// How an operation names an existing entry: by its numeric id or by name.
#[derive(Debug, PartialEq)]
pub enum EntryIdentifier {
    Id(u32),
    Name(String),
}

impl Clone for EntryIdentifier {
    fn clone(&self) -> (r: Self)
        ensures
            r == *self,
    {
        match self {
            EntryIdentifier::Id(id) => EntryIdentifier::Id(*id),
            EntryIdentifier::Name(name) => EntryIdentifier::Name(name.clone()),
        }
    }
}

/// The persisted definition of a schedulable job. `id` is its identity
/// within the store; everything else can be edited.
#[derive(Debug, PartialEq)]
pub struct Entry {
    pub id: u32,
    pub name: String,
    pub action: Action,
    pub logger: Logger,
    pub trigger: Trigger,
    pub status: Status,
    pub do_if_running: DoIfRunning,
    pub enabled: bool,
}

/// The mathematical value of an `Entry`.
pub ghost struct EntryV {
    pub id: u32,
    pub name: String,
    pub action: ActionV,
    pub logger: Logger,
    pub trigger: Trigger,
    pub status: Status,
    pub do_if_running: DoIfRunning,
    pub enabled: bool,
}

impl View for Entry {
    type V = EntryV;

    open spec fn view(&self) -> EntryV {
        EntryV {
            id: self.id,
            name: self.name,
            action: self.action@,
            logger: self.logger,
            trigger: self.trigger,
            status: self.status,
            do_if_running: self.do_if_running,
            enabled: self.enabled,
        }
    }
}

impl Clone for Entry {
    fn clone(&self) -> (r: Self)
        ensures
            r@ == self@,
    {
        Entry {
            id: self.id,
            name: self.name.clone(),
            action: self.action.clone(),
            logger: self.logger.clone(),
            trigger: self.trigger,
            status: self.status,
            do_if_running: self.do_if_running,
            enabled: self.enabled,
        }
    }
}

impl Entry {
    /// A fresh, enabled entry with no id and no name yet; the store assigns
    /// the id and the caller chooses the name.
    pub fn new(
        trigger: Trigger,
        logger: Logger,
        action: Action,
        do_if_running: DoIfRunning,
        status: Status,
    ) -> (r: Self)
        ensures
            r.id == 0,
            r.name@ == Seq::<char>::empty(),
            r.action == action,
            r.logger == logger,
            r.trigger == trigger,
            r.status == status,
            r.do_if_running == do_if_running,
            r.enabled,
    {
        Entry {
            id: 0,
            name: String::new(),
            action,
            logger,
            trigger,
            status,
            do_if_running,
            enabled: true,
        }
    }
}

/// The mutable runtime cursor of a job's trigger: the next due time, if
/// any, and how many times the job has fired.
#[derive(Clone, Copy, Debug, PartialEq, Eq, Structural)]
pub struct TriggerState {
    pub exec_time: Option<DateTime>,
    pub exec_times: u32,
}

impl Default for TriggerState {
    fn default() -> (r: Self)
        ensures
            r == (TriggerState { exec_time: Option::<DateTime>::None, exec_times: 0u32 }),
    {
        TriggerState { exec_time: None, exec_times: 0 }
    }
}

impl TriggerState {
    /// The initial cursor for an entry, taking the current time as an
    /// argument: a repeating timer is first due one duration after `now`
    /// (`None` if that instant cannot be represented), a one-shot timer is
    /// due at its stored time verbatim, and a never-firing or absent
    /// trigger is never due. The fire count starts at zero.
    pub fn from_entry_at(entry: &Entry, now: &DateTime) -> (r: Self)
        ensures
            r.exec_times == 0,
            match entry.trigger {
                Trigger::Timer(timer) => match timer {
                    Timer::Repeat(d) => advanced_from(*now, d, r.exec_time),
                    Timer::ManyTimes(d, _n) => advanced_from(*now, d, r.exec_time),
                    Timer::Once(dt) => r.exec_time == Some(dt),
                    Timer::Never => r.exec_time is None,
                },
                Trigger::Nothing => r.exec_time is None,
            },
    {
        match &entry.trigger {
            Trigger::Timer(timer) => match timer {
                Timer::Repeat(d) => TriggerState {
                    exec_time: DateTime::advance_instant(now, d),
                    exec_times: 0,
                },
                Timer::ManyTimes(d, _n) => TriggerState {
                    exec_time: DateTime::advance_instant(now, d),
                    exec_times: 0,
                },
                Timer::Once(dt) => TriggerState { exec_time: Some(*dt), exec_times: 0 },
                Timer::Never => TriggerState { exec_time: None, exec_times: 0 },
            },
            Trigger::Nothing => TriggerState { exec_time: None, exec_times: 0 },
        }
    }

    /// The initial cursor for an entry, read against the current local
    /// time: for an advancing timer there is a calendar-valid clock value
    /// from which the cursor was advanced by exactly one offset. The exact
    /// arithmetic is stated on `from_entry_at`; which clock value was read
    /// is the one thing left open.
    pub fn from_entry(entry: &Entry) -> (r: Self)
        ensures
            r.exec_times == 0,
            match entry.trigger {
                Trigger::Timer(timer) => match timer {
                    Timer::Repeat(d) => exists|clock: DateTime|
                        calendar_in_range(clock) && ts_in_chrono_range(clock.timestamp)
                            && #[trigger] advanced_from(clock, d, r.exec_time),
                    Timer::ManyTimes(d, _n) => exists|clock: DateTime|
                        calendar_in_range(clock) && ts_in_chrono_range(clock.timestamp)
                            && #[trigger] advanced_from(clock, d, r.exec_time),
                    Timer::Once(dt) => r.exec_time == Some(dt),
                    Timer::Never => r.exec_time is None,
                },
                Trigger::Nothing => r.exec_time is None,
            },
            match r.exec_time {
                Some(t) => calendar_in_range(t) && ts_in_chrono_range(t.timestamp) || (
                entry.trigger matches Trigger::Timer(Timer::Once(dt)) && t == dt),
                None => true,
            },
    {
        let now = DateTime::now();
        let r = Self::from_entry_at(entry, &now);
        proof {
            match entry.trigger {
                Trigger::Timer(timer) => match timer {
                    Timer::Repeat(d) => {
                        assert(advanced_from(now, d, r.exec_time));
                    },
                    Timer::ManyTimes(d, _n) => {
                        assert(advanced_from(now, d, r.exec_time));
                    },
                    _ => {},
                },
                Trigger::Nothing => {},
            }
        }
        r
    }
}

/// The advanced due time `next` is `base` moved forward by `d`'s
/// fixed-length offset, when it exists; success is owed while the shifted
/// timestamp stays within eight trillion seconds of the epoch.
pub open spec fn advanced_from(base: DateTime, d: Duration, next: Option<DateTime>) -> bool {
    &&& match next {
        Some(t) => {
            &&& t.timestamp == base.timestamp + duration_offset(d)
            &&& calendar_in_range(t)
            &&& ts_in_chrono_range(t.timestamp)
            &&& t.time_zone is Local
        },
        None => true,
    }
    &&& -8_000_000_000_000 <= base.timestamp + duration_offset(d) <= 8_000_000_000_000
        ==> next is Some
}

/// Per-operation help text for a command-line surface.
pub trait CommandHelp {
    fn cmd_help() -> String;
}

impl CommandHelp for DoIfRunning {
    fn cmd_help() -> String {
        "--rest-ir: Restart if work is running
--stop-ir: Stop if work is running
--cont-ir: Continue if work is running
--stne-ir: Start new if work is running
".to_owned()
    }
}

/// An element-wise clone of a string list; the result equals the input.
pub fn clone_strings(v: &Vec<String>) -> (r: Vec<String>)
    ensures
        r@ == v@,
{
    let mut out: Vec<String> = Vec::new();
    let mut i: usize = 0;
    while i < v.len()
        invariant
            i <= v.len(),
            out@ == v@.subrange(0, i as int),
        decreases v.len() - i,
    {
        out.push(v[i].clone());
        i = i + 1;
    }
    proof {
        assert(out@ =~= v@);
    }
    out
}

/// An element-wise clone of a list of string pairs; the result equals the
/// input.
pub fn clone_string_pairs(v: &Vec<(String, String)>) -> (r: Vec<(String, String)>)
    ensures
        r@ == v@,
{
    let mut out: Vec<(String, String)> = Vec::new();
    let mut i: usize = 0;
    while i < v.len()
        invariant
            i <= v.len(),
            out@ == v@.subrange(0, i as int),
        decreases v.len() - i,
    {
        let pair = (v[i].0.clone(), v[i].1.clone());
        proof {
            assert(pair == v@[i as int]);
        }
        out.push(pair);
        i = i + 1;
    }
    proof {
        assert(out@ =~= v@);
    }
    out
}

/// A clone of an optional string; the result equals the input.
pub fn clone_opt_string(v: &Option<String>) -> (r: Option<String>)
    ensures
        r == *v,
{
    match v {
        Some(s) => Some(s.clone()),
        None => None,
    }
}

} // verus!
