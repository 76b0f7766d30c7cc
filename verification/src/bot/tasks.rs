//! Periodic tasks: what they are, when they may run, and the registry that
//! holds them.

use vstd::prelude::*;
use vstd::string::StringExecFns;
use crate::calendar::Date;
use crate::dashboard::analyzer::{summary_entries, summary_of};
use crate::dashboard::score_table::entities::Person;
use crate::dashboard::score_table::ScoreTableRecord;
use crate::dashboard::Dashboard;
use crate::helpers::{time_text, PeriodicTimeUtc};

verus! {

/// What a task is for.
#[derive(Debug, Clone, Copy, PartialEq, Eq, Structural)]
pub enum PeriodcTaskType {
    /// It sends messages.
    Notifier,
    /// It refreshes the dashboard.
    Fetcher,
}

/// Where a task stands in its life.
#[derive(Debug, Clone, Copy, PartialEq, Eq, Structural)]
pub enum TaskState {
    /// Never scheduled.
    Idle,
    /// The timer is armed; no run is in progress.
    Scheduled,
    /// A run is in progress.
    Running,
    /// Cancelled for good: no timer, no further run.
    Cancelled,
}

impl TaskState {
    /// No timer is armed and no run is in progress.
    pub open spec fn finished(self) -> bool {
        self is Idle || self is Cancelled
    }

    /// The state after a request to schedule: only a task that was never
    /// scheduled takes it.
    pub open spec fn scheduled(self) -> TaskState {
        if self is Idle {
            TaskState::Scheduled
        } else {
            self
        }
    }

    /// The state after the timer fired: a run begins unless one is in
    /// progress or no timer is armed.
    pub open spec fn started(self) -> TaskState {
        if self is Scheduled {
            TaskState::Running
        } else {
            self
        }
    }

    /// The state after a run ended: the task waits for the next tick.
    pub open spec fn completed(self) -> TaskState {
        if self is Running {
            TaskState::Scheduled
        } else {
            self
        }
    }

    /// The state after a request to cancel.
    pub open spec fn cancelled(self) -> TaskState {
        if self.finished() {
            self
        } else {
            TaskState::Cancelled
        }
    }
}

/// The name of the task that refreshes the dashboard.
pub const FETCHER_NAME: &'static str = "PeriodicDataFetcher";

/// The name of the task that sends a fixed text.
pub const NOTIFIER_NAME: &'static str = "PeriodicNotifier";

/// The name of the task that sends the day's summary.
pub const SUMMARY_SENDER_NAME: &'static str = "PeriodicSummarySender";

/// How the refreshing task describes itself, before its time of running.
pub const FETCHER_DESCRIPTION: &'static str = "Я скачиваю данные из Google Sheets ";

/// How the reminding task describes itself, before its time of running.
pub const NOTIFIER_DESCRIPTION: &'static str = "Я прошу всех заполнить таблицу ";

/// How the summary task describes itself, before its time of running.
pub const SUMMARY_SENDER_DESCRIPTION: &'static str = "Я отправляю /todaysummary ";

/// What a task does in one run, as a value.
pub enum JobView {
    FetchDashboard,
    SendText { chat_id: i64, text: Seq<char> },
    SendSummary { chat_id: i64 },
}

/// What a task does in one run.
#[derive(Debug)]
pub enum TaskJob {
    /// Read the spreadsheet and put the new dashboard in place.
    FetchDashboard,
    /// Send this text to this chat.
    SendText { chat_id: i64, text: String },
    /// Send the summary of the day to this chat.
    SendSummary { chat_id: i64 },
}

impl View for TaskJob {
    type V = JobView;

    open spec fn view(&self) -> JobView {
        match self {
            TaskJob::FetchDashboard => JobView::FetchDashboard,
            TaskJob::SendText { chat_id, text } => JobView::SendText {
                chat_id: *chat_id,
                text: text@,
            },
            TaskJob::SendSummary { chat_id } => JobView::SendSummary { chat_id: *chat_id },
        }
    }
}

/// A task as a value.
pub struct TaskView {
    pub name: Seq<char>,
    pub time: Option<PeriodicTimeUtc>,
    pub state: TaskState,
    pub task_type: PeriodcTaskType,
    pub job: JobView,
}

impl TaskView {
    /// The task after a request to schedule it at `time`. Only a task that
    /// was never scheduled takes the request; any other stays as it is.
    pub open spec fn scheduled(self, time: PeriodicTimeUtc) -> TaskView {
        if self.state is Idle {
            TaskView { time: Some(time), state: TaskState::Scheduled, ..self }
        } else {
            self
        }
    }

    /// The task after its timer fired.
    pub open spec fn started(self) -> TaskView {
        TaskView { state: self.state.started(), ..self }
    }

    /// The task after a run ended.
    pub open spec fn completed(self) -> TaskView {
        TaskView { state: self.state.completed(), ..self }
    }

    /// The task after a request to cancel it.
    pub open spec fn cancelled(self) -> TaskView {
        TaskView { state: self.state.cancelled(), ..self }
    }

    /// How the task's description begins.
    pub open spec fn description_start(self) -> Seq<char> {
        match self.job {
            JobView::FetchDashboard => FETCHER_DESCRIPTION@,
            JobView::SendText { .. } => NOTIFIER_DESCRIPTION@,
            JobView::SendSummary { .. } => SUMMARY_SENDER_DESCRIPTION@,
        }
    }

    /// What the task says of itself once it was scheduled.
    pub open spec fn description(self) -> Option<Seq<char>> {
        match self.time {
            Some(time) => Some(self.description_start() + time_text(time)),
            None => None,
        }
    }
}

/// The overlap guard: a task whose timer is armed or whose run is in
/// progress does not take a request to schedule it, and stays exactly as it
/// is.
pub proof fn lemma_unfinished_task_refuses_schedule(task: TaskView, time: PeriodicTimeUtc)
    requires
        !task.state.finished(),
    ensures
        !(task.state is Idle),
        task.scheduled(time) == task,
{
}

/// At most one run is in progress: the timer of a running task starts no
/// second run.
pub proof fn lemma_running_task_starts_no_run(task: TaskView)
    requires
        task.state is Running,
    ensures
        task.started() == task,
{
}

/// Cancelling twice is cancelling once, and a cancelled task stays
/// cancelled whatever is asked of it.
pub proof fn lemma_cancelled_is_final(task: TaskView, time: PeriodicTimeUtc)
    ensures
        task.cancelled().cancelled() == task.cancelled(),
        task.state is Cancelled ==> task.scheduled(time) == task && task.started() == task
            && task.completed() == task && task.cancelled() == task,
{
}

/// What every task has, as a value.
pub struct TaskBaseView {
    pub name: Seq<char>,
    pub time: Option<PeriodicTimeUtc>,
    pub state: TaskState,
    pub task_type: PeriodcTaskType,
}

impl TaskBaseView {
    /// The task that has this and does `job`.
    pub open spec fn with_job(self, job: JobView) -> TaskView {
        TaskView {
            name: self.name,
            time: self.time,
            state: self.state,
            task_type: self.task_type,
            job,
        }
    }
}

/// What every task has: its name, its time of running once it was
/// scheduled, its state and its type.
pub struct TaskBase {
    name: String,
    when: Option<PeriodicTimeUtc>,
    state: TaskState,
    task_type: PeriodcTaskType,
}

impl View for TaskBase {
    type V = TaskBaseView;

    closed spec fn view(&self) -> TaskBaseView {
        TaskBaseView {
            name: self.name@,
            time: self.when,
            state: self.state,
            task_type: self.task_type,
        }
    }
}

impl TaskBase {
    fn new(name: &str, task_type: PeriodcTaskType) -> (base: TaskBase)
        ensures
            base@ == (TaskBaseView { name: name@, time: None, state: TaskState::Idle, task_type }),
    {
        TaskBase { name: String::from_str(name), when: None, state: TaskState::Idle, task_type }
    }

    fn arm(&mut self, time: PeriodicTimeUtc)
        ensures
            final(self)@ == (TaskBaseView {
                time: Some(time),
                state: TaskState::Scheduled,
                ..old(self)@
            }),
    {
        self.when = Some(time);
        self.state = TaskState::Scheduled;
    }

    fn set_state(&mut self, state: TaskState)
        ensures
            final(self)@ == (TaskBaseView { state, ..old(self)@ }),
    {
        self.state = state;
    }

    fn start_run(&mut self) -> (started: bool)
        ensures
            started == (old(self)@.state is Scheduled),
            final(self)@ == (TaskBaseView { state: old(self)@.state.started(), ..old(self)@ }),
    {
        match self.state {
            TaskState::Scheduled => {
                self.state = TaskState::Running;
                true
            },
            _ => false,
        }
    }

    fn finish_run(&mut self)
        ensures
            final(self)@ == (TaskBaseView { state: old(self)@.state.completed(), ..old(self)@ }),
    {
        match self.state {
            TaskState::Running => {
                self.state = TaskState::Scheduled;
            },
            _ => {},
        }
    }

    fn name(&self) -> (name: &str)
        ensures
            name@ == self@.name,
    {
        self.name.as_str()
    }

    fn when(&self) -> (time: Option<&PeriodicTimeUtc>)
        ensures
            match time {
                Some(time) => self@.time == Some(*time),
                None => self@.time is None,
            },
    {
        self.when.as_ref()
    }

    fn state(&self) -> (state: TaskState)
        ensures
            state == self@.state,
    {
        self.state
    }

    fn task_type(&self) -> (task_type: &PeriodcTaskType)
        ensures
            *task_type == self@.task_type,
    {
        &self.task_type
    }

    fn description(&self, start: &str) -> (out: Option<String>)
        ensures
            match out {
                Some(text) => self@.time matches Some(time) && text@ == start@ + time_text(time),
                None => self@.time is None,
            },
    {
        match &self.when {
            Some(time) => {
                let mut text = String::from_str(start);
                text.append(time.describe().as_str());
                Some(text)
            },
            None => None,
        }
    }
}

/// A unit of recurring work with a life of its own: never scheduled, then
/// scheduled, running while a run is in progress, and cancelled for good.
/// At most one run of a task is in progress at any time.
pub trait PeriodicTask {
    /// The task as a value.
    spec fn task_view(&self) -> TaskView;

    /// Asks for the task to run at `when`. Only a task that was never
    /// scheduled takes the request; where a timer is armed, a run is in
    /// progress or the task was cancelled, the call returns `false` and
    /// leaves the task as it is.
    fn schedule(&mut self, when: PeriodicTimeUtc) -> (accepted: bool)
        ensures
            accepted == (old(self).task_view().state is Idle),
            !old(self).task_view().state.finished() ==> !accepted,
            final(self).task_view() == old(self).task_view().scheduled(when),
            !accepted ==> final(self).task_view() == old(self).task_view(),
    {
        match self.state() {
            TaskState::Idle => {
                self.submit_job(when);
                true
            },
            _ => false,
        }
    }

    /// Whether no timer is armed and no run is in progress.
    fn is_finished(&self) -> (finished: bool)
        ensures
            finished == self.task_view().state.finished(),
    {
        match self.state() {
            TaskState::Idle | TaskState::Cancelled => true,
            _ => false,
        }
    }

    /// Cancels the task for good. A task that was never scheduled or is
    /// cancelled already stays as it is.
    fn cancel(&mut self)
        ensures
            final(self).task_view() == old(self).task_view().cancelled(),
    {
        if !self.is_finished() {
            self.abort();
        }
    }

    /// Arms the task's timer.
    fn submit_job(&mut self, when: PeriodicTimeUtc)
        requires
            old(self).task_view().state is Idle,
        ensures
            final(self).task_view() == old(self).task_view().scheduled(when),
    ;

    /// Drops the timer and the run in progress.
    fn abort(&mut self)
        requires
            !old(self).task_view().state.finished(),
        ensures
            final(self).task_view() == old(self).task_view().cancelled(),
    ;

    /// Takes note that the timer fired. A run begins only where the timer
    /// is armed and no run is in progress; then the call returns `true`.
    fn start_run(&mut self) -> (started: bool)
        ensures
            started == (old(self).task_view().state is Scheduled),
            final(self).task_view() == old(self).task_view().started(),
    ;

    /// Takes note that the run in progress ended.
    fn finish_run(&mut self)
        ensures
            final(self).task_view() == old(self).task_view().completed(),
    ;

    fn name(&self) -> (name: &str)
        ensures
            name@ == self.task_view().name,
    ;

    fn when(&self) -> (time: Option<&PeriodicTimeUtc>)
        ensures
            match time {
                Some(time) => self.task_view().time == Some(*time),
                None => self.task_view().time is None,
            },
    ;

    /// Where the task stands in its life.
    fn state(&self) -> (state: TaskState)
        ensures
            state == self.task_view().state,
    ;

    fn task_type(&self) -> (task_type: &PeriodcTaskType)
        ensures
            *task_type == self.task_view().task_type,
    ;

    /// What the task says of itself; nothing before it was scheduled.
    fn description(&self) -> (out: Option<String>)
        ensures
            match out {
                Some(text) => self.task_view().description() == Some(text@),
                None => self.task_view().description() is None,
            },
    ;

    /// What the task does in one run.
    fn job(&self) -> (job: TaskJob)
        ensures
            job@ == self.task_view().job,
    ;
}

/// Refreshes the dashboard from the spreadsheet.
pub struct PeriodicDataFetcher {
    base: TaskBase,
}

impl PeriodicDataFetcher {
    fn new() -> (task: Self)
        ensures
            task.task_view() == (TaskView {
                name: FETCHER_NAME@,
                time: None,
                state: TaskState::Idle,
                task_type: PeriodcTaskType::Fetcher,
                job: JobView::FetchDashboard,
            }),
    {
        PeriodicDataFetcher { base: TaskBase::new(FETCHER_NAME, PeriodcTaskType::Fetcher) }
    }

    /// Ends a run of the task: a dashboard that was read replaces the one
    /// held, whole; a failed reading leaves the one held as it is. Returns
    /// whether the dashboard was replaced.
    pub fn do_update<E>(dashboard: &mut Dashboard, fetched: Result<Dashboard, E>) -> (replaced: bool)
        ensures
            replaced == (fetched is Ok),
            final(dashboard)@ == match fetched {
                Ok(latest) => latest@,
                Err(_) => old(dashboard)@,
            },
    {
        match fetched {
            Ok(latest) => {
                dashboard.replace(latest);
                true
            },
            Err(_) => false,
        }
    }
}

impl PeriodicTask for PeriodicDataFetcher {
    closed spec fn task_view(&self) -> TaskView {
        self.base@.with_job(JobView::FetchDashboard)
    }

    fn submit_job(&mut self, when: PeriodicTimeUtc) {
        self.base.arm(when);
    }

    fn abort(&mut self) {
        self.base.set_state(TaskState::Cancelled);
    }

    fn start_run(&mut self) -> (started: bool) {
        self.base.start_run()
    }

    fn finish_run(&mut self) {
        self.base.finish_run();
    }

    fn description(&self) -> (out: Option<String>) {
        self.base.description(FETCHER_DESCRIPTION)
    }

    fn task_type(&self) -> (task_type: &PeriodcTaskType) {
        self.base.task_type()
    }

    fn state(&self) -> (state: TaskState) {
        self.base.state()
    }

    fn when(&self) -> (time: Option<&PeriodicTimeUtc>) {
        self.base.when()
    }

    fn name(&self) -> (name: &str) {
        self.base.name()
    }

    fn job(&self) -> (job: TaskJob) {
        TaskJob::FetchDashboard
    }
}

/// Sends a fixed text to a chat.
pub struct PeriodicNotifier {
    base: TaskBase,
    text: String,
    chat_id: i64,
}

impl PeriodicNotifier {
    fn new(text: String, chat_id: i64) -> (task: Self)
        ensures
            task.task_view() == (TaskView {
                name: NOTIFIER_NAME@,
                time: None,
                state: TaskState::Idle,
                task_type: PeriodcTaskType::Notifier,
                job: JobView::SendText { chat_id, text: text@ },
            }),
    {
        PeriodicNotifier {
            base: TaskBase::new(NOTIFIER_NAME, PeriodcTaskType::Notifier),
            text,
            chat_id,
        }
    }
}

impl PeriodicTask for PeriodicNotifier {
    closed spec fn task_view(&self) -> TaskView {
        self.base@.with_job(JobView::SendText { chat_id: self.chat_id, text: self.text@ })
    }

    fn submit_job(&mut self, when: PeriodicTimeUtc) {
        self.base.arm(when);
    }

    fn abort(&mut self) {
        self.base.set_state(TaskState::Cancelled);
    }

    fn start_run(&mut self) -> (started: bool) {
        self.base.start_run()
    }

    fn finish_run(&mut self) {
        self.base.finish_run();
    }

    fn description(&self) -> (out: Option<String>) {
        self.base.description(NOTIFIER_DESCRIPTION)
    }

    fn task_type(&self) -> (task_type: &PeriodcTaskType) {
        self.base.task_type()
    }

    fn state(&self) -> (state: TaskState) {
        self.base.state()
    }

    fn when(&self) -> (time: Option<&PeriodicTimeUtc>) {
        self.base.when()
    }

    fn name(&self) -> (name: &str) {
        self.base.name()
    }

    fn job(&self) -> (job: TaskJob) {
        TaskJob::SendText { chat_id: self.chat_id, text: self.text.clone() }
    }
}

/// Sends the summary of the day to a chat.
pub struct PeriodicSummarySender {
    base: TaskBase,
    chat_id: i64,
}

impl PeriodicSummarySender {
    fn new(chat_id: i64) -> (task: Self)
        ensures
            task.task_view() == (TaskView {
                name: SUMMARY_SENDER_NAME@,
                time: None,
                state: TaskState::Idle,
                task_type: PeriodcTaskType::Notifier,
                job: JobView::SendSummary { chat_id },
            }),
    {
        PeriodicSummarySender {
            base: TaskBase::new(SUMMARY_SENDER_NAME, PeriodcTaskType::Notifier),
            chat_id,
        }
    }

    /// What a run of the task has to tell for the day `today`: every person
    /// who filled the day in, with the day's record. A dashboard without
    /// persons gives nothing to send.
    pub fn send_summary<'a>(dashboard: &'a Dashboard, today: &Date) -> (out: Option<
        Vec<(&'a Person, &'a ScoreTableRecord)>,
    >)
        ensures
            match out {
                Some(entries) => dashboard@ matches Some(tables) && tables.len() > 0
                    && summary_entries(entries@) == summary_of(tables, *today),
                None => dashboard@ matches Some(tables) ==> tables.len() == 0,
            },
    {
        match dashboard.summary(today) {
            Ok(entries) => Some(entries),
            Err(_) => None,
        }
    }
}

impl PeriodicTask for PeriodicSummarySender {
    closed spec fn task_view(&self) -> TaskView {
        self.base@.with_job(JobView::SendSummary { chat_id: self.chat_id })
    }

    fn submit_job(&mut self, when: PeriodicTimeUtc) {
        self.base.arm(when);
    }

    fn abort(&mut self) {
        self.base.set_state(TaskState::Cancelled);
    }

    fn start_run(&mut self) -> (started: bool) {
        self.base.start_run()
    }

    fn finish_run(&mut self) {
        self.base.finish_run();
    }

    fn description(&self) -> (out: Option<String>) {
        self.base.description(SUMMARY_SENDER_DESCRIPTION)
    }

    fn task_type(&self) -> (task_type: &PeriodcTaskType) {
        self.base.task_type()
    }

    fn state(&self) -> (state: TaskState) {
        self.base.state()
    }

    fn when(&self) -> (time: Option<&PeriodicTimeUtc>) {
        self.base.when()
    }

    fn name(&self) -> (name: &str) {
        self.base.name()
    }

    fn job(&self) -> (job: TaskJob) {
        TaskJob::SendSummary { chat_id: self.chat_id }
    }
}

/// A task of any kind, as the registry holds it.
pub enum RegisteredTask {
    Fetcher(PeriodicDataFetcher),
    Notifier(PeriodicNotifier),
    SummarySender(PeriodicSummarySender),
}

impl PeriodicTask for RegisteredTask {
    open spec fn task_view(&self) -> TaskView {
        match self {
            RegisteredTask::Fetcher(task) => task.task_view(),
            RegisteredTask::Notifier(task) => task.task_view(),
            RegisteredTask::SummarySender(task) => task.task_view(),
        }
    }

    fn submit_job(&mut self, when: PeriodicTimeUtc) {
        match self {
            RegisteredTask::Fetcher(task) => task.submit_job(when),
            RegisteredTask::Notifier(task) => task.submit_job(when),
            RegisteredTask::SummarySender(task) => task.submit_job(when),
        }
    }

    fn abort(&mut self) {
        match self {
            RegisteredTask::Fetcher(task) => task.abort(),
            RegisteredTask::Notifier(task) => task.abort(),
            RegisteredTask::SummarySender(task) => task.abort(),
        }
    }

    fn start_run(&mut self) -> (started: bool) {
        match self {
            RegisteredTask::Fetcher(task) => task.start_run(),
            RegisteredTask::Notifier(task) => task.start_run(),
            RegisteredTask::SummarySender(task) => task.start_run(),
        }
    }

    fn finish_run(&mut self) {
        match self {
            RegisteredTask::Fetcher(task) => task.finish_run(),
            RegisteredTask::Notifier(task) => task.finish_run(),
            RegisteredTask::SummarySender(task) => task.finish_run(),
        }
    }

    fn description(&self) -> (out: Option<String>) {
        match self {
            RegisteredTask::Fetcher(task) => task.description(),
            RegisteredTask::Notifier(task) => task.description(),
            RegisteredTask::SummarySender(task) => task.description(),
        }
    }

    fn task_type(&self) -> (task_type: &PeriodcTaskType) {
        match self {
            RegisteredTask::Fetcher(task) => task.task_type(),
            RegisteredTask::Notifier(task) => task.task_type(),
            RegisteredTask::SummarySender(task) => task.task_type(),
        }
    }

    fn state(&self) -> (state: TaskState) {
        match self {
            RegisteredTask::Fetcher(task) => task.state(),
            RegisteredTask::Notifier(task) => task.state(),
            RegisteredTask::SummarySender(task) => task.state(),
        }
    }

    fn when(&self) -> (time: Option<&PeriodicTimeUtc>) {
        match self {
            RegisteredTask::Fetcher(task) => task.when(),
            RegisteredTask::Notifier(task) => task.when(),
            RegisteredTask::SummarySender(task) => task.when(),
        }
    }

    fn name(&self) -> (name: &str) {
        match self {
            RegisteredTask::Fetcher(task) => task.name(),
            RegisteredTask::Notifier(task) => task.name(),
            RegisteredTask::SummarySender(task) => task.name(),
        }
    }

    fn job(&self) -> (job: TaskJob) {
        match self {
            RegisteredTask::Fetcher(task) => task.job(),
            RegisteredTask::Notifier(task) => task.job(),
            RegisteredTask::SummarySender(task) => task.job(),
        }
    }
}

/// The tasks of `tasks` as values, in order.
pub open spec fn task_views(tasks: Seq<RegisteredTask>) -> Seq<TaskView> {
    Seq::new(tasks.len(), |i: int| tasks[i].task_view())
}

/// Those of `tasks` that are of the type `task_type`, in order.
pub open spec fn of_type(tasks: Seq<TaskView>, task_type: PeriodcTaskType) -> Seq<TaskView>
    decreases tasks.len(),
{
    if tasks.len() == 0 {
        Seq::empty()
    } else if tasks.last().task_type == task_type {
        of_type(tasks.drop_last(), task_type).push(tasks.last())
    } else {
        of_type(tasks.drop_last(), task_type)
    }
}

/// Every task of `tasks` after a request to cancel it.
pub open spec fn all_cancelled(tasks: Seq<TaskView>) -> Seq<TaskView> {
    Seq::new(tasks.len(), |i: int| tasks[i].cancelled())
}

/// The registry of all tasks: it makes them, schedules them and cancels
/// them together.
pub struct TaskManager {
    tasks: Vec<RegisteredTask>,
}

impl View for TaskManager {
    type V = Seq<TaskView>;

    /// The registered tasks, in the order in which they were registered.
    closed spec fn view(&self) -> Seq<TaskView> {
        task_views(self.tasks@)
    }
}

impl TaskManager {
    /// A registry without tasks.
    pub fn new() -> (manager: Self)
        ensures
            manager@ == Seq::<TaskView>::empty(),
    {
        let tasks: Vec<RegisteredTask> = Vec::new();
        assert(task_views(tasks@) =~= Seq::<TaskView>::empty());
        Self { tasks }
    }

    /// A task that sends `text` to the chat `chat_id`, not yet scheduled.
    pub fn create_notifier_task(&self, text: String, chat_id: i64) -> (task: PeriodicNotifier)
        ensures
            task.task_view() == (TaskView {
                name: NOTIFIER_NAME@,
                time: None,
                state: TaskState::Idle,
                task_type: PeriodcTaskType::Notifier,
                job: JobView::SendText { chat_id, text: text@ },
            }),
    {
        PeriodicNotifier::new(text, chat_id)
    }

    /// A task that refreshes the dashboard, not yet scheduled.
    pub fn create_data_fetcher_task(&self) -> (task: PeriodicDataFetcher)
        ensures
            task.task_view() == (TaskView {
                name: FETCHER_NAME@,
                time: None,
                state: TaskState::Idle,
                task_type: PeriodcTaskType::Fetcher,
                job: JobView::FetchDashboard,
            }),
    {
        PeriodicDataFetcher::new()
    }

    /// A task that sends the day's summary to the chat `chat_id`, not yet
    /// scheduled.
    pub fn create_summary_sender_task(&self, chat_id: i64) -> (task: PeriodicSummarySender)
        ensures
            task.task_view() == (TaskView {
                name: SUMMARY_SENDER_NAME@,
                time: None,
                state: TaskState::Idle,
                task_type: PeriodcTaskType::Notifier,
                job: JobView::SendSummary { chat_id },
            }),
    {
        PeriodicSummarySender::new(chat_id)
    }

    /// The registered tasks of the type `task_type`, in the order in which
    /// they were registered.
    pub fn tasks(&self, task_type: PeriodcTaskType) -> (out: Vec<&RegisteredTask>)
        ensures
            Seq::new(out@.len(), |i: int| out@[i].task_view()) == of_type(self@, task_type),
    {
        let mut out: Vec<&RegisteredTask> = Vec::new();
        let mut i: usize = 0;
        assert(self@.take(0) =~= Seq::<TaskView>::empty());
        while i < self.tasks.len()
            invariant
                i <= self.tasks.len(),
                self@ == task_views(self.tasks@),
                Seq::new(out@.len(), |k: int| out@[k].task_view()) == of_type(
                    self@.take(i as int),
                    task_type,
                ),
            decreases self.tasks.len() - i,
        {
            let ghost next = self@.take(i + 1);
            assert(next.drop_last() =~= self@.take(i as int));
            assert(next.last() == self.tasks@[i as int].task_view());
            let ghost before = Seq::new(out@.len(), |k: int| out@[k].task_view());
            if *self.tasks[i].task_type() == task_type {
                out.push(&self.tasks[i]);
                assert(Seq::new(out@.len(), |k: int| out@[k].task_view()) =~= before.push(
                    self.tasks@[i as int].task_view(),
                ));
            }
            i += 1;
        }
        assert(self@.take(i as int) =~= self@);
        out
    }

    /// Schedules `task` at `when` and registers it, whether or not it took
    /// the request. Returns whether it did.
    pub fn schedule_task(&mut self, task: RegisteredTask, when: PeriodicTimeUtc) -> (accepted: bool)
        ensures
            accepted == (task.task_view().state is Idle),
            final(self)@ == old(self)@.push(task.task_view().scheduled(when)),
    {
        let mut scheduled = task;
        let accepted = scheduled.schedule(when);
        let ghost before = task_views(self.tasks@);
        let ghost added = scheduled.task_view();
        self.tasks.push(scheduled);
        assert(task_views(self.tasks@) =~= before.push(added));
        accepted
    }

    /// Cancels every registered task.
    pub fn finalize_tasks(&mut self)
        ensures
            final(self)@ == all_cancelled(old(self)@),
    {
        let mut i: usize = 0;
        while i < self.tasks.len()
            invariant
                i <= self.tasks.len(),
                self.tasks@.len() == old(self).tasks@.len(),
                forall|k: int|
                    0 <= k < i ==> (#[trigger] self.tasks@[k]).task_view() == old(
                        self,
                    ).tasks@[k].task_view().cancelled(),
                forall|k: int|
                    i <= k < self.tasks@.len() ==> (#[trigger] self.tasks@[k]).task_view() == old(
                        self,
                    ).tasks@[k].task_view(),
            decreases self.tasks.len() - i,
        {
            self.tasks[i].cancel();
            i += 1;
        }
        assert(task_views(self.tasks@) =~= all_cancelled(task_views(old(self).tasks@)));
    }

    /// The number of registered tasks.
    pub fn len(&self) -> (n: usize)
        ensures
            n == self@.len(),
    {
        self.tasks.len()
    }

    /// The task registered at position `index`.
    pub fn task(&self, index: usize) -> (out: Option<&RegisteredTask>)
        ensures
            match out {
                Some(task) => index < self@.len() && task.task_view() == self@[index as int],
                None => index >= self@.len(),
            },
    {
        if index < self.tasks.len() {
            Some(&self.tasks[index])
        } else {
            None
        }
    }

    /// Takes note that the timer of the task at `index` fired, and says
    /// what the run has to do. Nothing is to be done, and nothing changes,
    /// where there is no such task, where its timer is not armed, or where
    /// a run of it is in progress.
    pub fn start_run(&mut self, index: usize) -> (job: Option<TaskJob>)
        ensures
            match job {
                Some(job) => index < old(self)@.len() && old(self)@[index as int].state is Scheduled
                    && job@ == old(self)@[index as int].job && final(self)@ == old(self)@.update(
                    index as int,
                    old(self)@[index as int].started(),
                ),
                None => (index < old(self)@.len() ==> !(old(self)@[index as int].state
                    is Scheduled)) && final(self)@ == old(self)@,
            },
    {
        if index >= self.tasks.len() {
            return None;
        }
        let ghost before = task_views(self.tasks@);
        let started = self.tasks[index].start_run();
        if started {
            assert(task_views(self.tasks@) =~= before.update(
                index as int,
                before[index as int].started(),
            ));
            Some(self.tasks[index].job())
        } else {
            assert(task_views(self.tasks@) =~= before);
            None
        }
    }

    /// Takes note that the run of the task at `index` ended.
    pub fn finish_run(&mut self, index: usize)
        ensures
            final(self)@ == if index < old(self)@.len() {
                old(self)@.update(index as int, old(self)@[index as int].completed())
            } else {
                old(self)@
            },
    {
        if index < self.tasks.len() {
            let ghost before = task_views(self.tasks@);
            self.tasks[index].finish_run();
            assert(task_views(self.tasks@) =~= before.update(
                index as int,
                before[index as int].completed(),
            ));
        }
    }
}

} // verus!


