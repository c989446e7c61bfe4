//! Deployment execution: walking a plan against a session.
//!
//! The session and the local disk belong to the caller. A [`Deployment`]
//! says what to do next and takes what happened; the caller performs the
//! pending action, reports the event, and repeats until the run has ended.
//!
//! A run goes through the categories in plan order. On entering a
//! category the caller is told so; the scripts category then has its
//! remote directory created. Each pair is probed on the local disk. A
//! source that does not exist is skipped, and the run goes on; but the
//! bootstrap script of the server-setup category is required, and the run
//! ends where it is missing. A
//! configuration file has the directory of its destination created first;
//! a directory among the services is sent as a tree. Files of the
//! server-setup and scripts categories are made executable after the
//! transfer, except the helper `setup_aliases.sh`. A failure of the
//! transport aborts the run: nothing further is attempted.

use crate::deploy::{item_views, Category, DeploymentItem, DeploymentItemView};
use crate::error::{TransferError, TransferErrorView};
use crate::path::{base_name, file_name, parent_dir, parent_of};
use crate::ssh::{chmod_command, mkdir_command};
use crate::text::same_text;
use vstd::prelude::*;

verus! {

/// Where a run stands as a whole.
#[derive(Clone, Copy, Debug, PartialEq, Eq, Structural)]
pub enum RunStatus {
    /// Nothing was done yet.
    Planned,
    /// Work is under way.
    InProgress,
    /// Every pair of the plan was transferred or skipped.
    Completed,
    /// The transport failed; the rest of the plan was given up.
    Aborted,
}

/// Where the work on the current category or pair stands.
#[derive(Clone, Copy, Debug, PartialEq, Eq, Structural)]
pub enum Phase {
    /// The category is being entered.
    Enter,
    /// The remote directory of the category is being created.
    Prepare,
    /// The local source is being looked at.
    Probe,
    /// The directory of the remote destination is being created.
    MakeParent,
    /// The source is being sent as one file.
    Transfer,
    /// The source is being sent as a directory tree.
    TransferTree,
    /// The destination is being made executable.
    MarkExecutable,
}

/// What lies at a local path.
#[derive(Clone, Copy, Debug, PartialEq, Eq, Structural)]
pub enum LocalKind {
    Missing,
    File,
    Directory,
}

/// What happened to the pending action of a run.
#[derive(Clone, Copy, Debug, PartialEq, Eq, Structural)]
pub enum DeployEvent {
    /// The pending action was carried out. A remote command that ended
    /// with a non-zero status counts as carried out.
    Acknowledged,
    /// What the local disk holds at the source path.
    Local(LocalKind),
    /// The transport failed.
    TransportFailed,
}

/// Why a run was aborted.
#[derive(Clone, Copy, Debug, PartialEq, Eq, Structural)]
pub enum AbortCause {
    /// The transport failed.
    TransportFailed,
    /// A required source does not exist on the local disk.
    RequiredSourceMissing,
}

/// How the work on one pair ended.
#[derive(Clone, Copy, Debug, PartialEq, Eq, Structural)]
pub enum PairOutcome {
    Transferred,
    Skipped,
}

/// What the caller is to do next.
#[derive(Debug, PartialEq, Eq)]
pub enum DeployAction {
    /// Report that the work on this category begins.
    BeginCategory(Category),
    /// Run this command on the target.
    RunCommand(String),
    /// Find out what lies at this local path.
    ProbeLocal(String),
    /// Send the local file to the remote path.
    CopyFile { local: String, remote: String },
    /// Send the local directory tree to the remote directory.
    CopyDirectory { local: String, remote: String },
}

/// Mathematical model of a [`DeployAction`].
pub enum DeployActionView {
    BeginCategory(Category),
    RunCommand(Seq<char>),
    ProbeLocal(Seq<char>),
    CopyFile { local: Seq<char>, remote: Seq<char> },
    CopyDirectory { local: Seq<char>, remote: Seq<char> },
}

impl View for DeployAction {
    type V = DeployActionView;

    open spec fn view(&self) -> DeployActionView {
        match self {
            DeployAction::BeginCategory(category) => DeployActionView::BeginCategory(*category),
            DeployAction::RunCommand(command) => DeployActionView::RunCommand(command@),
            DeployAction::ProbeLocal(path) => DeployActionView::ProbeLocal(path@),
            DeployAction::CopyFile { local, remote } => DeployActionView::CopyFile {
                local: local@,
                remote: remote@,
            },
            DeployAction::CopyDirectory { local, remote } => DeployActionView::CopyDirectory {
                local: local@,
                remote: remote@,
            },
        }
    }
}

impl Clone for DeployAction {
    fn clone(&self) -> (r: Self)
        ensures
            r@ == self@,
    {
        match self {
            DeployAction::BeginCategory(category) => DeployAction::BeginCategory(*category),
            DeployAction::RunCommand(command) => DeployAction::RunCommand(command.clone()),
            DeployAction::ProbeLocal(path) => DeployAction::ProbeLocal(path.clone()),
            DeployAction::CopyFile { local, remote } => DeployAction::CopyFile {
                local: local.clone(),
                remote: remote.clone(),
            },
            DeployAction::CopyDirectory { local, remote } => DeployAction::CopyDirectory {
                local: local.clone(),
                remote: remote.clone(),
            },
        }
    }
}

/// The plan of a run.
pub type PlanView = Seq<DeploymentItemView>;

/// The changing part of a run: its status, the cursor into the plan, and
/// the outcomes of the pairs that are finished.
pub struct RunView {
    pub status: RunStatus,
    /// Index of the current category.
    pub item: int,
    /// Index of the current pair within its category.
    pub pair: int,
    pub phase: Phase,
    /// One outcome for each finished pair, in plan order.
    pub outcomes: Seq<PairOutcome>,
    /// Why the run was aborted, if it was.
    pub cause: Option<AbortCause>,
}

/// The name of the helper script that is never made executable.
pub open spec fn helper_script() -> Seq<char> {
    "setup_aliases.sh"@
}

/// The remote directory that holds the scripts.
pub open spec fn scripts_directory() -> Seq<char> {
    "~/scripts"@
}

/// Whether a transferred file is made executable: files of the
/// server-setup and scripts categories are, except the helper script.
pub open spec fn made_executable(category: Category, local: Seq<char>) -> bool {
    (category is ServerSetup || category is Scripts) && base_name(local) != helper_script()
}

/// Whether the directory of the destination is created before the
/// transfer: for configuration files whose destination has one.
pub open spec fn parent_is_made(category: Category, remote: Seq<char>) -> bool {
    category is Configs && parent_dir(remote) is Some
}

/// Number of pairs in the categories before index `item`.
pub open spec fn pairs_before(plan: PlanView, item: int) -> int
    decreases item,
{
    if item <= 0 {
        0
    } else {
        pairs_before(plan, item - 1) + plan[item - 1].files.len()
    }
}

/// Number of pairs in the whole plan.
pub open spec fn total_pairs(plan: PlanView) -> int {
    pairs_before(plan, plan.len() as int)
}

/// Whether the run can still take events.
pub open spec fn is_active(status: RunStatus) -> bool {
    status is Planned || status is InProgress
}

/// The run before anything was done. A run on an empty plan is complete
/// at once.
pub open spec fn initial_run(plan: PlanView) -> RunView {
    RunView {
        status: if plan.len() == 0 {
            RunStatus::Completed
        } else {
            RunStatus::Planned
        },
        item: 0,
        pair: 0,
        phase: Phase::Enter,
        outcomes: Seq::empty(),
        cause: None,
    }
}

/// The run as it enters the next category, or completes after the last.
pub open spec fn next_item(plan: PlanView, run: RunView) -> RunView {
    if run.item + 1 < plan.len() {
        RunView {
            status: RunStatus::InProgress,
            item: run.item + 1,
            pair: 0,
            phase: Phase::Enter,
            ..run
        }
    } else {
        RunView {
            status: RunStatus::Completed,
            item: plan.len() as int,
            pair: 0,
            phase: Phase::Enter,
            ..run
        }
    }
}

/// The run as it turns to the first pair of the current category, or to
/// the next category if this one has no pairs.
pub open spec fn first_pair(plan: PlanView, run: RunView) -> RunView {
    if plan[run.item].files.len() > 0 {
        RunView { status: RunStatus::InProgress, pair: 0, phase: Phase::Probe, ..run }
    } else {
        next_item(plan, run)
    }
}

/// The run after the current pair ended with `outcome`: the outcome is
/// recorded and the run turns to the next pair, or to the next category
/// after the last pair.
pub open spec fn next_pair(plan: PlanView, run: RunView, outcome: PairOutcome) -> RunView {
    let recorded = RunView { outcomes: run.outcomes.push(outcome), ..run };
    if run.pair + 1 < plan[run.item].files.len() {
        RunView {
            status: RunStatus::InProgress,
            pair: run.pair + 1,
            phase: Phase::Probe,
            ..recorded
        }
    } else {
        next_item(plan, recorded)
    }
}

/// The run as it begins the transfer of a source that exists.
pub open spec fn begin_transfer(plan: PlanView, run: RunView, kind: LocalKind) -> RunView {
    let category = plan[run.item].category;
    let remote = plan[run.item].files[run.pair].remote;
    let phase = if parent_is_made(category, remote) {
        Phase::MakeParent
    } else if category is Services && kind is Directory {
        Phase::TransferTree
    } else {
        Phase::Transfer
    };
    RunView { status: RunStatus::InProgress, phase: phase, ..run }
}

/// Whether the sources of a category are required: those of the
/// server-setup category are, since a server cannot be set up without its
/// bootstrap script.
pub open spec fn is_required(category: Category) -> bool {
    category is ServerSetup
}

/// The run as it is aborted where it stands.
pub open spec fn aborted(run: RunView, cause: AbortCause) -> RunView {
    RunView { status: RunStatus::Aborted, cause: Some(cause), ..run }
}

/// The run after the source of the current pair was found missing: a
/// required source ends the run, any other is skipped.
pub open spec fn source_missing(plan: PlanView, run: RunView) -> RunView {
    if is_required(plan[run.item].category) {
        aborted(run, AbortCause::RequiredSourceMissing)
    } else {
        next_pair(plan, run, PairOutcome::Skipped)
    }
}

/// The failure of a run that ended for want of a required source: that
/// source, as a local file that was not found.
pub open spec fn run_failure(plan: PlanView, run: RunView) -> Option<TransferErrorView> {
    if run.cause == Some(AbortCause::RequiredSourceMissing) {
        Some(
            TransferErrorView::LocalFileNotFound {
                path: plan[run.item].files[run.pair].local,
                detail: Seq::empty(),
            },
        )
    } else {
        None
    }
}

/// The run after `event`.
///
/// A run that has ended takes no events. In a run that has not, a failure
/// of the transport aborts it where it stands, and so does a required
/// source that is missing. Otherwise the event is taken if it answers the
/// pending action, and ignored if it does not.
pub open spec fn deploy_step(plan: PlanView, run: RunView, event: DeployEvent) -> RunView {
    if !is_active(run.status) {
        run
    } else {
        let category = plan[run.item].category;
        match (run.phase, event) {
            (_, DeployEvent::TransportFailed) => aborted(run, AbortCause::TransportFailed),
            (Phase::Enter, DeployEvent::Acknowledged) => if category is Scripts {
                RunView { status: RunStatus::InProgress, phase: Phase::Prepare, ..run }
            } else {
                first_pair(plan, run)
            },
            (Phase::Prepare, DeployEvent::Acknowledged) => first_pair(plan, run),
            (Phase::Probe, DeployEvent::Local(LocalKind::Missing)) => source_missing(plan, run),
            (Phase::Probe, DeployEvent::Local(kind)) => begin_transfer(plan, run, kind),
            (Phase::MakeParent, DeployEvent::Acknowledged) => RunView {
                status: RunStatus::InProgress,
                phase: Phase::Transfer,
                ..run
            },
            (Phase::Transfer, DeployEvent::Acknowledged)
            | (Phase::TransferTree, DeployEvent::Acknowledged) => if made_executable(
                category,
                plan[run.item].files[run.pair].local,
            ) {
                RunView { status: RunStatus::InProgress, phase: Phase::MarkExecutable, ..run }
            } else {
                next_pair(plan, run, PairOutcome::Transferred)
            },
            (Phase::Transfer, DeployEvent::Local(LocalKind::Missing))
            | (Phase::TransferTree, DeployEvent::Local(LocalKind::Missing)) => source_missing(
                plan,
                run,
            ),
            (Phase::MarkExecutable, DeployEvent::Acknowledged) => next_pair(
                plan,
                run,
                PairOutcome::Transferred,
            ),
            _ => run,
        }
    }
}

/// The action that a run asks for; none once the run has ended.
pub open spec fn deploy_action(plan: PlanView, run: RunView) -> Option<DeployActionView> {
    if !is_active(run.status) {
        None
    } else {
        let category = plan[run.item].category;
        let files = plan[run.item].files;
        match run.phase {
            Phase::Enter => Some(DeployActionView::BeginCategory(category)),
            Phase::Prepare => Some(DeployActionView::RunCommand("mkdir -p "@ + scripts_directory())),
            Phase::Probe => Some(DeployActionView::ProbeLocal(files[run.pair].local)),
            Phase::MakeParent => Some(
                DeployActionView::RunCommand(
                    "mkdir -p "@ + parent_dir(files[run.pair].remote)->0,
                ),
            ),
            Phase::Transfer => Some(
                DeployActionView::CopyFile {
                    local: files[run.pair].local,
                    remote: files[run.pair].remote,
                },
            ),
            Phase::TransferTree => Some(
                DeployActionView::CopyDirectory {
                    local: files[run.pair].local,
                    remote: files[run.pair].remote,
                },
            ),
            Phase::MarkExecutable => Some(
                DeployActionView::RunCommand("chmod +x "@ + files[run.pair].remote),
            ),
        }
    }
}

/// Whether the cursor of the run points into the plan, the recorded
/// outcomes are those of the pairs before the cursor, and a cause is
/// named exactly for a run that was aborted.
pub open spec fn run_wf(plan: PlanView, run: RunView) -> bool {
    &&& run.outcomes.len() == pairs_before(plan, run.item) + run.pair
    &&& run.cause is Some <==> run.status is Aborted
    &&& run.cause == Some(AbortCause::RequiredSourceMissing) ==> !(run.phase is Enter || run.phase
        is Prepare)
    &&& if run.status is Completed {
        run.item == plan.len() && run.pair == 0
    } else {
        &&& 0 <= run.item < plan.len()
        &&& if run.phase is Enter || run.phase is Prepare {
            run.pair == 0
        } else {
            0 <= run.pair < plan[run.item].files.len()
        }
        &&& run.phase is MakeParent ==> parent_dir(plan[run.item].files[run.pair].remote) is Some
    }
}

/// The run after a sequence of events.
pub open spec fn deploy_run(plan: PlanView, run: RunView, events: Seq<DeployEvent>) -> RunView
    decreases events.len(),
{
    if events.len() == 0 {
        run
    } else {
        deploy_run(plan, deploy_step(plan, run, events[0]), events.drop_first())
    }
}

/// Whether `event` answers the action that a run in `phase` asks for.
pub open spec fn answers(phase: Phase, event: DeployEvent) -> bool {
    if phase is Probe {
        event is Local
    } else {
        event is Acknowledged || (event == DeployEvent::Local(LocalKind::Missing) && (phase
            is Transfer || phase is TransferTree))
    }
}

/// How much work a run still has before it: it falls with every event
/// that answers the pending action.
pub open spec fn work_left(plan: PlanView, run: RunView) -> int {
    if !is_active(run.status) {
        0
    } else {
        6 * (total_pairs(plan) - run.outcomes.len()) + 3 * (plan.len() - run.item) + match run.phase {
            Phase::Enter => 6int,
            Phase::Prepare => 5,
            Phase::Probe => 4,
            Phase::MakeParent => 3,
            Phase::Transfer => 2,
            Phase::TransferTree => 2,
            Phase::MarkExecutable => 1,
        }
    }
}

/// A running deployment.
#[derive(Debug, PartialEq, Eq)]
pub struct Deployment {
    pub plan: Vec<DeploymentItem>,
    pub status: RunStatus,
    /// Index of the current category.
    pub item: usize,
    /// Index of the current pair within its category.
    pub pair: usize,
    pub phase: Phase,
    /// One outcome for each finished pair, in plan order.
    pub outcomes: Vec<PairOutcome>,
    /// Why the run was aborted, if it was.
    pub cause: Option<AbortCause>,
}

impl Deployment {
    /// The plan of the run.
    pub open spec fn plan_view(&self) -> PlanView {
        item_views(self.plan@)
    }

    /// The changing part of the run.
    pub open spec fn run(&self) -> RunView {
        RunView {
            status: self.status,
            item: self.item as int,
            pair: self.pair as int,
            phase: self.phase,
            outcomes: self.outcomes@,
            cause: self.cause,
        }
    }

    /// Whether the cursor points into the plan and the outcomes are those
    /// of the pairs before it.
    pub open spec fn wf(&self) -> bool {
        run_wf(self.plan_view(), self.run())
    }

    /// A run of `plan` on which nothing was done yet.
    pub fn new(plan: Vec<DeploymentItem>) -> (r: Deployment)
        ensures
            r.plan == plan,
            r.run() == initial_run(item_views(plan@)),
            r.wf(),
    {
        let status = if plan.len() == 0 {
            RunStatus::Completed
        } else {
            RunStatus::Planned
        };
        Deployment {
            plan,
            status,
            item: 0,
            pair: 0,
            phase: Phase::Enter,
            outcomes: Vec::new(),
            cause: None,
        }
    }

    /// Whether the run has ended, completed or aborted.
    pub fn is_finished(&self) -> (r: bool)
        ensures
            r == !is_active(self.status),
    {
        match self.status {
            RunStatus::Completed | RunStatus::Aborted => true,
            _ => false,
        }
    }

    /// Number of categories that the run has left behind.
    pub fn position(&self) -> (r: usize)
        ensures
            r == self.item,
    {
        self.item
    }

    fn enter_next_item(&mut self)
        requires
            old(self).item < old(self).plan@.len(),
        ensures
            final(self).plan == old(self).plan,
            final(self).run() == next_item(old(self).plan_view(), old(self).run()),
    {
        let items = self.plan.len();
        if self.item + 1 < items {
            self.status = RunStatus::InProgress;
            self.item = self.item + 1;
        } else {
            self.status = RunStatus::Completed;
            self.item = items;
        }
        self.pair = 0;
        self.phase = Phase::Enter;
    }

    fn turn_to_first_pair(&mut self)
        requires
            old(self).item < old(self).plan@.len(),
        ensures
            final(self).plan == old(self).plan,
            final(self).run() == first_pair(old(self).plan_view(), old(self).run()),
    {
        if self.plan[self.item].files.len() > 0 {
            self.status = RunStatus::InProgress;
            self.pair = 0;
            self.phase = Phase::Probe;
        } else {
            self.enter_next_item();
        }
    }

    fn finish_pair(&mut self, outcome: PairOutcome)
        requires
            old(self).item < old(self).plan@.len(),
            old(self).pair < old(self).plan@[old(self).item as int].files@.len(),
        ensures
            final(self).plan == old(self).plan,
            final(self).run() == next_pair(old(self).plan_view(), old(self).run(), outcome),
    {
        self.outcomes.push(outcome);
        let pairs = self.plan[self.item].files.len();
        if self.pair + 1 < pairs {
            self.status = RunStatus::InProgress;
            self.pair = self.pair + 1;
            self.phase = Phase::Probe;
        } else {
            self.enter_next_item();
        }
    }

    fn miss_source(&mut self)
        requires
            old(self).item < old(self).plan@.len(),
            old(self).pair < old(self).plan@[old(self).item as int].files@.len(),
        ensures
            final(self).plan == old(self).plan,
            final(self).run() == source_missing(old(self).plan_view(), old(self).run()),
    {
        match self.plan[self.item].category {
            Category::ServerSetup => {
                self.status = RunStatus::Aborted;
                self.cause = Some(AbortCause::RequiredSourceMissing);
            },
            _ => {
                self.finish_pair(PairOutcome::Skipped);
            },
        }
    }

    /// The failure of a run that ended for want of a required source:
    /// that source, as a local file that was not found. None for a run
    /// that goes on, that completed, or that the transport failed.
    pub fn failure(&self) -> (r: Option<TransferError>)
        requires
            self.wf(),
        ensures
            match r {
                Some(error) => run_failure(self.plan_view(), self.run()) == Some(error@),
                None => run_failure(self.plan_view(), self.run()) is None,
            },
    {
        match self.cause {
            Some(AbortCause::RequiredSourceMissing) => Some(
                TransferError::LocalFileNotFound {
                    path: self.plan[self.item].files[self.pair].local.clone(),
                    detail: String::new(),
                },
            ),
            _ => None,
        }
    }

    /// What the caller is to do next; nothing once the run has ended.
    pub fn pending(&self) -> (r: Option<DeployAction>)
        requires
            self.wf(),
        ensures
            match r {
                Some(action) => deploy_action(self.plan_view(), self.run()) == Some(action@),
                None => deploy_action(self.plan_view(), self.run()) is None,
            },
            r is None <==> !is_active(self.status),
    {
        if self.is_finished() {
            return None;
        }
        let item = &self.plan[self.item];
        match self.phase {
            Phase::Enter => Some(DeployAction::BeginCategory(item.category)),
            Phase::Prepare => Some(DeployAction::RunCommand(mkdir_command("~/scripts"))),
            Phase::Probe => Some(DeployAction::ProbeLocal(item.files[self.pair].local.clone())),
            Phase::MakeParent => match parent_of(item.files[self.pair].remote.as_str()) {
                Some(parent) => Some(DeployAction::RunCommand(mkdir_command(parent.as_str()))),
                None => None,
            },
            Phase::Transfer => Some(
                DeployAction::CopyFile {
                    local: item.files[self.pair].local.clone(),
                    remote: item.files[self.pair].remote.clone(),
                },
            ),
            Phase::TransferTree => Some(
                DeployAction::CopyDirectory {
                    local: item.files[self.pair].local.clone(),
                    remote: item.files[self.pair].remote.clone(),
                },
            ),
            Phase::MarkExecutable => Some(
                DeployAction::RunCommand(chmod_command(item.files[self.pair].remote.as_str())),
            ),
        }
    }

    /// Takes what happened to the pending action.
    pub fn advance(&mut self, event: DeployEvent)
        requires
            old(self).wf(),
        ensures
            final(self).wf(),
            final(self).plan == old(self).plan,
            final(self).run() == deploy_step(old(self).plan_view(), old(self).run(), event),
    {
        proof {
            lemma_step_keeps_wf(self.plan_view(), self.run(), event);
        }
        if self.is_finished() {
            return ;
        }
        let category = self.plan[self.item].category;
        match (self.phase, event) {
            (_, DeployEvent::TransportFailed) => {
                self.status = RunStatus::Aborted;
                self.cause = Some(AbortCause::TransportFailed);
            },
            (Phase::Enter, DeployEvent::Acknowledged) => {
                match category {
                    Category::Scripts => {
                        self.status = RunStatus::InProgress;
                        self.phase = Phase::Prepare;
                    },
                    _ => {
                        self.turn_to_first_pair();
                    },
                }
            },
            (Phase::Prepare, DeployEvent::Acknowledged) => {
                self.turn_to_first_pair();
            },
            (Phase::Probe, DeployEvent::Local(LocalKind::Missing)) => {
                self.miss_source();
            },
            (Phase::Probe, DeployEvent::Local(kind)) => {
                let has_parent = parent_of(
                    self.plan[self.item].files[self.pair].remote.as_str(),
                ).is_some();
                let make_parent = match category {
                    Category::Configs => has_parent,
                    _ => false,
                };
                let as_tree = match (category, kind) {
                    (Category::Services, LocalKind::Directory) => true,
                    _ => false,
                };
                self.status = RunStatus::InProgress;
                self.phase = if make_parent {
                    Phase::MakeParent
                } else if as_tree {
                    Phase::TransferTree
                } else {
                    Phase::Transfer
                };
            },
            (Phase::MakeParent, DeployEvent::Acknowledged) => {
                self.status = RunStatus::InProgress;
                self.phase = Phase::Transfer;
            },
            (Phase::Transfer, DeployEvent::Acknowledged)
            | (Phase::TransferTree, DeployEvent::Acknowledged) => {
                let name = file_name(self.plan[self.item].files[self.pair].local.as_str());
                let is_helper = same_text(name.as_str(), "setup_aliases.sh");
                let executable = match category {
                    Category::ServerSetup | Category::Scripts => !is_helper,
                    _ => false,
                };
                if executable {
                    self.status = RunStatus::InProgress;
                    self.phase = Phase::MarkExecutable;
                } else {
                    self.finish_pair(PairOutcome::Transferred);
                }
            },
            (Phase::Transfer, DeployEvent::Local(LocalKind::Missing))
            | (Phase::TransferTree, DeployEvent::Local(LocalKind::Missing)) => {
                self.miss_source();
            },
            (Phase::MarkExecutable, DeployEvent::Acknowledged) => {
                self.finish_pair(PairOutcome::Transferred);
            },
            _ => {},
        }
    }
}

/// The count of pairs before a category grows with the index.
pub proof fn lemma_pairs_before_monotone(plan: PlanView, a: int, b: int)
    requires
        0 <= a <= b,
    ensures
        pairs_before(plan, a) <= pairs_before(plan, b),
    decreases b - a,
{
    if a < b {
        lemma_pairs_before_monotone(plan, a, b - 1);
    }
}

/// Every step leaves the cursor inside the plan, with one outcome for
/// each pair before it.
pub proof fn lemma_step_keeps_wf(plan: PlanView, run: RunView, event: DeployEvent)
    requires
        run_wf(plan, run),
    ensures
        run_wf(plan, deploy_step(plan, run, event)),
{
    if is_active(run.status) {
        assert(pairs_before(plan, run.item + 1) == pairs_before(plan, run.item)
            + plan[run.item].files.len());
    }
}

/// The run before anything was done is well-formed.
pub proof fn lemma_initial_wf(plan: PlanView)
    ensures
        run_wf(plan, initial_run(plan)),
{
}

/// Every run from a well-formed state leads to a well-formed state.
pub proof fn lemma_run_keeps_wf(plan: PlanView, run: RunView, events: Seq<DeployEvent>)
    requires
        run_wf(plan, run),
    ensures
        run_wf(plan, deploy_run(plan, run, events)),
    decreases events.len(),
{
    if events.len() > 0 {
        lemma_step_keeps_wf(plan, run, events[0]);
        lemma_run_keeps_wf(plan, deploy_step(plan, run, events[0]), events.drop_first());
    }
}

/// A source that is not required and does not exist is skipped and the
/// run goes on: the skip is recorded, the run is not aborted, and the
/// cursor stands at the next pair of the category, or enters the next
/// category, or the run is complete if this was the last pair of the plan.
pub proof fn lemma_missing_source_is_skipped(plan: PlanView, run: RunView)
    requires
        run_wf(plan, run),
        is_active(run.status),
        run.phase is Probe,
        !is_required(plan[run.item].category),
    ensures
        ({
            let after = deploy_step(plan, run, DeployEvent::Local(LocalKind::Missing));
            &&& after.outcomes == run.outcomes.push(PairOutcome::Skipped)
            &&& !(after.status is Aborted)
            &&& if run.pair + 1 < plan[run.item].files.len() {
                after.status is InProgress && after.item == run.item && after.pair == run.pair + 1
                    && after.phase is Probe
            } else if run.item + 1 < plan.len() {
                after.status is InProgress && after.item == run.item + 1 && after.pair == 0
                    && after.phase is Enter
            } else {
                after.status is Completed
            }
        }),
{
}

/// A required source that does not exist ends the run: the run is
/// aborted where it stands with the missing source as its failure,
/// nothing is recorded or pending, no later category is entered, and
/// whatever is reported later changes nothing.
pub proof fn lemma_missing_required_source_ends_run(
    plan: PlanView,
    run: RunView,
    later: Seq<DeployEvent>,
)
    requires
        run_wf(plan, run),
        is_active(run.status),
        run.phase is Probe,
        is_required(plan[run.item].category),
    ensures
        ({
            let ended = deploy_step(plan, run, DeployEvent::Local(LocalKind::Missing));
            &&& ended.status is Aborted
            &&& ended.cause == Some(AbortCause::RequiredSourceMissing)
            &&& run_failure(plan, ended) == Some(
                TransferErrorView::LocalFileNotFound {
                    path: plan[run.item].files[run.pair].local,
                    detail: Seq::empty(),
                },
            )
            &&& ended.outcomes == run.outcomes
            &&& ended.item == run.item
            &&& deploy_action(plan, ended) is None
            &&& deploy_run(plan, ended, later) == ended
        }),
{
    lemma_ended_is_final(
        plan,
        deploy_step(plan, run, DeployEvent::Local(LocalKind::Missing)),
        later,
    );
}

/// A run is aborted only where the transport fails or a required source
/// is missing: without a failure of the transport, a run that ends
/// aborted stands in a category of required sources and names the missing
/// source as its cause.
pub proof fn lemma_only_failures_abort(plan: PlanView, run: RunView, events: Seq<DeployEvent>)
    requires
        !(run.status is Aborted),
        forall|i: int| 0 <= i < events.len() ==> !(#[trigger] events[i] is TransportFailed),
    ensures
        ({
            let end = deploy_run(plan, run, events);
            end.status is Aborted ==> end.cause == Some(AbortCause::RequiredSourceMissing)
                && is_required(plan[end.item].category)
        }),
    decreases events.len(),
{
    if events.len() > 0 {
        let rest = events.drop_first();
        assert forall|i: int| 0 <= i < rest.len() implies !(#[trigger] rest[i]
            is TransportFailed) by {
            assert(rest[i] == events[i + 1]);
        }
        assert(!(events[0] is TransportFailed));
        let next = deploy_step(plan, run, events[0]);
        if next.status is Aborted {
            lemma_ended_is_final(plan, next, rest);
        } else {
            lemma_only_failures_abort(plan, next, rest);
        }
    }
}

/// Outcomes are only ever added: what a run has recorded stays recorded.
pub proof fn lemma_outcomes_are_kept(plan: PlanView, run: RunView, events: Seq<DeployEvent>)
    ensures
        run.outcomes.is_prefix_of(deploy_run(plan, run, events).outcomes),
    decreases events.len(),
{
    if events.len() > 0 {
        let next = deploy_step(plan, run, events[0]);
        lemma_outcomes_are_kept(plan, next, events.drop_first());
        let last = deploy_run(plan, next, events.drop_first());
        assert(run.outcomes.is_prefix_of(next.outcomes));
        assert(run.outcomes.is_prefix_of(last.outcomes)) by {
            assert forall|i: int| 0 <= i < run.outcomes.len() implies run.outcomes[i]
                == last.outcomes[i] by {
                assert(run.outcomes[i] == next.outcomes[i]);
                assert(next.outcomes[i] == last.outcomes[i]);
            }
        }
    }
}

/// A completed run has dealt with every pair of the plan: each has its
/// outcome, transferred or skipped.
pub proof fn lemma_completed_covers_plan(plan: PlanView, events: Seq<DeployEvent>)
    requires
        deploy_run(plan, initial_run(plan), events).status is Completed,
    ensures
        deploy_run(plan, initial_run(plan), events).outcomes.len() == total_pairs(plan),
{
    lemma_initial_wf(plan);
    lemma_run_keeps_wf(plan, initial_run(plan), events);
}

/// A failure of the transport aborts the run where it stands, and nothing
/// is attempted afterwards: no action is pending, and whatever is
/// reported later changes nothing. The pairs from the cursor on have no
/// outcome.
pub proof fn lemma_failure_aborts(plan: PlanView, run: RunView, later: Seq<DeployEvent>)
    requires
        run_wf(plan, run),
        is_active(run.status),
    ensures
        ({
            let aborted = deploy_step(plan, run, DeployEvent::TransportFailed);
            &&& aborted.status is Aborted
            &&& aborted.cause == Some(AbortCause::TransportFailed)
            &&& aborted.outcomes == run.outcomes
            &&& aborted.outcomes.len() == pairs_before(plan, run.item) + run.pair
            &&& aborted.outcomes.len() < total_pairs(plan) || plan[run.item].files.len() == 0
                || run.phase is Enter || run.phase is Prepare
            &&& deploy_action(plan, aborted) is None
            &&& deploy_run(plan, aborted, later) == aborted
        }),
{
    let aborted = deploy_step(plan, run, DeployEvent::TransportFailed);
    lemma_ended_is_final(plan, aborted, later);
    lemma_pairs_before_monotone(plan, run.item + 1, plan.len() as int);
    assert(pairs_before(plan, run.item + 1) == pairs_before(plan, run.item)
        + plan[run.item].files.len());
}

/// A run that has ended stays as it is.
pub proof fn lemma_ended_is_final(plan: PlanView, run: RunView, events: Seq<DeployEvent>)
    requires
        !is_active(run.status),
    ensures
        deploy_run(plan, run, events) == run,
    decreases events.len(),
{
    if events.len() > 0 {
        lemma_ended_is_final(plan, run, events.drop_first());
    }
}

/// Work that is answered gets done: an event that answers the pending
/// action brings the run closer to its end.
pub proof fn lemma_answer_makes_progress(plan: PlanView, run: RunView, event: DeployEvent)
    requires
        run_wf(plan, run),
        is_active(run.status),
        answers(run.phase, event),
    ensures
        0 <= work_left(plan, deploy_step(plan, run, event)) < work_left(plan, run),
{
    lemma_step_keeps_wf(plan, run, event);
    let after = deploy_step(plan, run, event);
    lemma_pairs_before_monotone(plan, run.item + 1, plan.len() as int);
    assert(pairs_before(plan, run.item + 1) == pairs_before(plan, run.item)
        + plan[run.item].files.len());
    if is_active(after.status) {
        lemma_pairs_before_monotone(plan, after.item + 1, plan.len() as int);
        assert(pairs_before(plan, after.item + 1) == pairs_before(plan, after.item)
            + plan[after.item].files.len());
    }
}

/// What the surroundings answer to an action when the transport holds:
/// a probe is answered by what lies at the path, and every other action
/// is carried out.
pub open spec fn answer_to(kinds: spec_fn(Seq<char>) -> LocalKind, action: DeployActionView)
    -> DeployEvent {
    match action {
        DeployActionView::ProbeLocal(path) => DeployEvent::Local(kinds(path)),
        _ => DeployEvent::Acknowledged,
    }
}

/// The run after at most `steps` actions were performed and answered,
/// where `kinds` says what lies at each local path and the transport
/// holds.
pub open spec fn drive(
    plan: PlanView,
    run: RunView,
    kinds: spec_fn(Seq<char>) -> LocalKind,
    steps: nat,
) -> RunView
    decreases steps,
{
    if steps == 0 || !is_active(run.status) {
        run
    } else {
        drive(
            plan,
            deploy_step(plan, run, answer_to(kinds, deploy_action(plan, run)->0)),
            kinds,
            (steps - 1) as nat,
        )
    }
}

/// Whether every required source exists on the local disk.
pub open spec fn required_sources_exist(plan: PlanView, kinds: spec_fn(Seq<char>) -> LocalKind)
    -> bool {
    forall|i: int, j: int|
        0 <= i < plan.len() && 0 <= j < plan[i].files.len() && is_required(plan[i].category)
            ==> !(kinds((#[trigger] plan[i].files[j]).local) is Missing)
}

/// The outcome that is due to a pair: skipped if nothing lies at its
/// source, transferred otherwise.
pub open spec fn due_outcome(kinds: spec_fn(Seq<char>) -> LocalKind, local: Seq<char>)
    -> PairOutcome {
    if kinds(local) is Missing {
        PairOutcome::Skipped
    } else {
        PairOutcome::Transferred
    }
}

/// Whether every recorded outcome is the one that is due to its pair.
pub open spec fn outcomes_are_due(
    plan: PlanView,
    outcomes: Seq<PairOutcome>,
    kinds: spec_fn(Seq<char>) -> LocalKind,
) -> bool {
    forall|i: int, j: int|
        0 <= i < plan.len() && 0 <= j < plan[i].files.len() && pairs_before(plan, i) + j
            < outcomes.len() ==> #[trigger] outcomes[pairs_before(plan, i) + j] == due_outcome(
            kinds,
            (#[trigger] plan[i].files[j]).local,
        )
}

/// Whether a run agrees with what lies on the local disk: its outcomes
/// are due, and a pair whose transfer is under way has a source.
pub open spec fn agrees_with(
    plan: PlanView,
    run: RunView,
    kinds: spec_fn(Seq<char>) -> LocalKind,
) -> bool {
    &&& run_wf(plan, run)
    &&& outcomes_are_due(plan, run.outcomes, kinds)
    &&& is_active(run.status) && (run.phase is MakeParent || run.phase is Transfer || run.phase
        is TransferTree || run.phase is MarkExecutable) ==> !(kinds(
        plan[run.item].files[run.pair].local,
    ) is Missing)
}

/// The pairs of a plan have distinct places among the outcomes: the
/// place of a pair names its category and its index there.
pub proof fn lemma_place_is_unique(plan: PlanView, i: int, j: int, item: int, pair: int)
    requires
        0 <= i < plan.len(),
        0 <= j < plan[i].files.len(),
        0 <= item < plan.len(),
        0 <= pair < plan[item].files.len(),
        pairs_before(plan, i) + j == pairs_before(plan, item) + pair,
    ensures
        i == item,
        j == pair,
{
    if i < item {
        lemma_pairs_before_monotone(plan, i + 1, item);
        assert(pairs_before(plan, i + 1) == pairs_before(plan, i) + plan[i].files.len());
    } else if item < i {
        lemma_pairs_before_monotone(plan, item + 1, i);
        assert(pairs_before(plan, item + 1) == pairs_before(plan, item)
            + plan[item].files.len());
    }
}

/// The place of a pair among the outcomes lies within the plan.
pub proof fn lemma_place_in_range(plan: PlanView, i: int, j: int)
    requires
        0 <= i < plan.len(),
        0 <= j < plan[i].files.len(),
    ensures
        0 <= pairs_before(plan, i) + j < total_pairs(plan),
{
    lemma_pairs_before_monotone(plan, 0, i);
    lemma_pairs_before_monotone(plan, i + 1, plan.len() as int);
    assert(pairs_before(plan, i + 1) == pairs_before(plan, i) + plan[i].files.len());
}

/// An answered action keeps the run in agreement with the local disk.
pub proof fn lemma_answer_keeps_agreement(
    plan: PlanView,
    run: RunView,
    kinds: spec_fn(Seq<char>) -> LocalKind,
)
    requires
        agrees_with(plan, run, kinds),
        is_active(run.status),
    ensures
        agrees_with(
            plan,
            deploy_step(plan, run, answer_to(kinds, deploy_action(plan, run)->0)),
            kinds,
        ),
        answers(run.phase, answer_to(kinds, deploy_action(plan, run)->0)),
{
    let event = answer_to(kinds, deploy_action(plan, run)->0);
    let after = deploy_step(plan, run, event);
    lemma_step_keeps_wf(plan, run, event);
    if after.outcomes.len() > run.outcomes.len() {
        let place = pairs_before(plan, run.item) + run.pair;
        assert(after.outcomes == run.outcomes.push(after.outcomes[place]));
        assert(after.outcomes[place] == due_outcome(
            kinds,
            plan[run.item].files[run.pair].local,
        ));
        assert forall|i: int, j: int|
            0 <= i < plan.len() && 0 <= j < plan[i].files.len() && pairs_before(plan, i) + j
                < after.outcomes.len() implies #[trigger] after.outcomes[pairs_before(plan, i) + j]
            == due_outcome(kinds, (#[trigger] plan[i].files[j]).local) by {
            lemma_place_in_range(plan, i, j);
            if pairs_before(plan, i) + j == place {
                lemma_place_is_unique(plan, i, j, run.item, run.pair);
            } else {
                assert(after.outcomes[pairs_before(plan, i) + j] == run.outcomes[pairs_before(
                    plan,
                    i,
                ) + j]);
            }
        }
    } else {
        assert(after.outcomes == run.outcomes);
    }
}

/// With a transport that holds and every required source in place, a run
/// goes through the whole plan: given enough steps it completes, and
/// every pair has the outcome that is due to it. A source that does not
/// exist is skipped, and every source after it, in the same category and
/// in the later ones, is still transferred if it exists.
pub proof fn lemma_run_goes_through(
    plan: PlanView,
    run: RunView,
    kinds: spec_fn(Seq<char>) -> LocalKind,
    steps: nat,
)
    requires
        agrees_with(plan, run, kinds),
        required_sources_exist(plan, kinds),
        !(run.status is Aborted),
        steps >= work_left(plan, run),
    ensures
        ({
            let end = drive(plan, run, kinds, steps);
            &&& end.status is Completed
            &&& end.outcomes.len() == total_pairs(plan)
            &&& forall|i: int, j: int|
                0 <= i < plan.len() && 0 <= j < plan[i].files.len()
                    ==> #[trigger] end.outcomes[pairs_before(plan, i) + j] == due_outcome(
                    kinds,
                    (#[trigger] plan[i].files[j]).local,
                )
        }),
    decreases steps,
{
    if is_active(run.status) {
        let event = answer_to(kinds, deploy_action(plan, run)->0);
        let after = deploy_step(plan, run, event);
        lemma_answer_keeps_agreement(plan, run, kinds);
        lemma_answer_makes_progress(plan, run, event);
        assert(!(after.status is Aborted)) by {
            if run.phase is Probe {
                assert(is_required(plan[run.item].category) ==> !(kinds(
                    plan[run.item].files[run.pair].local,
                ) is Missing));
            }
        }
        lemma_run_goes_through(plan, after, kinds, (steps - 1) as nat);
    } else {
        let end = drive(plan, run, kinds, steps);
        assert(end == run);
        assert forall|i: int, j: int|
            0 <= i < plan.len() && 0 <= j < plan[i].files.len() implies #[trigger] end.outcomes[pairs_before(
                plan,
                i,
            ) + j] == due_outcome(kinds, (#[trigger] plan[i].files[j]).local) by {
            lemma_place_in_range(plan, i, j);
        }
    }
}

/// A new run on any plan, with a transport that holds and every required
/// source in place, completes with the outcome that is due to every pair.
pub proof fn lemma_new_run_goes_through(
    plan: PlanView,
    kinds: spec_fn(Seq<char>) -> LocalKind,
    steps: nat,
)
    requires
        required_sources_exist(plan, kinds),
        steps >= work_left(plan, initial_run(plan)),
    ensures
        ({
            let end = drive(plan, initial_run(plan), kinds, steps);
            &&& end.status is Completed
            &&& forall|i: int, j: int|
                0 <= i < plan.len() && 0 <= j < plan[i].files.len()
                    ==> #[trigger] end.outcomes[pairs_before(plan, i) + j] == due_outcome(
                    kinds,
                    (#[trigger] plan[i].files[j]).local,
                )
        }),
{
    let outcomes = initial_run(plan).outcomes;
    assert forall|i: int, j: int|
        0 <= i < plan.len() && 0 <= j < plan[i].files.len() && pairs_before(plan, i) + j
            < outcomes.len() implies #[trigger] outcomes[pairs_before(plan, i) + j] == due_outcome(
        kinds,
        (#[trigger] plan[i].files[j]).local,
    ) by {
        lemma_place_in_range(plan, i, j);
    }
    lemma_run_goes_through(plan, initial_run(plan), kinds, steps);
}

/// How a source is sent outside of a plan: a file as a file, a directory
/// as a tree, and nothing where nothing lies at the source path.
pub fn copy_action(kind: LocalKind, local: &str, remote: &str) -> (r: Option<DeployAction>)
    ensures
        match r {
            Some(action) => action@ == (match kind {
                LocalKind::Directory => DeployActionView::CopyDirectory {
                    local: local@,
                    remote: remote@,
                },
                _ => DeployActionView::CopyFile { local: local@, remote: remote@ },
            }) && !(kind is Missing),
            None => kind is Missing,
        },
{
    match kind {
        LocalKind::Missing => None,
        LocalKind::File => Some(
            DeployAction::CopyFile {
                local: String::from_str(local),
                remote: String::from_str(remote),
            },
        ),
        LocalKind::Directory => Some(
            DeployAction::CopyDirectory {
                local: String::from_str(local),
                remote: String::from_str(remote),
            },
        ),
    }
}

/// A run moves forward only: a run that has begun is never planned
/// again, and a run that has ended never runs again.
pub proof fn lemma_status_moves_forward(plan: PlanView, run: RunView, event: DeployEvent)
    ensures
        deploy_step(plan, run, event).status is Planned ==> run.status is Planned,
        run.status is Completed ==> deploy_step(plan, run, event).status is Completed,
        run.status is Aborted ==> deploy_step(plan, run, event).status is Aborted,
{
}

} // verus!
