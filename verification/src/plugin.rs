//! The plugin: what the host's callbacks do to the channel, and the state
//! machine that starts and stops the services around it.
//!
//! The plugin never starts a runtime, a server or a task itself. It says what
//! is to be done next (`PluginAction`), the caller does it and reports how it
//! went (`ActionOutcome`), and the plugin answers with the next action.

use crate::channel::Channel;
use crate::channel::ChannelView;
use crate::config::Config;
use crate::config::ConfigFilters;
use crate::protobuf::encoded;
use crate::protobuf::ProtobufEncoder;
use crate::protobuf::ProtobufMessage;
use crate::protobuf::SlotStatus;
use vstd::prelude::*;

verus! {

/// The kind of an event.
#[derive(Debug, Clone, Copy, PartialEq, Eq, Structural)]
pub enum PluginNotification {
    Slot,
    Account,
    Transaction,
    Entry,
    BlockMeta,
}

impl<'a> From<&'a ProtobufMessage> for PluginNotification {
    fn from(value: &'a ProtobufMessage) -> (notification: Self) {
        match value {
            ProtobufMessage::Account { .. } => PluginNotification::Account,
            ProtobufMessage::Slot { .. } => PluginNotification::Slot,
            ProtobufMessage::Transaction { .. } => PluginNotification::Transaction,
            ProtobufMessage::Entry { .. } => PluginNotification::Entry,
            ProtobufMessage::BlockMeta { .. } => PluginNotification::BlockMeta,
        }
    }
}

impl<'a> vstd::std_specs::convert::FromSpecImpl<&'a ProtobufMessage> for PluginNotification {
    open spec fn obeys_from_spec() -> bool {
        true
    }

    open spec fn from_spec(value: &'a ProtobufMessage) -> Self {
        match value {
            ProtobufMessage::Account { .. } => PluginNotification::Account,
            ProtobufMessage::Slot { .. } => PluginNotification::Slot,
            ProtobufMessage::Transaction { .. } => PluginNotification::Transaction,
            ProtobufMessage::Entry { .. } => PluginNotification::Entry,
            ProtobufMessage::BlockMeta { .. } => PluginNotification::BlockMeta,
        }
    }
}

/// An account update as the host hands it over, by the version of its layout.
/// Only the newest layout carries what is passed on.
#[derive(Debug, Clone, PartialEq, Eq)]
pub enum ReplicaAccountInfoVersions {
    V0_0_1,
    V0_0_2,
    /// The account's data.
    V0_0_3(Vec<u8>),
}

/// A transaction as the host hands it over, by the version of its layout.
#[derive(Debug, Clone, PartialEq, Eq)]
pub enum ReplicaTransactionInfoVersions {
    V0_0_1,
    V0_0_2,
    /// The transaction's payload.
    V0_0_3(Vec<u8>),
}

/// A ledger entry as the host hands it over, by the version of its layout.
#[derive(Debug, Clone, PartialEq, Eq)]
pub enum ReplicaEntryInfoVersions {
    V0_0_1,
    V0_0_2 { slot: u64, entry: Vec<u8> },
}

/// Block metadata as the host hands it over, by the version of its layout.
#[derive(Debug, Clone, PartialEq, Eq)]
pub enum ReplicaBlockInfoVersions {
    V0_0_1,
    V0_0_2,
    V0_0_3,
    V0_0_4 { slot: u64, blockinfo: Vec<u8> },
}

/// Why a callback refused its input.
#[derive(Debug, Clone, Copy, PartialEq, Eq, Structural)]
pub enum PluginError {
    /// The host sent an older layout than the newest one of this kind.
    UnsupportedVersion { notification: PluginNotification, version: u8 },
}

/// A service that runs beside the channel.
#[derive(Debug, Clone, Copy, PartialEq, Eq, Structural)]
pub enum PluginTask {
    Grpc,
    Quic,
    Prometheus,
}

/// The first service to start among those configured: gRPC, then QUIC, then
/// the metrics endpoint.
pub open spec fn first_task(grpc: bool, quic: bool, metrics: bool) -> Option<PluginTask> {
    if grpc {
        Some(PluginTask::Grpc)
    } else if quic {
        Some(PluginTask::Quic)
    } else if metrics {
        Some(PluginTask::Prometheus)
    } else {
        None
    }
}

/// The service to start after `task`, if any.
pub open spec fn task_after(task: PluginTask, quic: bool, metrics: bool) -> Option<PluginTask> {
    match task {
        PluginTask::Grpc => first_task(false, quic, metrics),
        PluginTask::Quic => first_task(false, false, metrics),
        PluginTask::Prometheus => None,
    }
}

impl PluginTask {
    /// The name the task is reported under.
    pub fn name(&self) -> (name: &'static str)
        ensures
            name@ == match self {
                PluginTask::Grpc => "gRPC Server"@,
                PluginTask::Quic => "Quic Server"@,
                PluginTask::Prometheus => "Prometheus Server"@,
            },
    {
        match self {
            PluginTask::Grpc => "gRPC Server",
            PluginTask::Quic => "Quic Server",
            PluginTask::Prometheus => "Prometheus Server",
        }
    }

    fn first(grpc: bool, quic: bool, metrics: bool) -> (task: Option<PluginTask>)
        ensures
            task == first_task(grpc, quic, metrics),
    {
        if grpc {
            Some(PluginTask::Grpc)
        } else if quic {
            Some(PluginTask::Quic)
        } else if metrics {
            Some(PluginTask::Prometheus)
        } else {
            None
        }
    }

    fn after(self, quic: bool, metrics: bool) -> (task: Option<PluginTask>)
        ensures
            task == task_after(self, quic, metrics),
    {
        match self {
            PluginTask::Grpc => PluginTask::first(false, quic, metrics),
            PluginTask::Quic => PluginTask::first(false, false, metrics),
            PluginTask::Prometheus => None,
        }
    }
}

/// Where the plugin stands, down to the action it waits for.
#[derive(Debug, Clone, Copy, PartialEq, Eq, Structural)]
pub enum PluginStage {
    Unloaded,
    /// Loading: the runtime is being built.
    BuildingRuntime,
    /// Loading: this service is being started.
    Spawning(PluginTask),
    Running,
    /// Shutting down: the cancellation signal is being raised.
    Cancelling,
    /// Shutting down: the task with this index is being awaited.
    Joining(usize),
    /// Shutting down: the runtime is being torn down.
    StoppingRuntime,
}

/// The four phases of the plugin's life.
#[derive(Debug, Clone, Copy, PartialEq, Eq, Structural)]
pub enum PluginPhase {
    Unloaded,
    Loading,
    Running,
    ShuttingDown,
}

/// What the caller is to do next.
#[derive(Debug, Clone, Copy, PartialEq, Eq, Structural)]
pub enum PluginAction {
    /// Build the asynchronous runtime.
    BuildRuntime,
    /// Start this service, bound to the shared cancellation signal.
    Spawn(PluginTask),
    /// Loading succeeded; report success to the host.
    Loaded,
    /// Loading failed; drop whatever was started and report the failure to the host.
    Abort,
    /// Raise the shared cancellation signal.
    Cancel,
    /// Wait for the named service to finish, for no longer than the shutdown bound allows.
    Join(PluginTask),
    /// Tear the runtime down, waiting at most this long.
    StopRuntime { timeout_secs: u64 },
    /// Nothing is left to do.
    Done,
}

/// How the last action went.
#[derive(Debug, Clone, Copy, PartialEq, Eq, Structural)]
pub enum ActionOutcome {
    Completed,
    Failed,
    /// The shutdown bound elapsed before the action completed.
    TimedOut,
}

/// The longest the shutdown waits, in seconds.
pub const SHUTDOWN_TIMEOUT_SECS: u64 = 10;

/// The loaded part of a plugin as a mathematical value.
pub struct PluginInnerView {
    pub messages: ChannelView,
    pub encoder: ProtobufEncoder,
    /// The services started so far, in the order they were started.
    pub tasks: Seq<PluginTask>,
    pub filters: ConfigFilters,
}

impl PluginInnerView {
    /// What a fresh load starts from: an empty open channel and no tasks.
    pub open spec fn new(config: Config) -> PluginInnerView {
        PluginInnerView {
            messages: ChannelView::new(
                config.channel.max_messages as nat,
                config.channel.max_bytes as nat,
            ),
            encoder: config.channel.encoder,
            tasks: Seq::empty(),
            filters: config.filters,
        }
    }
}

/// A plugin as a mathematical value.
pub struct PluginView {
    pub stage: PluginStage,
    /// The configuration of the last load.
    pub config: Config,
    pub inner: Option<PluginInnerView>,
}

impl PluginView {
    /// The phase a stage belongs to.
    pub open spec fn phase(self) -> PluginPhase {
        match self.stage {
            PluginStage::Unloaded => PluginPhase::Unloaded,
            PluginStage::BuildingRuntime | PluginStage::Spawning(_) => PluginPhase::Loading,
            PluginStage::Running => PluginPhase::Running,
            PluginStage::Cancelling | PluginStage::Joining(_) | PluginStage::StoppingRuntime =>
                PluginPhase::ShuttingDown,
        }
    }

    /// The loaded part exists from the moment the runtime stands until the
    /// plugin is unloaded; its channel is open until shutdown begins and closed
    /// from then on; a task being awaited is one that was started.
    pub open spec fn wf(self) -> bool {
        &&& self.inner is Some <==> !(self.stage is Unloaded || self.stage is BuildingRuntime)
        &&& self.inner matches Some(inner) ==> {
            &&& inner.messages.closed <==> self.phase() is ShuttingDown
            &&& self.stage matches PluginStage::Joining(index) ==> index < inner.tasks.len()
        }
    }

    /// The host asks to load with `config`.
    pub open spec fn load(self, config: Config) -> (PluginView, PluginAction) {
        (
            PluginView { stage: PluginStage::BuildingRuntime, config, inner: None },
            PluginAction::BuildRuntime,
        )
    }

    /// Starts `next`, or finishes loading when nothing is left to start.
    pub open spec fn spawn_or_finish(self, next: Option<PluginTask>) -> (PluginView, PluginAction) {
        match next {
            Some(task) => (
                PluginView { stage: PluginStage::Spawning(task), ..self },
                PluginAction::Spawn(task),
            ),
            None => (PluginView { stage: PluginStage::Running, ..self }, PluginAction::Loaded),
        }
    }

    /// Awaits the task with this index, or tears the runtime down when no task is left.
    pub open spec fn join_or_stop(self, index: nat) -> (PluginView, PluginAction) {
        if self.inner is Some && index < self.inner->0.tasks.len() {
            (
                PluginView { stage: PluginStage::Joining(index as usize), ..self },
                PluginAction::Join(self.inner->0.tasks[index as int]),
            )
        } else {
            (
                PluginView { stage: PluginStage::StoppingRuntime, ..self },
                PluginAction::StopRuntime { timeout_secs: SHUTDOWN_TIMEOUT_SECS },
            )
        }
    }

    /// Nothing of a load is kept.
    pub open spec fn dropped(self) -> PluginView {
        PluginView { stage: PluginStage::Unloaded, inner: None, ..self }
    }

    /// The loaded part with one more task started.
    pub open spec fn started(self, task: PluginTask) -> PluginView {
        match self.inner {
            Some(inner) => PluginView {
                inner: Some(PluginInnerView { tasks: inner.tasks.push(task), ..inner }),
                ..self
            },
            None => self,
        }
    }

    /// The caller reports how the last action went.
    ///
    /// While loading, a failure of any action aborts the load and keeps nothing.
    /// While shutting down, a task that fails to join is passed over, and a task
    /// that does not finish in time ends the waiting: the tasks after it are
    /// abandoned. In the other phases nothing is pending and nothing changes.
    pub open spec fn resume(self, outcome: ActionOutcome) -> (PluginView, PluginAction) {
        match self.stage {
            PluginStage::BuildingRuntime => match outcome {
                ActionOutcome::Completed => (PluginView {
                    inner: Some(PluginInnerView::new(self.config)),
                    ..self
                }).spawn_or_finish(
                    first_task(self.config.grpc, self.config.quic, self.config.metrics),
                ),
                _ => (self.dropped(), PluginAction::Abort),
            },
            PluginStage::Spawning(task) => match outcome {
                ActionOutcome::Completed => self.started(task).spawn_or_finish(
                    task_after(task, self.config.quic, self.config.metrics),
                ),
                _ => (self.dropped(), PluginAction::Abort),
            },
            PluginStage::Cancelling => self.join_or_stop(0),
            PluginStage::Joining(index) => match outcome {
                ActionOutcome::TimedOut => (
                    PluginView { stage: PluginStage::StoppingRuntime, ..self },
                    PluginAction::StopRuntime { timeout_secs: SHUTDOWN_TIMEOUT_SECS },
                ),
                _ => self.join_or_stop((index + 1) as nat),
            },
            PluginStage::StoppingRuntime => (self.dropped(), PluginAction::Done),
            PluginStage::Unloaded | PluginStage::Running => (self, PluginAction::Done),
        }
    }

    /// The host asks to unload. A running plugin closes its channel first and
    /// then has the cancellation signal raised; any other plugin stays as it is.
    pub open spec fn unload(self) -> (PluginView, PluginAction) {
        match self.inner {
            Some(inner) if self.stage is Running => (
                PluginView {
                    stage: PluginStage::Cancelling,
                    inner: Some(PluginInnerView { messages: inner.messages.close(), ..inner }),
                    ..self
                },
                PluginAction::Cancel,
            ),
            _ => (self, PluginAction::Done),
        }
    }

    /// The plugin after `message` was pushed to its channel.
    pub open spec fn forward(self, message: ProtobufMessage) -> PluginView {
        match self.inner {
            Some(inner) => PluginView {
                inner: Some(
                    PluginInnerView {
                        messages: inner.messages.push(
                            encoded(message, inner.encoder),
                            inner.encoder,
                        ),
                        ..inner
                    },
                ),
                ..self
            },
            None => self,
        }
    }

    /// Whether an account update with `size` bytes of data is held back.
    pub open spec fn too_large(self, size: nat) -> bool {
        self.inner matches Some(inner) && inner.filters.max_account_data_size matches Some(limit)
            && size > limit
    }

    /// An account update. Updates replayed at start-up are never passed on,
    /// whatever the filters say; then an older layout is refused; then data over
    /// the configured size is dropped without a word; what is left is pushed.
    pub open spec fn update_account(
        self,
        account: ReplicaAccountInfoVersions,
        slot: u64,
        is_startup: bool,
    ) -> (PluginView, Result<(), PluginError>) {
        if is_startup {
            (self, Ok(()))
        } else {
            match account {
                ReplicaAccountInfoVersions::V0_0_1 => (
                    self,
                    Err(
                        PluginError::UnsupportedVersion {
                            notification: PluginNotification::Account,
                            version: 1,
                        },
                    ),
                ),
                ReplicaAccountInfoVersions::V0_0_2 => (
                    self,
                    Err(
                        PluginError::UnsupportedVersion {
                            notification: PluginNotification::Account,
                            version: 2,
                        },
                    ),
                ),
                ReplicaAccountInfoVersions::V0_0_3(data) => if self.too_large(data@.len()) {
                    (self, Ok(()))
                } else {
                    (self.forward(ProtobufMessage::Account { slot, data }), Ok(()))
                },
            }
        }
    }

    /// A slot status update: always pushed.
    pub open spec fn update_slot_status(
        self,
        slot: u64,
        parent: Option<u64>,
        status: SlotStatus,
    ) -> PluginView {
        self.forward(ProtobufMessage::Slot { slot, parent, status })
    }

    /// A transaction: pushed if it comes in the newest layout, refused otherwise.
    pub open spec fn notify_transaction(
        self,
        transaction: ReplicaTransactionInfoVersions,
        slot: u64,
    ) -> (PluginView, Result<(), PluginError>) {
        match transaction {
            ReplicaTransactionInfoVersions::V0_0_1 => (
                self,
                Err(
                    PluginError::UnsupportedVersion {
                        notification: PluginNotification::Transaction,
                        version: 1,
                    },
                ),
            ),
            ReplicaTransactionInfoVersions::V0_0_2 => (
                self,
                Err(
                    PluginError::UnsupportedVersion {
                        notification: PluginNotification::Transaction,
                        version: 2,
                    },
                ),
            ),
            ReplicaTransactionInfoVersions::V0_0_3(transaction) => (
                self.forward(ProtobufMessage::Transaction { slot, transaction }),
                Ok(()),
            ),
        }
    }

    /// A ledger entry: pushed if it comes in the newest layout, refused otherwise.
    pub open spec fn notify_entry(self, entry: ReplicaEntryInfoVersions) -> (
        PluginView,
        Result<(), PluginError>,
    ) {
        match entry {
            ReplicaEntryInfoVersions::V0_0_1 => (
                self,
                Err(
                    PluginError::UnsupportedVersion {
                        notification: PluginNotification::Entry,
                        version: 1,
                    },
                ),
            ),
            ReplicaEntryInfoVersions::V0_0_2 { slot, entry } => (
                self.forward(ProtobufMessage::Entry { slot, entry }),
                Ok(()),
            ),
        }
    }

    /// Block metadata: pushed if it comes in the newest layout, refused otherwise.
    pub open spec fn notify_block_metadata(self, blockinfo: ReplicaBlockInfoVersions) -> (
        PluginView,
        Result<(), PluginError>,
    ) {
        match blockinfo {
            ReplicaBlockInfoVersions::V0_0_1 => (
                self,
                Err(
                    PluginError::UnsupportedVersion {
                        notification: PluginNotification::BlockMeta,
                        version: 1,
                    },
                ),
            ),
            ReplicaBlockInfoVersions::V0_0_2 => (
                self,
                Err(
                    PluginError::UnsupportedVersion {
                        notification: PluginNotification::BlockMeta,
                        version: 2,
                    },
                ),
            ),
            ReplicaBlockInfoVersions::V0_0_3 => (
                self,
                Err(
                    PluginError::UnsupportedVersion {
                        notification: PluginNotification::BlockMeta,
                        version: 3,
                    },
                ),
            ),
            ReplicaBlockInfoVersions::V0_0_4 { slot, blockinfo } => (
                self.forward(ProtobufMessage::BlockMeta { slot, blockinfo }),
                Ok(()),
            ),
        }
    }
}

/// Every transition leads from a consistent state to a consistent state.
pub proof fn lemma_transitions_keep_wf(plugin: PluginView, config: Config, outcome: ActionOutcome)
    requires
        plugin.wf(),
    ensures
        plugin.load(config).0.wf(),
        plugin.resume(outcome).0.wf(),
        plugin.unload().0.wf(),
{
}

/// While loading, any action that does not complete aborts the load, and
/// nothing of it is kept: the plugin is unloaded again and holds no channel
/// and no task.
pub proof fn lemma_failed_load_keeps_nothing(plugin: PluginView, outcome: ActionOutcome)
    requires
        plugin.wf(),
        plugin.phase() is Loading,
        !(outcome is Completed),
    ensures
        plugin.resume(outcome).1 == PluginAction::Abort,
        plugin.resume(outcome).0.stage is Unloaded,
        plugin.resume(outcome).0.inner is None,
{
}

/// A load that meets no failure starts exactly the configured services, in
/// the order gRPC, QUIC, metrics endpoint, and then runs with an open channel.
pub proof fn lemma_load_starts_configured_services(config: Config)
    ensures
        ({
            let built = PluginView {
                stage: PluginStage::BuildingRuntime,
                config,
                inner: None,
            }.resume(ActionOutcome::Completed).0;
            let after_grpc = if config.grpc {
                built.resume(ActionOutcome::Completed).0
            } else {
                built
            };
            let after_quic = if config.quic {
                after_grpc.resume(ActionOutcome::Completed).0
            } else {
                after_grpc
            };
            let loaded = if config.metrics {
                after_quic.resume(ActionOutcome::Completed).0
            } else {
                after_quic
            };
            &&& loaded.stage is Running
            &&& loaded.inner matches Some(inner) && !inner.messages.closed && inner.tasks == (
            if config.grpc {
                seq![PluginTask::Grpc]
            } else {
                Seq::empty()
            }) + (if config.quic {
                seq![PluginTask::Quic]
            } else {
                Seq::empty()
            }) + (if config.metrics {
                seq![PluginTask::Prometheus]
            } else {
                Seq::empty()
            })
        }),
{
    let built = PluginView { stage: PluginStage::BuildingRuntime, config, inner: None }.resume(
        ActionOutcome::Completed,
    ).0;
    let after_grpc = if config.grpc {
        built.resume(ActionOutcome::Completed).0
    } else {
        built
    };
    let after_quic = if config.quic {
        after_grpc.resume(ActionOutcome::Completed).0
    } else {
        after_grpc
    };
    let loaded = if config.metrics {
        after_quic.resume(ActionOutcome::Completed).0
    } else {
        after_quic
    };
    let expected = (if config.grpc {
        seq![PluginTask::Grpc]
    } else {
        Seq::empty()
    }) + (if config.quic {
        seq![PluginTask::Quic]
    } else {
        Seq::empty()
    }) + (if config.metrics {
        seq![PluginTask::Prometheus]
    } else {
        Seq::empty()
    });
    assert(loaded.inner->0.tasks =~= expected);
}

/// Unloading closes the channel of a running plugin, and unloading again
/// changes nothing: on a plugin that is not running it is a no-op.
pub proof fn lemma_unload_is_idempotent(plugin: PluginView)
    requires
        plugin.wf(),
    ensures
        plugin.stage is Running ==> plugin.unload().1 == PluginAction::Cancel && plugin.unload().0.inner->0.messages.closed,
        !(plugin.stage is Running) ==> plugin.unload() == (plugin, PluginAction::Done),
        plugin.unload().0.unload() == (plugin.unload().0, PluginAction::Done),
{
}

/// Once shutdown has begun, the caller is never asked to start anything,
/// the channel stays closed, and the tasks are awaited in the order they were
/// started.
pub proof fn lemma_shutdown_only_winds_down(plugin: PluginView, outcome: ActionOutcome)
    requires
        plugin.wf(),
        plugin.phase() is ShuttingDown,
    ensures
        !(plugin.resume(outcome).1 is BuildRuntime),
        !(plugin.resume(outcome).1 is Spawn),
        !(plugin.resume(outcome).1 is Loaded),
        plugin.resume(outcome).0.phase() is ShuttingDown || plugin.resume(outcome).0.phase() is Unloaded,
        plugin.resume(outcome).0.inner matches Some(inner) ==> inner.messages.closed,
        plugin.stage matches PluginStage::Joining(index) ==> (plugin.resume(outcome).1 matches PluginAction::Join(
            task,
        ) ==> index + 1 < plugin.inner->0.tasks.len() && task == plugin.inner->0.tasks[index + 1]),
{
}

/// An account update replayed at start-up is never passed on, whatever its
/// layout and whatever the filters say.
pub proof fn lemma_startup_accounts_never_forwarded(
    plugin: PluginView,
    account: ReplicaAccountInfoVersions,
    slot: u64,
)
    ensures
        plugin.update_account(account, slot, true) == (plugin, Ok::<(), PluginError>(())),
{
}

/// Account data over the configured size is dropped without an error and
/// without a trace in the channel; the size limit touches no other kind of
/// event.
pub proof fn lemma_oversized_account_dropped(
    plugin: PluginView,
    data: Vec<u8>,
    slot: u64,
    limit: usize,
)
    requires
        plugin.inner matches Some(inner) && inner.filters.max_account_data_size == Some(limit),
        data@.len() > limit,
    ensures
        plugin.update_account(ReplicaAccountInfoVersions::V0_0_3(data), slot, false) == (
            plugin,
            Ok::<(), PluginError>(()),
        ),
        plugin.notify_transaction(ReplicaTransactionInfoVersions::V0_0_3(data), slot).0
            == plugin.forward(ProtobufMessage::Transaction { slot, transaction: data }),
        plugin.notify_entry(ReplicaEntryInfoVersions::V0_0_2 { slot, entry: data }).0
            == plugin.forward(ProtobufMessage::Entry { slot, entry: data }),
        plugin.notify_block_metadata(ReplicaBlockInfoVersions::V0_0_4 { slot, blockinfo: data }).0
            == plugin.forward(ProtobufMessage::BlockMeta { slot, blockinfo: data }),
{
}

/// What a loaded plugin holds: the channel, how to encode, the services that
/// were started and the filters.
pub struct PluginInner {
    messages: Channel,
    encoder: ProtobufEncoder,
    tasks: Vec<PluginTask>,
    filters: ConfigFilters,
}

impl View for PluginInner {
    type V = PluginInnerView;

    closed spec fn view(&self) -> PluginInnerView {
        PluginInnerView {
            messages: self.messages@,
            encoder: self.encoder,
            tasks: self.tasks@,
            filters: self.filters,
        }
    }
}

impl PluginInner {
    /// The channel is sound.
    pub closed spec fn wf(&self) -> bool {
        self.messages.wf()
    }

    /// An empty open channel with the limits of `config`, no task started yet.
    pub fn new(config: &Config) -> (inner: Self)
        ensures
            inner.wf(),
            inner@ == PluginInnerView::new(*config),
    {
        PluginInner {
            messages: Channel::new(config.channel),
            encoder: config.channel.encoder,
            tasks: Vec::new(),
            filters: config.filters,
        }
    }

    /// The channel, for readers.
    pub fn messages(&self) -> (messages: &Channel)
        requires
            self.wf(),
        ensures
            messages.wf(),
            messages@ == self@.messages,
    {
        &self.messages
    }

    /// How events are encoded.
    pub fn encoder(&self) -> (encoder: ProtobufEncoder)
        ensures
            encoder == self@.encoder,
    {
        self.encoder
    }

    /// The services started so far, in the order they were started.
    pub fn tasks(&self) -> (tasks: &Vec<PluginTask>)
        ensures
            tasks@ == self@.tasks,
    {
        &self.tasks
    }

    /// The filters in force.
    pub fn filters(&self) -> (filters: ConfigFilters)
        ensures
            filters == self@.filters,
    {
        self.filters
    }
}

/// The plugin.
pub struct Plugin {
    inner: Option<PluginInner>,
    stage: PluginStage,
    config: Config,
}

impl View for Plugin {
    type V = PluginView;

    closed spec fn view(&self) -> PluginView {
        PluginView {
            stage: self.stage,
            config: self.config,
            inner: match self.inner {
                Some(inner) => Some(inner@),
                None => None,
            },
        }
    }
}

impl Default for Plugin {
    fn default() -> (plugin: Self)
        ensures
            plugin.wf(),
            plugin@.stage is Unloaded,
            plugin@.inner is None,
    {
        Plugin { inner: None, stage: PluginStage::Unloaded, config: Config::default() }
    }
}

impl Plugin {
    /// The state is consistent and the channel, where there is one, is sound.
    pub closed spec fn wf(&self) -> bool {
        &&& self@.wf()
        &&& self.inner matches Some(inner) ==> inner.wf()
    }

    /// Whether the plugin is loaded and running, so that the host may call back.
    pub open spec fn initialized(&self) -> bool {
        self@.stage is Running && self@.inner is Some
    }

    /// Whether the channel can still number another message.
    pub open spec fn has_room(&self) -> bool {
        self@.inner matches Some(inner) && inner.messages.log.len() < u64::MAX
    }

    /// What a sound plugin means for its model: the model is consistent, and the
    /// channel, where there is one, is well formed.
    pub proof fn lemma_wf(&self)
        requires
            self.wf(),
        ensures
            self@.wf(),
            self@.inner matches Some(inner) ==> inner.messages.wf() && inner.messages.log.len()
                <= u64::MAX,
    {
        match self.inner {
            Some(inner) => {
                inner.messages.lemma_wf();
            },
            None => {},
        }
    }

    /// Where the plugin stands.
    pub fn stage(&self) -> (stage: PluginStage)
        ensures
            stage == self@.stage,
    {
        self.stage
    }

    /// The phase of the plugin's life.
    pub fn phase(&self) -> (phase: PluginPhase)
        ensures
            phase == self@.phase(),
    {
        match self.stage {
            PluginStage::Unloaded => PluginPhase::Unloaded,
            PluginStage::BuildingRuntime => PluginPhase::Loading,
            PluginStage::Spawning(_) => PluginPhase::Loading,
            PluginStage::Running => PluginPhase::Running,
            PluginStage::Cancelling => PluginPhase::ShuttingDown,
            PluginStage::Joining(_) => PluginPhase::ShuttingDown,
            PluginStage::StoppingRuntime => PluginPhase::ShuttingDown,
        }
    }

    /// Whether the host may call back: the plugin is running.
    pub fn is_initialized(&self) -> (initialized: bool)
        requires
            self.wf(),
        ensures
            initialized == self.initialized(),
    {
        match self.stage {
            PluginStage::Running => true,
            _ => false,
        }
    }

    /// Whether a callback may push: the plugin is running and its channel can
    /// still number another message.
    pub fn can_push(&self) -> (ready: bool)
        requires
            self.wf(),
        ensures
            ready == (self.initialized() && self.has_room()),
    {
        match &self.inner {
            Some(inner) => {
                proof {
                    inner.messages.lemma_wf();
                }
                let running = match self.stage {
                    PluginStage::Running => true,
                    _ => false,
                };
                running && inner.messages.next_seq() < u64::MAX
            },
            None => false,
        }
    }

    /// What is loaded, if anything is.
    pub fn inner(&self) -> (inner: Option<&PluginInner>)
        requires
            self.wf(),
        ensures
            inner is Some <==> self@.inner is Some,
            inner matches Some(loaded) ==> loaded.wf() && Some(loaded@) == self@.inner,
    {
        self.inner.as_ref()
    }

    /// The host asks to load with `config`: the runtime is to be built first.
    pub fn on_load(&mut self, config: Config) -> (action: PluginAction)
        requires
            old(self).wf(),
            old(self)@.stage is Unloaded,
        ensures
            final(self).wf(),
            (final(self)@, action) == old(self)@.load(config),
    {
        self.config = config;
        self.stage = PluginStage::BuildingRuntime;
        self.inner = None;
        PluginAction::BuildRuntime
    }

    fn spawn_or_finish(&mut self, next: Option<PluginTask>) -> (action: PluginAction)
        ensures
            (final(self)@, action) == old(self)@.spawn_or_finish(next),
            final(self).inner == old(self).inner,
    {
        match next {
            Some(task) => {
                self.stage = PluginStage::Spawning(task);
                PluginAction::Spawn(task)
            },
            None => {
                self.stage = PluginStage::Running;
                PluginAction::Loaded
            },
        }
    }

    fn join_or_stop(&mut self, index: usize) -> (action: PluginAction)
        ensures
            (final(self)@, action) == old(self)@.join_or_stop(index as nat),
            final(self).inner == old(self).inner,
    {
        let next = match &self.inner {
            Some(inner) => if index < inner.tasks.len() {
                Some(inner.tasks[index])
            } else {
                None
            },
            None => None,
        };
        match next {
            Some(task) => {
                self.stage = PluginStage::Joining(index);
                PluginAction::Join(task)
            },
            None => {
                self.stage = PluginStage::StoppingRuntime;
                PluginAction::StopRuntime { timeout_secs: SHUTDOWN_TIMEOUT_SECS }
            },
        }
    }

    /// The caller reports how the last action went and learns what to do next.
    pub fn resume(&mut self, outcome: ActionOutcome) -> (action: PluginAction)
        requires
            old(self).wf(),
        ensures
            final(self).wf(),
            (final(self)@, action) == old(self)@.resume(outcome),
    {
        match self.stage {
            PluginStage::BuildingRuntime => match outcome {
                ActionOutcome::Completed => {
                    self.inner = Some(PluginInner::new(&self.config));
                    let next = PluginTask::first(
                        self.config.grpc,
                        self.config.quic,
                        self.config.metrics,
                    );
                    self.spawn_or_finish(next)
                },
                _ => {
                    self.stage = PluginStage::Unloaded;
                    self.inner = None;
                    PluginAction::Abort
                },
            },
            PluginStage::Spawning(task) => match outcome {
                ActionOutcome::Completed => {
                    let loaded = self.inner.take();
                    match loaded {
                        Some(mut inner) => {
                            inner.tasks.push(task);
                            self.inner = Some(inner);
                        },
                        None => {},
                    }
                    let next = task.after(self.config.quic, self.config.metrics);
                    self.spawn_or_finish(next)
                },
                _ => {
                    self.stage = PluginStage::Unloaded;
                    self.inner = None;
                    PluginAction::Abort
                },
            },
            PluginStage::Cancelling => self.join_or_stop(0),
            PluginStage::Joining(index) => match outcome {
                ActionOutcome::TimedOut => {
                    self.stage = PluginStage::StoppingRuntime;
                    PluginAction::StopRuntime { timeout_secs: SHUTDOWN_TIMEOUT_SECS }
                },
                _ => {
                    let started = match &self.inner {
                        Some(inner) => inner.tasks.len(),
                        None => 0,
                    };
                    assert(index < started);
                    self.join_or_stop(index + 1)
                },
            },
            PluginStage::StoppingRuntime => {
                self.stage = PluginStage::Unloaded;
                self.inner = None;
                PluginAction::Done
            },
            PluginStage::Unloaded => PluginAction::Done,
            PluginStage::Running => PluginAction::Done,
        }
    }

    /// The host asks to unload. A running plugin closes its channel and has the
    /// cancellation signal raised next; called on any other plugin it does nothing.
    pub fn on_unload(&mut self) -> (action: PluginAction)
        requires
            old(self).wf(),
        ensures
            final(self).wf(),
            (final(self)@, action) == old(self)@.unload(),
    {
        match self.stage {
            PluginStage::Running => {
                let loaded = self.inner.take();
                match loaded {
                    Some(mut inner) => {
                        inner.messages.close();
                        self.inner = Some(inner);
                        self.stage = PluginStage::Cancelling;
                        PluginAction::Cancel
                    },
                    None => PluginAction::Done,
                }
            },
            _ => PluginAction::Done,
        }
    }

    fn forward(&mut self, message: ProtobufMessage)
        requires
            old(self).wf(),
            old(self).has_room(),
        ensures
            final(self).wf(),
            final(self)@ == old(self)@.forward(message),
    {
        let loaded = self.inner.take();
        match loaded {
            Some(mut inner) => {
                let encoder = inner.encoder;
                inner.messages.push(message, encoder);
                self.inner = Some(inner);
            },
            None => {},
        }
    }

    /// An account update from the host.
    pub fn update_account(
        &mut self,
        account: ReplicaAccountInfoVersions,
        slot: u64,
        is_startup: bool,
    ) -> (result: Result<(), PluginError>)
        requires
            old(self).wf(),
            !is_startup ==> old(self).initialized() && old(self).has_room(),
        ensures
            final(self).wf(),
            (final(self)@, result) == old(self)@.update_account(account, slot, is_startup),
            is_startup ==> result is Ok && final(self)@ == old(self)@,
            account matches ReplicaAccountInfoVersions::V0_0_3(data) ==> (old(self)@.too_large(
                data@.len(),
            ) ==> result is Ok && final(self)@ == old(self)@),
    {
        if is_startup {
            return Ok(());
        }
        match account {
            ReplicaAccountInfoVersions::V0_0_1 => Err(
                PluginError::UnsupportedVersion {
                    notification: PluginNotification::Account,
                    version: 1,
                },
            ),
            ReplicaAccountInfoVersions::V0_0_2 => Err(
                PluginError::UnsupportedVersion {
                    notification: PluginNotification::Account,
                    version: 2,
                },
            ),
            ReplicaAccountInfoVersions::V0_0_3(data) => {
                let limit = match &self.inner {
                    Some(inner) => inner.filters.max_account_data_size,
                    None => None,
                };
                let dropped = match limit {
                    Some(limit) => data.len() > limit,
                    None => false,
                };
                if !dropped {
                    self.forward(ProtobufMessage::Account { slot, data });
                }
                Ok(())
            },
        }
    }

    /// The end of the start-up replay: nothing to do.
    pub fn notify_end_of_startup(&self) -> (result: Result<(), PluginError>)
        ensures
            result is Ok,
    {
        Ok(())
    }

    /// A slot status update from the host.
    pub fn update_slot_status(&mut self, slot: u64, parent: Option<u64>, status: SlotStatus) -> (result:
        Result<(), PluginError>)
        requires
            old(self).wf(),
            old(self).initialized(),
            old(self).has_room(),
        ensures
            final(self).wf(),
            result is Ok,
            final(self)@ == old(self)@.update_slot_status(slot, parent, status),
    {
        self.forward(ProtobufMessage::Slot { slot, parent, status });
        Ok(())
    }

    /// A transaction from the host.
    pub fn notify_transaction(&mut self, transaction: ReplicaTransactionInfoVersions, slot: u64) -> (result:
        Result<(), PluginError>)
        requires
            old(self).wf(),
            old(self).initialized(),
            old(self).has_room(),
        ensures
            final(self).wf(),
            (final(self)@, result) == old(self)@.notify_transaction(transaction, slot),
    {
        match transaction {
            ReplicaTransactionInfoVersions::V0_0_1 => Err(
                PluginError::UnsupportedVersion {
                    notification: PluginNotification::Transaction,
                    version: 1,
                },
            ),
            ReplicaTransactionInfoVersions::V0_0_2 => Err(
                PluginError::UnsupportedVersion {
                    notification: PluginNotification::Transaction,
                    version: 2,
                },
            ),
            ReplicaTransactionInfoVersions::V0_0_3(transaction) => {
                self.forward(ProtobufMessage::Transaction { slot, transaction });
                Ok(())
            },
        }
    }

    /// A ledger entry from the host.
    pub fn notify_entry(&mut self, entry: ReplicaEntryInfoVersions) -> (result: Result<
        (),
        PluginError,
    >)
        requires
            old(self).wf(),
            old(self).initialized(),
            old(self).has_room(),
        ensures
            final(self).wf(),
            (final(self)@, result) == old(self)@.notify_entry(entry),
    {
        match entry {
            ReplicaEntryInfoVersions::V0_0_1 => Err(
                PluginError::UnsupportedVersion {
                    notification: PluginNotification::Entry,
                    version: 1,
                },
            ),
            ReplicaEntryInfoVersions::V0_0_2 { slot, entry } => {
                self.forward(ProtobufMessage::Entry { slot, entry });
                Ok(())
            },
        }
    }

    /// Block metadata from the host.
    pub fn notify_block_metadata(&mut self, blockinfo: ReplicaBlockInfoVersions) -> (result: Result<
        (),
        PluginError,
    >)
        requires
            old(self).wf(),
            old(self).initialized(),
            old(self).has_room(),
        ensures
            final(self).wf(),
            (final(self)@, result) == old(self)@.notify_block_metadata(blockinfo),
    {
        match blockinfo {
            ReplicaBlockInfoVersions::V0_0_1 => Err(
                PluginError::UnsupportedVersion {
                    notification: PluginNotification::BlockMeta,
                    version: 1,
                },
            ),
            ReplicaBlockInfoVersions::V0_0_2 => Err(
                PluginError::UnsupportedVersion {
                    notification: PluginNotification::BlockMeta,
                    version: 2,
                },
            ),
            ReplicaBlockInfoVersions::V0_0_3 => Err(
                PluginError::UnsupportedVersion {
                    notification: PluginNotification::BlockMeta,
                    version: 3,
                },
            ),
            ReplicaBlockInfoVersions::V0_0_4 { slot, blockinfo } => {
                self.forward(ProtobufMessage::BlockMeta { slot, blockinfo });
                Ok(())
            },
        }
    }

    /// Whether the host is to report account updates.
    pub fn account_data_notifications_enabled(&self) -> (enabled: bool)
        requires
            self.wf(),
            self.initialized(),
        ensures
            enabled == self@.inner->0.filters.enable_account_update,
    {
        match &self.inner {
            Some(inner) => inner.filters.enable_account_update,
            None => false,
        }
    }

    /// Whether the host is to report accounts as it loads a snapshot: never.
    pub fn account_data_snapshot_notifications_enabled(&self) -> (enabled: bool)
        ensures
            !enabled,
    {
        false
    }

    /// Whether the host is to report transactions.
    pub fn transaction_notifications_enabled(&self) -> (enabled: bool)
        requires
            self.wf(),
            self.initialized(),
        ensures
            enabled == self@.inner->0.filters.enable_transaction_update,
    {
        match &self.inner {
            Some(inner) => inner.filters.enable_transaction_update,
            None => false,
        }
    }

    /// Whether the host is to report ledger entries: always.
    pub fn entry_notifications_enabled(&self) -> (enabled: bool)
        ensures
            enabled,
    {
        true
    }
}

} // verus!
