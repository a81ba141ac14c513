//! The commands that reach the viewer, and the effects that it has on what is around it.
use crate::analytics::AnalyticsEvent;
use crate::types::AuthContext;
use crate::types::Chunk;
use crate::types::DisplayMode;
use crate::types::EncodingJob;
use crate::types::Fragment;
use crate::types::Item;
use crate::types::ItemCollection;
use crate::types::LogDataSource;
use crate::types::LogReceiver;
use crate::types::LogSource;
use crate::types::RecordingOrTable;
use crate::types::StoreId;
use crate::types::TimeControlCommand;
use crate::types::TimeReal;
use vstd::prelude::*;

verus! {

/// A command of the user.
#[derive(Clone, Copy, Debug, PartialEq, Eq, Structural)]
pub enum UICommand {
    SaveRecording,
    SaveRecordingSelection,
    SaveVideoSelection,
    SaveBlueprint,
    Open,
    Import,
    OpenUrl,
    CloseCurrentRecording,
    CloseAllEntries,
    NextRecording,
    PreviousRecording,
    NavigateBack,
    NavigateForward,
    Undo,
    Redo,
    Quit,
    OpenWebHelp,
    OpenRerunDiscord,
    ResetViewer,
    ClearActiveBlueprint,
    ClearActiveBlueprintAndEnableHeuristics,
    OpenProfiler,
    ToggleMemoryPanel,
    TogglePanelStateOverrides,
    ToggleTopPanel,
    ToggleBlueprintPanel,
    ExpandBlueprintPanel,
    ToggleSelectionPanel,
    ExpandSelectionPanel,
    ToggleTimePanel,
    ToggleChunkStoreBrowser,
    ToggleBlueprintInspectionPanel,
    ToggleEguiDebugPanel,
    ToggleFullscreen,
    Settings,
    ZoomIn,
    ZoomOut,
    ZoomReset,
    ToggleCommandPalette,
    PlaybackTogglePlayPause,
    PlaybackFollow,
    PlaybackStepBack,
    PlaybackStepForward,
    PlaybackBack,
    PlaybackForward,
    PlaybackBackFast,
    PlaybackForwardFast,
    PlaybackBeginning,
    PlaybackEnd,
    PlaybackRestart,
    /// The bits of an `f32`.
    PlaybackSpeed(u32),
    ScreenshotWholeApp,
    PrintChunkStore,
    PrintBlueprintStore,
    PrintPrimaryCache,
    ResetEguiMemory,
    Share,
    CopyDirectLink,
    CopyTimeSelectionLink,
    RestartWithWebGl,
    RestartWithWebGpu,
    CopyEntityHierarchy,
    AddRedapServer,
}

/// A command to the viewer's own state, with lists of time commands as `Times` and composed text
/// as `Text`.
#[derive(Debug, PartialEq, Eq)]
pub enum SystemCommandOf<Times, Text> {
    /// Switch to a recording, and tell its time control something; or tell that of a blueprint.
    TimeControlCommands { store_id: StoreId, time_commands: Times },
    /// The same, without switching to the recording.
    BackgroundTimeControlCommands { store_id: StoreId, time_commands: Times },
    SetUrlFragment { store_id: StoreId, fragment: Fragment },
    CopyViewerUrl(String),
    ActivateApp(String),
    CloseApp(String),
    ActivateRecordingOrTable { entry: RecordingOrTable, display_mode: DisplayMode },
    CloseRecordingOrTable(RecordingOrTable),
    CloseAllEntries,
    AddReceiver(LogReceiver),
    ChangeDisplayMode(DisplayMode),
    OpenSettings,
    OpenChunkStoreBrowser,
    ResetDisplayMode,
    AddRedapServer(String),
    EditRedapServerModal {
        origin: String,
        open_on_success: Option<String>,
        title: Option<Text>,
    },
    LoadDataSource(LogDataSource),
    ResetViewer,
    ClearActiveBlueprintAndEnableHeuristics,
    ClearActiveBlueprint,
    AppendToStore(StoreId, Vec<Chunk>),
    UndoBlueprint { blueprint_id: StoreId },
    RedoBlueprint { blueprint_id: StoreId },
    DropEntity(StoreId, String),
    EnableInspectBlueprintTimeline(bool),
    SetSelection(ItemCollection),
    SetFocus(Item),
    /// A notification, told apart by a number.
    ShowNotification(u64),
    /// Work that saves a file, told apart by a number.
    FileSaver(u64),
    OnAuthChanged(Option<AuthContext>),
    SetAuthCredentials { access_token: String, email: String },
    Logout,
}

pub type SystemCommand = SystemCommandOf<Vec<TimeControlCommand>, String>;

pub type SystemCommandView = SystemCommandOf<Seq<TimeControlCommand>, Seq<char>>;

pub open spec fn option_text(text: Option<String>) -> Option<Seq<char>> {
    match text {
        Some(text) => Some(text@),
        None => None,
    }
}

impl View for SystemCommandOf<Vec<TimeControlCommand>, String> {
    type V = SystemCommandOf<Seq<TimeControlCommand>, Seq<char>>;

    open spec fn view(&self) -> SystemCommandOf<Seq<TimeControlCommand>, Seq<char>> {
        match *self {
            SystemCommandOf::TimeControlCommands { store_id, time_commands } =>
                SystemCommandOf::TimeControlCommands { store_id, time_commands: time_commands@ },
            SystemCommandOf::BackgroundTimeControlCommands { store_id, time_commands } =>
                SystemCommandOf::BackgroundTimeControlCommands {
                    store_id,
                    time_commands: time_commands@,
                },
            SystemCommandOf::SetUrlFragment { store_id, fragment } =>
                SystemCommandOf::SetUrlFragment { store_id, fragment },
            SystemCommandOf::CopyViewerUrl(url) => SystemCommandOf::CopyViewerUrl(url),
            SystemCommandOf::ActivateApp(app_id) => SystemCommandOf::ActivateApp(app_id),
            SystemCommandOf::CloseApp(app_id) => SystemCommandOf::CloseApp(app_id),
            SystemCommandOf::ActivateRecordingOrTable { entry, display_mode } =>
                SystemCommandOf::ActivateRecordingOrTable { entry, display_mode },
            SystemCommandOf::CloseRecordingOrTable(entry) =>
                SystemCommandOf::CloseRecordingOrTable(entry),
            SystemCommandOf::CloseAllEntries => SystemCommandOf::CloseAllEntries,
            SystemCommandOf::AddReceiver(rx) => SystemCommandOf::AddReceiver(rx),
            SystemCommandOf::ChangeDisplayMode(mode) => SystemCommandOf::ChangeDisplayMode(mode),
            SystemCommandOf::OpenSettings => SystemCommandOf::OpenSettings,
            SystemCommandOf::OpenChunkStoreBrowser => SystemCommandOf::OpenChunkStoreBrowser,
            SystemCommandOf::ResetDisplayMode => SystemCommandOf::ResetDisplayMode,
            SystemCommandOf::AddRedapServer(origin) => SystemCommandOf::AddRedapServer(origin),
            SystemCommandOf::EditRedapServerModal { origin, open_on_success, title } =>
                SystemCommandOf::EditRedapServerModal {
                    origin,
                    open_on_success,
                    title: option_text(title),
                },
            SystemCommandOf::LoadDataSource(source) => SystemCommandOf::LoadDataSource(source),
            SystemCommandOf::ResetViewer => SystemCommandOf::ResetViewer,
            SystemCommandOf::ClearActiveBlueprintAndEnableHeuristics =>
                SystemCommandOf::ClearActiveBlueprintAndEnableHeuristics,
            SystemCommandOf::ClearActiveBlueprint => SystemCommandOf::ClearActiveBlueprint,
            SystemCommandOf::AppendToStore(store_id, chunks) =>
                SystemCommandOf::AppendToStore(store_id, chunks),
            SystemCommandOf::UndoBlueprint { blueprint_id } =>
                SystemCommandOf::UndoBlueprint { blueprint_id },
            SystemCommandOf::RedoBlueprint { blueprint_id } =>
                SystemCommandOf::RedoBlueprint { blueprint_id },
            SystemCommandOf::DropEntity(store_id, path) =>
                SystemCommandOf::DropEntity(store_id, path),
            SystemCommandOf::EnableInspectBlueprintTimeline(show) =>
                SystemCommandOf::EnableInspectBlueprintTimeline(show),
            SystemCommandOf::SetSelection(set) => SystemCommandOf::SetSelection(set),
            SystemCommandOf::SetFocus(item) => SystemCommandOf::SetFocus(item),
            SystemCommandOf::ShowNotification(n) => SystemCommandOf::ShowNotification(n),
            SystemCommandOf::FileSaver(n) => SystemCommandOf::FileSaver(n),
            SystemCommandOf::OnAuthChanged(auth) => SystemCommandOf::OnAuthChanged(auth),
            SystemCommandOf::SetAuthCredentials { access_token, email } =>
                SystemCommandOf::SetAuthCredentials { access_token, email },
            SystemCommandOf::Logout => SystemCommandOf::Logout,
        }
    }
}

#[derive(Clone, Copy, Debug, PartialEq, Eq, Structural)]
pub enum Severity {
    Info,
    Warning,
    Error,
}

#[derive(Clone, Copy, Debug, PartialEq, Eq, Structural)]
pub enum Panel {
    Top,
    Blueprint,
    Selection,
    Time,
}

#[derive(Clone, Copy, Debug, PartialEq, Eq, Structural)]
pub enum ZoomStep {
    In,
    Out,
    Reset,
}

#[derive(Clone, Copy, Debug, PartialEq, Eq, Structural)]
pub enum StorePrint {
    ChunkStore,
    BlueprintStore,
    PrimaryCache,
}

/// How a content URL is opened.
#[derive(Clone, Copy, Debug, PartialEq, Eq, Structural)]
pub struct OpenUrlOptions {
    pub follow_if_http: bool,
    pub select_redap_source_when_loaded: bool,
    pub show_loader: bool,
}

/// Something for the surroundings to do, with composed text as `Text`, lists of time commands as
/// `Times` and lists of stores as `Ids`.
#[derive(Debug, PartialEq, Eq)]
pub enum EffectOf<Text, Times, Ids> {
    /// Queue a command to the viewer.
    SendSystem(SystemCommandOf<Times, Text>),
    /// Queue a command of the user.
    SendUi(UICommand),
    // The stores.
    SetActiveRecording(StoreId),
    SetActiveApp(String),
    CloseApp(String),
    RemoveEntry(RecordingOrTable),
    ClearEntries,
    ClearActiveBlueprint,
    ClearActiveBlueprintAndGenerate,
    ClearAllClonedBlueprints,
    SetDefaultBlueprint(StoreId),
    SetClonedBlueprintActive(StoreId),
    ClearRedoBuffer(StoreId),
    AddChunk(StoreId, Chunk),
    UndoBlueprint(StoreId),
    RedoBlueprint(StoreId),
    DropEntity(StoreId, String),
    InsertTable(String),
    /// Note where the data of a store comes from.
    SetDataSource(StoreId, LogSource),
    /// Switch to the blueprint of the store's application, and hand the commands to the time
    /// control of the recording.
    ApplyTimeCommands { store_id: StoreId, time_commands: Times },
    /// Hand the commands to the time control of the recording, with the blueprint of the store's
    /// application, and leave active what is active.
    ApplyTimeCommandsInBackground { store_id: StoreId, time_commands: Times },
    /// Hand the commands to the time control of the blueprint.
    ApplyBlueprintTimeCommands { store_id: StoreId, time_commands: Times },
    // The connections.
    /// Repaint so many milliseconds after a message came in.
    WakeOnMessage { handle: u64, millis: u64 },
    AttachReceiver(u64),
    /// Drop the connections that the viewer holds no longer.
    DropReceivers,
    OpenStream(LogDataSource),
    // Servers and credentials.
    AddServer(String),
    OpenAddServerModal,
    OpenEditServerModal {
        origin: String,
        open_on_success: Option<String>,
        title: Option<Text>,
    },
    StoreCredentials { access_token: String, email: String },
    ClearCredentials,
    LogoutServers,
    // What the user sees.
    RequestRepaint,
    RequestUserAttention,
    CopyText(Text),
    NotifySuccess(Text),
    AddNotification(u64),
    /// Queue a tip with a link, which does not pop up and can be dismissed for good by its id.
    ShowTip { text: Text, link_text: Text, link: Text, dismiss_id: Text },
    Report { severity: Severity, text: Text },
    /// Tell something that is not told a second time.
    ReportOnce { severity: Severity, text: Text },
    /// Tell something with the id of a store in the middle.
    ReportStore { severity: Severity, before: Text, store_id: StoreId, after: Text },
    ReportStoreOnce { severity: Severity, before: Text, store_id: StoreId, after: Text },
    OpenBrowserUrl { address: Text, new_tab: bool },
    OpenContentUrl { url: String, options: OpenUrlOptions },
    OpenPreviousUrl(OpenUrlOptions),
    OpenNextUrl(OpenUrlOptions),
    CloseWindow,
    SetFullscreen(bool),
    ToggleHostFullscreen,
    SetZoom(ZoomStep),
    TogglePanel(Panel),
    ToggleCommandPalette,
    OpenUrlModal,
    OpenShareModal,
    SelectNextRecording,
    SelectPreviousRecording,
    TakeScreenshot,
    PrintStore(StorePrint),
    StartProfiler,
    ResetEguiMemory,
    ApplyStyle,
    UseSystemTheme,
    /// Load the list of examples from there.
    SetExamplesManifestUrl(String),
    /// Take a screenshot of the window, save it there, and quit.
    ScreenshotThenQuit(String),
    ResetPersistence,
    /// Join the text to the address of the web viewer.
    CombineWithBaseUrl(String),
    CopyLink,
    CopyTimeSelectionLink,
    CopyEntityHierarchy,
    RestartWithRenderer(Text),
    // Files.
    PickFiles { recommended_store_id: Option<StoreId>, force_store_info: bool },
    SpawnFileSaver(u64),
    /// Save the active recording, or its loop selection.
    SaveActiveRecording { cropped: bool },
    SaveRecording(StoreId),
    /// Let the user pick a folder, and save the recordings there.
    SaveRecordingsToFolder(Ids),
    SaveBlueprint,
    SaveVideo,
    // The video export.
    /// Take back what is wanted of the renderer's panes.
    ClearVideoRequest,
    /// Remove a directory with all that is in it, if it is there.
    RemoveDir(String),
    /// Encode a video in the background.
    EncodeVideo(EncodingJob),
    // Events.
    /// Tell the caches of the active recording what was added.
    UpdateCaches,
    /// Look for data that this viewer cannot show.
    ValidateLoadedEvents,
    /// Record an event, unless the user does not want that.
    Record(AnalyticsEvent),
    EmitRecordingOpen(StoreId),
    // Changes of the time control of a recording.
    EmitPlayStateChange(StoreId, bool),
    EmitTimelineChange(StoreId, String, TimeReal),
    EmitTimeUpdate(StoreId, TimeReal),
}

pub type Effect = EffectOf<String, Vec<TimeControlCommand>, Vec<StoreId>>;

pub type EffectView = EffectOf<Seq<char>, Seq<TimeControlCommand>, Seq<StoreId>>;

impl View for EffectOf<String, Vec<TimeControlCommand>, Vec<StoreId>> {
    type V = EffectOf<Seq<char>, Seq<TimeControlCommand>, Seq<StoreId>>;

    open spec fn view(&self) -> EffectOf<Seq<char>, Seq<TimeControlCommand>, Seq<StoreId>> {
        match *self {
            EffectOf::SendSystem(command) => EffectOf::SendSystem(command@),
            EffectOf::SendUi(command) => EffectOf::SendUi(command),
            EffectOf::SetActiveRecording(id) => EffectOf::SetActiveRecording(id),
            EffectOf::SetActiveApp(id) => EffectOf::SetActiveApp(id),
            EffectOf::CloseApp(id) => EffectOf::CloseApp(id),
            EffectOf::RemoveEntry(entry) => EffectOf::RemoveEntry(entry),
            EffectOf::ClearEntries => EffectOf::ClearEntries,
            EffectOf::ClearActiveBlueprint => EffectOf::ClearActiveBlueprint,
            EffectOf::ClearActiveBlueprintAndGenerate => EffectOf::ClearActiveBlueprintAndGenerate,
            EffectOf::ClearAllClonedBlueprints => EffectOf::ClearAllClonedBlueprints,
            EffectOf::SetDefaultBlueprint(id) => EffectOf::SetDefaultBlueprint(id),
            EffectOf::SetClonedBlueprintActive(id) => EffectOf::SetClonedBlueprintActive(id),
            EffectOf::ClearRedoBuffer(id) => EffectOf::ClearRedoBuffer(id),
            EffectOf::AddChunk(id, chunk) => EffectOf::AddChunk(id, chunk),
            EffectOf::UndoBlueprint(id) => EffectOf::UndoBlueprint(id),
            EffectOf::RedoBlueprint(id) => EffectOf::RedoBlueprint(id),
            EffectOf::DropEntity(id, path) => EffectOf::DropEntity(id, path),
            EffectOf::InsertTable(id) => EffectOf::InsertTable(id),
            EffectOf::SetDataSource(id, source) => EffectOf::SetDataSource(id, source),
            EffectOf::ApplyTimeCommands { store_id, time_commands } =>
                EffectOf::ApplyTimeCommands { store_id, time_commands: time_commands@ },
            EffectOf::ApplyTimeCommandsInBackground { store_id, time_commands } =>
                EffectOf::ApplyTimeCommandsInBackground { store_id, time_commands: time_commands@ },
            EffectOf::ApplyBlueprintTimeCommands { store_id, time_commands } =>
                EffectOf::ApplyBlueprintTimeCommands { store_id, time_commands: time_commands@ },
            EffectOf::WakeOnMessage { handle, millis } =>
                EffectOf::WakeOnMessage { handle, millis },
            EffectOf::AttachReceiver(handle) => EffectOf::AttachReceiver(handle),
            EffectOf::DropReceivers => EffectOf::DropReceivers,
            EffectOf::OpenStream(source) => EffectOf::OpenStream(source),
            EffectOf::AddServer(origin) => EffectOf::AddServer(origin),
            EffectOf::OpenAddServerModal => EffectOf::OpenAddServerModal,
            EffectOf::OpenEditServerModal { origin, open_on_success, title } =>
                EffectOf::OpenEditServerModal {
                    origin,
                    open_on_success,
                    title: option_text(title),
                },
            EffectOf::StoreCredentials { access_token, email } =>
                EffectOf::StoreCredentials { access_token, email },
            EffectOf::ClearCredentials => EffectOf::ClearCredentials,
            EffectOf::LogoutServers => EffectOf::LogoutServers,
            EffectOf::RequestRepaint => EffectOf::RequestRepaint,
            EffectOf::RequestUserAttention => EffectOf::RequestUserAttention,
            EffectOf::CopyText(text) => EffectOf::CopyText(text@),
            EffectOf::NotifySuccess(text) => EffectOf::NotifySuccess(text@),
            EffectOf::AddNotification(n) => EffectOf::AddNotification(n),
            EffectOf::ShowTip { text, link_text, link, dismiss_id } => EffectOf::ShowTip {
                text: text@,
                link_text: link_text@,
                link: link@,
                dismiss_id: dismiss_id@,
            },
            EffectOf::Report { severity, text } => EffectOf::Report { severity, text: text@ },
            EffectOf::ReportOnce { severity, text } =>
                EffectOf::ReportOnce { severity, text: text@ },
            EffectOf::ReportStore { severity, before, store_id, after } => EffectOf::ReportStore {
                severity,
                before: before@,
                store_id,
                after: after@,
            },
            EffectOf::ReportStoreOnce { severity, before, store_id, after } =>
                EffectOf::ReportStoreOnce {
                    severity,
                    before: before@,
                    store_id,
                    after: after@,
                },
            EffectOf::OpenBrowserUrl { address, new_tab } =>
                EffectOf::OpenBrowserUrl { address: address@, new_tab },
            EffectOf::OpenContentUrl { url, options } => EffectOf::OpenContentUrl { url, options },
            EffectOf::OpenPreviousUrl(options) => EffectOf::OpenPreviousUrl(options),
            EffectOf::OpenNextUrl(options) => EffectOf::OpenNextUrl(options),
            EffectOf::CloseWindow => EffectOf::CloseWindow,
            EffectOf::SetFullscreen(on) => EffectOf::SetFullscreen(on),
            EffectOf::ToggleHostFullscreen => EffectOf::ToggleHostFullscreen,
            EffectOf::SetZoom(step) => EffectOf::SetZoom(step),
            EffectOf::TogglePanel(panel) => EffectOf::TogglePanel(panel),
            EffectOf::ToggleCommandPalette => EffectOf::ToggleCommandPalette,
            EffectOf::OpenUrlModal => EffectOf::OpenUrlModal,
            EffectOf::OpenShareModal => EffectOf::OpenShareModal,
            EffectOf::SelectNextRecording => EffectOf::SelectNextRecording,
            EffectOf::SelectPreviousRecording => EffectOf::SelectPreviousRecording,
            EffectOf::TakeScreenshot => EffectOf::TakeScreenshot,
            EffectOf::PrintStore(what) => EffectOf::PrintStore(what),
            EffectOf::StartProfiler => EffectOf::StartProfiler,
            EffectOf::ResetEguiMemory => EffectOf::ResetEguiMemory,
            EffectOf::ApplyStyle => EffectOf::ApplyStyle,
            EffectOf::UseSystemTheme => EffectOf::UseSystemTheme,
            EffectOf::SetExamplesManifestUrl(url) => EffectOf::SetExamplesManifestUrl(url),
            EffectOf::ScreenshotThenQuit(path) => EffectOf::ScreenshotThenQuit(path),
            EffectOf::ResetPersistence => EffectOf::ResetPersistence,
            EffectOf::CombineWithBaseUrl(url) => EffectOf::CombineWithBaseUrl(url),
            EffectOf::CopyLink => EffectOf::CopyLink,
            EffectOf::CopyTimeSelectionLink => EffectOf::CopyTimeSelectionLink,
            EffectOf::CopyEntityHierarchy => EffectOf::CopyEntityHierarchy,
            EffectOf::RestartWithRenderer(name) => EffectOf::RestartWithRenderer(name@),
            EffectOf::PickFiles { recommended_store_id, force_store_info } =>
                EffectOf::PickFiles { recommended_store_id, force_store_info },
            EffectOf::SpawnFileSaver(n) => EffectOf::SpawnFileSaver(n),
            EffectOf::SaveActiveRecording { cropped } => EffectOf::SaveActiveRecording { cropped },
            EffectOf::SaveRecording(id) => EffectOf::SaveRecording(id),
            EffectOf::SaveRecordingsToFolder(ids) => EffectOf::SaveRecordingsToFolder(ids@),
            EffectOf::SaveBlueprint => EffectOf::SaveBlueprint,
            EffectOf::SaveVideo => EffectOf::SaveVideo,
            EffectOf::ClearVideoRequest => EffectOf::ClearVideoRequest,
            EffectOf::RemoveDir(path) => EffectOf::RemoveDir(path),
            EffectOf::EncodeVideo(job) => EffectOf::EncodeVideo(job),
            EffectOf::UpdateCaches => EffectOf::UpdateCaches,
            EffectOf::ValidateLoadedEvents => EffectOf::ValidateLoadedEvents,
            EffectOf::Record(event) => EffectOf::Record(event),
            EffectOf::EmitRecordingOpen(id) => EffectOf::EmitRecordingOpen(id),
            EffectOf::EmitPlayStateChange(id, playing) =>
                EffectOf::EmitPlayStateChange(id, playing),
            EffectOf::EmitTimelineChange(id, timeline, time) =>
                EffectOf::EmitTimelineChange(id, timeline, time),
            EffectOf::EmitTimeUpdate(id, time) => EffectOf::EmitTimeUpdate(id, time),
        }
    }
}

/// What a list of effects does, in order.
pub open spec fn viewed(effects: Seq<Effect>) -> Seq<EffectView> {
    effects.map_values(|e: Effect| e@)
}

/// No effect.
pub(crate) fn nothing() -> (res: Vec<Effect>)
    ensures
        viewed(res@) == Seq::<EffectView>::empty(),
{
    let res: Vec<Effect> = Vec::new();
    assert(viewed(res@) =~= Seq::<EffectView>::empty());
    res
}

/// One effect more.
pub(crate) fn put(effects: &mut Vec<Effect>, effect: Effect)
    ensures
        viewed(final(effects)@) == viewed(old(effects)@).push(effect@),
{
    effects.push(effect);
    assert(viewed(effects@) =~= viewed(old(effects)@).push(effect@));
}

/// A single effect.
pub(crate) fn just(effect: Effect) -> (res: Vec<Effect>)
    ensures
        viewed(res@) == seq![effect@],
{
    let mut res = nothing();
    put(&mut res, effect);
    assert(viewed(res@) =~= seq![effect@]);
    res
}

/// Two effects.
pub(crate) fn both(first: Effect, second: Effect) -> (res: Vec<Effect>)
    ensures
        viewed(res@) == seq![first@, second@],
{
    let mut res = just(first);
    put(&mut res, second);
    assert(viewed(res@) =~= seq![first@, second@]);
    res
}

/// Three effects.
pub(crate) fn three(first: Effect, second: Effect, third: Effect) -> (res: Vec<Effect>)
    ensures
        viewed(res@) == seq![first@, second@, third@],
{
    let mut res = both(first, second);
    put(&mut res, third);
    assert(viewed(res@) =~= seq![first@, second@, third@]);
    res
}

/// The effects of `more` after those of `effects`.
pub(crate) fn put_all(effects: &mut Vec<Effect>, more: Vec<Effect>)
    ensures
        viewed(final(effects)@) == viewed(old(effects)@) + viewed(more@),
{
    let mut more = more;
    let ghost before = effects@;
    let ghost all = more@;
    effects.append(&mut more);
    assert(viewed(effects@) =~= viewed(before) + viewed(all));
}

/// A list of one time command.
pub(crate) fn one_time_command(command: TimeControlCommand) -> (res: Vec<TimeControlCommand>)
    ensures
        res@ == seq![command],
{
    let mut res: Vec<TimeControlCommand> = Vec::new();
    res.push(command);
    assert(res@ =~= seq![command]);
    res
}

/// The effect of telling the user something.
pub open spec fn reported(severity: Severity, text: Seq<char>) -> EffectView {
    EffectOf::Report { severity, text }
}

/// The effect of telling the user something for the first time.
pub open spec fn reported_once(severity: Severity, text: Seq<char>) -> EffectView {
    EffectOf::ReportOnce { severity, text }
}

/// The effect of queueing time commands for a store.
pub open spec fn time_commands_sent(
    store_id: StoreId,
    commands: Seq<TimeControlCommand>,
) -> EffectView {
    EffectOf::SendSystem(
        SystemCommandOf::TimeControlCommands { store_id, time_commands: commands },
    )
}

/// The effect of queueing time commands for a store that is not switched to.
pub open spec fn background_time_commands_sent(
    store_id: StoreId,
    commands: Seq<TimeControlCommand>,
) -> EffectView {
    EffectOf::SendSystem(
        SystemCommandOf::BackgroundTimeControlCommands { store_id, time_commands: commands },
    )
}

/// The effect of queueing the selection of one item.
pub open spec fn selection_sent(item: Item) -> EffectView {
    EffectOf::SendSystem(SystemCommandOf::SetSelection(ItemCollection::One(item)))
}

pub(crate) fn send_time_commands(
    store_id: StoreId,
    time_commands: Vec<TimeControlCommand>,
) -> (res: Effect)
    ensures
        res@ == time_commands_sent(store_id, time_commands@),
{
    EffectOf::SendSystem(SystemCommandOf::TimeControlCommands { store_id, time_commands })
}

pub(crate) fn send_background_time_commands(
    store_id: StoreId,
    time_commands: Vec<TimeControlCommand>,
) -> (res: Effect)
    ensures
        res@ == background_time_commands_sent(store_id, time_commands@),
{
    EffectOf::SendSystem(
        SystemCommandOf::BackgroundTimeControlCommands { store_id, time_commands },
    )
}

pub(crate) fn send_selection(item: Item) -> (res: Effect)
    ensures
        res@ == selection_sent(item),
{
    EffectOf::SendSystem(SystemCommandOf::SetSelection(ItemCollection::One(item)))
}

pub(crate) fn report_once(severity: Severity, text: String) -> (res: Effect)
    ensures
        res@ == reported_once(severity, text@),
{
    EffectOf::ReportOnce { severity, text }
}

pub(crate) fn report(severity: Severity, text: String) -> (res: Effect)
    ensures
        res@ == reported(severity, text@),
{
    EffectOf::Report { severity, text }
}

/// Commands that contracts cannot tell apart are the same command, for the same things. Texts and lists
/// count by what they hold.
#[verifier::spinoff_prover]
#[verifier::rlimit(60)]
pub proof fn commands_are_told_apart(a: SystemCommand, b: SystemCommand)
    requires
        a@ == b@,
    ensures
        match a {
            SystemCommandOf::TimeControlCommands { store_id, time_commands } =>
                b matches SystemCommandOf::TimeControlCommands {
                store_id: other,
                time_commands: others,
            } && store_id == other && time_commands@ == others@,
            SystemCommandOf::BackgroundTimeControlCommands { store_id, time_commands } =>
                b matches SystemCommandOf::BackgroundTimeControlCommands {
                store_id: other,
                time_commands: others,
            } && store_id == other && time_commands@ == others@,
            SystemCommandOf::EditRedapServerModal { origin, open_on_success, title } =>
                b matches SystemCommandOf::EditRedapServerModal {
                origin: other,
                open_on_success: opened,
                title: titled,
            } && origin == other && open_on_success == opened && (title is Some) == (
            titled is Some) && (title is Some ==> title->0@ == titled->0@),
            _ => a == b,
        },
{
}

/// Effects that contracts cannot tell apart are the same effect, on the same things. Texts and lists count
/// by what they hold.
#[verifier::spinoff_prover]
#[verifier::rlimit(100)]
pub proof fn effects_are_told_apart(a: Effect, b: Effect)
    requires
        a@ == b@,
    ensures
        match a {
            EffectOf::SendSystem(command) => b matches EffectOf::SendSystem(other) && command@
                == other@,
            EffectOf::ApplyTimeCommands { store_id, time_commands } =>
                b matches EffectOf::ApplyTimeCommands { store_id: other, time_commands: others }
                && store_id == other && time_commands@ == others@,
            EffectOf::ApplyTimeCommandsInBackground { store_id, time_commands } =>
                b matches EffectOf::ApplyTimeCommandsInBackground {
                store_id: other,
                time_commands: others,
            } && store_id == other && time_commands@ == others@,
            EffectOf::ApplyBlueprintTimeCommands { store_id, time_commands } =>
                b matches EffectOf::ApplyBlueprintTimeCommands {
                store_id: other,
                time_commands: others,
            } && store_id == other && time_commands@ == others@,
            EffectOf::OpenEditServerModal { origin, open_on_success, title } =>
                b matches EffectOf::OpenEditServerModal {
                origin: other,
                open_on_success: opened,
                title: titled,
            } && origin == other && open_on_success == opened && (title is Some) == (
            titled is Some) && (title is Some ==> title->0@ == titled->0@),
            EffectOf::CopyText(text) => b matches EffectOf::CopyText(other) && text@ == other@,
            EffectOf::NotifySuccess(text) => b matches EffectOf::NotifySuccess(other) && text@
                == other@,
            EffectOf::ShowTip { text, link_text, link, dismiss_id } => b matches EffectOf::ShowTip {
                text: other,
                link_text: link_other,
                link: to,
                dismiss_id: id,
            } && text@ == other@ && link_text@ == link_other@ && link@ == to@ && dismiss_id@
                == id@,
            EffectOf::Report { severity, text } => b matches EffectOf::Report {
                severity: other,
                text: told,
            } && severity == other && text@ == told@,
            EffectOf::ReportOnce { severity, text } => b matches EffectOf::ReportOnce {
                severity: other,
                text: told,
            } && severity == other && text@ == told@,
            EffectOf::ReportStore { severity, before, store_id, after } =>
                b matches EffectOf::ReportStore {
                severity: other,
                before: first,
                store_id: id,
                after: last,
            } && severity == other && before@ == first@ && store_id == id && after@ == last@,
            EffectOf::ReportStoreOnce { severity, before, store_id, after } =>
                b matches EffectOf::ReportStoreOnce {
                severity: other,
                before: first,
                store_id: id,
                after: last,
            } && severity == other && before@ == first@ && store_id == id && after@ == last@,
            EffectOf::OpenBrowserUrl { address, new_tab } => b matches EffectOf::OpenBrowserUrl {
                address: other,
                new_tab: new,
            } && address@ == other@ && new_tab == new,
            EffectOf::RestartWithRenderer(text) => b matches EffectOf::RestartWithRenderer(other)
                && text@ == other@,
            EffectOf::SaveRecordingsToFolder(stores) =>
                b matches EffectOf::SaveRecordingsToFolder(others) && stores@ == others@,
            _ => a == b,
        },
{
}

} // verus!
