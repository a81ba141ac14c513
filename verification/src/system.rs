//! The commands to the viewer's own state.
use crate::analytics;
use crate::analytics::AnalyticsEvent;
use crate::app;
use crate::app::App;
use crate::app::AppModel;
use crate::app::AppState;
use crate::app::StateModel;
use crate::commands;
use crate::commands::Effect;
use crate::commands::EffectOf;
use crate::commands::EffectView;
use crate::commands::Severity;
use crate::commands::SystemCommand;
use crate::commands::SystemCommandOf;
use crate::commands::UICommand;
use crate::navigation;
use crate::navigation::Navigation;
use crate::sources;
use crate::stores;
use crate::text;
use crate::time;
use crate::types;
use crate::types::Chunk;
use crate::types::DisplayMode;
use crate::types::Fragment;
use crate::types::ItemCollection;
use crate::types::LogDataSource;
use crate::types::LogReceiver;
use crate::types::LogSource;
use crate::types::Platform;
use crate::types::PlayState;
use crate::types::RecordingOrTable;
use crate::types::StoreId;
use crate::types::StoreKind;
use crate::types::TimeControlCommand;
use crate::types::TimeControlResponse;
use vstd::prelude::*;
use vstd::string::*;

verus! {

/// What is known of the surroundings when a command is run.
#[derive(Debug, PartialEq, Eq)]
pub struct SystemFacts {
    /// Where the data of the recording came from that is to be closed.
    pub data_source: Option<LogSource>,
    /// The stores that are there, even if only in part.
    pub loaded_stores: Vec<StoreId>,
    /// Whether some recording or table is active, if that can be told.
    pub has_active_entry: Option<bool>,
    /// The page of the single item that is to be selected, if it has one.
    pub item_page: Option<DisplayMode>,
    /// Where the data of the stores came from that are there.
    pub store_sources: Vec<LogSource>,
    /// The recording that came from the data that is to be loaded.
    pub found_recording: Option<StoreId>,
}

/// The effects of copying text: the user is told about it.
pub open spec fn copy_effects(text: Seq<char>) -> Seq<EffectView> {
    seq![
        EffectOf::NotifySuccess("Copied "@ + text::quoted(text) + " to clipboard"@),
        EffectOf::CopyText(text),
    ]
}

/// Copies text to the clipboard, and gives a notification about it.
pub fn copy_text(text: String) -> (res: Vec<Effect>)
    ensures
        commands::viewed(res@) == copy_effects(text@),
{
    let notification = "Copied ".to_owned().concat(text::quote(text.as_str()).as_str()).concat(
        " to clipboard",
    );
    commands::both(EffectOf::NotifySuccess(notification), EffectOf::CopyText(text))
}

/// Copies an address that was composed, or tells why it could not be.
pub fn on_url_composed(composed: Result<String, String>) -> (res: Vec<Effect>)
    ensures
        commands::viewed(res@) == composed_effects(composed),
{
    match composed {
        Ok(url) => copy_text(url),
        Err(err) => commands::just(commands::report(Severity::Error, err)),
    }
}

/// The loading screen is for a dataset that is there already, even if only in part.
pub open spec fn is_loaded_already(mode: DisplayMode, loaded_stores: Seq<StoreId>) -> bool {
    match mode {
        DisplayMode::Loading(LogSource::RedapGrpcStream { uri, .. }) => types::is_among(
            loaded_stores,
            uri.store_id,
        ),
        _ => false,
    }
}

/// The change of what is shown is to be made.
pub open spec fn mode_changes(current: DisplayMode, mode: DisplayMode, loaded: Seq<StoreId>) -> bool {
    !types::same_mode(mode, current) && !is_loaded_already(mode, loaded)
}

/// The server with the origin is known.
pub open spec fn has_server(servers: Seq<String>, origin: Seq<char>) -> bool {
    exists|i: int| 0 <= i < servers.len() && #[trigger] servers[i]@ == origin
}

fn is_known_server(servers: &Vec<String>, origin: &String) -> (res: bool)
    ensures
        res == has_server(servers@, origin@),
{
    let mut i: usize = 0;
    while i < servers.len()
        invariant
            i <= servers@.len(),
            forall|k: int| 0 <= k < i ==> #[trigger] servers@[k]@ != origin@,
        decreases servers@.len() - i,
    {
        if servers[i] == *origin {
            assert(servers@[i as int]@ == origin@);
            return true;
        }
        i = i + 1;
    }
    false
}

/// The server is to be added: it is not the one of the examples, and not known yet.
pub open spec fn server_is_new(app: AppModel, origin: Seq<char>) -> bool {
    origin != app.defaults.examples_origin@ && !has_server(app.state.redap_servers, origin)
}

/// Some of the chunks belongs to a time.
pub open spec fn any_temporal(chunks: Seq<Chunk>) -> bool {
    exists|i: int| 0 <= i < chunks.len() && !(#[trigger] chunks[i]).is_static
}

fn has_temporal(chunks: &Vec<Chunk>) -> (res: bool)
    ensures
        res == any_temporal(chunks@),
{
    let mut i: usize = 0;
    while i < chunks.len()
        invariant
            i <= chunks@.len(),
            forall|k: int| 0 <= k < i ==> (#[trigger] chunks@[k]).is_static,
        decreases chunks@.len() - i,
    {
        if !chunks[i].is_static {
            assert(!chunks@[i as int].is_static);
            return true;
        }
        i = i + 1;
    }
    false
}

/// The effects of offering chunks to a store: one by one, in order.
pub open spec fn chunks_added(store_id: StoreId, chunks: Seq<Chunk>) -> Seq<EffectView> {
    chunks.map_values(|chunk: Chunk| EffectView::AddChunk(store_id, chunk))
}

/// What the viewer shows after a change of what is shown.
pub open spec fn showing(app: AppModel, mode: DisplayMode) -> AppModel {
    AppModel {
        state: StateModel {
            navigation: Navigation { current: mode, ..app.state.navigation },
            ..app.state
        },
        ..app
    }
}

/// The source that is closed together with an entry.
pub open spec fn source_to_close(entry: RecordingOrTable, facts: SystemFacts) -> Option<LogSource> {
    match (entry, facts.data_source) {
        (RecordingOrTable::Recording { .. }, Some(source)) => if sources::closes_with_recording(
            source,
        ) {
            Some(source)
        } else {
            None
        },
        _ => None,
    }
}

/// The viewer after a command.
pub open spec fn system_state(app: AppModel, cmd: SystemCommand, facts: SystemFacts) -> AppModel {
    match cmd {
        SystemCommandOf::ActivateRecordingOrTable { display_mode, .. } => showing(
            app,
            display_mode,
        ),
        SystemCommandOf::CloseRecordingOrTable(entry) => match source_to_close(entry, facts) {
            Some(source) => AppModel {
                rx_log: sources::others_than(app.rx_log, source),
                ..app
            },
            None => app,
        },
        SystemCommandOf::CloseAllEntries => AppModel {
            rx_log: sources::kept_when_closing_all(app.rx_log),
            ..showing(app, app.state.navigation.home)
        },
        SystemCommandOf::AddReceiver(rx) => AppModel { rx_log: app.rx_log.push(rx), ..app },
        SystemCommandOf::ChangeDisplayMode(mode) => if !mode_changes(
            app.state.navigation.current,
            mode,
            facts.loaded_stores@,
        ) {
            app
        } else if mode is Loading {
            let shown = showing(app, mode);
            AppModel { state: StateModel { selection: Seq::empty(), ..shown.state }, ..shown }
        } else {
            showing(app, mode)
        },
        SystemCommandOf::OpenSettings => showing(
            app,
            DisplayMode::Settings(Box::new(app.state.navigation.current)),
        ),
        SystemCommandOf::OpenChunkStoreBrowser => showing(
            app,
            navigation::browsing(app.state.navigation.current),
        ),
        SystemCommandOf::ResetDisplayMode => showing(app, app.state.navigation.home),
        SystemCommandOf::AddRedapServer(origin) => if !server_is_new(app, origin@) {
            app
        } else {
            let added = AppModel {
                state: StateModel {
                    redap_servers: app.state.redap_servers.push(origin),
                    ..app.state
                },
                ..app
            };
            if facts.has_active_entry == Some(true) {
                added
            } else {
                showing(added, DisplayMode::RedapServer(origin))
            }
        },
        SystemCommandOf::ResetViewer => AppModel { state: app::default_state(app.defaults), ..app },
        SystemCommandOf::EnableInspectBlueprintTimeline(show) => AppModel {
            state: StateModel {
                app_options: app::AppOptions {
                    inspect_blueprint_timeline: show,
                    ..app.state.app_options
                },
                ..app.state
            },
            ..app
        },
        SystemCommandOf::SetSelection(set) => {
            let shown = match facts.item_page {
                Some(mode) => if set.items().len() == 1 {
                    showing(app, mode)
                } else {
                    app
                },
                None => app,
            };
            AppModel { state: StateModel { selection: set.items(), ..shown.state }, ..shown }
        },
        SystemCommandOf::SetFocus(item) => AppModel {
            state: StateModel { focused_item: Some(item), ..app.state },
            ..app
        },
        SystemCommandOf::OnAuthChanged(auth) => AppModel {
            state: StateModel { auth_state: auth, ..app.state },
            ..app
        },
        _ => app,
    }
}

/// What a command brings about in the surroundings, in order.
pub open spec fn system_effects(app: AppModel, cmd: SystemCommand, facts: SystemFacts) -> Seq<
    EffectView,
> {
    match cmd {
        SystemCommandOf::TimeControlCommands { store_id, time_commands } => match store_id.kind {
            StoreKind::Recording => seq![
                EffectOf::SetActiveRecording(store_id),
                EffectOf::ApplyTimeCommands { store_id, time_commands: time_commands@ },
            ],
            StoreKind::Blueprint => seq![
                EffectOf::ApplyBlueprintTimeCommands { store_id, time_commands: time_commands@ },
            ],
        },
        SystemCommandOf::BackgroundTimeControlCommands { store_id, time_commands } => match store_id.kind {
            StoreKind::Recording => seq![
                EffectOf::ApplyTimeCommandsInBackground { store_id, time_commands: time_commands@ },
            ],
            StoreKind::Blueprint => seq![
                EffectOf::ApplyBlueprintTimeCommands { store_id, time_commands: time_commands@ },
            ],
        },
        SystemCommandOf::SetUrlFragment { store_id, fragment } => time::fragment_effects(
            store_id,
            fragment,
        ),
        SystemCommandOf::CopyViewerUrl(url) => match app.platform {
            Platform::Web => seq![EffectOf::CombineWithBaseUrl(url)],
            Platform::Native => copy_effects(url@),
        },
        SystemCommandOf::ActivateApp(app_id) => seq![EffectOf::SetActiveApp(app_id)],
        SystemCommandOf::CloseApp(app_id) => seq![EffectOf::CloseApp(app_id)],
        SystemCommandOf::ActivateRecordingOrTable { entry, .. } => match entry {
            RecordingOrTable::Recording { store_id } => seq![
                EffectOf::SetActiveRecording(store_id),
            ],
            RecordingOrTable::Table { .. } => Seq::empty(),
        },
        SystemCommandOf::CloseRecordingOrTable(entry) => match source_to_close(entry, facts) {
            Some(_) => seq![EffectOf::DropReceivers, EffectOf::RemoveEntry(entry)],
            None => seq![EffectOf::RemoveEntry(entry)],
        },
        SystemCommandOf::CloseAllEntries => seq![
            EffectOf::ClearEntries,
            EffectOf::DropReceivers,
        ],
        SystemCommandOf::AddReceiver(rx) => app::receiver_effects(rx),
        SystemCommandOf::ChangeDisplayMode(mode) => if mode_changes(
            app.state.navigation.current,
            mode,
            facts.loaded_stores@,
        ) {
            seq![EffectOf::RequestRepaint]
        } else {
            Seq::empty()
        },
        SystemCommandOf::OpenSettings => analytics::recorded(
            app.build_info.analytics,
            AnalyticsEvent::SettingsOpened,
        ),
        SystemCommandOf::OpenChunkStoreBrowser => Seq::empty(),
        SystemCommandOf::ResetDisplayMode => seq![EffectOf::RequestRepaint],
        SystemCommandOf::AddRedapServer(origin) => if server_is_new(app, origin@) {
            seq![
                EffectOf::AddServer(origin),
                EffectOf::SendUi(UICommand::ExpandBlueprintPanel),
            ]
        } else {
            Seq::empty()
        },
        SystemCommandOf::EditRedapServerModal { origin, open_on_success, title } => seq![
            EffectOf::OpenEditServerModal {
                origin,
                open_on_success,
                title: commands::option_text(title),
            },
        ],
        SystemCommandOf::LoadDataSource(data_source) => stores::load_effects(
            data_source,
            sources::is_present(facts.store_sources@, app.rx_log, data_source),
            facts.found_recording,
        ),
        SystemCommandOf::ResetViewer => seq![
            EffectOf::ClearAllClonedBlueprints,
            EffectOf::ResetEguiMemory,
            EffectOf::ApplyStyle,
            EffectOf::ResetPersistence,
        ],
        SystemCommandOf::ClearActiveBlueprintAndEnableHeuristics => seq![
            EffectOf::ClearActiveBlueprintAndGenerate,
            EffectOf::RequestRepaint,
        ],
        SystemCommandOf::ClearActiveBlueprint => seq![
            EffectOf::ClearActiveBlueprint,
            EffectOf::RequestRepaint,
        ],
        SystemCommandOf::AppendToStore(store_id, chunks) => {
            let undo = if store_id.kind == StoreKind::Blueprint && any_temporal(chunks@) {
                let following = if app.state.app_options.inspect_blueprint_timeline {
                    seq![
                        commands::time_commands_sent(
                            store_id,
                            seq![TimeControlCommand::SetPlayState(PlayState::Following)],
                        ),
                    ]
                } else {
                    Seq::<EffectView>::empty()
                };
                seq![EffectView::ClearRedoBuffer(store_id)] + following
            } else {
                Seq::<EffectView>::empty()
            };
            undo + chunks_added(store_id, chunks@)
        },
        SystemCommandOf::UndoBlueprint { blueprint_id } => seq![
            EffectOf::UndoBlueprint(blueprint_id),
        ],
        SystemCommandOf::RedoBlueprint { blueprint_id } => seq![
            EffectOf::RedoBlueprint(blueprint_id),
        ],
        SystemCommandOf::DropEntity(store_id, entity_path) => seq![
            EffectOf::DropEntity(store_id, entity_path),
        ],
        SystemCommandOf::EnableInspectBlueprintTimeline(_) => Seq::empty(),
        SystemCommandOf::SetSelection(set) => match facts.item_page {
            Some(DisplayMode::LocalRecordings(store_id)) => if set.items().len() == 1 {
                seq![EffectOf::SetActiveRecording(store_id), EffectOf::RequestRepaint]
            } else {
                seq![EffectOf::RequestRepaint]
            },
            _ => seq![EffectOf::RequestRepaint],
        },
        SystemCommandOf::SetFocus(_) => Seq::empty(),
        SystemCommandOf::ShowNotification(notification) => seq![
            EffectOf::AddNotification(notification),
        ],
        SystemCommandOf::FileSaver(file_saver) => seq![EffectOf::SpawnFileSaver(file_saver)],
        SystemCommandOf::OnAuthChanged(_) => Seq::empty(),
        SystemCommandOf::SetAuthCredentials { access_token, email } => seq![
            EffectOf::StoreCredentials { access_token, email },
        ],
        SystemCommandOf::Logout => seq![EffectOf::ClearCredentials, EffectOf::LogoutServers],
    }
}

impl App {
    fn close_entry(&mut self, entry: RecordingOrTable, facts: &SystemFacts) -> (res: Vec<Effect>)
        ensures
            old(self).wf() ==> final(self).wf(),
            final(self)@ == system_state(
                old(self)@,
                SystemCommandOf::CloseRecordingOrTable(entry),
                *facts,
            ),
            commands::viewed(res@) == system_effects(
                old(self)@,
                SystemCommandOf::CloseRecordingOrTable(entry),
                *facts,
            ),
    {
        if let (RecordingOrTable::Recording { .. }, Some(source)) = (&entry, &facts.data_source) {
            if source.is_closed_with_recording() {
                sources::drop_source(&mut self.rx_log, source);
                return commands::both(EffectOf::DropReceivers, EffectOf::RemoveEntry(entry));
            }
        }
        commands::just(EffectOf::RemoveEntry(entry))
    }

    fn change_display_mode(&mut self, mode: DisplayMode, facts: &SystemFacts) -> (res: Vec<Effect>)
        ensures
            old(self).wf() ==> final(self).wf(),
            final(self)@ == system_state(
                old(self)@,
                SystemCommandOf::ChangeDisplayMode(mode),
                *facts,
            ),
            commands::viewed(res@) == system_effects(
                old(self)@,
                SystemCommandOf::ChangeDisplayMode(mode),
                *facts,
            ),
    {
        if mode.same_as(&self.state.navigation.current) {
            return commands::nothing();
        }
        if let DisplayMode::Loading(LogSource::RedapGrpcStream { uri, .. }) = &mode {
            if types::contains_store(&facts.loaded_stores, &uri.store_id) {
                return commands::nothing();
            }
        }
        if let DisplayMode::Loading(_) = &mode {
            self.state.selection = ItemCollection::new(Vec::new());
        }
        self.state.navigation.replace(mode);
        commands::just(EffectOf::RequestRepaint)
    }

    fn add_redap_server(&mut self, origin: String, facts: &SystemFacts) -> (res: Vec<Effect>)
        ensures
            old(self).wf() ==> final(self).wf(),
            final(self)@ == system_state(
                old(self)@,
                SystemCommandOf::AddRedapServer(origin),
                *facts,
            ),
            commands::viewed(res@) == system_effects(
                old(self)@,
                SystemCommandOf::AddRedapServer(origin),
                *facts,
            ),
    {
        if origin == self.defaults.examples_origin {
            return commands::nothing();
        }
        if is_known_server(&self.state.redap_servers, &origin) {
            return commands::nothing();
        }
        self.state.redap_servers.push(origin.clone());
        let effects = commands::both(
            EffectOf::AddServer(origin.clone()),
            EffectOf::SendUi(UICommand::ExpandBlueprintPanel),
        );
        let stays = match facts.has_active_entry {
            Some(has_active_entry) => has_active_entry,
            None => false,
        };
        if !stays {
            self.state.navigation.replace(DisplayMode::RedapServer(origin));
        }
        effects
    }

    fn append_to_store(&self, store_id: StoreId, chunks: Vec<Chunk>, facts: &SystemFacts) -> (res:
        Vec<Effect>)
        ensures
            commands::viewed(res@) == system_effects(
                self@,
                SystemCommandOf::AppendToStore(store_id, chunks),
                *facts,
            ),
    {
        let mut effects = commands::nothing();
        if store_id.is_blueprint() && has_temporal(&chunks) {
            commands::put(&mut effects, EffectOf::ClearRedoBuffer(store_id.clone()));
            if self.state.app_options.inspect_blueprint_timeline {
                commands::put(
                    &mut effects,
                    commands::send_time_commands(
                        store_id.clone(),
                        commands::one_time_command(
                            TimeControlCommand::SetPlayState(PlayState::Following),
                        ),
                    ),
                );
            }
        }
        let ghost undo = commands::viewed(effects@);
        let ghost added = chunks_added(store_id, chunks@);
        let mut i: usize = 0;
        assert(commands::viewed(effects@) =~= undo + added.take(0));
        while i < chunks.len()
            invariant
                i <= chunks@.len(),
                added == chunks_added(store_id, chunks@),
                commands::viewed(effects@) == undo + added.take(i as int),
            decreases chunks@.len() - i,
        {
            commands::put(&mut effects, EffectOf::AddChunk(store_id.clone(), chunks[i]));
            assert(commands::viewed(effects@) =~= undo + added.take(i + 1));
            i = i + 1;
        }
        assert(added.take(i as int) =~= added);
        assert(commands::viewed(effects@) =~= system_effects(
            self@,
            SystemCommandOf::AppendToStore(store_id, chunks),
            *facts,
        ));
        effects
    }

    fn set_selection(&mut self, set: ItemCollection, facts: &SystemFacts) -> (res: Vec<Effect>)
        requires
            set.wf(),
        ensures
            old(self).wf() ==> final(self).wf(),
            final(self)@ == system_state(old(self)@, SystemCommandOf::SetSelection(set), *facts),
            commands::viewed(res@) == system_effects(
                old(self)@,
                SystemCommandOf::SetSelection(set),
                *facts,
            ),
    {
        let mut effects = commands::nothing();
        if let ItemCollection::One(_) = &set {
            if let Some(mode) = &facts.item_page {
                if let DisplayMode::LocalRecordings(store_id) = mode {
                    commands::put(&mut effects, EffectOf::SetActiveRecording(store_id.clone()));
                }
                self.state.navigation.replace(mode.clone());
            }
        }
        self.state.selection = set;
        commands::put(&mut effects, EffectOf::RequestRepaint);
        assert(commands::viewed(effects@) =~= system_effects(
            old(self)@,
            SystemCommandOf::SetSelection(set),
            *facts,
        ));
        effects
    }

    /// Runs a command to the viewer's own state.
    #[verifier::spinoff_prover]
    #[verifier::rlimit(60)]
    pub fn run_system_command(&mut self, cmd: SystemCommand, facts: &SystemFacts) -> (res: Vec<
        Effect,
    >)
        requires
            old(self).wf(),
            cmd matches SystemCommandOf::SetSelection(set) ==> set.wf(),
        ensures
            final(self).wf(),
            final(self)@ == system_state(old(self)@, cmd, *facts),
            commands::viewed(res@) == system_effects(old(self)@, cmd, *facts),
    {
        match cmd {
            SystemCommandOf::TimeControlCommands { store_id, time_commands } => {
                match store_id.kind {
                    StoreKind::Recording => commands::both(
                        EffectOf::SetActiveRecording(store_id.clone()),
                        EffectOf::ApplyTimeCommands { store_id, time_commands },
                    ),
                    StoreKind::Blueprint => commands::just(
                        EffectOf::ApplyBlueprintTimeCommands { store_id, time_commands },
                    ),
                }
            },
            SystemCommandOf::BackgroundTimeControlCommands { store_id, time_commands } => {
                match store_id.kind {
                    StoreKind::Recording => commands::just(
                        EffectOf::ApplyTimeCommandsInBackground { store_id, time_commands },
                    ),
                    StoreKind::Blueprint => commands::just(
                        EffectOf::ApplyBlueprintTimeCommands { store_id, time_commands },
                    ),
                }
            },
            SystemCommandOf::SetUrlFragment { store_id, fragment } => {
                time::go_to_dataset_data(store_id, fragment)
            },
            SystemCommandOf::CopyViewerUrl(url) => match self.platform {
                Platform::Web => commands::just(EffectOf::CombineWithBaseUrl(url)),
                Platform::Native => copy_text(url),
            },
            SystemCommandOf::ActivateApp(app_id) => commands::just(
                EffectOf::SetActiveApp(app_id),
            ),
            SystemCommandOf::CloseApp(app_id) => commands::just(EffectOf::CloseApp(app_id)),
            SystemCommandOf::ActivateRecordingOrTable { entry, display_mode } => {
                self.state.navigation.replace(display_mode);
                match entry {
                    RecordingOrTable::Recording { store_id } => commands::just(
                        EffectOf::SetActiveRecording(store_id),
                    ),
                    RecordingOrTable::Table { .. } => commands::nothing(),
                }
            },
            SystemCommandOf::CloseRecordingOrTable(entry) => self.close_entry(entry, facts),
            SystemCommandOf::CloseAllEntries => {
                self.state.navigation.reset();
                sources::drop_when_closing_all(&mut self.rx_log);
                commands::both(EffectOf::ClearEntries, EffectOf::DropReceivers)
            },
            SystemCommandOf::AddReceiver(rx) => self.add_log_receiver(rx),
            SystemCommandOf::ChangeDisplayMode(mode) => self.change_display_mode(mode, facts),
            SystemCommandOf::OpenSettings => {
                self.state.navigation.open_settings();
                if self.build_info.analytics {
                    commands::just(EffectOf::Record(AnalyticsEvent::SettingsOpened))
                } else {
                    commands::nothing()
                }
            },
            SystemCommandOf::OpenChunkStoreBrowser => {
                self.state.navigation.open_chunk_store_browser();
                commands::nothing()
            },
            SystemCommandOf::ResetDisplayMode => {
                self.state.navigation.reset();
                commands::just(EffectOf::RequestRepaint)
            },
            SystemCommandOf::AddRedapServer(origin) => self.add_redap_server(origin, facts),
            SystemCommandOf::EditRedapServerModal { origin, open_on_success, title } => {
                commands::just(EffectOf::OpenEditServerModal { origin, open_on_success, title })
            },
            SystemCommandOf::LoadDataSource(data_source) => {
                let present = sources::data_is_present(
                    &facts.store_sources,
                    &self.rx_log,
                    &data_source,
                );
                stores::load_data_source(data_source, present, facts.found_recording.clone())
            },
            SystemCommandOf::ResetViewer => self.reset_viewer(),
            SystemCommandOf::ClearActiveBlueprintAndEnableHeuristics => commands::both(
                EffectOf::ClearActiveBlueprintAndGenerate,
                EffectOf::RequestRepaint,
            ),
            SystemCommandOf::ClearActiveBlueprint => commands::both(
                EffectOf::ClearActiveBlueprint,
                EffectOf::RequestRepaint,
            ),
            SystemCommandOf::AppendToStore(store_id, chunks) => self.append_to_store(
                store_id,
                chunks,
                facts,
            ),
            SystemCommandOf::UndoBlueprint { blueprint_id } => commands::just(
                EffectOf::UndoBlueprint(blueprint_id),
            ),
            SystemCommandOf::RedoBlueprint { blueprint_id } => commands::just(
                EffectOf::RedoBlueprint(blueprint_id),
            ),
            SystemCommandOf::DropEntity(store_id, entity_path) => commands::just(
                EffectOf::DropEntity(store_id, entity_path),
            ),
            SystemCommandOf::EnableInspectBlueprintTimeline(show) => {
                self.state.app_options.inspect_blueprint_timeline = show;
                commands::nothing()
            },
            SystemCommandOf::SetSelection(set) => self.set_selection(set, facts),
            SystemCommandOf::SetFocus(item) => {
                self.state.focused_item = Some(item);
                commands::nothing()
            },
            SystemCommandOf::ShowNotification(notification) => commands::just(
                EffectOf::AddNotification(notification),
            ),
            SystemCommandOf::FileSaver(file_saver) => commands::just(
                EffectOf::SpawnFileSaver(file_saver),
            ),
            SystemCommandOf::OnAuthChanged(auth) => {
                self.state.auth_state = auth;
                commands::nothing()
            },
            SystemCommandOf::SetAuthCredentials { access_token, email } => commands::just(
                EffectOf::StoreCredentials { access_token, email },
            ),
            SystemCommandOf::Logout => commands::both(
                EffectOf::ClearCredentials,
                EffectOf::LogoutServers,
            ),
        }
    }

    /// Makes the viewer look as it did the first time that it was run.
    pub fn reset_viewer(&mut self) -> (res: Vec<Effect>)
        ensures
            old(self).wf() ==> final(self).wf(),
            final(self)@ == (AppModel {
                state: app::default_state(old(self)@.defaults),
                ..old(self)@
            }),
            commands::viewed(res@) == seq![
                EffectView::ClearAllClonedBlueprints,
                EffectOf::ResetEguiMemory,
                EffectOf::ApplyStyle,
                EffectOf::ResetPersistence,
            ],
    {
        self.state = AppState::new(&self.defaults);
        let mut effects = commands::three(
            EffectOf::ClearAllClonedBlueprints,
            EffectOf::ResetEguiMemory,
            EffectOf::ApplyStyle,
        );
        commands::put(&mut effects, EffectOf::ResetPersistence);
        assert(commands::viewed(effects@) =~= seq![
            EffectView::ClearAllClonedBlueprints,
            EffectOf::ResetEguiMemory,
            EffectOf::ApplyStyle,
            EffectOf::ResetPersistence,
        ]);
        effects
    }

    /// Shows the recording that became active together with an application, or what is shown at
    /// first if there is none.
    pub fn on_app_activated(&mut self, active_store_id: Option<StoreId>)
        requires
            old(self).wf(),
        ensures
            final(self).wf(),
            final(self)@ == showing(
                old(self)@,
                mode_of_active_app(old(self)@.state.navigation.home, active_store_id),
            ),
    {
        match active_store_id {
            Some(store_id) => self.state.navigation.replace(DisplayMode::LocalRecordings(store_id)),
            None => self.state.navigation.reset(),
        }
    }

    /// What follows when time commands reached the time control of the given recording, or found
    /// no blueprint for it.
    pub fn on_time_commands_applied(
        &self,
        store_id: &StoreId,
        response: Option<TimeControlResponse>,
    ) -> (res: Vec<Effect>)
        ensures
            commands::viewed(res@) == time_applied_effects(
                self@.has_event_dispatcher,
                *store_id,
                response,
            ),
    {
        match response {
            Some(response) => time::on_time_control_response(
                store_id,
                self.has_event_dispatcher,
                response,
            ),
            None => commands::just(
                commands::report(
                    Severity::Error,
                    "Skipping time control command because of missing blueprint".to_owned(),
                ),
            ),
        }
    }
}

/// A mode shows the same as itself.
pub proof fn a_mode_is_the_same_as_itself(mode: DisplayMode)
    ensures
        types::same_mode(mode, mode),
    decreases mode,
{
    match mode {
        DisplayMode::Settings(previous) => a_mode_is_the_same_as_itself(*previous),
        DisplayMode::ChunkStoreBrowser(previous) => a_mode_is_the_same_as_itself(*previous),
        _ => {},
    }
}

/// Showing what is shown already changes nothing.
pub proof fn showing_what_is_shown_is_nothing(app: AppModel, facts: SystemFacts)
    ensures
        ({
            let cmd = SystemCommandOf::ChangeDisplayMode(app.state.navigation.current);
            system_state(app, cmd, facts) == app && system_effects(app, cmd, facts) == Seq::<
                EffectView,
            >::empty()
        }),
{
    a_mode_is_the_same_as_itself(app.state.navigation.current);
}

/// A server that was added is known: adding it again changes nothing.
pub proof fn servers_are_added_once(
    app: AppModel,
    origin: String,
    facts: SystemFacts,
    later_facts: SystemFacts,
)
    ensures
        ({
            let cmd = SystemCommandOf::AddRedapServer(origin);
            let later = system_state(app, cmd, facts);
            system_state(later, cmd, later_facts) == later && system_effects(
                later,
                cmd,
                later_facts,
            ) == Seq::<EffectView>::empty()
        }),
{
    let later = system_state(app, SystemCommandOf::AddRedapServer(origin), facts);
    if server_is_new(app, origin@) {
        let n = app.state.redap_servers.len() as int;
        assert(later.state.redap_servers[n]@ == origin@);
    }
}

/// Connections come and go only with the commands that say so.
pub proof fn only_some_commands_touch_connections(
    app: AppModel,
    cmd: SystemCommand,
    facts: SystemFacts,
)
    requires
        !(cmd is AddReceiver),
        !(cmd is CloseRecordingOrTable),
        !(cmd is CloseAllEntries),
    ensures
        system_state(app, cmd, facts).rx_log == app.rx_log,
{
}

/// What streams in is not opened a second time, whatever fragment its address has.
pub proof fn streams_are_opened_once(
    app: AppModel,
    rx: LogReceiver,
    data_source: LogDataSource,
    facts: SystemFacts,
    i: int,
)
    requires
        sources::source_of(data_source) matches Some(source)
            && types::same_source_ignoring_fragments(rx.source, source),
        0 <= i < system_effects(
            AppModel { rx_log: app.rx_log.push(rx), ..app },
            SystemCommandOf::LoadDataSource(data_source),
            facts,
        ).len(),
    ensures
        !(system_effects(
            AppModel { rx_log: app.rx_log.push(rx), ..app },
            SystemCommandOf::LoadDataSource(data_source),
            facts,
        )[i] is OpenStream),
{
    let receivers = app.rx_log.push(rx);
    let source = sources::source_of(data_source)->0;
    assert(types::same_source_ignoring_fragments(
        receivers[app.rx_log.len() as int].source,
        source,
    ));
    stores::present_data_is_not_loaded_again(data_source, facts.found_recording, i);
}

/// Running what a fragment queues activates no recording and no application, queues nothing more,
/// and leaves the viewer at what it shows, unless the item that the fragment selects has a page of
/// its own.
pub proof fn fragments_do_not_switch_recordings(
    app: AppModel,
    store_id: StoreId,
    fragment: Fragment,
    cmd: SystemCommand,
    facts: SystemFacts,
    i: int,
)
    requires
        0 <= i < time::fragment_effects(store_id, fragment).len(),
        time::fragment_effects(store_id, fragment)[i] == EffectView::SendSystem(cmd@),
        facts.item_page is None,
    ensures
        forall|k: int|
            0 <= k < system_effects(app, cmd, facts).len() ==> {
                let effect = #[trigger] system_effects(app, cmd, facts)[k];
                !(effect is SetActiveRecording) && !(effect is SetActiveApp) && !(effect is SendSystem)
            },
        system_state(app, cmd, facts).state.navigation == app.state.navigation,
{
}

/// All that a fragment brings about is queued.
pub proof fn fragments_are_queued(store_id: StoreId, fragment: Fragment, i: int)
    requires
        0 <= i < time::fragment_effects(store_id, fragment).len(),
    ensures
        time::fragment_effects(store_id, fragment)[i] is SendSystem,
{
}

/// Every chunk is offered to its store once, in order and after all else, whatever becomes of the
/// ones before it.
pub proof fn every_chunk_is_offered(
    app: AppModel,
    store_id: StoreId,
    chunks: Vec<Chunk>,
    facts: SystemFacts,
    k: int,
)
    requires
        0 <= k < chunks@.len(),
    ensures
        ({
            let effects = system_effects(
                app,
                SystemCommandOf::AppendToStore(store_id, chunks),
                facts,
            );
            let before = effects.len() - chunks@.len();
            &&& 0 <= before <= 2
            &&& effects[before + k] == EffectView::AddChunk(store_id, chunks@[k])
            &&& forall|i: int| 0 <= i < before ==> !(#[trigger] effects[i] is AddChunk)
        }),
{
}

/// No command to the viewer's state touches a video export.
pub proof fn commands_leave_exports_alone(app: AppModel, cmd: SystemCommand, facts: SystemFacts)
    ensures
        system_state(app, cmd, facts).export == app.export,
        system_state(app, cmd, facts).next_export_id == app.next_export_id,
{
}

/// After a reset, the viewer is as one that starts for the first time, but for its connections and
/// its exports.
pub proof fn a_reset_viewer_is_as_new(app: AppModel, facts: SystemFacts)
    ensures
        system_state(app, SystemCommandOf::ResetViewer, facts).state == app::default_state(
            app.defaults,
        ),
        system_state(app, SystemCommandOf::ResetViewer, facts).rx_log == app.rx_log,
{
}

/// What is selected is what was asked for. A single item that has a page is shown on it, whatever
/// kind of page that is, and a recording becomes active with it. Without a page, and with several
/// items or none, the viewer stays at what it shows, and nothing becomes active.
pub proof fn single_items_are_shown_on_their_page(
    app: AppModel,
    set: ItemCollection,
    facts: SystemFacts,
)
    ensures
        ({
            let cmd = SystemCommandOf::SetSelection(set);
            let after = system_state(app, cmd, facts);
            let effects = system_effects(app, cmd, facts);
            let single = set.items().len() == 1;
            &&& after.state.selection == set.items()
            &&& after.state.navigation.home == app.state.navigation.home
            &&& match facts.item_page {
                Some(mode) => after.state.navigation.current == if single {
                    mode
                } else {
                    app.state.navigation.current
                },
                None => after.state.navigation.current == app.state.navigation.current,
            }
            &&& match facts.item_page {
                Some(DisplayMode::LocalRecordings(store_id)) => single ==> effects.len() == 2
                    && effects[0] == EffectView::SetActiveRecording(store_id),
                _ => effects.len() == 1,
            }
            &&& !single ==> effects.len() == 1
            &&& effects.last() == EffectView::RequestRepaint
        }),
{
}

/// A command does the same wherever the viewer runs, but for the address that it copies: only the
/// web viewer has an address of its own.
#[verifier::spinoff_prover]
#[verifier::rlimit(60)]
pub proof fn commands_do_the_same_everywhere(
    app: AppModel,
    platform: Platform,
    cmd: SystemCommand,
    facts: SystemFacts,
)
    requires
        !(cmd is CopyViewerUrl),
    ensures
        system_effects(AppModel { platform, ..app }, cmd, facts) == system_effects(
            app,
            cmd,
            facts,
        ),
{
}

/// A command leaves the same state behind wherever the viewer runs.
#[verifier::spinoff_prover]
#[verifier::rlimit(60)]
pub proof fn commands_lead_to_the_same_everywhere(
    app: AppModel,
    platform: Platform,
    cmd: SystemCommand,
    facts: SystemFacts,
)
    ensures
        system_state(AppModel { platform, ..app }, cmd, facts).state == system_state(
            app,
            cmd,
            facts,
        ).state,
        system_state(AppModel { platform, ..app }, cmd, facts).rx_log == system_state(
            app,
            cmd,
            facts,
        ).rx_log,
{
}

/// Each part of the viewer's state is changed only by the commands that are for it, and a reset.
pub proof fn commands_change_what_they_are_for(app: AppModel, cmd: SystemCommand, facts: SystemFacts)
    requires
        !(cmd is ResetViewer),
    ensures
        ({
            let after = system_state(app, cmd, facts);
            let opens_loading = cmd matches SystemCommandOf::ChangeDisplayMode(mode)
                && mode is Loading;
            &&& after.platform == app.platform
            &&& after.build_info == app.build_info
            &&& after.app_env == app.app_env
            &&& after.startup_options == app.startup_options
            &&& after.defaults == app.defaults
            &&& after.open_files == app.open_files
            &&& after.memory_panel_open == app.memory_panel_open
            &&& after.egui_debug_panel_open == app.egui_debug_panel_open
            &&& after.panel_state_overrides_active == app.panel_state_overrides_active
            &&& after.has_event_dispatcher == app.has_event_dispatcher
            &&& after.install_hint_shown == app.install_hint_shown
            &&& after.state.navigation.home == app.state.navigation.home
            &&& !(cmd is SetSelection) && !opens_loading ==> after.state.selection
                == app.state.selection
            &&& !(cmd is SetFocus) ==> after.state.focused_item == app.state.focused_item
            &&& !(cmd is OnAuthChanged) ==> after.state.auth_state == app.state.auth_state
            &&& !(cmd is AddRedapServer) ==> after.state.redap_servers == app.state.redap_servers
            &&& !(cmd is EnableInspectBlueprintTimeline) ==> after.state.app_options
                == app.state.app_options
            &&& !(cmd is ActivateRecordingOrTable) && !(cmd is CloseAllEntries) && !(
            cmd is ChangeDisplayMode) && !(cmd is OpenSettings) && !(cmd is OpenChunkStoreBrowser)
                && !(cmd is ResetDisplayMode) && !(cmd is AddRedapServer) && !(cmd is SetSelection)
                ==> after.state.navigation == app.state.navigation
        }),
{
}

/// Commands to set something set it to what they say.
pub proof fn what_is_set_is_there_afterwards(app: AppModel, cmd: SystemCommand, facts: SystemFacts)
    ensures
        ({
            let after = system_state(app, cmd, facts);
            match cmd {
                SystemCommandOf::SetFocus(item) => after.state.focused_item == Some(item),
                SystemCommandOf::OnAuthChanged(auth) => after.state.auth_state == auth,
                SystemCommandOf::EnableInspectBlueprintTimeline(show) => {
                    &&& after.state.app_options.inspect_blueprint_timeline == show
                    &&& after.state.app_options.blueprint_gc == app.state.app_options.blueprint_gc
                    &&& after.state.app_options.show_metrics == app.state.app_options.show_metrics
                    &&& after.state.app_options.show_notification_toasts
                        == app.state.app_options.show_notification_toasts
                    &&& after.state.app_options.video_decoder_hw_acceleration
                        == app.state.app_options.video_decoder_hw_acceleration
                },
                SystemCommandOf::ActivateRecordingOrTable { display_mode, .. } =>
                    after.state.navigation.current == display_mode,
                SystemCommandOf::ResetDisplayMode => after.state.navigation.current
                    == app.state.navigation.home,
                SystemCommandOf::CloseAllEntries => after.state.navigation.current
                    == app.state.navigation.home,
                SystemCommandOf::OpenSettings => after.state.navigation.current
                    == DisplayMode::Settings(Box::new(app.state.navigation.current)),
                SystemCommandOf::AddReceiver(rx) => after.rx_log.len() == app.rx_log.len() + 1
                    && after.rx_log.last() == rx && after.rx_log.drop_last() == app.rx_log,
                _ => true,
            }
        }),
{
    if let SystemCommandOf::AddReceiver(rx) = cmd {
        assert(app.rx_log.push(rx).drop_last() =~= app.rx_log);
    }
}

/// Time commands reach the store that they are for, all of them and unchanged, and nothing else
/// follows. A recording becomes active before that, unless it is told in the background; a blueprint
/// never does.
pub proof fn time_commands_reach_their_store(
    app: AppModel,
    store_id: StoreId,
    time_commands: Vec<TimeControlCommand>,
    facts: SystemFacts,
)
    ensures
        ({
            let front = system_effects(
                app,
                SystemCommandOf::TimeControlCommands { store_id, time_commands },
                facts,
            );
            let back = system_effects(
                app,
                SystemCommandOf::BackgroundTimeControlCommands { store_id, time_commands },
                facts,
            );
            &&& store_id.kind == StoreKind::Recording ==> {
                &&& front.len() == 2
                &&& front[0] == EffectView::SetActiveRecording(store_id)
                &&& front[1] == EffectView::ApplyTimeCommands {
                    store_id,
                    time_commands: time_commands@,
                }
                &&& back.len() == 1
                &&& back[0] == EffectView::ApplyTimeCommandsInBackground {
                    store_id,
                    time_commands: time_commands@,
                }
            }
            &&& store_id.kind == StoreKind::Blueprint ==> {
                &&& front == back
                &&& front.len() == 1
                &&& front[0] == EffectView::ApplyBlueprintTimeCommands {
                    store_id,
                    time_commands: time_commands@,
                }
            }
        }),
{
}

/// A recording that is closed takes the connection with it that feeds it alone: a file, an HTTP
/// stream or a dataset. All other connections stay, as they do when a table is closed. The entry is
/// removed in any case.
pub proof fn closing_an_entry_stops_its_source(
    app: AppModel,
    entry: RecordingOrTable,
    facts: SystemFacts,
    rx: LogReceiver,
)
    ensures
        ({
            let cmd = SystemCommandOf::CloseRecordingOrTable(entry);
            let after = system_state(app, cmd, facts);
            let effects = system_effects(app, cmd, facts);
            let stops = entry is Recording && (facts.data_source matches Some(source) && (
            source is File || source is RrdHttpStream || source is RedapGrpcStream));
            &&& after.rx_log.contains(rx) <==> app.rx_log.contains(rx) && !(stops
                && types::same_source(rx.source, facts.data_source->0))
            &&& effects.last() == EffectView::RemoveEntry(entry)
            &&& effects.len() == if stops {
                2int
            } else {
                1
            }
            &&& stops ==> effects[0] == EffectView::DropReceivers
        }),
{
    if let (RecordingOrTable::Recording { .. }, Some(source)) = (entry, facts.data_source) {
        sources::only_one_source_is_dropped(app.rx_log, source, rx);
    }
}

/// Closing all entries takes the connections to files and HTTP streams, and no others.
pub proof fn closing_all_keeps_other_connections(
    app: AppModel,
    facts: SystemFacts,
    rx: LogReceiver,
)
    ensures
        ({
            let after = system_state(app, SystemCommandOf::CloseAllEntries, facts);
            let effects = system_effects(app, SystemCommandOf::CloseAllEntries, facts);
            &&& after.rx_log.contains(rx) <==> app.rx_log.contains(rx) && !(rx.source is File)
                && !(rx.source is RrdHttpStream)
            &&& effects == seq![EffectView::ClearEntries, EffectOf::DropReceivers]
        }),
{
    sources::closing_all_stops_files_and_http_streams(app.rx_log, rx);
}

/// The viewer shows what it is told to show, unless it shows that already. A loading screen is left
/// out if the dataset is there, even if only in part, and otherwise nothing is selected on it.
pub proof fn the_viewer_shows_what_it_is_told_to(
    app: AppModel,
    mode: DisplayMode,
    facts: SystemFacts,
)
    requires
        !types::same_mode(mode, app.state.navigation.current),
    ensures
        ({
            let cmd = SystemCommandOf::ChangeDisplayMode(mode);
            let after = system_state(app, cmd, facts);
            let effects = system_effects(app, cmd, facts);
            let is_there = mode matches DisplayMode::Loading(
                LogSource::RedapGrpcStream { uri, .. },
            ) && exists|i: int|
                0 <= i < facts.loaded_stores@.len() && types::same_store(
                    #[trigger] facts.loaded_stores@[i],
                    uri.store_id,
                );
            if is_there {
                after == app && effects.len() == 0
            } else {
                &&& after.state.navigation.current == mode
                &&& after.state.selection == if mode is Loading {
                    Seq::empty()
                } else {
                    app.state.selection
                }
                &&& after.rx_log == app.rx_log
                &&& effects == seq![EffectView::RequestRepaint]
            }
        }),
{
}

/// A server that is not known becomes known, and its panel is opened. It is shown if and only if no
/// recording or table is known to be active. The server of the examples is never added.
pub proof fn unknown_servers_are_added(app: AppModel, origin: String, facts: SystemFacts)
    ensures
        ({
            let cmd = SystemCommandOf::AddRedapServer(origin);
            let after = system_state(app, cmd, facts);
            let effects = system_effects(app, cmd, facts);
            let known = exists|i: int|
                0 <= i < app.state.redap_servers.len() && #[trigger] app.state.redap_servers[i]@
                    == origin@;
            if known || origin@ == app.defaults.examples_origin@ {
                after == app && effects.len() == 0
            } else {
                &&& after.state.redap_servers == app.state.redap_servers.push(origin)
                &&& after.state.navigation.current == if facts.has_active_entry == Some(true) {
                    app.state.navigation.current
                } else {
                    DisplayMode::RedapServer(origin)
                }
                &&& effects == seq![
                    EffectView::AddServer(origin),
                    EffectOf::SendUi(UICommand::ExpandBlueprintPanel),
                ]
            }
        }),
{
}

/// Data is opened if it neither was loaded nor is loading, and so are always the contents of a file.
/// It is not if one of these already has its source, apart from what the address points to.
pub proof fn data_is_opened_unless_it_is_there(
    app: AppModel,
    data_source: LogDataSource,
    facts: SystemFacts,
)
    ensures
        ({
            let cmd = SystemCommandOf::LoadDataSource(data_source);
            let effects = system_effects(app, cmd, facts);
            let opened = seq![EffectView::OpenStream(data_source)];
            match sources::source_of(data_source) {
                None => effects == opened,
                Some(source) => {
                    let there = (exists|i: int|
                        0 <= i < facts.store_sources@.len()
                            && types::same_source_ignoring_fragments(
                            #[trigger] facts.store_sources@[i],
                            source,
                        )) || (exists|i: int|
                        0 <= i < app.rx_log.len() && types::same_source_ignoring_fragments(
                            #[trigger] app.rx_log[i].source,
                            source,
                        ));
                    &&& !there ==> effects == opened
                    &&& there ==> !effects.contains(EffectView::OpenStream(data_source))
                },
            }
        }),
{
    let effects = system_effects(app, SystemCommandOf::LoadDataSource(data_source), facts);
    if sources::is_present(facts.store_sources@, app.rx_log, data_source) {
        assert forall|i: int| 0 <= i < effects.len() implies !(
        #[trigger] effects[i] is OpenStream) by {
            stores::present_data_is_not_loaded_again(data_source, facts.found_recording, i);
        }
    }
}

/// Adding to a blueprint, other than static data, means that nothing can be redone any more; an
/// inspector of it then follows. Nothing else takes away what can be redone.
pub proof fn edits_of_blueprints_end_redoing(
    app: AppModel,
    store_id: StoreId,
    chunks: Vec<Chunk>,
    facts: SystemFacts,
)
    ensures
        ({
            let cmd = SystemCommandOf::AppendToStore(store_id, chunks);
            let effects = system_effects(app, cmd, facts);
            let edits = store_id.kind == StoreKind::Blueprint && exists|i: int|
                0 <= i < chunks@.len() && !(#[trigger] chunks@[i]).is_static;
            let inspects = app.state.app_options.inspect_blueprint_timeline;
            &&& effects.len() == chunks@.len() + if edits && inspects {
                2int
            } else if edits {
                1
            } else {
                0
            }
            &&& edits ==> effects[0] == EffectView::ClearRedoBuffer(store_id)
            &&& edits && inspects ==> effects[1] == EffectView::SendSystem(
                SystemCommandOf::TimeControlCommands {
                    store_id,
                    time_commands: seq![TimeControlCommand::SetPlayState(PlayState::Following)],
                },
            )
            &&& !edits ==> forall|i: int| 0 <= i < effects.len() ==> #[trigger] effects[i] is AddChunk
        }),
{
}

/// Commands about the stores, the servers and the user are carried out on what they name, once.
pub proof fn commands_are_about_what_they_name(app: AppModel, cmd: SystemCommand, facts: SystemFacts)
    ensures
        ({
            let effects = system_effects(app, cmd, facts);
            match cmd {
                SystemCommandOf::ActivateApp(app_id) => effects == seq![
                    EffectView::SetActiveApp(app_id),
                ],
                SystemCommandOf::CloseApp(app_id) => effects == seq![EffectView::CloseApp(app_id)],
                SystemCommandOf::ActivateRecordingOrTable { entry, .. } => match entry {
                    RecordingOrTable::Recording { store_id } => effects == seq![
                        EffectView::SetActiveRecording(store_id),
                    ],
                    RecordingOrTable::Table { .. } => effects.len() == 0,
                },
                SystemCommandOf::UndoBlueprint { blueprint_id } => effects == seq![
                    EffectView::UndoBlueprint(blueprint_id),
                ],
                SystemCommandOf::RedoBlueprint { blueprint_id } => effects == seq![
                    EffectView::RedoBlueprint(blueprint_id),
                ],
                SystemCommandOf::DropEntity(store_id, path) => effects == seq![
                    EffectView::DropEntity(store_id, path),
                ],
                SystemCommandOf::ClearActiveBlueprint => effects == seq![
                    EffectView::ClearActiveBlueprint,
                    EffectOf::RequestRepaint,
                ],
                SystemCommandOf::ClearActiveBlueprintAndEnableHeuristics => effects == seq![
                    EffectView::ClearActiveBlueprintAndGenerate,
                    EffectOf::RequestRepaint,
                ],
                SystemCommandOf::EditRedapServerModal { origin, open_on_success, title } =>
                    effects.len() == 1 && effects[0] == EffectView::OpenEditServerModal {
                        origin,
                        open_on_success,
                        title: match title {
                            Some(title) => Some(title@),
                            None => None,
                        },
                    },
                SystemCommandOf::ShowNotification(n) => effects == seq![
                    EffectView::AddNotification(n),
                ],
                SystemCommandOf::FileSaver(n) => effects == seq![EffectView::SpawnFileSaver(n)],
                SystemCommandOf::SetAuthCredentials { access_token, email } => effects == seq![
                    EffectView::StoreCredentials { access_token, email },
                ],
                SystemCommandOf::Logout => effects == seq![
                    EffectView::ClearCredentials,
                    EffectOf::LogoutServers,
                ],
                SystemCommandOf::ResetDisplayMode => effects == seq![EffectView::RequestRepaint],
                SystemCommandOf::OpenSettings => effects.len() == if app.build_info.analytics {
                    1int
                } else {
                    0
                },
                SystemCommandOf::SetUrlFragment { store_id, fragment } => effects
                    == time::fragment_effects(store_id, fragment),
                SystemCommandOf::CopyViewerUrl(url) => match app.platform {
                    Platform::Native => effects.len() == 2 && effects[1] == EffectView::CopyText(
                        url@,
                    ),
                    Platform::Web => effects == seq![EffectView::CombineWithBaseUrl(url)],
                },
                SystemCommandOf::ResetViewer => {
                    &&& effects.len() == 4
                    &&& effects[0] == EffectView::ClearAllClonedBlueprints
                    &&& effects[1] == EffectView::ResetEguiMemory
                    &&& effects[2] == EffectView::ApplyStyle
                    &&& effects[3] == EffectView::ResetPersistence
                },
                SystemCommandOf::AddReceiver(rx) => {
                    &&& effects.last() == EffectView::AttachReceiver(rx.handle)
                    &&& effects[0] == EffectView::WakeOnMessage { handle: rx.handle, millis: 10 }
                    &&& match rx.source {
                        LogSource::RedapGrpcStream { uri, .. } => effects.len() == 3 && effects[1]
                            == EffectView::SendSystem(
                            SystemCommandOf::AddRedapServer(uri.origin),
                        ),
                        _ => effects.len() == 2,
                    }
                },
                SystemCommandOf::OpenChunkStoreBrowser
                | SystemCommandOf::EnableInspectBlueprintTimeline(_)
                | SystemCommandOf::SetFocus(_)
                | SystemCommandOf::OnAuthChanged(_) => effects.len() == 0,
                _ => true,
            }
        }),
{
}

/// What is done with an address that was put together.
pub open spec fn composed_effects(composed: Result<String, String>) -> Seq<EffectView> {
    match composed {
        Ok(url) => copy_effects(url@),
        Err(err) => seq![commands::reported(Severity::Error, err@)],
    }
}

/// What is shown of an application that got active.
pub open spec fn mode_of_active_app(home: DisplayMode, active_store_id: Option<StoreId>) -> DisplayMode {
    match active_store_id {
        Some(store_id) => DisplayMode::LocalRecordings(store_id),
        None => home,
    }
}

/// What follows from commands to a time control, which needs a blueprint.
pub open spec fn time_applied_effects(
    host_listens: bool,
    store_id: StoreId,
    response: Option<TimeControlResponse>,
) -> Seq<EffectView> {
    match response {
        Some(response) => time::response_effects(store_id, host_listens, response),
        None => seq![
            commands::reported(
                Severity::Error,
                "Skipping time control command because of missing blueprint"@,
            ),
        ],
    }
}

/// An address that could be put together is copied, and the user is told so; of one that could not be,
/// the user is told the reason, and nothing is copied.
pub proof fn composed_addresses_are_copied(composed: Result<String, String>)
    ensures
        composed matches Ok(url) ==> composed_effects(composed).len() == 2 && composed_effects(
            composed,
        )[1] == EffectView::CopyText(url@) && composed_effects(composed)[0] is NotifySuccess,
        composed matches Err(err) ==> composed_effects(composed) == seq![
            EffectView::Report { severity: Severity::Error, text: err@ },
        ],
{
}

/// An application that got active shows its active recording, and the home screen if it has none.
pub proof fn active_applications_are_shown(home: DisplayMode, store_id: StoreId)
    ensures
        mode_of_active_app(home, Some(store_id)) == DisplayMode::LocalRecordings(store_id),
        mode_of_active_app(home, None) == home,
{
}

/// Commands to a time control that cannot be run for want of a blueprint are never dropped in silence,
/// whether or not somebody listens.
pub proof fn skipped_time_commands_are_told(
    host_listens: bool,
    store_id: StoreId,
    response: TimeControlResponse,
)
    ensures
        time_applied_effects(host_listens, store_id, None) == seq![
            EffectView::Report {
                severity: Severity::Error,
                text: "Skipping time control command because of missing blueprint"@,
            },
        ],
        time_applied_effects(host_listens, store_id, Some(response)) == time::response_effects(
            store_id,
            host_listens,
            response,
        ),
{
}

} // verus!
