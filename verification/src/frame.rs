//! What happens in a frame of the window, and in what order.
use crate::app::App;
use crate::app::AppModel;
use crate::app::AppOptions;
use crate::app::StartupOptions;
use crate::app::StateModel;
use crate::commands;
use crate::commands::Effect;
use crate::commands::EffectOf;
use crate::commands::EffectView;
use crate::commands::UICommand;
use crate::system;
use crate::text;
use crate::time;
use crate::types;
use crate::types::DisplayMode;
use crate::types::Item;
use crate::types::ItemCollection;
use crate::types::LogSource;
use crate::types::Platform;
use crate::types::RecordingOrTable;
use crate::types::StoreId;
use vstd::prelude::*;

verus! {

/// A step of a frame.
#[derive(Clone, Copy, Debug, PartialEq, Eq, Structural)]
pub enum FrameStep {
    /// Go back or forward in the browser's history.
    GoBack,
    GoForward,
    MoveTime,
    /// Put the data sources in the order in which they were opened.
    OrderDataSources,
    /// The bits of two `f32`.
    SetWindowSize(u32, u32),
    /// Let the screenshotter go on; it may want to quit.
    UpdateScreenshotter,
    CloseWindow,
    /// Warn if too much memory is used.
    UpdateRamWarner,
    /// See whether the user has picked files in the browser.
    PollFiles,
    /// Tell the memory panel what is used, with or without the stores.
    UpdateMemoryPanel { with_stores: bool },
    CheckShortcuts,
    PurgeMemory,
    BeginFrameCaches,
    ReceiveMessages,
    /// Finish the frame, with the options that are set by then.
    FinishFrame,
    CollectBlueprints,
    PurgeEmptyStores,
    CleanUpState,
    ShowFileSaverProgress,
    ShowVideoProgress,
    EnsureActiveApp,
    Show,
    PaintWindowFrame,
    ShowCommandPalette,
    HandleDroppedFiles,
    RunUiCommands,
    RunSystemCommands,
    UpdateHistory,
    ProcessScreenshots,
}

/// The step if the condition holds.
pub open spec fn step_if(condition: bool, step: FrameStep) -> Seq<FrameStep> {
    if condition {
        seq![step]
    } else {
        Seq::empty()
    }
}

fn push_if(steps: &mut Vec<FrameStep>, condition: bool, step: FrameStep)
    ensures
        final(steps)@ == old(steps)@ + step_if(condition, step),
{
    let ghost before = steps@;
    if condition {
        steps.push(step);
    }
    assert(steps@ =~= before + step_if(condition, step));
}

/// The first steps of a frame. Time moves before all else, so that the latest data is shown when
/// it is followed.
pub open spec fn first_steps(app: AppModel, back_pressed: bool, forward_pressed: bool) -> Seq<
    FrameStep,
> {
    let web = app.platform == Platform::Web;
    let native = app.platform == Platform::Native;
    let history = web && app.startup_options.enable_history;
    let size = match app.startup_options.resolution_in_points {
        Some((x, y)) => step_if(native, FrameStep::SetWindowSize(x, y)),
        None => Seq::empty(),
    };
    step_if(history && back_pressed, FrameStep::GoBack) + step_if(
        history && forward_pressed,
        FrameStep::GoForward,
    ) + seq![FrameStep::MoveTime, FrameStep::OrderDataSources] + size + step_if(
        native,
        FrameStep::UpdateScreenshotter,
    )
}

/// The startup options after the first steps of a frame: the window is sized only once.
pub open spec fn options_after_first_steps(app: AppModel) -> StartupOptions {
    if app.platform == Platform::Native {
        StartupOptions { resolution_in_points: None, ..app.startup_options }
    } else {
        app.startup_options
    }
}

/// The steps before messages are received. Caches begin a frame only once, even if it is shown in
/// several passes.
pub open spec fn steps_before_messages(app: AppModel, is_new_frame: bool) -> Seq<FrameStep> {
    step_if(app.startup_options.memory_limit is None, FrameStep::UpdateRamWarner) + step_if(
        app.platform == Platform::Web && app.open_files is Some,
        FrameStep::PollFiles,
    ) + seq![
        FrameStep::UpdateMemoryPanel { with_stores: app.memory_panel_open },
        FrameStep::CheckShortcuts,
        FrameStep::PurgeMemory,
    ] + step_if(is_new_frame, FrameStep::BeginFrameCaches)
}

/// The steps after messages were received.
pub open spec fn steps_after_messages(app: AppModel) -> Seq<FrameStep> {
    step_if(app.state.app_options.blueprint_gc, FrameStep::CollectBlueprints) + seq![
        FrameStep::PurgeEmptyStores,
        FrameStep::CleanUpState,
        FrameStep::ShowFileSaverProgress,
    ] + step_if(app.platform == Platform::Native, FrameStep::ShowVideoProgress) + seq![
        FrameStep::EnsureActiveApp,
    ]
}

/// The steps after a frame was shown.
pub open spec fn closing_steps(custom_decorations: bool) -> Seq<FrameStep> {
    step_if(custom_decorations, FrameStep::PaintWindowFrame) + seq![
        FrameStep::ShowCommandPalette,
        FrameStep::HandleDroppedFiles,
        FrameStep::RunUiCommands,
        FrameStep::RunSystemCommands,
        FrameStep::UpdateHistory,
        FrameStep::ProcessScreenshots,
    ]
}

/// The steps of a frame after its first ones and up to where messages are received: none if the
/// screenshotter wants to quit.
pub open spec fn later_steps(app: AppModel, quits: bool, is_new_frame: bool) -> Seq<FrameStep> {
    if quits && app.platform == Platform::Native {
        seq![FrameStep::CloseWindow]
    } else {
        steps_before_messages(app, is_new_frame) + seq![
            FrameStep::ReceiveMessages,
            FrameStep::FinishFrame,
        ]
    }
}

/// The last steps of a frame. What messages have made of the options counts.
pub open spec fn last_steps(app: AppModel, custom_decorations: bool) -> Seq<FrameStep> {
    steps_after_messages(app) + seq![FrameStep::Show] + closing_steps(custom_decorations)
}

impl App {
    /// Begins a frame: the steps up to and with the screenshotter.
    pub fn begin_frame(&mut self, back_pressed: bool, forward_pressed: bool) -> (res: Vec<
        FrameStep,
    >)
        requires
            old(self).wf(),
        ensures
            final(self).wf(),
            final(self)@ == (AppModel {
                startup_options: options_after_first_steps(old(self)@),
                ..old(self)@
            }),
            res@ == first_steps(old(self)@, back_pressed, forward_pressed),
    {
        let ghost app = self@;
        let web = self.platform == Platform::Web;
        let native = self.platform == Platform::Native;
        let history = web && self.startup_options.enable_history;
        let mut steps: Vec<FrameStep> = Vec::new();
        push_if(&mut steps, history && back_pressed, FrameStep::GoBack);
        push_if(&mut steps, history && forward_pressed, FrameStep::GoForward);
        steps.push(FrameStep::MoveTime);
        steps.push(FrameStep::OrderDataSources);
        if native {
            if let Some((x, y)) = self.startup_options.resolution_in_points.take() {
                steps.push(FrameStep::SetWindowSize(x, y));
            }
        }
        push_if(&mut steps, native, FrameStep::UpdateScreenshotter);
        assert(steps@ =~= first_steps(app, back_pressed, forward_pressed));
        steps
    }

    fn push_steps_before_messages(&self, steps: &mut Vec<FrameStep>, is_new_frame: bool)
        ensures
            final(steps)@ == old(steps)@ + steps_before_messages(self@, is_new_frame),
    {
        let ghost before = steps@;
        push_if(steps, self.startup_options.memory_limit.is_none(), FrameStep::UpdateRamWarner);
        push_if(
            steps,
            self.platform == Platform::Web && self.open_files.is_some(),
            FrameStep::PollFiles,
        );
        steps.push(FrameStep::UpdateMemoryPanel { with_stores: self.memory_panel_open });
        steps.push(FrameStep::CheckShortcuts);
        steps.push(FrameStep::PurgeMemory);
        push_if(steps, is_new_frame, FrameStep::BeginFrameCaches);
        assert(steps@ =~= before + steps_before_messages(self@, is_new_frame));
    }

    fn push_steps_after_messages(&self, steps: &mut Vec<FrameStep>)
        ensures
            final(steps)@ == old(steps)@ + steps_after_messages(self@),
    {
        let ghost before = steps@;
        push_if(steps, self.state.app_options.blueprint_gc, FrameStep::CollectBlueprints);
        steps.push(FrameStep::PurgeEmptyStores);
        steps.push(FrameStep::CleanUpState);
        steps.push(FrameStep::ShowFileSaverProgress);
        push_if(steps, self.platform == Platform::Native, FrameStep::ShowVideoProgress);
        steps.push(FrameStep::EnsureActiveApp);
        assert(steps@ =~= before + steps_after_messages(self@));
    }

    /// Goes on with a frame after the screenshotter: closes the window if it wants to quit, and
    /// otherwise takes in what came, and finishes the frame.
    pub fn update(&self, quits: bool, is_new_frame: bool) -> (res: Vec<FrameStep>)
        ensures
            res@ == later_steps(self@, quits, is_new_frame),
    {
        let mut steps: Vec<FrameStep> = Vec::new();
        if quits && self.platform == Platform::Native {
            steps.push(FrameStep::CloseWindow);
            assert(steps@ =~= later_steps(self@, quits, is_new_frame));
            return steps;
        }
        self.push_steps_before_messages(&mut steps, is_new_frame);
        steps.push(FrameStep::ReceiveMessages);
        steps.push(FrameStep::FinishFrame);
        assert(steps@ =~= later_steps(self@, quits, is_new_frame));
        steps
    }

    /// Finishes a frame after messages were received: shows the viewer, and runs what the user
    /// commands.
    pub fn finish_frame(&self, custom_decorations: bool) -> (res: Vec<FrameStep>)
        ensures
            res@ == last_steps(self@, custom_decorations),
    {
        let mut steps: Vec<FrameStep> = Vec::new();
        self.push_steps_after_messages(&mut steps);
        steps.push(FrameStep::Show);
        push_if(&mut steps, custom_decorations, FrameStep::PaintWindowFrame);
        steps.push(FrameStep::ShowCommandPalette);
        steps.push(FrameStep::HandleDroppedFiles);
        steps.push(FrameStep::RunUiCommands);
        steps.push(FrameStep::RunSystemCommands);
        steps.push(FrameStep::UpdateHistory);
        steps.push(FrameStep::ProcessScreenshots);
        assert(steps@ =~= last_steps(self@, custom_decorations));
        steps
    }
}

/// The window gets the size that was asked for in the first frame, and keeps what the user makes
/// of it in all others.
pub proof fn the_window_is_sized_once(app: AppModel, back: bool, forward: bool, i: int)
    requires
        app.platform == Platform::Native,
        0 <= i < first_steps(
            AppModel { startup_options: options_after_first_steps(app), ..app },
            back,
            forward,
        ).len(),
    ensures
        !(first_steps(
            AppModel { startup_options: options_after_first_steps(app), ..app },
            back,
            forward,
        )[i] is SetWindowSize),
{
}

/// All steps of a frame after its first ones. Receiving messages turns the viewer from `app` into
/// `received`.
pub open spec fn whole_frame(
    app: AppModel,
    received: AppModel,
    is_new_frame: bool,
    custom_decorations: bool,
) -> Seq<FrameStep> {
    later_steps(app, false, is_new_frame).drop_last() + last_steps(received, custom_decorations)
}

/// What came in is shown in the same frame: messages are received before the viewer is shown. What
/// the user then commands is run before the frame ends, and what follows from it, too. Blueprints
/// are collected if that is wanted once the messages are there.
pub proof fn a_frame_shows_what_came_in(
    app: AppModel,
    received: AppModel,
    is_new_frame: bool,
    custom_decorations: bool,
)
    ensures
        ({
            let steps = whole_frame(app, received, is_new_frame, custom_decorations);
            let at = steps_before_messages(app, is_new_frame).len() as int;
            let shown = at + 1 + steps_after_messages(received).len();
            let n = steps.len() as int;
            &&& later_steps(app, false, is_new_frame).last() == FrameStep::FinishFrame
            &&& steps[at] == FrameStep::ReceiveMessages
            &&& steps[shown] == FrameStep::Show
            &&& steps[n - 4] == FrameStep::RunUiCommands
            &&& steps[n - 3] == FrameStep::RunSystemCommands
            &&& at < shown < n - 4
            &&& (steps[at + 1] == FrameStep::CollectBlueprints
                <==> received.state.app_options.blueprint_gc)
        }),
{
}

/// The application is the first one in order, apart from the welcome screen's.
pub open spec fn is_first_app(app_ids: Seq<String>, welcome: Seq<char>, app_id: String) -> bool {
    &&& app_ids.contains(app_id)
    &&& app_id@ != welcome
    &&& forall|k: int|
        0 <= k < app_ids.len() && (#[trigger] app_ids[k])@ != welcome ==> !text::text_before(
            app_ids[k]@,
            app_id@,
        )
}

/// There is no application but the welcome screen's.
pub open spec fn only_welcome(app_ids: Seq<String>, welcome: Seq<char>) -> bool {
    forall|k: int| 0 <= k < app_ids.len() ==> (#[trigger] app_ids[k])@ == welcome
}

fn first_app(app_ids: &Vec<String>, welcome: &String) -> (res: Option<String>)
    ensures
        match res {
            Some(app_id) => is_first_app(app_ids@, welcome@, app_id),
            None => only_welcome(app_ids@, welcome@),
        },
{
    let mut best: Option<usize> = None;
    let mut i: usize = 0;
    while i < app_ids.len()
        invariant
            i <= app_ids@.len(),
            match best {
                Some(b) => {
                    &&& b < i
                    &&& app_ids@[b as int]@ != welcome@
                    &&& forall|k: int|
                        0 <= k < i && (#[trigger] app_ids@[k])@ != welcome@ ==> !text::text_before(
                            app_ids@[k]@,
                            app_ids@[b as int]@,
                        )
                },
                None => forall|k: int| 0 <= k < i ==> (#[trigger] app_ids@[k])@ == welcome@,
            },
        decreases app_ids@.len() - i,
    {
        if app_ids[i] != *welcome {
            let ghost new = app_ids@[i as int]@;
            match best {
                Some(b) => {
                    let ghost held = app_ids@[b as int]@;
                    if text::comes_before(app_ids[i].as_str(), app_ids[b].as_str()) {
                        proof {
                            text::text_before_is_irreflexive(new);
                            assert forall|k: int|
                                0 <= k < i + 1 && (#[trigger] app_ids@[k])@
                                    != welcome@ implies !text::text_before(
                                app_ids@[k]@,
                                new,
                            ) by {
                                if k < i && text::text_before(app_ids@[k]@, new) {
                                    text::text_before_is_transitive(app_ids@[k]@, new, held);
                                }
                            }
                        }
                        best = Some(i);
                    }
                },
                None => {
                    proof {
                        text::text_before_is_irreflexive(new);
                    }
                    best = Some(i);
                },
            }
        }
        i = i + 1;
    }
    match best {
        Some(b) => {
            let app_id = app_ids[b].clone();
            assert(app_ids@.contains(app_ids@[b as int]));
            Some(app_id)
        },
        None => None,
    }
}

/// Which application is activated does not depend on the order in which the stores are walked.
pub proof fn the_first_app_is_unique(
    app_ids: Seq<String>,
    other_ids: Seq<String>,
    welcome: Seq<char>,
    first: String,
    other: String,
)
    requires
        is_first_app(app_ids, welcome, first),
        is_first_app(other_ids, welcome, other),
        app_ids.contains(other),
        other_ids.contains(first),
    ensures
        first@ == other@,
{
    let i = choose|i: int| 0 <= i < app_ids.len() && app_ids[i] == other;
    let k = choose|k: int| 0 <= k < other_ids.len() && other_ids[k] == first;
    assert(!text::text_before(app_ids[i]@, first@));
    assert(!text::text_before(other_ids[k]@, other@));
    if first@ != other@ {
        text::text_before_is_total(first@, other@);
    }
}

impl App {
    /// Makes sure that some application is active: the first one, or else the welcome screen's. A
    /// loading screen whose source is gone is left.
    pub fn ensure_active_app(&mut self, has_active_app: bool, app_ids: &Vec<String>) -> (res: Vec<
        Effect,
    >)
        requires
            old(self).wf(),
        ensures
            final(self).wf(),
            gets_active_app(
                old(self)@,
                has_active_app,
                app_ids@,
                final(self)@,
                commands::viewed(res@),
            ),
    {
        if let DisplayMode::Loading(source) = &self.state.navigation.current {
            if !time::is_listening(&self.rx_log, source) {
                self.state.navigation.reset();
            }
            return commands::nothing();
        }
        if has_active_app {
            return commands::nothing();
        }
        match first_app(app_ids, &self.defaults.welcome_screen_app_id) {
            Some(app_id) => {
                assert(!only_welcome(app_ids@, self.defaults.welcome_screen_app_id@));
                let mut effects: Vec<Effect> = Vec::new();
                effects.push(EffectOf::SetActiveApp(app_id));
                effects
            },
            None => {
                self.state.navigation.reset();
                commands::just(
                    EffectOf::SetActiveApp(self.defaults.welcome_screen_app_id.clone()),
                )
            },
        }
    }

    /// Selects the entry that became active together with an application, so that the user sees
    /// which one it is.
    pub fn on_first_app_activated(&mut self, active_entry: Option<RecordingOrTable>)
        requires
            old(self).wf(),
        ensures
            final(self).wf(),
            final(self)@ == with_entry_selected(old(self)@, active_entry),
    {
        match active_entry {
            Some(RecordingOrTable::Recording { store_id }) => {
                self.state.selection = ItemCollection::One(Item::StoreId(store_id));
            },
            Some(RecordingOrTable::Table { table_id }) => {
                self.state.selection = ItemCollection::One(Item::TableId(table_id));
            },
            None => {},
        }
    }
}

/// A step of showing the viewer.
#[derive(Clone, Copy, Debug, PartialEq, Eq, Structural)]
pub enum UiStep {
    /// Export a video off screen.
    RunOffscreenExport,
    BeginRenderFrame,
    /// Let the servers know that a frame begins.
    UpdateServers,
    /// Take in the captures of a video export.
    CollectCaptures,
    /// Ask for the captures of a video export.
    RequestCaptures,
    ShowState,
    Submit,
    ShowTextLogs,
    ShowToasts,
}

/// The steps of showing the viewer, but for the toasts.
pub open spec fn ui_steps(
    app: AppModel,
    has_context: bool,
    has_renderer: bool,
    is_new_frame: bool,
) -> Seq<UiStep> {
    let native = app.platform == Platform::Native;
    let offscreen = if native && has_context && app.export is Some {
        seq![UiStep::RunOffscreenExport]
    } else {
        Seq::<UiStep>::empty()
    };
    let frame_start = if !is_new_frame {
        Seq::<UiStep>::empty()
    } else if native {
        seq![UiStep::UpdateServers, UiStep::CollectCaptures, UiStep::RequestCaptures]
    } else {
        seq![UiStep::UpdateServers]
    };
    let state = if has_context {
        seq![UiStep::BeginRenderFrame] + frame_start + seq![UiStep::ShowState, UiStep::Submit]
    } else {
        Seq::<UiStep>::empty()
    };
    let rendered = if has_renderer {
        state + seq![UiStep::ShowTextLogs]
    } else {
        Seq::<UiStep>::empty()
    };
    offscreen + rendered
}

/// The last steps of showing the viewer.
pub open spec fn last_ui_steps(app: AppModel) -> Seq<UiStep> {
    if app.state.app_options.show_notification_toasts {
        seq![UiStep::ShowToasts]
    } else {
        Seq::empty()
    }
}

/// Toasts that the user switches on or off appear or vanish in the same frame.
pub proof fn toasts_follow_the_settings(
    app: AppModel,
    startup_options: StartupOptions,
    app_options: AppOptions,
)
    ensures
        last_ui_steps(
            AppModel { startup_options, state: StateModel { app_options, ..app.state }, ..app },
        ).contains(UiStep::ShowToasts) <==> app_options.show_notification_toasts,
{
    let shown = AppModel {
        startup_options,
        state: StateModel { app_options, ..app.state },
        ..app
    };
    if app_options.show_notification_toasts {
        assert(last_ui_steps(shown)[0] == UiStep::ShowToasts);
    }
}

impl App {
    /// The steps of showing the viewer, but for the toasts. Those at the start of a frame are left
    /// out in the second pass of the same frame.
    pub fn ui(&self, has_context: bool, has_renderer: bool, is_new_frame: bool) -> (res: Vec<UiStep>)
        ensures
            res@ == ui_steps(self@, has_context, has_renderer, is_new_frame),
    {
        let native = self.platform == Platform::Native;
        let mut steps: Vec<UiStep> = Vec::new();
        if native && has_context && self.video.cropped_video_export.is_some() {
            steps.push(UiStep::RunOffscreenExport);
        }
        if has_renderer {
            if has_context {
                steps.push(UiStep::BeginRenderFrame);
                if is_new_frame {
                    steps.push(UiStep::UpdateServers);
                    if native {
                        steps.push(UiStep::CollectCaptures);
                        steps.push(UiStep::RequestCaptures);
                    }
                }
                steps.push(UiStep::ShowState);
                steps.push(UiStep::Submit);
            }
            steps.push(UiStep::ShowTextLogs);
        }
        assert(steps@ =~= ui_steps(self@, has_context, has_renderer, is_new_frame));
        steps
    }

    /// Takes over the options as they are after the user could change them.
    pub fn on_state_shown(&mut self, startup_options: StartupOptions, app_options: AppOptions)
        requires
            old(self).wf(),
        ensures
            final(self).wf(),
            final(self)@ == (AppModel {
                startup_options,
                state: StateModel { app_options, ..old(self)@.state },
                ..old(self)@
            }),
    {
        self.startup_options = startup_options;
        self.state.app_options = app_options;
    }

    /// What is shown on top of all else, with the options that are set by then.
    pub fn finish_ui(&self) -> (res: Vec<UiStep>)
        ensures
            res@ == last_ui_steps(self@),
    {
        let mut steps: Vec<UiStep> = Vec::new();
        if self.state.app_options.show_notification_toasts {
            steps.push(UiStep::ShowToasts);
        }
        assert(steps@ =~= last_ui_steps(self@));
        steps
    }
}

/// The commands whose keys would otherwise move the focus.
pub open spec fn conflicting() -> Seq<UICommand> {
    seq![
        UICommand::PlaybackTogglePlayPause,
        UICommand::PlaybackBeginning,
        UICommand::PlaybackEnd,
        UICommand::PlaybackForwardFast,
        UICommand::PlaybackBackFast,
        UICommand::PlaybackStepForward,
        UICommand::PlaybackStepBack,
        UICommand::PlaybackForward,
        UICommand::PlaybackBack,
    ]
}

/// The commands whose keys are taken before anything else gets them, unless text is edited.
pub fn conflicting_commands(text_is_edited: bool) -> (res: Vec<UICommand>)
    ensures
        res@ == taken_commands(text_is_edited),
{
    let mut commands: Vec<UICommand> = Vec::new();
    if text_is_edited {
        return commands;
    }
    commands.push(UICommand::PlaybackTogglePlayPause);
    commands.push(UICommand::PlaybackBeginning);
    commands.push(UICommand::PlaybackEnd);
    commands.push(UICommand::PlaybackForwardFast);
    commands.push(UICommand::PlaybackBackFast);
    commands.push(UICommand::PlaybackStepForward);
    commands.push(UICommand::PlaybackStepBack);
    commands.push(UICommand::PlaybackForward);
    commands.push(UICommand::PlaybackBack);
    assert(commands@ =~= conflicting());
    commands
}

/// A key that was taken for a command.
#[derive(Clone, Copy, Debug, PartialEq, Eq, Structural)]
pub struct TakenKey {
    pub command: UICommand,
    /// Whether it is the arrow to the left or to the right.
    pub is_sideways: bool,
}

/// Some of the keys would have moved the focus sideways.
pub open spec fn any_sideways(keys: Seq<TakenKey>) -> bool {
    exists|i: int| 0 <= i < keys.len() && (#[trigger] keys[i]).is_sideways
}

/// Queues the commands whose keys were taken, in order. The second part of the result says whether
/// the focus has to be kept from moving.
pub fn on_keys_taken(keys: &Vec<TakenKey>) -> (res: (Vec<Effect>, bool))
    ensures
        commands::viewed(res.0@) == keys@.map_values(
            |key: TakenKey| EffectView::SendUi(key.command),
        ),
        res.1 == any_sideways(keys@),
{
    let mut effects = commands::nothing();
    let mut sideways = false;
    let ghost wanted = keys@.map_values(|key: TakenKey| EffectView::SendUi(key.command));
    let mut i: usize = 0;
    while i < keys.len()
        invariant
            i <= keys@.len(),
            wanted == keys@.map_values(|key: TakenKey| EffectView::SendUi(key.command)),
            commands::viewed(effects@) == wanted.take(i as int),
            sideways <==> exists|k: int| 0 <= k < i && (#[trigger] keys@[k]).is_sideways,
        decreases keys@.len() - i,
    {
        let key = keys[i];
        if key.is_sideways {
            assert(keys@[i as int].is_sideways);
            sideways = true;
        }
        commands::put(&mut effects, EffectOf::SendUi(key.command));
        assert(commands::viewed(effects@) =~= wanted.take(i + 1));
        i = i + 1;
    }
    assert(commands::viewed(effects@) =~= wanted);
    (effects, sideways)
}

/// The color of the window behind everything.
#[derive(Clone, Copy, Debug, PartialEq, Eq, Structural)]
pub enum ClearColor {
    Transparent,
    Black,
    White,
}

/// The color of the window behind everything: none if the window draws its own frame.
pub fn clear_color(custom_decorations: bool, dark_mode: bool) -> (res: ClearColor)
    ensures
        res == background(custom_decorations, dark_mode),
{
    if custom_decorations {
        ClearColor::Transparent
    } else if dark_mode {
        ClearColor::Black
    } else {
        ClearColor::White
    }
}

/// A frame begins with what the user wants of the browser's history, then lets time go on, and only
/// then puts the data sources in order. The window is sized, and the screenshotter goes on, on native
/// alone.
pub proof fn frames_begin_with_time(
    app: AppModel,
    back_pressed: bool,
    forward_pressed: bool,
    x: u32,
    y: u32,
)
    ensures
        ({
            let steps = first_steps(app, back_pressed, forward_pressed);
            let history = app.platform == Platform::Web && app.startup_options.enable_history;
            let n = (if history && back_pressed {
                1int
            } else {
                0
            }) + (if history && forward_pressed {
                1int
            } else {
                0
            });
            &&& steps[n] == FrameStep::MoveTime
            &&& steps[n + 1] == FrameStep::OrderDataSources
            &&& steps.contains(FrameStep::GoBack) <==> history && back_pressed
            &&& steps.contains(FrameStep::GoForward) <==> history && forward_pressed
            &&& steps.contains(FrameStep::SetWindowSize(x, y)) <==> app.platform
                == Platform::Native && app.startup_options.resolution_in_points == Some((x, y))
            &&& steps.contains(FrameStep::UpdateScreenshotter) <==> app.platform
                == Platform::Native
        }),
{
    broadcast use {
        vstd::seq_lib::lemma_seq_concat_contains_all_elements,
        vstd::seq_lib::lemma_seq_contains_after_push,
        vstd::seq_lib::lemma_seq_empty_contains_nothing,
    };

}

/// Before messages are received, shortcuts are checked and memory is freed, always. The user is
/// warned of memory only where there is no limit, files are looked for only where the user was asked
/// for them in a browser, and caches begin only once in a frame. A window that is to close does
/// nothing of that.
pub proof fn frames_make_room_before_messages(app: AppModel, quits: bool, is_new_frame: bool)
    ensures
        ({
            let steps = later_steps(app, quits, is_new_frame);
            let closes = quits && app.platform == Platform::Native;
            &&& closes ==> steps == seq![FrameStep::CloseWindow]
            &&& !closes ==> {
                &&& !steps.contains(FrameStep::CloseWindow)
                &&& steps.contains(FrameStep::UpdateRamWarner)
                    <==> app.startup_options.memory_limit is None
                &&& steps.contains(FrameStep::PollFiles) <==> app.platform == Platform::Web
                    && app.open_files is Some
                &&& steps.contains(
                    FrameStep::UpdateMemoryPanel { with_stores: app.memory_panel_open },
                )
                &&& steps.contains(FrameStep::CheckShortcuts)
                &&& steps.contains(FrameStep::PurgeMemory)
                &&& steps.contains(FrameStep::BeginFrameCaches) <==> is_new_frame
                &&& steps.last() == FrameStep::FinishFrame
                &&& steps[steps.len() - 2] == FrameStep::ReceiveMessages
            }
        }),
{
    broadcast use {
        vstd::seq_lib::lemma_seq_concat_contains_all_elements,
        vstd::seq_lib::lemma_seq_contains_after_push,
        vstd::seq_lib::lemma_seq_empty_contains_nothing,
    };

}

/// A frame ends with all its last steps, in order: what is there is cleaned up, the viewer is shown,
/// and then what the user wants is done. Only the collection of blueprints, the progress of a video
/// and the frame of the window depend on anything.
pub proof fn frames_end_with_what_the_user_wants(app: AppModel, custom_decorations: bool)
    ensures
        ({
            let steps = last_steps(app, custom_decorations);
            let a = if app.state.app_options.blueprint_gc {
                1int
            } else {
                0
            };
            let b = a + 3 + if app.platform == Platform::Native {
                1int
            } else {
                0
            };
            let c = b + 2 + if custom_decorations {
                1int
            } else {
                0
            };
            &&& steps.len() == c + 6
            &&& a == 1 ==> steps[0] == FrameStep::CollectBlueprints
            &&& steps[a] == FrameStep::PurgeEmptyStores
            &&& steps[a + 1] == FrameStep::CleanUpState
            &&& steps[a + 2] == FrameStep::ShowFileSaverProgress
            &&& app.platform == Platform::Native ==> steps[a + 3] == FrameStep::ShowVideoProgress
            &&& steps[b] == FrameStep::EnsureActiveApp
            &&& steps[b + 1] == FrameStep::Show
            &&& custom_decorations ==> steps[b + 2] == FrameStep::PaintWindowFrame
            &&& steps[c] == FrameStep::ShowCommandPalette
            &&& steps[c + 1] == FrameStep::HandleDroppedFiles
            &&& steps[c + 2] == FrameStep::RunUiCommands
            &&& steps[c + 3] == FrameStep::RunSystemCommands
            &&& steps[c + 4] == FrameStep::UpdateHistory
            &&& steps[c + 5] == FrameStep::ProcessScreenshots
        }),
{
}

/// The state is shown if and only if there is something to show and something to show it with, on
/// every platform and in every pass. Captures are taken in and asked for only once in a frame, and
/// only on native, before the state is shown. A video is exported off screen while there is one.
pub proof fn the_state_is_shown_in_every_pass(
    app: AppModel,
    has_context: bool,
    has_renderer: bool,
    is_new_frame: bool,
)
    ensures
        ({
            let steps = ui_steps(app, has_context, has_renderer, is_new_frame);
            let native = app.platform == Platform::Native;
            let shown = has_context && has_renderer;
            &&& steps.contains(UiStep::ShowState) <==> shown
            &&& steps.contains(UiStep::BeginRenderFrame) <==> shown
            &&& steps.contains(UiStep::Submit) <==> shown
            &&& steps.contains(UiStep::UpdateServers) <==> shown && is_new_frame
            &&& steps.contains(UiStep::CollectCaptures) <==> shown && is_new_frame && native
            &&& steps.contains(UiStep::RequestCaptures) <==> shown && is_new_frame && native
            &&& steps.contains(UiStep::ShowTextLogs) <==> has_renderer
            &&& steps.contains(UiStep::RunOffscreenExport) <==> native && has_context
                && app.export is Some
            &&& !steps.contains(UiStep::ShowToasts)
            &&& has_renderer ==> steps.last() == UiStep::ShowTextLogs
            &&& shown ==> steps[steps.len() - 3] == UiStep::ShowState && steps[steps.len() - 2]
                == UiStep::Submit
        }),
{
    broadcast use {
        vstd::seq_lib::lemma_seq_concat_contains_all_elements,
        vstd::seq_lib::lemma_seq_contains_after_push,
        vstd::seq_lib::lemma_seq_empty_contains_nothing,
    };

}

/// What is shown, and which application gets active, when a frame begins: what is loaded stays as long as
/// it is listened to, and an active application stays active.
pub open spec fn gets_active_app(
    app: AppModel,
    has_active_app: bool,
    app_ids: Seq<String>,
    after: AppModel,
    effects: Seq<EffectView>,
) -> bool {
    let welcome = app.defaults.welcome_screen_app_id;
    let at_home = system::showing(app, app.state.navigation.home);
    match app.state.navigation.current {
        DisplayMode::Loading(source) => {
            &&& effects == Seq::<EffectView>::empty()
            &&& after == if time::listens_to(app.rx_log, source) {
                app
            } else {
                at_home
            }
        },
        _ => if has_active_app {
            effects == Seq::<EffectView>::empty() && after == app
        } else if only_welcome(app_ids, welcome@) {
            effects == seq![EffectView::SetActiveApp(welcome)] && after == at_home
        } else {
            &&& after == app
            &&& effects.len() == 1
            &&& effects[0] matches EffectOf::SetActiveApp(app_id)
            &&& is_first_app(app_ids, welcome@, app_id)
        },
    }
}

/// The active recording or table is the only thing that is selected.
pub open spec fn with_entry_selected(app: AppModel, active_entry: Option<RecordingOrTable>) -> AppModel {
    match active_entry {
        Some(entry) => AppModel {
            state: StateModel {
                selection: seq![
                    match entry {
                        RecordingOrTable::Recording { store_id } => Item::StoreId(store_id),
                        RecordingOrTable::Table { table_id } => Item::TableId(table_id),
                    },
                ],
                ..app.state
            },
            ..app
        },
        None => app,
    }
}

/// What is behind the window's contents.
pub open spec fn background(custom_decorations: bool, dark_mode: bool) -> ClearColor {
    if custom_decorations {
        ClearColor::Transparent
    } else if dark_mode {
        ClearColor::Black
    } else {
        ClearColor::White
    }
}

/// The commands whose keys are taken: none while text is edited.
pub open spec fn taken_commands(text_is_edited: bool) -> Seq<UICommand> {
    if text_is_edited {
        Seq::<UICommand>::empty()
    } else {
        conflicting()
    }
}

/// There is always an active application. Without one, the first application that is not the welcome
/// screen's becomes active, and the welcome screen's only if there is no other. An active one is never
/// replaced.
pub proof fn some_application_is_active(
    app: AppModel,
    has_active_app: bool,
    app_ids: Seq<String>,
    after: AppModel,
    effects: Seq<EffectView>,
)
    requires
        gets_active_app(app, has_active_app, app_ids, after, effects),
        !(app.state.navigation.current is Loading),
    ensures
        has_active_app ==> effects.len() == 0 && after == app,
        !has_active_app ==> effects.len() == 1 && effects[0] is SetActiveApp,
        !has_active_app && (exists|i: int|
            0 <= i < app_ids.len() && (#[trigger] app_ids[i])@
                != app.defaults.welcome_screen_app_id@) ==> after == app && (
        effects[0] matches EffectOf::SetActiveApp(app_id) && app_id@
            != app.defaults.welcome_screen_app_id@ && exists|i: int|
            0 <= i < app_ids.len() && (#[trigger] app_ids[i])@ == app_id@ && forall|k: int|
            0 <= k < app_ids.len() && (#[trigger] app_ids[k])@
                != app.defaults.welcome_screen_app_id@ ==> !text::text_before(
                app_ids[k]@,
                app_id@,
            )),
        !has_active_app && (forall|i: int|
            0 <= i < app_ids.len() ==> (#[trigger] app_ids[i])@
                == app.defaults.welcome_screen_app_id@) ==> effects[0] == EffectView::SetActiveApp(
            app.defaults.welcome_screen_app_id,
        ) && after.state.navigation.current == app.state.navigation.home,
{
}

/// What is loading stays on screen for as long as some receiver listens to its source; once none does,
/// the viewer goes home. Neither makes an application active.
pub proof fn loading_lasts_while_listened_to(
    app: AppModel,
    source: LogSource,
    has_active_app: bool,
    app_ids: Seq<String>,
    after: AppModel,
    effects: Seq<EffectView>,
)
    requires
        gets_active_app(app, has_active_app, app_ids, after, effects),
        app.state.navigation.current == DisplayMode::Loading(source),
    ensures
        effects.len() == 0,
        (exists|i: int|
            0 <= i < app.rx_log.len() && types::same_source(
                (#[trigger] app.rx_log[i]).source,
                source,
            )) ==> after == app,
        (forall|i: int|
            0 <= i < app.rx_log.len() ==> !types::same_source(
                (#[trigger] app.rx_log[i]).source,
                source,
            )) ==> after.state.navigation.current == app.state.navigation.home,
{
}

/// Whatever entry is active, recording or table, becomes the whole selection, and nothing else changes.
pub proof fn the_active_entry_is_selected(app: AppModel, store_id: StoreId, table_id: String)
    ensures
        with_entry_selected(app, None) == app,
        ({
            let after = with_entry_selected(app, Some(RecordingOrTable::Recording { store_id }));
            &&& after.state.selection == seq![Item::StoreId(store_id)]
            &&& after == AppModel {
                state: StateModel { selection: after.state.selection, ..app.state },
                ..app
            }
        }),
        ({
            let after = with_entry_selected(app, Some(RecordingOrTable::Table { table_id }));
            &&& after.state.selection == seq![Item::TableId(table_id)]
            &&& after == AppModel {
                state: StateModel { selection: after.state.selection, ..app.state },
                ..app
            }
        }),
{
}

/// Windows that draw their own decorations are transparent, in either theme; others have the color of
/// their theme.
pub proof fn windows_have_the_color_of_their_theme(dark_mode: bool)
    ensures
        background(true, dark_mode) == ClearColor::Transparent,
        background(false, true) == ClearColor::Black,
        background(false, false) == ClearColor::White,
{
}

/// While text is edited no key is taken. Otherwise the keys of all commands that play back are, but for
/// those that keep to letters or set a speed.
pub proof fn keys_are_taken_for_playing(cmd: UICommand)
    ensures
        taken_commands(true).len() == 0,
        taken_commands(false).contains(cmd) <==> {
            ||| cmd is PlaybackTogglePlayPause
            ||| cmd is PlaybackBeginning
            ||| cmd is PlaybackEnd
            ||| cmd is PlaybackForwardFast
            ||| cmd is PlaybackBackFast
            ||| cmd is PlaybackStepForward
            ||| cmd is PlaybackStepBack
            ||| cmd is PlaybackForward
            ||| cmd is PlaybackBack
        },
        taken_commands(false).no_duplicates(),
{
    let taken = taken_commands(false);
    assert(taken[0] is PlaybackTogglePlayPause);
    assert(taken[1] is PlaybackBeginning);
    assert(taken[2] is PlaybackEnd);
    assert(taken[3] is PlaybackForwardFast);
    assert(taken[4] is PlaybackBackFast);
    assert(taken[5] is PlaybackStepForward);
    assert(taken[6] is PlaybackStepBack);
    assert(taken[7] is PlaybackForward);
    assert(taken[8] is PlaybackBack);
}

/// The focus is kept from moving if and only if some taken key would have moved it sideways.
pub proof fn one_key_sideways_is_enough(keys: Seq<TakenKey>, more: Seq<TakenKey>)
    ensures
        !any_sideways(Seq::empty()),
        any_sideways(keys + more) <==> any_sideways(keys) || any_sideways(more),
{
    if any_sideways(keys) {
        let i = choose|i: int| 0 <= i < keys.len() && (#[trigger] keys[i]).is_sideways;
        assert((keys + more)[i].is_sideways);
    }
    if any_sideways(more) {
        let i = choose|i: int| 0 <= i < more.len() && (#[trigger] more[i]).is_sideways;
        assert((keys + more)[keys.len() + i].is_sideways);
    }
    if any_sideways(keys + more) {
        let i = choose|i: int|
            0 <= i < (keys + more).len() && (#[trigger] (keys + more)[i]).is_sideways;
        if i < keys.len() {
            assert(keys[i].is_sideways);
        } else {
            assert(more[i - keys.len()].is_sideways);
        }
    }
}

/// The size of the window is dropped once it was set, and only there; nothing else of the options
/// changes.
pub proof fn options_outlive_the_first_steps(app: AppModel)
    ensures
        app.platform == Platform::Web ==> options_after_first_steps(app) == app.startup_options,
        app.platform == Platform::Native ==> options_after_first_steps(app) == (StartupOptions {
            resolution_in_points: None,
            ..app.startup_options
        }),
{
}

/// Without a renderer nothing of the state is shown. Without a blueprint only text logs are. What belongs
/// to a frame as a whole is not done again in its later passes.
pub proof fn only_what_can_be_shown_is_shown(app: AppModel, is_new_frame: bool)
    ensures
        app.export is None ==> ui_steps(app, true, false, is_new_frame).len() == 0,
        ui_steps(app, false, false, is_new_frame).len() == 0,
        ui_steps(app, false, true, is_new_frame) == seq![UiStep::ShowTextLogs],
        app.export is None ==> ui_steps(app, true, true, false) == seq![
            UiStep::BeginRenderFrame,
            UiStep::ShowState,
            UiStep::Submit,
            UiStep::ShowTextLogs,
        ],
        app.platform == Platform::Web ==> ui_steps(app, true, true, true) == seq![
            UiStep::BeginRenderFrame,
            UiStep::UpdateServers,
            UiStep::ShowState,
            UiStep::Submit,
            UiStep::ShowTextLogs,
        ],
{
}

} // verus!
