//! The values that the viewer's decisions are made on.
use vstd::prelude::*;

verus! {

/// Where the viewer runs.
#[derive(Clone, Copy, Debug, PartialEq, Eq, Structural)]
pub enum Platform {
    Native,
    Web,
}

/// Identifies a view of the viewport.
#[derive(Clone, Copy, Debug, PartialEq, Eq, Hash, Structural)]
pub struct ViewId {
    pub id: u128,
}

/// A rectangle in UI points; each coordinate is given by the bits of its `f32`.
#[derive(Clone, Copy, Debug, PartialEq, Eq, Structural)]
pub struct UiRect {
    pub min_x: u32,
    pub min_y: u32,
    pub max_x: u32,
    pub max_y: u32,
}

#[derive(Clone, Copy, Debug, PartialEq, Eq, Structural)]
pub enum StoreKind {
    Recording,
    Blueprint,
}

/// Identifies a store: a recording or a blueprint of an application.
#[derive(Debug, PartialEq, Eq)]
pub struct StoreId {
    pub kind: StoreKind,
    pub application_id: String,
    pub recording_id: String,
}

/// The two ids name the same store.
pub open spec fn same_store(a: StoreId, b: StoreId) -> bool {
    &&& a.kind == b.kind
    &&& a.application_id@ == b.application_id@
    &&& a.recording_id@ == b.recording_id@
}

impl Clone for StoreId {
    fn clone(&self) -> (res: Self)
        ensures
            res == *self,
    {
        StoreId {
            kind: self.kind,
            application_id: self.application_id.clone(),
            recording_id: self.recording_id.clone(),
        }
    }
}

impl StoreId {
    /// The id of a recording.
    pub fn recording(application_id: String, recording_id: String) -> (res: Self)
        ensures
            res == (StoreId { kind: StoreKind::Recording, application_id, recording_id }),
    {
        StoreId { kind: StoreKind::Recording, application_id, recording_id }
    }

    pub fn is_recording(&self) -> (res: bool)
        ensures
            res == (self.kind == StoreKind::Recording),
    {
        matches!(self.kind, StoreKind::Recording)
    }

    pub fn is_blueprint(&self) -> (res: bool)
        ensures
            res == (self.kind == StoreKind::Blueprint),
    {
        matches!(self.kind, StoreKind::Blueprint)
    }

    /// Whether the two ids name the same store.
    pub fn same_as(&self, other: &StoreId) -> (res: bool)
        ensures
            res == same_store(*self, *other),
    {
        self.kind == other.kind && self.application_id == other.application_id && self.recording_id
            == other.recording_id
    }

    /// The same store kind and application with another recording id.
    pub fn with_recording_id(self, recording_id: String) -> (res: Self)
        ensures
            res == (StoreId { recording_id, ..self }),
    {
        StoreId { kind: self.kind, application_id: self.application_id, recording_id }
    }
}

/// The store is among the stores.
pub open spec fn is_among(stores: Seq<StoreId>, store_id: StoreId) -> bool {
    exists|i: int| 0 <= i < stores.len() && same_store(#[trigger] stores[i], store_id)
}

/// Whether the store is among the stores.
pub fn contains_store(stores: &Vec<StoreId>, store_id: &StoreId) -> (res: bool)
    ensures
        res == is_among(stores@, *store_id),
{
    let mut i: usize = 0;
    while i < stores.len()
        invariant
            i <= stores@.len(),
            forall|k: int| 0 <= k < i ==> !same_store(#[trigger] stores@[k], *store_id),
        decreases stores@.len() - i,
    {
        if stores[i].same_as(store_id) {
            assert(same_store(stores@[i as int], *store_id));
            return true;
        }
        i = i + 1;
    }
    false
}

#[derive(Clone, Copy, Debug, PartialEq, Eq, Structural)]
pub enum PlayState {
    Paused,
    Playing,
    Following,
}

#[derive(Clone, Copy, Debug, PartialEq, Eq, Structural)]
pub enum LoopMode {
    Off,
    Selection,
    All,
}

/// A time between two integer times, by the bits of its fixed-point number.
#[derive(Clone, Copy, Debug, PartialEq, Eq, Structural)]
pub struct TimeReal {
    pub bits: i128,
}

/// A time to go to.
#[derive(Clone, Copy, Debug, PartialEq, Eq, Structural)]
pub enum TimeTarget {
    Int(i64),
    Real(TimeReal),
}

/// A range of integer times, both ends in it.
#[derive(Clone, Copy, Debug, PartialEq, Eq, Structural)]
pub struct TimeRange {
    pub min: i64,
    pub max: i64,
}

/// What a time control can be told.
#[derive(Debug, PartialEq, Eq)]
pub enum TimeControlCommand {
    SetActiveTimeline(String),
    SetTime(TimeTarget),
    SetPlayState(PlayState),
    SetTimeSelection(TimeRange),
    SetLoopMode(LoopMode),
    TogglePlayPause,
    StepTimeBack,
    StepTimeForward,
    /// Milliseconds, backwards if negative.
    MoveBy(i64),
    MoveBeginning,
    MoveEnd,
    Restart,
    /// The bits of an `f32`.
    SetSpeed(u32),
}

/// What a time control answers to an update or to commands.
#[derive(Debug, PartialEq, Eq)]
pub struct TimeControlResponse {
    pub needs_repaint: bool,
    pub playing_change: Option<bool>,
    pub timeline_change: Option<(String, TimeReal)>,
    pub time_change: Option<TimeReal>,
}

/// A path to an entity, with an instance of it or a component on it.
#[derive(Debug, PartialEq, Eq)]
pub struct DataPath {
    pub entity_path: String,
    pub instance: Option<u64>,
    pub component: Option<String>,
}

impl Clone for DataPath {
    fn clone(&self) -> (res: Self)
        ensures
            res == *self,
    {
        DataPath {
            entity_path: self.entity_path.clone(),
            instance: self.instance,
            component: self.component.clone(),
        }
    }
}

/// A range on a timeline.
#[derive(Debug, PartialEq, Eq)]
pub struct TimeSelection {
    pub timeline: String,
    pub range: TimeRange,
}

impl Clone for TimeSelection {
    fn clone(&self) -> (res: Self)
        ensures
            res == *self,
    {
        TimeSelection { timeline: self.timeline.clone(), range: self.range }
    }
}

/// A time on a timeline.
#[derive(Debug, PartialEq, Eq)]
pub struct TimeCursor {
    pub timeline: String,
    pub time: i64,
}

impl Clone for TimeCursor {
    fn clone(&self) -> (res: Self)
        ensures
            res == *self,
    {
        TimeCursor { timeline: self.timeline.clone(), time: self.time }
    }
}

/// The part of a dataset URI that says what to look at.
#[derive(Debug, PartialEq, Eq)]
pub struct Fragment {
    pub selection: Option<DataPath>,
    pub when: Option<TimeCursor>,
    pub time_selection: Option<TimeSelection>,
}

impl Clone for Fragment {
    fn clone(&self) -> (res: Self)
        ensures
            res == *self,
    {
        Fragment {
            selection: self.selection.clone(),
            when: self.when.clone(),
            time_selection: self.time_selection.clone(),
        }
    }
}

/// The address of data on a server.
#[derive(Debug, PartialEq, Eq)]
pub struct DatasetUri {
    /// The whole address.
    pub text: String,
    /// The address without its fragment.
    pub base: String,
    pub origin: String,
    pub store_id: StoreId,
    pub fragment: Fragment,
}

impl Clone for DatasetUri {
    fn clone(&self) -> (res: Self)
        ensures
            res == *self,
    {
        DatasetUri {
            text: self.text.clone(),
            base: self.base.clone(),
            origin: self.origin.clone(),
            store_id: self.store_id.clone(),
            fragment: self.fragment.clone(),
        }
    }
}

/// Where messages come from.
#[derive(Debug, PartialEq, Eq)]
pub enum LogSource {
    File(String),
    RrdHttpStream { url: String, follow: bool },
    RedapGrpcStream { uri: DatasetUri, select_when_loaded: bool },
    RrdWebEvent,
    JsChannel { channel_name: String },
    Sdk,
    Stdin,
    MessageProxy(String),
}

/// The two sources are the same one.
pub open spec fn same_source(a: LogSource, b: LogSource) -> bool {
    match (a, b) {
        (LogSource::File(p), LogSource::File(q)) => p@ == q@,
        (
            LogSource::RrdHttpStream { url: p, follow: f },
            LogSource::RrdHttpStream { url: q, follow: g },
        ) => p@ == q@ && f == g,
        (
            LogSource::RedapGrpcStream { uri: p, select_when_loaded: f },
            LogSource::RedapGrpcStream { uri: q, select_when_loaded: g },
        ) => p.text@ == q.text@ && f == g,
        (LogSource::RrdWebEvent, LogSource::RrdWebEvent) => true,
        (LogSource::JsChannel { channel_name: p }, LogSource::JsChannel { channel_name: q }) => p@
            == q@,
        (LogSource::Sdk, LogSource::Sdk) => true,
        (LogSource::Stdin, LogSource::Stdin) => true,
        (LogSource::MessageProxy(p), LogSource::MessageProxy(q)) => p@ == q@,
        _ => false,
    }
}

/// The two sources are the same one, apart from the fragments of their addresses: these say what to
/// look at, as does whether the data is to be selected, but not which data it is.
pub open spec fn same_source_ignoring_fragments(a: LogSource, b: LogSource) -> bool {
    match (a, b) {
        (
            LogSource::RedapGrpcStream { uri: p, .. },
            LogSource::RedapGrpcStream { uri: q, .. },
        ) => p.base@ == q.base@,
        _ => same_source(a, b),
    }
}

impl Clone for LogSource {
    fn clone(&self) -> (res: Self)
        ensures
            res == *self,
    {
        match self {
            LogSource::File(path) => LogSource::File(path.clone()),
            LogSource::RrdHttpStream { url, follow } => LogSource::RrdHttpStream {
                url: url.clone(),
                follow: *follow,
            },
            LogSource::RedapGrpcStream { uri, select_when_loaded } => LogSource::RedapGrpcStream {
                uri: uri.clone(),
                select_when_loaded: *select_when_loaded,
            },
            LogSource::RrdWebEvent => LogSource::RrdWebEvent,
            LogSource::JsChannel { channel_name } => LogSource::JsChannel {
                channel_name: channel_name.clone(),
            },
            LogSource::Sdk => LogSource::Sdk,
            LogSource::Stdin => LogSource::Stdin,
            LogSource::MessageProxy(uri) => LogSource::MessageProxy(uri.clone()),
        }
    }
}

impl LogSource {
    /// Whether the two sources are the same one.
    pub fn same_as(&self, other: &LogSource) -> (res: bool)
        ensures
            res == same_source(*self, *other),
    {
        match (self, other) {
            (LogSource::File(p), LogSource::File(q)) => *p == *q,
            (
                LogSource::RrdHttpStream { url: p, follow: f },
                LogSource::RrdHttpStream { url: q, follow: g },
            ) => *p == *q && *f == *g,
            (
                LogSource::RedapGrpcStream { uri: p, select_when_loaded: f },
                LogSource::RedapGrpcStream { uri: q, select_when_loaded: g },
            ) => p.text == q.text && *f == *g,
            (LogSource::RrdWebEvent, LogSource::RrdWebEvent) => true,
            (
                LogSource::JsChannel { channel_name: p },
                LogSource::JsChannel { channel_name: q },
            ) => *p == *q,
            (LogSource::Sdk, LogSource::Sdk) => true,
            (LogSource::Stdin, LogSource::Stdin) => true,
            (LogSource::MessageProxy(p), LogSource::MessageProxy(q)) => *p == *q,
            _ => false,
        }
    }
}

impl LogSource {
    /// Whether the two sources are the same one, apart from the fragments of their addresses.
    pub fn is_same_ignoring_uri_fragments(&self, other: &LogSource) -> (res: bool)
        ensures
            res == same_source_ignoring_fragments(*self, *other),
    {
        match (self, other) {
            (
                LogSource::RedapGrpcStream { uri: p, .. },
                LogSource::RedapGrpcStream { uri: q, .. },
            ) => p.base == q.base,
            _ => self.same_as(other),
        }
    }
}

/// A connection that messages come in on.
#[derive(Debug, PartialEq, Eq)]
pub struct LogReceiver {
    pub source: LogSource,
    /// Tells the connection from the others.
    pub handle: u64,
}

/// A recording or a table.
#[derive(Debug, PartialEq, Eq)]
pub enum RecordingOrTable {
    Recording { store_id: StoreId },
    Table { table_id: String },
}

/// What the viewer shows.
#[derive(Debug, PartialEq, Eq)]
pub enum DisplayMode {
    /// The settings, and what to go back to.
    Settings(Box<DisplayMode>),
    Loading(LogSource),
    LocalRecordings(StoreId),
    LocalTable(String),
    RedapEntry(String),
    RedapServer(String),
    /// The chunk store browser, and what to go back to.
    ChunkStoreBrowser(Box<DisplayMode>),
}

/// The two modes show the same.
pub open spec fn same_mode(a: DisplayMode, b: DisplayMode) -> bool
    decreases a,
{
    match (a, b) {
        (DisplayMode::Settings(p), DisplayMode::Settings(q)) => same_mode(*p, *q),
        (DisplayMode::Loading(p), DisplayMode::Loading(q)) => same_source(p, q),
        (DisplayMode::LocalRecordings(p), DisplayMode::LocalRecordings(q)) => same_store(p, q),
        (DisplayMode::LocalTable(p), DisplayMode::LocalTable(q)) => p@ == q@,
        (DisplayMode::RedapEntry(p), DisplayMode::RedapEntry(q)) => p@ == q@,
        (DisplayMode::RedapServer(p), DisplayMode::RedapServer(q)) => p@ == q@,
        (DisplayMode::ChunkStoreBrowser(p), DisplayMode::ChunkStoreBrowser(q)) => same_mode(*p, *q),
        _ => false,
    }
}

impl Clone for DisplayMode {
    fn clone(&self) -> (res: Self)
        ensures
            res == *self,
        decreases self,
    {
        match self {
            DisplayMode::Settings(mode) => DisplayMode::Settings(Box::new((**mode).clone())),
            DisplayMode::Loading(source) => DisplayMode::Loading(source.clone()),
            DisplayMode::LocalRecordings(id) => DisplayMode::LocalRecordings(id.clone()),
            DisplayMode::LocalTable(id) => DisplayMode::LocalTable(id.clone()),
            DisplayMode::RedapEntry(uri) => DisplayMode::RedapEntry(uri.clone()),
            DisplayMode::RedapServer(origin) => DisplayMode::RedapServer(origin.clone()),
            DisplayMode::ChunkStoreBrowser(mode) => DisplayMode::ChunkStoreBrowser(
                Box::new((**mode).clone()),
            ),
        }
    }
}

impl DisplayMode {
    /// Whether the two modes show the same.
    pub fn same_as(&self, other: &DisplayMode) -> (res: bool)
        ensures
            res == same_mode(*self, *other),
        decreases self,
    {
        match (self, other) {
            (DisplayMode::Settings(p), DisplayMode::Settings(q)) => (**p).same_as(&**q),
            (DisplayMode::Loading(p), DisplayMode::Loading(q)) => p.same_as(q),
            (DisplayMode::LocalRecordings(p), DisplayMode::LocalRecordings(q)) => p.same_as(q),
            (DisplayMode::LocalTable(p), DisplayMode::LocalTable(q)) => *p == *q,
            (DisplayMode::RedapEntry(p), DisplayMode::RedapEntry(q)) => *p == *q,
            (DisplayMode::RedapServer(p), DisplayMode::RedapServer(q)) => *p == *q,
            (DisplayMode::ChunkStoreBrowser(p), DisplayMode::ChunkStoreBrowser(q)) => (**p).same_as(
                &**q,
            ),
            _ => false,
        }
    }
}

/// Something that can be selected.
#[derive(Debug, PartialEq, Eq)]
pub enum Item {
    AppId(String),
    StoreId(StoreId),
    TableId(String),
    Entity { entity_path: String },
    Instance { entity_path: String, instance: u64 },
    Component { entity_path: String, component: String },
    /// Anything else, told apart by a number.
    Other(u64),
}

/// What is selected. A single item always stands as `One`.
#[derive(Debug, PartialEq, Eq)]
pub enum ItemCollection {
    One(Item),
    Many(Vec<Item>),
}

impl ItemCollection {
    /// The selected items in order.
    pub open spec fn items(self) -> Seq<Item> {
        match self {
            ItemCollection::One(item) => seq![item],
            ItemCollection::Many(items) => items@,
        }
    }

    /// A single item stands as `One`.
    pub open spec fn wf(self) -> bool {
        self matches ItemCollection::Many(items) ==> items@.len() != 1
    }

    /// The selection of the given items.
    pub fn new(items: Vec<Item>) -> (res: Self)
        ensures
            res.wf(),
            res.items() == items@,
    {
        let mut items = items;
        if items.len() == 1 {
            let ghost all = items@;
            let item = items.pop().unwrap();
            assert(seq![item] =~= all);
            ItemCollection::One(item)
        } else {
            ItemCollection::Many(items)
        }
    }
}

/// How a file came to be opened.
#[derive(Debug, PartialEq, Eq)]
pub enum FileSource {
    FileDialog { recommended_store_id: Option<StoreId>, force_store_info: bool },
    DragAndDrop { recommended_store_id: Option<StoreId>, force_store_info: bool },
    Other,
}

/// A file that was read already.
#[derive(Debug, PartialEq, Eq)]
pub struct FileContents {
    pub name: String,
    pub bytes: Vec<u8>,
}

/// Something that data can be loaded from.
#[derive(Debug, PartialEq, Eq)]
pub enum LogDataSource {
    RrdHttpUrl { url: String, follow: bool },
    FilePath(FileSource, String),
    FileContents(FileSource, FileContents),
    Stdin,
    RedapDatasetSegment { uri: DatasetUri, select_when_loaded: bool },
    RedapProxy(String),
}

/// Data to be added to a store.
#[derive(Clone, Copy, Debug, PartialEq, Eq, Structural)]
pub struct Chunk {
    /// Tells the chunk from the others.
    pub handle: u64,
    pub is_static: bool,
}

/// Frame files to be encoded to a video.
#[derive(Debug, PartialEq, Eq)]
pub struct EncodingJob {
    pub temp_dir: String,
    /// What the paths of the frame files begin with.
    pub frame_head: String,
    pub output_path: String,
    /// The bits of an `f32`.
    pub fps: u32,
    pub frame_count: usize,
    /// The name of what the video shows.
    pub name: String,
}

/// Who is logged in.
#[derive(Debug, PartialEq, Eq)]
pub struct AuthContext {
    pub email: String,
}

/// To be the same source is an equivalence: a source is the same as itself, and as what is the same
/// as it, both ways round.
pub proof fn same_sources_are_equivalent(a: LogSource, b: LogSource, c: LogSource)
    ensures
        same_source(a, a),
        same_source(a, b) == same_source(b, a),
        same_source(a, b) && same_source(b, c) ==> same_source(a, c),
        same_source_ignoring_fragments(a, a),
        same_source_ignoring_fragments(a, b) == same_source_ignoring_fragments(b, a),
        same_source_ignoring_fragments(a, b) && same_source_ignoring_fragments(b, c)
            ==> same_source_ignoring_fragments(a, c),
{
}

/// Sources of different kinds are never the same, and sources of one kind are told apart by their
/// addresses and by how they are loaded. Fragments tell no datasets apart, nor does whether they are
/// selected.
pub proof fn sources_are_told_apart(a: LogSource, b: LogSource)
    ensures
        same_source(a, b) ==> match a {
            LogSource::File(path) => b matches LogSource::File(other) && path@ == other@,
            LogSource::RrdHttpStream { url, follow } => b matches LogSource::RrdHttpStream {
                url: other,
                follow: follows,
            } && url@ == other@ && follow == follows,
            LogSource::RedapGrpcStream { uri, select_when_loaded } =>
                b matches LogSource::RedapGrpcStream {
                    uri: other,
                    select_when_loaded: selects,
                } && uri.text@ == other.text@ && select_when_loaded == selects,
            LogSource::RrdWebEvent => b is RrdWebEvent,
            LogSource::JsChannel { channel_name } => b matches LogSource::JsChannel {
                channel_name: other,
            } && channel_name@ == other@,
            LogSource::Sdk => b is Sdk,
            LogSource::Stdin => b is Stdin,
            LogSource::MessageProxy(uri) => b matches LogSource::MessageProxy(other) && uri@
                == other@,
        },
        a matches LogSource::RedapGrpcStream { uri, .. } ==> (b matches LogSource::RedapGrpcStream {
            uri: other,
            ..
        } ==> (same_source_ignoring_fragments(a, b) <==> uri.base@ == other.base@)),
        !(a is RedapGrpcStream && b is RedapGrpcStream) ==> same_source_ignoring_fragments(a, b)
            == same_source(a, b),
{
}

/// To be the same store is an equivalence that tells kinds, applications and recordings apart.
pub proof fn same_stores_are_equivalent(a: StoreId, b: StoreId, c: StoreId)
    ensures
        same_store(a, a),
        same_store(a, b) == same_store(b, a),
        same_store(a, b) && same_store(b, c) ==> same_store(a, c),
        same_store(a, b) ==> a.kind == b.kind && a.application_id@ == b.application_id@
            && a.recording_id@ == b.recording_id@,
{
}

/// A store is among others as soon as one of them is the same.
pub proof fn one_same_store_is_enough(stores: Seq<StoreId>, store_id: StoreId, other: StoreId)
    ensures
        !is_among(Seq::<StoreId>::empty(), store_id),
        is_among(stores.push(other), store_id) <==> is_among(stores, store_id) || same_store(
            other,
            store_id,
        ),
{
    let all = stores.push(other);
    if is_among(stores, store_id) {
        let i = choose|i: int| 0 <= i < stores.len() && same_store(#[trigger] stores[i], store_id);
        assert(same_store(all[i], store_id));
    }
    if same_store(other, store_id) {
        assert(same_store(all[stores.len() as int], store_id));
    }
    if is_among(all, store_id) {
        let i = choose|i: int| 0 <= i < all.len() && same_store(#[trigger] all[i], store_id);
        if i < stores.len() {
            assert(same_store(stores[i], store_id));
        }
    }
}

/// To show the same goes both ways. What shows the same is of one kind, and about the same thing; and
/// it makes no difference whether the settings or the browser cover both.
pub proof fn same_modes_are_equivalent(a: DisplayMode, b: DisplayMode)
    ensures
        same_mode(a, b) == same_mode(b, a),
        same_mode(DisplayMode::Settings(Box::new(a)), DisplayMode::Settings(Box::new(b)))
            == same_mode(a, b),
        same_mode(
            DisplayMode::ChunkStoreBrowser(Box::new(a)),
            DisplayMode::ChunkStoreBrowser(Box::new(b)),
        ) == same_mode(a, b),
        !same_mode(DisplayMode::Settings(Box::new(a)), DisplayMode::ChunkStoreBrowser(Box::new(b))),
        same_mode(a, b) ==> {
            &&& a is Settings == b is Settings
            &&& a is ChunkStoreBrowser == b is ChunkStoreBrowser
            &&& a matches DisplayMode::Loading(p) ==> (b matches DisplayMode::Loading(q)
                && same_source(p, q))
            &&& a matches DisplayMode::LocalRecordings(p) ==> (
            b matches DisplayMode::LocalRecordings(q) && same_store(p, q))
            &&& a matches DisplayMode::LocalTable(p) ==> (b matches DisplayMode::LocalTable(q) && p@
                == q@)
            &&& a matches DisplayMode::RedapEntry(p) ==> (b matches DisplayMode::RedapEntry(q) && p@
                == q@)
            &&& a matches DisplayMode::RedapServer(p) ==> (b matches DisplayMode::RedapServer(q)
                && p@ == q@)
        },
    decreases a,
{
    match (a, b) {
        (DisplayMode::Settings(p), DisplayMode::Settings(q)) => same_modes_are_equivalent(*p, *q),
        (DisplayMode::ChunkStoreBrowser(p), DisplayMode::ChunkStoreBrowser(q)) => {
            same_modes_are_equivalent(*p, *q)
        },
        (DisplayMode::Loading(p), DisplayMode::Loading(q)) => same_sources_are_equivalent(p, q, p),
        _ => {},
    }
    reveal_with_fuel(same_mode, 2);
}

/// A collection holds its items, one or many, in order.
pub proof fn collections_hold_their_items(item: Item, items: Vec<Item>)
    ensures
        ItemCollection::One(item).items() == seq![item],
        ItemCollection::Many(items).items() == items@,
{
}

} // verus!
