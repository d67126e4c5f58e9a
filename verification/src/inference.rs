//! On-device chat inference: which model is picked, loaded, downloaded and deleted, and
//! what the conversation holds.
//!
//! Work that takes time is done outside. A [`LoadTask`] and a [`DeleteTask`] each go
//! from step to step: the shell performs the action it is given, and hands what came of
//! it back as an event. Everything is lazy: no model is fetched until the user asks for
//! one.

use vstd::prelude::*;

use crate::conversation::{
    weights_present, CacheScan, Catalog, CatalogView, ChatRole, Status, StatusView, SupportedModel,
    Turn, TurnView,
};
use crate::models::{config_for, default_model_id, ConfigView, ModelConfig, ModelTable, RowView};
use crate::storage::{selected_model_path, SaveChoice, SELECTED_MODEL_FILE};
use crate::text::{holds, join, trim};

verus! {

/// What the assistant is told before every conversation.
pub const SYSTEM_PROMPT: &'static str =
    "You are a helpful assistant inside a web browser. Keep answers brief.";

/// Everything the chat panel and the model list show.
///
/// `M` describes one model of the catalog to the panel; `P` is a path of the platform.
pub struct Inference<M, P> {
    models: ModelTable,
    status: Status,
    transcript: Vec<Turn>,
    /// Set while a generation is outstanding.
    generating: bool,
    /// Where weights land.
    cache_dir: Option<P>,
    /// The model the user picked, which is not necessarily the loaded one: picking a
    /// model that still has to be downloaded leaves the previous one serving the chat
    /// panel until the new weights are ready.
    selected: String,
    /// The model the engine currently holds in memory, if any.
    loaded: Option<String>,
    catalog: Catalog<M>,
    /// The last failed management action, shown in Settings until the next one succeeds:
    /// a deletion, or a pick whose model is, or has come to be, in memory. Load failures
    /// live in the status instead.
    last_error: Option<String>,
    /// Draft text in the input box. Kept here so the panel stays a pure function of this.
    pub draft: String,
}

/// An [`Inference`] as mathematical values.
#[verifier::ext_equal]
pub struct InferenceView<M, P> {
    pub models: Seq<RowView>,
    pub status: StatusView,
    pub transcript: Seq<TurnView>,
    pub generating: bool,
    pub cache_dir: Option<P>,
    pub selected: Seq<char>,
    pub loaded: Option<Seq<char>>,
    pub catalog: CatalogView<M>,
    pub last_error: Option<Seq<char>>,
    pub draft: Seq<char>,
}

impl<M, P> View for Inference<M, P> {
    type V = InferenceView<M, P>;

    closed spec fn view(&self) -> InferenceView<M, P> {
        InferenceView {
            models: self.models@,
            status: self.status@,
            transcript: self.transcript@.map_values(|t: Turn| t@),
            generating: self.generating,
            cache_dir: self.cache_dir,
            selected: self.selected@,
            loaded: crate::text::opt_text(self.loaded),
            catalog: self.catalog@,
            last_error: crate::text::opt_text(self.last_error),
            draft: self.draft@,
        }
    }
}

impl<M, P> InferenceView<M, P> {
    /// The invariant of every session: the picked model is one that can be loaded.
    pub open spec fn wf(self) -> bool {
        crate::models::config_of(self.models, self.selected) is Some
    }

    /// The load configuration of a catalog identifier.
    pub open spec fn config_of(self, id: Seq<char>) -> Option<ConfigView> {
        crate::models::config_of(self.models, id)
    }

    /// Whether `id` is in memory and answering.
    pub open spec fn is_current(self, id: Seq<char>) -> bool {
        self.loaded == Some(id) && self.status.is_ready()
    }

    /// Whether a model in memory answers the chat panel: the one that was asked for, or
    /// the one before it, unless the engine is building another.
    pub open spec fn is_served(self) -> bool {
        self.status.is_ready() || (self.loaded is Some && !(self.status is Loading))
    }

    /// Whether `message` would be sent.
    pub open spec fn accepts(self, message: Seq<char>) -> bool {
        !crate::text::is_blank(message) && !self.generating && self.is_served()
    }
}

/// The model picked at launch: the remembered one if it can be loaded, else the default.
pub open spec fn launch_selection(rows: Seq<RowView>, stored: Option<Seq<char>>) -> Seq<char> {
    match stored {
        Some(contents) if crate::models::config_of(rows, crate::text::trimmed(contents))
            is Some => crate::text::trimmed(contents),
        _ => crate::models::default_id(rows),
    }
}

/// A session at launch.
pub open spec fn launch_state<M, P>(
    rows: Seq<RowView>,
    stored: Option<Seq<char>>,
    cache_dir: Option<P>,
) -> InferenceView<M, P> {
    InferenceView {
        models: rows,
        status: StatusView::Idle,
        transcript: Seq::empty(),
        generating: false,
        cache_dir,
        selected: launch_selection(rows, stored),
        loaded: None,
        catalog: crate::conversation::empty_catalog(),
        last_error: None,
        draft: Seq::empty(),
    }
}

/// What becomes of the session when `id` is picked.
pub open spec fn after_use_model<M, P>(s: InferenceView<M, P>, id: Seq<char>) -> InferenceView<
    M,
    P,
> {
    match s.config_of(id) {
        _ if s.status.is_busy() => s,
        None => InferenceView { last_error: Some(id + " cannot be loaded."@), ..s },
        Some(_) if s.is_current(id) => InferenceView { selected: id, last_error: None, ..s },
        Some(config) => InferenceView {
            selected: id,
            status: StatusView::Downloading {
                fraction_bits: 0,
                detail: "Preparing "@ + config.display_name,
            },
            ..s
        },
    }
}

/// What came of picking a model.
///
/// Where `save` is given, the choice is to be written to disk.
pub enum UseModel<P> {
    /// Another load is in flight; nothing happened.
    Busy,
    /// The model cannot be loaded; the session's last error says so.
    Refused,
    /// The model is in memory and answering already.
    Current { save: Option<SaveChoice<P>> },
    /// The model is to be loaded: list the supported models, and hand them to
    /// [`Inference::advance_load`].
    Load { save: Option<SaveChoice<P>>, task: LoadTask },
}

/// Whether `save` writes `id` to the file of the choice in `config_dir`.
pub open spec fn saves<P>(save: Option<SaveChoice<P>>, config_dir: Option<P>, id: Seq<char>) -> bool {
    match save {
        Some(save) => {
            &&& config_dir == Some(save.file.directory)
            &&& save.file.name@ == SELECTED_MODEL_FILE@
            &&& save.contents@ == id
        },
        None => config_dir is None,
    }
}

impl<P> UseModel<P> {
    /// Whether this is what picking `id` in the session `s` gives.
    pub open spec fn answers<M>(
        self,
        s: InferenceView<M, P>,
        id: Seq<char>,
        config_dir: Option<P>,
    ) -> bool {
        match s.config_of(id) {
            _ if s.status.is_busy() => self is Busy,
            None => self is Refused,
            Some(_) if s.is_current(id) => {
                &&& self matches UseModel::Current { save }
                &&& saves(save, config_dir, id)
            },
            Some(config) => {
                &&& self matches UseModel::Load { save, task }
                &&& saves(save, config_dir, id)
                &&& task@ == (LoadTaskView { config, step: LoadStep::Checking })
            },
        }
    }
}

/// How far a load has come.
#[derive(Clone, Copy, Debug, PartialEq, Eq, Structural)]
pub enum LoadStep {
    /// Waiting to hear which weights are on disk.
    Checking,
    /// Waiting for the weights.
    Downloading,
    /// Waiting for the engine to build the model.
    Loading,
    /// Waiting for a scan of the cache.
    Rescanning,
    Finished,
}

/// One load of one model, from the check of the cache to the scan at its end.
pub struct LoadTask {
    config: ModelConfig,
    step: LoadStep,
}

/// A [`LoadTask`] as mathematical values.
#[verifier::ext_equal]
pub struct LoadTaskView {
    pub config: ConfigView,
    pub step: LoadStep,
}

impl View for LoadTask {
    type V = LoadTaskView;

    closed spec fn view(&self) -> LoadTaskView {
        LoadTaskView { config: self.config@, step: self.step }
    }
}

impl LoadTask {
    /// How far the load has come.
    pub fn step(&self) -> (r: LoadStep)
        ensures
            r == self@.step,
    {
        self.step
    }
}

/// What came of the action a load asked for.
pub enum LoadEvent<M> {
    /// The models that can be downloaded.
    Supported(Vec<SupportedModel>),
    /// The download has come further. The fraction is the bit pattern of a 32-bit float.
    Progress { fraction_bits: u32, downloaded_display: String, total_display: String },
    /// The download has ended.
    Downloaded(Result<(), String>),
    /// The engine has built the model, or not.
    Loaded(Result<(), String>),
    /// The cache was scanned.
    Scanned(CacheScan<M>),
}

/// What a load asks for next.
pub enum LoadAction<P> {
    /// Nothing new: the action asked for before is still under way.
    Continue,
    /// Fetch the weights of `model_id` into `cache_dir`, reporting progress.
    Download { model_id: String, cache_dir: Option<P> },
    /// Build the model.
    Load { config: ModelConfig, system_prompt: String },
    /// Scan the cache.
    Rescan,
    /// Nothing at all: the load is over.
    Stop,
}

/// The kinds of [`LoadAction`].
pub enum LoadRequest {
    Continue,
    Download,
    Load,
    Rescan,
    Stop,
}

/// Whether `copy` is `original`, or a clone of what it holds.
pub open spec fn clone_of<P: Clone>(original: Option<P>, copy: Option<P>) -> bool {
    match original {
        Some(p) => copy matches Some(q) && cloned::<P>(p, q),
        None => copy is None,
    }
}

impl<P: Clone> LoadAction<P> {
    /// Whether this asks for `request`, with what the session and the task hold.
    pub open spec fn asks(
        self,
        request: LoadRequest,
        config: ConfigView,
        cache_dir: Option<P>,
    ) -> bool {
        match request {
            LoadRequest::Continue => self is Continue,
            LoadRequest::Download => {
                &&& self matches LoadAction::Download { model_id, cache_dir: dir }
                &&& model_id@ == config.model_id
                &&& clone_of(cache_dir, dir)
            },
            LoadRequest::Load => {
                &&& self matches LoadAction::Load { config: c, system_prompt }
                &&& c@ == config
                &&& system_prompt@ == SYSTEM_PROMPT@
            },
            LoadRequest::Rescan => self is Rescan,
            LoadRequest::Stop => self is Stop,
        }
    }
}

/// A session, the step of a task, and what the task asks for.
pub struct LoadOutcome<M, P> {
    pub state: InferenceView<M, P>,
    pub step: LoadStep,
    pub request: LoadRequest,
}

/// What an event does to a session and to a load of `task`.
///
/// An event that the step does not wait for changes nothing.
pub open spec fn after_load_event<M, P>(
    s: InferenceView<M, P>,
    task: LoadTaskView,
    event: LoadEvent<M>,
) -> LoadOutcome<M, P> {
    let building = LoadOutcome {
        state: InferenceView {
            status: StatusView::Loading { model: task.config.display_name },
            ..s
        },
        step: LoadStep::Loading,
        request: LoadRequest::Load,
    };
    match (task.step, event) {
        (LoadStep::Checking, LoadEvent::Supported(supported)) => {
            if crate::conversation::has_weights(supported@, task.config.model_id) {
                building
            } else {
                LoadOutcome {
                    state: s,
                    step: LoadStep::Downloading,
                    request: LoadRequest::Download,
                }
            }
        },
        (
            LoadStep::Downloading,
            LoadEvent::Progress { fraction_bits, downloaded_display, total_display },
        ) => LoadOutcome {
            state: InferenceView {
                status: StatusView::Downloading {
                    fraction_bits,
                    detail: downloaded_display@ + " of "@ + total_display@,
                },
                ..s
            },
            step: LoadStep::Downloading,
            request: LoadRequest::Continue,
        },
        (LoadStep::Downloading, LoadEvent::Downloaded(Ok(_))) => building,
        (LoadStep::Downloading, LoadEvent::Downloaded(Err(error))) => LoadOutcome {
            state: InferenceView { status: StatusView::Failed(error@), ..s },
            step: LoadStep::Finished,
            request: LoadRequest::Stop,
        },
        (LoadStep::Loading, LoadEvent::Loaded(Ok(_))) => LoadOutcome {
            state: InferenceView {
                loaded: Some(task.config.model_id),
                status: StatusView::Ready { model: task.config.display_name },
                last_error: None,
                ..s
            },
            step: LoadStep::Rescanning,
            request: LoadRequest::Rescan,
        },
        (LoadStep::Loading, LoadEvent::Loaded(Err(error))) => LoadOutcome {
            state: InferenceView { status: StatusView::Failed(error@), ..s },
            step: LoadStep::Rescanning,
            request: LoadRequest::Rescan,
        },
        (LoadStep::Rescanning, LoadEvent::Scanned(scan)) => LoadOutcome {
            state: after_scan(s, scan),
            step: LoadStep::Finished,
            request: LoadRequest::Stop,
        },
        (step, _) => LoadOutcome { state: s, step, request: LoadRequest::Continue },
    }
}

/// What a completed scan does to a session.
pub open spec fn after_scan<M, P>(s: InferenceView<M, P>, scan: CacheScan<M>) -> InferenceView<
    M,
    P,
> {
    InferenceView { catalog: crate::conversation::catalog_of(scan), ..s }
}

/// How far a deletion has come.
#[derive(Clone, Copy, Debug, PartialEq, Eq, Structural)]
pub enum DeleteStep {
    /// Waiting for the engine to let go of the model.
    Unloading,
    /// Waiting for the weights to be removed.
    Deleting,
    /// Waiting for a scan of the cache.
    Rescanning,
    Finished,
}

/// One deletion of one model's weights.
pub struct DeleteTask {
    model_id: String,
    step: DeleteStep,
}

/// A [`DeleteTask`] as mathematical values.
#[verifier::ext_equal]
pub struct DeleteTaskView {
    pub model_id: Seq<char>,
    pub step: DeleteStep,
}

impl View for DeleteTask {
    type V = DeleteTaskView;

    closed spec fn view(&self) -> DeleteTaskView {
        DeleteTaskView { model_id: self.model_id@, step: self.step }
    }
}

impl DeleteTask {
    /// How far the deletion has come.
    pub fn step(&self) -> (r: DeleteStep)
        ensures
            r == self@.step,
    {
        self.step
    }
}

/// What came of the action a deletion asked for.
pub enum DeleteEvent<M> {
    /// The engine has let go of its model.
    Unloaded,
    /// The weights were removed, or not.
    Deleted(Result<(), String>),
    /// The cache was scanned.
    Scanned(CacheScan<M>),
}

/// What a deletion asks for next.
pub enum DeleteAction {
    /// Nothing new: the action asked for before is still under way.
    Continue,
    /// Take the loaded model out of memory.
    Unload,
    /// Remove the weights of this model.
    Delete(String),
    /// Scan the cache.
    Rescan,
    /// Nothing at all: the deletion is over.
    Stop,
}

/// A [`DeleteAction`] as mathematical values.
pub enum DeleteRequest {
    Continue,
    Unload,
    Delete(Seq<char>),
    Rescan,
    Stop,
}

impl View for DeleteAction {
    type V = DeleteRequest;

    open spec fn view(&self) -> DeleteRequest {
        match self {
            DeleteAction::Continue => DeleteRequest::Continue,
            DeleteAction::Unload => DeleteRequest::Unload,
            DeleteAction::Delete(id) => DeleteRequest::Delete(id@),
            DeleteAction::Rescan => DeleteRequest::Rescan,
            DeleteAction::Stop => DeleteRequest::Stop,
        }
    }
}

/// A session, the step of a task, and what the task asks for.
pub struct DeleteOutcome<M, P> {
    pub state: InferenceView<M, P>,
    pub step: DeleteStep,
    pub request: DeleteRequest,
}

/// The first step of a deletion of `id`: a model in memory is unloaded first.
pub open spec fn first_delete_step<M, P>(s: InferenceView<M, P>, id: Seq<char>) -> DeleteStep {
    if s.loaded == Some(id) {
        DeleteStep::Unloading
    } else {
        DeleteStep::Deleting
    }
}

/// What an event does to a session and to a deletion.
///
/// An event that the step does not wait for changes nothing.
pub open spec fn after_delete_event<M, P>(
    s: InferenceView<M, P>,
    task: DeleteTaskView,
    event: DeleteEvent<M>,
) -> DeleteOutcome<M, P> {
    match (task.step, event) {
        (DeleteStep::Unloading, DeleteEvent::Unloaded) => DeleteOutcome {
            state: InferenceView {
                loaded: None,
                transcript: Seq::empty(),
                status: if s.status.is_busy() {
                    s.status
                } else {
                    StatusView::Idle
                },
                ..s
            },
            step: DeleteStep::Deleting,
            request: DeleteRequest::Delete(task.model_id),
        },
        (DeleteStep::Deleting, DeleteEvent::Deleted(outcome)) => DeleteOutcome {
            state: InferenceView {
                last_error: match outcome {
                    Ok(_) => None,
                    Err(error) => Some(error@),
                },
                ..s
            },
            step: DeleteStep::Rescanning,
            request: DeleteRequest::Rescan,
        },
        (DeleteStep::Rescanning, DeleteEvent::Scanned(scan)) => DeleteOutcome {
            state: after_scan(s, scan),
            step: DeleteStep::Finished,
            request: DeleteRequest::Stop,
        },
        (step, _) => DeleteOutcome { state: s, step, request: DeleteRequest::Continue },
    }
}

/// What sending `message` does to a session.
pub open spec fn after_send<M, P>(s: InferenceView<M, P>, message: Seq<char>) -> InferenceView<
    M,
    P,
> {
    if s.accepts(message) {
        InferenceView {
            transcript: s.transcript.push(TurnView { role: ChatRole::User, text: message }),
            generating: true,
            ..s
        }
    } else {
        s
    }
}

/// The line that the conversation shows for what came of a generation.
pub open spec fn reply_text(outcome: Result<String, String>) -> Seq<char> {
    match outcome {
        Ok(text) => text@,
        Err(error) => "Inference failed: "@ + error@,
    }
}

/// What the end of a generation does to a session.
pub open spec fn after_reply<M, P>(
    s: InferenceView<M, P>,
    outcome: Result<String, String>,
) -> InferenceView<M, P> {
    InferenceView {
        transcript: s.transcript.push(
            TurnView { role: ChatRole::Assistant, text: reply_text(outcome) },
        ),
        generating: false,
        ..s
    }
}

/// What dropping the conversation asks of the engine.
#[derive(Clone, Copy, Debug, PartialEq, Eq, Structural)]
pub enum ClearAction {
    /// Forget the conversation, once, and keep the model.
    ClearHistory,
}

/// What dropping the conversation does to a session.
pub open spec fn after_clear<M, P>(s: InferenceView<M, P>) -> InferenceView<M, P> {
    InferenceView { transcript: Seq::empty(), ..s }
}

impl<M, P> Inference<M, P> {
    /// A session at launch. `stored` is what the file of the remembered choice holds, if
    /// it could be read.
    pub fn new(models: ModelTable, stored: Option<String>, cache_dir: Option<P>) -> (r: Self)
        ensures
            r@ == launch_state::<M, P>(models@, crate::text::opt_text(stored), cache_dir),
            r@.wf(),
    {
        proof {
            crate::models::default_is_loadable(&models);
        }
        let remembered: Option<String> = match stored {
            Some(contents) => {
                let id = trim(contents.as_str()).to_owned();
                if config_for(&models, id.as_str()).is_some() {
                    Some(id)
                } else {
                    None
                }
            },
            None => None,
        };
        let selected = match remembered {
            Some(id) => id,
            None => default_model_id(&models),
        };
        let r = Inference {
            models,
            status: Status::Idle,
            transcript: Vec::new(),
            generating: false,
            cache_dir,
            selected,
            loaded: None,
            catalog: Catalog::default(),
            last_error: None,
            draft: String::new(),
        };
        assert(r@ =~= launch_state::<M, P>(models@, crate::text::opt_text(stored), cache_dir));
        r
    }

    /// What the engine is doing.
    pub fn status(&self) -> (r: &Status)
        ensures
            r@ == self@.status,
    {
        &self.status
    }

    /// The visible conversation.
    pub fn transcript(&self) -> (r: &Vec<Turn>)
        ensures
            r@.map_values(|t: Turn| t@) == self@.transcript,
    {
        &self.transcript
    }

    /// What is on disk, as of the last scan.
    pub fn catalog(&self) -> (r: &Catalog<M>)
        ensures
            r@ == self@.catalog,
    {
        &self.catalog
    }

    /// The last failed management action.
    pub fn last_error(&self) -> (r: Option<String>)
        ensures
            crate::text::opt_text(r) == self@.last_error,
    {
        match &self.last_error {
            Some(error) => Some(error.clone()),
            None => None,
        }
    }

    /// Whether a reply is outstanding.
    pub fn is_generating(&self) -> (r: bool)
        ensures
            r == self@.generating,
    {
        self.generating
    }

    /// The model the user picked.
    pub fn selected_model_id(&self) -> (r: String)
        ensures
            r@ == self@.selected,
    {
        self.selected.clone()
    }

    /// The model in memory, if any.
    pub fn loaded_model_id(&self) -> (r: Option<String>)
        ensures
            crate::text::opt_text(r) == self@.loaded,
    {
        match &self.loaded {
            Some(id) => Some(id.clone()),
            None => None,
        }
    }

    /// Human-readable name of the selected model, for status copy.
    pub fn selected_model_name(&self) -> (r: String)
        ensures
            r@ == (match self@.config_of(self@.selected) {
                Some(config) => config.display_name,
                None => self@.selected,
            }),
    {
        let model_id = self.selected_model_id();
        match config_for(&self.models, model_id.as_str()) {
            Some(config) => config.display_name,
            None => model_id,
        }
    }

    /// Take over what a scan of the model cache found.
    pub fn refresh_catalog(&mut self, scan: CacheScan<M>)
        ensures
            final(self)@ == after_scan(old(self)@, scan),
    {
        self.catalog = Catalog::from_scan(scan);
    }

    /// Download the selected model if needed, then load it.
    pub fn ensure_model(&mut self, config_dir: Option<P>) -> (r: UseModel<P>)
        ensures
            final(self)@ == after_use_model(old(self)@, old(self)@.selected),
            r.answers(old(self)@, old(self)@.selected, config_dir),
            old(self)@.wf() ==> !(r is Refused),
    {
        let model_id = self.selected_model_id();
        self.use_model(model_id.as_str(), config_dir)
    }

    /// Make `model_id` the model the chat panel talks to, downloading it first if the
    /// weights are not already in the cache.
    ///
    /// Does nothing while another load is in flight.
    pub fn use_model(&mut self, model_id: &str, config_dir: Option<P>) -> (r: UseModel<P>)
        ensures
            final(self)@ == after_use_model(old(self)@, model_id@),
            r.answers(old(self)@, model_id@, config_dir),
    {
        if self.status.is_busy() {
            return UseModel::Busy;
        }
        let config = match config_for(&self.models, model_id) {
            Some(config) => config,
            None => {
                self.last_error = Some(join(model_id, " cannot be loaded."));
                return UseModel::Refused;
            },
        };
        let save = self.select(model_id, config_dir);
        if holds(&self.loaded, model_id) && self.status.is_ready() {
            self.last_error = None;
            return UseModel::Current { save };
        }
        self.status =
        Status::Downloading {
            fraction_bits: 0,
            detail: join("Preparing ", config.display_name.as_str()),
        };
        UseModel::Load { save, task: LoadTask { config, step: LoadStep::Checking } }
    }

    /// Remember `model_id` as the model to load on the next launch.
    fn select(&mut self, model_id: &str, config_dir: Option<P>) -> (r: Option<SaveChoice<P>>)
        ensures
            *final(self) == (Inference { selected: final(self).selected, ..*old(self) }),
            final(self).selected@ == model_id@,
            saves(r, config_dir, model_id@),
    {
        self.selected = model_id.to_owned();
        match selected_model_path(config_dir) {
            Some(file) => Some(SaveChoice { file, contents: model_id.to_owned() }),
            None => None,
        }
    }

    /// Start deleting `model_id`'s weights, unloading it first if it is the model in
    /// memory.
    ///
    /// Deleting the loaded model leaves the chat panel with no model rather than silently
    /// keeping one that no longer exists on disk.
    pub fn delete_model(&self, model_id: &str) -> (r: (DeleteTask, DeleteAction))
        ensures
            r.0@ == (DeleteTaskView {
                model_id: model_id@,
                step: first_delete_step(self@, model_id@),
            }),
            r.1@ == (if self@.loaded == Some(model_id@) {
                DeleteRequest::Unload
            } else {
                DeleteRequest::Delete(model_id@)
            }),
    {
        if holds(&self.loaded, model_id) {
            (
                DeleteTask { model_id: model_id.to_owned(), step: DeleteStep::Unloading },
                DeleteAction::Unload,
            )
        } else {
            (
                DeleteTask { model_id: model_id.to_owned(), step: DeleteStep::Deleting },
                DeleteAction::Delete(model_id.to_owned()),
            )
        }
    }

    /// Take a deletion one step further.
    pub fn advance_delete(&mut self, task: &mut DeleteTask, event: DeleteEvent<M>) -> (r:
        DeleteAction)
        ensures
            final(self)@ == after_delete_event(old(self)@, old(task)@, event).state,
            final(task)@ == (DeleteTaskView {
                step: after_delete_event(old(self)@, old(task)@, event).step,
                ..old(task)@
            }),
            r@ == after_delete_event(old(self)@, old(task)@, event).request,
            old(task)@.step == DeleteStep::Deleting && event is Deleted ==> {
                &&& r is Rescan
                &&& final(task)@.step == DeleteStep::Rescanning
            },
            final(task)@.step == DeleteStep::Finished && old(task)@.step != DeleteStep::Finished
                ==> event is Scanned,
    {
        match (task.step, event) {
            (DeleteStep::Unloading, DeleteEvent::Unloaded) => {
                self.loaded = None;
                self.transcript = Vec::new();
                // A load of another model that is in flight goes on, and still keeps any
                // other from starting.
                if !self.status.is_busy() {
                    self.status = Status::Idle;
                }
                task.step = DeleteStep::Deleting;
                assert(self@ =~= after_delete_event(old(self)@, old(task)@, event).state);
                DeleteAction::Delete(task.model_id.clone())
            },
            (DeleteStep::Deleting, DeleteEvent::Deleted(outcome)) => {
                self.last_error =
                match outcome {
                    Ok(_) => None,
                    Err(error) => Some(error),
                };
                task.step = DeleteStep::Rescanning;
                DeleteAction::Rescan
            },
            (DeleteStep::Rescanning, DeleteEvent::Scanned(scan)) => {
                self.refresh_catalog(scan);
                task.step = DeleteStep::Finished;
                DeleteAction::Stop
            },
            _ => DeleteAction::Continue,
        }
    }

    /// Send `message` to the model and append it to the transcript; what is returned is
    /// for the engine.
    ///
    /// Dropped silently when no model is loaded or a reply is already in flight, so the
    /// panel does not have to guard every send path; and while the engine is building a
    /// model, or when the message is blank. A model whose place another is about to take
    /// answers until the weights of that one are ready, and goes on if they never are.
    pub fn send(&mut self, message: String) -> (r: Option<String>)
        ensures
            final(self)@ == after_send(old(self)@, message@),
            r == (if old(self)@.accepts(message@) {
                Some(message)
            } else {
                None
            }),
    {
        proof {
            crate::text::trimmed_is_empty_iff_blank(message@);
        }
        if trim(message.as_str()).is_empty() || self.is_generating() {
            return None;
        }
        let served = match &self.status {
            Status::Ready { .. } => true,
            Status::Loading { .. } => false,
            _ => self.loaded.is_some(),
        };
        if !served {
            return None;
        }
        self.transcript.push(Turn { role: ChatRole::User, text: message.clone() });
        self.generating = true;
        assert(self@ =~= after_send(old(self)@, message@));
        Some(message)
    }

    /// Append what came of a generation to the transcript.
    pub fn receive_reply(&mut self, outcome: Result<String, String>)
        ensures
            final(self)@ == after_reply(old(self)@, outcome),
            final(self)@.transcript == old(self)@.transcript.push(
                TurnView {
                    role: ChatRole::Assistant,
                    text: match outcome {
                        Ok(text) => text@,
                        Err(error) => "Inference failed: "@ + error@,
                    },
                },
            ),
            !final(self)@.generating,
    {
        let text = match &outcome {
            Ok(text) => text.clone(),
            Err(error) => join("Inference failed: ", error.as_str()),
        };
        self.transcript.push(Turn { role: ChatRole::Assistant, text });
        self.generating = false;
        assert(self@ =~= after_reply(old(self)@, outcome));
    }

    /// Drop the conversation without unloading the model, which is the expensive part to
    /// rebuild. What is returned is for the engine, which keeps a history of its own.
    pub fn clear(&mut self) -> (r: ClearAction)
        ensures
            final(self)@ == after_clear(old(self)@),
            r == ClearAction::ClearHistory,
    {
        self.transcript = Vec::new();
        assert(self@ =~= after_clear(old(self)@));
        ClearAction::ClearHistory
    }
}

impl<M, P: Clone> Inference<M, P> {
    /// Take a load one step further.
    pub fn advance_load(&mut self, task: &mut LoadTask, event: LoadEvent<M>) -> (r: LoadAction<P>)
        ensures
            final(self)@ == after_load_event(old(self)@, old(task)@, event).state,
            final(task)@ == (LoadTaskView {
                step: after_load_event(old(self)@, old(task)@, event).step,
                ..old(task)@
            }),
            r.asks(
                after_load_event(old(self)@, old(task)@, event).request,
                old(task)@.config,
                old(self)@.cache_dir,
            ),
            old(task)@.step == LoadStep::Checking ==> (event matches LoadEvent::Supported(list)
                ==> if exists|i: int|
                #![trigger list@[i]]
                0 <= i < list@.len() && list@[i].model_id@ == old(task)@.config.model_id
                    && list@[i].is_downloaded {
                r is Load
            } else {
                r is Download
            }),
    {
        match (task.step, event) {
            (LoadStep::Checking, LoadEvent::Supported(supported)) => {
                // Skip the fetch when the weights are already complete: it would build the
                // model once more only to check it.
                if weights_present(&supported, &task.config.model_id) {
                    return self.build(task);
                }
                task.step = LoadStep::Downloading;
                let cache_dir = match &self.cache_dir {
                    Some(dir) => Some(dir.clone()),
                    None => None,
                };
                LoadAction::Download { model_id: task.config.model_id.clone(), cache_dir }
            },
            (
                LoadStep::Downloading,
                LoadEvent::Progress { fraction_bits, downloaded_display, total_display },
            ) => {
                let of = join(downloaded_display.as_str(), " of ");
                let detail = join(of.as_str(), total_display.as_str());
                self.status = Status::Downloading { fraction_bits, detail };
                LoadAction::Continue
            },
            (LoadStep::Downloading, LoadEvent::Downloaded(outcome)) => match outcome {
                Ok(_) => self.build(task),
                Err(error) => {
                    self.status = Status::Failed(error);
                    task.step = LoadStep::Finished;
                    LoadAction::Stop
                },
            },
            (LoadStep::Loading, LoadEvent::Loaded(outcome)) => {
                match outcome {
                    Ok(_) => {
                        self.loaded = Some(task.config.model_id.clone());
                        self.last_error = None;
                        self.status = Status::Ready { model: task.config.display_name.clone() };
                    },
                    Err(error) => {
                        self.status = Status::Failed(error);
                    },
                }
                // The download changed what is on disk, and a load says nothing about the
                // rest of the cache, so rescan either way.
                task.step = LoadStep::Rescanning;
                LoadAction::Rescan
            },
            (LoadStep::Rescanning, LoadEvent::Scanned(scan)) => {
                self.refresh_catalog(scan);
                task.step = LoadStep::Finished;
                LoadAction::Stop
            },
            _ => LoadAction::Continue,
        }
    }

    /// Go on to building the model, now that its weights are local.
    fn build(&mut self, task: &mut LoadTask) -> (r: LoadAction<P>)
        ensures
            final(self)@ == (InferenceView {
                status: StatusView::Loading { model: old(task)@.config.display_name },
                ..old(self)@
            }),
            final(task)@ == (LoadTaskView { step: LoadStep::Loading, ..old(task)@ }),
            r.asks(LoadRequest::Load, old(task)@.config, old(self)@.cache_dir),
    {
        self.status = Status::Loading { model: task.config.display_name.clone() };
        task.step = LoadStep::Loading;
        LoadAction::Load { config: task.config.copy(), system_prompt: SYSTEM_PROMPT.to_owned() }
    }
}

/// What is shown of a session and of its tasks is all there is to them.
proof fn session_views_show_everything<M, P>(
    session: Inference<M, P>,
    load: LoadTask,
    deletion: DeleteTask,
    i: int,
)
    ensures
        session@.models == session.models@,
        session@.status == session.status@,
        session@.transcript.len() == session.transcript@.len(),
        0 <= i < session.transcript@.len() ==> session@.transcript[i] == session.transcript@[i]@,
        session@.generating == session.generating,
        session@.cache_dir == session.cache_dir,
        session@.selected == session.selected@,
        session.loaded matches Some(id) ==> session@.loaded == Some(id@),
        session.loaded is None ==> session@.loaded is None,
        session@.catalog == session.catalog@,
        session.last_error matches Some(error) ==> session@.last_error == Some(error@),
        session.last_error is None ==> session@.last_error is None,
        session@.draft == session.draft@,
        load@.config == load.config@,
        load@.step == load.step,
        deletion@.model_id == deletion.model_id@,
        deletion@.step == deletion.step,
{
}

} // verus!
