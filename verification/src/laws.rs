//! What holds of a chat session whatever is done with it, and in whatever order.

use vstd::prelude::*;

use crate::conversation::{CacheScan, ChatRole, StatusView, SupportedModel, TurnView};
use crate::inference::{
    DeleteEvent, DeleteStep, DeleteTaskView, InferenceView, LoadEvent, LoadRequest, LoadStep,
    LoadTaskView, UseModel,
};
use crate::models::{ConfigView, ModelTable};

verus! {

/// One thing that can happen to a session.
///
/// Loads and deletions report back while anything else goes on, so a report carries the
/// task it belongs to.
pub enum Happening<M> {
    Use(Seq<char>),
    Load(LoadTaskView, LoadEvent<M>),
    Delete(DeleteTaskView, DeleteEvent<M>),
    Send(Seq<char>),
    Reply(Result<String, String>),
    Clear,
    Scan(CacheScan<M>),
}

/// A session after one thing happened to it.
pub open spec fn after<M, P>(s: InferenceView<M, P>, h: Happening<M>) -> InferenceView<M, P> {
    match h {
        Happening::Use(id) => crate::inference::after_use_model(s, id),
        Happening::Load(task, event) => crate::inference::after_load_event(s, task, event).state,
        Happening::Delete(task, event) => crate::inference::after_delete_event(
            s,
            task,
            event,
        ).state,
        Happening::Send(message) => crate::inference::after_send(s, message),
        Happening::Reply(outcome) => crate::inference::after_reply(s, outcome),
        Happening::Clear => crate::inference::after_clear(s),
        Happening::Scan(scan) => crate::inference::after_scan(s, scan),
    }
}

/// A session after a whole history.
pub open spec fn after_all<M, P>(
    s: InferenceView<M, P>,
    history: Seq<Happening<M>>,
) -> InferenceView<M, P>
    decreases history.len(),
{
    if history.len() == 0 {
        s
    } else {
        after(after_all(s, history.drop_last()), history.last())
    }
}

/// From launch on, whatever happens, the picked model is one that can be loaded.
pub proof fn picked_model_is_always_loadable<M, P>(
    models: &ModelTable,
    stored: Option<Seq<char>>,
    cache_dir: Option<P>,
    history: Seq<Happening<M>>,
)
    ensures
        after_all(
            crate::inference::launch_state::<M, P>(models@, stored, cache_dir),
            history,
        ).wf(),
{
    crate::models::default_is_loadable(models);
    invariant_is_kept(
        crate::inference::launch_state::<M, P>(models@, stored, cache_dir),
        history,
    );
}

/// Whatever happens to a session keeps its invariant.
pub proof fn invariant_is_kept<M, P>(s: InferenceView<M, P>, history: Seq<Happening<M>>)
    requires
        s.wf(),
    ensures
        after_all(s, history).wf(),
    decreases history.len(),
{
    if history.len() > 0 {
        invariant_is_kept(s, history.drop_last());
    }
}

/// Whatever happens, the models on offer, the cache directory and the draft stay, and a
/// catalog that was scanned once stays scanned.
pub proof fn session_keeps_its_frame<M, P>(s: InferenceView<M, P>, history: Seq<Happening<M>>)
    ensures
        after_all(s, history).models == s.models,
        after_all(s, history).cache_dir == s.cache_dir,
        after_all(s, history).draft == s.draft,
        s.catalog.scanned ==> after_all(s, history).catalog.scanned,
    decreases history.len(),
{
    if history.len() > 0 {
        session_keeps_its_frame(s, history.drop_last());
    }
}

/// The model in memory changes in two ways only: a load that succeeded puts its model
/// there and makes the session ready, and an unload takes it away. In particular, picking
/// another model leaves the previous one in memory.
pub proof fn loaded_model_changes_by_load_or_unload<M, P>(
    s: InferenceView<M, P>,
    h: Happening<M>,
)
    ensures
        after(s, h).loaded != s.loaded ==> {
            ||| {
                &&& h matches Happening::Load(task, LoadEvent::Loaded(Ok(_)))
                &&& task.step == LoadStep::Loading
                &&& after(s, h).loaded == Some(task.config.model_id)
                &&& after(s, h).status == (StatusView::Ready { model: task.config.display_name })
            }
            ||| {
                &&& h matches Happening::Delete(task, DeleteEvent::Unloaded)
                &&& task.step == DeleteStep::Unloading
                &&& after(s, h).loaded is None
                &&& after(s, h).transcript.len() == 0
                &&& !after(s, h).is_served()
            }
        },
{
}

/// Whether some model on offer loads as `model_id`.
pub open spec fn on_offer<M, P>(s: InferenceView<M, P>, model_id: Seq<char>) -> bool {
    exists|i: int| 0 <= i < s.models.len() && (#[trigger] s.models[i]).model_id == model_id
}

/// What picking a model starts to load is on offer.
pub proof fn started_load_is_on_offer<M, P>(
    s: InferenceView<M, P>,
    id: Seq<char>,
    config_dir: Option<P>,
    r: UseModel<P>,
)
    requires
        r.answers(s, id, config_dir),
    ensures
        r matches UseModel::Load { task, .. } ==> on_offer(s, task@.config.model_id),
{
    crate::models::find_row_is_first(s.models, id, 0);
    match crate::models::find_row(s.models, id, 0) {
        Some(i) => {
            assert(s.models[i as int].catalog_id == id);
        },
        None => {},
    }
}

/// Where every load is of a model on offer, so is the model in memory, whatever happens.
pub proof fn loaded_model_is_on_offer<M, P>(s: InferenceView<M, P>, history: Seq<Happening<M>>)
    requires
        s.loaded matches Some(id) ==> on_offer(s, id),
        forall|i: int|
            0 <= i < history.len() ==> ((#[trigger] history[i]) matches Happening::Load(task, _)
                ==> on_offer(s, task.config.model_id)),
    ensures
        after_all(s, history).loaded matches Some(id) ==> on_offer(s, id),
    decreases history.len(),
{
    if history.len() > 0 {
        let before = history.drop_last();
        assert forall|i: int| 0 <= i < before.len() implies ((#[trigger] before[i]) matches
            Happening::Load(task, _) ==> on_offer(s, task.config.model_id)) by {
            assert(before[i] == history[i]);
        }
        loaded_model_is_on_offer(s, before);
        assert(history.last() == history[history.len() - 1]);
    }
}

/// A session is never ready and busy at once.
pub proof fn ready_and_busy_exclude_each_other(status: StatusView)
    ensures
        !(status.is_ready() && status.is_busy()),
{
}

/// While a load is in flight, picking a model does nothing. Sending does nothing either,
/// once the engine is building the model, or where there is no model in memory.
pub proof fn busy_session_ignores_requests<M, P>(
    s: InferenceView<M, P>,
    id: Seq<char>,
    message: Seq<char>,
)
    requires
        s.status.is_busy(),
    ensures
        crate::inference::after_use_model(s, id) == s,
        s.status is Loading || s.loaded is None ==> crate::inference::after_send(s, message) == s,
{
}

/// Whether picking `id` starts a load.
pub open spec fn starts_load<M, P>(s: InferenceView<M, P>, id: Seq<char>) -> bool {
    !s.status.is_busy() && s.config_of(id) is Some && !s.is_current(id)
}

/// A pick starts a load exactly when none is in flight and the model can be loaded but is
/// not answering already.
pub proof fn pick_starts_a_load_unless_busy_or_current<M, P>(
    s: InferenceView<M, P>,
    id: Seq<char>,
    config_dir: Option<P>,
    r: UseModel<P>,
)
    requires
        r.answers(s, id, config_dir),
    ensures
        r is Load <==> starts_load(s, id),
{
}

/// Picking a model that still has to be downloaded leaves the previous one serving the
/// chat panel until the new weights are ready: a session with a model in memory answers
/// through the check of the cache and every report of the download, and after a download
/// or a load that failed; only while the engine is building the new model it does not. The
/// previous model stays in memory until the new one has taken its place.
pub proof fn previous_model_serves_until_weights_are_ready<M, P>(
    s: InferenceView<M, P>,
    id: Seq<char>,
    message: Seq<char>,
    events: Seq<LoadEvent<M>>,
)
    requires
        starts_load(s, id),
        s.loaded is Some,
        !s.generating,
        !crate::text::is_blank(message),
    ensures
        ({
            let (now, task) = run_load(
                crate::inference::after_use_model(s, id),
                LoadTaskView { config: s.config_of(id)->0, step: LoadStep::Checking },
                events,
            );
            &&& task.step != LoadStep::Loading ==> now.accepts(message)
            &&& !now.status.is_ready() ==> now.loaded == s.loaded
            &&& now.loaded is Some
            &&& !now.generating
        }),
    decreases events.len(),
{
    load_ends_ready_or_failed(s, id, s.config_of(id)->0, events);
    if events.len() > 0 {
        load_ends_ready_or_failed(s, id, s.config_of(id)->0, events.drop_last());
        previous_model_serves_until_weights_are_ready(s, id, message, events.drop_last());
    }
}

/// A session with a model in memory accepts any message that is not blank, unless a reply
/// is in flight or the engine is building a model.
pub proof fn loaded_model_answers<M, P>(s: InferenceView<M, P>, message: Seq<char>)
    requires
        s.loaded is Some,
        !s.generating,
        !(s.status is Loading),
        !crate::text::is_blank(message),
    ensures
        s.accepts(message),
{
}

/// A model that cannot be loaded is never fetched: picking it starts no load, and leaves
/// the choice as it was.
pub proof fn unloadable_model_is_never_fetched<M, P>(
    s: InferenceView<M, P>,
    id: Seq<char>,
    config_dir: Option<P>,
    r: UseModel<P>,
)
    requires
        s.config_of(id) is None,
        r.answers(s, id, config_dir),
    ensures
        !(r is Load),
        !(r is Current),
        crate::inference::after_use_model(s, id).selected == s.selected,
        crate::inference::after_use_model(s, id).status == s.status,
        !s.status.is_busy() ==> crate::inference::after_use_model(s, id).last_error == Some(
            id + " cannot be loaded."@,
        ),
{
}

/// A choice that was written to disk is the one picked at the next launch, for an
/// identifier without white space at its ends.
pub proof fn choice_survives_relaunch<M, P>(
    s: InferenceView<M, P>,
    id: Seq<char>,
    config_dir: P,
    r: UseModel<P>,
)
    requires
        r.answers(s, id, Some(config_dir)),
        r is Current || r is Load,
        crate::text::trimmed(id) == id,
    ensures
        crate::inference::after_use_model(s, id).selected == id,
        (match r {
            UseModel::Current { save } => save,
            UseModel::Load { save, .. } => save,
            _ => None,
        }) matches Some(save) && crate::inference::launch_selection(
            s.models,
            Some(save.contents@),
        ) == id,
{
}

/// A load and the session it belongs to, after some events.
pub open spec fn run_load<M, P>(
    s: InferenceView<M, P>,
    task: LoadTaskView,
    events: Seq<LoadEvent<M>>,
) -> (InferenceView<M, P>, LoadTaskView)
    decreases events.len(),
{
    if events.len() == 0 {
        (s, task)
    } else {
        let (s1, t1) = run_load(s, task, events.drop_last());
        let next = crate::inference::after_load_event(s1, t1, events.last());
        (next.state, LoadTaskView { step: next.step, ..t1 })
    }
}

/// What the status says at each step of a load that nothing else interferes with.
pub open spec fn status_fits<M, P>(s: InferenceView<M, P>, task: LoadTaskView) -> bool {
    match task.step {
        LoadStep::Checking | LoadStep::Downloading => s.status is Downloading,
        LoadStep::Loading => s.status == (StatusView::Loading {
            model: task.config.display_name,
        }),
        LoadStep::Rescanning | LoadStep::Finished => {
            ||| s.status is Failed
            ||| {
                &&& s.status == (StatusView::Ready { model: task.config.display_name })
                &&& s.loaded == Some(task.config.model_id)
            }
        },
    }
}

/// A load keeps the session busy until it ends ready, with its model in memory, or
/// failed; whatever it hears on the way. Only a load that succeeded clears the last
/// management error.
pub proof fn load_ends_ready_or_failed<M, P>(
    s: InferenceView<M, P>,
    id: Seq<char>,
    config: ConfigView,
    events: Seq<LoadEvent<M>>,
)
    requires
        !s.status.is_busy(),
        !s.is_current(id),
        s.config_of(id) == Some(config),
    ensures
        ({
            let (end, task) = run_load(
                crate::inference::after_use_model(s, id),
                LoadTaskView { config, step: LoadStep::Checking },
                events,
            );
            &&& task.config == config
            &&& status_fits(end, task)
            &&& end.selected == id
            &&& end.last_error == (if end.status.is_ready() {
                None
            } else {
                s.last_error
            })
            &&& end.transcript == s.transcript
        }),
    decreases events.len(),
{
    if events.len() > 0 {
        load_ends_ready_or_failed(s, id, config, events.drop_last());
    }
}

/// Whether a load has not come to its end yet, but for the scan.
pub open spec fn in_flight(task: LoadTaskView) -> bool {
    task.step == LoadStep::Checking || task.step == LoadStep::Downloading || task.step
        == LoadStep::Loading
}

/// Whether `config` is what some identifier finds.
pub open spec fn is_listed<M, P>(s: InferenceView<M, P>, config: ConfigView) -> bool {
    exists|id: Seq<char>| #[trigger] s.config_of(id) == Some(config)
}

/// Whether a ready session has the model it names in memory.
pub open spec fn ready_fits<M, P>(s: InferenceView<M, P>) -> bool {
    s.status matches StatusView::Ready { model } ==> exists|id: Seq<char>|
        (#[trigger] s.config_of(id)) matches Some(config) && config.display_name == model
            && s.loaded == Some(config.model_id)
}

/// Where every load is of a listed configuration, a ready session names the model that is
/// in memory, whatever happens.
pub proof fn ready_names_the_loaded_model<M, P>(
    s: InferenceView<M, P>,
    history: Seq<Happening<M>>,
)
    requires
        ready_fits(s),
        forall|i: int|
            0 <= i < history.len() ==> ((#[trigger] history[i]) matches Happening::Load(task, _)
                ==> is_listed(s, task.config)),
    ensures
        ready_fits(after_all(s, history)),
    decreases history.len(),
{
    if history.len() > 0 {
        let before = history.drop_last();
        assert forall|i: int| 0 <= i < before.len() implies ((#[trigger] before[i]) matches
            Happening::Load(task, _) ==> is_listed(s, task.config)) by {
            assert(before[i] == history[i]);
        }
        ready_names_the_loaded_model(s, before);
        session_keeps_its_frame(s, before);
        assert(history.last() == history[history.len() - 1]);
        let s1 = after_all(s, before);
        match history.last() {
            Happening::Load(task, _) => {
                let id = choose|id: Seq<char>| #[trigger] s.config_of(id) == Some(task.config);
                assert(s1.config_of(id) == Some(task.config));
            },
            _ => {},
        }
        ready_fits_after(s1, history.last());
    }
}

/// One thing that happens keeps [`ready_fits`].
proof fn ready_fits_after<M, P>(s: InferenceView<M, P>, h: Happening<M>)
    requires
        ready_fits(s),
        h matches Happening::Load(task, _) ==> is_listed(s, task.config),
    ensures
        ready_fits(after(s, h)),
{
    let next = after(s, h);
    assert(forall|id: Seq<char>| #[trigger] next.config_of(id) == s.config_of(id));
    if next.status is Ready {
        if next.status == s.status && next.loaded == s.loaded {
            let id = choose|id: Seq<char>|
                (#[trigger] s.config_of(id)) matches Some(config) && config.display_name
                    == s.status->Ready_model && s.loaded == Some(config.model_id);
            assert(next.config_of(id) == s.config_of(id));
        } else {
            let config = h->Load_0.config;
            let id = choose|id: Seq<char>| #[trigger] s.config_of(id) == Some(config);
            assert(next.config_of(id) == Some(config));
        }
    }
}

/// Where configurations carry the identifiers they are offered under, the model in memory
/// of a ready session is the identifier whose name it shows.
pub proof fn ready_model_is_found_by_its_id<M, P>(s: InferenceView<M, P>)
    requires
        ready_fits(s),
        s.status is Ready,
        crate::models::ids_agree(s.models),
    ensures
        s.loaded matches Some(id) && (s.config_of(id) matches Some(config) && s.status == (
        StatusView::Ready { model: config.display_name })),
{
    let id = choose|id: Seq<char>|
        (#[trigger] s.config_of(id)) matches Some(config) && config.display_name
            == s.status->Ready_model && s.loaded == Some(config.model_id);
    crate::models::configuration_carries_its_id(s.models, id, id);
}

/// A session and every load that was ever started in it.
pub struct Shell<M, P> {
    pub session: InferenceView<M, P>,
    pub loads: Seq<LoadTaskView>,
}

/// One thing that happens in a shell: a report to one of its loads, or anything else.
pub enum ShellStep<M> {
    Report(nat, LoadEvent<M>),
    Other(Happening<M>),
}

/// A shell after one thing happened in it. Loads are started by picks alone, and reports
/// reach only loads that were started.
pub open spec fn shell_after<M, P>(w: Shell<M, P>, step: ShellStep<M>) -> Shell<M, P> {
    match step {
        ShellStep::Report(k, event) => {
            if k < w.loads.len() {
                let task = w.loads[k as int];
                let next = crate::inference::after_load_event(w.session, task, event);
                Shell {
                    session: next.state,
                    loads: w.loads.update(k as int, LoadTaskView { step: next.step, ..task }),
                }
            } else {
                w
            }
        },
        ShellStep::Other(Happening::Load(_, _)) => w,
        ShellStep::Other(Happening::Use(id)) => Shell {
            session: crate::inference::after_use_model(w.session, id),
            loads: if starts_load(w.session, id) {
                w.loads.push(
                    LoadTaskView { config: w.session.config_of(id)->0, step: LoadStep::Checking },
                )
            } else {
                w.loads
            },
        },
        ShellStep::Other(h) => Shell { session: after(w.session, h), ..w },
    }
}

/// A shell after a whole history.
pub open spec fn shell_after_all<M, P>(w: Shell<M, P>, history: Seq<ShellStep<M>>) -> Shell<M, P>
    decreases history.len(),
{
    if history.len() == 0 {
        w
    } else {
        shell_after(shell_after_all(w, history.drop_last()), history.last())
    }
}

/// A shell at launch.
pub open spec fn launch_shell<M, P>(
    models: &ModelTable,
    stored: Option<Seq<char>>,
    cache_dir: Option<P>,
) -> Shell<M, P> {
    Shell {
        session: crate::inference::launch_state(models@, stored, cache_dir),
        loads: Seq::empty(),
    }
}

/// What holds in every shell: a load in flight is the only one and the status tells of
/// it, every load is of a listed configuration, and a ready session has the model it
/// names in memory.
pub open spec fn shell_wf<M, P>(w: Shell<M, P>) -> bool {
    &&& forall|k: int|
        0 <= k < w.loads.len() && in_flight(#[trigger] w.loads[k]) ==> status_fits(
            w.session,
            w.loads[k],
        )
    &&& forall|j: int, k: int|
        0 <= j < w.loads.len() && 0 <= k < w.loads.len() && in_flight(#[trigger] w.loads[j])
            && in_flight(#[trigger] w.loads[k]) ==> j == k
    &&& forall|k: int|
        0 <= k < w.loads.len() ==> is_listed(w.session, (#[trigger] w.loads[k]).config)
    &&& ready_fits(w.session)
}

/// One thing that happens in a shell keeps [`shell_wf`].
proof fn shell_wf_after<M, P>(w: Shell<M, P>, step: ShellStep<M>)
    requires
        shell_wf(w),
    ensures
        shell_wf(shell_after(w, step)),
        shell_after(w, step).session.models == w.session.models,
{
    let next = shell_after(w, step);
    match step {
        ShellStep::Report(k, event) => {
            if k < w.loads.len() {
                ready_fits_after(w.session, Happening::Load(w.loads[k as int], event));
            }
        },
        ShellStep::Other(Happening::Load(_, _)) => {},
        ShellStep::Other(h) => {
            ready_fits_after(w.session, h);
        },
    }
    assert(next.session.models == w.session.models);
    assert(forall|id: Seq<char>| #[trigger]
        next.session.config_of(id) == w.session.config_of(id));
    assert forall|k: int| 0 <= k < next.loads.len() implies is_listed(
        next.session,
        (#[trigger] next.loads[k]).config,
    ) by {
        let id = if k < w.loads.len() {
            assert(is_listed(w.session, w.loads[k].config));
            choose|id: Seq<char>| #[trigger] w.session.config_of(id) == Some(w.loads[k].config)
        } else {
            step->Other_0->Use_0
        };
        assert(next.session.config_of(id) == Some(next.loads[k].config));
    }
    assert forall|j: int, k: int|
        0 <= j < next.loads.len() && 0 <= k < next.loads.len() && in_flight(
            #[trigger] next.loads[j],
        ) && in_flight(#[trigger] next.loads[k]) implies j == k by {
        if j < w.loads.len() {
            assert(in_flight(w.loads[j]));
        }
        if k < w.loads.len() {
            assert(in_flight(w.loads[k]));
        }
    }
    assert forall|k: int| 0 <= k < next.loads.len() && in_flight(#[trigger] next.loads[k]) implies
        status_fits(next.session, next.loads[k]) by {
        if k < w.loads.len() {
            assert(in_flight(w.loads[k]));
            assert(status_fits(w.session, w.loads[k]));
            if step is Report && step->Report_0 < w.loads.len() && step->Report_0 != k {
                assert(!in_flight(w.loads[step->Report_0 as int]));
            }
        }
    }
}

/// Whatever happens in a shell keeps [`shell_wf`].
proof fn shell_wf_is_kept<M, P>(w: Shell<M, P>, history: Seq<ShellStep<M>>)
    requires
        shell_wf(w),
    ensures
        shell_wf(shell_after_all(w, history)),
    decreases history.len(),
{
    if history.len() > 0 {
        shell_wf_is_kept(w, history.drop_last());
        shell_wf_after(shell_after_all(w, history.drop_last()), history.last());
    }
}

/// From launch on, whatever is picked, deleted, sent and reported, and in whatever order,
/// a load in flight is the only one: the session is busy, and no pick does anything.
pub proof fn load_in_flight_is_alone<M, P>(
    models: &ModelTable,
    stored: Option<Seq<char>>,
    cache_dir: Option<P>,
    history: Seq<ShellStep<M>>,
    id: Seq<char>,
)
    ensures
        ({
            let w = shell_after_all(launch_shell::<M, P>(models, stored, cache_dir), history);
            &&& forall|j: int, k: int|
                0 <= j < w.loads.len() && 0 <= k < w.loads.len() && in_flight(
                    #[trigger] w.loads[j],
                ) && in_flight(#[trigger] w.loads[k]) ==> j == k
            &&& forall|k: int|
                0 <= k < w.loads.len() && in_flight(#[trigger] w.loads[k]) ==> {
                    &&& status_fits(w.session, w.loads[k])
                    &&& w.session.status.is_busy()
                    &&& shell_after(w, ShellStep::Other(Happening::Use(id))) == w
                }
        }),
{
    shell_wf_is_kept(launch_shell::<M, P>(models, stored, cache_dir), history);
}

/// From launch on, whatever is picked, deleted, sent and reported, and in whatever order,
/// a ready session has the model it names in memory.
pub proof fn ready_names_the_loaded_model_from_launch<M, P>(
    models: &ModelTable,
    stored: Option<Seq<char>>,
    cache_dir: Option<P>,
    history: Seq<ShellStep<M>>,
)
    ensures
        ready_fits(
            shell_after_all(launch_shell::<M, P>(models, stored, cache_dir), history).session,
        ),
{
    shell_wf_is_kept(launch_shell::<M, P>(models, stored, cache_dir), history);
}

/// Weights are fetched only after the cache was found to lack them.
pub proof fn only_missing_weights_are_fetched<M, P>(
    s: InferenceView<M, P>,
    task: LoadTaskView,
    event: LoadEvent<M>,
)
    ensures
        crate::inference::after_load_event(s, task, event).request == LoadRequest::Download ==> {
            &&& task.step == LoadStep::Checking
            &&& event matches LoadEvent::Supported(supported)
            &&& !crate::conversation::has_weights(supported@, task.config.model_id)
        },
{
}

/// A model whose weights are on disk goes straight to being built; once the engine has
/// built it and the cache was scanned it is ready, in memory, and the catalog is fresh.
pub proof fn cached_model_becomes_ready<M, P>(
    s: InferenceView<M, P>,
    config: ConfigView,
    supported: Vec<SupportedModel>,
    scan: CacheScan<M>,
)
    requires
        crate::conversation::has_weights(supported@, config.model_id),
    ensures
        run_load(
            s,
            LoadTaskView { config, step: LoadStep::Checking },
            seq![
                LoadEvent::Supported(supported),
                LoadEvent::Loaded(Ok(())),
                LoadEvent::Scanned(scan),
            ],
        ) == (
            InferenceView {
                status: StatusView::Ready { model: config.display_name },
                loaded: Some(config.model_id),
                catalog: crate::conversation::catalog_of(scan),
                last_error: None,
                ..s
            },
            LoadTaskView { config, step: LoadStep::Finished },
        ),
{
    let start = LoadTaskView { config, step: LoadStep::Checking };
    let e0: LoadEvent<M> = LoadEvent::Supported(supported);
    let e1: LoadEvent<M> = LoadEvent::Loaded(Ok(()));
    let e2: LoadEvent<M> = LoadEvent::Scanned(scan);
    let events = seq![e0, e1, e2];
    assert(events.drop_last() =~= seq![e0, e1]);
    assert(seq![e0, e1].drop_last() =~= seq![e0]);
    assert(seq![e0].drop_last() =~= Seq::<LoadEvent<M>>::empty());
    reveal_with_fuel(run_load, 4);
    assert(run_load(s, start, Seq::<LoadEvent<M>>::empty()) == (s, start));
}

/// A model whose weights are missing is fetched, then built, then ready, in memory and
/// with a fresh catalog.
pub proof fn missing_model_becomes_ready<M, P>(
    s: InferenceView<M, P>,
    config: ConfigView,
    supported: Vec<SupportedModel>,
    scan: CacheScan<M>,
)
    requires
        !crate::conversation::has_weights(supported@, config.model_id),
    ensures
        run_load(
            s,
            LoadTaskView { config, step: LoadStep::Checking },
            seq![
                LoadEvent::Supported(supported),
                LoadEvent::Downloaded(Ok(())),
                LoadEvent::Loaded(Ok(())),
                LoadEvent::Scanned(scan),
            ],
        ) == (
            InferenceView {
                status: StatusView::Ready { model: config.display_name },
                loaded: Some(config.model_id),
                catalog: crate::conversation::catalog_of(scan),
                last_error: None,
                ..s
            },
            LoadTaskView { config, step: LoadStep::Finished },
        ),
{
    let start = LoadTaskView { config, step: LoadStep::Checking };
    let e0: LoadEvent<M> = LoadEvent::Supported(supported);
    let e1: LoadEvent<M> = LoadEvent::Downloaded(Ok(()));
    let e2: LoadEvent<M> = LoadEvent::Loaded(Ok(()));
    let e3: LoadEvent<M> = LoadEvent::Scanned(scan);
    let events = seq![e0, e1, e2, e3];
    assert(events.drop_last() =~= seq![e0, e1, e2]);
    assert(seq![e0, e1, e2].drop_last() =~= seq![e0, e1]);
    assert(seq![e0, e1].drop_last() =~= seq![e0]);
    assert(seq![e0].drop_last() =~= Seq::<LoadEvent<M>>::empty());
    reveal_with_fuel(run_load, 5);
    assert(run_load(s, start, Seq::<LoadEvent<M>>::empty()) == (s, start));
}

/// A failed load leaves the previous model in memory and the last management error as it
/// was; the failure is told by the status.
pub proof fn failed_load_is_told_by_the_status<M, P>(
    s: InferenceView<M, P>,
    task: LoadTaskView,
    error: String,
)
    ensures
        task.step == LoadStep::Downloading ==> crate::inference::after_load_event(
            s,
            task,
            LoadEvent::<M>::Downloaded(Err(error)),
        ).state == (InferenceView { status: StatusView::Failed(error@), ..s }),
        task.step == LoadStep::Loading ==> crate::inference::after_load_event(
            s,
            task,
            LoadEvent::<M>::Loaded(Err(error)),
        ).state == (InferenceView { status: StatusView::Failed(error@), ..s }),
{
}

/// A deletion and the session it belongs to, after some events.
pub open spec fn run_delete<M, P>(
    s: InferenceView<M, P>,
    task: DeleteTaskView,
    events: Seq<DeleteEvent<M>>,
) -> (InferenceView<M, P>, DeleteTaskView)
    decreases events.len(),
{
    if events.len() == 0 {
        (s, task)
    } else {
        let (s1, t1) = run_delete(s, task, events.drop_last());
        let next = crate::inference::after_delete_event(s1, t1, events.last());
        (next.state, DeleteTaskView { step: next.step, ..t1 })
    }
}

/// Deleting the model in memory leaves no model and no conversation as soon as the engine
/// has let go of it, and an idle session, but for a load that is in flight, which goes on;
/// deleting any other model touches none of these.
/// The choice, the draft and a reply under way stay in either case.
pub proof fn deletion_unloads_only_what_it_deletes<M, P>(
    s: InferenceView<M, P>,
    id: Seq<char>,
    events: Seq<DeleteEvent<M>>,
)
    ensures
        ({
            let start = DeleteTaskView {
                model_id: id,
                step: crate::inference::first_delete_step(s, id),
            };
            let (end, task) = run_delete(s, start, events);
            &&& task.model_id == id
            &&& end.selected == s.selected
            &&& end.draft == s.draft
            &&& end.generating == s.generating
            &&& if s.loaded == Some(id) && task.step != DeleteStep::Unloading {
                &&& end.loaded is None
                &&& end.transcript.len() == 0
                &&& end.status == (if s.status.is_busy() {
                    s.status
                } else {
                    StatusView::Idle
                })
            } else {
                end.loaded == s.loaded && end.transcript == s.transcript && end.status == s.status
            }
            &&& s.loaded != Some(id) ==> task.step != DeleteStep::Unloading
        }),
    decreases events.len(),
{
    if events.len() > 0 {
        deletion_unloads_only_what_it_deletes(s, id, events.drop_last());
    }
}

/// A deletion whose weights are gone clears the last management error; one that failed
/// replaces it.
pub proof fn deletion_reports_its_outcome<M, P>(
    s: InferenceView<M, P>,
    task: DeleteTaskView,
    outcome: Result<(), String>,
)
    requires
        task.step == DeleteStep::Deleting,
    ensures
        crate::inference::after_delete_event(s, task, DeleteEvent::<M>::Deleted(outcome)).state
            == (InferenceView {
            last_error: match outcome {
                Ok(_) => None,
                Err(error) => Some(error@),
            },
            ..s
        }),
{
}

/// A message that is accepted and its reply are the two lines added to the conversation,
/// after which the next message can be sent; in between, nothing else is accepted.
pub proof fn send_and_reply_add_two_lines<M, P>(
    s: InferenceView<M, P>,
    message: Seq<char>,
    other: Seq<char>,
    outcome: Result<String, String>,
)
    requires
        s.accepts(message),
    ensures
        ({
            let asked = crate::inference::after_send(s, message);
            let answered = crate::inference::after_reply(asked, outcome);
            &&& crate::inference::after_send(asked, other) == asked
            &&& answered == (InferenceView {
                transcript: s.transcript + seq![
                    TurnView { role: ChatRole::User, text: message },
                    TurnView {
                        role: ChatRole::Assistant,
                        text: crate::inference::reply_text(outcome),
                    },
                ],
                ..s
            })
            &&& answered.accepts(other) == !crate::text::is_blank(other)
        }),
{
    let asked = crate::inference::after_send(s, message);
    let answered = crate::inference::after_reply(asked, outcome);
    assert(answered.transcript =~= s.transcript + seq![
        TurnView { role: ChatRole::User, text: message },
        TurnView { role: ChatRole::Assistant, text: crate::inference::reply_text(outcome) },
    ]);
}

/// The conversation grows a line at a time, and is emptied only by clearing it or by
/// unloading the model it was held with.
pub proof fn conversation_grows_or_is_emptied<M, P>(s: InferenceView<M, P>, h: Happening<M>)
    ensures
        ({
            let t = after(s, h).transcript;
            ||| t == s.transcript
            ||| t.len() == s.transcript.len() + 1 && t.drop_last() == s.transcript && (h is Send
                || h is Reply)
            ||| t.len() == 0 && (h is Clear || h matches Happening::Delete(
                _,
                DeleteEvent::Unloaded,
            ))
        }),
{
    let t = after(s, h).transcript;
    if t.len() == s.transcript.len() + 1 {
        assert(t.drop_last() =~= s.transcript);
    }
}

/// The last management error changes only by the outcome of a management action: a pick
/// that is refused sets it, as a failed deletion does; a deletion that succeeds, a pick of
/// the model that answers already, and a load that succeeds clear it. Load failures leave
/// it alone.
pub proof fn management_error_changes_by_outcome<M, P>(
    s: InferenceView<M, P>,
    h: Happening<M>,
)
    ensures
        after(s, h).last_error != s.last_error ==> {
            ||| h matches Happening::Use(id) && s.config_of(id) is None
            ||| h matches Happening::Use(id) && s.is_current(id) && after(s, h).last_error is None
            ||| h matches Happening::Load(task, LoadEvent::Loaded(Ok(_))) && task.step
                == LoadStep::Loading && after(s, h).last_error is None
            ||| h matches Happening::Delete(task, DeleteEvent::Deleted(_)) && task.step
                == DeleteStep::Deleting
        },
{
}

/// A failed management action is told until the next one succeeds: after a deletion that
/// succeeded, a pick of a loadable model that answers already, or a load that succeeded,
/// there is no management error.
pub proof fn success_clears_the_management_error<M, P>(s: InferenceView<M, P>, h: Happening<M>)
    requires
        ({
            ||| h matches Happening::Use(id) && s.config_of(id) is Some && s.is_current(id)
            ||| h matches Happening::Load(task, LoadEvent::Loaded(Ok(_))) && task.step
                == LoadStep::Loading
            ||| h matches Happening::Delete(task, DeleteEvent::Deleted(Ok(_))) && task.step
                == DeleteStep::Deleting
        }),
    ensures
        after(s, h).last_error is None,
{
}

/// Clearing empties the conversation and keeps the model.
pub proof fn clearing_keeps_the_model<M, P>(s: InferenceView<M, P>)
    ensures
        crate::inference::after_clear(s).transcript.len() == 0,
        crate::inference::after_clear(s).loaded == s.loaded,
        crate::inference::after_clear(s).status == s.status,
{
}

} // verus!
