//! What each thing that can happen to a chat session comes to, said of what goes in and
//! what comes out.

use vstd::prelude::*;

use crate::conversation::{CacheScan, CatalogView, ChatRole, StatusView, SupportedModel, TurnView};
use crate::inference::{
    DeleteAction, DeleteEvent, DeleteRequest, DeleteStep, DeleteTaskView,
    InferenceView, LoadAction, LoadEvent, LoadRequest, LoadStep, LoadTaskView, UseModel,
};
use crate::laws::{run_delete, run_load};
use crate::models::{ConfigView, ModelTable, RowView};
use crate::storage::SaveChoice;

verus! {

/// Whether row `i` is the first that offers `id`.
pub open spec fn offers(rows: Seq<RowView>, id: Seq<char>, i: int) -> bool {
    &&& 0 <= i < rows.len()
    &&& rows[i].catalog_id == id
    &&& forall|j: int| 0 <= j < i ==> (#[trigger] rows[j]).catalog_id != id
}

/// Whether no row offers `id`.
pub open spec fn offers_none(rows: Seq<RowView>, id: Seq<char>) -> bool {
    forall|j: int| 0 <= j < rows.len() ==> (#[trigger] rows[j]).catalog_id != id
}

/// Where a row offers an identifier, the first that does gives its configuration.
proof fn offered_config<M, P>(s: InferenceView<M, P>, id: Seq<char>, i: int)
    requires
        offers(s.models, id, i),
    ensures
        s.config_of(id) matches Some(config) && config.model_id == s.models[i].model_id
            && config.display_name == s.models[i].display_name && config.preset
            == crate::models::preset_at(i),
{
    crate::models::find_row_is_first(s.models, id, 0);
    let found = crate::models::find_row(s.models, id, 0);
    assert(s.models[i].catalog_id == id);
    assert(found is Some);
    assert(found->0 as int == i);
}

/// Where no row offers an identifier, it has no configuration.
proof fn not_offered_config<M, P>(s: InferenceView<M, P>, id: Seq<char>)
    requires
        offers_none(s.models, id),
    ensures
        s.config_of(id) is None,
{
    crate::models::find_row_is_first(s.models, id, 0);
}

/// A session looks identifiers up in its own table: it finds the preset, the identifier
/// and the name of the first row that offers one, and nothing where no row does.
pub proof fn session_looks_up_its_own_table<M, P>(s: InferenceView<M, P>, id: Seq<char>, i: int)
    ensures
        offers(s.models, id, i) ==> s.config_of(id) == Some(
            ConfigView {
                preset: crate::models::preset_at(i),
                model_id: s.models[i].model_id,
                display_name: s.models[i].display_name,
            },
        ),
        offers_none(s.models, id) ==> s.config_of(id) is None,
        offers(s.models, s.selected, i) ==> s.wf(),
        offers_none(s.models, s.selected) ==> !s.wf(),
{
    if offers(s.models, id, i) {
        offered_config(s, id, i);
    }
    if offers_none(s.models, id) {
        not_offered_config(s, id);
    }
    if offers(s.models, s.selected, i) {
        offered_config(s, s.selected, i);
    }
    if offers_none(s.models, s.selected) {
        not_offered_config(s, s.selected);
    }
}

/// A session starts idle and empty, with nothing loaded and nothing scanned, over the
/// table and the directory it was given.
pub proof fn launch_is_idle_and_empty<M, P>(
    rows: Seq<RowView>,
    stored: Option<Seq<char>>,
    cache_dir: Option<P>,
)
    ensures
        ({
            let s = crate::inference::launch_state::<M, P>(rows, stored, cache_dir);
            &&& s.models == rows
            &&& s.status == StatusView::Idle
            &&& s.transcript.len() == 0
            &&& !s.generating
            &&& s.cache_dir == cache_dir
            &&& s.loaded is None
            &&& s.last_error is None
            &&& s.draft.len() == 0
            &&& s.catalog.models.len() == 0
            &&& s.catalog.cache_path.len() == 0
            &&& s.catalog.total_size_display.len() == 0
            &&& !s.catalog.scanned
        }),
{
}

/// At launch the remembered identifier is picked if, without the white space around it,
/// some row offers it; otherwise the default is, as it is where nothing is remembered.
pub proof fn launch_picks_what_is_remembered<M, P>(
    models: &ModelTable,
    before: Seq<char>,
    id: Seq<char>,
    behind: Seq<char>,
    cache_dir: Option<P>,
    i: int,
)
    requires
        crate::text::is_blank(before),
        crate::text::is_blank(behind),
        id.len() > 0 ==> !crate::text::is_white_space(id.first())
            && !crate::text::is_white_space(id.last()),
    ensures
        offers(models@, id, i) ==> crate::inference::launch_state::<M, P>(
            models@,
            Some(before + id + behind),
            cache_dir,
        ).selected == id,
        offers_none(models@, id) ==> crate::inference::launch_state::<M, P>(
            models@,
            Some(before + id + behind),
            cache_dir,
        ).selected == models.qwen3_4b_instruct_2507.catalog_id@,
        crate::inference::launch_state::<M, P>(models@, None, cache_dir).selected
            == models.qwen3_4b_instruct_2507.catalog_id@,
{
    crate::text::trimming_strips_both_ends(before, id, behind);
    crate::models::find_row_is_first(models@, id, 0);
    crate::models::default_is_the_instruct_model(models);
    if offers(models@, id, i) {
        assert(models@[i].catalog_id == id);
    }
}

/// A pick while weights are fetched or a model is built changes nothing and is answered
/// so.
pub proof fn pick_while_busy<M, P>(
    s: InferenceView<M, P>,
    id: Seq<char>,
    config_dir: Option<P>,
    r: UseModel<P>,
)
    requires
        s.status is Downloading || s.status is Loading,
    ensures
        crate::inference::after_use_model(s, id) == s,
        r.answers(s, id, config_dir) <==> r is Busy,
{
}

/// A pick of what no row offers is refused, and changes nothing but the last error, which
/// names it.
pub proof fn pick_of_unlisted_model<M, P>(
    s: InferenceView<M, P>,
    id: Seq<char>,
    config_dir: Option<P>,
    r: UseModel<P>,
)
    requires
        !(s.status is Downloading),
        !(s.status is Loading),
        offers_none(s.models, id),
    ensures
        crate::inference::after_use_model(s, id) == (InferenceView {
            last_error: Some(id + " cannot be loaded."@),
            ..s
        }),
        r.answers(s, id, config_dir) <==> r is Refused,
{
    not_offered_config(s, id);
}

/// Whether the choice of `id` is written to the file `selected-model` in the configuration
/// directory, or to nothing where there is no such directory.
pub open spec fn writes_choice<P>(
    save: Option<SaveChoice<P>>,
    config_dir: Option<P>,
    id: Seq<char>,
) -> bool {
    match config_dir {
        Some(directory) => {
            &&& save matches Some(choice)
            &&& choice.file.directory == directory
            &&& choice.file.name@ == "selected-model"@
            &&& choice.contents@ == id
        },
        None => save is None,
    }
}

/// A choice is saved exactly as [`writes_choice`] says.
pub proof fn choice_is_written_to_its_file<P>(
    save: Option<SaveChoice<P>>,
    config_dir: Option<P>,
    id: Seq<char>,
)
    ensures
        crate::inference::saves(save, config_dir, id) <==> writes_choice(save, config_dir, id),
{
}

/// A pick of the model that answers already is remembered, clears the last error, and
/// loads nothing.
pub proof fn pick_of_answering_model<M, P>(
    s: InferenceView<M, P>,
    id: Seq<char>,
    config_dir: Option<P>,
    r: UseModel<P>,
    i: int,
)
    requires
        s.status is Ready,
        s.loaded == Some(id),
        offers(s.models, id, i),
    ensures
        crate::inference::after_use_model(s, id) == (InferenceView {
            selected: id,
            last_error: None,
            ..s
        }),
        r.answers(s, id, config_dir) <==> (r matches UseModel::Current { save } && writes_choice(
            save,
            config_dir,
            id,
        )),
{
    offered_config(s, id, i);
}

/// A pick of any other model on offer is remembered and starts a load of what its row
/// says; the status tells that it is being prepared, with nothing done yet.
pub proof fn pick_of_another_model<M, P>(
    s: InferenceView<M, P>,
    id: Seq<char>,
    config_dir: Option<P>,
    r: UseModel<P>,
    i: int,
)
    requires
        !(s.status is Downloading),
        !(s.status is Loading),
        !(s.status is Ready && s.loaded == Some(id)),
        offers(s.models, id, i),
    ensures
        crate::inference::after_use_model(s, id) == (InferenceView {
            selected: id,
            status: StatusView::Downloading {
                fraction_bits: 0,
                detail: "Preparing "@ + s.models[i].display_name,
            },
            ..s
        }),
        r.answers(s, id, config_dir) <==> (r matches UseModel::Load { save, task }
            && writes_choice(save, config_dir, id) && task@.step == LoadStep::Checking
            && task@.config == (ConfigView {
            preset: crate::models::preset_at(i),
            model_id: s.models[i].model_id,
            display_name: s.models[i].display_name,
        })),
{
    offered_config(s, id, i);
}

/// If any entry of the supported list, wherever it stands, has the model's identifier and
/// is downloaded, the model is built next, and the status says so.
pub proof fn downloaded_entry_anywhere_skips_the_download<M, P>(
    s: InferenceView<M, P>,
    config: ConfigView,
    supported: Vec<SupportedModel>,
    i: int,
)
    requires
        0 <= i < supported@.len(),
        supported@[i].model_id@ == config.model_id,
        supported@[i].is_downloaded,
    ensures
        ({
            let next = crate::inference::after_load_event(
                s,
                LoadTaskView { config, step: LoadStep::Checking },
                LoadEvent::<M>::Supported(supported),
            );
            &&& next.request == LoadRequest::Load
            &&& next.step == LoadStep::Loading
            &&& next.state == (InferenceView {
                status: StatusView::Loading { model: config.display_name },
                ..s
            })
        }),
{
}

/// If no entry of the supported list has the model's identifier and is downloaded, its
/// weights are fetched next, and nothing else changes.
pub proof fn no_downloaded_entry_means_a_download<M, P>(
    s: InferenceView<M, P>,
    config: ConfigView,
    supported: Vec<SupportedModel>,
)
    requires
        forall|i: int|
            0 <= i < supported@.len() && (#[trigger] supported@[i]).model_id@ == config.model_id
                ==> !supported@[i].is_downloaded,
    ensures
        ({
            let next = crate::inference::after_load_event(
                s,
                LoadTaskView { config, step: LoadStep::Checking },
                LoadEvent::<M>::Supported(supported),
            );
            &&& next.request == LoadRequest::Download
            &&& next.step == LoadStep::Downloading
            &&& next.state == s
        }),
{
}

/// A report of a download is shown as it is: the fraction, and how much of how much.
pub proof fn progress_is_shown_as_reported<M, P>(
    s: InferenceView<M, P>,
    config: ConfigView,
    fraction_bits: u32,
    downloaded_display: String,
    total_display: String,
)
    ensures
        ({
            let next = crate::inference::after_load_event(
                s,
                LoadTaskView { config, step: LoadStep::Downloading },
                LoadEvent::<M>::Progress { fraction_bits, downloaded_display, total_display },
            );
            &&& next.request == LoadRequest::Continue
            &&& next.step == LoadStep::Downloading
            &&& next.state == (InferenceView {
                status: StatusView::Downloading {
                    fraction_bits,
                    detail: downloaded_display@ + " of "@ + total_display@,
                },
                ..s
            })
        }),
{
}

/// Once its weights are fetched, the model is built; if they could not be, the load is
/// over, and the status gives the error as it came.
pub proof fn download_leads_to_building_or_failure<M, P>(
    s: InferenceView<M, P>,
    config: ConfigView,
    error: String,
)
    ensures
        ({
            let task = LoadTaskView { config, step: LoadStep::Downloading };
            let done = crate::inference::after_load_event(
                s,
                task,
                LoadEvent::<M>::Downloaded(Ok(())),
            );
            let failed = crate::inference::after_load_event(
                s,
                task,
                LoadEvent::<M>::Downloaded(Err(error)),
            );
            &&& done.request == LoadRequest::Load
            &&& done.step == LoadStep::Loading
            &&& done.state == (InferenceView {
                status: StatusView::Loading { model: config.display_name },
                ..s
            })
            &&& failed.request == LoadRequest::Stop
            &&& failed.step == LoadStep::Finished
            &&& failed.state == (InferenceView { status: StatusView::Failed(error@), ..s })
        }),
{
}

/// A model that was built is the one in memory, by its own identifier, and ready under its
/// own name; if it could not be built, the status gives the error as it came. The cache is
/// scanned either way.
pub proof fn building_leads_to_a_scan<M, P>(
    s: InferenceView<M, P>,
    config: ConfigView,
    error: String,
)
    ensures
        ({
            let task = LoadTaskView { config, step: LoadStep::Loading };
            let done = crate::inference::after_load_event(
                s,
                task,
                LoadEvent::<M>::Loaded(Ok(())),
            );
            let failed = crate::inference::after_load_event(
                s,
                task,
                LoadEvent::<M>::Loaded(Err(error)),
            );
            &&& done.request == LoadRequest::Rescan
            &&& done.step == LoadStep::Rescanning
            &&& done.state == (InferenceView {
                loaded: Some(config.model_id),
                status: StatusView::Ready { model: config.display_name },
                last_error: None,
                ..s
            })
            &&& failed.request == LoadRequest::Rescan
            &&& failed.step == LoadStep::Rescanning
            &&& failed.state == (InferenceView { status: StatusView::Failed(error@), ..s })
        }),
{
}

/// Whether a session is `s` but for a catalog that holds exactly what `scan` found.
pub open spec fn shows_scan<M, P>(
    next: InferenceView<M, P>,
    s: InferenceView<M, P>,
    scan: CacheScan<M>,
) -> bool {
    next == (InferenceView {
        catalog: CatalogView {
            models: scan.models@,
            cache_path: scan.cache_path@,
            total_size_display: scan.total_size_display@,
            scanned: true,
        },
        ..s
    })
}

/// A scan is shown as it is, and ends the load or the deletion that waited for it.
pub proof fn scan_is_shown_and_ends_the_task<M, P>(
    s: InferenceView<M, P>,
    config: ConfigView,
    id: Seq<char>,
    scan: CacheScan<M>,
)
    ensures
        ({
            let load = crate::inference::after_load_event(
                s,
                LoadTaskView { config, step: LoadStep::Rescanning },
                LoadEvent::Scanned(scan),
            );
            let deletion = crate::inference::after_delete_event(
                s,
                DeleteTaskView { model_id: id, step: DeleteStep::Rescanning },
                DeleteEvent::Scanned(scan),
            );
            &&& shows_scan(crate::inference::after_scan(s, scan), s, scan)
            &&& load.request == LoadRequest::Stop
            &&& load.step == LoadStep::Finished
            &&& shows_scan(load.state, s, scan)
            &&& deletion.request == DeleteRequest::Stop
            &&& deletion.step == DeleteStep::Finished
            &&& shows_scan(deletion.state, s, scan)
        }),
{
}

/// Whether a step of a load waits for an event of this kind.
pub open spec fn load_waits_for<M>(step: LoadStep, event: LoadEvent<M>) -> bool {
    ||| step == LoadStep::Checking && event is Supported
    ||| step == LoadStep::Downloading && event is Progress
    ||| step == LoadStep::Downloading && event is Downloaded
    ||| step == LoadStep::Loading && event is Loaded
    ||| step == LoadStep::Rescanning && event is Scanned
}

/// Whether a step of a deletion waits for an event of this kind.
pub open spec fn delete_waits_for<M>(step: DeleteStep, event: DeleteEvent<M>) -> bool {
    ||| step == DeleteStep::Unloading && event is Unloaded
    ||| step == DeleteStep::Deleting && event is Deleted
    ||| step == DeleteStep::Rescanning && event is Scanned
}

/// An event that a task does not wait for changes neither the session nor the task.
pub proof fn unexpected_event_changes_nothing<M, P>(
    s: InferenceView<M, P>,
    load: LoadTaskView,
    event: LoadEvent<M>,
    deletion: DeleteTaskView,
    other: DeleteEvent<M>,
)
    ensures
        !load_waits_for(load.step, event) ==> {
            let next = crate::inference::after_load_event(s, load, event);
            &&& next.state == s
            &&& next.step == load.step
            &&& next.request == LoadRequest::Continue
        },
        !delete_waits_for(deletion.step, other) ==> {
            let next = crate::inference::after_delete_event(s, deletion, other);
            &&& next.state == s
            &&& next.step == deletion.step
            &&& next.request == DeleteRequest::Continue
        },
{
}

/// What a load asks for carries the model's own identifier, preset and name, the session's
/// own cache directory, and the system prompt.
pub proof fn load_asks_for_its_own_model<P: Clone>(
    action: LoadAction<P>,
    config: ConfigView,
    cache_dir: Option<P>,
)
    ensures
        action.asks(LoadRequest::Continue, config, cache_dir) <==> action is Continue,
        action.asks(LoadRequest::Rescan, config, cache_dir) <==> action is Rescan,
        action.asks(LoadRequest::Stop, config, cache_dir) <==> action is Stop,
        action.asks(LoadRequest::Download, config, cache_dir) <==> (action matches
            LoadAction::Download { model_id, cache_dir: dir } && model_id@ == config.model_id && (
        match cache_dir {
            Some(p) => dir matches Some(q) && cloned::<P>(p, q),
            None => dir is None,
        })),
        action.asks(LoadRequest::Load, config, cache_dir) <==> (action matches LoadAction::Load {
            config: c,
            system_prompt,
        } && c.preset == config.preset && c.model_id@ == config.model_id && c.display_name@
            == config.display_name && system_prompt@
            == "You are a helpful assistant inside a web browser. Keep answers brief."@),
{
}

/// Whether a catalog holds exactly what `scan` found.
pub open spec fn holds_scan<M>(catalog: CatalogView<M>, scan: CacheScan<M>) -> bool {
    &&& catalog.models == scan.models@
    &&& catalog.cache_path == scan.cache_path@
    &&& catalog.total_size_display == scan.total_size_display@
    &&& catalog.scanned
}

/// Whether an event is what a load ended by: a download that failed, with the error that
/// the status gives, or a scan, with what the catalog holds.
pub open spec fn load_ended_by<M, P>(end: InferenceView<M, P>, event: LoadEvent<M>) -> bool {
    match event {
        LoadEvent::Downloaded(Err(error)) => end.status == StatusView::Failed(error@),
        LoadEvent::Scanned(scan) => holds_scan(end.catalog, scan),
        _ => false,
    }
}

/// Whether an event is the scan that a deletion ended by, with what the catalog holds.
pub open spec fn deletion_ended_by<M, P>(end: InferenceView<M, P>, event: DeleteEvent<M>) -> bool {
    match event {
        DeleteEvent::Scanned(scan) => holds_scan(end.catalog, scan),
        _ => false,
    }
}

/// A load is over only when a download failed or the cache was scanned; the last thing
/// that it heard of what it waited for was one of these.
pub proof fn load_ends_by_failed_download_or_scan<M, P>(
    s: InferenceView<M, P>,
    config: ConfigView,
    events: Seq<LoadEvent<M>>,
)
    ensures
        ({
            let (end, task) = run_load(
                s,
                LoadTaskView { config, step: LoadStep::Checking },
                events,
            );
            task.step == LoadStep::Finished ==> exists|i: int|
                0 <= i < events.len() && load_ended_by(end, #[trigger] events[i])
        }),
    decreases events.len(),
{
    if events.len() > 0 {
        let before = events.drop_last();
        load_ends_by_failed_download_or_scan(s, config, before);
        let start = LoadTaskView { config, step: LoadStep::Checking };
        let (s1, t1) = run_load(s, start, before);
        let (end, task) = run_load(s, start, events);
        let last = events.len() - 1;
        if task.step == LoadStep::Finished {
            if t1.step == LoadStep::Finished {
                let i = choose|i: int|
                    0 <= i < before.len() && load_ended_by(s1, #[trigger] before[i]);
                assert(end == s1);
                assert(events[i] == before[i]);
            } else {
                assert(events[last] == events.last());
            }
        }
    }
}

/// A deletion of the model in memory unloads it first; any other deletion removes the
/// weights at once. Both are of the model that was named.
pub proof fn deletion_starts_by_unloading_its_own_model<M, P>(
    s: InferenceView<M, P>,
    id: Seq<char>,
)
    ensures
        s.loaded == Some(id) <==> crate::inference::first_delete_step(s, id)
            == DeleteStep::Unloading,
        s.loaded != Some(id) <==> crate::inference::first_delete_step(s, id)
            == DeleteStep::Deleting,
{
}

/// Once the engine has let go of the model there is none in memory and no conversation; a
/// load that is in flight goes on, else the session is idle; and the weights of the model
/// that was named are removed next.
pub proof fn unloaded_model_is_gone_and_deleted_next<M, P>(s: InferenceView<M, P>, id: Seq<char>)
    ensures
        ({
            let next = crate::inference::after_delete_event(
                s,
                DeleteTaskView { model_id: id, step: DeleteStep::Unloading },
                DeleteEvent::<M>::Unloaded,
            );
            &&& next.request == DeleteRequest::Delete(id)
            &&& next.step == DeleteStep::Deleting
            &&& next.state.loaded is None
            &&& next.state.transcript.len() == 0
            &&& s.status is Downloading || s.status is Loading ==> next.state.status == s.status
            &&& !(s.status is Downloading || s.status is Loading) ==> next.state.status
                == StatusView::Idle
            &&& next.state == (InferenceView {
                loaded: next.state.loaded,
                transcript: next.state.transcript,
                status: next.state.status,
                ..s
            })
        }),
{
}

/// Whatever the session holds, a deletion that has an outcome, good or bad, is followed by
/// a scan; the outcome is the last management error, as it came, or that there is none.
pub proof fn every_deletion_is_followed_by_a_scan<M, P>(
    s: InferenceView<M, P>,
    id: Seq<char>,
    error: String,
)
    ensures
        ({
            let task = DeleteTaskView { model_id: id, step: DeleteStep::Deleting };
            let done = crate::inference::after_delete_event(
                s,
                task,
                DeleteEvent::<M>::Deleted(Ok(())),
            );
            let failed = crate::inference::after_delete_event(
                s,
                task,
                DeleteEvent::<M>::Deleted(Err(error)),
            );
            &&& done.request == DeleteRequest::Rescan
            &&& done.step == DeleteStep::Rescanning
            &&& done.state == (InferenceView { last_error: None, ..s })
            &&& failed.request == DeleteRequest::Rescan
            &&& failed.step == DeleteStep::Rescanning
            &&& failed.state == (InferenceView { last_error: Some(error@), ..s })
        }),
{
}

/// A deletion is over only after a scan, and then the catalog is what that scan found.
pub proof fn deletion_ends_by_a_scan<M, P>(
    s: InferenceView<M, P>,
    id: Seq<char>,
    start: DeleteStep,
    events: Seq<DeleteEvent<M>>,
)
    requires
        start == DeleteStep::Unloading || start == DeleteStep::Deleting,
    ensures
        ({
            let (end, task) = run_delete(s, DeleteTaskView { model_id: id, step: start }, events);
            task.step == DeleteStep::Finished ==> exists|i: int|
                0 <= i < events.len() && deletion_ended_by(end, #[trigger] events[i])
        }),
    decreases events.len(),
{
    if events.len() > 0 {
        let before = events.drop_last();
        deletion_ends_by_a_scan(s, id, start, before);
        let first = DeleteTaskView { model_id: id, step: start };
        let (s1, t1) = run_delete(s, first, before);
        let (end, task) = run_delete(s, first, events);
        let last = events.len() - 1;
        if task.step == DeleteStep::Finished {
            if t1.step == DeleteStep::Finished {
                let i = choose|i: int|
                    0 <= i < before.len() && deletion_ended_by(s1, #[trigger] before[i]);
                assert(end == s1);
                assert(events[i] == before[i]);
            } else {
                assert(events[last] == events.last());
            }
        }
    }
}

/// What a deletion asks for is told apart, and names the model it was given.
pub proof fn delete_action_names_its_model(action: DeleteAction, id: Seq<char>)
    ensures
        action@ == DeleteRequest::Continue <==> action is Continue,
        action@ == DeleteRequest::Unload <==> action is Unload,
        action@ == DeleteRequest::Rescan <==> action is Rescan,
        action@ == DeleteRequest::Stop <==> action is Stop,
        action@ == DeleteRequest::Delete(id) <==> (action matches DeleteAction::Delete(text)
            && text@ == id),
{
}

/// A message with anything but white space in it is sent if no reply is in flight and a
/// model answers: the one that was asked for, or one in memory while no other is being
/// built. It is then the last line of the conversation, word for word; nothing else
/// changes but that a reply is in flight.
pub proof fn accepted_message_becomes_the_last_line<M, P>(
    s: InferenceView<M, P>,
    message: Seq<char>,
    k: int,
)
    requires
        0 <= k < message.len(),
        !crate::text::is_white_space(message[k]),
        !s.generating,
        s.status is Ready || (s.loaded is Some && !(s.status is Loading)),
    ensures
        s.accepts(message),
        crate::inference::after_send(s, message).transcript.last() == (TurnView {
            role: ChatRole::User,
            text: message,
        }),
        crate::inference::after_send(s, message).transcript.drop_last() == s.transcript,
        crate::inference::after_send(s, message) == (InferenceView {
            transcript: crate::inference::after_send(s, message).transcript,
            generating: true,
            ..s
        }),
{
    assert(crate::inference::after_send(s, message).transcript.drop_last() =~= s.transcript);
}

/// A message of white space, a message while a reply is in flight, and a message that no
/// model answers are dropped without a trace.
pub proof fn dropped_message_leaves_no_trace<M, P>(s: InferenceView<M, P>, message: Seq<char>)
    requires
        ({
            ||| forall|k: int|
                0 <= k < message.len() ==> crate::text::is_white_space(#[trigger] message[k])
            ||| s.generating
            ||| !(s.status is Ready) && (s.loaded is None || s.status is Loading)
        }),
    ensures
        !s.accepts(message),
        crate::inference::after_send(s, message) == s,
{
}

/// A reply is the last line of the conversation, word for word; a failure is told there
/// with its error, word for word. Either way the lines before it stay, no reply is in
/// flight any more, and nothing else changes.
pub proof fn reply_becomes_the_last_line<M, P>(
    s: InferenceView<M, P>,
    text: String,
    error: String,
)
    ensures
        ({
            let answered = crate::inference::after_reply(s, Ok(text));
            let failed = crate::inference::after_reply(s, Err(error));
            &&& answered.transcript.last() == (TurnView {
                role: ChatRole::Assistant,
                text: text@,
            })
            &&& answered.transcript.drop_last() == s.transcript
            &&& answered == (InferenceView {
                transcript: answered.transcript,
                generating: false,
                ..s
            })
            &&& failed.transcript.last() == (TurnView {
                role: ChatRole::Assistant,
                text: "Inference failed: "@ + error@,
            })
            &&& failed.transcript.drop_last() == s.transcript
            &&& failed == (InferenceView {
                transcript: failed.transcript,
                generating: false,
                ..s
            })
        }),
{
    assert(crate::inference::after_reply(s, Ok(text)).transcript.drop_last() =~= s.transcript);
    assert(crate::inference::after_reply(s, Err(error)).transcript.drop_last() =~= s.transcript);
}

/// Clearing takes every line away and changes nothing else.
pub proof fn clearing_takes_only_the_lines<M, P>(s: InferenceView<M, P>)
    ensures
        crate::inference::after_clear(s) == (InferenceView {
            transcript: Seq::<TurnView>::empty(),
            ..s
        }),
{
}

} // verus!
