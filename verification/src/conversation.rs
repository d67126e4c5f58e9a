//! The plain data of on-device chat: what the engine is doing, what was said, and what
//! is on disk.

use vstd::prelude::*;

verus! {

/// Who said a line of the conversation.
#[derive(Clone, Copy, Debug, PartialEq, Eq, Structural)]
pub enum ChatRole {
    User,
    Assistant,
}

/// A single line of the visible conversation.
///
/// This mirrors the engine's own history rather than owning it. The engine tracks
/// history for prompt construction; this is what the panel draws, and it also holds
/// entries the engine never sees, such as failures.
pub struct Turn {
    pub role: ChatRole,
    pub text: String,
}

/// A [`Turn`] as mathematical values.
#[verifier::ext_equal]
pub struct TurnView {
    pub role: ChatRole,
    pub text: Seq<char>,
}

impl View for Turn {
    type V = TurnView;

    open spec fn view(&self) -> TurnView {
        TurnView { role: self.role, text: self.text@ }
    }
}

/// What the engine is doing, as far as the panel is concerned.
pub enum Status {
    /// No model requested yet.
    Idle,
    /// Fetching weights. The fraction done is the bit pattern of a 32-bit float, so
    /// zero stands for nothing done.
    Downloading { fraction_bits: u32, detail: String },
    /// Weights are local; the engine is building the model.
    Loading { model: String },
    Ready { model: String },
    Failed(String),
}

/// A [`Status`] as mathematical values.
#[verifier::ext_equal]
pub enum StatusView {
    Idle,
    Downloading { fraction_bits: u32, detail: Seq<char> },
    Loading { model: Seq<char> },
    Ready { model: Seq<char> },
    Failed(Seq<char>),
}

impl View for Status {
    type V = StatusView;

    open spec fn view(&self) -> StatusView {
        match self {
            Status::Idle => StatusView::Idle,
            Status::Downloading { fraction_bits, detail } => StatusView::Downloading {
                fraction_bits: *fraction_bits,
                detail: detail@,
            },
            Status::Loading { model } => StatusView::Loading { model: model@ },
            Status::Ready { model } => StatusView::Ready { model: model@ },
            Status::Failed(error) => StatusView::Failed(error@),
        }
    }
}

impl StatusView {
    /// Whether the model last asked for is in memory and answering.
    pub open spec fn is_ready(self) -> bool {
        self is Ready
    }

    /// Whether a load is in flight.
    pub open spec fn is_busy(self) -> bool {
        self is Downloading || self is Loading
    }
}

impl Status {
    /// Whether the model last asked for is in memory and answering.
    pub fn is_ready(&self) -> (r: bool)
        ensures
            r == self@.is_ready(),
    {
        matches!(self, Status::Ready { .. })
    }

    /// Whether a load is in flight, so the panel does not have to enumerate every busy
    /// variant at the call site.
    pub fn is_busy(&self) -> (r: bool)
        ensures
            r == self@.is_busy(),
    {
        matches!(self, Status::Downloading { .. } | Status::Loading { .. })
    }
}

/// What a look at the model cache found. `M` describes one model to the panel.
pub struct CacheScan<M> {
    pub models: Vec<M>,
    pub cache_path: String,
    pub total_size_display: String,
}

/// What is on disk, as of the last scan.
///
/// Scanning the cache means walking a directory of multi-gigabyte files, so it happens
/// on user action rather than on every frame the Settings view is drawn.
pub struct Catalog<M> {
    /// Every model this build can download, downloaded or not.
    pub models: Vec<M>,
    /// Where the weights live, shown so people can find them.
    pub cache_path: String,
    /// Total size of the cache, with the models that this build does not offer.
    pub total_size_display: String,
    /// Whether a scan has completed. Distinguishes "no models" from "not looked yet",
    /// which otherwise read the same in an empty list.
    pub scanned: bool,
}

/// A [`Catalog`] as mathematical values.
#[verifier::ext_equal]
pub struct CatalogView<M> {
    pub models: Seq<M>,
    pub cache_path: Seq<char>,
    pub total_size_display: Seq<char>,
    pub scanned: bool,
}

impl<M> View for Catalog<M> {
    type V = CatalogView<M>;

    open spec fn view(&self) -> CatalogView<M> {
        CatalogView {
            models: self.models@,
            cache_path: self.cache_path@,
            total_size_display: self.total_size_display@,
            scanned: self.scanned,
        }
    }
}

/// The catalog before anything was scanned.
pub open spec fn empty_catalog<M>() -> CatalogView<M> {
    CatalogView {
        models: Seq::empty(),
        cache_path: Seq::empty(),
        total_size_display: Seq::empty(),
        scanned: false,
    }
}

/// The catalog that a scan gives.
pub open spec fn catalog_of<M>(scan: CacheScan<M>) -> CatalogView<M> {
    CatalogView {
        models: scan.models@,
        cache_path: scan.cache_path@,
        total_size_display: scan.total_size_display@,
        scanned: true,
    }
}

impl<M> Default for Catalog<M> {
    fn default() -> (r: Catalog<M>)
        ensures
            r@ == empty_catalog::<M>(),
    {
        Catalog {
            models: Vec::new(),
            cache_path: String::new(),
            total_size_display: String::new(),
            scanned: false,
        }
    }
}

impl<M> Catalog<M> {
    /// The catalog that a completed scan gives.
    pub fn from_scan(scan: CacheScan<M>) -> (r: Catalog<M>)
        ensures
            r@ == catalog_of(scan),
    {
        Catalog {
            models: scan.models,
            cache_path: scan.cache_path,
            total_size_display: scan.total_size_display,
            scanned: true,
        }
    }
}

/// What the cache says of one model that can be downloaded.
pub struct SupportedModel {
    pub model_id: String,
    pub is_downloaded: bool,
}

/// Whether the weights of `id` are complete on disk.
pub open spec fn has_weights(supported: Seq<SupportedModel>, id: Seq<char>) -> bool {
    exists|i: int|
        0 <= i < supported.len() && (#[trigger] supported[i]).model_id@ == id
            && supported[i].is_downloaded
}

/// One downloaded entry with the identifier is enough, wherever it stands in the list; and
/// without one there are no weights.
pub proof fn any_downloaded_entry_is_enough(
    supported: Seq<SupportedModel>,
    id: Seq<char>,
    i: int,
)
    ensures
        0 <= i < supported.len() && supported[i].model_id@ == id && supported[i].is_downloaded
            ==> has_weights(supported, id),
        has_weights(supported, id) ==> exists|j: int|
            0 <= j < supported.len() && (#[trigger] supported[j]).model_id@ == id
                && supported[j].is_downloaded,
{
}

/// Neither the order of the entries nor what else is in the list matters.
pub proof fn weights_are_found_in_either_part(
    front: Seq<SupportedModel>,
    back: Seq<SupportedModel>,
    id: Seq<char>,
)
    ensures
        has_weights(front + back, id) <==> has_weights(front, id) || has_weights(back, id),
        has_weights(front + back, id) <==> has_weights(back + front, id),
{
    let both = front + back;
    let turned = back + front;
    if has_weights(front, id) {
        let i = choose|i: int|
            0 <= i < front.len() && (#[trigger] front[i]).model_id@ == id
                && front[i].is_downloaded;
        assert(both[i] == front[i]);
        assert(turned[back.len() + i] == front[i]);
    }
    if has_weights(back, id) {
        let i = choose|i: int|
            0 <= i < back.len() && (#[trigger] back[i]).model_id@ == id && back[i].is_downloaded;
        assert(both[front.len() + i] == back[i]);
        assert(turned[i] == back[i]);
    }
    if has_weights(both, id) {
        let i = choose|i: int|
            0 <= i < both.len() && (#[trigger] both[i]).model_id@ == id && both[i].is_downloaded;
        if i < front.len() {
            assert(front[i] == both[i]);
        } else {
            assert(back[i - front.len()] == both[i]);
        }
    }
    if has_weights(turned, id) {
        let i = choose|i: int|
            0 <= i < turned.len() && (#[trigger] turned[i]).model_id@ == id
                && turned[i].is_downloaded;
        if i < back.len() {
            assert(back[i] == turned[i]);
        } else {
            assert(front[i - back.len()] == turned[i]);
        }
    }
}

/// What the panel is shown of a status, a line and a catalog is all there is to them.
pub proof fn views_show_everything<M>(
    status: Status,
    turn: Turn,
    catalog: Catalog<M>,
    scan: CacheScan<M>,
)
    ensures
        match status {
            Status::Idle => status@ == StatusView::Idle,
            Status::Downloading { fraction_bits, detail } => status@ == (
            StatusView::Downloading { fraction_bits, detail: detail@ }),
            Status::Loading { model } => status@ == (StatusView::Loading { model: model@ }),
            Status::Ready { model } => status@ == (StatusView::Ready { model: model@ }),
            Status::Failed(error) => status@ == StatusView::Failed(error@),
        },
        turn@.role == turn.role,
        turn@.text == turn.text@,
        catalog@.models == catalog.models@,
        catalog@.cache_path == catalog.cache_path@,
        catalog@.total_size_display == catalog.total_size_display@,
        catalog@.scanned == catalog.scanned,
        catalog_of(scan).models == scan.models@,
        catalog_of(scan).cache_path == scan.cache_path@,
        catalog_of(scan).total_size_display == scan.total_size_display@,
        catalog_of(scan).scanned,
        empty_catalog::<M>().models.len() == 0,
        empty_catalog::<M>().cache_path.len() == 0,
        empty_catalog::<M>().total_size_display.len() == 0,
        !empty_catalog::<M>().scanned,
{
}

/// A session is ready in one status and busy in two others.
pub proof fn ready_and_busy_are_told_by_the_variant(status: StatusView)
    ensures
        status is Ready ==> status.is_ready() && !status.is_busy(),
        status is Downloading || status is Loading ==> status.is_busy() && !status.is_ready(),
        status is Idle || status is Failed ==> !status.is_ready() && !status.is_busy(),
{
}

/// Whether the weights of `model_id` are complete on disk.
pub fn weights_present(supported: &Vec<SupportedModel>, model_id: &String) -> (r: bool)
    ensures
        r == has_weights(supported@, model_id@),
        r <==> exists|i: int|
            0 <= i < supported@.len() && (#[trigger] supported@[i]).model_id@ == model_id@
                && supported@[i].is_downloaded,
{
    let mut i: usize = 0;
    while i < supported.len()
        invariant
            i <= supported.len(),
            forall|j: int|
                0 <= j < i ==> !((#[trigger] supported@[j]).model_id@ == model_id@
                    && supported@[j].is_downloaded),
        decreases supported.len() - i,
    {
        let model = &supported[i];
        if model.model_id == *model_id && model.is_downloaded {
            return true;
        }
        i += 1;
    }
    false
}

} // verus!
