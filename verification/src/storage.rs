//! Where model weights and the chosen model are kept.
//!
//! Paths of the platform stay opaque: `P` is whatever the shell uses for one, and a
//! place below it is named by the components to append, outermost first.

use vstd::prelude::*;

use crate::text::texts;

verus! {

/// The shared model cache group.
///
/// Every app of the group points at it, so weights downloaded by one are already
/// present for the next.
pub const ONDE_APP_GROUP: &'static str = "group.com.ondeinference.apps";

/// Where the chosen model id is remembered between launches.
pub const SELECTED_MODEL_FILE: &'static str = "selected-model";

/// Base directory for model storage, and whether other apps see it too.
pub struct ModelCacheDir<P> {
    pub path: Option<P>,
    pub shared: bool,
}

/// Base directory for model storage.
///
/// `container` is the group container, with the path it gives if it gives one. The
/// result is the container root itself, not a directory below it: the engine appends
/// [`CacheSeed`]'s components on its own. Without a container path the directory is the
/// private `config_dir`, and nothing is shared.
pub fn model_cache_dir<P>(container: Option<Option<P>>, config_dir: Option<P>) -> (r:
    ModelCacheDir<P>)
    ensures
        container matches Some(Some(path)) ==> r == (ModelCacheDir {
            path: Some(path),
            shared: true,
        }),
        !(container matches Some(Some(_))) ==> r == (ModelCacheDir {
            path: config_dir,
            shared: false,
        }),
{
    if let Some(Some(path)) = container {
        return ModelCacheDir { path: Some(path), shared: true };
    }
    ModelCacheDir { path: config_dir, shared: false }
}

/// The directories that the cache lookups are pointed at, below `root`.
pub struct CacheSeed<P> {
    pub root: P,
    pub hf_home: Vec<String>,
    pub hf_hub_cache: Vec<String>,
}

/// An environment variable to set to a directory below the root of a [`CacheSeed`].
pub struct CacheVariable {
    pub name: String,
    pub components: Vec<String>,
}

/// A [`CacheVariable`] as mathematical values.
pub struct CacheVariableView {
    pub name: Seq<char>,
    pub components: Seq<Seq<char>>,
}

impl View for CacheVariable {
    type V = CacheVariableView;

    open spec fn view(&self) -> CacheVariableView {
        CacheVariableView { name: self.name@, components: texts(self.components@) }
    }
}

/// The components of the cache's home directory.
pub open spec fn home_components() -> Seq<Seq<char>> {
    seq!["models"@]
}

/// The components of the hub's directory: one below the home directory.
pub open spec fn hub_components() -> Seq<Seq<char>> {
    home_components().push("hub"@)
}

/// The hub's directory is one level below the home directory, which is one level below the
/// root.
pub proof fn hub_is_below_the_home()
    ensures
        home_components() == seq!["models"@],
        hub_components().drop_last() == home_components(),
        hub_components().last() == "hub"@,
{
    assert(hub_components().drop_last() =~= home_components());
}

/// What is shown of a variable is its whole name and all of its components.
pub proof fn variable_view_shows_everything(variable: CacheVariable, i: int)
    ensures
        variable@.name == variable.name@,
        variable@.components.len() == variable.components@.len(),
        0 <= i < variable.components@.len() ==> variable@.components[i]
            == variable.components@[i]@,
{
}

/// Plan to point the cache lookups at `root`.
///
/// The hub's directory has to be created first; what follows is up to
/// [`CacheSeed::variables`]. Without a root there is nothing to do.
pub fn seed_model_cache_env<P>(root: Option<P>) -> (r: Option<CacheSeed<P>>)
    ensures
        match r {
            Some(seed) => {
                &&& root == Some(seed.root)
                &&& texts(seed.hf_home@) == home_components()
                &&& texts(seed.hf_hub_cache@) == hub_components()
                &&& texts(seed.hf_home@) == seq!["models"@]
                &&& texts(seed.hf_hub_cache@) == seq!["models"@, "hub"@]
            },
            None => root is None,
        },
{
    let root = match root {
        Some(root) => root,
        None => {
            return None;
        },
    };
    let mut hf_home: Vec<String> = Vec::new();
    hf_home.push("models".to_owned());
    let mut hf_hub_cache: Vec<String> = Vec::new();
    hf_hub_cache.push("models".to_owned());
    hf_hub_cache.push("hub".to_owned());
    assert(texts(hf_home@) =~= home_components());
    assert(texts(hf_hub_cache@) =~= hub_components());
    Some(CacheSeed { root, hf_home, hf_hub_cache })
}

impl<P> CacheSeed<P> {
    /// The variables to set, given whether the hub's directory could be created.
    ///
    /// None are set over a directory that does not exist.
    pub fn variables(self, created: bool) -> (r: Vec<CacheVariable>)
        ensures
            !created ==> r@.len() == 0,
            created ==> {
                &&& r@.len() == 2
                &&& r@[0]@ == (CacheVariableView {
                    name: "HF_HOME"@,
                    components: texts(self.hf_home@),
                })
                &&& r@[1]@ == (CacheVariableView {
                    name: "HF_HUB_CACHE"@,
                    components: texts(self.hf_hub_cache@),
                })
            },
    {
        let mut r: Vec<CacheVariable> = Vec::new();
        if created {
            r.push(CacheVariable { name: "HF_HOME".to_owned(), components: self.hf_home });
            r.push(
                CacheVariable { name: "HF_HUB_CACHE".to_owned(), components: self.hf_hub_cache },
            );
        }
        r
    }
}

/// A file in a directory.
pub struct StoredFile<P> {
    pub directory: P,
    pub name: String,
}

/// Where the chosen model id is remembered, if there is a configuration directory.
pub fn selected_model_path<P>(config_dir: Option<P>) -> (r: Option<StoredFile<P>>)
    ensures
        match r {
            Some(file) => config_dir == Some(file.directory) && file.name@
                == SELECTED_MODEL_FILE@ && file.name@ == "selected-model"@,
            None => config_dir is None,
        },
{
    match config_dir {
        Some(directory) => Some(
            StoredFile { directory, name: SELECTED_MODEL_FILE.to_owned() },
        ),
        None => None,
    }
}

/// A choice to be written to disk: first its directory is created, then, if that
/// succeeded, its contents are written.
pub struct SaveChoice<P> {
    pub file: StoredFile<P>,
    pub contents: String,
}

impl<P> SaveChoice<P> {
    /// What is left to write, given whether the file's directory could be created.
    pub fn after_directory(self, created: bool) -> (r: Option<SaveChoice<P>>)
        ensures
            r == (if created {
                Some(self)
            } else {
                None
            }),
    {
        if created {
            Some(self)
        } else {
            None
        }
    }
}

} // verus!
