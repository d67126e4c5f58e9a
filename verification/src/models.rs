//! The language models that can be loaded, and how an identifier finds its
//! load configuration.

use vstd::prelude::*;

use crate::text::same;

verus! {

/// The load configurations on offer, in the order in which they are looked up.
#[allow(non_camel_case_types)]
#[derive(Clone, Copy, Debug, PartialEq, Eq, Structural)]
pub enum Preset {
    Qwen25_0_5b,
    Qwen25_1_5b,
    Qwen25_3b,
    Qwen25Coder7b,
    Qwen3_0_6b,
    Qwen3_1_7b,
    Qwen3_4b,
    Qwen3_8b,
    Qwen3_14b,
    Qwen3_32b,
    Qwen3_4bInstruct2507,
    Qwen3_4bThinking2507,
    Qwen3_30bA3bInstruct2507,
    DeepseekCoder6_7b,
}

/// How many presets there are.
pub const PRESET_COUNT: usize = 14;

/// The preset at a place in the lookup order.
pub open spec fn preset_at(i: int) -> Preset {
    if i == 0 {
        Preset::Qwen25_0_5b
    } else if i == 1 {
        Preset::Qwen25_1_5b
    } else if i == 2 {
        Preset::Qwen25_3b
    } else if i == 3 {
        Preset::Qwen25Coder7b
    } else if i == 4 {
        Preset::Qwen3_0_6b
    } else if i == 5 {
        Preset::Qwen3_1_7b
    } else if i == 6 {
        Preset::Qwen3_4b
    } else if i == 7 {
        Preset::Qwen3_8b
    } else if i == 8 {
        Preset::Qwen3_14b
    } else if i == 9 {
        Preset::Qwen3_32b
    } else if i == 10 {
        Preset::Qwen3_4bInstruct2507
    } else if i == 11 {
        Preset::Qwen3_4bThinking2507
    } else if i == 12 {
        Preset::Qwen3_30bA3bInstruct2507
    } else {
        Preset::DeepseekCoder6_7b
    }
}

/// The model offered before the user picks one: its place in the lookup order.
///
/// Being a preset, it is always one that can be loaded.
pub const DEFAULT_PRESET: usize = 10;

/// What the catalog and the inference engine say of one preset.
pub struct ModelRow {
    /// The identifier under which the catalog offers the model.
    pub catalog_id: String,
    /// The identifier that the load configuration itself carries.
    pub model_id: String,
    /// The name shown to people.
    pub display_name: String,
}

/// A [`ModelRow`] as mathematical values.
pub struct RowView {
    pub catalog_id: Seq<char>,
    pub model_id: Seq<char>,
    pub display_name: Seq<char>,
}

impl View for ModelRow {
    type V = RowView;

    open spec fn view(&self) -> RowView {
        RowView {
            catalog_id: self.catalog_id@,
            model_id: self.model_id@,
            display_name: self.display_name@,
        }
    }
}

/// One row for each [`Preset`].
pub struct ModelTable {
    pub qwen25_0_5b: ModelRow,
    pub qwen25_1_5b: ModelRow,
    pub qwen25_3b: ModelRow,
    pub qwen25_coder_7b: ModelRow,
    pub qwen3_0_6b: ModelRow,
    pub qwen3_1_7b: ModelRow,
    pub qwen3_4b: ModelRow,
    pub qwen3_8b: ModelRow,
    pub qwen3_14b: ModelRow,
    pub qwen3_32b: ModelRow,
    pub qwen3_4b_instruct_2507: ModelRow,
    pub qwen3_4b_thinking_2507: ModelRow,
    pub qwen3_30b_a3b_instruct_2507: ModelRow,
    pub deepseek_coder_6_7b: ModelRow,
}

impl View for ModelTable {
    type V = Seq<RowView>;

    /// The rows in lookup order.
    open spec fn view(&self) -> Seq<RowView> {
        Seq::new(PRESET_COUNT as nat, |i: int| self.spec_row(preset_at(i))@)
    }
}

impl ModelTable {
    /// The row of a preset.
    pub open spec fn spec_row(&self, preset: Preset) -> ModelRow {
        match preset {
            Preset::Qwen25_0_5b => self.qwen25_0_5b,
            Preset::Qwen25_1_5b => self.qwen25_1_5b,
            Preset::Qwen25_3b => self.qwen25_3b,
            Preset::Qwen25Coder7b => self.qwen25_coder_7b,
            Preset::Qwen3_0_6b => self.qwen3_0_6b,
            Preset::Qwen3_1_7b => self.qwen3_1_7b,
            Preset::Qwen3_4b => self.qwen3_4b,
            Preset::Qwen3_8b => self.qwen3_8b,
            Preset::Qwen3_14b => self.qwen3_14b,
            Preset::Qwen3_32b => self.qwen3_32b,
            Preset::Qwen3_4bInstruct2507 => self.qwen3_4b_instruct_2507,
            Preset::Qwen3_4bThinking2507 => self.qwen3_4b_thinking_2507,
            Preset::Qwen3_30bA3bInstruct2507 => self.qwen3_30b_a3b_instruct_2507,
            Preset::DeepseekCoder6_7b => self.deepseek_coder_6_7b,
        }
    }

    /// The row of a preset.
    pub fn row(&self, preset: Preset) -> (r: &ModelRow)
        ensures
            *r == self.spec_row(preset),
            preset == Preset::Qwen25_0_5b ==> *r == self.qwen25_0_5b,
            preset == Preset::Qwen25_1_5b ==> *r == self.qwen25_1_5b,
            preset == Preset::Qwen25_3b ==> *r == self.qwen25_3b,
            preset == Preset::Qwen25Coder7b ==> *r == self.qwen25_coder_7b,
            preset == Preset::Qwen3_0_6b ==> *r == self.qwen3_0_6b,
            preset == Preset::Qwen3_1_7b ==> *r == self.qwen3_1_7b,
            preset == Preset::Qwen3_4b ==> *r == self.qwen3_4b,
            preset == Preset::Qwen3_8b ==> *r == self.qwen3_8b,
            preset == Preset::Qwen3_14b ==> *r == self.qwen3_14b,
            preset == Preset::Qwen3_32b ==> *r == self.qwen3_32b,
            preset == Preset::Qwen3_4bInstruct2507 ==> *r == self.qwen3_4b_instruct_2507,
            preset == Preset::Qwen3_4bThinking2507 ==> *r == self.qwen3_4b_thinking_2507,
            preset == Preset::Qwen3_30bA3bInstruct2507 ==> *r == self.qwen3_30b_a3b_instruct_2507,
            preset == Preset::DeepseekCoder6_7b ==> *r == self.deepseek_coder_6_7b,
    {
        match preset {
            Preset::Qwen25_0_5b => &self.qwen25_0_5b,
            Preset::Qwen25_1_5b => &self.qwen25_1_5b,
            Preset::Qwen25_3b => &self.qwen25_3b,
            Preset::Qwen25Coder7b => &self.qwen25_coder_7b,
            Preset::Qwen3_0_6b => &self.qwen3_0_6b,
            Preset::Qwen3_1_7b => &self.qwen3_1_7b,
            Preset::Qwen3_4b => &self.qwen3_4b,
            Preset::Qwen3_8b => &self.qwen3_8b,
            Preset::Qwen3_14b => &self.qwen3_14b,
            Preset::Qwen3_32b => &self.qwen3_32b,
            Preset::Qwen3_4bInstruct2507 => &self.qwen3_4b_instruct_2507,
            Preset::Qwen3_4bThinking2507 => &self.qwen3_4b_thinking_2507,
            Preset::Qwen3_30bA3bInstruct2507 => &self.qwen3_30b_a3b_instruct_2507,
            Preset::DeepseekCoder6_7b => &self.deepseek_coder_6_7b,
        }
    }
}

impl Preset {
    /// The preset at a place in the lookup order.
    pub fn at(i: usize) -> (r: Preset)
        requires
            i < PRESET_COUNT,
        ensures
            r == preset_at(i as int),
    {
        match i {
            0 => Preset::Qwen25_0_5b,
            1 => Preset::Qwen25_1_5b,
            2 => Preset::Qwen25_3b,
            3 => Preset::Qwen25Coder7b,
            4 => Preset::Qwen3_0_6b,
            5 => Preset::Qwen3_1_7b,
            6 => Preset::Qwen3_4b,
            7 => Preset::Qwen3_8b,
            8 => Preset::Qwen3_14b,
            9 => Preset::Qwen3_32b,
            10 => Preset::Qwen3_4bInstruct2507,
            11 => Preset::Qwen3_4bThinking2507,
            12 => Preset::Qwen3_30bA3bInstruct2507,
            _ => Preset::DeepseekCoder6_7b,
        }
    }
}

/// What the engine is to load.
pub struct ModelConfig {
    pub preset: Preset,
    pub model_id: String,
    pub display_name: String,
}

/// A [`ModelConfig`] as mathematical values.
pub struct ConfigView {
    pub preset: Preset,
    pub model_id: Seq<char>,
    pub display_name: Seq<char>,
}

impl View for ModelConfig {
    type V = ConfigView;

    open spec fn view(&self) -> ConfigView {
        ConfigView {
            preset: self.preset,
            model_id: self.model_id@,
            display_name: self.display_name@,
        }
    }
}

impl ModelConfig {
    /// The same configuration once more.
    pub fn copy(&self) -> (r: ModelConfig)
        ensures
            r@ == self@,
    {
        ModelConfig {
            preset: self.preset,
            model_id: self.model_id.clone(),
            display_name: self.display_name.clone(),
        }
    }
}

/// The place of the first row from `from` on that the catalog offers as `id`.
pub open spec fn find_row(rows: Seq<RowView>, id: Seq<char>, from: nat) -> Option<nat>
    decreases rows.len() - from,
{
    if from >= rows.len() {
        None
    } else if rows[from as int].catalog_id == id {
        Some(from)
    } else {
        find_row(rows, id, from + 1)
    }
}

/// The load configuration of the catalog identifier `id`.
pub open spec fn config_of(rows: Seq<RowView>, id: Seq<char>) -> Option<ConfigView> {
    match find_row(rows, id, 0) {
        Some(i) => Some(
            ConfigView {
                preset: preset_at(i as int),
                model_id: rows[i as int].model_id,
                display_name: rows[i as int].display_name,
            },
        ),
        None => None,
    }
}

/// The identifier of the model offered before the user picks one.
pub open spec fn default_id(rows: Seq<RowView>) -> Seq<char> {
    rows[DEFAULT_PRESET as int].catalog_id
}

/// [`find_row`] finds the first row with the identifier, if there is one.
pub proof fn find_row_is_first(rows: Seq<RowView>, id: Seq<char>, from: nat)
    ensures
        match find_row(rows, id, from) {
            Some(i) => {
                &&& from <= i < rows.len()
                &&& rows[i as int].catalog_id == id
                &&& forall|j: int| from <= j < i ==> (#[trigger] rows[j]).catalog_id != id
            },
            None => forall|j: int|
                from <= j < rows.len() ==> (#[trigger] rows[j]).catalog_id != id,
        },
    decreases rows.len() - from,
{
    if from < rows.len() && rows[from as int].catalog_id != id {
        find_row_is_first(rows, id, from + 1);
    }
}

/// An identifier can be loaded exactly when some row has it.
pub proof fn loadable_iff_listed(rows: Seq<RowView>, id: Seq<char>)
    ensures
        config_of(rows, id) is Some <==> exists|i: int|
            0 <= i < rows.len() && (#[trigger] rows[i]).catalog_id == id,
{
    find_row_is_first(rows, id, 0);
}

/// The model offered before the user picks one can be loaded.
pub proof fn default_is_loadable(models: &ModelTable)
    ensures
        config_of(models@, default_id(models@)) is Some,
{
    loadable_iff_listed(models@, default_id(models@));
    assert(models@[DEFAULT_PRESET as int].catalog_id == default_id(models@));
}

/// The catalog identifiers of a table, in the order in which they are looked up.
pub open spec fn catalog_ids(models: &ModelTable) -> Seq<Seq<char>> {
    seq![
        models.qwen25_0_5b.catalog_id@,
        models.qwen25_1_5b.catalog_id@,
        models.qwen25_3b.catalog_id@,
        models.qwen25_coder_7b.catalog_id@,
        models.qwen3_0_6b.catalog_id@,
        models.qwen3_1_7b.catalog_id@,
        models.qwen3_4b.catalog_id@,
        models.qwen3_8b.catalog_id@,
        models.qwen3_14b.catalog_id@,
        models.qwen3_32b.catalog_id@,
        models.qwen3_4b_instruct_2507.catalog_id@,
        models.qwen3_4b_thinking_2507.catalog_id@,
        models.qwen3_30b_a3b_instruct_2507.catalog_id@,
        models.deepseek_coder_6_7b.catalog_id@,
    ]
}

/// Whether the identifier of `row` finds `preset`, with the row's own identifier and name.
pub open spec fn finds(models: &ModelTable, row: ModelRow, preset: Preset) -> bool {
    &&& config_of(models@, row.catalog_id@) matches Some(config)
    &&& config.preset == preset
    &&& config.model_id == row.model_id@
    &&& config.display_name == row.display_name@
}

/// Each preset has the row of its own name, each row its own place, and each place its own
/// preset.
pub proof fn rows_stand_in_order(models: &ModelTable)
    ensures
        models@.len() == 14,
        models@[0] == models.qwen25_0_5b@,
        models@[1] == models.qwen25_1_5b@,
        models@[2] == models.qwen25_3b@,
        models@[3] == models.qwen25_coder_7b@,
        models@[4] == models.qwen3_0_6b@,
        models@[5] == models.qwen3_1_7b@,
        models@[6] == models.qwen3_4b@,
        models@[7] == models.qwen3_8b@,
        models@[8] == models.qwen3_14b@,
        models@[9] == models.qwen3_32b@,
        models@[10] == models.qwen3_4b_instruct_2507@,
        models@[11] == models.qwen3_4b_thinking_2507@,
        models@[12] == models.qwen3_30b_a3b_instruct_2507@,
        models@[13] == models.deepseek_coder_6_7b@,
        models.spec_row(Preset::Qwen25_0_5b) == models.qwen25_0_5b,
        models.spec_row(Preset::Qwen25_1_5b) == models.qwen25_1_5b,
        models.spec_row(Preset::Qwen25_3b) == models.qwen25_3b,
        models.spec_row(Preset::Qwen25Coder7b) == models.qwen25_coder_7b,
        models.spec_row(Preset::Qwen3_0_6b) == models.qwen3_0_6b,
        models.spec_row(Preset::Qwen3_1_7b) == models.qwen3_1_7b,
        models.spec_row(Preset::Qwen3_4b) == models.qwen3_4b,
        models.spec_row(Preset::Qwen3_8b) == models.qwen3_8b,
        models.spec_row(Preset::Qwen3_14b) == models.qwen3_14b,
        models.spec_row(Preset::Qwen3_32b) == models.qwen3_32b,
        models.spec_row(Preset::Qwen3_4bInstruct2507) == models.qwen3_4b_instruct_2507,
        models.spec_row(Preset::Qwen3_4bThinking2507) == models.qwen3_4b_thinking_2507,
        models.spec_row(Preset::Qwen3_30bA3bInstruct2507) == models.qwen3_30b_a3b_instruct_2507,
        models.spec_row(Preset::DeepseekCoder6_7b) == models.deepseek_coder_6_7b,
        preset_at(0) == Preset::Qwen25_0_5b,
        preset_at(1) == Preset::Qwen25_1_5b,
        preset_at(2) == Preset::Qwen25_3b,
        preset_at(3) == Preset::Qwen25Coder7b,
        preset_at(4) == Preset::Qwen3_0_6b,
        preset_at(5) == Preset::Qwen3_1_7b,
        preset_at(6) == Preset::Qwen3_4b,
        preset_at(7) == Preset::Qwen3_8b,
        preset_at(8) == Preset::Qwen3_14b,
        preset_at(9) == Preset::Qwen3_32b,
        preset_at(10) == Preset::Qwen3_4bInstruct2507,
        preset_at(11) == Preset::Qwen3_4bThinking2507,
        preset_at(12) == Preset::Qwen3_30bA3bInstruct2507,
        preset_at(13) == Preset::DeepseekCoder6_7b,
{
}

/// A place whose identifier stands nowhere before it is found by that identifier.
proof fn row_is_found(models: &ModelTable, i: int)
    requires
        catalog_ids(models).no_duplicates(),
        0 <= i < 14,
    ensures
        config_of(models@, models@[i].catalog_id) == Some(
            ConfigView {
                preset: preset_at(i),
                model_id: models@[i].model_id,
                display_name: models@[i].display_name,
            },
        ),
{
    rows_stand_in_order(models);
    let id = models@[i].catalog_id;
    find_row_is_first(models@, id, 0);
    assert(forall|j: int|
        0 <= j < 14 ==> catalog_ids(models)[j] == (#[trigger] models@[j]).catalog_id);
    match find_row(models@, id, 0) {
        Some(k) => {
            assert(models@[k as int].catalog_id == id);
            assert(catalog_ids(models)[k as int] == catalog_ids(models)[i]);
        },
        None => {
            assert(models@[i].catalog_id == id);
        },
    }
}

/// Where no two rows are offered under one identifier, each row is found by its own, with
/// the preset of the row's name.
pub proof fn each_row_finds_its_own_preset(models: &ModelTable)
    requires
        catalog_ids(models).no_duplicates(),
    ensures
        finds(models, models.qwen25_0_5b, Preset::Qwen25_0_5b),
        finds(models, models.qwen25_1_5b, Preset::Qwen25_1_5b),
        finds(models, models.qwen25_3b, Preset::Qwen25_3b),
        finds(models, models.qwen25_coder_7b, Preset::Qwen25Coder7b),
        finds(models, models.qwen3_0_6b, Preset::Qwen3_0_6b),
        finds(models, models.qwen3_1_7b, Preset::Qwen3_1_7b),
        finds(models, models.qwen3_4b, Preset::Qwen3_4b),
        finds(models, models.qwen3_8b, Preset::Qwen3_8b),
        finds(models, models.qwen3_14b, Preset::Qwen3_14b),
        finds(models, models.qwen3_32b, Preset::Qwen3_32b),
        finds(models, models.qwen3_4b_instruct_2507, Preset::Qwen3_4bInstruct2507),
        finds(models, models.qwen3_4b_thinking_2507, Preset::Qwen3_4bThinking2507),
        finds(models, models.qwen3_30b_a3b_instruct_2507, Preset::Qwen3_30bA3bInstruct2507),
        finds(models, models.deepseek_coder_6_7b, Preset::DeepseekCoder6_7b),
{
    rows_stand_in_order(models);
    row_is_found(models, 0);
    row_is_found(models, 1);
    row_is_found(models, 2);
    row_is_found(models, 3);
    row_is_found(models, 4);
    row_is_found(models, 5);
    row_is_found(models, 6);
    row_is_found(models, 7);
    row_is_found(models, 8);
    row_is_found(models, 9);
    row_is_found(models, 10);
    row_is_found(models, 11);
    row_is_found(models, 12);
    row_is_found(models, 13);
}

/// Where rows share an identifier, it finds the first of them; and an identifier that no
/// row has finds nothing.
pub proof fn first_row_with_the_id_is_found(models: &ModelTable, id: Seq<char>, i: int)
    ensures
        0 <= i < 14 && catalog_ids(models)[i] == id && (forall|j: int|
            0 <= j < i ==> #[trigger] catalog_ids(models)[j] != id) ==> config_of(models@, id)
            == Some(
            ConfigView {
                preset: preset_at(i),
                model_id: models@[i].model_id,
                display_name: models@[i].display_name,
            },
        ),
        !catalog_ids(models).contains(id) ==> config_of(models@, id) is None,
{
    rows_stand_in_order(models);
    find_row_is_first(models@, id, 0);
    assert(forall|j: int|
        0 <= j < 14 ==> #[trigger] catalog_ids(models)[j] == models@[j].catalog_id);
    match find_row(models@, id, 0) {
        Some(k) => {
            assert(catalog_ids(models)[k as int] == id);
        },
        None => {
            assert(0 <= i < 14 ==> models@[i].catalog_id == catalog_ids(models)[i]);
        },
    }
}

/// The model offered before the user picks one is the instruct model.
pub proof fn default_is_the_instruct_model(models: &ModelTable)
    ensures
        default_id(models@) == models.qwen3_4b_instruct_2507.catalog_id@,
{
}

/// What is shown of a row and of a configuration is all there is to them.
pub proof fn row_and_config_views_show_everything(row: ModelRow, config: ModelConfig)
    ensures
        row@.catalog_id == row.catalog_id@,
        row@.model_id == row.model_id@,
        row@.display_name == row.display_name@,
        config@.preset == config.preset,
        config@.model_id == config.model_id@,
        config@.display_name == config.display_name@,
{
}

/// Different identifiers never find the same preset.
pub proof fn different_ids_find_different_presets(models: &ModelTable, a: Seq<char>, b: Seq<char>)
    requires
        a != b,
    ensures
        config_of(models@, a) matches Some(c) ==> (config_of(models@, b) matches Some(d)
            ==> c.preset != d.preset),
{
    find_row_is_first(models@, a, 0);
    find_row_is_first(models@, b, 0);
}

/// Whether every configuration carries the identifier that the catalog offers it under.
pub open spec fn ids_agree(rows: Seq<RowView>) -> bool {
    forall|i: int|
        0 <= i < rows.len() ==> (#[trigger] rows[i]).model_id == rows[i].catalog_id
}

/// Where configurations carry the identifiers they are offered under, an identifier finds
/// a configuration that carries it, and different ones find different configurations.
pub proof fn configuration_carries_its_id(rows: Seq<RowView>, a: Seq<char>, b: Seq<char>)
    requires
        ids_agree(rows),
    ensures
        config_of(rows, a) matches Some(c) ==> c.model_id == a,
        a != b && config_of(rows, a) is Some ==> config_of(rows, a) != config_of(rows, b),
{
    find_row_is_first(rows, a, 0);
    find_row_is_first(rows, b, 0);
}

/// The load configuration for a catalog model id.
///
/// A model that the catalog offers but that has no row here cannot be loaded, and so
/// is never downloaded either.
pub fn config_for(models: &ModelTable, model_id: &str) -> (r: Option<ModelConfig>)
    ensures
        match r {
            Some(config) => config_of(models@, model_id@) == Some(config@),
            None => config_of(models@, model_id@) is None,
        },
{
    let mut i: usize = 0;
    while i < PRESET_COUNT
        invariant
            i <= PRESET_COUNT,
            models@.len() == PRESET_COUNT,
            find_row(models@, model_id@, 0) == find_row(models@, model_id@, i as nat),
        decreases PRESET_COUNT - i,
    {
        let preset = Preset::at(i);
        let row = models.row(preset);
        assert(models@[i as int] == row@);
        if same(row.catalog_id.as_str(), model_id) {
            return Some(
                ModelConfig {
                    preset,
                    model_id: row.model_id.clone(),
                    display_name: row.display_name.clone(),
                },
            );
        }
        i += 1;
    }
    None
}

/// The identifier of the model offered before the user picks one.
pub fn default_model_id(models: &ModelTable) -> (r: String)
    ensures
        r@ == default_id(models@),
{
    models.row(Preset::at(DEFAULT_PRESET)).catalog_id.clone()
}

} // verus!
