//! The Settings window, as what it shows.
//!
//! Everything in it is read-only. It reports what this build is, where it keeps your
//! data, and which web features it turns on by default. A panel is a list of [`Widget`]s;
//! lengths are in logical pixels.

use vstd::prelude::*;

use crate::text::{join, same};

verus! {

/// Width of the label column, wide enough for the longest label below without letting a
/// long value push the columns apart.
pub const LABEL_COLUMN_WIDTH: u16 = 140;

/// A label and its value.
pub struct Row {
    pub label: String,
    pub value: String,
}

/// A [`Row`] as mathematical values.
#[verifier::ext_equal]
pub struct RowText {
    pub label: Seq<char>,
    pub value: Seq<char>,
}

impl View for Row {
    type V = RowText;

    open spec fn view(&self) -> RowText {
        RowText { label: self.label@, value: self.value@ }
    }
}

/// A table of rows.
pub struct Grid {
    pub id: String,
    pub columns: u16,
    pub min_col_width: u16,
    pub spacing: (u16, u16),
    pub rows: Vec<Row>,
}

/// Something that a panel shows.
pub enum Widget {
    Heading(String),
    /// Small print.
    Note(String),
    Label(String),
    Space(u16),
    Separator,
    Grid(Grid),
}

/// A [`Widget`] as mathematical values.
#[verifier::ext_equal]
pub enum WidgetView {
    Heading(Seq<char>),
    Note(Seq<char>),
    Label(Seq<char>),
    Space(u16),
    Separator,
    Grid {
        id: Seq<char>,
        columns: u16,
        min_col_width: u16,
        spacing: (u16, u16),
        rows: Seq<RowText>,
    },
}

impl View for Widget {
    type V = WidgetView;

    open spec fn view(&self) -> WidgetView {
        match self {
            Widget::Heading(text) => WidgetView::Heading(text@),
            Widget::Note(text) => WidgetView::Note(text@),
            Widget::Label(text) => WidgetView::Label(text@),
            Widget::Space(length) => WidgetView::Space(*length),
            Widget::Separator => WidgetView::Separator,
            Widget::Grid(grid) => WidgetView::Grid {
                id: grid.id@,
                columns: grid.columns,
                min_col_width: grid.min_col_width,
                spacing: grid.spacing,
                rows: grid.rows@.map_values(|r: Row| r@),
            },
        }
    }
}

/// What a list of widgets shows.
pub open spec fn shown(widgets: Seq<Widget>) -> Seq<WidgetView> {
    widgets.map_values(|w: Widget| w@)
}

/// The window and what is in it.
pub struct SettingsWindow {
    pub title: String,
    pub collapsible: bool,
    pub default_size: (u16, u16),
    pub min_width: u16,
    pub body: Vec<Widget>,
}

/// What the window reports.
pub struct SettingsFacts {
    /// The version of the engine that renders the page.
    pub engine_version: String,
    pub user_agent: String,
    /// Where the profile is kept, if anywhere.
    pub profile_directory: Option<String>,
    /// The preferences of the web features that this build turns on.
    pub web_prefs: Vec<String>,
}

/// A readable title for a preference path; the path itself where it has none.
pub open spec fn humanized(pref: Seq<char>) -> Seq<char> {
    if pref == "dom_adoptedstylesheet_enabled"@ {
        "Adopted style sheets"@
    } else if pref == "dom_fontface_enabled"@ {
        "FontFace"@
    } else if pref == "dom_indexeddb_enabled"@ {
        "IndexedDB"@
    } else if pref == "dom_intersection_observer_enabled"@ {
        "IntersectionObserver"@
    } else if pref == "layout_container_queries_enabled"@ {
        "CSS container queries"@
    } else {
        pref
    }
}

/// The widgets of the panel on this build.
pub open spec fn about_widgets(
    engine_version: Seq<char>,
    user_agent: Seq<char>,
    profile_directory: Option<Seq<char>>,
) -> Seq<WidgetView> {
    seq![
        WidgetView::Heading("About"@),
        WidgetView::Note("Read-only for now. Nothing on this page changes a setting."@),
        WidgetView::Space(8),
        WidgetView::Grid {
            id: "settings-about-grid"@,
            columns: 2,
            min_col_width: LABEL_COLUMN_WIDTH,
            spacing: (16, 8),
            rows: seq![
                RowText { label: "Application"@, value: "smbCloud Browser"@ },
                RowText { label: "Engine"@, value: "Servo "@ + engine_version },
                RowText { label: "User agent"@, value: user_agent },
                RowText {
                    label: "Profile folder"@,
                    value: match profile_directory {
                        Some(path) => path,
                        None => "Unavailable"@,
                    },
                },
            ],
        },
    ]
}

/// The widget that lists one preference.
pub open spec fn pref_widget(pref: Seq<char>) -> WidgetView {
    WidgetView::Label("• "@ + humanized(pref))
}

/// The widgets of the panel on web features: one line per preference, in order.
pub open spec fn web_platform_widgets(prefs: Seq<Seq<char>>) -> Seq<WidgetView> {
    seq![
        WidgetView::Heading("Web platform"@),
        WidgetView::Note(
            "Enabled in every window, rather than left behind the experimental toggle."@,
        ),
        WidgetView::Space(8),
    ] + prefs.map_values(|p: Seq<char>| pref_widget(p))
}

/// The widgets of the whole window.
pub open spec fn page_widgets(facts: SettingsFacts) -> Seq<WidgetView> {
    about_widgets(
        facts.engine_version@,
        facts.user_agent@,
        crate::text::opt_text(facts.profile_directory),
    ) + seq![WidgetView::Space(12), WidgetView::Separator, WidgetView::Space(12)]
        + web_platform_widgets(crate::text::texts(facts.web_prefs@))
}

/// Five preferences have a title; every other is shown by its path, whole.
pub proof fn five_preferences_have_a_title(pref: Seq<char>)
    ensures
        pref == "dom_adoptedstylesheet_enabled"@ ==> humanized(pref) == "Adopted style sheets"@,
        pref == "dom_fontface_enabled"@ ==> humanized(pref) == "FontFace"@,
        pref == "dom_indexeddb_enabled"@ ==> humanized(pref) == "IndexedDB"@,
        pref == "dom_intersection_observer_enabled"@ ==> humanized(pref)
            == "IntersectionObserver"@,
        pref == "layout_container_queries_enabled"@ ==> humanized(pref)
            == "CSS container queries"@,
        pref != "dom_adoptedstylesheet_enabled"@ && pref != "dom_fontface_enabled"@ && pref
            != "dom_indexeddb_enabled"@ && pref != "dom_intersection_observer_enabled"@ && pref
            != "layout_container_queries_enabled"@ ==> humanized(pref) == pref,
{
    reveal_strlit("dom_adoptedstylesheet_enabled");
    reveal_strlit("dom_fontface_enabled");
    reveal_strlit("dom_indexeddb_enabled");
    reveal_strlit("dom_intersection_observer_enabled");
    reveal_strlit("layout_container_queries_enabled");
    assert("dom_adoptedstylesheet_enabled"@.len() == 29);
    assert("dom_fontface_enabled"@.len() == 20);
    assert("dom_indexeddb_enabled"@.len() == 21);
    assert("dom_intersection_observer_enabled"@.len() == 33);
    assert("layout_container_queries_enabled"@.len() == 32);
}

/// The panel on this build is a heading, a note, a gap and a table, and the table tells
/// the engine's version, the user agent and the profile's directory as they are.
pub proof fn about_panel_tells_the_facts_as_they_are(
    engine_version: Seq<char>,
    user_agent: Seq<char>,
    profile_directory: Option<Seq<char>>,
)
    ensures
        ({
            let panel = about_widgets(engine_version, user_agent, profile_directory);
            &&& panel.len() == 4
            &&& panel[0] == WidgetView::Heading("About"@)
            &&& panel[1] == WidgetView::Note(
                "Read-only for now. Nothing on this page changes a setting."@,
            )
            &&& panel[2] == WidgetView::Space(8)
            &&& panel[3] matches WidgetView::Grid { id, columns, min_col_width, spacing, rows }
            &&& id == "settings-about-grid"@
            &&& columns == 2
            &&& min_col_width == 140
            &&& spacing == (16u16, 8u16)
            &&& rows.len() == 4
            &&& rows[0].label == "Application"@
            &&& rows[0].value == "smbCloud Browser"@
            &&& rows[1].label == "Engine"@
            &&& rows[1].value == "Servo "@ + engine_version
            &&& rows[2].label == "User agent"@
            &&& rows[2].value == user_agent
            &&& rows[3].label == "Profile folder"@
            &&& profile_directory matches Some(path) ==> rows[3].value == path
            &&& profile_directory is None ==> rows[3].value == "Unavailable"@
        }),
{
}

/// The panel on web features is a heading, a note, a gap, and one line for each
/// preference, in order: none is left out and none is added.
pub proof fn every_preference_has_its_line(prefs: Seq<Seq<char>>, i: int)
    ensures
        web_platform_widgets(prefs).len() == 3 + prefs.len(),
        web_platform_widgets(prefs)[0] == WidgetView::Heading("Web platform"@),
        web_platform_widgets(prefs)[1] == WidgetView::Note(
            "Enabled in every window, rather than left behind the experimental toggle."@,
        ),
        web_platform_widgets(prefs)[2] == WidgetView::Space(8),
        0 <= i < prefs.len() ==> web_platform_widgets(prefs)[3 + i] == WidgetView::Label(
            "• "@ + humanized(prefs[i]),
        ),
{
}

/// The window shows the panel on this build, then a line with a gap above and below it,
/// then the panel on web features; nothing else.
pub proof fn window_shows_both_panels(facts: SettingsFacts, i: int)
    ensures
        ({
            let page = page_widgets(facts);
            let about = about_widgets(
                facts.engine_version@,
                facts.user_agent@,
                match facts.profile_directory {
                    Some(path) => Some(path@),
                    None => None,
                },
            );
            let web = web_platform_widgets(Seq::new(facts.web_prefs@.len(), |j: int|
                facts.web_prefs@[j]@));
            &&& page.len() == about.len() + 3 + web.len()
            &&& 0 <= i < about.len() ==> page[i] == about[i]
            &&& page[about.len() as int] == WidgetView::Space(12)
            &&& page[(about.len() + 1) as int] == WidgetView::Separator
            &&& page[(about.len() + 2) as int] == WidgetView::Space(12)
            &&& 0 <= i < web.len() ==> page[about.len() + 3 + i] == web[i]
        }),
{
    assert(crate::text::texts(facts.web_prefs@) =~= Seq::new(facts.web_prefs@.len(), |j: int|
        facts.web_prefs@[j]@));
}

/// What is shown of a widget is all there is to it, and a list is shown in order.
pub proof fn widget_views_show_everything(widget: Widget, widgets: Seq<Widget>, i: int)
    ensures
        shown(widgets).len() == widgets.len(),
        0 <= i < widgets.len() ==> shown(widgets)[i] == widgets[i]@,
        match widget {
            Widget::Heading(text) => widget@ == WidgetView::Heading(text@),
            Widget::Note(text) => widget@ == WidgetView::Note(text@),
            Widget::Label(text) => widget@ == WidgetView::Label(text@),
            Widget::Space(length) => widget@ == WidgetView::Space(length),
            Widget::Separator => widget@ == WidgetView::Separator,
            Widget::Grid(grid) => {
                &&& widget@ matches WidgetView::Grid { id, columns, min_col_width, spacing, rows }
                &&& id == grid.id@
                &&& columns == grid.columns
                &&& min_col_width == grid.min_col_width
                &&& spacing == grid.spacing
                &&& rows.len() == grid.rows@.len()
                &&& 0 <= i < rows.len() ==> rows[i].label == grid.rows@[i].label@ && rows[i].value
                    == grid.rows@[i].value@
            },
        },
{
}

/// Whether the Settings window is open.
pub struct Settings {
    open: bool,
}

impl Settings {
    /// Whether the window is open.
    pub closed spec fn is_open(self) -> bool {
        self.open
    }
}

impl Default for Settings {
    fn default() -> (r: Settings)
        ensures
            !r.is_open(),
    {
        Settings { open: false }
    }
}

impl Settings {
    /// Open the window.
    pub fn open(&mut self)
        ensures
            final(self).is_open(),
    {
        self.open = true;
    }

    /// Take over whether the window is still open after it was drawn.
    pub fn set_open(&mut self, open: bool)
        ensures
            final(self).is_open() == open,
    {
        self.open = open;
    }

    /// The window to draw: none while it is closed.
    pub fn show(&self, facts: &SettingsFacts) -> (r: Option<SettingsWindow>)
        ensures
            match r {
                Some(window) => {
                    &&& self.is_open()
                    &&& window.title@ == "Settings"@
                    &&& !window.collapsible
                    &&& window.default_size == (560u16, 480u16)
                    &&& window.min_width == 420
                    &&& shown(window.body@) == page_widgets(*facts)
                },
                None => !self.is_open(),
            },
    {
        if !self.open {
            return None;
        }
        let mut body = Self::about_panel(
            facts.engine_version.as_str(),
            facts.user_agent.as_str(),
            &facts.profile_directory,
        );
        let mut rest = Self::web_platform_panel(&facts.web_prefs);
        let ghost about = body@;
        let ghost web = rest@;
        body.push(Widget::Space(12));
        body.push(Widget::Separator);
        body.push(Widget::Space(12));
        body.append(&mut rest);
        assert(shown(body@) =~= shown(about) + seq![
            WidgetView::Space(12),
            WidgetView::Separator,
            WidgetView::Space(12),
        ] + shown(web));
        Some(
            SettingsWindow {
                title: "Settings".to_owned(),
                collapsible: false,
                default_size: (560, 480),
                min_width: 420,
                body,
            },
        )
    }

    /// What this build is and where it puts things.
    pub fn about_panel(
        engine_version: &str,
        user_agent: &str,
        profile_directory: &Option<String>,
    ) -> (r: Vec<Widget>)
        ensures
            shown(r@) == about_widgets(
                engine_version@,
                user_agent@,
                crate::text::opt_text(*profile_directory),
            ),
    {
        let profile = match profile_directory {
            Some(path) => path.clone(),
            None => "Unavailable".to_owned(),
        };
        let engine = join("Servo ", engine_version);
        let mut rows: Vec<Row> = Vec::new();
        rows.push(Self::row("Application", "smbCloud Browser"));
        rows.push(Self::row("Engine", engine.as_str()));
        rows.push(Self::row("User agent", user_agent));
        rows.push(Self::row("Profile folder", profile.as_str()));
        let ghost grid_rows = rows@.map_values(|row: Row| row@);

        let mut r: Vec<Widget> = Vec::new();
        r.push(Widget::Heading("About".to_owned()));
        r.push(
            Widget::Note("Read-only for now. Nothing on this page changes a setting.".to_owned()),
        );
        r.push(Widget::Space(8));
        r.push(
            Widget::Grid(
                Grid {
                    id: "settings-about-grid".to_owned(),
                    columns: 2,
                    min_col_width: LABEL_COLUMN_WIDTH,
                    spacing: (16, 8),
                    rows,
                },
            ),
        );
        proof {
            let spec_panel = about_widgets(
                engine_version@,
                user_agent@,
                crate::text::opt_text(*profile_directory),
            );
            assert(grid_rows =~= spec_panel[3]->rows);
            assert(shown(r@) =~= spec_panel);
        }
        r
    }

    /// The features this build turns on that are kept behind a preference upstream. Worth
    /// surfacing: it is the difference between a page working here and the same page
    /// working elsewhere.
    pub fn web_platform_panel(prefs: &Vec<String>) -> (r: Vec<Widget>)
        ensures
            shown(r@) == web_platform_widgets(crate::text::texts(prefs@)),
    {
        let mut r: Vec<Widget> = Vec::new();
        r.push(Widget::Heading("Web platform".to_owned()));
        r.push(
            Widget::Note(
                "Enabled in every window, rather than left behind the experimental toggle."
                    .to_owned(),
            ),
        );
        r.push(Widget::Space(8));
        let ghost head = r@;
        let mut i: usize = 0;
        while i < prefs.len()
            invariant
                i <= prefs.len(),
                head.len() == 3,
                r@.len() == 3 + i,
                forall|j: int| 0 <= j < 3 ==> r@[j] == #[trigger] head[j],
                forall|j: int|
                    0 <= j < i ==> (#[trigger] r@[3 + j])@ == pref_widget(prefs@[j]@),
            decreases prefs.len() - i,
        {
            let title = Self::humanize_pref(prefs[i].as_str());
            r.push(Widget::Label(join("• ", title)));
            i += 1;
        }
        proof {
            let panel = web_platform_widgets(crate::text::texts(prefs@));
            assert forall|j: int| 0 <= j < panel.len() implies shown(r@)[j] == panel[j] by {
                if j < 3 {
                    assert(r@[j] == head[j]);
                } else {
                    assert(r@[3 + (j - 3)]@ == pref_widget(prefs@[j - 3]@));
                }
            }
            assert(shown(r@) =~= panel);
        }
        r
    }

    /// Turns a preference path into something readable. Anything unrecognised falls back
    /// to the raw path rather than guessing at a title.
    pub fn humanize_pref(pref: &str) -> (r: &str)
        ensures
            r@ == humanized(pref@),
    {
        if same(pref, "dom_adoptedstylesheet_enabled") {
            "Adopted style sheets"
        } else if same(pref, "dom_fontface_enabled") {
            "FontFace"
        } else if same(pref, "dom_indexeddb_enabled") {
            "IndexedDB"
        } else if same(pref, "dom_intersection_observer_enabled") {
            "IntersectionObserver"
        } else if same(pref, "layout_container_queries_enabled") {
            "CSS container queries"
        } else {
            pref
        }
    }

    /// A label and its value.
    pub fn row(label: &str, value: &str) -> (r: Row)
        ensures
            r@ == (RowText { label: label@, value: value@ }),
    {
        Row { label: label.to_owned(), value: value.to_owned() }
    }
}

} // verus!
