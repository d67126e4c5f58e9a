//! The Settings item of the application menu.
//!
//! The window toolkit builds the menubar during launch and offers no way to extend it, so
//! the item is inserted into the finished menu instead. Its click arrives while the event
//! loop is busy, so the handler only sets a flag, which the next frame picks up through
//! [`take_settings_request`].

use vstd::prelude::*;

verus! {

/// What has become of the item so far.
pub struct SettingsMenu {
    /// Set when Settings is chosen, cleared when the window acts on it.
    requested: bool,
    /// Set by the first attempt to install the item.
    installed: bool,
}

/// A [`SettingsMenu`] as mathematical values.
pub struct SettingsMenuView {
    pub requested: bool,
    pub installed: bool,
}

impl View for SettingsMenu {
    type V = SettingsMenuView;

    closed spec fn view(&self) -> SettingsMenuView {
        SettingsMenuView { requested: self.requested, installed: self.installed }
    }
}

/// An entry of a menu.
pub enum MenuEntry {
    Separator,
    Item {
        title: String,
        /// The message that a click sends.
        action: String,
        key_equivalent: String,
    },
}

/// A [`MenuEntry`] as mathematical values.
pub enum MenuEntryView {
    Separator,
    Item { title: Seq<char>, action: Seq<char>, key_equivalent: Seq<char> },
}

impl View for MenuEntry {
    type V = MenuEntryView;

    open spec fn view(&self) -> MenuEntryView {
        match self {
            MenuEntry::Separator => MenuEntryView::Separator,
            MenuEntry::Item { title, action, key_equivalent } => MenuEntryView::Item {
                title: title@,
                action: action@,
                key_equivalent: key_equivalent@,
            },
        }
    }
}

/// An entry and the index to insert it at.
pub struct MenuInsertion {
    pub entry: MenuEntry,
    pub index: usize,
}

/// What came of an attempt to install the item.
pub enum Installation {
    /// Not on the main thread; nothing happened.
    WrongThread,
    /// Not the first attempt; nothing is to be done.
    AlreadyDone,
    /// There is no application menu to add the item to.
    NoMenu,
    /// These entries are to be inserted, one after the other.
    Insert(Vec<MenuInsertion>),
}

/// The Settings item.
pub open spec fn settings_item() -> MenuEntryView {
    MenuEntryView::Item {
        title: "Settings…"@,
        action: "smbOpenSettings:"@,
        key_equivalent: ","@,
    }
}

/// A menu after some insertions.
pub open spec fn after_insertions(
    menu: Seq<MenuEntryView>,
    insertions: Seq<MenuInsertion>,
) -> Seq<MenuEntryView>
    decreases insertions.len(),
{
    if insertions.len() == 0 {
        menu
    } else {
        after_insertions(menu, insertions.drop_last()).insert(
            insertions.last().index as int,
            insertions.last().entry@,
        )
    }
}

/// Whether `insertions` are those of the Settings item.
pub open spec fn inserts_settings(insertions: Seq<MenuInsertion>) -> bool {
    &&& insertions.len() == 2
    &&& insertions[0].entry@ == MenuEntryView::Separator
    &&& insertions[0].index == 1
    &&& insertions[1].entry@ == settings_item()
    &&& insertions[1].index == 2
}

/// The Settings item lands right below the first entry, set off by a separator, and every
/// entry that was there stays, in order. Where a separator followed the first entry, the
/// item stands between two.
pub proof fn settings_item_lands_below_the_first(
    menu: Seq<MenuEntryView>,
    insertions: Seq<MenuInsertion>,
)
    requires
        menu.len() >= 1,
        inserts_settings(insertions),
    ensures
        after_insertions(menu, insertions) == seq![
            menu[0],
            MenuEntryView::Separator,
            settings_item(),
        ] + menu.skip(1),
        insertions[0].index <= menu.len(),
        insertions[1].index <= menu.len() + 1,
        menu.len() >= 2 && menu[1] == MenuEntryView::Separator ==> {
            &&& after_insertions(menu, insertions)[1] == MenuEntryView::Separator
            &&& after_insertions(menu, insertions)[2] == settings_item()
            &&& after_insertions(menu, insertions)[3] == MenuEntryView::Separator
        },
{
    reveal_with_fuel(after_insertions, 3);
    let first = insertions.drop_last();
    assert(first.drop_last() =~= Seq::<MenuInsertion>::empty());
    assert(first.last() == insertions[0]);
    assert(after_insertions(menu, insertions) =~= seq![
        menu[0],
        MenuEntryView::Separator,
        settings_item(),
    ] + menu.skip(1));
}

/// What an attempt to install the item leaves behind.
pub open spec fn after_install(s: SettingsMenuView, on_main_thread: bool) -> SettingsMenuView {
    SettingsMenuView { installed: s.installed || on_main_thread, ..s }
}

impl Installation {
    /// Whether this is what an attempt gives.
    pub open spec fn answers(
        self,
        s: SettingsMenuView,
        on_main_thread: bool,
        menu_found: bool,
    ) -> bool {
        if !on_main_thread {
            self is WrongThread
        } else if s.installed {
            self is AlreadyDone
        } else if !menu_found {
            self is NoMenu
        } else {
            self matches Installation::Insert(insertions) && inserts_settings(insertions@)
        }
    }
}

/// Of two attempts, the second inserts nothing once the first was made on the main thread;
/// one made elsewhere does not count.
pub proof fn item_is_installed_at_most_once(
    s: SettingsMenuView,
    on_main_thread: bool,
    on_main_thread_later: bool,
    menu_found_later: bool,
    later: Installation,
)
    requires
        later.answers(after_install(s, on_main_thread), on_main_thread_later, menu_found_later),
    ensures
        on_main_thread ==> !(later is Insert),
        !on_main_thread ==> later.answers(s, on_main_thread_later, menu_found_later),
{
}

/// An attempt away from the main thread does nothing and changes nothing. The first one on
/// it is the one that counts, whether or not there is a menu; if there is, a separator
/// goes to index 1 and the item, with its title, message and key, to index 2. Whether
/// Settings was chosen has no part in it.
pub proof fn first_attempt_on_the_main_thread_counts(
    s: SettingsMenuView,
    on_main_thread: bool,
    menu_found: bool,
    r: Installation,
)
    ensures
        after_install(s, on_main_thread).requested == s.requested,
        on_main_thread ==> after_install(s, on_main_thread).installed,
        !on_main_thread ==> after_install(s, on_main_thread) == s,
        !on_main_thread ==> (r.answers(s, on_main_thread, menu_found) <==> r is WrongThread),
        on_main_thread && s.installed ==> (r.answers(s, on_main_thread, menu_found) <==> r
            is AlreadyDone),
        on_main_thread && !s.installed && !menu_found ==> (r.answers(
            s,
            on_main_thread,
            menu_found,
        ) <==> r is NoMenu),
        on_main_thread && !s.installed && menu_found ==> (r.answers(s, on_main_thread, menu_found)
            <==> (r matches Installation::Insert(insertions) && insertions@.len() == 2
            && insertions@[0].entry is Separator && insertions@[0].index == 1
            && insertions@[1].index == 2 && (insertions@[1].entry matches MenuEntry::Item {
            title,
            action,
            key_equivalent,
        } && title@ == "Settings…"@ && action@ == "smbOpenSettings:"@ && key_equivalent@
            == ","@))),
{
}

/// What the handler of a click leaves behind.
pub open spec fn after_click(s: SettingsMenuView) -> SettingsMenuView {
    SettingsMenuView { requested: true, ..s }
}

/// What asking for the request leaves behind.
pub open spec fn after_take(s: SettingsMenuView) -> SettingsMenuView {
    SettingsMenuView { requested: false, ..s }
}

/// A request is handed out once: however many clicks there were, the first to ask after
/// them gets it, and nobody else until the next click. Whether the item was installed stays
/// as it was.
pub proof fn request_is_taken_once(s: SettingsMenuView)
    ensures
        after_click(s).requested,
        after_click(after_click(s)) == after_click(s),
        !after_take(s).requested,
        after_take(after_click(s)) == after_take(s),
        after_click(s).installed == s.installed,
        after_take(s).installed == s.installed,
{
}

impl Default for SettingsMenu {
    fn default() -> (r: SettingsMenu)
        ensures
            r@ == (SettingsMenuView { requested: false, installed: false }),
    {
        SettingsMenu { requested: false, installed: false }
    }
}

impl SettingsMenu {
    /// Settings was chosen.
    pub fn open_settings(&mut self)
        ensures
            final(self)@ == after_click(old(self)@),
    {
        self.requested = true;
    }
}

/// Add "Settings…" to the application menu, in the place where it is expected: below
/// About, above Services.
///
/// `menu_found` says whether the application menu has been built. Does nothing if called
/// more than once, or before that.
pub fn install_settings_item(menu: &mut SettingsMenu, on_main_thread: bool, menu_found: bool) -> (r:
    Installation)
    ensures
        final(menu)@ == after_install(old(menu)@, on_main_thread),
        r.answers(old(menu)@, on_main_thread, menu_found),
{
    if !on_main_thread {
        return Installation::WrongThread;
    }
    if menu.installed {
        return Installation::AlreadyDone;
    }
    menu.installed = true;
    if !menu_found {
        return Installation::NoMenu;
    }
    // The entry at index 1 is the separator after About, so the new separator goes first
    // and Settings lands between the two.
    let mut insertions: Vec<MenuInsertion> = Vec::new();
    insertions.push(MenuInsertion { entry: MenuEntry::Separator, index: 1 });
    insertions.push(
        MenuInsertion {
            entry: MenuEntry::Item {
                title: "Settings…".to_owned(),
                action: "smbOpenSettings:".to_owned(),
                key_equivalent: ",".to_owned(),
            },
            index: 2,
        },
    );
    Installation::Insert(insertions)
}

/// Whether Settings was chosen since the last time this was asked.
///
/// Consumes the request, so the first caller wins and the window opens once.
pub fn take_settings_request(menu: &mut SettingsMenu) -> (r: bool)
    ensures
        r == old(menu)@.requested,
        final(menu)@ == after_take(old(menu)@),
{
    let requested = menu.requested;
    menu.requested = false;
    requested
}

} // verus!
