//! The tray menu: its entries, their order, their identifiers and labels.

use vstd::prelude::*;
use crate::registry::{valid_selection, Registry};
use crate::text::{join, opt_text, same_text};

verus! {

/// Identifier of the entry that asks for an update check.
pub const CHECK_FOR_UPDATES_ID: &'static str = "check_for_updates";

/// Identifier of the entry that shows the settings window.
pub const SHOW_ID: &'static str = "show";

/// Identifier of the entry that hides the settings window.
pub const HIDE_ID: &'static str = "hide";

/// Identifier of the entry that ends the program.
pub const QUIT_ID: &'static str = "quit";

/// Label of the update entry while no update is known.
pub const CHECK_FOR_UPDATES_LABEL: &'static str = "Check for Updates...";

/// Label of the update entry once an update is known to be available.
pub const UPDATE_AVAILABLE_LABEL: &'static str = "💡 New version available!";

/// Label of the entry that shows the settings window.
pub const SHOW_LABEL: &'static str = "Show";

/// Label of the entry that hides the settings window.
pub const HIDE_LABEL: &'static str = "Hide";

/// Label of the entry that ends the program.
pub const QUIT_LABEL: &'static str = "Quit";

/// What stands before the identifier in the label of the pinned entry.
pub const PINNED_MARK: &'static str = "✅ ";

/// The four fixed entries of the menu.
#[derive(Clone, Copy, Debug, PartialEq, Eq, Structural)]
pub enum ControlKind {
    CheckForUpdates,
    Show,
    Hide,
    Quit,
}

/// One entry of the menu.
#[derive(Clone, Debug, PartialEq, Eq)]
pub enum MenuItem {
    /// A fixed entry.
    Control(ControlKind),
    /// A time zone. The pinned entry repeats the current selection at the top.
    TimezoneEntry { id: String, pinned: bool },
}

/// A menu entry as a mathematical value.
pub enum MenuItemView {
    Control(ControlKind),
    TimezoneEntry { id: Seq<char>, pinned: bool },
}

impl View for MenuItem {
    type V = MenuItemView;

    open spec fn view(&self) -> MenuItemView {
        match *self {
            MenuItem::Control(kind) => MenuItemView::Control(kind),
            MenuItem::TimezoneEntry { id, pinned } => MenuItemView::TimezoneEntry { id: id@, pinned },
        }
    }
}

/// The menu as it is handed to the tray: rebuilt whenever the selection
/// changes, never stored.
#[derive(Clone, Debug, PartialEq, Eq)]
pub struct MenuState {
    pub items: Vec<MenuItem>,
    pub selected: Option<String>,
    pub update_available: bool,
}

/// A menu as a mathematical value.
pub struct MenuStateView {
    pub items: Seq<MenuItemView>,
    pub selected: Option<Seq<char>>,
    pub update_available: bool,
}

/// The entries of a vector of menu items as mathematical values.
pub open spec fn item_views(items: Seq<MenuItem>) -> Seq<MenuItemView> {
    items.map_values(|item: MenuItem| item@)
}

impl View for MenuState {
    type V = MenuStateView;

    open spec fn view(&self) -> MenuStateView {
        MenuStateView {
            items: item_views(self.items@),
            selected: opt_text(self.selected),
            update_available: self.update_available,
        }
    }
}

/// One plain entry per registry identifier, in registry order.
pub open spec fn zone_entries(registry: Seq<Seq<char>>) -> Seq<MenuItemView> {
    Seq::new(registry.len(), |i: int| MenuItemView::TimezoneEntry { id: registry[i], pinned: false })
}

/// The pinned entry of a valid selection, or nothing.
pub open spec fn pinned_entries(registry: Seq<Seq<char>>, selected: Option<Seq<char>>) -> Seq<
    MenuItemView,
> {
    match valid_selection(registry, selected) {
        Some(id) => seq![MenuItemView::TimezoneEntry { id, pinned: true }],
        None => Seq::empty(),
    }
}

/// The entries that close every menu.
pub open spec fn closing_entries() -> Seq<MenuItemView> {
    seq![
        MenuItemView::Control(ControlKind::Show),
        MenuItemView::Control(ControlKind::Hide),
        MenuItemView::Control(ControlKind::Quit),
    ]
}

/// The entries of the menu for a registry and a selection: the update entry,
/// the pinned selection if it is valid, every zone, then show, hide and quit.
pub open spec fn menu_items(registry: Seq<Seq<char>>, selected: Option<Seq<char>>) -> Seq<
    MenuItemView,
> {
    seq![MenuItemView::Control(ControlKind::CheckForUpdates)] + pinned_entries(registry, selected)
        + zone_entries(registry) + closing_entries()
}

/// The menu for a registry, a selection and the update flag.
pub open spec fn menu_of(
    registry: Seq<Seq<char>>,
    selected: Option<Seq<char>>,
    update_available: bool,
) -> MenuStateView {
    MenuStateView {
        items: menu_items(registry, selected),
        selected: valid_selection(registry, selected),
        update_available,
    }
}

/// Builds the menu. The result depends on the three arguments alone.
pub fn create_menu(registry: &Registry, selected: &Option<String>, update_available: bool) -> (menu:
    MenuState)
    ensures
        menu@ == menu_of(registry@, opt_text(*selected), update_available),
{
    let mut items: Vec<MenuItem> = Vec::new();
    items.push(MenuItem::Control(ControlKind::CheckForUpdates));
    let mut chosen: Option<String> = None;
    match selected {
        Some(id) => {
            if registry.is_valid(id.as_str()) {
                items.push(MenuItem::TimezoneEntry { id: id.clone(), pinned: true });
                chosen = Some(id.clone());
            }
        },
        None => {},
    }
    let ghost head = item_views(items@);
    assert(head =~= seq![MenuItemView::Control(ControlKind::CheckForUpdates)] + pinned_entries(
        registry@,
        opt_text(*selected),
    ));
    let count = registry.len();
    let mut i: usize = 0;
    while i < count
        invariant
            i <= count,
            count == registry@.len(),
            item_views(items@) =~= head + zone_entries(registry@).take(i as int),
        decreases count - i,
    {
        let id = registry.id_at(i).to_owned();
        let ghost before = items@;
        let entry = MenuItem::TimezoneEntry { id, pinned: false };
        assert(entry@ == zone_entries(registry@)[i as int]);
        items.push(entry);
        assert(item_views(items@) =~= item_views(before).push(entry@));
        assert(zone_entries(registry@).take(i + 1) =~= zone_entries(registry@).take(i as int).push(
            entry@,
        ));
        i += 1;
    }
    assert(zone_entries(registry@).take(count as int) =~= zone_entries(registry@));
    items.push(MenuItem::Control(ControlKind::Show));
    items.push(MenuItem::Control(ControlKind::Hide));
    items.push(MenuItem::Control(ControlKind::Quit));
    assert(item_views(items@) =~= menu_items(registry@, opt_text(*selected)));
    MenuState { items, selected: chosen, update_available }
}

/// The identifier under which a fixed entry is activated.
pub open spec fn control_id(kind: ControlKind) -> Seq<char> {
    match kind {
        ControlKind::CheckForUpdates => CHECK_FOR_UPDATES_ID@,
        ControlKind::Show => SHOW_ID@,
        ControlKind::Hide => HIDE_ID@,
        ControlKind::Quit => QUIT_ID@,
    }
}

/// The fixed entry that an identifier activates, if it is one of the four.
pub open spec fn control_with_id(id: Seq<char>) -> Option<ControlKind> {
    if id == CHECK_FOR_UPDATES_ID@ {
        Some(ControlKind::CheckForUpdates)
    } else if id == SHOW_ID@ {
        Some(ControlKind::Show)
    } else if id == HIDE_ID@ {
        Some(ControlKind::Hide)
    } else if id == QUIT_ID@ {
        Some(ControlKind::Quit)
    } else {
        None
    }
}

/// The label of a fixed entry. Only the update entry depends on the flag.
pub open spec fn control_label(kind: ControlKind, update_available: bool) -> Seq<char> {
    match kind {
        ControlKind::CheckForUpdates => if update_available {
            UPDATE_AVAILABLE_LABEL@
        } else {
            CHECK_FOR_UPDATES_LABEL@
        },
        ControlKind::Show => SHOW_LABEL@,
        ControlKind::Hide => HIDE_LABEL@,
        ControlKind::Quit => QUIT_LABEL@,
    }
}

/// The identifier of an entry: a zone entry is activated under its zone.
pub open spec fn item_id(item: MenuItemView) -> Seq<char> {
    match item {
        MenuItemView::Control(kind) => control_id(kind),
        MenuItemView::TimezoneEntry { id, pinned } => id,
    }
}

/// The label of an entry: a zone entry shows its zone, the pinned one behind
/// the mark.
pub open spec fn item_label(item: MenuItemView, update_available: bool) -> Seq<char> {
    match item {
        MenuItemView::Control(kind) => control_label(kind, update_available),
        MenuItemView::TimezoneEntry { id, pinned } => if pinned {
            PINNED_MARK@ + id
        } else {
            id
        },
    }
}

impl ControlKind {
    /// The identifier under which this entry is activated.
    pub fn id(&self) -> (id: &'static str)
        ensures
            id@ == control_id(*self),
    {
        match self {
            ControlKind::CheckForUpdates => CHECK_FOR_UPDATES_ID,
            ControlKind::Show => SHOW_ID,
            ControlKind::Hide => HIDE_ID,
            ControlKind::Quit => QUIT_ID,
        }
    }

    /// The label of this entry.
    pub fn label(&self, update_available: bool) -> (label: &'static str)
        ensures
            label@ == control_label(*self, update_available),
    {
        match self {
            ControlKind::CheckForUpdates => {
                if update_available {
                    UPDATE_AVAILABLE_LABEL
                } else {
                    CHECK_FOR_UPDATES_LABEL
                }
            },
            ControlKind::Show => SHOW_LABEL,
            ControlKind::Hide => HIDE_LABEL,
            ControlKind::Quit => QUIT_LABEL,
        }
    }
}

/// The fixed entry that `id` activates, if it is one of the four.
pub fn control_of(id: &str) -> (kind: Option<ControlKind>)
    ensures
        kind == control_with_id(id@),
{
    if same_text(id, CHECK_FOR_UPDATES_ID) {
        Some(ControlKind::CheckForUpdates)
    } else if same_text(id, SHOW_ID) {
        Some(ControlKind::Show)
    } else if same_text(id, HIDE_ID) {
        Some(ControlKind::Hide)
    } else if same_text(id, QUIT_ID) {
        Some(ControlKind::Quit)
    } else {
        None
    }
}

impl MenuItem {
    /// The identifier under which this entry is activated.
    pub fn id(&self) -> (id: String)
        ensures
            id@ == item_id(self@),
    {
        match self {
            MenuItem::Control(kind) => kind.id().to_owned(),
            MenuItem::TimezoneEntry { id, pinned } => id.clone(),
        }
    }

    /// The label of this entry.
    pub fn label(&self, update_available: bool) -> (label: String)
        ensures
            label@ == item_label(self@, update_available),
    {
        match self {
            MenuItem::Control(kind) => kind.label(update_available).to_owned(),
            MenuItem::TimezoneEntry { id, pinned } => {
                if *pinned {
                    join(PINNED_MARK, id.as_str())
                } else {
                    id.clone()
                }
            },
        }
    }
}

/// The four fixed entries have four identifiers: each identifier leads back
/// to its own entry.
pub proof fn control_ids_are_distinct(kind: ControlKind)
    ensures
        control_with_id(control_id(kind)) == Some(kind),
{
    reveal_strlit("check_for_updates");
    reveal_strlit("show");
    reveal_strlit("hide");
    reveal_strlit("quit");
    assert(CHECK_FOR_UPDATES_ID@.len() == 17);
    assert(SHOW_ID@[0] == 's');
    assert(HIDE_ID@[0] == 'h');
    assert(QUIT_ID@[0] == 'q');
}

/// Picks the plain zone entries of a menu.
pub open spec fn plain_zones() -> spec_fn(MenuItemView) -> bool {
    |item: MenuItemView| item matches MenuItemView::TimezoneEntry { pinned, .. } && !pinned
}

/// Picks the pinned zone entries of a menu.
pub open spec fn pinned_zones() -> spec_fn(MenuItemView) -> bool {
    |item: MenuItemView| item matches MenuItemView::TimezoneEntry { pinned, .. } && pinned
}

/// Picks the fixed entries of a menu.
pub open spec fn controls() -> spec_fn(MenuItemView) -> bool {
    |item: MenuItemView| item is Control
}

/// The identifiers of a sequence of entries.
pub open spec fn item_ids(items: Seq<MenuItemView>) -> Seq<Seq<char>> {
    items.map_values(|item: MenuItemView| item_id(item))
}

/// A filter keeps a sequence whose every element it accepts.
proof fn filter_keeps_all(items: Seq<MenuItemView>, keep: spec_fn(MenuItemView) -> bool)
    requires
        forall|i: int| 0 <= i < items.len() ==> keep(#[trigger] items[i]),
    ensures
        items.filter(keep) == items,
    decreases items.len(),
{
    reveal(Seq::filter);
    if items.len() > 0 {
        filter_keeps_all(items.drop_last(), keep);
        assert(items.drop_last().push(items.last()) =~= items);
    }
}

/// A filter empties a sequence none of whose elements it accepts.
proof fn filter_drops_all(items: Seq<MenuItemView>, keep: spec_fn(MenuItemView) -> bool)
    requires
        forall|i: int| 0 <= i < items.len() ==> !keep(#[trigger] items[i]),
    ensures
        items.filter(keep) == Seq::<MenuItemView>::empty(),
    decreases items.len(),
{
    reveal(Seq::filter);
    if items.len() > 0 {
        filter_drops_all(items.drop_last(), keep);
    }
}

/// What a filter leaves of a menu: what it leaves of each of the four parts.
proof fn filter_by_parts(
    registry: Seq<Seq<char>>,
    selected: Option<Seq<char>>,
    keep: spec_fn(MenuItemView) -> bool,
)
    ensures
        menu_items(registry, selected).filter(keep) == seq![
            MenuItemView::Control(ControlKind::CheckForUpdates),
        ].filter(keep) + pinned_entries(registry, selected).filter(keep) + zone_entries(
            registry,
        ).filter(keep) + closing_entries().filter(keep),
{
    let first = seq![MenuItemView::Control(ControlKind::CheckForUpdates)];
    let pinned = pinned_entries(registry, selected);
    let zones = zone_entries(registry);
    Seq::filter_distributes_over_add(first, pinned, keep);
    Seq::filter_distributes_over_add(first + pinned, zones, keep);
    Seq::filter_distributes_over_add(first + pinned + zones, closing_entries(), keep);
}

/// The menu is complete. Its plain zone entries are the registry's
/// identifiers, each once and in registry order; its pinned entries are the
/// one for the selection where the selection is valid, and none otherwise;
/// its fixed entries are the four controls; and it holds nothing else.
pub proof fn menu_is_complete(registry: Seq<Seq<char>>, selected: Option<Seq<char>>)
    ensures
        item_ids(menu_items(registry, selected).filter(plain_zones())) == registry,
        menu_items(registry, selected).filter(pinned_zones()) == pinned_entries(registry, selected),
        valid_selection(registry, selected) is Some ==> pinned_entries(registry, selected).len()
            == 1,
        valid_selection(registry, selected) is None ==> pinned_entries(registry, selected).len()
            == 0,
        menu_items(registry, selected).filter(controls()) == seq![
            MenuItemView::Control(ControlKind::CheckForUpdates),
            MenuItemView::Control(ControlKind::Show),
            MenuItemView::Control(ControlKind::Hide),
            MenuItemView::Control(ControlKind::Quit),
        ],
        menu_items(registry, selected).len() == registry.len() + pinned_entries(
            registry,
            selected,
        ).len() + 4,
{
    let first = seq![MenuItemView::Control(ControlKind::CheckForUpdates)];
    let pinned = pinned_entries(registry, selected);
    let zones = zone_entries(registry);
    let closing = closing_entries();

    filter_by_parts(registry, selected, plain_zones());
    filter_drops_all(first, plain_zones());
    filter_drops_all(pinned, plain_zones());
    filter_keeps_all(zones, plain_zones());
    filter_drops_all(closing, plain_zones());
    assert(menu_items(registry, selected).filter(plain_zones()) =~= zones);
    assert(item_ids(zones) =~= registry);

    filter_by_parts(registry, selected, pinned_zones());
    filter_drops_all(first, pinned_zones());
    filter_keeps_all(pinned, pinned_zones());
    filter_drops_all(zones, pinned_zones());
    filter_drops_all(closing, pinned_zones());
    assert(menu_items(registry, selected).filter(pinned_zones()) =~= pinned);

    filter_by_parts(registry, selected, controls());
    filter_keeps_all(first, controls());
    filter_drops_all(pinned, controls());
    filter_drops_all(zones, controls());
    filter_keeps_all(closing, controls());
    assert(menu_items(registry, selected).filter(controls()) =~= first + closing);
    assert(first + closing =~= seq![
        MenuItemView::Control(ControlKind::CheckForUpdates),
        MenuItemView::Control(ControlKind::Show),
        MenuItemView::Control(ControlKind::Hide),
        MenuItemView::Control(ControlKind::Quit),
    ]);
}

} // verus!
