use vstd::prelude::*;
use vstd::string::StringExecFns;
use crate::text::same_text;

verus! {

/// A command of the native menu that the UI layer handles.
#[derive(Clone, Copy, Debug, PartialEq, Eq, Structural)]
pub enum MenuAction {
    CommandPalette,
    WordWrap,
    ToggleComment,
    NewTab,
    OpenFile,
    SaveFile,
    SaveFileAs,
    FormatDocument,
    ColumnSelection,
    ToggleTheme,
}

impl MenuAction {
    /// The identifier of the action's menu item.
    pub open spec fn spec_id(self) -> Seq<char> {
        match self {
            MenuAction::CommandPalette => "command_palette"@,
            MenuAction::WordWrap => "word_wrap"@,
            MenuAction::ToggleComment => "toggle_comment"@,
            MenuAction::NewTab => "new_tab"@,
            MenuAction::OpenFile => "open_file"@,
            MenuAction::SaveFile => "save_file"@,
            MenuAction::SaveFileAs => "save_file_as"@,
            MenuAction::FormatDocument => "format_document"@,
            MenuAction::ColumnSelection => "column_selection"@,
            MenuAction::ToggleTheme => "toggle_theme"@,
        }
    }

    /// The event sent to the UI layer when the action's item is activated.
    pub open spec fn spec_event(self) -> Seq<char> {
        match self {
            MenuAction::CommandPalette => "menu-command-palette"@,
            MenuAction::WordWrap => "menu-word-wrap"@,
            MenuAction::ToggleComment => "menu-toggle-comment"@,
            MenuAction::NewTab => "menu-new-tab"@,
            MenuAction::OpenFile => "menu-open-file"@,
            MenuAction::SaveFile => "menu-save-file"@,
            MenuAction::SaveFileAs => "menu-save-file-as"@,
            MenuAction::FormatDocument => "menu-format-document"@,
            MenuAction::ColumnSelection => "menu-column-selection"@,
            MenuAction::ToggleTheme => "menu-toggle-theme"@,
        }
    }

    pub fn id(&self) -> (r: &'static str)
        ensures
            r@ == self.spec_id(),
    {
        match self {
            MenuAction::CommandPalette => "command_palette",
            MenuAction::WordWrap => "word_wrap",
            MenuAction::ToggleComment => "toggle_comment",
            MenuAction::NewTab => "new_tab",
            MenuAction::OpenFile => "open_file",
            MenuAction::SaveFile => "save_file",
            MenuAction::SaveFileAs => "save_file_as",
            MenuAction::FormatDocument => "format_document",
            MenuAction::ColumnSelection => "column_selection",
            MenuAction::ToggleTheme => "toggle_theme",
        }
    }

    pub fn event(&self) -> (r: &'static str)
        ensures
            r@ == self.spec_event(),
    {
        match self {
            MenuAction::CommandPalette => "menu-command-palette",
            MenuAction::WordWrap => "menu-word-wrap",
            MenuAction::ToggleComment => "menu-toggle-comment",
            MenuAction::NewTab => "menu-new-tab",
            MenuAction::OpenFile => "menu-open-file",
            MenuAction::SaveFile => "menu-save-file",
            MenuAction::SaveFileAs => "menu-save-file-as",
            MenuAction::FormatDocument => "menu-format-document",
            MenuAction::ColumnSelection => "menu-column-selection",
            MenuAction::ToggleTheme => "menu-toggle-theme",
        }
    }
}

/// The number of actions.
pub const ACTION_COUNT: usize = 10;

/// The actions, numbered in the order in which their events are listed.
pub open spec fn action_at(k: int) -> MenuAction {
    if k == 0 {
        MenuAction::CommandPalette
    } else if k == 1 {
        MenuAction::WordWrap
    } else if k == 2 {
        MenuAction::ToggleComment
    } else if k == 3 {
        MenuAction::NewTab
    } else if k == 4 {
        MenuAction::OpenFile
    } else if k == 5 {
        MenuAction::SaveFile
    } else if k == 6 {
        MenuAction::SaveFileAs
    } else if k == 7 {
        MenuAction::FormatDocument
    } else if k == 8 {
        MenuAction::ColumnSelection
    } else {
        MenuAction::ToggleTheme
    }
}

/// The number of an action.
pub open spec fn action_index(a: MenuAction) -> int {
    match a {
        MenuAction::CommandPalette => 0,
        MenuAction::WordWrap => 1,
        MenuAction::ToggleComment => 2,
        MenuAction::NewTab => 3,
        MenuAction::OpenFile => 4,
        MenuAction::SaveFile => 5,
        MenuAction::SaveFileAs => 6,
        MenuAction::FormatDocument => 7,
        MenuAction::ColumnSelection => 8,
        MenuAction::ToggleTheme => 9,
    }
}

/// Numbering the actions is a bijection onto `0..ACTION_COUNT`.
pub proof fn lemma_action_numbering(a: MenuAction, k: int)
    ensures
        0 <= action_index(a) < ACTION_COUNT,
        action_at(action_index(a)) == a,
        0 <= k < ACTION_COUNT ==> action_index(action_at(k)) == k,
{
}

/// Distinct actions have distinct identifiers.
pub proof fn lemma_action_ids_distinct(a: MenuAction, b: MenuAction)
    ensures
        a != b ==> a.spec_id() != b.spec_id(),
{
    reveal_strlit("command_palette");
    reveal_strlit("word_wrap");
    reveal_strlit("toggle_comment");
    reveal_strlit("new_tab");
    reveal_strlit("open_file");
    reveal_strlit("save_file");
    reveal_strlit("save_file_as");
    reveal_strlit("format_document");
    reveal_strlit("column_selection");
    reveal_strlit("toggle_theme");
    if a != b {
        if a.spec_id() == b.spec_id() {
            assert(a.spec_id().len() == b.spec_id().len());
            assert(a.spec_id()[0] == b.spec_id()[0]);
        }
    }
}

/// The action numbered `k`.
pub fn nth_action(k: usize) -> (r: MenuAction)
    requires
        k < ACTION_COUNT,
    ensures
        r == action_at(k as int),
{
    if k == 0 {
        MenuAction::CommandPalette
    } else if k == 1 {
        MenuAction::WordWrap
    } else if k == 2 {
        MenuAction::ToggleComment
    } else if k == 3 {
        MenuAction::NewTab
    } else if k == 4 {
        MenuAction::OpenFile
    } else if k == 5 {
        MenuAction::SaveFile
    } else if k == 6 {
        MenuAction::SaveFileAs
    } else if k == 7 {
        MenuAction::FormatDocument
    } else if k == 8 {
        MenuAction::ColumnSelection
    } else {
        MenuAction::ToggleTheme
    }
}

/// The action whose menu item has identifier `id`, if any.
pub fn action_for_id(id: &str) -> (r: Option<MenuAction>)
    ensures
        match r {
            Some(a) => a.spec_id() == id@,
            None => forall|a: MenuAction| a.spec_id() != id@,
        },
{
    let mut k: usize = 0;
    while k < ACTION_COUNT
        invariant
            k <= ACTION_COUNT,
            forall|j: int| 0 <= j < k ==> (#[trigger] action_at(j)).spec_id() != id@,
        decreases ACTION_COUNT - k,
    {
        let a = nth_action(k);
        if same_text(a.id(), id) {
            return Some(a);
        }
        k = k + 1;
    }
    assert forall|a: MenuAction| a.spec_id() != id@ by {
        lemma_action_numbering(a, 0);
        assert(action_at(action_index(a)).spec_id() != id@);
    }
    None
}

/// A menu item that the host runtime provides and handles itself.
#[derive(Clone, Copy, Debug, PartialEq, Eq, Structural)]
pub enum StandardItem {
    About,
    Services,
    Hide,
    HideOthers,
    ShowAll,
    Quit,
    CloseWindow,
    Undo,
    Redo,
    Cut,
    Copy,
    Paste,
    SelectAll,
    Fullscreen,
    Minimize,
    Maximize,
}

/// A custom menu item, routed to the UI layer by its identifier.
pub struct CommandItem {
    pub id: String,
    pub label: String,
    /// Descriptive only: the host matches shortcuts itself.
    pub accelerator: Option<String>,
}

pub enum MenuEntry {
    Command(CommandItem),
    Separator,
    /// A host item, with the label that replaces its default, if any.
    Standard(StandardItem, Option<String>),
}

/// A top-level menu and its entries, in order.
pub struct MenuGroup {
    pub title: String,
    pub entries: Vec<MenuEntry>,
}

/// The event that activating the item with identifier `id` sends.
pub struct Binding {
    pub id: String,
    pub event: String,
}

/// Why a menu cannot be built.
#[derive(Debug, PartialEq, Eq)]
pub enum MenuError {
    /// A custom item whose identifier has no event.
    Unmapped(String),
    /// An identifier bound to more than one event.
    Duplicate(String),
}

/// The identifier of entry `e` of group `g`, where that entry is a custom item.
pub open spec fn command_id_at(menu: Seq<MenuGroup>, g: int, e: int) -> Option<Seq<char>> {
    match menu[g].entries@[e] {
        MenuEntry::Command(c) => Some(c.id@),
        _ => None,
    }
}

/// Whether some custom item of `menu` has identifier `id`.
pub open spec fn is_command_id(menu: Seq<MenuGroup>, id: Seq<char>) -> bool {
    exists|g: int, e: int|
        0 <= g < menu.len() && 0 <= e < menu[g].entries@.len() && #[trigger] command_id_at(menu, g, e)
            == Some(id)
}

/// Whether some binding has identifier `id`.
pub open spec fn has_binding(bindings: Seq<Binding>, id: Seq<char>) -> bool {
    exists|k: int| 0 <= k < bindings.len() && (#[trigger] bindings[k]).id@ == id
}

/// Every custom item of `menu` has an event.
pub open spec fn all_bound(menu: Seq<MenuGroup>, bindings: Seq<Binding>) -> bool {
    forall|id: Seq<char>| #[trigger] is_command_id(menu, id) ==> has_binding(bindings, id)
}

/// No identifier is bound twice.
pub open spec fn ids_unique(bindings: Seq<Binding>) -> bool {
    forall|i: int, j: int|
        0 <= i < j < bindings.len() ==> (#[trigger] bindings[i]).id@ != (#[trigger] bindings[j]).id@
}

/// The position of the first binding with identifier `id`.
pub fn find_binding(bindings: &Vec<Binding>, id: &str) -> (r: Option<usize>)
    ensures
        match r {
            Some(k) => k < bindings@.len() && bindings@[k as int].id@ == id@ && forall|j: int|
                0 <= j < k ==> (#[trigger] bindings@[j]).id@ != id@,
            None => !has_binding(bindings@, id@),
        },
{
    let mut k: usize = 0;
    while k < bindings.len()
        invariant
            k <= bindings@.len(),
            forall|j: int| 0 <= j < k ==> (#[trigger] bindings@[j]).id@ != id@,
        decreases bindings.len() - k,
    {
        if same_text(bindings[k].id.as_str(), id) {
            return Some(k);
        }
        k = k + 1;
    }
    None
}

/// A menu whose every custom item is bound to exactly one event.
pub struct Router {
    menu: Vec<MenuGroup>,
    bindings: Vec<Binding>,
}

impl Router {
    pub closed spec fn spec_menu(&self) -> Seq<MenuGroup> {
        self.menu@
    }

    pub closed spec fn spec_bindings(&self) -> Seq<Binding> {
        self.bindings@
    }

    /// Holds of every router that `build` returns.
    pub open spec fn wf(&self) -> bool {
        all_bound(self.spec_menu(), self.spec_bindings()) && ids_unique(self.spec_bindings())
    }

    /// Checks, once, that every custom item of `menu` has exactly one event
    /// among `bindings`, and keeps both for routing.
    pub fn build(menu: Vec<MenuGroup>, bindings: Vec<Binding>) -> (r: Result<Router, MenuError>)
        ensures
            r is Ok <==> all_bound(menu@, bindings@) && ids_unique(bindings@),
            match r {
                Ok(router) => router.spec_menu() == menu@ && router.spec_bindings() == bindings@
                    && router.wf(),
                Err(MenuError::Unmapped(id)) => is_command_id(menu@, id@) && !has_binding(
                    bindings@,
                    id@,
                ),
                Err(MenuError::Duplicate(id)) => exists|i: int, j: int|
                    0 <= i < j < bindings@.len() && bindings@[i].id@ == id@ && bindings@[j].id@
                        == id@,
            },
    {
        let mut g: usize = 0;
        while g < menu.len()
            invariant
                g <= menu@.len(),
                forall|gg: int, e: int|
                    0 <= gg < g && 0 <= e < menu@[gg].entries@.len() && (#[trigger] command_id_at(
                        menu@,
                        gg,
                        e,
                    )) is Some ==> has_binding(bindings@, command_id_at(menu@, gg, e).unwrap()),
            decreases menu.len() - g,
        {
            let entries = &menu[g].entries;
            let mut e: usize = 0;
            while e < entries.len()
                invariant
                    g < menu@.len(),
                    entries == menu@[g as int].entries,
                    e <= entries@.len(),
                    forall|gg: int, ee: int|
                        0 <= gg < g && 0 <= ee < menu@[gg].entries@.len() && (#[trigger] command_id_at(
                            menu@,
                            gg,
                            ee,
                        )) is Some ==> has_binding(bindings@, command_id_at(menu@, gg, ee).unwrap()),
                    forall|ee: int|
                        0 <= ee < e && (#[trigger] command_id_at(menu@, g as int, ee)) is Some
                            ==> has_binding(bindings@, command_id_at(menu@, g as int, ee).unwrap()),
                decreases entries.len() - e,
            {
                match &entries[e] {
                    MenuEntry::Command(c) => {
                        if find_binding(&bindings, c.id.as_str()).is_none() {
                            assert(command_id_at(menu@, g as int, e as int) == Some(c.id@));
                            assert(is_command_id(menu@, c.id@));
                            return Err(MenuError::Unmapped(c.id.clone()));
                        }
                    },
                    _ => {},
                }
                e = e + 1;
            }
            g = g + 1;
        }
        assert forall|id: Seq<char>| #[trigger] is_command_id(menu@, id) implies has_binding(
            bindings@,
            id,
        ) by {
            let (gg, ee) = choose|gg: int, ee: int|
                0 <= gg < menu@.len() && 0 <= ee < menu@[gg].entries@.len() && #[trigger] command_id_at(
                    menu@,
                    gg,
                    ee,
                ) == Some(id);
            assert(command_id_at(menu@, gg, ee) is Some);
        }
        let mut k: usize = 0;
        while k < bindings.len()
            invariant
                k <= bindings@.len(),
                forall|i: int, j: int|
                    0 <= i < j < k ==> (#[trigger] bindings@[i]).id@ != (#[trigger] bindings@[j]).id@,
            decreases bindings.len() - k,
        {
            let mut j: usize = 0;
            while j < k
                invariant
                    k < bindings@.len(),
                    j <= k,
                    forall|i: int, jj: int|
                        0 <= i < jj < k ==> (#[trigger] bindings@[i]).id@ != (#[trigger] bindings@[jj]).id@,
                    forall|i: int| 0 <= i < j ==> (#[trigger] bindings@[i]).id@ != bindings@[k as int].id@,
                decreases k - j,
            {
                if same_text(bindings[j].id.as_str(), bindings[k].id.as_str()) {
                    return Err(MenuError::Duplicate(bindings[k].id.clone()));
                }
                j = j + 1;
            }
            k = k + 1;
        }
        Ok(Router { menu, bindings })
    }

    /// The menu, for the host to display.
    pub fn menu(&self) -> (r: &Vec<MenuGroup>)
        ensures
            r@ == self.spec_menu(),
    {
        &self.menu
    }

    /// The event that activating the item with identifier `id` sends; `None`
    /// for an identifier that the router does not know, which is ignored.
    pub fn dispatch(&self, id: &str) -> (r: Option<String>)
        requires
            self.wf(),
        ensures
            match r {
                Some(ev) => exists|k: int|
                    0 <= k < self.spec_bindings().len() && self.spec_bindings()[k].id@ == id@
                        && self.spec_bindings()[k].event@ == ev@,
                None => !has_binding(self.spec_bindings(), id@),
            },
    {
        match find_binding(&self.bindings, id) {
            Some(k) => Some(self.bindings[k].event.clone()),
            None => None,
        }
    }
}

/// A menu cannot be built while one of its custom items has no event:
/// `build` succeeds only where `all_bound` holds, and one unmapped
/// identifier breaks it.
pub proof fn lemma_unmapped_item_blocks_build(menu: Seq<MenuGroup>, bindings: Seq<Binding>, id: Seq<char>)
    requires
        is_command_id(menu, id),
        !has_binding(bindings, id),
    ensures
        !all_bound(menu, bindings),
{
}

/// Routing is total: in a router that was built, the identifier of every
/// custom item is bound, so `dispatch` never ignores its activation.
pub proof fn lemma_router_total(r: Router, id: Seq<char>)
    requires
        r.wf(),
        is_command_id(r.spec_menu(), id),
    ensures
        has_binding(r.spec_bindings(), id),
{
}

/// The binding of every action to its event, in the order of the actions.
pub fn standard_bindings() -> (r: Vec<Binding>)
    ensures
        r@.len() == ACTION_COUNT,
        forall|k: int|
            0 <= k < ACTION_COUNT ==> (#[trigger] r@[k]).id@ == action_at(k).spec_id() && r@[k].event@
                == action_at(k).spec_event(),
        forall|a: MenuAction| has_binding(r@, #[trigger] a.spec_id()),
        ids_unique(r@),
{
    let mut r: Vec<Binding> = Vec::new();
    let mut k: usize = 0;
    while k < ACTION_COUNT
        invariant
            k <= ACTION_COUNT,
            r@.len() == k,
            forall|j: int|
                0 <= j < k ==> (#[trigger] r@[j]).id@ == action_at(j).spec_id() && r@[j].event@
                    == action_at(j).spec_event(),
        decreases ACTION_COUNT - k,
    {
        let a = nth_action(k);
        r.push(Binding { id: String::from_str(a.id()), event: String::from_str(a.event()) });
        k = k + 1;
    }
    assert forall|a: MenuAction| has_binding(r@, #[trigger] a.spec_id()) by {
        lemma_action_numbering(a, 0);
        assert(r@[action_index(a)].id@ == a.spec_id());
    }
    assert forall|i: int, j: int|
        0 <= i < j < r@.len() implies (#[trigger] r@[i]).id@ != (#[trigger] r@[j]).id@ by {
        lemma_action_ids_distinct(action_at(i), action_at(j));
        lemma_action_numbering(action_at(i), i);
        lemma_action_numbering(action_at(j), j);
    }
    r
}

/// Whether a custom item, if `e` is one, belongs to an action.
pub open spec fn entry_is_action(e: MenuEntry) -> bool {
    match e {
        MenuEntry::Command(c) => exists|a: MenuAction| a.spec_id() == c.id@,
        _ => true,
    }
}

pub open spec fn entries_are_actions(s: Seq<MenuEntry>) -> bool {
    forall|i: int| 0 <= i < s.len() ==> entry_is_action(#[trigger] s[i])
}

/// Entry `i` of `s` is the item of action `a`.
pub open spec fn has_command(s: Seq<MenuEntry>, i: int, a: MenuAction) -> bool {
    0 <= i < s.len() && match s[i] {
        MenuEntry::Command(c) => c.id@ == a.spec_id(),
        _ => false,
    }
}

fn push_entry(v: &mut Vec<MenuEntry>, e: MenuEntry)
    requires
        entries_are_actions(old(v)@),
        entry_is_action(e),
    ensures
        final(v)@ == old(v)@.push(e),
        entries_are_actions(final(v)@),
{
    v.push(e);
    assert forall|i: int| 0 <= i < final(v)@.len() implies entry_is_action(#[trigger] final(v)@[i]) by {
        if i < old(v)@.len() {
            assert(final(v)@[i] == old(v)@[i]);
        }
    }
}

fn owned(s: Option<&str>) -> (r: Option<String>)
    ensures
        match s {
            Some(t) => r matches Some(u) && u@ == t@,
            None => r is None,
        },
{
    match s {
        Some(t) => Some(String::from_str(t)),
        None => None,
    }
}

/// The item of action `a`.
fn command(a: MenuAction, label: &str, accelerator: Option<&str>) -> (r: MenuEntry)
    ensures
        entry_is_action(r),
        match r {
            MenuEntry::Command(c) => c.id@ == a.spec_id() && c.label@ == label@,
            _ => false,
        },
{
    MenuEntry::Command(
        CommandItem {
            id: String::from_str(a.id()),
            label: String::from_str(label),
            accelerator: owned(accelerator),
        },
    )
}

fn standard(item: StandardItem) -> (r: MenuEntry)
    ensures
        entry_is_action(r),
        r matches MenuEntry::Standard(i, None) && i == item,
{
    MenuEntry::Standard(item, None)
}

fn application_group() -> (r: MenuGroup)
    ensures
        r.title@ == "skriv"@,
        entries_are_actions(r.entries@),
{
    let mut v: Vec<MenuEntry> = Vec::new();
    push_entry(&mut v, MenuEntry::Standard(StandardItem::About, Some(String::from_str("About skriv"))));
    push_entry(&mut v, MenuEntry::Separator);
    push_entry(&mut v, standard(StandardItem::Services));
    push_entry(&mut v, MenuEntry::Separator);
    push_entry(&mut v, standard(StandardItem::Hide));
    push_entry(&mut v, standard(StandardItem::HideOthers));
    push_entry(&mut v, standard(StandardItem::ShowAll));
    push_entry(&mut v, MenuEntry::Separator);
    push_entry(&mut v, standard(StandardItem::Quit));
    MenuGroup { title: String::from_str("skriv"), entries: v }
}

fn file_group() -> (r: MenuGroup)
    ensures
        r.title@ == "File"@,
        entries_are_actions(r.entries@),
        has_command(r.entries@, 0, MenuAction::NewTab),
        has_command(r.entries@, 1, MenuAction::OpenFile),
        has_command(r.entries@, 3, MenuAction::SaveFile),
        has_command(r.entries@, 4, MenuAction::SaveFileAs),
{
    let mut v: Vec<MenuEntry> = Vec::new();
    push_entry(&mut v, command(MenuAction::NewTab, "New Tab", Some("CmdOrCtrl+N")));
    push_entry(&mut v, command(MenuAction::OpenFile, "Open...", Some("CmdOrCtrl+O")));
    push_entry(&mut v, MenuEntry::Separator);
    push_entry(&mut v, command(MenuAction::SaveFile, "Save", Some("CmdOrCtrl+S")));
    push_entry(&mut v, command(MenuAction::SaveFileAs, "Save As...", Some("CmdOrCtrl+Shift+S")));
    push_entry(&mut v, MenuEntry::Separator);
    push_entry(&mut v, standard(StandardItem::CloseWindow));
    MenuGroup { title: String::from_str("File"), entries: v }
}

fn edit_group() -> (r: MenuGroup)
    ensures
        r.title@ == "Edit"@,
        entries_are_actions(r.entries@),
        has_command(r.entries@, 8, MenuAction::ToggleComment),
        has_command(r.entries@, 9, MenuAction::FormatDocument),
        has_command(r.entries@, 10, MenuAction::ColumnSelection),
{
    let mut v: Vec<MenuEntry> = Vec::new();
    push_entry(&mut v, standard(StandardItem::Undo));
    push_entry(&mut v, standard(StandardItem::Redo));
    push_entry(&mut v, MenuEntry::Separator);
    push_entry(&mut v, standard(StandardItem::Cut));
    push_entry(&mut v, standard(StandardItem::Copy));
    push_entry(&mut v, standard(StandardItem::Paste));
    push_entry(&mut v, standard(StandardItem::SelectAll));
    push_entry(&mut v, MenuEntry::Separator);
    push_entry(&mut v, command(MenuAction::ToggleComment, "Toggle Comment", Some("CmdOrCtrl+Shift+C")));
    push_entry(&mut v, command(MenuAction::FormatDocument, "Format Document", Some("CmdOrCtrl+Shift+F")));
    push_entry(&mut v, command(MenuAction::ColumnSelection, "Column Selection", None));
    MenuGroup { title: String::from_str("Edit"), entries: v }
}

fn view_group() -> (r: MenuGroup)
    ensures
        r.title@ == "View"@,
        entries_are_actions(r.entries@),
        has_command(r.entries@, 0, MenuAction::CommandPalette),
        has_command(r.entries@, 2, MenuAction::WordWrap),
        has_command(r.entries@, 3, MenuAction::ToggleTheme),
{
    let mut v: Vec<MenuEntry> = Vec::new();
    push_entry(&mut v, command(MenuAction::CommandPalette, "Command Palette", Some("Super+Shift+P")));
    push_entry(&mut v, MenuEntry::Separator);
    push_entry(&mut v, command(MenuAction::WordWrap, "Word Wrap", Some("Alt+Z")));
    push_entry(&mut v, command(MenuAction::ToggleTheme, "Toggle Theme", None));
    push_entry(&mut v, MenuEntry::Separator);
    push_entry(&mut v, standard(StandardItem::Fullscreen));
    MenuGroup { title: String::from_str("View"), entries: v }
}

fn window_group() -> (r: MenuGroup)
    ensures
        r.title@ == "Window"@,
        entries_are_actions(r.entries@),
{
    let mut v: Vec<MenuEntry> = Vec::new();
    push_entry(&mut v, standard(StandardItem::Minimize));
    push_entry(&mut v, standard(StandardItem::Maximize));
    MenuGroup { title: String::from_str("Window"), entries: v }
}

fn help_group() -> (r: MenuGroup)
    ensures
        r.title@ == "Help"@,
        r.entries@.len() == 0,
{
    MenuGroup { title: String::from_str("Help"), entries: Vec::new() }
}

/// The application menu: the application, File, Edit, View, Window and
/// Help groups, holding the item of every action and no other custom item.
pub fn standard_menu() -> (r: Vec<MenuGroup>)
    ensures
        r@.len() == 6,
        r@[0].title@ == "skriv"@,
        r@[1].title@ == "File"@,
        r@[2].title@ == "Edit"@,
        r@[3].title@ == "View"@,
        r@[4].title@ == "Window"@,
        r@[5].title@ == "Help"@,
        forall|g: int| 0 <= g < r@.len() ==> entries_are_actions(#[trigger] r@[g].entries@),
        forall|a: MenuAction| is_command_id(r@, #[trigger] a.spec_id()),
{
    let mut r: Vec<MenuGroup> = Vec::new();
    r.push(application_group());
    r.push(file_group());
    r.push(edit_group());
    r.push(view_group());
    r.push(window_group());
    r.push(help_group());
    assert forall|a: MenuAction| is_command_id(r@, #[trigger] a.spec_id()) by {
        match a {
            MenuAction::NewTab => assert(command_id_at(r@, 1, 0) == Some(a.spec_id())),
            MenuAction::OpenFile => assert(command_id_at(r@, 1, 1) == Some(a.spec_id())),
            MenuAction::SaveFile => assert(command_id_at(r@, 1, 3) == Some(a.spec_id())),
            MenuAction::SaveFileAs => assert(command_id_at(r@, 1, 4) == Some(a.spec_id())),
            MenuAction::ToggleComment => assert(command_id_at(r@, 2, 8) == Some(a.spec_id())),
            MenuAction::FormatDocument => assert(command_id_at(r@, 2, 9) == Some(a.spec_id())),
            MenuAction::ColumnSelection => assert(command_id_at(r@, 2, 10) == Some(a.spec_id())),
            MenuAction::CommandPalette => assert(command_id_at(r@, 3, 0) == Some(a.spec_id())),
            MenuAction::WordWrap => assert(command_id_at(r@, 3, 2) == Some(a.spec_id())),
            MenuAction::ToggleTheme => assert(command_id_at(r@, 3, 3) == Some(a.spec_id())),
        }
    }
    r
}

/// The router of the application menu, which binds every action's item to
/// the action's event.
pub fn standard_router() -> (r: Router)
    ensures
        r.wf(),
        r.spec_bindings().len() == ACTION_COUNT,
        forall|a: MenuAction| is_command_id(r.spec_menu(), #[trigger] a.spec_id()),
        forall|k: int|
            0 <= k < ACTION_COUNT ==> (#[trigger] r.spec_bindings()[k]).id@ == action_at(k).spec_id()
                && r.spec_bindings()[k].event@ == action_at(k).spec_event(),
{
    let menu = standard_menu();
    let bindings = standard_bindings();
    assert forall|id: Seq<char>| #[trigger] is_command_id(menu@, id) implies has_binding(
        bindings@,
        id,
    ) by {
        let (g, e) = choose|g: int, e: int|
            0 <= g < menu@.len() && 0 <= e < menu@[g].entries@.len() && #[trigger] command_id_at(
                menu@,
                g,
                e,
            ) == Some(id);
        assert(entries_are_actions(menu@[g].entries@));
        assert(entry_is_action(menu@[g].entries@[e]));
        let a = choose|a: MenuAction| a.spec_id() == id;
        assert(has_binding(bindings@, a.spec_id()));
    }
    match Router::build(menu, bindings) {
        Ok(r) => r,
        Err(_) => Router { menu: Vec::new(), bindings: Vec::new() },
    }
}

} // verus!
