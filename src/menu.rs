//! The menu model: a tree of entries with stable identifiers, stored in order.

use vstd::prelude::*;

verus! {

/// What a menu entry is.
#[derive(Clone, Copy, Debug, PartialEq, Eq, Structural)]
pub enum EntryKind {
    /// An entry that the user can select.
    Action,
    /// An entry that only shows text.
    Display,
    /// A line between groups of entries.
    Separator,
    /// An entry that holds other entries.
    Submenu,
}

/// Why the toolkit refused to change an entry.
#[derive(Clone, Copy, Debug, PartialEq, Eq, Structural)]
pub enum UiError {
    /// The handle names no entry, or the entry carries no text.
    PlatformRejected,
}

/// Why an entry could not be added to a tree.
#[derive(Clone, Copy, Debug, PartialEq, Eq, Structural)]
pub enum MenuError {
    /// The tree already holds an entry with that identifier.
    DuplicateId,
    /// The parent handle names no submenu of the tree.
    InvalidParent,
}

/// One entry of a menu tree.
pub struct MenuEntry {
    pub id: String,
    pub label: String,
    pub kind: EntryKind,
    pub accelerator: Option<String>,
    pub enabled: bool,
    /// The position of the enclosing submenu; `None` for a top-level entry.
    pub parent: Option<usize>,
}

/// The mathematical value of a menu entry.
pub struct EntryView {
    pub id: Seq<char>,
    pub label: Seq<char>,
    pub kind: EntryKind,
    pub accelerator: Option<Seq<char>>,
    pub enabled: bool,
    pub parent: Option<usize>,
}

impl View for MenuEntry {
    type V = EntryView;

    open spec fn view(&self) -> EntryView {
        EntryView {
            id: self.id@,
            label: self.label@,
            kind: self.kind,
            accelerator: match self.accelerator {
                Some(a) => Some(a@),
                None => None,
            },
            enabled: self.enabled,
            parent: self.parent,
        }
    }
}

/// Whether an entry of this kind carries text that can be rewritten.
pub open spec fn has_text(kind: EntryKind) -> bool {
    kind != EntryKind::Separator
}

/// Whether an entry of this kind is a plain item, whose text the zoom label may take.
pub open spec fn is_plain_item(kind: EntryKind) -> bool {
    kind == EntryKind::Action || kind == EntryKind::Display
}

/// Identifiers are unique, and each parent is an earlier submenu.
pub open spec fn well_formed(s: Seq<EntryView>) -> bool {
    &&& forall|i: int, j: int|
        0 <= i < s.len() && 0 <= j < s.len() && i != j ==> #[trigger] s[i].id != #[trigger] s[j].id
    &&& forall|i: int|
        0 <= i < s.len() && (#[trigger] s[i].parent) is Some ==> {
            let p = s[i].parent->0 as int;
            p < i && s[p].kind == EntryKind::Submenu
        }
}

/// Whether some entry of `s` has the identifier `id`.
pub open spec fn has_id(s: Seq<EntryView>, id: Seq<char>) -> bool {
    exists|i: int| 0 <= i < s.len() && #[trigger] s[i].id == id
}

/// The entries of `s` with the text of every plain item named `id` set to `text`.
pub open spec fn relabel(s: Seq<EntryView>, id: Seq<char>, text: Seq<char>) -> Seq<EntryView> {
    s.map_values(
        |e: EntryView|
            if e.id == id && is_plain_item(e.kind) {
                EntryView { label: text, ..e }
            } else {
                e
            },
    )
}

proof fn lemma_set_label_keeps_wf(s: Seq<EntryView>, h: int, text: Seq<char>)
    requires
        well_formed(s),
        0 <= h < s.len(),
    ensures
        well_formed(s.update(h, EntryView { label: text, ..s[h] })),
{
    let t = s.update(h, EntryView { label: text, ..s[h] });
    assert forall|i: int| 0 <= i < t.len() implies t[i].id == s[i].id && t[i].parent == s[i].parent
        && t[i].kind == s[i].kind by {}
}

/// The entry with these fields.
pub open spec fn spec_entry(
    id: Seq<char>,
    label: Seq<char>,
    kind: EntryKind,
    accelerator: Option<Seq<char>>,
    enabled: bool,
    parent: Option<usize>,
) -> EntryView {
    EntryView { id, label, kind, accelerator, enabled, parent }
}

/// The application's menu: the application, File, Edit, View (holding Zoom) and Window menus,
/// each submenu followed by what it holds.
pub open spec fn standard_menu() -> Seq<EntryView> {
    seq![
        spec_entry("app_menu"@, "diff-it"@, EntryKind::Submenu, None, true, None),
        spec_entry("about"@, "About diff-it"@, EntryKind::Action, None, true, Some(0usize)),
        spec_entry("separator_1"@, ""@, EntryKind::Separator, None, true, Some(0usize)),
        spec_entry("services"@, "Services"@, EntryKind::Action, None, true, Some(0usize)),
        spec_entry("separator_2"@, ""@, EntryKind::Separator, None, true, Some(0usize)),
        spec_entry("hide"@, "Hide diff-it"@, EntryKind::Action, None, true, Some(0usize)),
        spec_entry("hide_others"@, "Hide Others"@, EntryKind::Action, None, true, Some(0usize)),
        spec_entry("show_all"@, "Show All"@, EntryKind::Action, None, true, Some(0usize)),
        spec_entry("separator_3"@, ""@, EntryKind::Separator, None, true, Some(0usize)),
        spec_entry("quit"@, "Quit diff-it"@, EntryKind::Action, None, true, Some(0usize)),
        spec_entry("file_menu"@, "File"@, EntryKind::Submenu, None, true, None),
        spec_entry("close_window"@, "Close Window"@, EntryKind::Action, None, true, Some(10usize)),
        spec_entry("edit_menu"@, "Edit"@, EntryKind::Submenu, None, true, None),
        spec_entry("undo"@, "Undo"@, EntryKind::Action, None, true, Some(12usize)),
        spec_entry("redo"@, "Redo"@, EntryKind::Action, None, true, Some(12usize)),
        spec_entry("separator_4"@, ""@, EntryKind::Separator, None, true, Some(12usize)),
        spec_entry("cut"@, "Cut"@, EntryKind::Action, None, true, Some(12usize)),
        spec_entry("copy"@, "Copy"@, EntryKind::Action, None, true, Some(12usize)),
        spec_entry("paste"@, "Paste"@, EntryKind::Action, None, true, Some(12usize)),
        spec_entry("select_all"@, "Select All"@, EntryKind::Action, None, true, Some(12usize)),
        spec_entry("view_menu"@, "View"@, EntryKind::Submenu, None, true, None),
        spec_entry("zoom_menu"@, "Zoom"@, EntryKind::Submenu, None, true, Some(20usize)),
        spec_entry("zoom_level"@, "100%"@, EntryKind::Display, None, false, Some(21usize)),
        spec_entry("separator_5"@, ""@, EntryKind::Separator, None, true, Some(21usize)),
        spec_entry("zoom_in"@, "Zoom In"@, EntryKind::Action, Some("CmdOrCtrl+="@), true, Some(21usize)),
        spec_entry("zoom_out"@, "Zoom Out"@, EntryKind::Action, Some("CmdOrCtrl+-"@), true, Some(21usize)),
        spec_entry("separator_6"@, ""@, EntryKind::Separator, None, true, Some(21usize)),
        spec_entry("actual_size"@, "Actual Size"@, EntryKind::Action, Some("CmdOrCtrl+0"@), true, Some(21usize)),
        spec_entry("window_menu"@, "Window"@, EntryKind::Submenu, None, true, None),
        spec_entry("minimize"@, "Minimize"@, EntryKind::Action, None, true, Some(28usize)),
        spec_entry("maximize"@, "Maximize"@, EntryKind::Action, None, true, Some(28usize)),
        spec_entry("separator_7"@, ""@, EntryKind::Separator, None, true, Some(28usize)),
        spec_entry("fullscreen"@, "Toggle Full Screen"@, EntryKind::Action, None, true, Some(28usize)),
    ]
}

/// Relabelling touches only the entry named `id`, which a well-formed tree holds at most once.
pub proof fn lemma_relabel_at(s: Seq<EntryView>, h: int, id: Seq<char>, text: Seq<char>)
    requires
        well_formed(s),
        0 <= h < s.len(),
        s[h].id == id,
    ensures
        is_plain_item(s[h].kind) ==> relabel(s, id, text) == s.update(
            h,
            EntryView { label: text, ..s[h] },
        ),
        !is_plain_item(s[h].kind) ==> relabel(s, id, text) == s,
{
    if is_plain_item(s[h].kind) {
        assert(relabel(s, id, text) =~= s.update(h, EntryView { label: text, ..s[h] }));
    } else {
        assert(relabel(s, id, text) =~= s);
    }
}

/// Relabelling a name that no entry has changes nothing.
pub proof fn lemma_relabel_absent(s: Seq<EntryView>, id: Seq<char>, text: Seq<char>)
    requires
        !has_id(s, id),
    ensures
        relabel(s, id, text) == s,
{
    assert forall|i: int| 0 <= i < s.len() implies s[i].id != id by {}
    assert(relabel(s, id, text) =~= s);
}

/// A menu tree: an ordered forest of entries, each submenu before what it holds.
pub struct MenuTree {
    entries: Vec<MenuEntry>,
}

impl View for MenuTree {
    type V = Seq<EntryView>;

    closed spec fn view(&self) -> Seq<EntryView> {
        self.entries@.map_values(|e: MenuEntry| e@)
    }
}

impl MenuTree {
    pub open spec fn wf(&self) -> bool {
        well_formed(self@)
    }

    /// A tree with no entries.
    pub fn new() -> (r: MenuTree)
        ensures
            r@ == Seq::<EntryView>::empty(),
            r.wf(),
    {
        let r = MenuTree { entries: Vec::new() };
        proof {
            assert(r@ =~= Seq::<EntryView>::empty());
        }
        r
    }

    /// Builds the application's menu.
    #[verifier::rlimit(100)]
    pub fn build() -> (r: MenuTree)
        ensures
            r@ == standard_menu(),
            r.wf(),
    {
        // Each identifier's length, and the characters that tell apart identifiers of equal
        // length, show that every identifier below is new when it is added.
        proof {
            reveal_strlit("app_menu");
            reveal_strlit("about");
            reveal_strlit("separator_1");
            reveal_strlit("services");
            reveal_strlit("separator_2");
            reveal_strlit("hide");
            reveal_strlit("hide_others");
            reveal_strlit("show_all");
            reveal_strlit("separator_3");
            reveal_strlit("quit");
            reveal_strlit("file_menu");
            reveal_strlit("close_window");
            reveal_strlit("edit_menu");
            reveal_strlit("undo");
            reveal_strlit("redo");
            reveal_strlit("separator_4");
            reveal_strlit("cut");
            reveal_strlit("copy");
            reveal_strlit("paste");
            reveal_strlit("select_all");
            reveal_strlit("view_menu");
            reveal_strlit("zoom_menu");
            reveal_strlit("zoom_level");
            reveal_strlit("separator_5");
            reveal_strlit("zoom_in");
            reveal_strlit("zoom_out");
            reveal_strlit("separator_6");
            reveal_strlit("actual_size");
            reveal_strlit("window_menu");
            reveal_strlit("minimize");
            reveal_strlit("maximize");
            reveal_strlit("separator_7");
            reveal_strlit("fullscreen");
            assert("app_menu"@.len() == 8);
            assert("about"@.len() == 5);
            assert("separator_1"@.len() == 11);
            assert("services"@.len() == 8);
            assert("separator_2"@.len() == 11);
            assert("hide"@.len() == 4);
            assert("hide_others"@.len() == 11);
            assert("show_all"@.len() == 8);
            assert("separator_3"@.len() == 11);
            assert("quit"@.len() == 4);
            assert("file_menu"@.len() == 9);
            assert("close_window"@.len() == 12);
            assert("edit_menu"@.len() == 9);
            assert("undo"@.len() == 4);
            assert("redo"@.len() == 4);
            assert("separator_4"@.len() == 11);
            assert("cut"@.len() == 3);
            assert("copy"@.len() == 4);
            assert("paste"@.len() == 5);
            assert("select_all"@.len() == 10);
            assert("view_menu"@.len() == 9);
            assert("zoom_menu"@.len() == 9);
            assert("zoom_level"@.len() == 10);
            assert("separator_5"@.len() == 11);
            assert("zoom_in"@.len() == 7);
            assert("zoom_out"@.len() == 8);
            assert("separator_6"@.len() == 11);
            assert("actual_size"@.len() == 11);
            assert("window_menu"@.len() == 11);
            assert("minimize"@.len() == 8);
            assert("maximize"@.len() == 8);
            assert("separator_7"@.len() == 11);
            assert("fullscreen"@.len() == 10);
            assert("app_menu"@[1] == 'p');
            assert("services"@[1] == 'e');
            assert("show_all"@[1] == 'h');
            assert("zoom_out"@[1] == 'o');
            assert("minimize"@[1] == 'i');
            assert("maximize"@[1] == 'a');
            assert("about"@[0] == 'a');
            assert("paste"@[0] == 'p');
            assert("separator_1"@[10] == '1');
            assert("separator_2"@[10] == '2');
            assert("hide_others"@[10] == 's');
            assert("separator_3"@[10] == '3');
            assert("separator_4"@[10] == '4');
            assert("separator_5"@[10] == '5');
            assert("separator_6"@[10] == '6');
            assert("actual_size"@[10] == 'e');
            assert("window_menu"@[10] == 'u');
            assert("separator_7"@[10] == '7');
            assert("hide"@[0] == 'h');
            assert("quit"@[0] == 'q');
            assert("undo"@[0] == 'u');
            assert("redo"@[0] == 'r');
            assert("copy"@[0] == 'c');
            assert("file_menu"@[0] == 'f');
            assert("edit_menu"@[0] == 'e');
            assert("view_menu"@[0] == 'v');
            assert("zoom_menu"@[0] == 'z');
            assert("select_all"@[0] == 's');
            assert("zoom_level"@[0] == 'z');
            assert("fullscreen"@[0] == 'f');
        }
        let mut t = MenuTree::new();
        let app_menu: usize = t.push_entry("app_menu", "diff-it", EntryKind::Submenu, None, true, None);
        t.push_entry("about", "About diff-it", EntryKind::Action, None, true, Some(app_menu));
        t.push_entry("separator_1", "", EntryKind::Separator, None, true, Some(app_menu));
        t.push_entry("services", "Services", EntryKind::Action, None, true, Some(app_menu));
        t.push_entry("separator_2", "", EntryKind::Separator, None, true, Some(app_menu));
        t.push_entry("hide", "Hide diff-it", EntryKind::Action, None, true, Some(app_menu));
        t.push_entry("hide_others", "Hide Others", EntryKind::Action, None, true, Some(app_menu));
        t.push_entry("show_all", "Show All", EntryKind::Action, None, true, Some(app_menu));
        t.push_entry("separator_3", "", EntryKind::Separator, None, true, Some(app_menu));
        t.push_entry("quit", "Quit diff-it", EntryKind::Action, None, true, Some(app_menu));
        let file_menu: usize = t.push_entry("file_menu", "File", EntryKind::Submenu, None, true, None);
        t.push_entry("close_window", "Close Window", EntryKind::Action, None, true, Some(file_menu));
        let edit_menu: usize = t.push_entry("edit_menu", "Edit", EntryKind::Submenu, None, true, None);
        t.push_entry("undo", "Undo", EntryKind::Action, None, true, Some(edit_menu));
        t.push_entry("redo", "Redo", EntryKind::Action, None, true, Some(edit_menu));
        t.push_entry("separator_4", "", EntryKind::Separator, None, true, Some(edit_menu));
        t.push_entry("cut", "Cut", EntryKind::Action, None, true, Some(edit_menu));
        t.push_entry("copy", "Copy", EntryKind::Action, None, true, Some(edit_menu));
        t.push_entry("paste", "Paste", EntryKind::Action, None, true, Some(edit_menu));
        t.push_entry("select_all", "Select All", EntryKind::Action, None, true, Some(edit_menu));
        let view_menu: usize = t.push_entry("view_menu", "View", EntryKind::Submenu, None, true, None);
        let zoom_menu: usize = t.push_entry("zoom_menu", "Zoom", EntryKind::Submenu, None, true, Some(view_menu));
        t.push_entry("zoom_level", "100%", EntryKind::Display, None, false, Some(zoom_menu));
        t.push_entry("separator_5", "", EntryKind::Separator, None, true, Some(zoom_menu));
        t.push_entry("zoom_in", "Zoom In", EntryKind::Action, Some("CmdOrCtrl+="), true, Some(zoom_menu));
        t.push_entry("zoom_out", "Zoom Out", EntryKind::Action, Some("CmdOrCtrl+-"), true, Some(zoom_menu));
        t.push_entry("separator_6", "", EntryKind::Separator, None, true, Some(zoom_menu));
        t.push_entry("actual_size", "Actual Size", EntryKind::Action, Some("CmdOrCtrl+0"), true, Some(zoom_menu));
        let window_menu: usize = t.push_entry("window_menu", "Window", EntryKind::Submenu, None, true, None);
        t.push_entry("minimize", "Minimize", EntryKind::Action, None, true, Some(window_menu));
        t.push_entry("maximize", "Maximize", EntryKind::Action, None, true, Some(window_menu));
        t.push_entry("separator_7", "", EntryKind::Separator, None, true, Some(window_menu));
        t.push_entry("fullscreen", "Toggle Full Screen", EntryKind::Action, None, true, Some(window_menu));
        proof {
            assert(t@ =~= standard_menu());
        }
        t
    }

    /// The number of entries.
    pub fn len(&self) -> (r: usize)
        ensures
            r == self@.len(),
    {
        self.entries.len()
    }

    /// The entry at position `i`.
    pub fn entry(&self, i: usize) -> (r: &MenuEntry)
        requires
            i < self@.len(),
        ensures
            r@ == self@[i as int],
    {
        &self.entries[i]
    }

    /// The position of the entry named `id`, or `None` when no entry has that name.
    pub fn lookup(&self, id: &str) -> (r: Option<usize>)
        ensures
            r matches Some(i) ==> i < self@.len() && self@[i as int].id == id@,
            r is None <==> !has_id(self@, id@),
    {
        let mut i: usize = 0;
        while i < self.entries.len()
            invariant
                i <= self@.len(),
                self@.len() == self.entries@.len(),
                forall|k: int| 0 <= k < i ==> self@[k].id != id@,
            decreases self.entries.len() - i,
        {
            if crate::text::same_text(self.entries[i].id.as_str(), id) {
                proof {
                    assert(self@[i as int].id == id@);
                }
                return Some(i);
            }
            i = i + 1;
        }
        None
    }

    fn push_entry(
        &mut self,
        id: &str,
        label: &str,
        kind: EntryKind,
        accelerator: Option<&str>,
        enabled: bool,
        parent: Option<usize>,
    ) -> (r: usize)
        requires
            old(self).wf(),
            !has_id(old(self)@, id@),
            parent matches Some(p) ==> p < old(self)@.len() && old(self)@[p as int].kind
                == EntryKind::Submenu,
        ensures
            r == old(self)@.len(),
            final(self)@ == old(self)@.push(
                EntryView {
                    id: id@,
                    label: label@,
                    kind,
                    accelerator: match accelerator {
                        Some(a) => Some(a@),
                        None => None,
                    },
                    enabled,
                    parent,
                },
            ),
            final(self).wf(),
    {
        let accelerator = match accelerator {
            Some(a) => Some(String::from_str(a)),
            None => None,
        };
        let e = MenuEntry {
            id: String::from_str(id),
            label: String::from_str(label),
            kind,
            accelerator,
            enabled,
            parent,
        };
        let r = self.entries.len();
        self.entries.push(e);
        proof {
            assert(self@ =~= old(self)@.push(e@));
        }
        r
    }

    /// Adds an entry at the end of the tree and returns its position.
    pub fn add(
        &mut self,
        id: &str,
        label: &str,
        kind: EntryKind,
        accelerator: Option<&str>,
        enabled: bool,
        parent: Option<usize>,
    ) -> (r: Result<usize, MenuError>)
        requires
            old(self).wf(),
        ensures
            final(self).wf(),
            r matches Ok(i) ==> i == old(self)@.len() && final(self)@ == old(self)@.push(
                EntryView {
                    id: id@,
                    label: label@,
                    kind,
                    accelerator: match accelerator {
                        Some(a) => Some(a@),
                        None => None,
                    },
                    enabled,
                    parent,
                },
            ),
            r is Err ==> final(self)@ == old(self)@,
            r == Err::<usize, MenuError>(MenuError::DuplicateId) <==> has_id(old(self)@, id@),
            r == Err::<usize, MenuError>(MenuError::InvalidParent) <==> !has_id(old(self)@, id@)
                && (parent matches Some(p) && (p >= old(self)@.len() || old(self)@[p as int].kind
                != EntryKind::Submenu)),
    {
        if self.lookup(id).is_some() {
            return Err(MenuError::DuplicateId);
        }
        match parent {
            Some(p) => {
                if p >= self.entries.len() || self.entries[p].kind != EntryKind::Submenu {
                    return Err(MenuError::InvalidParent);
                }
            },
            None => {},
        }
        Ok(self.push_entry(id, label, kind, accelerator, enabled, parent))
    }

    /// Replaces the text of the entry at position `handle`.
    pub fn set_label(&mut self, handle: usize, text: &str) -> (r: Result<(), UiError>)
        requires
            old(self).wf(),
        ensures
            final(self).wf(),
            r is Ok <==> handle < old(self)@.len() && has_text(old(self)@[handle as int].kind),
            r is Ok ==> final(self)@ == old(self)@.update(
                handle as int,
                EntryView { label: text@, ..old(self)@[handle as int] },
            ),
            r is Err ==> final(self)@ == old(self)@,
    {
        if handle >= self.entries.len() || self.entries[handle].kind == EntryKind::Separator {
            return Err(UiError::PlatformRejected);
        }
        let ghost before = self@;
        self.entries[handle].label = String::from_str(text);
        proof {
            lemma_set_label_keeps_wf(before, handle as int, text@);
            assert(self@ =~= before.update(handle as int, EntryView { label: text@, ..before[handle as int] }));
        }
        Ok(())
    }
}

} // verus!
