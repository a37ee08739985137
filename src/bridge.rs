//! The bridge between the menu and the content view: zoom commands out, the zoom label in.

use vstd::prelude::*;

use crate::menu::{has_id, is_plain_item, relabel, standard_menu, EntryKind, EntryView, MenuTree};
use crate::text::{percent_label, percent_text, same_text};

verus! {

/// The command that a zoom entry sends to the content view.
#[derive(Clone, Copy, Debug, PartialEq, Eq, Structural)]
pub enum ZoomCommand {
    In,
    Out,
    Reset,
}

/// The command that the entry named `id` stands for, if any.
pub open spec fn spec_command_for(id: Seq<char>) -> Option<ZoomCommand> {
    if id == "zoom_in"@ {
        Some(ZoomCommand::In)
    } else if id == "zoom_out"@ {
        Some(ZoomCommand::Out)
    } else if id == "actual_size"@ {
        Some(ZoomCommand::Reset)
    } else {
        None
    }
}

/// The payload that carries a command to the content view.
pub open spec fn spec_payload(c: ZoomCommand) -> Seq<char> {
    match c {
        ZoomCommand::In => "in"@,
        ZoomCommand::Out => "out"@,
        ZoomCommand::Reset => "reset"@,
    }
}

/// The name of the event that carries zoom commands.
pub open spec fn zoom_event_name() -> Seq<char> {
    "menu-zoom"@
}

/// The event, as name and payload, that selecting the entry `id` sends, if any.
pub open spec fn spec_dispatch(id: Seq<char>, window_attached: bool) -> Option<(Seq<char>, Seq<char>)> {
    match spec_command_for(id) {
        Some(c) if window_attached => Some((zoom_event_name(), spec_payload(c))),
        _ => None,
    }
}

/// The identifier of the entry that shows the zoom percentage.
pub open spec fn zoom_level_id() -> Seq<char> {
    "zoom_level"@
}

/// The entries after the content view reports the zoom percentage `p`.
pub open spec fn spec_update_display(s: Seq<EntryView>, p: nat) -> Seq<EntryView> {
    relabel(s, zoom_level_id(), percent_text(p))
}

/// The standard menu holds, once each, the entry that shows the zoom percentage and the
/// three entries that send zoom commands.
pub proof fn lemma_standard_menu_has_bridge_entries()
    ensures
        has_id(standard_menu(), zoom_level_id()),
        has_id(standard_menu(), "zoom_in"@),
        has_id(standard_menu(), "zoom_out"@),
        has_id(standard_menu(), "actual_size"@),
{
    let s = standard_menu();
    assert(s[22].id == zoom_level_id());
    assert(s[24].id == "zoom_in"@);
    assert(s[25].id == "zoom_out"@);
    assert(s[27].id == "actual_size"@);
}

proof fn lemma_command_ids_distinct()
    ensures
        "zoom_in"@ != "zoom_out"@,
        "zoom_in"@ != "actual_size"@,
        "zoom_out"@ != "actual_size"@,
{
    reveal_strlit("zoom_in");
    reveal_strlit("zoom_out");
    reveal_strlit("actual_size");
    assert("zoom_in"@.len() == 7);
    assert("zoom_out"@.len() == 8);
    assert("actual_size"@.len() == 11);
}

impl ZoomCommand {
    /// The payload that carries this command to the content view.
    pub fn payload(&self) -> (r: &'static str)
        ensures
            r@ == spec_payload(*self),
    {
        match self {
            ZoomCommand::In => "in",
            ZoomCommand::Out => "out",
            ZoomCommand::Reset => "reset",
        }
    }
}

/// A named event with a text payload, sent to the content view.
pub struct ZoomEvent {
    pub name: String,
    pub payload: String,
}

impl View for ZoomEvent {
    type V = (Seq<char>, Seq<char>);

    open spec fn view(&self) -> (Seq<char>, Seq<char>) {
        (self.name@, self.payload@)
    }
}

/// The command that the entry named `id` stands for; `None` for every other entry.
pub fn command_for(id: &str) -> (r: Option<ZoomCommand>)
    ensures
        r == spec_command_for(id@),
{
    if same_text(id, "zoom_in") {
        Some(ZoomCommand::In)
    } else if same_text(id, "zoom_out") {
        Some(ZoomCommand::Out)
    } else if same_text(id, "actual_size") {
        Some(ZoomCommand::Reset)
    } else {
        None
    }
}

/// The event to send when the user selects the entry named `id`.
/// Nothing is sent for an entry that is not a zoom command, nor when no content view
/// window is attached.
pub fn dispatch(id: &str, window_attached: bool) -> (r: Option<ZoomEvent>)
    ensures
        r matches Some(e) ==> spec_dispatch(id@, window_attached) == Some(e@),
        r is None <==> spec_dispatch(id@, window_attached) is None,
        spec_command_for(id@) is None ==> r is None,
        !window_attached ==> r is None,
        window_attached && id@ == "zoom_in"@ ==> (r matches Some(e) && e@ == ("menu-zoom"@, "in"@)),
        window_attached && id@ == "zoom_out"@ ==> (r matches Some(e) && e@ == ("menu-zoom"@, "out"@)),
        window_attached && id@ == "actual_size"@ ==> (r matches Some(e) && e@ == ("menu-zoom"@, "reset"@)),
{
    proof {
        lemma_command_ids_distinct();
    }
    if !window_attached {
        return None;
    }
    match command_for(id) {
        Some(c) => Some(ZoomEvent { name: String::from_str("menu-zoom"), payload: String::from_str(c.payload()) }),
        None => None,
    }
}

/// Shows the zoom percentage `percentage` in the `zoom_level` entry.
/// A tree without that entry, or whose entry of that name is not a plain item (a submenu or a
/// separator), is left as it is.
pub fn update_display(tree: &mut MenuTree, percentage: u32)
    requires
        old(tree).wf(),
    ensures
        final(tree).wf(),
        final(tree)@ == spec_update_display(old(tree)@, percentage as nat),
        final(tree)@.len() == old(tree)@.len(),
        forall|i: int|
            0 <= i < old(tree)@.len() && (#[trigger] old(tree)@[i]).id == zoom_level_id() && is_plain_item(
                old(tree)@[i].kind,
            ) ==> final(tree)@[i].label == percent_text(percentage as nat),
        !has_id(old(tree)@, zoom_level_id()) ==> final(tree)@ == old(tree)@,
{
    let ghost before = tree@;
    proof {
        reveal_strlit("zoom_level");
    }
    match tree.lookup("zoom_level") {
        Some(h) => {
            let kind = tree.entry(h).kind;
            if kind == EntryKind::Action || kind == EntryKind::Display {
                let text = percent_label(percentage);
                let _ = tree.set_label(h, text.as_str());
            }
            proof {
                crate::menu::lemma_relabel_at(before, h as int, zoom_level_id(), percent_text(percentage as nat));
            }
        },
        None => {
            proof {
                crate::menu::lemma_relabel_absent(before, zoom_level_id(), percent_text(percentage as nat));
            }
        },
    }
}

/// Reporting the same zoom percentage twice leaves the menu as reporting it once.
pub proof fn lemma_update_display_idempotent(s: Seq<EntryView>, p: nat)
    ensures
        spec_update_display(spec_update_display(s, p), p) == spec_update_display(s, p),
{
    assert(spec_update_display(spec_update_display(s, p), p) =~= spec_update_display(s, p));
}

} // verus!
