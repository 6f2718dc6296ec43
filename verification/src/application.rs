//! The application's decisions: which of its commands a key event triggers,
//! given what is on screen; what closing the active view comes to; the id a
//! new view gets; where the focus moves; which view a click lands on, and how
//! the panels change when a dragged view is dropped on another; what the
//! answer of the element that took a key comes to. Carrying them out is left
//! to the code that owns the windows and views.
use vstd::prelude::*;

use crate::cmd::keybindings::KeyAction;
use crate::cmd::keyimpl::{KeyImpl, ModifiersImpl};
use crate::cmd::CommandTag;
use crate::datastructure::Vec2i;
use crate::ui::basic::boundingbox::BoundingBox;
use crate::ui::eventhandling::event::CommandOutput;

verus! {

/// What the application does with a key event.
#[derive(Debug, Clone, Copy, PartialEq, Eq, Structural)]
pub enum KeyEventDecision {
    /// Show the input box for the command, or hide it when it is shown
    ToggleCommandInput(CommandTag),
    /// Show the input box listing files, or hide it
    ToggleFileList,
    /// Hand the key to the element that takes input, and ignore its answer
    PassToActiveInput,
    /// Hand the key to the element that takes input, and act on its answer
    DispatchToActiveInput,
    /// Close the active view, even with unsaved changes when `force`
    CloseActiveView { force: bool },
    /// Move the focus on and hide the view that had it
    HideActiveView,
    /// Insert the clipboard's text at the active input
    PasteClipboard,
    ShowAllViews,
    TogglePopup,
    CycleFocus,
    RequestClose,
    /// Print the active view's cursor for debugging
    PrintCursorInfo,
    ToggleDebugView,
    OpenNewView,
    /// Do nothing
    Ignore,
}

pub open spec fn shift_bits() -> i32 {
    1
}

pub open spec fn control_bits() -> i32 {
    2
}

/// The decision for a key event, key by key. A key whose condition does not
/// hold is handed on, and the application acts on the answer.
/// - Escape, Caps Lock: when pressed, hide the input box when shown, else pass the key on;
/// - F: Ctrl+F pressed, the Find input;
/// - keypad `+`: nothing, always;
/// - W: pressed with Ctrl among the modifiers, close the view, forced when Shift is among them too;
/// - H: Ctrl+H pressed, hide the active view when more than one view is visible, else nothing;
/// - V: Ctrl+V pressed, paste;
/// - G: Ctrl+G pressed, the Go to input;
/// - S: Ctrl+Shift+S pressed, show all views;
/// - P: with Ctrl, toggle the popup when pressed, else nothing;
/// - I: pressed, the file list with Ctrl+Shift, else nothing;
/// - Tab: pressed, move the focus on with Ctrl, else pass the key on;
/// - Q: with Ctrl, quit;
/// - F1: pressed, pass it on with Shift, else print the cursor; not pressed, nothing;
/// - D: Ctrl+D pressed, toggle the debug view;
/// - N: Ctrl+N pressed, open a new view.
pub open spec fn key_event_decision(
    key: KeyImpl,
    action: KeyAction,
    bits: i32,
    input_box_visible: bool,
    visible_views: usize,
) -> KeyEventDecision {
    let pressed = action == KeyAction::Press;
    let ctrl = bits == control_bits();
    let ctrl_shift = bits == control_bits() | shift_bits();
    let handed_on = KeyEventDecision::DispatchToActiveInput;
    match key {
        KeyImpl::Escape | KeyImpl::CapsLock => if !pressed {
            handed_on
        } else if input_box_visible {
            KeyEventDecision::ToggleCommandInput(CommandTag::Goto)
        } else {
            KeyEventDecision::PassToActiveInput
        },
        KeyImpl::F => if pressed && ctrl { KeyEventDecision::ToggleCommandInput(CommandTag::Find) } else { handed_on },
        KeyImpl::KpAdd => KeyEventDecision::Ignore,
        KeyImpl::W => if pressed && bits & control_bits() == control_bits() {
            KeyEventDecision::CloseActiveView { force: bits & shift_bits() == shift_bits() }
        } else {
            handed_on
        },
        KeyImpl::H => if !(pressed && ctrl) {
            handed_on
        } else if visible_views > 1 {
            KeyEventDecision::HideActiveView
        } else {
            KeyEventDecision::Ignore
        },
        KeyImpl::V => if pressed && ctrl { KeyEventDecision::PasteClipboard } else { handed_on },
        KeyImpl::G => if pressed && ctrl { KeyEventDecision::ToggleCommandInput(CommandTag::Goto) } else { handed_on },
        KeyImpl::S => if pressed && ctrl_shift { KeyEventDecision::ShowAllViews } else { handed_on },
        KeyImpl::P => if !ctrl {
            handed_on
        } else if pressed {
            KeyEventDecision::TogglePopup
        } else {
            KeyEventDecision::Ignore
        },
        KeyImpl::I => if !pressed {
            handed_on
        } else if ctrl_shift {
            KeyEventDecision::ToggleFileList
        } else {
            KeyEventDecision::Ignore
        },
        KeyImpl::Tab => if !pressed {
            handed_on
        } else if ctrl {
            KeyEventDecision::CycleFocus
        } else {
            KeyEventDecision::PassToActiveInput
        },
        KeyImpl::Q => if ctrl { KeyEventDecision::RequestClose } else { handed_on },
        KeyImpl::F1 => if !pressed {
            KeyEventDecision::Ignore
        } else if bits == shift_bits() {
            KeyEventDecision::PassToActiveInput
        } else {
            KeyEventDecision::PrintCursorInfo
        },
        KeyImpl::D => if pressed && ctrl { KeyEventDecision::ToggleDebugView } else { handed_on },
        KeyImpl::N => if pressed && ctrl { KeyEventDecision::OpenNewView } else { handed_on },
        _ => handed_on,
    }
}

/// Decides what the application does with a key event, given whether the
/// input box is shown and how many views are visible.
pub fn handle_key_event(
    key: KeyImpl,
    action: KeyAction,
    modifier: ModifiersImpl,
    input_box_visible: bool,
    visible_views: usize,
) -> (r: KeyEventDecision)
    ensures
        r == key_event_decision(key, action, modifier.spec_bits(), input_box_visible, visible_views),
{
    let pressed = action == KeyAction::Press;
    let bits = modifier.bits();
    let ctrl = bits == 2;
    let ctrl_shift: i32 = 2 | 1;
    if (key == KeyImpl::Escape || key == KeyImpl::CapsLock) && pressed {
        if input_box_visible {
            KeyEventDecision::ToggleCommandInput(CommandTag::Goto)
        } else {
            KeyEventDecision::PassToActiveInput
        }
    } else if key == KeyImpl::F && pressed && ctrl {
        KeyEventDecision::ToggleCommandInput(CommandTag::Find)
    } else if key == KeyImpl::KpAdd {
        KeyEventDecision::Ignore
    } else if key == KeyImpl::W && bits & 2 == 2 && pressed {
        KeyEventDecision::CloseActiveView { force: bits & 1 == 1 }
    } else if key == KeyImpl::H && ctrl && pressed {
        if visible_views > 1 {
            KeyEventDecision::HideActiveView
        } else {
            KeyEventDecision::Ignore
        }
    } else if key == KeyImpl::V && pressed && ctrl {
        KeyEventDecision::PasteClipboard
    } else if key == KeyImpl::G && ctrl && pressed {
        KeyEventDecision::ToggleCommandInput(CommandTag::Goto)
    } else if key == KeyImpl::S && bits == ctrl_shift && pressed {
        KeyEventDecision::ShowAllViews
    } else if key == KeyImpl::P && ctrl {
        if pressed {
            KeyEventDecision::TogglePopup
        } else {
            KeyEventDecision::Ignore
        }
    } else if key == KeyImpl::I && pressed {
        if bits == ctrl_shift {
            KeyEventDecision::ToggleFileList
        } else {
            KeyEventDecision::Ignore
        }
    } else if key == KeyImpl::Tab && pressed {
        if ctrl {
            KeyEventDecision::CycleFocus
        } else {
            KeyEventDecision::PassToActiveInput
        }
    } else if key == KeyImpl::Q && ctrl {
        KeyEventDecision::RequestClose
    } else if key == KeyImpl::F1 {
        if pressed {
            if bits == 1 {
                KeyEventDecision::PassToActiveInput
            } else {
                KeyEventDecision::PrintCursorInfo
            }
        } else {
            KeyEventDecision::Ignore
        }
    } else if key == KeyImpl::D && ctrl && pressed {
        KeyEventDecision::ToggleDebugView
    } else if key == KeyImpl::N && ctrl && pressed {
        KeyEventDecision::OpenNewView
    } else {
        KeyEventDecision::DispatchToActiveInput
    }
}

/// What closing the active view comes to.
#[derive(Debug, Clone, Copy, PartialEq, Eq, Structural)]
pub enum CloseViewDecision {
    /// The popup is shown: hide it and reset it; no view closes
    HidePopup,
    /// Close the view; when it is the only child of the last panel, open a
    /// fresh view there first
    Close { open_replacement: bool },
    /// The buffer has unsaved changes and closing was not forced
    KeepOpen,
}

/// Whether closing the active view hides the popup, closes the view, or is
/// refused because its buffer has unsaved changes.
pub fn close_active_view_decision(
    popup_visible: bool,
    buffer_pristine: bool,
    force_close: bool,
    last_panel_children: usize,
) -> (r: CloseViewDecision)
    ensures
        r == (if popup_visible {
            CloseViewDecision::HidePopup
        } else if buffer_pristine || force_close {
            CloseViewDecision::Close { open_replacement: last_panel_children == 1 }
        } else {
            CloseViewDecision::KeepOpen
        }),
{
    if popup_visible {
        CloseViewDecision::HidePopup
    } else if buffer_pristine || force_close {
        CloseViewDecision::Close { open_replacement: last_panel_children == 1 }
    } else {
        CloseViewDecision::KeepOpen
    }
}

/// The largest of the ids, or 0 when there are none.
pub open spec fn max_id(ids: Seq<u32>) -> int
    decreases ids.len(),
{
    if ids.len() == 0 {
        0
    } else {
        let rest = max_id(ids.drop_last());
        if ids.last() > rest {
            ids.last() as int
        } else {
            rest
        }
    }
}

proof fn lemma_max_id_bounds(ids: Seq<u32>)
    ensures
        0 <= max_id(ids),
        forall|i: int| 0 <= i < ids.len() ==> ids[i] <= max_id(ids),
        ids.len() == 0 || exists|i: int| 0 <= i < ids.len() && ids[i] == max_id(ids),
    decreases ids.len(),
{
    if ids.len() > 0 {
        let rest = ids.drop_last();
        lemma_max_id_bounds(rest);
        assert forall|i: int| 0 <= i < ids.len() implies ids[i] <= max_id(ids) by {
            if i < ids.len() - 1 {
                assert(ids[i] == rest[i]);
            }
        }
        if ids.last() > max_id(rest) {
            assert(ids[ids.len() - 1] == max_id(ids));
        } else if ids.len() > 1 {
            let w = choose|i: int| 0 <= i < rest.len() && rest[i] == max_id(rest);
            assert(ids[w] == max_id(ids));
        } else {
            assert(ids[0] == max_id(ids));
        }
    }
}

/// The id a newly opened view gets: one more than the largest id of the
/// views in all panels, 1 when there are none.
pub fn open_text_view_id(view_ids: &[u32]) -> (r: u32)
    requires
        forall|i: int| 0 <= i < view_ids@.len() ==> view_ids@[i] < u32::MAX,
    ensures
        r == max_id(view_ids@) + 1,
{
    let mut best: u32 = 0;
    let mut i: usize = 0;
    proof {
        lemma_max_id_bounds(view_ids@);
    }
    while i < view_ids.len()
        invariant
            i <= view_ids@.len(),
            best == max_id(view_ids@.subrange(0, i as int)),
            forall|k: int| 0 <= k < view_ids@.len() ==> view_ids@[k] < u32::MAX,
        decreases view_ids@.len() - i,
    {
        proof {
            assert(view_ids@.subrange(0, i + 1).drop_last() =~= view_ids@.subrange(0, i as int));
        }
        if view_ids[i] > best {
            best = view_ids[i];
        }
        i = i + 1;
    }
    proof {
        assert(view_ids@.subrange(0, view_ids@.len() as int) =~= view_ids@);
        lemma_max_id_bounds(view_ids@);
        if view_ids@.len() > 0 {
            let w = choose|k: int| 0 <= k < view_ids@.len() && view_ids@[k] == max_id(view_ids@);
            assert(view_ids@[w] < u32::MAX);
        }
    }
    best + 1
}

/// The view that takes the focus when it moves on: the visible view after
/// the active one, in order, the first one after the last. `None` when fewer
/// than two views exist or none is visible, and the focus stays.
pub open spec fn cycle_focus_spec(visible_ids: Seq<u32>, view_count: int, active: u32) -> Option<u32> {
    if view_count < 2 || visible_ids.len() == 0 {
        None
    } else {
        let i = visible_ids.index_of_first(active).unwrap();
        Some(visible_ids[(i + 1) % (visible_ids.len() as int)])
    }
}

/// Where the focus moves from the view with id `active`, among the visible
/// views in order, when the panels hold `view_count` views. The active view
/// must be among the visible ones: the search for it goes round them
/// without end otherwise.
pub fn cycle_focus_target(visible_ids: &[u32], view_count: usize, active: u32) -> (r: Option<u32>)
    requires
        view_count >= 2 && visible_ids@.len() > 0 ==> visible_ids@.contains(active),
    ensures
        r == cycle_focus_spec(visible_ids@, view_count as int, active),
{
    if view_count < 2 || visible_ids.len() == 0 {
        return None;
    }
    let mut i: usize = 0;
    while i < visible_ids.len()
        invariant
            i <= visible_ids@.len(),
            view_count >= 2,
            visible_ids@.contains(active),
            forall|k: int| 0 <= k < i ==> visible_ids@[k] != active,
        decreases visible_ids@.len() - i,
    {
        if visible_ids[i] == active {
            proof {
                visible_ids@.index_of_first_ensures(active);
                assert(visible_ids@.index_of_first(active) == Some(i as int));
            }
            let next = if i + 1 == visible_ids.len() { 0 } else { i + 1 };
            proof {
                let n = visible_ids@.len() as int;
                assert(next as int == (i + 1) % n) by (nonlinear_arith)
                    requires
                        0 <= i < n,
                        next as int == (if i + 1 == n { 0 } else { i + 1 }),
                ;
            }
            return Some(visible_ids[next]);
        }
        i = i + 1;
    }
    proof {
        let w = choose|k: int| 0 <= k < visible_ids@.len() && visible_ids@[k] == active;
        assert(visible_ids@[w] == active);
    }
    None
}

/// Whether the box holds `pos`, its edges included.
pub open spec fn box_holds(b: BoundingBox, pos: Vec2i) -> bool {
    b.min.x <= pos.x <= b.max.x && b.min.y <= pos.y <= b.max.y
}

/// The id of the first view, in the order given, whose box holds `pos`.
pub open spec fn view_hit(views: Seq<(u32, BoundingBox)>, pos: Vec2i) -> Option<u32>
    decreases views.len(),
{
    if views.len() == 0 {
        None
    } else if box_holds(views[0].1, pos) {
        Some(views[0].0)
    } else {
        view_hit(views.drop_first(), pos)
    }
}

/// The view a mouse click or drop at `pos` lands on: the first of the views,
/// in panel order, whose bounding box holds the position.
pub fn view_at(views: &[(u32, BoundingBox)], pos: Vec2i) -> (r: Option<u32>)
    ensures
        r == view_hit(views@, pos),
{
    let mut i: usize = 0;
    proof {
        assert(views@.skip(0) =~= views@);
    }
    while i < views.len()
        invariant
            i <= views@.len(),
            view_hit(views@, pos) == view_hit(views@.skip(i as int), pos),
        decreases views@.len() - i,
    {
        let (id, bb) = views[i];
        proof {
            assert(views@.skip(i as int)[0] == views@[i as int]);
            assert(views@.skip(i as int).drop_first() =~= views@.skip(i + 1));
        }
        if bb.box_hit_check(pos) {
            return Some(id);
        }
        i = i + 1;
    }
    None
}

/// The ids of the views in each panel.
pub open spec fn panel_ids(panels: Seq<Vec<u32>>) -> Seq<Seq<u32>> {
    panels.map_values(|v: Vec<u32>| v@)
}

/// Whether `p` is the first panel that holds the view `id`.
pub open spec fn is_first_panel_with(panels: Seq<Seq<u32>>, id: u32, p: int) -> bool {
    &&& 0 <= p < panels.len()
    &&& panels[p].contains(id)
    &&& forall|q: int| 0 <= q < p ==> !panels[q].contains(id)
}

/// The first panel that holds the view `id`.
pub open spec fn first_panel_with(panels: Seq<Seq<u32>>, id: u32) -> int {
    choose|p: int| is_first_panel_with(panels, id, p)
}

/// Whether the view `dropped_on` is in the first panel that holds `dragged`.
pub open spec fn share_panel(panels: Seq<Seq<u32>>, dragged: u32, dropped_on: u32) -> bool {
    &&& exists|p: int| 0 <= p < panels.len() && #[trigger] panels[p].contains(dragged)
    &&& panels[first_panel_with(panels, dragged)].contains(dropped_on)
}

/// The panel with the views `a` and `b` trading places (each at its first occurrence).
pub open spec fn views_traded(panel: Seq<u32>, a: u32, b: u32) -> Seq<u32> {
    let va = panel.index_of_first(a).unwrap();
    let vb = panel.index_of_first(b).unwrap();
    panel.update(va, b).update(vb, a)
}

/// The panels after the one at `p` is taken out with `swap_remove` (the last
/// panel takes its place) and `panel` is put back in at `p`: the last panel
/// then follows it.
pub open spec fn panel_reinserted(panels: Seq<Seq<u32>>, p: int, panel: Seq<u32>) -> Seq<Seq<u32>> {
    panels.update(p, panels.last()).drop_last().insert(p, panel)
}

proof fn lemma_first_panel_unique(panels: Seq<Seq<u32>>, id: u32, p: int)
    requires
        is_first_panel_with(panels, id, p),
    ensures
        first_panel_with(panels, id) == p,
{
    let c = first_panel_with(panels, id);
    assert(is_first_panel_with(panels, id, c));
    if c < p {
        assert(!panels[c].contains(id));
    } else if p < c {
        assert(!panels[p].contains(id));
    }
}

/// Where `x` first occurs in `v`.
fn position_in(v: &Vec<u32>, x: u32) -> (r: Option<usize>)
    ensures
        match r {
            Some(i) => v@.index_of_first(x) == Some(i as int),
            None => !v@.contains(x),
        },
{
    let mut i: usize = 0;
    while i < v.len()
        invariant
            i <= v@.len(),
            forall|k: int| 0 <= k < i ==> v@[k] != x,
        decreases v@.len() - i,
    {
        if v[i] == x {
            proof {
                v@.index_of_first_ensures(x);
                assert(v@.contains(x));
            }
            return Some(i);
        }
        i = i + 1;
    }
    None
}

/// A view dragged with the mouse and released over another view of its
/// panel: the two views trade places in that panel, and the panel is taken
/// out and put back at its index, so that the last panel comes to follow it.
/// Returns whether anything moved (the dragged view then becomes the active
/// one); dropping a view on itself changes nothing. A drop on a view of
/// another panel finds no place for the dragged view there and is left out.
pub fn drop_dragged_view(panels: &mut Vec<Vec<u32>>, dragged: u32, dropped_on: u32) -> (rearranged: bool)
    requires
        dragged != dropped_on ==> share_panel(panel_ids(old(panels)@), dragged, dropped_on),
    ensures
        rearranged == (dragged != dropped_on),
        dragged == dropped_on ==> final(panels)@ == old(panels)@,
        dragged != dropped_on ==> ({
            let before = panel_ids(old(panels)@);
            let p = first_panel_with(before, dragged);
            panel_ids(final(panels)@) == panel_reinserted(
                before,
                p,
                views_traded(before[p], dragged, dropped_on),
            )
        }),
{
    if dragged == dropped_on {
        return false;
    }
    let ghost before = panel_ids(panels@);
    let mut p: usize = 0;
    let mut found = false;
    while !found && p < panels.len()
        invariant
            p <= panels@.len(),
            before == panel_ids(panels@),
            panels@ == old(panels)@,
            share_panel(before, dragged, dropped_on),
            forall|q: int| 0 <= q < p ==> !before[q].contains(dragged),
            found ==> p < panels@.len() && before[p as int].contains(dragged),
        decreases panels@.len() - p + (if found { 0int } else { 1int }),
    {
        let hit = position_in(&panels[p], dragged);
        if hit.is_some() {
            proof {
                assert(before[p as int] == panels@[p as int]@);
                before[p as int].index_of_first_ensures(dragged);
            }
            found = true;
        } else {
            proof {
                assert(before[p as int] == panels@[p as int]@);
            }
            p = p + 1;
        }
    }
    if !found {
        proof {
            let w = choose|q: int| 0 <= q < before.len() && #[trigger] before[q].contains(dragged);
            assert(!before[w].contains(dragged));
        }
        return false;
    }
    proof {
        lemma_first_panel_unique(before, dragged, p as int);
    }
    let mut panel = panels.swap_remove(p);
    assert(panel@ == before[p as int]);
    let va = position_in(&panel, dragged);
    let vb = position_in(&panel, dropped_on);
    proof {
        panel@.index_of_first_ensures(dragged);
        panel@.index_of_first_ensures(dropped_on);
    }
    match (va, vb) {
        (Some(a), Some(b)) => {
            let x = panel[a];
            let y = panel[b];
            panel.set(a, y);
            panel.set(b, x);
        },
        _ => {},
    }
    let ghost traded = panel@;
    panels.insert(p, panel);
    proof {
        assert(traded == views_traded(before[p as int], dragged, dropped_on));
        assert(panel_ids(panels@) =~= panel_reinserted(before, p as int, traded));
    }
    true
}

/// What the application does with the answer of the element that took a key.
#[derive(Debug, PartialEq, Eq)]
pub enum InputAnswerEffect {
    /// Load the file into the active view, whose buffer is empty, and hide the input box
    LoadIntoActiveView(String),
    /// Open a new view, load the file into it, and hide the input box
    LoadIntoNewView(String),
    /// Put the active view's cursor at the start of the line, and hide the input box
    GotoLine(usize),
    /// Search the active view's buffer for the text onward from its cursor
    FindNext(String),
    /// Save the active view's buffer to the path
    SaveTo(String),
    /// Ask for the path to save the active view's buffer to
    AskSavePath,
    /// Keep the text in the clipboard
    ClipboardTake(String),
    /// Nothing to do
    Ignore,
}

/// The effect of an answer: a file opens in the active view when its buffer
/// is empty and in a new view otherwise; Goto goes to the line; Find searches
/// on; Save saves to the given path, or asks for one; copied text goes to the
/// clipboard when there is any; everything else is ignored.
pub open spec fn spec_input_answer_effect(answer: CommandOutput, active_buffer_empty: bool) -> InputAnswerEffect {
    match answer {
        CommandOutput::OpenFile(path) => if active_buffer_empty {
            InputAnswerEffect::LoadIntoActiveView(path)
        } else {
            InputAnswerEffect::LoadIntoNewView(path)
        },
        CommandOutput::Goto(line) => InputAnswerEffect::GotoLine(line as usize),
        CommandOutput::Find(text) => InputAnswerEffect::FindNext(text),
        CommandOutput::SaveFile(Some(path)) => InputAnswerEffect::SaveTo(path),
        CommandOutput::SaveFile(None) => InputAnswerEffect::AskSavePath,
        CommandOutput::ClipboardCopy(Some(data)) => InputAnswerEffect::ClipboardTake(data),
        _ => InputAnswerEffect::Ignore,
    }
}

/// What the application does with the answer an input element gave to a key
/// it was handed (see `spec_input_answer_effect`).
pub fn input_answer_effect(answer: CommandOutput, active_buffer_empty: bool) -> (r: InputAnswerEffect)
    ensures
        r == spec_input_answer_effect(answer, active_buffer_empty),
{
    match answer {
        CommandOutput::OpenFile(path) => if active_buffer_empty {
            InputAnswerEffect::LoadIntoActiveView(path)
        } else {
            InputAnswerEffect::LoadIntoNewView(path)
        },
        CommandOutput::Goto(line) => InputAnswerEffect::GotoLine(line as usize),
        CommandOutput::Find(text) => InputAnswerEffect::FindNext(text),
        CommandOutput::SaveFile(Some(path)) => InputAnswerEffect::SaveTo(path),
        CommandOutput::SaveFile(None) => InputAnswerEffect::AskSavePath,
        CommandOutput::ClipboardCopy(Some(data)) => InputAnswerEffect::ClipboardTake(data),
        _ => InputAnswerEffect::Ignore,
    }
}

} // verus!
