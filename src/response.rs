use vstd::prelude::*;
use crate::value::{Num, same_text};
use crate::style::Vec2;

verus! {

#[verifier::external_type_specification]
#[verifier::external_body]
pub struct ExResponse(egui::Response);

/// Relies on egui's `Response::clicked`: reads one interaction flag.
pub assume_specification[ egui::Response::clicked ](r: &egui::Response) -> bool;

/// Relies on egui's `Response::middle_clicked`: reads one interaction flag.
pub assume_specification[ egui::Response::middle_clicked ](r: &egui::Response) -> bool;

/// Relies on egui's `Response::double_clicked`: reads one interaction flag.
pub assume_specification[ egui::Response::double_clicked ](r: &egui::Response) -> bool;

/// Relies on egui's `Response::triple_clicked`: reads one interaction flag.
pub assume_specification[ egui::Response::triple_clicked ](r: &egui::Response) -> bool;

/// Relies on egui's `Response::clicked_elsewhere`: reads one interaction flag.
pub assume_specification[ egui::Response::clicked_elsewhere ](r: &egui::Response) -> bool;

/// Relies on egui's `Response::lost_focus`: reads one interaction flag.
pub assume_specification[ egui::Response::lost_focus ](r: &egui::Response) -> bool;

/// Relies on egui's `Response::gained_focus`: reads one interaction flag.
pub assume_specification[ egui::Response::gained_focus ](r: &egui::Response) -> bool;

/// Relies on egui's `Response::has_focus`: reads one interaction flag.
pub assume_specification[ egui::Response::has_focus ](r: &egui::Response) -> bool;

/// Relies on egui's `Response::hovered`: reads one interaction flag.
pub assume_specification[ egui::Response::hovered ](r: &egui::Response) -> bool;

/// Relies on egui's `Response::changed`: reads one interaction flag.
pub assume_specification[ egui::Response::changed ](r: &egui::Response) -> bool;

/// Relies on egui's `Response::highlighted`: reads one interaction flag.
pub assume_specification[ egui::Response::highlighted ](r: &egui::Response) -> bool;

/// Relies on egui's `Response::contains_pointer`: reads one interaction flag.
pub assume_specification[ egui::Response::contains_pointer ](r: &egui::Response) -> bool;

/// Relies on egui's `Response::long_touched`: reads one interaction flag.
pub assume_specification[ egui::Response::long_touched ](r: &egui::Response) -> bool;

/// Relies on egui's `Response::drag_started`: reads one interaction flag.
pub assume_specification[ egui::Response::drag_started ](r: &egui::Response) -> bool;

/// Relies on egui's `Response::drag_stopped`: reads one interaction flag.
pub assume_specification[ egui::Response::drag_stopped ](r: &egui::Response) -> bool;

/// Relies on egui's `Response::dragged`: reads one interaction flag.
pub assume_specification[ egui::Response::dragged ](r: &egui::Response) -> bool;

/// Relies on egui's `Response::is_pointer_button_down_on`: reads one
/// interaction flag.
pub assume_specification[ egui::Response::is_pointer_button_down_on ](
    r: &egui::Response,
) -> bool;

/// The interaction predicates of one widget call.
#[derive(Clone, Copy, PartialEq, Eq, Structural, Debug)]
pub struct InteractionFlags {
    pub clicked: bool,
    pub middle_clicked: bool,
    pub double_clicked: bool,
    pub triple_clicked: bool,
    pub clicked_elsewhere: bool,
    pub lost_focus: bool,
    pub gained_focus: bool,
    pub has_focus: bool,
    pub hovered: bool,
    pub changed: bool,
    pub highlighted: bool,
    pub contains_pointer: bool,
    pub long_touched: bool,
    pub drag_started: bool,
    pub drag_stopped: bool,
    pub dragged: bool,
    pub is_pointer_button_down_on: bool,
}

/// Pointer movement seen by one widget call.
#[derive(Clone, Copy, PartialEq, Eq, Structural, Debug)]
pub struct Motion {
    pub drag_delta: Vec2,
    pub pointer_pos: Option<Vec2>,
}

/// The new state that a widget call produced.
#[derive(Clone, Debug)]
pub enum UpdatedValue {
    Text(String),
    Flag(bool),
    Number(Num),
    /// The key that a selection control now has selected.
    Selection(String),
    /// A color in 8-bit form: red, green, blue, alpha.
    Color(u8, u8, u8, u8),
}

impl UpdatedValue {
    /// A copy of this value.
    pub fn duplicate(&self) -> (r: UpdatedValue)
        ensures
            r == *self,
    {
        match self {
            UpdatedValue::Text(s) => UpdatedValue::Text(s.clone()),
            UpdatedValue::Flag(b) => UpdatedValue::Flag(*b),
            UpdatedValue::Number(n) => UpdatedValue::Number(*n),
            UpdatedValue::Selection(s) => UpdatedValue::Selection(s.clone()),
            UpdatedValue::Color(r, g, b, a) => UpdatedValue::Color(*r, *g, *b, *a),
        }
    }
}

/// What a widget call hands back to script: its interaction flags and the
/// value it produced, if any. It is never changed once made.
#[derive(Clone, Debug)]
pub struct InteractionResult {
    pub flags: InteractionFlags,
    pub motion: Motion,
    pub value: Option<UpdatedValue>,
    /// Set by composite widgets that decide `changed` themselves.
    pub changed_override: Option<bool>,
}

/// One attribute of an interaction result, as script reads it.
#[derive(Clone, Debug)]
pub enum ResultField {
    Flag(bool),
    Value(Option<UpdatedValue>),
    Pair(Vec2),
    MaybePair(Option<Vec2>),
}

/// Whether the call changed the widget's value: the override when a widget
/// set one, the host's flag otherwise.
pub open spec fn changed_of(r: InteractionResult) -> bool {
    match r.changed_override {
        Some(c) => c,
        None => r.flags.changed,
    }
}

/// Reads the interaction flags of a host response.
fn flags_of(res: &egui::Response) -> (f: InteractionFlags) {
    InteractionFlags {
        clicked: res.clicked(),
        middle_clicked: res.middle_clicked(),
        double_clicked: res.double_clicked(),
        triple_clicked: res.triple_clicked(),
        clicked_elsewhere: res.clicked_elsewhere(),
        lost_focus: res.lost_focus(),
        gained_focus: res.gained_focus(),
        has_focus: res.has_focus(),
        hovered: res.hovered(),
        changed: res.changed(),
        highlighted: res.highlighted(),
        contains_pointer: res.contains_pointer(),
        long_touched: res.long_touched(),
        drag_started: res.drag_started(),
        drag_stopped: res.drag_stopped(),
        dragged: res.dragged(),
        is_pointer_button_down_on: res.is_pointer_button_down_on(),
    }
}

impl InteractionResult {
    /// Wraps flags, motion and an optional new value; `changed` follows the flags.
    pub fn wrap(flags: InteractionFlags, motion: Motion, value: Option<UpdatedValue>) -> (r:
        InteractionResult)
        ensures
            r.flags == flags,
            r.motion == motion,
            r.value == value,
            r.changed_override == None::<bool>,
            changed_of(r) == flags.changed,
    {
        InteractionResult { flags, motion, value, changed_override: None }
    }

    /// Wraps a host response (see `wrap`).
    pub fn from_response(res: &egui::Response, motion: Motion, value: Option<UpdatedValue>) -> (r:
        InteractionResult)
        ensures
            r.motion == motion,
            r.value == value,
            r.changed_override == None::<bool>,
    {
        InteractionResult::wrap(flags_of(res), motion, value)
    }

    /// The result of a widget whose text value (an edited text, a radio
    /// group's current choice) went from `before` to `after`: the value is the
    /// new text, and it changed exactly when the two texts differ.
    pub fn with_edited_text(self, before: &str, after: String) -> (r: InteractionResult)
        ensures
            r.flags == self.flags,
            r.motion == self.motion,
            r.value == Some(UpdatedValue::Text(after)),
            r.changed_override == Some(before@ != after@),
            changed_of(r) == (before@ != after@),
    {
        let differs = !same_text(before, after.as_str());
        InteractionResult {
            flags: self.flags,
            motion: self.motion,
            value: Some(UpdatedValue::Text(after)),
            changed_override: Some(differs),
        }
    }

    /// The result of a toggle that began at `before` and ended at `after`:
    /// the value is the new state, and it changed exactly when the two differ.
    pub fn with_new_flag(self, before: bool, after: bool) -> (r: InteractionResult)
        ensures
            r.flags == self.flags,
            r.motion == self.motion,
            r.value == Some(UpdatedValue::Flag(after)),
            r.changed_override == Some(before != after),
            changed_of(r) == (before != after),
    {
        InteractionResult {
            flags: self.flags,
            motion: self.motion,
            value: Some(UpdatedValue::Flag(after)),
            changed_override: Some(before != after),
        }
    }

    /// The result of a numeric widget that began at `before` and ended at
    /// `after`: the value is the new number, and it changed exactly when the
    /// two numbers differ (compared as the numbers the script holds, bit for
    /// bit).
    pub fn with_new_number(self, before: Num, after: Num) -> (r: InteractionResult)
        ensures
            r.flags == self.flags,
            r.motion == self.motion,
            r.value == Some(UpdatedValue::Number(after)),
            r.changed_override == Some(before != after),
            changed_of(r) == (before != after),
    {
        let differs = before.bits != after.bits;
        InteractionResult {
            flags: self.flags,
            motion: self.motion,
            value: Some(UpdatedValue::Number(after)),
            changed_override: Some(differs),
        }
    }

    /// The result of a selection control whose key went from `old_key` to
    /// `new_key`: a new key is the value and counts as a change; the same key
    /// leaves the result as it was.
    pub fn with_selection(self, old_key: &str, new_key: String) -> (r: InteractionResult)
        ensures
            old_key@ != new_key@ ==> r.flags == self.flags && r.motion == self.motion && r.value
                == Some(UpdatedValue::Selection(new_key)) && r.changed_override == Some(true),
            old_key@ == new_key@ ==> r == self,
    {
        if same_text(old_key, new_key.as_str()) {
            self
        } else {
            InteractionResult {
                flags: self.flags,
                motion: self.motion,
                value: Some(UpdatedValue::Selection(new_key)),
                changed_override: Some(true),
            }
        }
    }

    /// Whether the call changed the widget's value (see `changed_of`).
    pub fn changed(&self) -> (c: bool)
        ensures
            c == changed_of(*self),
    {
        match self.changed_override {
            Some(c) => c,
            None => self.flags.changed,
        }
    }

    /// The attribute that script reads under `name`, or `None` for a name
    /// that results do not have.
    pub fn field(&self, name: &str) -> (r: Option<ResultField>)
        ensures
            r == result_field(*self, name@),
    {
        let f = self.flags;
        if same_text(name, "value") {
            let v = match &self.value {
                Some(v) => Some(v.duplicate()),
                None => None,
            };
            Some(ResultField::Value(v))
        } else if same_text(name, "changed") {
            Some(ResultField::Flag(self.changed()))
        } else if same_text(name, "drag_delta") {
            Some(ResultField::Pair(self.motion.drag_delta))
        } else if same_text(name, "interact_pointer_pos") {
            Some(ResultField::MaybePair(self.motion.pointer_pos))
        } else {
            match flag_named(f, name) {
                Some(b) => Some(ResultField::Flag(b)),
                None => None,
            }
        }
    }
}

/// The attribute of a result that script reads under `name`.
pub open spec fn result_field(r: InteractionResult, name: Seq<char>) -> Option<ResultField> {
    if name == "value"@ {
        Some(ResultField::Value(r.value))
    } else if name == "changed"@ {
        Some(ResultField::Flag(changed_of(r)))
    } else if name == "drag_delta"@ {
        Some(ResultField::Pair(r.motion.drag_delta))
    } else if name == "interact_pointer_pos"@ {
        Some(ResultField::MaybePair(r.motion.pointer_pos))
    } else {
        match flag_of(r.flags, name) {
            Some(b) => Some(ResultField::Flag(b)),
            None => None,
        }
    }
}

/// The interaction flag that script reads under `name`.
pub open spec fn flag_of(f: InteractionFlags, name: Seq<char>) -> Option<bool> {
    if name == "clicked"@ {
        Some(f.clicked)
    } else if name == "middle_clicked"@ {
        Some(f.middle_clicked)
    } else if name == "double_clicked"@ {
        Some(f.double_clicked)
    } else if name == "triple_clicked"@ {
        Some(f.triple_clicked)
    } else if name == "clicked_elsewhere"@ {
        Some(f.clicked_elsewhere)
    } else if name == "lost_focus"@ {
        Some(f.lost_focus)
    } else if name == "gained_focus"@ {
        Some(f.gained_focus)
    } else if name == "has_focus"@ {
        Some(f.has_focus)
    } else if name == "hovered"@ {
        Some(f.hovered)
    } else if name == "highlighted"@ {
        Some(f.highlighted)
    } else if name == "contains_pointer"@ {
        Some(f.contains_pointer)
    } else if name == "long_touched"@ {
        Some(f.long_touched)
    } else if name == "drag_started"@ {
        Some(f.drag_started)
    } else if name == "drag_stopped"@ {
        Some(f.drag_stopped)
    } else if name == "dragged"@ {
        Some(f.dragged)
    } else if name == "is_pointer_button_down_on"@ {
        Some(f.is_pointer_button_down_on)
    } else {
        None
    }
}

fn flag_named(f: InteractionFlags, name: &str) -> (r: Option<bool>)
    ensures
        r == flag_of(f, name@),
{
    if same_text(name, "clicked") {
        Some(f.clicked)
    } else if same_text(name, "middle_clicked") {
        Some(f.middle_clicked)
    } else if same_text(name, "double_clicked") {
        Some(f.double_clicked)
    } else if same_text(name, "triple_clicked") {
        Some(f.triple_clicked)
    } else if same_text(name, "clicked_elsewhere") {
        Some(f.clicked_elsewhere)
    } else if same_text(name, "lost_focus") {
        Some(f.lost_focus)
    } else if same_text(name, "gained_focus") {
        Some(f.gained_focus)
    } else if same_text(name, "has_focus") {
        Some(f.has_focus)
    } else if same_text(name, "hovered") {
        Some(f.hovered)
    } else if same_text(name, "highlighted") {
        Some(f.highlighted)
    } else if same_text(name, "contains_pointer") {
        Some(f.contains_pointer)
    } else if same_text(name, "long_touched") {
        Some(f.long_touched)
    } else if same_text(name, "drag_started") {
        Some(f.drag_started)
    } else if same_text(name, "drag_stopped") {
        Some(f.drag_stopped)
    } else if same_text(name, "dragged") {
        Some(f.dragged)
    } else if same_text(name, "is_pointer_button_down_on") {
        Some(f.is_pointer_button_down_on)
    } else {
        None
    }
}

/// The label a selection control shows for `key`: the value of the first
/// entry with that key, or the key itself.
pub open spec fn label_of(entries: Seq<(String, String)>, key: Seq<char>) -> Seq<char>
    decreases entries.len(),
{
    if entries.len() == 0 {
        key
    } else if entries[0].0@ == key {
        entries[0].1@
    } else {
        label_of(entries.drop_first(), key)
    }
}

/// The label a selection control shows for `key` (see `label_of`).
pub fn selected_label(entries: &Vec<(String, String)>, key: &str) -> (r: String)
    ensures
        r@ == label_of(entries@, key@),
{
    let mut i: usize = 0;
    assert(entries@.subrange(0, entries@.len() as int) =~= entries@);
    while i < entries.len()
        invariant
            i <= entries@.len(),
            label_of(entries@, key@) == label_of(entries@.subrange(i as int, entries@.len() as int), key@),
        decreases entries@.len() - i,
    {
        let ghost rest = entries@.subrange(i as int, entries@.len() as int);
        assert(rest.drop_first() =~= entries@.subrange(i + 1, entries@.len() as int));
        if same_text(entries[i].0.as_str(), key) {
            return entries[i].1.clone();
        }
        i = i + 1;
    }
    key.to_owned()
}

} // verus!
