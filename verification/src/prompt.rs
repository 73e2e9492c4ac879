//! The choices offered when a group or a to-do item is edited.
use vstd::prelude::*;

use crate::model::{Group, TodoData};
use crate::util::{ChoiceInfoPair, Displayed};

verus! {

/// The text of a property's present value: `Label (currently value)`.
pub open spec fn currently(label: Seq<char>, value: Seq<char>) -> Seq<char> {
    label + " (currently "@ + value + ")"@
}

fn currently_text(label: &str, value: &str) -> (s: String)
    ensures
        s@ == currently(label@, value@),
{
    String::from_str(label).concat(" (currently ").concat(value).concat(")")
}

/// The properties of a group that can be changed, with their present values:
/// `name`, then `color`.
pub fn group_edit_choices(g: &Group) -> (v: Vec<ChoiceInfoPair<String>>)
    ensures
        v@.len() == 2,
        v@[0].0@ == "name"@,
        v@[0].1@ == currently("Name"@, g.name@),
        v@[1].0@ == "color"@,
        v@[1].1@ == currently("Color"@, g.color.display_view()),
{
    let mut v: Vec<ChoiceInfoPair<String>> = Vec::new();
    v.push(ChoiceInfoPair(String::from_str("name"), currently_text("Name", g.name.as_str())));
    let color = g.color.display_string();
    v.push(ChoiceInfoPair(String::from_str("color"), currently_text("Color", color.as_str())));
    v
}

/// The text of an optional value: its text, or `unassigned`.
pub open spec fn or_unassigned(text: Option<Seq<char>>) -> Seq<char> {
    match text {
        Some(t) => t,
        None => "unassigned"@,
    }
}

impl TodoData {
    /// The properties of the to-do item at `i` that can be changed, with their
    /// present values: `desc`, `group`, `due`, `urg`, then `prog`.
    pub fn todo_edit_choices(&self, i: usize) -> (v: Vec<ChoiceInfoPair<String>>)
        requires
            i < self.todos@.len(),
        ensures
            v@.len() == 5,
            v@[0].0@ == "desc"@,
            v@[0].1@ == currently("Description"@, self.todos@[i as int].description.display_view()),
            v@[1].0@ == "group"@,
            v@[1].1@ == currently("Group"@, or_unassigned(match self.group_at(self.todos@[i as int].group) {
                Some(g) => Some(g.display_view()),
                None => None,
            })),
            v@[2].0@ == "due"@,
            v@[2].1@ == currently("Due date"@, or_unassigned(match self.todos@[i as int].due {
                Some(d) => Some(d.display_view()),
                None => None,
            })),
            v@[3].0@ == "urg"@,
            v@[3].1@ == currently("Urgency"@, self.todos@[i as int].urgency.display_view()),
            v@[4].0@ == "prog"@,
            v@[4].1@ == currently("Progress"@, self.todos@[i as int].progress.display_view()),
    {
        let t = &self.todos[i];
        let mut v: Vec<ChoiceInfoPair<String>> = Vec::new();
        let desc = t.description.display_string();
        v.push(ChoiceInfoPair(String::from_str("desc"), currently_text("Description", desc.as_str())));
        let group = match self.group_of(t.group) {
            Some(g) => g.display_string(),
            None => String::from_str("unassigned"),
        };
        v.push(ChoiceInfoPair(String::from_str("group"), currently_text("Group", group.as_str())));
        let due = match &t.due {
            Some(d) => d.display_string(),
            None => String::from_str("unassigned"),
        };
        v.push(ChoiceInfoPair(String::from_str("due"), currently_text("Due date", due.as_str())));
        let urgency = t.urgency.display_string();
        v.push(ChoiceInfoPair(String::from_str("urg"), currently_text("Urgency", urgency.as_str())));
        let progress = t.progress.display_string();
        v.push(ChoiceInfoPair(String::from_str("prog"), currently_text("Progress", progress.as_str())));
        v
    }
}

} // verus!
