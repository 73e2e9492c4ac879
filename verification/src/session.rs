//! The interactive session: what the prompt does with each line the user
//! types, and what it asks next.
use vstd::prelude::*;

use crate::command::{parse_command_line, parsed_command_line, Command};
use crate::instant::{
    ambiguous_datetime_message, input_format, invalid_datetime_message, parsed_naive,
    reads_locally_as, Instant,
};
use crate::model::{
    color_variants, copy_group, copy_todo, is_group_sort_of, todo_text, Color, Description, Group,
    GroupRef, Progress, TodoData, TodoItem, Urgency,
};
use crate::prompt::{currently, group_edit_choices, or_unassigned};
use crate::sorting::{law_sorted_elements_are_elements, lemma_sorted_ranked, sort_ranked, sorted_ranked};
use crate::text::str_eq;
use crate::util::{
    choice_made, choice_result, display_views, empty_choice_message, get_choice_index,
    opt_choice_index, opt_choice_made, options_as_string, options_listing,
    sorted_options_as_string, ChoiceInfoPair, Displayed, InputError,
};

verus! {

/// What the session waits for from the user.
#[allow(inconsistent_fields)]
pub enum Stage {
    /// A command.
    Command,
    /// The name of a new group.
    NewGroupName,
    /// The colour of a new group called `name`.
    NewGroupColor { name: String },
    /// The group to edit.
    GroupToEdit,
    /// Which property of the group at `group` to change, among `choices`.
    GroupProperty { group: usize, choices: Vec<ChoiceInfoPair<String>> },
    /// The new name of the group at `group`.
    GroupName { group: usize },
    /// The new colour of the group at `group`.
    GroupColor { group: usize },
    /// The description of a new to-do item.
    NewTodoDescription,
    /// The group of a new to-do item.
    NewTodoGroup { description: Description },
    /// The due date of a new to-do item.
    NewTodoDue { description: Description, group: Option<GroupRef> },
    /// The urgency of a new to-do item.
    NewTodoUrgency { description: Description, group: Option<GroupRef>, due: Option<Instant> },
    /// The to-do item to edit.
    TodoToEdit,
    /// Which property of the to-do item at `todo` to change, among `choices`.
    TodoProperty { todo: usize, choices: Vec<ChoiceInfoPair<String>> },
    /// The new description of the to-do item at `todo`.
    TodoDescription { todo: usize },
    /// The new group of the to-do item at `todo`.
    TodoGroup { todo: usize },
    /// The new due date of the to-do item at `todo`.
    TodoDue { todo: usize },
    /// The new urgency of the to-do item at `todo`.
    TodoUrgency { todo: usize },
    /// The new progress of the to-do item at `todo`.
    TodoProgress { todo: usize },
}

/// What the session answers to a line: text to show, an error to report, and
/// whether to store the list or to end the program.
pub struct Reply {
    pub output: String,
    pub error: Option<String>,
    pub save: bool,
    pub quit: bool,
}

/// The to-do list and what the prompt waits for.
pub struct Session {
    pub data: TodoData,
    pub stage: Stage,
}

/// The question for a required value: a blank line, then `prompt?`.
pub open spec fn asked(prompt: Seq<char>) -> Seq<char> {
    "\n"@ + prompt + "?\n"@
}

/// The question for an optional value.
pub open spec fn asked_optional(prompt: Seq<char>) -> Seq<char> {
    "\n"@ + prompt + " (optional)?\n"@
}

/// The question for one of the listed options.
pub open spec fn asked_among(prompt: Seq<char>, listing: Seq<char>) -> Seq<char> {
    "\n"@ + prompt + "? Options are:\n"@ + listing + "\n"@
}

/// The question for one of the listed options or none.
pub open spec fn asked_optional_among(prompt: Seq<char>, listing: Seq<char>) -> Seq<char> {
    "\n"@ + prompt + " (optional)? Options are:\n"@ + listing + "\n"@
}

/// The list of commands.
pub open spec fn help_text() -> Seq<char> {
    "Available commands:\n  - <todo/t> <add/edit/<list/ls>>\n  - <group/g> <add/edit/<list/ls>>\n  - <help/h>\n  - <quit/q/exit>"@
}

/// The reply that shows `output` and waits for the next line.
pub open spec fn says(reply: Reply, output: Seq<char>) -> bool {
    &&& reply.output@ == output
    &&& reply.error is None
    &&& !reply.save
    &&& !reply.quit
}

/// The reply that shows `output` after a change and has the list stored.
pub open spec fn says_and_saves(reply: Reply, output: Seq<char>) -> bool {
    &&& reply.output@ == output
    &&& reply.error is None
    &&& reply.save
    &&& !reply.quit
}

/// `a` and `b` hold the same groups and to-do items.
pub open spec fn same_data(a: TodoData, b: TodoData) -> bool {
    a.groups@ == b.groups@ && a.todos@ == b.todos@
}

/// The line is refused with `message`: the list is as it was and the session
/// waits for a command.
pub open spec fn refused(data: TodoData, message: Seq<char>, next: Session, reply: Reply) -> bool {
    &&& same_data(next.data, data)
    &&& next.stage is Command
    &&& reply.output@ == Seq::<char>::empty()
    &&& reply.error matches Some(e) && e@ == message
    &&& !reply.save
    &&& !reply.quit
}

/// `new` is `old` with its to-do items sorted stably.
pub open spec fn is_todo_sort_of(new: TodoData, old: TodoData) -> bool {
    &&& new.wf()
    &&& new.groups@ == old.groups@
    &&& new.todos@ == sorted_ranked(old.todos@)
}

/// What a command line does: a refused line reports why; each command shows
/// its first question or its listing (the edit and list commands sort what
/// they list first); the removal commands do nothing.
pub open spec fn command_step(data: TodoData, line: Seq<char>, next: Session, reply: Reply) -> bool {
    match parsed_command_line(line) {
        Err(m) => refused(data, m, next, reply),
        Ok(Command::GroupAdd) => {
            &&& same_data(next.data, data)
            &&& next.stage is NewGroupName
            &&& says(reply, "You're creating a new group!\n"@ + asked("Name"@))
        },
        Ok(Command::GroupEdit) => {
            &&& is_group_sort_of(next.data, data)
            &&& next.stage is GroupToEdit
            &&& says(
                reply,
                "You're editing an existing group!\n"@ + asked_among(
                    "Group to edit"@,
                    options_listing(display_views(next.data.groups@)),
                ),
            )
        },
        Ok(Command::GroupList) => {
            &&& is_group_sort_of(next.data, data)
            &&& next.stage is Command
            &&& says(reply, options_listing(display_views(next.data.groups@)) + "\n"@)
        },
        Ok(Command::TodoAdd) => {
            &&& same_data(next.data, data)
            &&& next.stage is NewTodoDescription
            &&& says(reply, "You're creating a new todo item!\n"@ + asked("Description"@))
        },
        Ok(Command::TodoEdit) => {
            &&& is_todo_sort_of(next.data, data)
            &&& next.stage is TodoToEdit
            &&& says(
                reply,
                "You're editing an existing todo item!\n"@ + asked_among(
                    "Todo item to edit"@,
                    options_listing(next.data.todo_texts()),
                ),
            )
        },
        Ok(Command::TodoList) => {
            &&& is_todo_sort_of(next.data, data)
            &&& next.stage is Command
            &&& says(reply, options_listing(next.data.todo_texts()) + "\n"@)
        },
        Ok(Command::Help) => {
            &&& same_data(next.data, data)
            &&& next.stage is Command
            &&& says(reply, help_text() + "\n"@)
        },
        Ok(Command::Quit) => {
            &&& same_data(next.data, data)
            &&& next.stage is Command
            &&& reply.output@ == Seq::<char>::empty()
            &&& reply.error is None
            &&& !reply.save
            &&& reply.quit
        },
        Ok(_) => {
            &&& same_data(next.data, data)
            &&& next.stage is Command
            &&& says(reply, Seq::<char>::empty())
        },
    }
}

impl Reply {
    /// Shows `output` and waits for the next line.
    fn say(output: String) -> (r: Reply)
        ensures
            says(r, output@),
    {
        Reply { output, error: None, save: false, quit: false }
    }

    /// Shows `output` after a change and has the list stored.
    fn say_and_save(output: String) -> (r: Reply)
        ensures
            says_and_saves(r, output@),
    {
        Reply { output, error: None, save: true, quit: false }
    }

    /// Reports `message`.
    fn refuse(message: String) -> (r: Reply)
        ensures
            r.output@ == Seq::<char>::empty(),
            r.error matches Some(e) && e@ == message@,
            !r.save,
            !r.quit,
    {
        Reply { output: String::new(), error: Some(message), save: false, quit: false }
    }
}

/// `"\n" + prompt + "?\n"`.
fn ask(prompt: &str) -> (s: String)
    ensures
        s@ == asked(prompt@),
{
    String::from_str("\n").concat(prompt).concat("?\n")
}

/// `"\n" + prompt + " (optional)?\n"`.
fn ask_optional(prompt: &str) -> (s: String)
    ensures
        s@ == asked_optional(prompt@),
{
    String::from_str("\n").concat(prompt).concat(" (optional)?\n")
}

/// `"\n" + prompt + "? Options are:\n" + listing + "\n"`.
fn ask_among(prompt: &str, listing: &str) -> (s: String)
    ensures
        s@ == asked_among(prompt@, listing@),
{
    String::from_str("\n").concat(prompt).concat("? Options are:\n").concat(listing).concat("\n")
}

/// `"\n" + prompt + " (optional)? Options are:\n" + listing + "\n"`.
fn ask_optional_among(prompt: &str, listing: &str) -> (s: String)
    ensures
        s@ == asked_optional_among(prompt@, listing@),
{
    String::from_str("\n").concat(prompt).concat(" (optional)? Options are:\n").concat(listing).concat(
        "\n",
    )
}

/// The text of a typed answer, as it was typed.
fn typed_text(line: &str) -> (r: Result<String, InputError>)
    ensures
        r matches Ok(v) && v@ == line@,
{
    Ok(String::from_str(line))
}

/// The description of a typed answer, as it was typed.
fn typed_description(line: &str) -> (r: Result<Description, InputError>)
    ensures
        r matches Ok(d) && d.0@ == line@,
{
    Ok(Description(String::from_str(line)))
}

impl Session {
    /// What a command line does, as [`command_step`] says.
    fn on_command(&mut self, line: &str) -> (r: Reply)
        requires
            old(self).data.wf(),
        ensures
            command_step(old(self).data, line@, *final(self), r),
            final(self).data.wf(),
            stage_fits(final(self).data, final(self).stage),
    {
        match parse_command_line(line) {
            Err(e) => {
                self.stage = Stage::Command;
                Reply::refuse(e.message)
            },
            Ok(Command::GroupAdd) => {
                self.stage = Stage::NewGroupName;
                Reply::say(String::from_str("You're creating a new group!\n").concat(ask("Name").as_str()))
            },
            Ok(Command::GroupEdit) => {
                let listing = self.data.groups_as_string();
                self.stage = Stage::GroupToEdit;
                Reply::say(
                    String::from_str("You're editing an existing group!\n").concat(
                        ask_among("Group to edit", listing.as_str()).as_str(),
                    ),
                )
            },
            Ok(Command::GroupList) => {
                let listing = self.data.groups_as_string();
                self.stage = Stage::Command;
                Reply::say(listing.concat("\n"))
            },
            Ok(Command::TodoAdd) => {
                self.stage = Stage::NewTodoDescription;
                Reply::say(
                    String::from_str("You're creating a new todo item!\n").concat(ask("Description").as_str()),
                )
            },
            Ok(Command::TodoEdit) => {
                let listing = self.data.todos_as_string();
                self.stage = Stage::TodoToEdit;
                Reply::say(
                    String::from_str("You're editing an existing todo item!\n").concat(
                        ask_among("Todo item to edit", listing.as_str()).as_str(),
                    ),
                )
            },
            Ok(Command::TodoList) => {
                let listing = self.data.todos_as_string();
                self.stage = Stage::Command;
                Reply::say(listing.concat("\n"))
            },
            Ok(Command::Help) => {
                self.stage = Stage::Command;
                Reply::say(
                    String::from_str(
                        "Available commands:\n  - <todo/t> <add/edit/<list/ls>>\n  - <group/g> <add/edit/<list/ls>>\n  - <help/h>\n  - <quit/q/exit>",
                    ).concat("\n"),
                )
            },
            Ok(Command::Quit) => {
                self.stage = Stage::Command;
                Reply { output: String::new(), error: None, save: false, quit: true }
            },
            Ok(_) => {
                self.stage = Stage::Command;
                Reply::say(String::new())
            },
        }
    }
}

/// The colours offered for a group, in order.
pub open spec fn color_choices() -> Seq<Color> {
    sorted_ranked(color_variants())
}

/// The colours offered for a group, in order.
fn sorted_colors() -> (v: Vec<Color>)
    ensures
        v@ == color_choices(),
{
    let all = Color::variants();
    let mut v: Vec<Color> = Vec::new();
    let mut i: usize = 0;
    while i < 17
        invariant
            all@ == color_variants(),
            i <= 17,
            v@ == all@.take(i as int),
        decreases 17 - i,
    {
        v.push(all[i]);
        i = i + 1;
        assert(v@ =~= all@.take(i as int));
    }
    assert(all@.take(17) =~= all@);
    sort_ranked(v.as_mut_slice());
    v
}

/// The choices offered to edit a group `g`, as listed: its properties in
/// order, each with its present value.
pub open spec fn group_choices_of(g: Group, choices: Seq<ChoiceInfoPair<String>>) -> bool {
    exists|c: Seq<ChoiceInfoPair<String>>| {
        &&& c.len() == 2
        &&& #[trigger] c[0].0@ == "name"@
        &&& c[0].1@ == currently("Name"@, g.name@)
        &&& c[1].0@ == "color"@
        &&& c[1].1@ == currently("Color"@, g.color.display_view())
        &&& choices == sorted_ranked(c)
    }
}

/// The choices for a group's property name only `name` and `color`.
pub open spec fn group_choice_words(choices: Seq<ChoiceInfoPair<String>>) -> bool {
    forall|k: int| 0 <= k < choices.len() ==> #[trigger] choices[k].0@ == "name"@ || choices[k].0@ == "color"@
}

/// What the name of a new group does.
pub open spec fn new_group_name_step(data: TodoData, line: Seq<char>, next: Session, reply: Reply) -> bool {
    if line.len() == 0 {
        refused(data, empty_choice_message(), next, reply)
    } else {
        &&& same_data(next.data, data)
        &&& next.stage matches Stage::NewGroupColor { name } && name@ == line
        &&& says(reply, asked_among("Color"@, options_listing(display_views(color_choices()))))
    }
}

/// What the colour of a new group called `name` does.
pub open spec fn new_group_color_step(data: TodoData, name: String, line: Seq<char>, next: Session, reply: Reply) -> bool {
    match choice_result(color_choices(), line) {
        Err(m) => refused(data, m, next, reply),
        Ok(k) => {
            let g = Group { name, color: color_choices()[k] };
            &&& next.data.groups@ == data.groups@.push(g)
            &&& next.data.todos@ == data.todos@
            &&& next.stage is Command
            &&& says_and_saves(reply, "\nDone! Created group: "@ + g.display_view() + "\n"@)
        },
    }
}

/// What the choice of a group to edit does.
pub open spec fn group_to_edit_step(data: TodoData, line: Seq<char>, next: Session, reply: Reply) -> bool {
    match choice_result(data.groups@, line) {
        Err(m) => refused(data, m, next, reply),
        Ok(k) => {
            &&& same_data(next.data, data)
            &&& next.stage matches Stage::GroupProperty { group, choices } && group == k
                && group_choices_of(data.groups@[k], choices@) && group_choice_words(choices@)
                && says(reply, asked_among("Property to change"@, options_listing(display_views(choices@))))
        },
    }
}

/// What the choice of a property of the group at `group` does.
pub open spec fn group_property_step(
    data: TodoData,
    group: usize,
    choices: Seq<ChoiceInfoPair<String>>,
    line: Seq<char>,
    next: Session,
    reply: Reply,
) -> bool {
    match choice_result(choices, line) {
        Err(m) => refused(data, m, next, reply),
        Ok(k) => {
            &&& same_data(next.data, data)
            &&& if choices[k].0@ == "name"@ {
                &&& next.stage == (Stage::GroupName { group })
                &&& says(reply, asked("New name"@))
            } else {
                &&& next.stage == (Stage::GroupColor { group })
                &&& says(reply, asked_among("New color"@, options_listing(display_views(color_choices()))))
            }
        },
    }
}

/// What the new name of the group at `group` does.
pub open spec fn group_name_step(data: TodoData, group: usize, line: Seq<char>, next: Session, reply: Reply) -> bool {
    if line.len() == 0 {
        refused(data, empty_choice_message(), next, reply)
    } else {
        let g = data.groups@[group as int];
        &&& next.data.groups@.len() == data.groups@.len()
        &&& next.data.groups@[group as int].name@ == line
        &&& next.data.groups@[group as int].color == g.color
        &&& forall|j: int| 0 <= j < data.groups@.len() && j != group ==> #[trigger] next.data.groups@[j] == data.groups@[j]
        &&& next.data.todos@ == data.todos@
        &&& next.stage is Command
        &&& says_and_saves(reply, "\nDone! Edited group: "@ + next.data.groups@[group as int].display_view() + "\n"@)
    }
}

/// What the new colour of the group at `group` does.
pub open spec fn group_color_step(data: TodoData, group: usize, line: Seq<char>, next: Session, reply: Reply) -> bool {
    match choice_result(color_choices(), line) {
        Err(m) => refused(data, m, next, reply),
        Ok(k) => {
            let g = data.groups@[group as int];
            let changed = Group { color: color_choices()[k], ..g };
            &&& next.data.groups@ == data.groups@.update(group as int, changed)
            &&& next.data.todos@ == data.todos@
            &&& next.stage is Command
            &&& says_and_saves(reply, "\nDone! Edited group: "@ + changed.display_view() + "\n"@)
        },
    }
}

impl Session {
    /// Answers a line at this stage, as [`new_group_name_step`] says.
    fn on_new_group_name(&mut self, line: &str) -> (r: Reply)
        requires
            old(self).data.wf(),
        ensures
            new_group_name_step(old(self).data, line@, *final(self), r),
            final(self).data.wf(),
            stage_fits(final(self).data, final(self).stage),
    {
        let name = match choice_made(&typed_text, line) {
            Err(e) => {
                self.stage = Stage::Command;
                return Reply::refuse(e.message);
            },
            Ok(name) => name,
        };
        let colors = sorted_colors();
        let listing = options_as_string(colors.as_slice());
        self.stage = Stage::NewGroupColor { name };
        Reply::say(ask_among("Color", listing.as_str()))
    }

    /// Answers a line at this stage, as [`new_group_color_step`] says.
    fn on_new_group_color(&mut self, name: String, line: &str) -> (r: Reply)
        requires
            old(self).data.wf(),
        ensures
            new_group_color_step(old(self).data, name, line@, *final(self), r),
            final(self).data.wf(),
            stage_fits(final(self).data, final(self).stage),
    {
        let mut colors = sorted_colors();
        match get_choice_index(colors.as_mut_slice(), line) {
            Err(e) => {
                self.stage = Stage::Command;
                Reply::refuse(e.message)
            },
            Ok(k) => {
                proof {
                    crate::util::law_choice_is_an_option(color_choices(), line@);
                }
                let g = Group::from(name, colors[k]);
                assert(g == (Group { name, color: color_choices()[k as int] }));
                let text = g.display_string();
                self.data.add_group(g);
                self.stage = Stage::Command;
                Reply::say_and_save(String::from_str("\nDone! Created group: ").concat(text.as_str()).concat("\n"))
            },
        }
    }

    /// Answers a line at this stage, as [`group_to_edit_step`] says.
    fn on_group_to_edit(&mut self, line: &str) -> (r: Reply)
        requires
            old(self).data.wf(),
        ensures
            group_to_edit_step(old(self).data, line@, *final(self), r),
            final(self).data.wf(),
            stage_fits(final(self).data, final(self).stage),
    {
        match get_choice_index(self.data.groups.as_mut_slice(), line) {
            Err(e) => {
                self.stage = Stage::Command;
                Reply::refuse(e.message)
            },
            Ok(k) => {
                proof {
                    crate::util::law_choice_is_an_option(self.data.groups@, line@);
                }
                let mut choices = group_edit_choices(&self.data.groups[k]);
                let ghost unsorted = choices@;
                let listing = sorted_options_as_string(choices.as_mut_slice());
                assert(group_choices_of(self.data.groups@[k as int], choices@)) by {
                    assert(unsorted[0].0@ == "name"@);
                }
                proof {
                    law_sorted_elements_are_elements(unsorted);
                    assert forall|j: int| 0 <= j < choices@.len() implies #[trigger] choices@[j].0@ == "name"@
                        || choices@[j].0@ == "color"@ by {
                        assert(unsorted.contains(choices@[j]));
                        let m = choose|m: int| 0 <= m < unsorted.len() && unsorted[m] == choices@[j];
                        assert(m == 0 || m == 1);
                    }
                }
                assert(same_data(self.data, old(self).data));
                self.stage = Stage::GroupProperty { group: k, choices };
                Reply::say(ask_among("Property to change", listing.as_str()))
            },
        }
    }
}

impl Session {
    /// Answers a line at this stage, as [`group_property_step`] says.
    fn on_group_property(&mut self, group: usize, choices: Vec<ChoiceInfoPair<String>>, line: &str) -> (r: Reply)
        requires
            old(self).data.wf(),
            group < old(self).data.groups@.len(),
            group_choice_words(choices@),
        ensures
            group_property_step(old(self).data, group, choices@, line@, *final(self), r),
            final(self).data.wf(),
            stage_fits(final(self).data, final(self).stage),
    {
        let mut choices = choices;
        let ghost before = choices@;
        match get_choice_index(choices.as_mut_slice(), line) {
            Err(e) => {
                self.stage = Stage::Command;
                Reply::refuse(e.message)
            },
            Ok(k) => {
                proof {
                    crate::util::law_choice_is_an_option(before, line@);
                }
                if str_eq(choices[k].0.as_str(), "name") {
                    self.stage = Stage::GroupName { group };
                    Reply::say(ask("New name"))
                } else {
                    let colors = sorted_colors();
                    let listing = options_as_string(colors.as_slice());
                    self.stage = Stage::GroupColor { group };
                    Reply::say(ask_among("New color", listing.as_str()))
                }
            },
        }
    }

    /// Answers a line at this stage, as [`group_name_step`] says.
    fn on_group_name(&mut self, group: usize, line: &str) -> (r: Reply)
        requires
            old(self).data.wf(),
            group < old(self).data.groups@.len(),
        ensures
            group_name_step(old(self).data, group, line@, *final(self), r),
            final(self).data.wf(),
            stage_fits(final(self).data, final(self).stage),
    {
        let name = match choice_made(&typed_text, line) {
            Err(e) => {
                self.stage = Stage::Command;
                return Reply::refuse(e.message);
            },
            Ok(name) => name,
        };
        let old_group = copy_group(&self.data.groups[group]);
        let changed = Group { name, color: old_group.color };
        let text = changed.display_string();
        self.data.groups.set(group, changed);
        self.stage = Stage::Command;
        Reply::say_and_save(String::from_str("\nDone! Edited group: ").concat(text.as_str()).concat("\n"))
    }

    /// Answers a line at this stage, as [`group_color_step`] says.
    fn on_group_color(&mut self, group: usize, line: &str) -> (r: Reply)
        requires
            old(self).data.wf(),
            group < old(self).data.groups@.len(),
        ensures
            group_color_step(old(self).data, group, line@, *final(self), r),
            final(self).data.wf(),
            stage_fits(final(self).data, final(self).stage),
    {
        let mut colors = sorted_colors();
        match get_choice_index(colors.as_mut_slice(), line) {
            Err(e) => {
                self.stage = Stage::Command;
                Reply::refuse(e.message)
            },
            Ok(k) => {
                let old_group = copy_group(&self.data.groups[group]);
                let changed = Group { name: old_group.name, color: colors[k] };
                let text = changed.display_string();
                self.data.groups.set(group, changed);
                self.stage = Stage::Command;
                Reply::say_and_save(String::from_str("\nDone! Edited group: ").concat(text.as_str()).concat("\n"))
            },
        }
    }
}

/// The urgencies offered, in order.
pub open spec fn urgency_choices() -> Seq<Urgency> {
    sorted_ranked(seq![Urgency::High, Urgency::Medium, Urgency::Low, Urgency::LongTerm])
}

/// The progresses offered, in order.
pub open spec fn progress_choices() -> Seq<Progress> {
    sorted_ranked(seq![Progress::InProgress, Progress::Done, Progress::Abandoned])
}

/// The urgencies offered, in order.
fn sorted_urgencies() -> (v: Vec<Urgency>)
    ensures
        v@ == urgency_choices(),
{
    let mut v = Urgency::all();
    sort_ranked(v.as_mut_slice());
    v
}

/// The progresses offered, in order.
fn sorted_progresses() -> (v: Vec<Progress>)
    ensures
        v@ == progress_choices(),
{
    let mut v = Progress::all();
    sort_ranked(v.as_mut_slice());
    v
}

/// The prompt for a due date.
pub open spec fn due_prompt() -> Seq<char> {
    "Due date and time (format YYYY-MM-DD HH:MM:SS)"@
}

/// The prompt for a new due date.
pub open spec fn new_due_prompt() -> Seq<char> {
    "New due date and time (format YYYY-MM-DD HH:MM:SS)"@
}

/// What the description of a new to-do item does.
pub open spec fn new_todo_description_step(data: TodoData, line: Seq<char>, next: Session, reply: Reply) -> bool {
    if line.len() == 0 {
        refused(data, empty_choice_message(), next, reply)
    } else {
        &&& is_group_sort_of(next.data, data)
        &&& next.stage matches Stage::NewTodoGroup { description } && description.0@ == line
        &&& says(reply, asked_optional_among("Group"@, options_listing(display_views(next.data.groups@))))
    }
}

/// What the group of a new to-do item does.
pub open spec fn new_todo_group_step(
    data: TodoData,
    description: Description,
    line: Seq<char>,
    next: Session,
    reply: Reply,
) -> bool {
    let continues = |group: Option<GroupRef>| {
        &&& same_data(next.data, data)
        &&& next.stage == (Stage::NewTodoDue { description, group })
        &&& says(reply, asked_optional(due_prompt()))
    };
    if line.len() == 0 {
        continues(None)
    } else {
        match choice_result(data.groups@, line) {
            Err(m) => refused(data, m, next, reply),
            Ok(k) => continues(Some(GroupRef(k as usize))),
        }
    }
}

/// What an optional date and time does: none when the line is empty, else
/// the moment whose local reading is the typed date and time (refused where
/// the time zone gives no single such moment, or one that cannot be held);
/// `chosen` says what follows a date.
pub open spec fn due_step(
    data: TodoData,
    line: Seq<char>,
    next: Session,
    reply: Reply,
    chosen: spec_fn(Option<Instant>) -> bool,
) -> bool {
    if line.len() == 0 {
        chosen(None)
    } else {
        match parsed_naive(line, input_format()) {
            None => refused(data, invalid_datetime_message(line), next, reply),
            Some(local) => {
                ||| refused(data, ambiguous_datetime_message(line), next, reply)
                ||| refused(data, invalid_datetime_message(line), next, reply)
                ||| exists|i: Instant| reads_locally_as(i, local) && #[trigger] chosen(Some(i))
            },
        }
    }
}

/// What the due date of a new to-do item does.
pub open spec fn new_todo_due_step(
    data: TodoData,
    description: Description,
    group: Option<GroupRef>,
    line: Seq<char>,
    next: Session,
    reply: Reply,
) -> bool {
    due_step(
        data,
        line,
        next,
        reply,
        |due: Option<Instant>| {
            &&& same_data(next.data, data)
            &&& next.stage == (Stage::NewTodoUrgency { description, group, due })
            &&& says(reply, asked_among("Urgency"@, options_listing(display_views(urgency_choices()))))
        },
    )
}

/// What the urgency of a new to-do item does: the item is added, in progress.
pub open spec fn new_todo_urgency_step(
    data: TodoData,
    description: Description,
    group: Option<GroupRef>,
    due: Option<Instant>,
    line: Seq<char>,
    next: Session,
    reply: Reply,
) -> bool {
    match choice_result(urgency_choices(), line) {
        Err(m) => refused(data, m, next, reply),
        Ok(k) => {
            let t = next.data.todos@.last();
            &&& next.data.groups@ == data.groups@
            &&& next.data.todos@ == data.todos@.push(t)
            &&& t.description == description
            &&& t.group == group
            &&& t.due == due
            &&& t.urgency == urgency_choices()[k]
            &&& t.progress == Progress::InProgress
            &&& next.stage is Command
            &&& says_and_saves(reply, "\nDone! Created todo item: "@ + todo_text(t, data.group_at(group)) + "\n"@)
        },
    }
}

impl Session {
    /// Answers a line at this stage, as [`new_todo_description_step`] says.
    fn on_new_todo_description(&mut self, line: &str) -> (r: Reply)
        requires
            old(self).data.wf(),
        ensures
            new_todo_description_step(old(self).data, line@, *final(self), r),
            final(self).data.wf(),
            stage_fits(final(self).data, final(self).stage),
    {
        let description = match choice_made(&typed_description, line) {
            Err(e) => {
                self.stage = Stage::Command;
                return Reply::refuse(e.message);
            },
            Ok(d) => d,
        };
        let listing = self.data.groups_as_string();
        self.stage = Stage::NewTodoGroup { description };
        Reply::say(ask_optional_among("Group", listing.as_str()))
    }

    /// Answers a line at this stage, as [`new_todo_group_step`] says.
    fn on_new_todo_group(&mut self, description: Description, line: &str) -> (r: Reply)
        requires
            old(self).data.wf(),
        ensures
            new_todo_group_step(old(self).data, description, line@, *final(self), r),
            final(self).data.wf(),
            stage_fits(final(self).data, final(self).stage),
    {
        match opt_choice_index(self.data.groups.as_mut_slice(), line) {
            Err(e) => {
                self.stage = Stage::Command;
                Reply::refuse(e.message)
            },
            Ok(choice) => {
                let group = match choice {
                    Some(k) => Some(GroupRef(k)),
                    None => None,
                };
                self.stage = Stage::NewTodoDue { description, group };
                Reply::say(ask_optional("Due date and time (format YYYY-MM-DD HH:MM:SS)"))
            },
        }
    }

    /// Answers a line at this stage, as [`new_todo_due_step`] says.
    fn on_new_todo_due(&mut self, description: Description, group: Option<GroupRef>, line: &str) -> (r: Reply)
        requires
            old(self).data.wf(),
            group matches Some(g) ==> g.0 < old(self).data.groups@.len(),
        ensures
            new_todo_due_step(old(self).data, description, group, line@, *final(self), r),
            final(self).data.wf(),
            stage_fits(final(self).data, final(self).stage),
    {
        let due = match opt_choice_made(&Instant::from_input, line) {
            Err(e) => {
                self.stage = Stage::Command;
                return Reply::refuse(e.message);
            },
            Ok(due) => due,
        };
        let urgencies = sorted_urgencies();
        let listing = options_as_string(urgencies.as_slice());
        self.stage = Stage::NewTodoUrgency { description, group, due };
        let r = Reply::say(ask_among("Urgency", listing.as_str()));
        proof {
            let chosen = |d: Option<Instant>| {
                &&& same_data(self.data, old(self).data)
                &&& self.stage == (Stage::NewTodoUrgency { description, group, due: d })
                &&& says(r, asked_among("Urgency"@, options_listing(display_views(urgency_choices()))))
            };
            assert(chosen(due));
        }
        r
    }

    /// Answers a line at this stage, as [`new_todo_urgency_step`] says.
    fn on_new_todo_urgency(
        &mut self,
        description: Description,
        group: Option<GroupRef>,
        due: Option<Instant>,
        line: &str,
    ) -> (r: Reply)
        requires
            old(self).data.wf(),
            group matches Some(g) ==> g.0 < old(self).data.groups@.len(),
        ensures
            new_todo_urgency_step(old(self).data, description, group, due, line@, *final(self), r),
            final(self).data.wf(),
            stage_fits(final(self).data, final(self).stage),
    {
        let mut urgencies = sorted_urgencies();
        match get_choice_index(urgencies.as_mut_slice(), line) {
            Err(e) => {
                self.stage = Stage::Command;
                Reply::refuse(e.message)
            },
            Ok(k) => {
                proof {
                    crate::util::law_choice_is_an_option(urgency_choices(), line@);
                }
                let t = TodoItem::from(description, group, due, urgencies[k]);
                let text = t.display_with(self.data.group_of(t.group));
                self.data.add_todo(t);
                assert(self.data.todos@.last() == t);
                self.stage = Stage::Command;
                Reply::say_and_save(String::from_str("\nDone! Created todo item: ").concat(text.as_str()).concat("\n"))
            },
        }
    }
}

/// The choices offered to edit the to-do item at `i`, as listed: its
/// properties in order, each with its present value.
pub open spec fn todo_choices_of(data: TodoData, i: int, choices: Seq<ChoiceInfoPair<String>>) -> bool {
    let t = data.todos@[i];
    exists|c: Seq<ChoiceInfoPair<String>>| {
        &&& c.len() == 5
        &&& #[trigger] c[0].0@ == "desc"@
        &&& c[0].1@ == currently("Description"@, t.description.display_view())
        &&& c[1].0@ == "group"@
        &&& c[1].1@ == currently("Group"@, or_unassigned(match data.group_at(t.group) {
            Some(g) => Some(g.display_view()),
            None => None,
        }))
        &&& c[2].0@ == "due"@
        &&& c[2].1@ == currently("Due date"@, or_unassigned(match t.due {
            Some(d) => Some(d.display_view()),
            None => None,
        }))
        &&& c[3].0@ == "urg"@
        &&& c[3].1@ == currently("Urgency"@, t.urgency.display_view())
        &&& c[4].0@ == "prog"@
        &&& c[4].1@ == currently("Progress"@, t.progress.display_view())
        &&& choices == sorted_ranked(c)
    }
}

/// The stage refers only to groups and to-do items that the list has, and a
/// property choice offers only the properties it knows.
pub open spec fn stage_fits(data: TodoData, stage: Stage) -> bool {
    match stage {
        Stage::GroupProperty { group, choices } => group < data.groups@.len() && group_choice_words(choices@),
        Stage::GroupName { group } => group < data.groups@.len(),
        Stage::GroupColor { group } => group < data.groups@.len(),
        Stage::NewTodoDue { group, .. } => group matches Some(g) ==> g.0 < data.groups@.len(),
        Stage::NewTodoUrgency { group, .. } => group matches Some(g) ==> g.0 < data.groups@.len(),
        Stage::TodoProperty { todo, choices } => todo < data.todos@.len() && todo_choice_words(choices@),
        Stage::TodoDescription { todo } => todo < data.todos@.len(),
        Stage::TodoGroup { todo } => todo < data.todos@.len(),
        Stage::TodoDue { todo } => todo < data.todos@.len(),
        Stage::TodoUrgency { todo } => todo < data.todos@.len(),
        Stage::TodoProgress { todo } => todo < data.todos@.len(),
        _ => true,
    }
}

/// The choices for a to-do item's property name only `desc`, `group`, `due`,
/// `urg` and `prog`.
pub open spec fn todo_choice_words(choices: Seq<ChoiceInfoPair<String>>) -> bool {
    forall|k: int| 0 <= k < choices.len() ==> {
        let w = #[trigger] choices[k].0@;
        w == "desc"@ || w == "group"@ || w == "due"@ || w == "urg"@ || w == "prog"@
    }
}

/// What the choice of a to-do item to edit does.
pub open spec fn todo_to_edit_step(data: TodoData, line: Seq<char>, next: Session, reply: Reply) -> bool {
    match choice_result(data.todos@, line) {
        Err(m) => refused(data, m, next, reply),
        Ok(k) => {
            &&& same_data(next.data, data)
            &&& next.stage matches Stage::TodoProperty { todo, choices } && todo == k
                && todo_choices_of(data, k, choices@) && todo_choice_words(choices@)
                && says(reply, asked_among("Property to change"@, options_listing(display_views(choices@))))
        },
    }
}

/// What the choice of a property of the to-do item at `todo` does.
pub open spec fn todo_property_step(
    data: TodoData,
    todo: usize,
    choices: Seq<ChoiceInfoPair<String>>,
    line: Seq<char>,
    next: Session,
    reply: Reply,
) -> bool {
    match choice_result(choices, line) {
        Err(m) => refused(data, m, next, reply),
        Ok(k) => {
            let w = choices[k].0@;
            if w == "desc"@ {
                &&& same_data(next.data, data)
                &&& next.stage == (Stage::TodoDescription { todo })
                &&& says(reply, asked("New description"@))
            } else if w == "group"@ {
                &&& is_group_sort_of(next.data, data)
                &&& next.stage == (Stage::TodoGroup { todo })
                &&& says(reply, asked_optional_among("New group"@, options_listing(display_views(next.data.groups@))))
            } else if w == "due"@ {
                &&& same_data(next.data, data)
                &&& next.stage == (Stage::TodoDue { todo })
                &&& says(reply, asked_optional(new_due_prompt()))
            } else if w == "urg"@ {
                &&& same_data(next.data, data)
                &&& next.stage == (Stage::TodoUrgency { todo })
                &&& says(reply, asked_among("New urgency"@, options_listing(display_views(urgency_choices()))))
            } else {
                &&& same_data(next.data, data)
                &&& next.stage == (Stage::TodoProgress { todo })
                &&& says(reply, asked_among("New progress"@, options_listing(display_views(progress_choices()))))
            }
        },
    }
}

/// The to-do item at `todo` is replaced by `changed`, which is shown, and the
/// list is stored.
pub open spec fn edited(data: TodoData, todo: usize, changed: TodoItem, next: Session, reply: Reply) -> bool {
    &&& next.data.groups@ == data.groups@
    &&& next.data.todos@ == data.todos@.update(todo as int, changed)
    &&& next.stage is Command
    &&& says_and_saves(reply, "\nDone! Edited todo item: "@ + todo_text(changed, data.group_at(changed.group)) + "\n"@)
}

/// What the new description of the to-do item at `todo` does.
pub open spec fn todo_description_step(data: TodoData, todo: usize, line: Seq<char>, next: Session, reply: Reply) -> bool {
    if line.len() == 0 {
        refused(data, empty_choice_message(), next, reply)
    } else {
        let changed = next.data.todos@[todo as int];
        &&& changed.description.0@ == line
        &&& changed == (TodoItem { description: changed.description, ..data.todos@[todo as int] })
        &&& edited(data, todo, changed, next, reply)
    }
}

/// What the new group of the to-do item at `todo` does.
pub open spec fn todo_group_step(data: TodoData, todo: usize, line: Seq<char>, next: Session, reply: Reply) -> bool {
    let set_to = |group: Option<GroupRef>| edited(data, todo, TodoItem { group, ..data.todos@[todo as int] }, next, reply);
    if line.len() == 0 {
        set_to(None)
    } else {
        match choice_result(data.groups@, line) {
            Err(m) => refused(data, m, next, reply),
            Ok(k) => set_to(Some(GroupRef(k as usize))),
        }
    }
}

/// What the new due date of the to-do item at `todo` does.
pub open spec fn todo_due_step(data: TodoData, todo: usize, line: Seq<char>, next: Session, reply: Reply) -> bool {
    due_step(
        data,
        line,
        next,
        reply,
        |due: Option<Instant>| edited(data, todo, TodoItem { due, ..data.todos@[todo as int] }, next, reply),
    )
}

/// What the new urgency of the to-do item at `todo` does.
pub open spec fn todo_urgency_step(data: TodoData, todo: usize, line: Seq<char>, next: Session, reply: Reply) -> bool {
    match choice_result(urgency_choices(), line) {
        Err(m) => refused(data, m, next, reply),
        Ok(k) => edited(data, todo, TodoItem { urgency: urgency_choices()[k], ..data.todos@[todo as int] }, next, reply),
    }
}

/// What the new progress of the to-do item at `todo` does.
pub open spec fn todo_progress_step(data: TodoData, todo: usize, line: Seq<char>, next: Session, reply: Reply) -> bool {
    match choice_result(progress_choices(), line) {
        Err(m) => refused(data, m, next, reply),
        Ok(k) => edited(data, todo, TodoItem { progress: progress_choices()[k], ..data.todos@[todo as int] }, next, reply),
    }
}


/// Puts `t` in place of the to-do item at `i`.
fn replace_todo(data: &mut TodoData, i: usize, t: TodoItem)
    requires
        old(data).wf(),
        i < old(data).todos@.len(),
        t.group matches Some(g) ==> g.0 < old(data).groups@.len(),
    ensures
        final(data).groups@ == old(data).groups@,
        final(data).todos@ == old(data).todos@.update(i as int, t),
        final(data).wf(),
{
    data.todos.set(i, t);
    assert forall|j: int| 0 <= j < data.todos@.len() implies ((#[trigger] data.todos@[j]).group matches Some(r)
        ==> r.0 < data.groups@.len()) by {
        if j != i {
            assert(data.todos@[j] == old(data).todos@[j]);
        }
    }
}

impl Session {
    /// Answers a line at this stage, as [`todo_to_edit_step`] says.
    fn on_todo_to_edit(&mut self, line: &str) -> (r: Reply)
        requires
            old(self).data.wf(),
        ensures
            todo_to_edit_step(old(self).data, line@, *final(self), r),
            final(self).data.wf(),
            stage_fits(final(self).data, final(self).stage),
    {
        match get_choice_index(self.data.todos.as_mut_slice(), line) {
            Err(e) => {
                self.stage = Stage::Command;
                Reply::refuse(e.message)
            },
            Ok(k) => {
                proof {
                    crate::util::law_choice_is_an_option(self.data.todos@, line@);
                }
                let mut choices = self.data.todo_edit_choices(k);
                let ghost unsorted = choices@;
                let listing = sorted_options_as_string(choices.as_mut_slice());
                assert(todo_choices_of(self.data, k as int, choices@)) by {
                    assert(unsorted[0].0@ == "desc"@);
                }
                proof {
                    law_sorted_elements_are_elements(unsorted);
                    assert forall|j: int| 0 <= j < choices@.len() implies {
                        let w = #[trigger] choices@[j].0@;
                        w == "desc"@ || w == "group"@ || w == "due"@ || w == "urg"@ || w == "prog"@
                    } by {
                        assert(unsorted.contains(choices@[j]));
                        let m = choose|m: int| 0 <= m < unsorted.len() && unsorted[m] == choices@[j];
                        assert(0 <= m < 5);
                    }
                }
                assert(same_data(self.data, old(self).data));
                self.stage = Stage::TodoProperty { todo: k, choices };
                Reply::say(ask_among("Property to change", listing.as_str()))
            },
        }
    }

    /// Answers a line at this stage, as [`todo_property_step`] says.
    fn on_todo_property(&mut self, todo: usize, choices: Vec<ChoiceInfoPair<String>>, line: &str) -> (r: Reply)
        requires
            old(self).data.wf(),
            todo < old(self).data.todos@.len(),
            todo_choice_words(choices@),
        ensures
            todo_property_step(old(self).data, todo, choices@, line@, *final(self), r),
            final(self).data.wf(),
            stage_fits(final(self).data, final(self).stage),
    {
        let mut choices = choices;
        let ghost before = choices@;
        match get_choice_index(choices.as_mut_slice(), line) {
            Err(e) => {
                self.stage = Stage::Command;
                Reply::refuse(e.message)
            },
            Ok(k) => {
                proof {
                    crate::util::law_choice_is_an_option(before, line@);
                }
                let w = choices[k].0.as_str();
                if str_eq(w, "desc") {
                    self.stage = Stage::TodoDescription { todo };
                    Reply::say(ask("New description"))
                } else if str_eq(w, "group") {
                    let listing = self.data.groups_as_string();
                    self.stage = Stage::TodoGroup { todo };
                    Reply::say(ask_optional_among("New group", listing.as_str()))
                } else if str_eq(w, "due") {
                    self.stage = Stage::TodoDue { todo };
                    Reply::say(ask_optional("New due date and time (format YYYY-MM-DD HH:MM:SS)"))
                } else if str_eq(w, "urg") {
                    let urgencies = sorted_urgencies();
                    let listing = options_as_string(urgencies.as_slice());
                    self.stage = Stage::TodoUrgency { todo };
                    Reply::say(ask_among("New urgency", listing.as_str()))
                } else {
                    let progresses = sorted_progresses();
                    let listing = options_as_string(progresses.as_slice());
                    self.stage = Stage::TodoProgress { todo };
                    Reply::say(ask_among("New progress", listing.as_str()))
                }
            },
        }
    }

    /// Replaces the to-do item at `todo` by `changed` and reports it.
    fn finish_edit(&mut self, todo: usize, changed: TodoItem) -> (r: Reply)
        requires
            old(self).data.wf(),
            todo < old(self).data.todos@.len(),
            changed.group matches Some(g) ==> g.0 < old(self).data.groups@.len(),
        ensures
            edited(old(self).data, todo, changed, *final(self), r),
            final(self).data.wf(),
    {
        let text = changed.display_with(self.data.group_of(changed.group));
        replace_todo(&mut self.data, todo, changed);
        self.stage = Stage::Command;
        Reply::say_and_save(String::from_str("\nDone! Edited todo item: ").concat(text.as_str()).concat("\n"))
    }

    /// Answers a line at this stage, as [`todo_description_step`] says.
    fn on_todo_description(&mut self, todo: usize, line: &str) -> (r: Reply)
        requires
            old(self).data.wf(),
            todo < old(self).data.todos@.len(),
        ensures
            todo_description_step(old(self).data, todo, line@, *final(self), r),
            final(self).data.wf(),
            stage_fits(final(self).data, final(self).stage),
    {
        let description = match choice_made(&typed_description, line) {
            Err(e) => {
                self.stage = Stage::Command;
                return Reply::refuse(e.message);
            },
            Ok(d) => d,
        };
        let t = copy_todo(&self.data.todos[todo]);
        let changed = TodoItem { description, ..t };
        self.finish_edit(todo, changed)
    }

    /// Answers a line at this stage, as [`todo_group_step`] says.
    fn on_todo_group(&mut self, todo: usize, line: &str) -> (r: Reply)
        requires
            old(self).data.wf(),
            todo < old(self).data.todos@.len(),
        ensures
            todo_group_step(old(self).data, todo, line@, *final(self), r),
            final(self).data.wf(),
            stage_fits(final(self).data, final(self).stage),
    {
        match opt_choice_index(self.data.groups.as_mut_slice(), line) {
            Err(e) => {
                self.stage = Stage::Command;
                Reply::refuse(e.message)
            },
            Ok(choice) => {
                proof {
                    crate::util::law_choice_is_an_option(self.data.groups@, line@);
                }
                let group = match choice {
                    Some(k) => Some(GroupRef(k)),
                    None => None,
                };
                let t = copy_todo(&self.data.todos[todo]);
                self.finish_edit(todo, TodoItem { group, ..t })
            },
        }
    }

    /// Answers a line at this stage, as [`todo_due_step`] says.
    fn on_todo_due(&mut self, todo: usize, line: &str) -> (r: Reply)
        requires
            old(self).data.wf(),
            todo < old(self).data.todos@.len(),
        ensures
            todo_due_step(old(self).data, todo, line@, *final(self), r),
            final(self).data.wf(),
            stage_fits(final(self).data, final(self).stage),
    {
        let due = match opt_choice_made(&Instant::from_input, line) {
            Err(e) => {
                self.stage = Stage::Command;
                return Reply::refuse(e.message);
            },
            Ok(due) => due,
        };
        let t = copy_todo(&self.data.todos[todo]);
        let ghost data = self.data;
        let r = self.finish_edit(todo, TodoItem { due, ..t });
        proof {
            let chosen = |d: Option<Instant>| edited(data, todo, TodoItem { due: d, ..data.todos@[todo as int] }, *self, r);
            assert(chosen(due));
        }
        r
    }

    /// Answers a line at this stage, as [`todo_urgency_step`] says.
    fn on_todo_urgency(&mut self, todo: usize, line: &str) -> (r: Reply)
        requires
            old(self).data.wf(),
            todo < old(self).data.todos@.len(),
        ensures
            todo_urgency_step(old(self).data, todo, line@, *final(self), r),
            final(self).data.wf(),
            stage_fits(final(self).data, final(self).stage),
    {
        let mut urgencies = sorted_urgencies();
        match get_choice_index(urgencies.as_mut_slice(), line) {
            Err(e) => {
                self.stage = Stage::Command;
                Reply::refuse(e.message)
            },
            Ok(k) => {
                proof {
                    crate::util::law_choice_is_an_option(urgency_choices(), line@);
                }
                let t = copy_todo(&self.data.todos[todo]);
                self.finish_edit(todo, TodoItem { urgency: urgencies[k], ..t })
            },
        }
    }

    /// Answers a line at this stage, as [`todo_progress_step`] says.
    fn on_todo_progress(&mut self, todo: usize, line: &str) -> (r: Reply)
        requires
            old(self).data.wf(),
            todo < old(self).data.todos@.len(),
        ensures
            todo_progress_step(old(self).data, todo, line@, *final(self), r),
            final(self).data.wf(),
            stage_fits(final(self).data, final(self).stage),
    {
        let mut progresses = sorted_progresses();
        match get_choice_index(progresses.as_mut_slice(), line) {
            Err(e) => {
                self.stage = Stage::Command;
                Reply::refuse(e.message)
            },
            Ok(k) => {
                proof {
                    crate::util::law_choice_is_an_option(progress_choices(), line@);
                }
                let t = copy_todo(&self.data.todos[todo]);
                self.finish_edit(todo, TodoItem { progress: progresses[k], ..t })
            },
        }
    }
}


/// What a line does at the stage the session is at.
pub open spec fn stepped(before: Session, line: Seq<char>, next: Session, reply: Reply) -> bool {
    let data = before.data;
    match before.stage {
        Stage::Command => command_step(data, line, next, reply),
        Stage::NewGroupName => new_group_name_step(data, line, next, reply),
        Stage::NewGroupColor { name } => new_group_color_step(data, name, line, next, reply),
        Stage::GroupToEdit => group_to_edit_step(data, line, next, reply),
        Stage::GroupProperty { group, choices } => group_property_step(data, group, choices@, line, next, reply),
        Stage::GroupName { group } => group_name_step(data, group, line, next, reply),
        Stage::GroupColor { group } => group_color_step(data, group, line, next, reply),
        Stage::NewTodoDescription => new_todo_description_step(data, line, next, reply),
        Stage::NewTodoGroup { description } => new_todo_group_step(data, description, line, next, reply),
        Stage::NewTodoDue { description, group } => new_todo_due_step(data, description, group, line, next, reply),
        Stage::NewTodoUrgency { description, group, due } => new_todo_urgency_step(
            data,
            description,
            group,
            due,
            line,
            next,
            reply,
        ),
        Stage::TodoToEdit => todo_to_edit_step(data, line, next, reply),
        Stage::TodoProperty { todo, choices } => todo_property_step(data, todo, choices@, line, next, reply),
        Stage::TodoDescription { todo } => todo_description_step(data, todo, line, next, reply),
        Stage::TodoGroup { todo } => todo_group_step(data, todo, line, next, reply),
        Stage::TodoDue { todo } => todo_due_step(data, todo, line, next, reply),
        Stage::TodoUrgency { todo } => todo_urgency_step(data, todo, line, next, reply),
        Stage::TodoProgress { todo } => todo_progress_step(data, todo, line, next, reply),
    }
}

impl Session {
    /// The list is well formed and the stage fits it.
    pub open spec fn wf(&self) -> bool {
        self.data.wf() && stage_fits(self.data, self.stage)
    }

    /// A session on the list `data`, waiting for a command.
    pub fn new(data: TodoData) -> (s: Session)
        requires
            data.wf(),
        ensures
            s.wf(),
            s.data == data,
            s.stage is Command,
    {
        Session { data, stage: Stage::Command }
    }

    /// Takes the line the user typed (trimmed) and answers it, as [`stepped`]
    /// says for the stage the session is at.
    pub fn step(&mut self, line: &str) -> (r: Reply)
        requires
            old(self).wf(),
        ensures
            final(self).wf(),
            stepped(*old(self), line@, *final(self), r),
    {
        let mut stage = Stage::Command;
        std::mem::swap(&mut stage, &mut self.stage);
        match stage {
            Stage::Command => self.on_command(line),
            Stage::NewGroupName => self.on_new_group_name(line),
            Stage::NewGroupColor { name } => self.on_new_group_color(name, line),
            Stage::GroupToEdit => self.on_group_to_edit(line),
            Stage::GroupProperty { group, choices } => self.on_group_property(group, choices, line),
            Stage::GroupName { group } => self.on_group_name(group, line),
            Stage::GroupColor { group } => self.on_group_color(group, line),
            Stage::NewTodoDescription => self.on_new_todo_description(line),
            Stage::NewTodoGroup { description } => self.on_new_todo_group(description, line),
            Stage::NewTodoDue { description, group } => self.on_new_todo_due(description, group, line),
            Stage::NewTodoUrgency { description, group, due } => self.on_new_todo_urgency(description, group, due, line),
            Stage::TodoToEdit => self.on_todo_to_edit(line),
            Stage::TodoProperty { todo, choices } => self.on_todo_property(todo, choices, line),
            Stage::TodoDescription { todo } => self.on_todo_description(todo, line),
            Stage::TodoGroup { todo } => self.on_todo_group(todo, line),
            Stage::TodoDue { todo } => self.on_todo_due(todo, line),
            Stage::TodoUrgency { todo } => self.on_todo_urgency(todo, line),
            Stage::TodoProgress { todo } => self.on_todo_progress(todo, line),
        }
    }
}


/// A refused line leaves the list as it was, stores nothing and brings the
/// session back to waiting for a command, whatever it waited for.
pub proof fn law_refused_line_changes_nothing(before: Session, line: Seq<char>, next: Session, reply: Reply)
    requires
        before.wf(),
        stepped(before, line, next, reply),
        reply.error is Some,
    ensures
        same_data(next.data, before.data),
        next.stage is Command,
        !reply.save,
        !reply.quit,
{
}

/// Nothing is ever removed from the list: a line adds one group when it
/// completes a new group, one to-do item when it completes a new to-do item,
/// and otherwise keeps the numbers of groups and of to-do items.
pub proof fn law_nothing_is_removed(before: Session, line: Seq<char>, next: Session, reply: Reply)
    requires
        before.wf(),
        stepped(before, line, next, reply),
    ensures
        next.data.groups@.len() == before.data.groups@.len() + (if before.stage is NewGroupColor
            && reply.error is None { 1int } else { 0int }),
        next.data.todos@.len() == before.data.todos@.len() + (if before.stage is NewTodoUrgency
            && reply.error is None { 1int } else { 0int }),
{
    lemma_sorted_ranked(before.data.groups@);
    lemma_sorted_ranked(before.data.todos@);
}

/// Only the quit command ends the session.
pub proof fn law_only_quit_ends(before: Session, line: Seq<char>, next: Session, reply: Reply)
    requires
        before.wf(),
        stepped(before, line, next, reply),
    ensures
        reply.quit <==> (before.stage is Command && parsed_command_line(line) == Ok::<Command, Seq<char>>(
            Command::Quit,
        )),
{
}

/// The list is stored exactly after a line that completes a change: a new
/// group or to-do item, or a new value of a property.
pub proof fn law_saved_after_each_change(before: Session, line: Seq<char>, next: Session, reply: Reply)
    requires
        before.wf(),
        stepped(before, line, next, reply),
    ensures
        reply.save <==> (reply.error is None && (before.stage is NewGroupColor || before.stage is GroupName
            || before.stage is GroupColor || before.stage is NewTodoUrgency || before.stage is TodoDescription
            || before.stage is TodoGroup || before.stage is TodoDue || before.stage is TodoUrgency
            || before.stage is TodoProgress)),
{
}

} // verus!
