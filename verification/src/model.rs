//! The to-do list's data: descriptions, colours, groups, urgency, progress,
//! to-do items and the whole list.
use vstd::prelude::*;

use std::cmp::Ordering;

use crate::instant::{instant_le, now, Instant};
use crate::sorting::{
    insert_ranked, lemma_sorted_ranked, ordering_from, ordering_of, sort_ranked, sorted_ranked, Ranked,
};
use crate::style::{colour_index, index_le, index_le_exec, paint, painted, TermColour};
use crate::text::{
    ascii_lower_char, chars_le, is_ascii_text, is_digit, lemma_chars_le_total,
    lemma_chars_le_transitive, lowercase, parsed_usize, str_le, unsigned_digits,
};
use crate::util::{
    choice_result, display_views, is_first_named, lemma_first_named_unique, listing, names_option,
    options_as_string, options_listing, string_views, Displayed,
};
use crate::UserInputtable;

verus! {

/// What a to-do item is about.
#[derive(PartialEq, Eq, PartialOrd, Ord, Clone, Debug)]
pub struct Description(pub String);

impl Ranked for Description {
    /// Descriptions are ordered as their strings are.
    open spec fn rank_le(self, other: Self) -> bool {
        chars_le(self.0@, other.0@)
    }

    proof fn lemma_rank_total(a: Self, b: Self) {
        lemma_chars_le_total(a.0@, b.0@);
    }

    proof fn lemma_rank_transitive(a: Self, b: Self, c: Self) {
        lemma_chars_le_transitive(a.0@, b.0@, c.0@);
    }

    fn ranks_le(&self, other: &Self) -> (r: bool) {
        str_le(self.0.as_str(), other.0.as_str())
    }
}

impl Displayed for Description {
    /// The description in bold white.
    open spec fn display_view(&self) -> Seq<char> {
        painted(TermColour::White, true, false, self.0@)
    }

    fn display_string(&self) -> (s: String) {
        paint(TermColour::White, true, false, self.0.as_str())
    }
}

/// The colour of a group.
#[derive(PartialEq, Eq, Structural, Clone, Copy, Debug)]
pub struct Color(pub TermColour);

/// The colours that a group can be given: the sixteen named colours in
/// palette order and the terminal's default colour.
pub open spec fn color_variants() -> Seq<Color> {
    seq![
        Color(TermColour::Black),
        Color(TermColour::Red),
        Color(TermColour::Green),
        Color(TermColour::Yellow),
        Color(TermColour::Blue),
        Color(TermColour::Purple),
        Color(TermColour::Cyan),
        Color(TermColour::White),
        Color(TermColour::DarkGray),
        Color(TermColour::BrightRed),
        Color(TermColour::BrightGreen),
        Color(TermColour::BrightYellow),
        Color(TermColour::BrightBlue),
        Color(TermColour::BrightPurple),
        Color(TermColour::BrightCyan),
        Color(TermColour::BrightGray),
        Color(TermColour::Default),
    ]
}

impl Color {
    /// The colours that a group can be given: the sixteen named colours and the
    /// terminal's default colour.
    pub fn variants() -> (v: [Color; 17])
        ensures
            v@ == color_variants(),
    {
        let v = [
            Color(TermColour::Black),
            Color(TermColour::Red),
            Color(TermColour::Green),
            Color(TermColour::Yellow),
            Color(TermColour::Blue),
            Color(TermColour::Purple),
            Color(TermColour::Cyan),
            Color(TermColour::White),
            Color(TermColour::DarkGray),
            Color(TermColour::BrightRed),
            Color(TermColour::BrightGreen),
            Color(TermColour::BrightYellow),
            Color(TermColour::BrightBlue),
            Color(TermColour::BrightPurple),
            Color(TermColour::BrightCyan),
            Color(TermColour::BrightGray),
            Color(TermColour::Default),
        ];
        assert(v@ =~= color_variants());
        v
    }
}

/// The name by which the user chooses a colour; colours other than the named
/// ones are all called `default`.
pub open spec fn color_name(c: Color) -> Seq<char> {
    match c.0 {
        TermColour::Black => "black"@,
        TermColour::Red => "red"@,
        TermColour::Green => "green"@,
        TermColour::Yellow => "yellow"@,
        TermColour::Blue => "blue"@,
        TermColour::Purple => "purple"@,
        TermColour::Cyan => "cyan"@,
        TermColour::White => "white"@,
        TermColour::DarkGray => "dark-gray"@,
        TermColour::BrightRed => "bright-red"@,
        TermColour::BrightGreen => "bright-green"@,
        TermColour::BrightYellow => "bright-yellow"@,
        TermColour::BrightBlue => "bright-blue"@,
        TermColour::BrightPurple => "bright-purple"@,
        TermColour::BrightCyan => "bright-cyan"@,
        TermColour::BrightGray => "bright-gray"@,
        _ => "default"@,
    }
}

impl UserInputtable for Color {
    open spec fn inputtable_view(&self) -> Seq<char> {
        color_name(*self)
    }

    fn inputtable_string(&self) -> (s: String) {
        let name = match self.0 {
            TermColour::Black => "black",
            TermColour::Red => "red",
            TermColour::Green => "green",
            TermColour::Yellow => "yellow",
            TermColour::Blue => "blue",
            TermColour::Purple => "purple",
            TermColour::Cyan => "cyan",
            TermColour::White => "white",
            TermColour::DarkGray => "dark-gray",
            TermColour::BrightRed => "bright-red",
            TermColour::BrightGreen => "bright-green",
            TermColour::BrightYellow => "bright-yellow",
            TermColour::BrightBlue => "bright-blue",
            TermColour::BrightPurple => "bright-purple",
            TermColour::BrightCyan => "bright-cyan",
            TermColour::BrightGray => "bright-gray",
            _ => "default",
        };
        String::from_str(name)
    }
}

impl Displayed for Color {
    /// The colour's name, painted in the colour.
    open spec fn display_view(&self) -> Seq<char> {
        painted(self.0, false, false, color_name(*self))
    }

    fn display_string(&self) -> (s: String) {
        let name = self.inputtable_string();
        paint(self.0, false, false, name.as_str())
    }
}

impl Ranked for Color {
    /// Colours are ordered by their palette index (24-bit colours last).
    open spec fn rank_le(self, other: Self) -> bool {
        index_le(colour_index(self.0), colour_index(other.0))
    }

    proof fn lemma_rank_total(a: Self, b: Self) {
    }

    proof fn lemma_rank_transitive(a: Self, b: Self, c: Self) {
    }

    fn ranks_le(&self, other: &Self) -> (r: bool) {
        index_le_exec(self.0.into_index(), other.0.into_index())
    }
}

impl Color {
    /// Compares colours by their palette index, 24-bit colours after all
    /// palette colours.
    pub fn cmp(&self, other: &Self) -> (r: Ordering)
        ensures
            r == ordering_of(self.rank_le(*other), other.rank_le(*self)),
    {
        ordering_from(self.ranks_le(other), other.ranks_le(self))
    }

    /// The comparison of [`Color::cmp`], which relates every two colours.
    pub fn partial_cmp(&self, other: &Self) -> (r: Option<Ordering>)
        ensures
            r == Some(ordering_of(self.rank_le(*other), other.rank_le(*self))),
    {
        Some(self.cmp(other))
    }
}

/// A named, coloured group that to-do items can belong to.
#[derive(Clone, PartialEq, Debug)]
pub struct Group {
    pub name: String,
    pub color: Color,
}

impl Group {
    /// The group called `name` with the colour `color`.
    pub fn from(name: String, color: Color) -> (g: Group)
        ensures
            g.name == name,
            g.color == color,
    {
        Group { name, color }
    }

    /// Compares groups by name.
    pub fn cmp(&self, other: &Self) -> (r: Ordering)
        ensures
            r == ordering_of(self.rank_le(*other), other.rank_le(*self)),
    {
        ordering_from(self.ranks_le(other), other.ranks_le(self))
    }

    /// The comparison of [`Group::cmp`], which relates every two groups.
    pub fn partial_cmp(&self, other: &Self) -> (r: Option<Ordering>)
        ensures
            r == Some(ordering_of(self.rank_le(*other), other.rank_le(*self))),
    {
        Some(self.cmp(other))
    }
}

impl Ranked for Group {
    /// Groups are ordered by name.
    open spec fn rank_le(self, other: Self) -> bool {
        chars_le(self.name@, other.name@)
    }

    proof fn lemma_rank_total(a: Self, b: Self) {
        lemma_chars_le_total(a.name@, b.name@);
    }

    proof fn lemma_rank_transitive(a: Self, b: Self, c: Self) {
        lemma_chars_le_transitive(a.name@, b.name@, c.name@);
    }

    fn ranks_le(&self, other: &Self) -> (r: bool) {
        str_le(self.name.as_str(), other.name.as_str())
    }
}

impl Displayed for Group {
    /// The group's name, painted in its colour.
    open spec fn display_view(&self) -> Seq<char> {
        painted(self.color.0, false, false, self.name@)
    }

    fn display_string(&self) -> (s: String) {
        paint(self.color.0, false, false, self.name.as_str())
    }
}

impl UserInputtable for Group {
    /// A group is chosen by its name.
    open spec fn inputtable_view(&self) -> Seq<char> {
        self.name@
    }

    fn inputtable_string(&self) -> (s: String) {
        self.name.clone()
    }
}

/// How soon a to-do item should be done, most urgent first.
#[derive(Clone, Copy, PartialEq, Eq, Structural, Debug)]
pub enum Urgency {
    High,
    Medium,
    Low,
    LongTerm,
}

/// The position of an urgency in its order.
pub open spec fn urgency_rank(u: Urgency) -> nat {
    match u {
        Urgency::High => 0,
        Urgency::Medium => 1,
        Urgency::Low => 2,
        Urgency::LongTerm => 3,
    }
}

/// The name by which the user chooses an urgency.
pub open spec fn urgency_name(u: Urgency) -> Seq<char> {
    match u {
        Urgency::High => "high"@,
        Urgency::Medium => "medium"@,
        Urgency::Low => "low"@,
        Urgency::LongTerm => "long-term"@,
    }
}

/// The colour an urgency is shown in.
pub open spec fn urgency_colour(u: Urgency) -> TermColour {
    match u {
        Urgency::High => TermColour::Red,
        Urgency::Medium => TermColour::Yellow,
        Urgency::Low => TermColour::Green,
        Urgency::LongTerm => TermColour::Blue,
    }
}

impl Urgency {
    /// The position of this urgency in its order.
    pub fn rank(&self) -> (r: u8)
        ensures
            r == urgency_rank(*self),
    {
        match self {
            Urgency::High => 0,
            Urgency::Medium => 1,
            Urgency::Low => 2,
            Urgency::LongTerm => 3,
        }
    }

    /// Every urgency, in order.
    pub fn all() -> (v: Vec<Urgency>)
        ensures
            v@ == seq![Urgency::High, Urgency::Medium, Urgency::Low, Urgency::LongTerm],
    {
        let v = vec![Urgency::High, Urgency::Medium, Urgency::Low, Urgency::LongTerm];
        assert(v@ =~= seq![Urgency::High, Urgency::Medium, Urgency::Low, Urgency::LongTerm]);
        v
    }

    /// Compares urgencies in their order, most urgent first.
    pub fn cmp(&self, other: &Self) -> (r: Ordering)
        ensures
            r == ordering_of(self.rank_le(*other), other.rank_le(*self)),
    {
        ordering_from(self.ranks_le(other), other.ranks_le(self))
    }
}

impl Ranked for Urgency {
    open spec fn rank_le(self, other: Self) -> bool {
        urgency_rank(self) <= urgency_rank(other)
    }

    proof fn lemma_rank_total(a: Self, b: Self) {
    }

    proof fn lemma_rank_transitive(a: Self, b: Self, c: Self) {
    }

    fn ranks_le(&self, other: &Self) -> (r: bool) {
        self.rank() <= other.rank()
    }
}

impl UserInputtable for Urgency {
    open spec fn inputtable_view(&self) -> Seq<char> {
        urgency_name(*self)
    }

    fn inputtable_string(&self) -> (s: String) {
        let name = match self {
            Urgency::High => "high",
            Urgency::Medium => "medium",
            Urgency::Low => "low",
            Urgency::LongTerm => "long-term",
        };
        String::from_str(name)
    }
}

impl Displayed for Urgency {
    /// The urgency's name in its colour: high red, medium yellow, low green,
    /// long-term blue.
    open spec fn display_view(&self) -> Seq<char> {
        painted(urgency_colour(*self), false, false, urgency_name(*self))
    }

    fn display_string(&self) -> (s: String) {
        let colour = match self {
            Urgency::High => TermColour::Red,
            Urgency::Medium => TermColour::Yellow,
            Urgency::Low => TermColour::Green,
            Urgency::LongTerm => TermColour::Blue,
        };
        let name = self.inputtable_string();
        paint(colour, false, false, name.as_str())
    }
}

/// Where a to-do item stands: in progress, then done, then abandoned.
#[derive(Clone, Copy, PartialEq, Eq, Structural, Debug)]
pub enum Progress {
    InProgress,
    Done,
    Abandoned,
}

/// The position of a progress in its order.
pub open spec fn progress_rank(p: Progress) -> nat {
    match p {
        Progress::InProgress => 0,
        Progress::Done => 1,
        Progress::Abandoned => 2,
    }
}

/// The name by which the user chooses a progress.
pub open spec fn progress_name(p: Progress) -> Seq<char> {
    match p {
        Progress::InProgress => "in progress"@,
        Progress::Done => "done"@,
        Progress::Abandoned => "abandoned"@,
    }
}

impl Progress {
    /// The position of this progress in its order.
    pub fn rank(&self) -> (r: u8)
        ensures
            r == progress_rank(*self),
    {
        match self {
            Progress::InProgress => 0,
            Progress::Done => 1,
            Progress::Abandoned => 2,
        }
    }

    /// Every progress, in order.
    pub fn all() -> (v: Vec<Progress>)
        ensures
            v@ == seq![Progress::InProgress, Progress::Done, Progress::Abandoned],
    {
        let v = vec![Progress::InProgress, Progress::Done, Progress::Abandoned];
        assert(v@ =~= seq![Progress::InProgress, Progress::Done, Progress::Abandoned]);
        v
    }

    /// Compares progresses in their order: in progress, done, abandoned.
    pub fn cmp(&self, other: &Self) -> (r: Ordering)
        ensures
            r == ordering_of(self.rank_le(*other), other.rank_le(*self)),
    {
        ordering_from(self.ranks_le(other), other.ranks_le(self))
    }
}

impl Ranked for Progress {
    open spec fn rank_le(self, other: Self) -> bool {
        progress_rank(self) <= progress_rank(other)
    }

    proof fn lemma_rank_total(a: Self, b: Self) {
    }

    proof fn lemma_rank_transitive(a: Self, b: Self, c: Self) {
    }

    fn ranks_le(&self, other: &Self) -> (r: bool) {
        self.rank() <= other.rank()
    }
}

impl UserInputtable for Progress {
    open spec fn inputtable_view(&self) -> Seq<char> {
        progress_name(*self)
    }

    fn inputtable_string(&self) -> (s: String) {
        let name = match self {
            Progress::InProgress => "in progress",
            Progress::Done => "done",
            Progress::Abandoned => "abandoned",
        };
        String::from_str(name)
    }
}

impl Displayed for Progress {
    /// The progress's name: in progress in bright blue, done in bright green,
    /// abandoned in dimmed red.
    open spec fn display_view(&self) -> Seq<char> {
        match *self {
            Progress::InProgress => painted(TermColour::BrightBlue, false, false, progress_name(*self)),
            Progress::Done => painted(TermColour::BrightGreen, false, false, progress_name(*self)),
            Progress::Abandoned => painted(TermColour::Red, false, true, progress_name(*self)),
        }
    }

    fn display_string(&self) -> (s: String) {
        let name = self.inputtable_string();
        match self {
            Progress::InProgress => paint(TermColour::BrightBlue, false, false, name.as_str()),
            Progress::Done => paint(TermColour::BrightGreen, false, false, name.as_str()),
            Progress::Abandoned => paint(TermColour::Red, false, true, name.as_str()),
        }
    }
}

/// The position of a group among the groups of a to-do list.
#[derive(Clone, Copy, PartialEq, Eq, Structural, Debug)]
pub struct GroupRef(pub usize);

/// The order of optional due dates: no due date first, then by time.
pub open spec fn due_le(a: Option<Instant>, b: Option<Instant>) -> bool {
    match (a, b) {
        (None, _) => true,
        (Some(_), None) => false,
        (Some(x), Some(y)) => instant_le(x, y),
    }
}

/// Whether due date `a` comes before or with `b`.
pub fn due_le_exec(a: &Option<Instant>, b: &Option<Instant>) -> (r: bool)
    ensures
        r == due_le(*a, *b),
{
    match (a, b) {
        (None, _) => true,
        (Some(_), None) => false,
        (Some(x), Some(y)) => x.is_no_later_than(y),
    }
}

/// A thing to do.
#[derive(Clone, Debug)]
pub struct TodoItem {
    pub description: Description,
    pub group: Option<GroupRef>,
    pub due: Option<Instant>,
    pub urgency: Urgency,
    pub progress: Progress,
    pub created: Instant,
}

/// The order of to-do items: by progress, then due date, then urgency, then
/// description.
pub open spec fn todo_le(a: TodoItem, b: TodoItem) -> bool {
    if progress_rank(a.progress) != progress_rank(b.progress) {
        progress_rank(a.progress) < progress_rank(b.progress)
    } else if !(due_le(a.due, b.due) && due_le(b.due, a.due)) {
        due_le(a.due, b.due)
    } else if urgency_rank(a.urgency) != urgency_rank(b.urgency) {
        urgency_rank(a.urgency) < urgency_rank(b.urgency)
    } else {
        chars_le(a.description.0@, b.description.0@)
    }
}

impl Ranked for TodoItem {
    open spec fn rank_le(self, other: Self) -> bool {
        todo_le(self, other)
    }

    proof fn lemma_rank_total(a: Self, b: Self) {
        lemma_chars_le_total(a.description.0@, b.description.0@);
    }

    proof fn lemma_rank_transitive(a: Self, b: Self, c: Self) {
        if chars_le(a.description.0@, b.description.0@) && chars_le(
            b.description.0@,
            c.description.0@,
        ) {
            lemma_chars_le_transitive(a.description.0@, b.description.0@, c.description.0@);
        }
    }

    fn ranks_le(&self, other: &Self) -> (r: bool) {
        let pa = self.progress.rank();
        let pb = other.progress.rank();
        if pa != pb {
            return pa < pb;
        }
        let ab = due_le_exec(&self.due, &other.due);
        let ba = due_le_exec(&other.due, &self.due);
        if !(ab && ba) {
            return ab;
        }
        let ua = self.urgency.rank();
        let ub = other.urgency.rank();
        if ua != ub {
            return ua < ub;
        }
        str_le(self.description.0.as_str(), other.description.0.as_str())
    }
}

impl UserInputtable for TodoItem {
    /// A to-do item is chosen by its description.
    open spec fn inputtable_view(&self) -> Seq<char> {
        self.description.0@
    }

    fn inputtable_string(&self) -> (s: String) {
        self.description.0.clone()
    }
}

/// The text that shows a to-do item whose group (if any) is `group`:
/// `[group] description due date (urgency urgency) is progress`, the group and
/// due parts only where there are a group and a due date.
pub open spec fn todo_text(t: TodoItem, group: Option<Group>) -> Seq<char> {
    let group_part = match group {
        Some(g) => "["@ + g.display_view() + "] "@,
        None => Seq::<char>::empty(),
    };
    let due_part = match t.due {
        Some(d) => " due "@ + d.display_view(),
        None => Seq::<char>::empty(),
    };
    group_part + t.description.display_view() + due_part + " ("@ + t.urgency.display_view()
        + " urgency) is "@ + t.progress.display_view()
}

impl TodoItem {
    /// A new to-do item, in progress, created now.
    pub fn from(description: Description, group: Option<GroupRef>, due: Option<Instant>, urgency: Urgency) -> (t: TodoItem)
        ensures
            t.description == description,
            t.group == group,
            t.due == due,
            t.urgency == urgency,
            t.progress == Progress::InProgress,
    {
        TodoItem { description, group, due, urgency, progress: Progress::InProgress, created: now() }
    }

    /// Compares to-do items by progress, then due date, then urgency, then
    /// description.
    pub fn cmp(&self, other: &Self) -> (r: Ordering)
        ensures
            r == ordering_of(todo_le(*self, *other), todo_le(*other, *self)),
    {
        ordering_from(self.ranks_le(other), other.ranks_le(self))
    }

    /// The comparison of [`TodoItem::cmp`], which relates every two items.
    pub fn partial_cmp(&self, other: &Self) -> (r: Option<Ordering>)
        ensures
            r == Some(ordering_of(todo_le(*self, *other), todo_le(*other, *self))),
    {
        Some(self.cmp(other))
    }

    /// The text that shows this item, with `group` its group if it has one.
    pub fn display_with(&self, group: Option<&Group>) -> (s: String)
        ensures
            s@ == todo_text(*self, match group { Some(g) => Some(*g), None => None }),
    {
        let mut s = String::new();
        match group {
            Some(g) => {
                s.append("[");
                s.append(g.display_string().as_str());
                s.append("] ");
            },
            None => {},
        }
        s.append(self.description.display_string().as_str());
        match &self.due {
            Some(d) => {
                s.append(" due ");
                s.append(d.display_string().as_str());
            },
            None => {},
        }
        s.append(" (");
        s.append(self.urgency.display_string().as_str());
        s.append(" urgency) is ");
        s.append(self.progress.display_string().as_str());
        proof {
            let gp = match group {
                Some(g) => "["@ + g.display_view() + "] "@,
                None => Seq::<char>::empty(),
            };
            let dp = match self.due {
                Some(d) => " due "@ + d.display_view(),
                None => Seq::<char>::empty(),
            };
            assert(s@ =~= gp + self.description.display_view() + dp + " ("@
                + self.urgency.display_view() + " urgency) is "@ + self.progress.display_view());
        }
        s
    }
}

/// Every to-do item whose group is set refers to one of `n` groups.
pub open spec fn groups_in_range(todos: Seq<TodoItem>, n: nat) -> bool {
    forall|i: int| 0 <= i < todos.len() ==> ((#[trigger] todos[i]).group matches Some(r) ==> r.0 < n)
}

/// The whole to-do list: its groups and its items.
pub struct TodoData {
    pub groups: Vec<Group>,
    pub todos: Vec<TodoItem>,
}

/// A copy of a group, field by field.
pub fn copy_group(g: &Group) -> (r: Group)
    ensures
        r == *g,
{
    Group { name: g.name.clone(), color: g.color }
}

/// A copy of a to-do item, field by field.
pub fn copy_todo(t: &TodoItem) -> (r: TodoItem)
    ensures
        r == *t,
{
    TodoItem {
        description: Description(t.description.0.clone()),
        group: t.group,
        due: t.due,
        urgency: t.urgency,
        progress: t.progress,
        created: t.created,
    }
}

impl TodoData {
    /// Every item's group is one of the list's groups.
    pub open spec fn wf(&self) -> bool {
        groups_in_range(self.todos@, self.groups@.len())
    }

    /// An empty list.
    pub fn new() -> (d: TodoData)
        ensures
            d.groups@ == Seq::<Group>::empty(),
            d.todos@ == Seq::<TodoItem>::empty(),
            d.wf(),
    {
        TodoData { groups: Vec::new(), todos: Vec::new() }
    }

    /// Adds the group `g` after the others.
    pub fn add_group(&mut self, g: Group)
        requires
            old(self).wf(),
        ensures
            final(self).groups@ == old(self).groups@.push(g),
            final(self).todos@ == old(self).todos@,
            final(self).wf(),
    {
        self.groups.push(g);
    }

    /// Adds the to-do item `t` after the others.
    pub fn add_todo(&mut self, t: TodoItem)
        requires
            old(self).wf(),
            t.group matches Some(r) ==> r.0 < old(self).groups@.len(),
        ensures
            final(self).todos@ == old(self).todos@.push(t),
            final(self).groups@ == old(self).groups@,
            final(self).wf(),
    {
        self.todos.push(t);
        assert(groups_in_range(self.todos@, self.groups@.len())) by {
            assert forall|i: int| 0 <= i < self.todos@.len() implies ((#[trigger] self.todos@[i]).group matches Some(r) ==> r.0 < self.groups@.len()) by {
                if i < self.todos@.len() - 1 {
                    assert(self.todos@[i] == old(self).todos@[i]);
                }
            }
        }
    }

    /// The group of `r`, if it is one of the list's groups.
    pub open spec fn group_at(&self, r: Option<GroupRef>) -> Option<Group> {
        match r {
            Some(g) => if g.0 < self.groups@.len() {
                Some(self.groups@[g.0 as int])
            } else {
                None
            },
            None => None,
        }
    }

    /// The group of `r`, if it is one of the list's groups.
    pub fn group_of(&self, r: Option<GroupRef>) -> (g: Option<&Group>)
        ensures
            match g {
                Some(x) => self.group_at(r) == Some(*x),
                None => self.group_at(r) is None,
            },
    {
        match r {
            Some(i) => if i.0 < self.groups.len() {
                Some(&self.groups[i.0])
            } else {
                None
            },
            None => None,
        }
    }

    /// The texts that show the list's to-do items, each with its group.
    pub open spec fn todo_texts(&self) -> Seq<Seq<char>> {
        self.todos@.map_values(|t: TodoItem| todo_text(t, self.group_at(t.group)))
    }

    /// The listing of the list's to-do items in their present order.
    pub fn todos_listing(&self) -> (s: String)
        ensures
            s@ == options_listing(self.todo_texts()),
    {
        let n = self.todos.len();
        let mut texts: Vec<String> = Vec::new();
        let mut i: usize = 0;
        while i < n
            invariant
                n == self.todos@.len(),
                i <= n,
                texts@.len() == i,
                forall|j: int| 0 <= j < i ==> #[trigger] texts@[j]@ == todo_text(self.todos@[j], self.group_at(self.todos@[j].group)),
            decreases n - i,
        {
            let t = &self.todos[i];
            let g = self.group_of(t.group);
            texts.push(t.display_with(g));
            i = i + 1;
        }
        let s = listing(&texts);
        assert(string_views(texts@) =~= self.todo_texts());
        s
    }

    /// Sorts the to-do items stably by their order and lists them, numbered
    /// from 1, each with its group.
    pub fn todos_as_string(&mut self) -> (s: String)
        requires
            old(self).wf(),
        ensures
            final(self).todos@ == sorted_ranked(old(self).todos@),
            final(self).groups@ == old(self).groups@,
            final(self).wf(),
            s@ == options_listing(final(self).todo_texts()),
    {
        let ghost before = self.todos@;
        sort_ranked(self.todos.as_mut_slice());
        proof {
            broadcast use vstd::seq_lib::group_to_multiset_ensures;

            lemma_sorted_ranked(before);
            let after = self.todos@;
            assert forall|i: int| 0 <= i < after.len() implies ((#[trigger] after[i]).group matches Some(r) ==> r.0 < self.groups@.len()) by {
                assert(after.contains(after[i]));
                assert(after.to_multiset().count(after[i]) > 0);
                assert(before.to_multiset().count(after[i]) > 0);
                assert(before.contains(after[i]));
                let k = choose|k: int| 0 <= k < before.len() && before[k] == after[i];
                assert(before[k] == old(self).todos@[k]);
            }
        }
        self.todos_listing()
    }
}

/// A group together with the position it had before the groups were sorted.
struct GroupEntry {
    group: Group,
    origin: usize,
}

impl Ranked for GroupEntry {
    closed spec fn rank_le(self, other: Self) -> bool {
        self.group.rank_le(other.group)
    }

    proof fn lemma_rank_total(a: Self, b: Self) {
        Group::lemma_rank_total(a.group, b.group);
    }

    proof fn lemma_rank_transitive(a: Self, b: Self, c: Self) {
        Group::lemma_rank_transitive(a.group, b.group, c.group);
    }

    fn ranks_le(&self, other: &Self) -> (r: bool) {
        self.group.ranks_le(&other.group)
    }
}

spec fn has_origin(s: Seq<GroupEntry>, o: int) -> bool {
    exists|k: int| 0 <= k < s.len() && (#[trigger] s[k]).origin == o
}

spec fn entry_groups(s: Seq<GroupEntry>) -> Seq<Group> {
    s.map_values(|e: GroupEntry| e.group)
}

proof fn lemma_insert_entry_groups(s: Seq<GroupEntry>, x: GroupEntry)
    ensures
        entry_groups(insert_ranked(s, x)) =~= insert_ranked(entry_groups(s), x.group),
    decreases s.len(),
{
    if s.len() == 0 || s.last().rank_le(x) {
    } else {
        lemma_insert_entry_groups(s.drop_last(), x);
        assert(entry_groups(s.drop_last()) =~= entry_groups(s).drop_last());
    }
}

/// Sorting groups with their positions attached sorts the groups.
proof fn lemma_sorted_entry_groups(s: Seq<GroupEntry>)
    ensures
        entry_groups(sorted_ranked(s)) =~= sorted_ranked(entry_groups(s)),
    decreases s.len(),
{
    if s.len() > 0 {
        lemma_sorted_entry_groups(s.drop_last());
        lemma_insert_entry_groups(sorted_ranked(s.drop_last()), s.last());
        assert(entry_groups(s.drop_last()) =~= entry_groups(s).drop_last());
    }
}

/// `b` is `a` with its group changed to `group`.
pub open spec fn regrouped(a: TodoItem, group: Option<GroupRef>) -> TodoItem {
    TodoItem { group, ..a }
}

/// `new` is `old` with its groups sorted stably by name, every to-do item
/// keeping its group, now found at the group's new position.
pub open spec fn is_group_sort_of(new: TodoData, old: TodoData) -> bool {
    &&& new.wf()
    &&& new.groups@ == sorted_ranked(old.groups@)
    &&& new.todos@.len() == old.todos@.len()
    &&& forall|i: int| 0 <= i < old.todos@.len() ==> {
        &&& #[trigger] new.todos@[i] == regrouped(old.todos@[i], new.todos@[i].group)
        &&& new.group_at(new.todos@[i].group) == old.group_at(old.todos@[i].group)
        &&& (new.todos@[i].group is Some <==> old.todos@[i].group is Some)
    }
}

impl TodoData {
    /// Sorts the groups stably by name; every to-do item keeps its group, now
    /// found at the group's new position.
    pub fn sort_groups(&mut self)
        requires
            old(self).wf(),
        ensures
            is_group_sort_of(*final(self), *old(self)),
    {
        broadcast use vstd::seq_lib::group_to_multiset_ensures;

        let n = self.groups.len();
        let mut entries: Vec<GroupEntry> = Vec::new();
        let mut i: usize = 0;
        while i < n
            invariant
                n == self.groups@.len(),
                i <= n,
                entries@.len() == i,
                forall|j: int| 0 <= j < i ==> #[trigger] entries@[j] == (GroupEntry { group: self.groups@[j], origin: j as usize }),
            decreases n - i,
        {
            entries.push(GroupEntry { group: copy_group(&self.groups[i]), origin: i });
            i = i + 1;
        }
        let ghost unsorted = entries@;
        assert(entry_groups(unsorted) =~= self.groups@);
        sort_ranked(entries.as_mut_slice());
        proof {
            lemma_sorted_ranked(unsorted);
            lemma_sorted_entry_groups(unsorted);
        }
        let ghost sorted = entries@;
        // every sorted entry is one of the unsorted entries
        assert forall|k: int| 0 <= k < n implies (#[trigger] sorted[k]).origin < n && sorted[k].group
            == self.groups@[sorted[k].origin as int] by {
            assert(sorted.contains(sorted[k]));
            assert(sorted.to_multiset().count(sorted[k]) > 0);
            assert(unsorted.contains(sorted[k]));
        }
        // every unsorted position is among the sorted entries
        assert forall|o: int| 0 <= o < n implies #[trigger] has_origin(sorted, o) by {
            assert(unsorted[o].origin == o);
            assert(unsorted.contains(unsorted[o]));
            assert(unsorted.to_multiset().count(unsorted[o]) > 0);
            assert(sorted.contains(unsorted[o]));
            let k = choose|k: int| 0 <= k < sorted.len() && sorted[k] == unsorted[o];
            assert(sorted[k].origin == o);
        }
        let mut position: Vec<usize> = vec![0usize; n];
        let mut k: usize = 0;
        while k < n
            invariant
                n == self.groups@.len(),
                n == sorted.len(),
                entries@ == sorted,
                position@.len() == n,
                k <= n,
                forall|j: int| 0 <= j < n ==> (#[trigger] sorted[j]).origin < n,
                forall|o: int| 0 <= o < n ==> #[trigger] position@[o] < n,
                forall|j: int| 0 <= j < k ==> sorted[position@[(#[trigger] sorted[j]).origin as int] as int].origin == sorted[j].origin,
            decreases n - k,
        {
            let o = entries[k].origin;
            position.set(o, k);
            k = k + 1;
        }
        assert forall|o: int| 0 <= o < n implies sorted[#[trigger] position@[o] as int].origin == o by {
            assert(has_origin(sorted, o));
            let j = choose|j: int| 0 <= j < n && (#[trigger] sorted[j]).origin == o;
            assert(sorted[position@[sorted[j].origin as int] as int].origin == sorted[j].origin);
        }
        let mut groups: Vec<Group> = Vec::new();
        let mut k: usize = 0;
        while k < n
            invariant
                n == sorted.len(),
                entries@ == sorted,
                k <= n,
                groups@.len() == k,
                forall|j: int| 0 <= j < k ==> #[trigger] groups@[j] == sorted[j].group,
            decreases n - k,
        {
            groups.push(copy_group(&entries[k].group));
            k = k + 1;
        }
        assert(groups@ =~= entry_groups(sorted));
        let ghost old_todos = self.todos@;
        let ghost old_groups = self.groups@;
        assert forall|o: int| 0 <= o < n implies groups@[#[trigger] position@[o] as int] == old_groups[o] by {
            let p = position@[o] as int;
            assert(sorted[p].origin == o);
            assert(groups@[p] == sorted[p].group);
        }
        let m = self.todos.len();
        let mut todos: Vec<TodoItem> = Vec::new();
        let mut t: usize = 0;
        while t < m
            invariant
                m == self.todos@.len(),
                self.todos@ == old_todos,
                self.groups@ == old_groups,
                old_groups.len() == n,
                groups_in_range(old_todos, n as nat),
                position@.len() == n,
                forall|o: int| 0 <= o < n ==> #[trigger] position@[o] < n,
                forall|o: int| 0 <= o < n ==> groups@[#[trigger] position@[o] as int] == old_groups[o],
                groups@.len() == n,
                t <= m,
                todos@.len() == t,
                forall|j: int| 0 <= j < t ==> {
                    &&& #[trigger] todos@[j] == regrouped(old_todos[j], todos@[j].group)
                    &&& (todos@[j].group is Some <==> old_todos[j].group is Some)
                    &&& (todos@[j].group matches Some(r) ==> (r.0 < n && (old_todos[j].group matches Some(q) && r.0 == position@[q.0 as int])))
                },
            decreases m - t,
        {
            let item = copy_todo(&self.todos[t]);
            assert(old_todos[t as int].group matches Some(q) ==> q.0 < n);
            let group = match item.group {
                Some(r) => Some(GroupRef(position[r.0])),
                None => None,
            };
            todos.push(TodoItem { group, ..item });
            t = t + 1;
        }
        self.groups = groups;
        self.todos = todos;
    }
}

impl TodoData {
    /// Sorts the groups stably by name, as [`TodoData::sort_groups`] does, and
    /// lists them, numbered from 1.
    pub fn groups_as_string(&mut self) -> (s: String)
        requires
            old(self).wf(),
        ensures
            is_group_sort_of(*final(self), *old(self)),
            s@ == options_listing(display_views(final(self).groups@)),
    {
        self.sort_groups();
        options_as_string(self.groups.as_slice())
    }
}

/// A to-do item as it is stored: its group by position.
#[derive(Clone, Debug)]
pub struct TodoItemSaved {
    pub desc: Description,
    pub group_index: Option<usize>,
    pub due: Option<Instant>,
    pub urgency: Urgency,
    pub progress: Progress,
    pub created: Instant,
}

/// The whole to-do list as it is stored.
pub struct TodoDataSaved {
    pub groups: Vec<Group>,
    pub todos: Vec<TodoItemSaved>,
}

/// The stored form of `t` in a list of `n` groups: a group that is not one of
/// them is stored as none.
pub open spec fn saved_item(t: TodoItem, n: nat) -> TodoItemSaved {
    TodoItemSaved {
        desc: t.description,
        group_index: match t.group {
            Some(r) => if r.0 < n {
                Some(r.0)
            } else {
                None
            },
            None => None,
        },
        due: t.due,
        urgency: t.urgency,
        progress: t.progress,
        created: t.created,
    }
}

/// The to-do item stored as `s` in a list of `n` groups: a position that is
/// not one of them is read as no group.
pub open spec fn loaded_item(s: TodoItemSaved, n: nat) -> TodoItem {
    TodoItem {
        description: s.desc,
        group: match s.group_index {
            Some(i) => if i < n {
                Some(GroupRef(i))
            } else {
                None
            },
            None => None,
        },
        due: s.due,
        urgency: s.urgency,
        progress: s.progress,
        created: s.created,
    }
}

impl TodoDataSaved {
    /// The stored form of `data`.
    pub fn from_unsaved(data: &TodoData) -> (r: TodoDataSaved)
        ensures
            r.groups@ == data.groups@,
            r.todos@ == data.todos@.map_values(|t: TodoItem| saved_item(t, data.groups@.len())),
    {
        let n = data.groups.len();
        let mut groups: Vec<Group> = Vec::new();
        let mut i: usize = 0;
        while i < n
            invariant
                n == data.groups@.len(),
                i <= n,
                groups@ == data.groups@.take(i as int),
            decreases n - i,
        {
            groups.push(copy_group(&data.groups[i]));
            i = i + 1;
            assert(groups@ =~= data.groups@.take(i as int));
        }
        assert(data.groups@.take(n as int) =~= data.groups@);
        let m = data.todos.len();
        let mut todos: Vec<TodoItemSaved> = Vec::new();
        let mut j: usize = 0;
        while j < m
            invariant
                n == data.groups@.len(),
                m == data.todos@.len(),
                j <= m,
                todos@.len() == j,
                forall|k: int| 0 <= k < j ==> #[trigger] todos@[k] == saved_item(data.todos@[k], n as nat),
            decreases m - j,
        {
            let t = &data.todos[j];
            let group_index = match t.group {
                Some(r) => if r.0 < n {
                    Some(r.0)
                } else {
                    None
                },
                None => None,
            };
            todos.push(
                TodoItemSaved {
                    desc: Description(t.description.0.clone()),
                    group_index,
                    due: t.due,
                    urgency: t.urgency,
                    progress: t.progress,
                    created: t.created,
                },
            );
            j = j + 1;
        }
        assert(todos@ =~= data.todos@.map_values(|t: TodoItem| saved_item(t, n as nat)));
        TodoDataSaved { groups, todos }
    }

    /// The list stored as `self`.
    pub fn to_unsaved(self) -> (r: TodoData)
        ensures
            r.wf(),
            r.groups@ == self.groups@,
            r.todos@ == self.todos@.map_values(|s: TodoItemSaved| loaded_item(s, self.groups@.len())),
    {
        let n = self.groups.len();
        let m = self.todos.len();
        let mut todos: Vec<TodoItem> = Vec::new();
        let mut j: usize = 0;
        while j < m
            invariant
                n == self.groups@.len(),
                m == self.todos@.len(),
                j <= m,
                todos@.len() == j,
                forall|k: int| 0 <= k < j ==> #[trigger] todos@[k] == loaded_item(self.todos@[k], n as nat),
            decreases m - j,
        {
            let s = &self.todos[j];
            let group = match s.group_index {
                Some(i) => if i < n {
                    Some(GroupRef(i))
                } else {
                    None
                },
                None => None,
            };
            todos.push(
                TodoItem {
                    description: Description(s.desc.0.clone()),
                    group,
                    due: s.due,
                    urgency: s.urgency,
                    progress: s.progress,
                    created: s.created,
                },
            );
            j = j + 1;
        }
        assert(todos@ =~= self.todos@.map_values(|s: TodoItemSaved| loaded_item(s, n as nat)));
        TodoData { groups: self.groups, todos }
    }
}

/// Storing a list and reading it back gives the list again: every item keeps
/// its description, group, due date, urgency, progress and creation time.
pub proof fn law_save_load_round_trip(groups: Seq<Group>, todos: Seq<TodoItem>)
    requires
        groups_in_range(todos, groups.len()),
    ensures
        todos.map_values(|t: TodoItem| saved_item(t, groups.len())).map_values(
            |s: TodoItemSaved| loaded_item(s, groups.len()),
        ) =~= todos,
{
    let n = groups.len();
    let back = todos.map_values(|t: TodoItem| saved_item(t, n)).map_values(
        |s: TodoItemSaved| loaded_item(s, n),
    );
    assert forall|i: int| 0 <= i < todos.len() implies back[i] == todos[i] by {
        let t = todos[i];
        assert(t.group matches Some(r) ==> r.0 < n);
    }
}

/// Reading a stored item and storing it again keeps it, except that a group
/// position that is not one of the `n` stored groups is stored as none.
pub proof fn law_load_save_round_trip(saved: TodoItemSaved, n: nat)
    ensures
        saved_item(loaded_item(saved, n), n) == (TodoItemSaved {
            group_index: match saved.group_index {
                Some(k) => if k < n {
                    Some(k)
                } else {
                    None
                },
                None => None,
            },
            ..saved
        }),
{
}

/// Reading a stored list gives a list whose items all refer to its groups.
pub proof fn law_loaded_list_is_well_formed(groups: Seq<Group>, saved: Seq<TodoItemSaved>)
    ensures
        groups_in_range(saved.map_values(|s: TodoItemSaved| loaded_item(s, groups.len())), groups.len()),
{
}


/// A name by which the user chooses a value: not empty, beginning with a
/// lower-case ASCII letter, and made of lower-case ASCII letters, `-` and
/// spaces.
pub open spec fn is_choice_name(s: Seq<char>) -> bool {
    &&& s.len() > 0
    &&& 'a' <= s[0] && s[0] <= 'z'
    &&& forall|i: int| 0 <= i < s.len() ==> ('a' <= #[trigger] s[i] && s[i] <= 'z') || s[i] == '-' || s[i] == ' '
}

/// A choice name reads as no number, so choosing goes by the name.
proof fn lemma_choice_name_is_no_number(s: Seq<char>)
    requires
        is_choice_name(s),
    ensures
        parsed_usize(s) is None,
{
    assert(unsigned_digits(s) == s);
    assert(!is_digit(s[0]));
}

/// The names of the seventeen colours a group can be given are choice names,
/// and no two of them are alike.
pub proof fn law_colour_names_are_distinct_choice_names(j: int, k: int)
    requires
        0 <= j < 17,
        0 <= k < 17,
    ensures
        is_choice_name(color_name(color_variants()[k])),
        parsed_usize(color_name(color_variants()[k])) is None,
        j != k ==> color_name(color_variants()[j]) != color_name(color_variants()[k]),
{
    reveal_strlit("black");
    reveal_strlit("red");
    reveal_strlit("green");
    reveal_strlit("yellow");
    reveal_strlit("blue");
    reveal_strlit("purple");
    reveal_strlit("cyan");
    reveal_strlit("white");
    reveal_strlit("dark-gray");
    reveal_strlit("bright-red");
    reveal_strlit("bright-green");
    reveal_strlit("bright-yellow");
    reveal_strlit("bright-blue");
    reveal_strlit("bright-purple");
    reveal_strlit("bright-cyan");
    reveal_strlit("bright-gray");
    reveal_strlit("default");
    lemma_choice_name_is_no_number(color_name(color_variants()[k]));
    let a = color_name(color_variants()[j]);
    let b = color_name(color_variants()[k]);
    if j != k && a == b {
        // names of one length differ in their first or their eighth character
        assert(a.len() == b.len() && a[0] == b[0]);
        if a.len() > 7 {
            assert(a[7] == b[7]);
        }
    }
}

/// The names of the urgencies are choice names, and no two are alike.
pub proof fn law_urgency_names_are_distinct_choice_names(a: Urgency, b: Urgency)
    ensures
        is_choice_name(urgency_name(a)),
        parsed_usize(urgency_name(a)) is None,
        a != b ==> urgency_name(a) != urgency_name(b),
{
    reveal_strlit("high");
    reveal_strlit("medium");
    reveal_strlit("low");
    reveal_strlit("long-term");
    lemma_choice_name_is_no_number(urgency_name(a));
}

/// The names of the progresses are choice names, and no two are alike.
pub proof fn law_progress_names_are_distinct_choice_names(a: Progress, b: Progress)
    ensures
        is_choice_name(progress_name(a)),
        parsed_usize(progress_name(a)) is None,
        a != b ==> progress_name(a) != progress_name(b),
{
    reveal_strlit("in progress");
    reveal_strlit("done");
    reveal_strlit("abandoned");
    lemma_choice_name_is_no_number(progress_name(a));
}

/// Lower-casing leaves a choice name as it is.
proof fn lemma_choice_name_is_lower_case(s: Seq<char>)
    requires
        is_choice_name(s),
    ensures
        lowercase(s) == s,
{
    assert(is_ascii_text(s));
    assert(s.map_values(|c: char| ascii_lower_char(c)) =~= s);
}

/// Among options whose names are distinct choice names, typing an option's
/// name chooses that option.
pub proof fn law_distinct_names_choose_their_option<T: UserInputtable>(options: Seq<T>, k: int)
    requires
        0 <= k < options.len(),
        forall|j: int| 0 <= j < options.len() ==> is_choice_name(#[trigger] options[j].inputtable_view()),
        forall|i: int, j: int|
            0 <= i < options.len() && 0 <= j < options.len() && i != j ==> #[trigger] options[i].inputtable_view()
                != #[trigger] options[j].inputtable_view(),
    ensures
        choice_result(options, options[k].inputtable_view()) == Ok::<int, Seq<char>>(k),
{
    let name = options[k].inputtable_view();
    lemma_choice_name_is_no_number(name);
    lemma_choice_name_is_lower_case(name);
    assert forall|j: int| 0 <= j < k implies !names_option(name, #[trigger] options[j]) by {
        lemma_choice_name_is_lower_case(options[j].inputtable_view());
    }
    assert(is_first_named(options, name, k));
    lemma_first_named_unique(options, name, k);
}

/// Typing a colour's name chooses that colour among the seventeen.
pub proof fn law_colour_found_by_name(k: int)
    requires
        0 <= k < 17,
    ensures
        choice_result(color_variants(), color_name(color_variants()[k])) == Ok::<int, Seq<char>>(k),
{
    let opts = color_variants();
    assert forall|j: int| 0 <= j < opts.len() implies is_choice_name(#[trigger] opts[j].inputtable_view()) by {
        law_colour_names_are_distinct_choice_names(j, j);
    }
    assert forall|i: int, j: int| 0 <= i < opts.len() && 0 <= j < opts.len() && i != j implies #[trigger] opts[i].inputtable_view()
        != #[trigger] opts[j].inputtable_view() by {
        law_colour_names_are_distinct_choice_names(i, j);
    }
    law_distinct_names_choose_their_option(opts, k);
}

/// Typing an urgency's name chooses that urgency among all four.
pub proof fn law_urgency_found_by_name(k: int)
    requires
        0 <= k < 4,
    ensures
        ({
            let opts = seq![Urgency::High, Urgency::Medium, Urgency::Low, Urgency::LongTerm];
            choice_result(opts, urgency_name(opts[k])) == Ok::<int, Seq<char>>(k)
        }),
{
    let opts = seq![Urgency::High, Urgency::Medium, Urgency::Low, Urgency::LongTerm];
    assert forall|j: int| 0 <= j < opts.len() implies is_choice_name(#[trigger] opts[j].inputtable_view()) by {
        law_urgency_names_are_distinct_choice_names(opts[j], opts[j]);
    }
    assert forall|i: int, j: int| 0 <= i < opts.len() && 0 <= j < opts.len() && i != j implies #[trigger] opts[i].inputtable_view()
        != #[trigger] opts[j].inputtable_view() by {
        law_urgency_names_are_distinct_choice_names(opts[i], opts[j]);
    }
    law_distinct_names_choose_their_option(opts, k);
}

/// Typing a progress's name chooses that progress among all three.
pub proof fn law_progress_found_by_name(k: int)
    requires
        0 <= k < 3,
    ensures
        ({
            let opts = seq![Progress::InProgress, Progress::Done, Progress::Abandoned];
            choice_result(opts, progress_name(opts[k])) == Ok::<int, Seq<char>>(k)
        }),
{
    let opts = seq![Progress::InProgress, Progress::Done, Progress::Abandoned];
    assert forall|j: int| 0 <= j < opts.len() implies is_choice_name(#[trigger] opts[j].inputtable_view()) by {
        law_progress_names_are_distinct_choice_names(opts[j], opts[j]);
    }
    assert forall|i: int, j: int| 0 <= i < opts.len() && 0 <= j < opts.len() && i != j implies #[trigger] opts[i].inputtable_view()
        != #[trigger] opts[j].inputtable_view() by {
        law_progress_names_are_distinct_choice_names(opts[i], opts[j]);
    }
    law_distinct_names_choose_their_option(opts, k);
}


/// Each colour is chosen by its own English name: the sixteen named colours
/// by `black`, `red`, `green`, `yellow`, `blue`, `purple`, `cyan`, `white`
/// and `dark-gray`, `bright-red` and so on for their bright forms; every
/// other colour by `default`. A colour is shown as that name painted in the
/// colour itself.
pub proof fn law_colour_names(c: Color)
    ensures
        c.0 == TermColour::Black ==> c.inputtable_view() == "black"@,
        c.0 == TermColour::Red ==> c.inputtable_view() == "red"@,
        c.0 == TermColour::Green ==> c.inputtable_view() == "green"@,
        c.0 == TermColour::Yellow ==> c.inputtable_view() == "yellow"@,
        c.0 == TermColour::Blue ==> c.inputtable_view() == "blue"@,
        c.0 == TermColour::Purple ==> c.inputtable_view() == "purple"@,
        c.0 == TermColour::Cyan ==> c.inputtable_view() == "cyan"@,
        c.0 == TermColour::White ==> c.inputtable_view() == "white"@,
        c.0 == TermColour::DarkGray ==> c.inputtable_view() == "dark-gray"@,
        c.0 == TermColour::BrightRed ==> c.inputtable_view() == "bright-red"@,
        c.0 == TermColour::BrightGreen ==> c.inputtable_view() == "bright-green"@,
        c.0 == TermColour::BrightYellow ==> c.inputtable_view() == "bright-yellow"@,
        c.0 == TermColour::BrightBlue ==> c.inputtable_view() == "bright-blue"@,
        c.0 == TermColour::BrightPurple ==> c.inputtable_view() == "bright-purple"@,
        c.0 == TermColour::BrightCyan ==> c.inputtable_view() == "bright-cyan"@,
        c.0 == TermColour::BrightGray ==> c.inputtable_view() == "bright-gray"@,
        (c.0 is Fixed || c.0 is RGB || c.0 is Default) ==> c.inputtable_view() == "default"@,
        c.display_view() == painted(c.0, false, false, c.inputtable_view()),
{
}

/// Each urgency is chosen by the name it is shown with, and shown in its
/// colour: `high` in red, `medium` in yellow, `low` in green, `long-term` in
/// blue.
pub proof fn law_urgency_names(u: Urgency)
    ensures
        u == Urgency::High ==> u.inputtable_view() == "high"@ && urgency_colour(u) == TermColour::Red,
        u == Urgency::Medium ==> u.inputtable_view() == "medium"@ && urgency_colour(u) == TermColour::Yellow,
        u == Urgency::Low ==> u.inputtable_view() == "low"@ && urgency_colour(u) == TermColour::Green,
        u == Urgency::LongTerm ==> u.inputtable_view() == "long-term"@ && urgency_colour(u) == TermColour::Blue,
        u.display_view() == painted(urgency_colour(u), false, false, u.inputtable_view()),
{
}

/// Each progress is chosen by the name it is shown with: `in progress` in
/// bright blue, `done` in bright green, `abandoned` in dimmed red.
pub proof fn law_progress_names(p: Progress)
    ensures
        p == Progress::InProgress ==> p.inputtable_view() == "in progress"@ && p.display_view()
            == painted(TermColour::BrightBlue, false, false, p.inputtable_view()),
        p == Progress::Done ==> p.inputtable_view() == "done"@ && p.display_view() == painted(
            TermColour::BrightGreen,
            false,
            false,
            p.inputtable_view(),
        ),
        p == Progress::Abandoned ==> p.inputtable_view() == "abandoned"@ && p.display_view() == painted(
            TermColour::Red,
            false,
            true,
            p.inputtable_view(),
        ),
{
}

/// To-do items are listed by progress first (in progress, then done, then
/// abandoned); among items of one progress, those without a due date come
/// first, then by due date; then by urgency (high, medium, low, long-term);
/// then by description.
pub proof fn law_todo_order(a: TodoItem, b: TodoItem)
    ensures
        ((a.progress == Progress::InProgress && b.progress != Progress::InProgress) || (a.progress
            == Progress::Done && b.progress == Progress::Abandoned)) ==> todo_le(a, b) && !todo_le(b, a),
        a.progress == b.progress && a.due is None && b.due is Some ==> todo_le(a, b) && !todo_le(b, a),
        a.progress == b.progress && a.due is Some && b.due is Some && (a.due->0.secs() < b.due->0.secs() || (
        a.due->0.secs() == b.due->0.secs() && a.due->0.subsec_nanos() < b.due->0.subsec_nanos())) ==> todo_le(a, b)
            && !todo_le(b, a),
        a.progress == b.progress && a.due == b.due && ((a.urgency == Urgency::High && b.urgency != Urgency::High)
            || (a.urgency == Urgency::Medium && (b.urgency == Urgency::Low || b.urgency == Urgency::LongTerm))
            || (a.urgency == Urgency::Low && b.urgency == Urgency::LongTerm)) ==> todo_le(a, b) && !todo_le(b, a),
        a.progress == b.progress && a.due == b.due && a.urgency == b.urgency ==> (todo_le(a, b) <==> chars_le(
            a.description.0@,
            b.description.0@,
        )),
{
}

/// An item with a group is shown as `[group] ` before the text it has without
/// one, whatever else it holds; a due date is shown as ` due date` right after
/// the description; an item with neither is shown as
/// `description (urgency urgency) is progress`.
pub proof fn law_todo_text(t: TodoItem, g: Group)
    ensures
        todo_text(t, Some(g)) == "["@ + g.display_view() + "] "@ + todo_text(t, None),
        todo_text(TodoItem { due: None, ..t }, None) == t.description.display_view() + " ("@
            + t.urgency.display_view() + " urgency) is "@ + t.progress.display_view(),
        t.due matches Some(d) ==> todo_text(t, None) == t.description.display_view() + " due "@
            + d.display_view() + todo_text(TodoItem { due: None, ..t }, None).skip(
            t.description.display_view().len() as int,
        ),
{
    let desc = t.description.display_view();
    let tail = " ("@ + t.urgency.display_view() + " urgency) is "@ + t.progress.display_view();
    assert(todo_text(t, Some(g)) =~= "["@ + g.display_view() + "] "@ + todo_text(t, None));
    assert(todo_text(TodoItem { due: None, ..t }, None) =~= desc + tail);
    assert((desc + tail).skip(desc.len() as int) =~= tail);
    if let Some(d) = t.due {
        assert(todo_text(t, None) =~= desc + " due "@ + d.display_view() + tail);
    }
}

} // verus!
