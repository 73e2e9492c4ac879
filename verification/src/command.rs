//! The command line that the interactive prompt understands.
use vstd::prelude::*;

use crate::util::{invalid_input_error, InputError};
use crate::text::{chars_of, count_spaces, has_tag_exact, has_tag_folded, leading_spaces, starts_with_folded};

verus! {

/// A command typed at the prompt.
#[derive(PartialEq, Eq, Structural, Clone, Copy, Debug)]
pub enum Command {
    GroupAdd,
    GroupEdit,
    GroupList,
    GroupRemove,
    TodoAdd,
    TodoEdit,
    TodoList,
    TodoRemove,
    Help,
    Quit,
}

/// No alternative of the command grammar matches the start of the input.
#[derive(PartialEq, Eq, Structural, Clone, Copy, Debug)]
pub struct NoCommand;

/// The word `group`.
pub open spec fn word_group() -> Seq<char> {
    seq!['g', 'r', 'o', 'u', 'p']
}

/// The word `todo`.
pub open spec fn word_todo() -> Seq<char> {
    seq!['t', 'o', 'd', 'o']
}

/// The word `add`.
pub open spec fn word_add() -> Seq<char> {
    seq!['a', 'd', 'd']
}

/// The word `edit`.
pub open spec fn word_edit() -> Seq<char> {
    seq!['e', 'd', 'i', 't']
}

/// The word `list`.
pub open spec fn word_list() -> Seq<char> {
    seq!['l', 'i', 's', 't']
}

/// The word `remove`.
pub open spec fn word_remove() -> Seq<char> {
    seq!['r', 'e', 'm', 'o', 'v', 'e']
}

/// The word `quit`.
pub open spec fn word_quit() -> Seq<char> {
    seq!['q', 'u', 'i', 't']
}

/// The word `exit`.
pub open spec fn word_exit() -> Seq<char> {
    seq!['e', 'x', 'i', 't']
}

/// The word `help`.
pub open spec fn word_help() -> Seq<char> {
    seq!['h', 'e', 'l', 'p']
}

/// The entity word read at the start of `s`: the first of `group`, `g`, `todo`,
/// `t` that `s` begins with, ASCII letters compared without case.
pub open spec fn entity_word(s: Seq<char>) -> Option<Seq<char>> {
    if starts_with_folded(s, word_group()) {
        Some(word_group())
    } else if starts_with_folded(s, seq!['g']) {
        Some(seq!['g'])
    } else if starts_with_folded(s, word_todo()) {
        Some(word_todo())
    } else if starts_with_folded(s, seq!['t']) {
        Some(seq!['t'])
    } else {
        None
    }
}

/// The action word read at the start of `s`: the first of `add`, `edit`, `list`,
/// `ls`, `remove`, `rm` that `s` begins with, ASCII letters compared without case.
pub open spec fn action_word(s: Seq<char>) -> Option<Seq<char>> {
    if starts_with_folded(s, word_add()) {
        Some(word_add())
    } else if starts_with_folded(s, word_edit()) {
        Some(word_edit())
    } else if starts_with_folded(s, word_list()) {
        Some(word_list())
    } else if starts_with_folded(s, seq!['l', 's']) {
        Some(seq!['l', 's'])
    } else if starts_with_folded(s, word_remove()) {
        Some(word_remove())
    } else if starts_with_folded(s, seq!['r', 'm']) {
        Some(seq!['r', 'm'])
    } else {
        None
    }
}

/// The command named by an entity and an action exactly as they were typed:
/// only the lower-case spellings name a command.
pub open spec fn entity_action(entity: Seq<char>, action: Seq<char>) -> Option<Command> {
    let group = entity == word_group() || entity == seq!['g'];
    let todo = entity == word_todo() || entity == seq!['t'];
    let add = action == word_add();
    let edit = action == word_edit();
    let list = action == word_list() || action == seq!['l', 's'];
    let remove = action == word_remove() || action == seq!['r', 'm'];
    if group && add {
        Some(Command::GroupAdd)
    } else if group && edit {
        Some(Command::GroupEdit)
    } else if group && list {
        Some(Command::GroupList)
    } else if group && remove {
        Some(Command::GroupRemove)
    } else if todo && add {
        Some(Command::TodoAdd)
    } else if todo && edit {
        Some(Command::TodoEdit)
    } else if todo && list {
        Some(Command::TodoList)
    } else if todo && remove {
        Some(Command::TodoRemove)
    } else {
        None
    }
}

/// `<entity> <one or more spaces> <action>` at the start of `s`: the command and
/// the number of characters read.
pub open spec fn entity_action_prefix(s: Seq<char>) -> Option<(Command, nat)> {
    match entity_word(s) {
        None => None,
        Some(e) => {
            let rest = s.skip(e.len() as int);
            let w = leading_spaces(rest);
            let rest2 = rest.skip(w as int);
            if w == 0 {
                None
            } else {
                match action_word(rest2) {
                    None => None,
                    Some(a) => match entity_action(s.take(e.len() as int), rest2.take(a.len() as int)) {
                        Some(c) => Some((c, e.len() + w + a.len())),
                        None => None,
                    },
                }
            }
        }
    }
}

/// The quit word read at the start of `s`: the first of `quit`, `q`, `exit`.
pub open spec fn quit_word(s: Seq<char>) -> Option<Seq<char>> {
    if starts_with_folded(s, word_quit()) {
        Some(word_quit())
    } else if starts_with_folded(s, seq!['q']) {
        Some(seq!['q'])
    } else if starts_with_folded(s, word_exit()) {
        Some(word_exit())
    } else {
        None
    }
}

/// The help word read at the start of `s`: the first of `help`, `h`.
pub open spec fn help_word(s: Seq<char>) -> Option<Seq<char>> {
    if starts_with_folded(s, word_help()) {
        Some(word_help())
    } else if starts_with_folded(s, seq!['h']) {
        Some(seq!['h'])
    } else {
        None
    }
}

/// The command at the start of `s` and the number of characters it takes:
/// an entity and an action first, else a quit word, else a help word.
pub open spec fn command_prefix(s: Seq<char>) -> Option<(Command, nat)> {
    match entity_action_prefix(s) {
        Some(r) => Some(r),
        None => match quit_word(s) {
            Some(q) => Some((Command::Quit, q.len())),
            None => match help_word(s) {
                Some(h) => Some((Command::Help, h.len())),
                None => None,
            },
        },
    }
}

/// Length of the entity word at the start of `s`.
fn entity_word_len(s: &Vec<char>) -> (r: Option<usize>)
    ensures
        match entity_word(s@) {
            Some(e) => r == Some(e.len() as usize),
            None => r is None,
        },
        r matches Some(k) ==> k <= s.len(),
{
    let group: [char; 5] = ['g', 'r', 'o', 'u', 'p'];
    let g: [char; 1] = ['g'];
    let todo: [char; 4] = ['t', 'o', 'd', 'o'];
    let t: [char; 1] = ['t'];
    assert(group@ =~= word_group());
    assert(g@ =~= seq!['g']);
    assert(todo@ =~= word_todo());
    assert(t@ =~= seq!['t']);
    assert(s@.skip(0) =~= s@);
    if has_tag_folded(s, 0, group.as_slice()) {
        Some(5)
    } else if has_tag_folded(s, 0, g.as_slice()) {
        Some(1)
    } else if has_tag_folded(s, 0, todo.as_slice()) {
        Some(4)
    } else if has_tag_folded(s, 0, t.as_slice()) {
        Some(1)
    } else {
        None
    }
}

/// Length of the action word in `s` at `pos`.
fn action_word_len(s: &Vec<char>, pos: usize) -> (r: Option<usize>)
    requires
        pos <= s@.len(),
    ensures
        match action_word(s@.skip(pos as int)) {
            Some(a) => r == Some(a.len() as usize),
            None => r is None,
        },
        r matches Some(m) ==> pos + m <= s.len(),
{
    let add: [char; 3] = ['a', 'd', 'd'];
    let edit: [char; 4] = ['e', 'd', 'i', 't'];
    let list: [char; 4] = ['l', 'i', 's', 't'];
    let ls: [char; 2] = ['l', 's'];
    let remove: [char; 6] = ['r', 'e', 'm', 'o', 'v', 'e'];
    let rm: [char; 2] = ['r', 'm'];
    assert(add@ =~= word_add());
    assert(edit@ =~= word_edit());
    assert(list@ =~= word_list());
    assert(ls@ =~= seq!['l', 's']);
    assert(remove@ =~= word_remove());
    assert(rm@ =~= seq!['r', 'm']);
    if has_tag_folded(s, pos, add.as_slice()) {
        Some(3)
    } else if has_tag_folded(s, pos, edit.as_slice()) {
        Some(4)
    } else if has_tag_folded(s, pos, list.as_slice()) {
        Some(4)
    } else if has_tag_folded(s, pos, ls.as_slice()) {
        Some(2)
    } else if has_tag_folded(s, pos, remove.as_slice()) {
        Some(6)
    } else if has_tag_folded(s, pos, rm.as_slice()) {
        Some(2)
    } else {
        None
    }
}

/// The command that the exactly typed entity `s[0..k]` and action
/// `s[p..p + m]` name.
fn entity_action_at(s: &Vec<char>, k: usize, p: usize, m: usize) -> (r: Option<Command>)
    requires
        k <= p,
        p + m <= s@.len(),
    ensures
        r == entity_action(s@.take(k as int), s@.skip(p as int).take(m as int)),
{
    let group: [char; 5] = ['g', 'r', 'o', 'u', 'p'];
    let g: [char; 1] = ['g'];
    let todo: [char; 4] = ['t', 'o', 'd', 'o'];
    let t: [char; 1] = ['t'];
    let add: [char; 3] = ['a', 'd', 'd'];
    let edit: [char; 4] = ['e', 'd', 'i', 't'];
    let list: [char; 4] = ['l', 'i', 's', 't'];
    let ls: [char; 2] = ['l', 's'];
    let remove: [char; 6] = ['r', 'e', 'm', 'o', 'v', 'e'];
    let rm: [char; 2] = ['r', 'm'];
    assert(group@ =~= word_group());
    assert(g@ =~= seq!['g']);
    assert(todo@ =~= word_todo());
    assert(t@ =~= seq!['t']);
    assert(add@ =~= word_add());
    assert(edit@ =~= word_edit());
    assert(list@ =~= word_list());
    assert(ls@ =~= seq!['l', 's']);
    assert(remove@ =~= word_remove());
    assert(rm@ =~= seq!['r', 'm']);
    assert(s@.skip(0) =~= s@);
    let ghost entity = s@.take(k as int);
    let ghost action = s@.skip(p as int).take(m as int);
    let is_group = (k == 5 && has_tag_exact(s, 0, group.as_slice())) || (k == 1 && has_tag_exact(
        s,
        0,
        g.as_slice(),
    ));
    let is_todo = (k == 4 && has_tag_exact(s, 0, todo.as_slice())) || (k == 1 && has_tag_exact(
        s,
        0,
        t.as_slice(),
    ));
    let is_add = m == 3 && has_tag_exact(s, p, add.as_slice());
    let is_edit = m == 4 && has_tag_exact(s, p, edit.as_slice());
    let is_list = (m == 4 && has_tag_exact(s, p, list.as_slice())) || (m == 2 && has_tag_exact(
        s,
        p,
        ls.as_slice(),
    ));
    let is_remove = (m == 6 && has_tag_exact(s, p, remove.as_slice())) || (m == 2 && has_tag_exact(
        s,
        p,
        rm.as_slice(),
    ));
    assert(is_group == (entity == word_group() || entity == seq!['g']));
    assert(is_todo == (entity == word_todo() || entity == seq!['t']));
    assert(is_add == (action == word_add()));
    assert(is_edit == (action == word_edit()));
    assert(action.len() == m);
    assert(entity.len() == k);
    assert(is_list == (action == word_list() || action == seq!['l', 's']));
    assert(is_remove == (action == word_remove() || action == seq!['r', 'm']));
    if is_group && is_add {
        Some(Command::GroupAdd)
    } else if is_group && is_edit {
        Some(Command::GroupEdit)
    } else if is_group && is_list {
        Some(Command::GroupList)
    } else if is_group && is_remove {
        Some(Command::GroupRemove)
    } else if is_todo && is_add {
        Some(Command::TodoAdd)
    } else if is_todo && is_edit {
        Some(Command::TodoEdit)
    } else if is_todo && is_list {
        Some(Command::TodoList)
    } else if is_todo && is_remove {
        Some(Command::TodoRemove)
    } else {
        None
    }
}

/// `<entity> <spaces> <action>` at the start of `s`.
fn entity_action_len(s: &Vec<char>) -> (r: Option<(Command, usize)>)
    ensures
        match entity_action_prefix(s@) {
            Some((c, n)) => r == Some((c, n as usize)) && n <= s@.len(),
            None => r is None,
        },
        r matches Some((c, n)) ==> n <= s@.len(),
{
    let k = match entity_word_len(s) {
        Some(k) => k,
        None => return None,
    };
    let w = count_spaces(s, k);
    if w == 0 {
        return None;
    }
    let p = k + w;
    assert(s@.skip(k as int).skip(w as int) =~= s@.skip(p as int));
    let m = match action_word_len(s, p) {
        Some(m) => m,
        None => return None,
    };
    match entity_action_at(s, k, p, m) {
        Some(c) => Some((c, p + m)),
        None => None,
    }
}

/// Length of the quit word at the start of `s`.
fn quit_word_len(s: &Vec<char>) -> (r: Option<usize>)
    ensures
        match quit_word(s@) {
            Some(q) => r == Some(q.len() as usize),
            None => r is None,
        },
        r matches Some(n) ==> n <= s@.len(),
{
    let quit: [char; 4] = ['q', 'u', 'i', 't'];
    let q: [char; 1] = ['q'];
    let exit: [char; 4] = ['e', 'x', 'i', 't'];
    assert(quit@ =~= word_quit());
    assert(q@ =~= seq!['q']);
    assert(exit@ =~= word_exit());
    assert(s@.skip(0) =~= s@);
    if has_tag_folded(s, 0, quit.as_slice()) {
        Some(4)
    } else if has_tag_folded(s, 0, q.as_slice()) {
        Some(1)
    } else if has_tag_folded(s, 0, exit.as_slice()) {
        Some(4)
    } else {
        None
    }
}

/// Length of the help word at the start of `s`.
fn help_word_len(s: &Vec<char>) -> (r: Option<usize>)
    ensures
        match help_word(s@) {
            Some(h) => r == Some(h.len() as usize),
            None => r is None,
        },
        r matches Some(n) ==> n <= s@.len(),
{
    let help: [char; 4] = ['h', 'e', 'l', 'p'];
    let h: [char; 1] = ['h'];
    assert(help@ =~= word_help());
    assert(h@ =~= seq!['h']);
    assert(s@.skip(0) =~= s@);
    if has_tag_folded(s, 0, help.as_slice()) {
        Some(4)
    } else if has_tag_folded(s, 0, h.as_slice()) {
        Some(1)
    } else {
        None
    }
}

impl Command {
    /// Reads a command from the start of `input` and returns what is left of
    /// the input after it, together with the command.
    ///
    /// The grammar: an entity (`group` or `g`, `todo` or `t`), one or more of
    /// space, tab, carriage return and line feed, and an action (`add`, `edit`,
    /// `list` or `ls`, `remove` or `rm`); else `quit`, `q` or `exit`; else `help`
    /// or `h`. Words are recognized without regard to ASCII case and each
    /// alternative takes the first word in that order that the input begins
    /// with; an entity and an action name a command only as typed in lower case.
    pub fn parse_from(input: &str) -> (r: Result<(&str, Command), NoCommand>)
        ensures
            match command_prefix(input@) {
                Some((c, n)) => {
                    &&& n <= input@.len()
                    &&& r matches Ok((rest, cmd)) && cmd == c && rest@ == input@.skip(n as int)
                },
                None => r == Err::<(&str, Command), NoCommand>(NoCommand),
            },
    {
        let s = chars_of(input);
        let found = match entity_action_len(&s) {
            Some(r) => Some(r),
            None => match quit_word_len(&s) {
                Some(n) => Some((Command::Quit, n)),
                None => match help_word_len(&s) {
                    Some(n) => Some((Command::Help, n)),
                    None => None,
                },
            },
        };
        match found {
            Some((c, n)) => {
                let rest = input.substring_char(n, s.len());
                assert(rest@ =~= input@.skip(n as int));
                Ok((rest, c))
            },
            None => Err(NoCommand),
        }
    }
}

/// The message for an input that no command matches.
pub open spec fn invalid_command_message(input: Seq<char>) -> Seq<char> {
    "invalid command: "@ + input + "\nFor a list of commands, type: <help/h>"@
}

/// The message for an input that holds more than a command.
pub open spec fn extra_input_message(rest: Seq<char>) -> Seq<char> {
    "you typed some extra stuff: "@ + rest
}

/// The command that a whole input line holds, or the message that refuses
/// it: the line must hold a command and nothing after it.
pub open spec fn parsed_command_line(line: Seq<char>) -> Result<Command, Seq<char>> {
    match command_prefix(line) {
        None => Err(invalid_command_message(line)),
        Some((c, n)) => if n == line.len() {
            Ok(c)
        } else {
            Err(extra_input_message(line.skip(n as int)))
        },
    }
}

/// Reads a whole input line as one command, as [`parsed_command_line`] says.
pub fn parse_command_line(line: &str) -> (r: Result<Command, InputError>)
    ensures
        match parsed_command_line(line@) {
            Ok(c) => r == Ok::<Command, InputError>(c),
            Err(m) => r matches Err(e) && e.message@ == m,
        },
{
    match Command::parse_from(line) {
        Err(_) => {
            let msg = String::from_str("invalid command: ").concat(line).concat(
                "\nFor a list of commands, type: <help/h>",
            );
            Err(invalid_input_error(msg.as_str()))
        },
        Ok((rest, cmd)) => {
            if !rest.is_empty() {
                let msg = String::from_str("you typed some extra stuff: ").concat(rest);
                Err(invalid_input_error(msg.as_str()))
            } else {
                Ok(cmd)
            }
        },
    }
}

} // verus!
