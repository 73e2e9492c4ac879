//! A smaller command grammar: `category` or `todo` followed by `add` or
//! `edit`, or a quit word.
use vstd::prelude::*;

use crate::command::{word_add, word_edit, word_quit, word_todo, NoCommand};
use crate::text::{
    chars_of, count_spaces, has_tag_folded, leading_spaces, starts_with_folded,
};

verus! {

/// A command of the smaller grammar.
#[derive(PartialEq, Eq, Structural, Clone, Copy, Debug)]
pub enum Command {
    CategoryAdd,
    CategoryEdit,
    TodoAdd,
    TodoEdit,
    Quit,
}

/// The word `category`.
pub open spec fn word_category() -> Seq<char> {
    seq!['c', 'a', 't', 'e', 'g', 'o', 'r', 'y']
}

/// The entity word at the start of `s`: `category`, else `todo`, ASCII case folded.
pub open spec fn entity_word(s: Seq<char>) -> Option<Seq<char>> {
    if starts_with_folded(s, word_category()) {
        Some(word_category())
    } else if starts_with_folded(s, word_todo()) {
        Some(word_todo())
    } else {
        None
    }
}

/// The action word at the start of `s`: `add`, else `edit`, ASCII case folded.
pub open spec fn action_word(s: Seq<char>) -> Option<Seq<char>> {
    if starts_with_folded(s, word_add()) {
        Some(word_add())
    } else if starts_with_folded(s, word_edit()) {
        Some(word_edit())
    } else {
        None
    }
}

/// Where `<entity> <spaces> <action>` stands at the start of `s`: the entity's
/// length, the number of spaces and the action's length.
pub open spec fn entity_action_parts(s: Seq<char>) -> Option<(nat, nat, nat)> {
    match entity_word(s) {
        None => None,
        Some(e) => {
            let rest = s.skip(e.len() as int);
            let w = leading_spaces(rest);
            if w == 0 {
                None
            } else {
                match action_word(rest.skip(w as int)) {
                    None => None,
                    Some(a) => Some((e.len(), w, a.len())),
                }
            }
        }
    }
}

/// The words of `<entity> <spaces> <action>` at the start of `s` are typed in
/// lower case (an entity and an action in any other case are not handled).
pub open spec fn words_in_lower_case(s: Seq<char>) -> bool {
    match entity_action_parts(s) {
        None => true,
        Some((k, w, m)) => {
            &&& s.take(k as int) == entity_word(s)->0
            &&& s.skip((k + w) as int).take(m as int) == action_word(s.skip((k + w) as int))->0
        },
    }
}

/// The command at the start of `s` and the number of characters it takes.
pub open spec fn command_prefix(s: Seq<char>) -> Option<(Command, nat)> {
    match entity_action_parts(s) {
        Some((k, w, m)) => {
            let category = entity_word(s) == Some(word_category());
            let add = action_word(s.skip((k + w) as int)) == Some(word_add());
            let c = if category && add {
                Command::CategoryAdd
            } else if category {
                Command::CategoryEdit
            } else if add {
                Command::TodoAdd
            } else {
                Command::TodoEdit
            };
            Some((c, k + w + m))
        },
        None => if starts_with_folded(s, seq!['q']) {
            Some((Command::Quit, 1))
        } else if starts_with_folded(s, word_quit()) {
            Some((Command::Quit, 4))
        } else {
            None
        },
    }
}

/// Reads a command of the smaller grammar from the start of `input` and
/// returns what is left of the input after it, together with the command.
///
/// `q` is tried before `quit`, so `quit` is read as `q` followed by `uit`.
pub fn parse_command(input: &str) -> (r: Result<(&str, Command), NoCommand>)
    requires
        words_in_lower_case(input@),
    ensures
        match command_prefix(input@) {
            Some((c, n)) => {
                &&& n <= input@.len()
                &&& r matches Ok((rest, cmd)) && cmd == c && rest@ == input@.skip(n as int)
            },
            None => r == Err::<(&str, Command), NoCommand>(NoCommand),
        },
{
    let s = chars_of(input);
    let category: [char; 8] = ['c', 'a', 't', 'e', 'g', 'o', 'r', 'y'];
    let todo: [char; 4] = ['t', 'o', 'd', 'o'];
    let add: [char; 3] = ['a', 'd', 'd'];
    let edit: [char; 4] = ['e', 'd', 'i', 't'];
    let q: [char; 1] = ['q'];
    let quit: [char; 4] = ['q', 'u', 'i', 't'];
    assert(category@ =~= word_category());
    assert(todo@ =~= word_todo());
    assert(add@ =~= word_add());
    assert(edit@ =~= word_edit());
    assert(q@ =~= seq!['q']);
    assert(quit@ =~= word_quit());
    assert(s@.skip(0) =~= s@);
    let mut found: Option<(Command, usize)> = None;
    let entity = if has_tag_folded(&s, 0, category.as_slice()) {
        Some((true, 8usize))
    } else if has_tag_folded(&s, 0, todo.as_slice()) {
        Some((false, 4usize))
    } else {
        None
    };
    if let Some((is_category, k)) = entity {
        let w = count_spaces(&s, k);
        if w > 0 {
            let p = k + w;
            assert(s@.skip(k as int).skip(w as int) =~= s@.skip(p as int));
            let action = if has_tag_folded(&s, p, add.as_slice()) {
                Some((true, 3usize))
            } else if has_tag_folded(&s, p, edit.as_slice()) {
                Some((false, 4usize))
            } else {
                None
            };
            if let Some((is_add, m)) = action {
                let c = if is_category && is_add {
                    Command::CategoryAdd
                } else if is_category {
                    Command::CategoryEdit
                } else if is_add {
                    Command::TodoAdd
                } else {
                    Command::TodoEdit
                };
                found = Some((c, p + m));
            }
        }
    }
    if found.is_none() {
        if has_tag_folded(&s, 0, q.as_slice()) {
            found = Some((Command::Quit, 1));
        } else if has_tag_folded(&s, 0, quit.as_slice()) {
            found = Some((Command::Quit, 4));
        }
    }
    match found {
        Some((c, n)) => {
            let rest = input.substring_char(n, s.len());
            assert(rest@ =~= input@.skip(n as int));
            Ok((rest, c))
        },
        None => Err(NoCommand),
    }
}

} // verus!
