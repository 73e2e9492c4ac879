use todo::command::{parse_command_line, Command, NoCommand};
use todo::parser::{parse_command, Command as SmallCommand};

#[test]
fn parses_group_and_todo_commands() {
    assert_eq!(Command::parse_from("group add"), Ok(("", Command::GroupAdd)));
    assert_eq!(Command::parse_from("g edit"), Ok(("", Command::GroupEdit)));
    assert_eq!(Command::parse_from("group list"), Ok(("", Command::GroupList)));
    assert_eq!(Command::parse_from("g ls"), Ok(("", Command::GroupList)));
    assert_eq!(Command::parse_from("group remove"), Ok(("", Command::GroupRemove)));
    assert_eq!(Command::parse_from("g rm"), Ok(("", Command::GroupRemove)));
    assert_eq!(Command::parse_from("todo add"), Ok(("", Command::TodoAdd)));
    assert_eq!(Command::parse_from("t edit"), Ok(("", Command::TodoEdit)));
    assert_eq!(Command::parse_from("todo ls"), Ok(("", Command::TodoList)));
    assert_eq!(Command::parse_from("t remove"), Ok(("", Command::TodoRemove)));
}

#[test]
fn parses_quit_and_help_in_any_case() {
    assert_eq!(Command::parse_from("quit"), Ok(("", Command::Quit)));
    assert_eq!(Command::parse_from("Q"), Ok(("", Command::Quit)));
    assert_eq!(Command::parse_from("EXIT"), Ok(("", Command::Quit)));
    assert_eq!(Command::parse_from("help"), Ok(("", Command::Help)));
    assert_eq!(Command::parse_from("H"), Ok(("", Command::Help)));
}

#[test]
fn keeps_what_follows_the_command() {
    assert_eq!(Command::parse_from("group add more"), Ok((" more", Command::GroupAdd)));
    assert_eq!(Command::parse_from("listing"), Err(NoCommand));
    assert_eq!(Command::parse_from("todo listing"), Ok(("ing", Command::TodoList)));
    assert_eq!(Command::parse_from("qu"), Ok(("u", Command::Quit)));
    assert_eq!(Command::parse_from("hello"), Ok(("ello", Command::Help)));
}

#[test]
fn accepts_any_run_of_spaces_between_words() {
    assert_eq!(Command::parse_from("group \t\r\n add"), Ok(("", Command::GroupAdd)));
}

#[test]
fn entity_and_action_must_be_lower_case() {
    // the words are recognized in any case, but only lower case names a command
    assert_eq!(Command::parse_from("Group add"), Err(NoCommand));
    assert_eq!(Command::parse_from("group ADD"), Err(NoCommand));
    assert_eq!(Command::parse_from("TODO LIST"), Err(NoCommand));
}

#[test]
fn refuses_what_is_no_command() {
    assert_eq!(Command::parse_from(""), Err(NoCommand));
    assert_eq!(Command::parse_from("groupadd"), Err(NoCommand));
    assert_eq!(Command::parse_from("gr add"), Err(NoCommand));
    assert_eq!(Command::parse_from("todo"), Err(NoCommand));
    assert_eq!(Command::parse_from("x"), Err(NoCommand));
    assert_eq!(Command::parse_from("ö"), Err(NoCommand));
}

#[test]
fn the_first_matching_entity_word_is_taken() {
    // "todox" takes "todo" and then finds no space; "t" is not tried again
    assert_eq!(Command::parse_from("todox add"), Err(NoCommand));
    // "gx" takes "g" and then finds no space
    assert_eq!(Command::parse_from("gx add"), Err(NoCommand));
}

#[test]
fn a_line_must_be_a_whole_command() {
    assert_eq!(parse_command_line("todo add").unwrap(), Command::TodoAdd);
    let e = parse_command_line("todo add now").unwrap_err();
    assert_eq!(e.message, "you typed some extra stuff:  now");
    let e = parse_command_line("nothing").unwrap_err();
    assert_eq!(e.message, "invalid command: nothing\nFor a list of commands, type: <help/h>");
}

#[test]
fn smaller_grammar_parses_its_commands() {
    assert_eq!(parse_command("category add"), Ok(("", SmallCommand::CategoryAdd)));
    assert_eq!(parse_command("category   edit"), Ok(("", SmallCommand::CategoryEdit)));
    assert_eq!(parse_command("todo add!"), Ok(("!", SmallCommand::TodoAdd)));
    assert_eq!(parse_command("todo edit"), Ok(("", SmallCommand::TodoEdit)));
    assert_eq!(parse_command("q"), Ok(("", SmallCommand::Quit)));
    // "q" is tried before "quit"
    assert_eq!(parse_command("quit"), Ok(("uit", SmallCommand::Quit)));
    assert_eq!(parse_command("Q"), Ok(("", SmallCommand::Quit)));
    assert_eq!(parse_command("group add"), Err(NoCommand));
    assert_eq!(parse_command("todoadd"), Err(NoCommand));
}

#[test]
fn every_spelling_of_the_help_text_is_a_command() {
    let entities = [("group", true), ("g", true), ("todo", false), ("t", false)];
    let actions = [
        ("add", Command::GroupAdd, Command::TodoAdd),
        ("edit", Command::GroupEdit, Command::TodoEdit),
        ("list", Command::GroupList, Command::TodoList),
        ("ls", Command::GroupList, Command::TodoList),
        ("remove", Command::GroupRemove, Command::TodoRemove),
        ("rm", Command::GroupRemove, Command::TodoRemove),
    ];
    for (entity, is_group) in entities {
        for (action, group_cmd, todo_cmd) in actions {
            let line = format!("{} {}", entity, action);
            let expected = if is_group { group_cmd } else { todo_cmd };
            assert_eq!(parse_command_line(&line).unwrap(), expected, "{}", line);
        }
    }
    for word in ["quit", "q", "exit"] {
        assert_eq!(parse_command_line(word).unwrap(), Command::Quit);
    }
    for word in ["help", "h"] {
        assert_eq!(parse_command_line(word).unwrap(), Command::Help);
    }
}
