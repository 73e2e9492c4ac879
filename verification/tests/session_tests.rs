use todo::model::{Color, Group, GroupRef, Progress, TodoData, Urgency};
use todo::session::{Reply, Session, Stage};
use todo::style::TermColour;
use todo::text::decimal_string;
use todo::util::{get_choice_index, Displayed};

fn session() -> Session {
    Session::new(TodoData::new())
}

fn answer(s: &mut Session, line: &str) -> Reply {
    s.step(line)
}

fn quiet(r: &Reply) -> bool {
    r.error.is_none() && !r.save && !r.quit
}

#[test]
fn adding_a_group_asks_name_then_colour() {
    let mut s = session();
    let r = answer(&mut s, "group add");
    assert!(quiet(&r));
    assert_eq!(r.output, "You're creating a new group!\n\nName?\n");
    assert!(matches!(s.stage, Stage::NewGroupName));

    let r = answer(&mut s, "work");
    assert!(quiet(&r));
    assert!(r.output.starts_with("\nColor? Options are:\n1.\t"));
    assert!(r.output.ends_with("\n"));
    assert_eq!(r.output.lines().filter(|l| !l.is_empty()).count(), 18);

    let r = answer(&mut s, "Bright-Red");
    assert!(r.error.is_none());
    assert!(r.save);
    assert!(!r.quit);
    assert_eq!(s.data.groups.len(), 1);
    assert_eq!(s.data.groups[0].name, "work");
    assert_eq!(s.data.groups[0].color, Color(TermColour::BrightRed));
    let shown = s.data.groups[0].display_string();
    assert_eq!(r.output, format!("\nDone! Created group: {}\n", shown));
    assert!(matches!(s.stage, Stage::Command));
}

#[test]
fn colours_are_offered_by_palette_index() {
    let mut s = session();
    answer(&mut s, "g add");
    answer(&mut s, "home");
    // the first colour offered is black, the last one the terminal's default
    let r = answer(&mut s, "17");
    assert!(r.save);
    assert_eq!(s.data.groups[0].color, Color(TermColour::Default));
}

#[test]
fn an_unknown_command_is_refused() {
    let mut s = session();
    let r = answer(&mut s, "bogus");
    assert_eq!(r.output, "");
    assert_eq!(r.error, Some("invalid command: bogus\nFor a list of commands, type: <help/h>".to_string()));
    assert!(!r.save);
    assert!(!r.quit);
    assert!(matches!(s.stage, Stage::Command));
}

#[test]
fn an_empty_name_is_refused_and_the_list_kept() {
    let mut s = session();
    answer(&mut s, "group add");
    let r = answer(&mut s, "");
    assert_eq!(r.error, Some("choice can't be empty".to_string()));
    assert!(!r.save);
    assert!(s.data.groups.is_empty());
    assert!(matches!(s.stage, Stage::Command));
}

#[test]
fn a_colour_out_of_range_is_refused() {
    let mut s = session();
    answer(&mut s, "group add");
    answer(&mut s, "work");
    let r = answer(&mut s, "18");
    assert_eq!(r.error, Some("index out of bounds: 18".to_string()));
    assert!(s.data.groups.is_empty());
    assert!(matches!(s.stage, Stage::Command));
}

#[test]
fn help_lists_the_commands() {
    let mut s = session();
    let r = answer(&mut s, "h");
    assert!(quiet(&r));
    assert_eq!(
        r.output,
        "Available commands:\n  - <todo/t> <add/edit/<list/ls>>\n  - <group/g> <add/edit/<list/ls>>\n  - <help/h>\n  - <quit/q/exit>\n"
    );
}

#[test]
fn quit_ends_the_session() {
    let mut s = session();
    let r = answer(&mut s, "exit");
    assert!(r.quit);
    assert!(r.error.is_none());
    assert!(!r.save);
    assert_eq!(r.output, "");
}

#[test]
fn removal_does_nothing() {
    let mut s = session();
    answer(&mut s, "group add");
    answer(&mut s, "work");
    answer(&mut s, "red");
    let r = answer(&mut s, "group rm");
    assert!(quiet(&r));
    assert_eq!(r.output, "");
    assert_eq!(s.data.groups.len(), 1);
}

#[test]
fn listing_an_empty_list() {
    let mut s = session();
    let r = answer(&mut s, "todo ls");
    assert_eq!(r.output, "none :(\n");
    let r = answer(&mut s, "group list");
    assert_eq!(r.output, "none :(\n");
}

#[test]
fn adding_a_todo_without_group_or_due_date() {
    let mut s = session();
    let r = answer(&mut s, "todo add");
    assert_eq!(r.output, "You're creating a new todo item!\n\nDescription?\n");
    let r = answer(&mut s, "buy milk");
    assert_eq!(r.output, "\nGroup (optional)? Options are:\nnone :(\n");
    let r = answer(&mut s, "");
    assert_eq!(r.output, "\nDue date and time (format YYYY-MM-DD HH:MM:SS) (optional)?\n");
    let r = answer(&mut s, "");
    assert!(r.output.starts_with("\nUrgency? Options are:\n1.\t"));
    let r = answer(&mut s, "high");
    assert!(r.save);
    assert_eq!(s.data.todos.len(), 1);
    let t = &s.data.todos[0];
    assert_eq!(t.description.0, "buy milk");
    assert_eq!(t.group, None);
    assert!(t.due.is_none());
    assert_eq!(t.urgency, Urgency::High);
    assert_eq!(t.progress, Progress::InProgress);
    let shown = t.display_with(None);
    assert_eq!(r.output, format!("\nDone! Created todo item: {}\n", shown));
}

#[test]
fn adding_a_todo_in_a_group_with_a_due_date() {
    let mut s = session();
    for line in ["group add", "work", "blue", "todo add", "report", "WORK", "2024-03-01 9:30:00", "2"] {
        let r = answer(&mut s, line);
        assert!(r.error.is_none(), "{} refused: {:?}", line, r.error);
    }
    let t = &s.data.todos[0];
    assert_eq!(t.group, Some(GroupRef(0)));
    assert!(t.due.is_some());
    assert_eq!(t.urgency, Urgency::Medium);
}

#[test]
fn a_due_date_that_is_no_date_is_refused() {
    let mut s = session();
    answer(&mut s, "todo add");
    answer(&mut s, "x");
    answer(&mut s, "");
    let r = answer(&mut s, "tomorrow");
    assert_eq!(r.error, Some("invalid date & time: tomorrow".to_string()));
    assert!(s.data.todos.is_empty());
    assert!(matches!(s.stage, Stage::Command));
}

#[test]
fn an_unknown_group_is_refused() {
    let mut s = session();
    answer(&mut s, "todo add");
    answer(&mut s, "x");
    let r = answer(&mut s, "nowhere");
    assert_eq!(r.error, Some("invalid choice: nowhere".to_string()));
    assert!(matches!(s.stage, Stage::Command));
}

#[test]
fn editing_a_todos_progress() {
    let mut s = session();
    for line in ["todo add", "a", "", "", "low", "todo add", "b", "", "", "high"] {
        answer(&mut s, line);
    }
    let r = answer(&mut s, "todo edit");
    assert!(r.output.starts_with("You're editing an existing todo item!\n\nTodo item to edit? Options are:\n1.\t"));
    // sorted by urgency within the same progress: b (high) comes first
    assert_eq!(s.data.todos[0].description.0, "b");
    let r = answer(&mut s, "b");
    assert!(r.output.starts_with("\nProperty to change? Options are:\n1.\tdesc ("));
    let r = answer(&mut s, "prog");
    assert!(r.output.starts_with("\nNew progress? Options are:\n1.\t"));
    let r = answer(&mut s, "done");
    assert!(r.save);
    assert_eq!(s.data.todos[0].progress, Progress::Done);
    assert_eq!(s.data.todos[1].progress, Progress::InProgress);
    let shown = s.data.todos[0].display_with(None);
    assert_eq!(r.output, format!("\nDone! Edited todo item: {}\n", shown));
}

#[test]
fn editing_a_todos_description_urgency_and_due_date() {
    let mut s = session();
    for line in ["todo add", "a", "", "", "low"] {
        answer(&mut s, line);
    }
    for line in ["todo edit", "1", "desc", "renamed"] {
        answer(&mut s, line);
    }
    assert_eq!(s.data.todos[0].description.0, "renamed");
    for line in ["t edit", "1", "urg", "long-term"] {
        answer(&mut s, line);
    }
    assert_eq!(s.data.todos[0].urgency, Urgency::LongTerm);
    for line in ["t edit", "1", "due", "2030-12-31 23:59:59"] {
        answer(&mut s, line);
    }
    assert!(s.data.todos[0].due.is_some());
    for line in ["t edit", "1", "due"] {
        answer(&mut s, line);
    }
    let r = answer(&mut s, "");
    assert!(r.save);
    assert!(s.data.todos[0].due.is_none());
}

#[test]
fn moving_a_todo_to_a_group_and_back() {
    let mut s = session();
    for line in ["group add", "work", "red", "todo add", "a", "", "", "low"] {
        answer(&mut s, line);
    }
    for line in ["todo edit", "a", "group", "work"] {
        answer(&mut s, line);
    }
    assert_eq!(s.data.todos[0].group, Some(GroupRef(0)));
    for line in ["todo edit", "a", "group", ""] {
        answer(&mut s, line);
    }
    assert_eq!(s.data.todos[0].group, None);
}

#[test]
fn editing_a_group_keeps_its_todos() {
    let mut s = session();
    for line in ["group add", "zoo", "red", "group add", "alpha", "blue", "todo add", "feed", "zoo", "", "high"] {
        let r = answer(&mut s, line);
        assert!(r.error.is_none(), "{} refused", line);
    }
    // choosing a group for the item listed the groups in order: alpha, zoo
    assert_eq!(s.data.groups[0].name, "alpha");
    assert_eq!(s.data.todos[0].group, Some(GroupRef(1)));
    let r = answer(&mut s, "group edit");
    assert!(r.output.starts_with("You're editing an existing group!\n\nGroup to edit? Options are:\n1.\t"));
    answer(&mut s, "zoo");
    let r = answer(&mut s, "name");
    assert_eq!(r.output, "\nNew name?\n");
    let r = answer(&mut s, "aardvarks");
    assert!(r.save);
    assert_eq!(s.data.groups[1].name, "aardvarks");
    assert_eq!(s.data.groups[1].color, Color(TermColour::Red));
    assert_eq!(s.data.group_of(s.data.todos[0].group).unwrap().name, "aardvarks");
    // the next listing sorts the groups again; the item follows its group
    answer(&mut s, "group list");
    assert_eq!(s.data.groups[0].name, "aardvarks");
    assert_eq!(s.data.todos[0].group, Some(GroupRef(0)));
}

#[test]
fn editing_a_groups_colour() {
    let mut s = session();
    for line in ["group add", "work", "red", "group edit", "1", "color"] {
        answer(&mut s, line);
    }
    let r = answer(&mut s, "green");
    assert!(r.save);
    assert_eq!(
        s.data.groups[0],
        Group { name: "work".to_string(), color: Color(TermColour::Green) }
    );
    let shown = s.data.groups[0].display_string();
    assert_eq!(r.output, format!("\nDone! Edited group: {}\n", shown));
}

#[test]
fn an_unknown_property_is_refused() {
    let mut s = session();
    for line in ["group add", "work", "red", "group edit", "work"] {
        answer(&mut s, line);
    }
    let r = answer(&mut s, "size");
    assert_eq!(r.error, Some("invalid choice: size".to_string()));
    assert!(matches!(s.stage, Stage::Command));
}

#[test]
fn the_listed_number_chooses_the_option() {
    let mut options = vec![Urgency::High, Urgency::Medium, Urgency::Low, Urgency::LongTerm];
    for i in 0..options.len() {
        let shown = decimal_string(i + 1);
        assert_eq!(get_choice_index(&mut options, &shown).unwrap(), i);
    }
}

#[test]
fn every_refusal_returns_to_the_command_prompt() {
    let dialogues: Vec<Vec<&str>> = vec![
        vec!["group add", "x", "mauve"],
        vec!["group edit", "1"],
        vec!["todo edit", "1"],
        vec!["todo add", "x", "", "", "extreme"],
        vec!["todo add", ""],
    ];
    for dialogue in dialogues {
        let mut s = session();
        let mut refused = false;
        for line in dialogue.iter() {
            let before_groups = s.data.groups.len();
            let before_todos = s.data.todos.len();
            let r = answer(&mut s, line);
            if r.error.is_some() {
                refused = true;
                assert!(!r.save);
                assert!(matches!(s.stage, Stage::Command));
                assert_eq!(s.data.groups.len(), before_groups);
                assert_eq!(s.data.todos.len(), before_todos);
            }
        }
        assert!(refused, "{:?} was not refused", dialogue);
    }
}
