use todo::chrono_util::datetime_from_input;
use todo::instant::Instant;
use todo::model::{
    Color, Description, Group, GroupRef, Progress, TodoData, TodoDataSaved, TodoItem,
    TodoItemSaved, Urgency,
};
use todo::style::{paint, TermColour};
use todo::util::Displayed;
use todo::UserInputtable;

fn at(secs: i64) -> Instant {
    Instant::from_parts(secs, 0, 0).unwrap()
}

fn item(desc: &str, group: Option<usize>, due: Option<i64>, urgency: Urgency, progress: Progress) -> TodoItem {
    TodoItem {
        description: Description(desc.to_string()),
        group: group.map(GroupRef),
        due: due.map(at),
        urgency,
        progress,
        created: at(0),
    }
}

#[test]
fn paints_with_ansi_codes() {
    assert_eq!(paint(TermColour::Red, false, false, "hi"), "\x1b[31mhi\x1b[0m");
    assert_eq!(paint(TermColour::Red, false, true, "hi"), "\x1b[2;31mhi\x1b[0m");
    assert_eq!(paint(TermColour::White, true, false, "hi"), "\x1b[1;37mhi\x1b[0m");
    assert_eq!(paint(TermColour::Fixed(200), false, false, "x"), "\x1b[38;5;200mx\x1b[0m");
}

#[test]
fn shows_values_in_their_colours() {
    assert_eq!(Description("milk".to_string()).display_string(), "\x1b[1;37mmilk\x1b[0m");
    assert_eq!(Urgency::High.display_string(), "\x1b[31mhigh\x1b[0m");
    assert_eq!(Urgency::LongTerm.display_string(), "\x1b[34mlong-term\x1b[0m");
    assert_eq!(Progress::Done.display_string(), "\x1b[92mdone\x1b[0m");
    assert_eq!(Progress::Abandoned.display_string(), "\x1b[2;31mabandoned\x1b[0m");
    assert_eq!(Color(TermColour::Default).display_string(), "\x1b[39mdefault\x1b[0m");
    let g = Group::from("home".to_string(), Color(TermColour::Green));
    assert_eq!(g.display_string(), "\x1b[32mhome\x1b[0m");
    assert_eq!(g.inputtable_string(), "home");
}

#[test]
fn names_for_choosing() {
    assert_eq!(Urgency::LongTerm.inputtable_string(), "long-term");
    assert_eq!(Progress::InProgress.inputtable_string(), "in progress");
    assert_eq!(Color(TermColour::DarkGray).inputtable_string(), "dark-gray");
    assert_eq!(Color::variants().len(), 17);
    assert_eq!(Urgency::all().len(), 4);
}

#[test]
fn shows_moments_in_their_local_time() {
    let i = Instant::from_parts(0, 0, 3600).unwrap();
    assert_eq!(i.local_text(), "Thu Jan 1, 1970 at 1:00:00 am");
    assert_eq!(i.display_string(), "\x1b[93mThu Jan 1, 1970 at 1:00:00 am\x1b[0m");
    let u = i.to_utc();
    assert_eq!(u.utc_offset(), 0);
    assert_eq!(u.timestamp(), 0);
    assert!(Instant::from_parts(0, 0, 86_400).is_none());
    assert!(Instant::from_parts(0, 2_000_000_000, 0).is_none());
    assert!(Instant::from_parts(i64::MAX, 0, 0).is_none());
}

#[test]
fn reads_moments_typed_by_the_user() {
    let e = Instant::from_input("tomorrow").unwrap_err();
    assert_eq!(e.message, "invalid date & time: tomorrow");
    match Instant::from_input("2024-03-05 7:08:09") {
        Ok(_) => {}
        Err(e) => assert!(e.message.starts_with("this date & time is invalid because")),
    }
    // a date alone is no date and time
    assert!(datetime_from_input("2024-03-05").is_none());
}

#[test]
fn a_typed_moment_reads_back_as_typed_in_local_time() {
    // 2024-03-01 09:30:00 taken at UTC is 1709285400 seconds after the epoch
    match Instant::from_input("2024-03-01 9:30:00") {
        Ok(i) => {
            assert_eq!(i.timestamp() + i.utc_offset() as i64, 1_709_285_400);
            assert_eq!(i.timestamp_subsec_nanos(), 0);
        }
        Err(e) => assert!(e.message.starts_with("this date & time is invalid because")),
    }
    // a leap second is kept as a second of more than 10^9 nanoseconds
    match Instant::from_input("2016-12-31 23:59:60") {
        Ok(i) => {
            assert_eq!(i.timestamp() + i.utc_offset() as i64, 1_483_228_799);
            assert_eq!(i.timestamp_subsec_nanos(), 1_000_000_000);
        }
        Err(e) => assert!(e.message.starts_with("this date & time is invalid because")),
    }
}

#[test]
fn shows_a_todo_with_its_group() {
    let g = Group::from("home".to_string(), Color(TermColour::Green));
    let t = item("milk", Some(0), None, Urgency::Low, Progress::InProgress);
    assert_eq!(
        t.display_with(Some(&g)),
        "[\x1b[32mhome\x1b[0m] \x1b[1;37mmilk\x1b[0m (\x1b[32mlow\x1b[0m urgency) is \x1b[94min progress\x1b[0m"
    );
    let t = item("tax", None, Some(0), Urgency::High, Progress::Done);
    assert_eq!(
        t.display_with(None),
        "\x1b[1;37mtax\x1b[0m due \x1b[93mThu Jan 1, 1970 at 12:00:00 am\x1b[0m (\x1b[31mhigh\x1b[0m urgency) is \x1b[92mdone\x1b[0m"
    );
}

#[test]
fn todos_order_by_progress_due_urgency_description() {
    let a = item("a", None, None, Urgency::Low, Progress::InProgress);
    let b = item("b", None, None, Urgency::High, Progress::Done);
    assert_eq!(a.cmp(&b), std::cmp::Ordering::Less);
    let c = item("c", None, Some(10), Urgency::High, Progress::InProgress);
    assert_eq!(a.cmp(&c), std::cmp::Ordering::Less); // no due date comes first
    let d = item("d", None, Some(5), Urgency::Low, Progress::InProgress);
    assert_eq!(d.cmp(&c), std::cmp::Ordering::Less); // earlier due date first
    let e = item("e", None, Some(10), Urgency::Medium, Progress::InProgress);
    assert_eq!(c.cmp(&e), std::cmp::Ordering::Less); // then urgency
    let f = item("f", None, Some(10), Urgency::Medium, Progress::InProgress);
    assert_eq!(e.cmp(&f), std::cmp::Ordering::Less); // then description
    assert_eq!(f.cmp(&f), std::cmp::Ordering::Equal);
    assert_eq!(f.partial_cmp(&e), Some(std::cmp::Ordering::Greater));
}

#[test]
fn lists_todos_sorted_with_their_groups() {
    let mut data = TodoData::new();
    data.add_group(Group::from("home".to_string(), Color(TermColour::Green)));
    data.add_todo(item("b", Some(0), None, Urgency::Low, Progress::Done));
    data.add_todo(item("a", None, None, Urgency::Low, Progress::InProgress));
    let s = data.todos_as_string();
    assert_eq!(
        s,
        "1.\t\x1b[1;37ma\x1b[0m (\x1b[32mlow\x1b[0m urgency) is \x1b[94min progress\x1b[0m\n\
         2.\t[\x1b[32mhome\x1b[0m] \x1b[1;37mb\x1b[0m (\x1b[32mlow\x1b[0m urgency) is \x1b[92mdone\x1b[0m"
    );
    assert_eq!(data.todos[0].description.0, "a");
    let empty = TodoData::new().todos_listing();
    assert_eq!(empty, "none :(");
}

#[test]
fn sorting_groups_keeps_each_todos_group() {
    let mut data = TodoData::new();
    data.add_group(Group::from("work".to_string(), Color(TermColour::Red)));
    data.add_group(Group::from("home".to_string(), Color(TermColour::Blue)));
    data.add_group(Group::from("gym".to_string(), Color(TermColour::Green)));
    data.add_todo(item("report", Some(0), None, Urgency::High, Progress::InProgress));
    data.add_todo(item("dishes", Some(1), None, Urgency::Low, Progress::InProgress));
    data.add_todo(item("run", Some(2), None, Urgency::Low, Progress::InProgress));
    data.add_todo(item("free", None, None, Urgency::Low, Progress::InProgress));
    let s = data.groups_as_string();
    assert_eq!(s, "1.\t\x1b[32mgym\x1b[0m\n2.\t\x1b[34mhome\x1b[0m\n3.\t\x1b[31mwork\x1b[0m");
    let names: Vec<&str> = data.groups.iter().map(|g| g.name.as_str()).collect();
    assert_eq!(names, vec!["gym", "home", "work"]);
    assert_eq!(data.group_of(data.todos[0].group).unwrap().name, "work");
    assert_eq!(data.group_of(data.todos[1].group).unwrap().name, "home");
    assert_eq!(data.group_of(data.todos[2].group).unwrap().name, "gym");
    assert!(data.todos[3].group.is_none());
}

#[test]
fn saving_and_loading_keep_the_list() {
    let mut data = TodoData::new();
    data.add_group(Group::from("home".to_string(), Color(TermColour::Green)));
    data.add_todo(item("milk", Some(0), Some(3), Urgency::Medium, Progress::Done));
    data.add_todo(item("tax", None, None, Urgency::High, Progress::InProgress));
    let saved = TodoDataSaved::from_unsaved(&data);
    assert_eq!(saved.todos[0].group_index, Some(0));
    assert_eq!(saved.todos[1].group_index, None);
    assert_eq!(saved.todos[0].desc.0, "milk");
    let back = saved.to_unsaved();
    assert_eq!(back.groups, data.groups);
    assert_eq!(back.todos.len(), 2);
    assert_eq!(back.todos[0].group, Some(GroupRef(0)));
    assert_eq!(back.todos[0].description.0, "milk");
    assert_eq!(back.todos[0].urgency, Urgency::Medium);
    assert_eq!(back.todos[0].due.unwrap().timestamp(), 3);
    assert_eq!(back.todos[1].group, None);
}

#[test]
fn loading_drops_groups_out_of_range() {
    let saved = TodoDataSaved {
        groups: vec![Group::from("home".to_string(), Color(TermColour::Green))],
        todos: vec![TodoItemSaved {
            desc: Description("x".to_string()),
            group_index: Some(5),
            due: None,
            urgency: Urgency::Low,
            progress: Progress::Abandoned,
            created: at(1),
        }],
    };
    let data = saved.to_unsaved();
    assert_eq!(data.todos[0].group, None);
}

#[test]
fn a_new_todo_is_in_progress() {
    let t = TodoItem::from(Description("x".to_string()), None, None, Urgency::High);
    assert_eq!(t.progress, Progress::InProgress);
    assert_eq!(t.inputtable_string(), "x");
}

#[test]
fn what_the_time_zone_gives_is_kept_or_refused() {
    let i = Instant::from_local(Some((3600, 0, 7200)), "x").unwrap();
    assert_eq!((i.timestamp(), i.timestamp_subsec_nanos(), i.utc_offset()), (3600, 0, 7200));
    let e = Instant::from_local(None, "x").unwrap_err();
    assert_eq!(
        e.message,
        "this date & time is invalid because it falls on a daylight savings time border: x"
    );
    // a leap second's nanoseconds on a second other than 59 make no moment
    let e = Instant::from_local(Some((3601, 1_000_000_000, -3599)), "y").unwrap_err();
    assert_eq!(e.message, "invalid date & time: y");
}
