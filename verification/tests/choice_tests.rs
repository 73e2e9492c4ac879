use todo::model::{Color, Group, Progress, Urgency};
use todo::style::TermColour;
use todo::text::{decimal_string, parse_usize, str_le};
use todo::util::{
    choice_made, get_choice_index, invalid_input_error, opt_choice_index, opt_choice_made,
    options_as_string, sorted_options_as_string, ChoiceInfoPair, InputError,
};
use todo::UserInputtable;

fn pairs(words: &[&str]) -> Vec<ChoiceInfoPair<String>> {
    words.iter().map(|w| ChoiceInfoPair(w.to_string(), format!("{} info", w))).collect()
}

#[test]
fn invalid_input_error_keeps_the_message() {
    assert_eq!(invalid_input_error("bad").message, "bad");
}

#[test]
fn chooses_by_number_from_one() {
    let mut options = pairs(&["name", "color"]);
    assert_eq!(get_choice_index(&mut options, "1").unwrap(), 0);
    assert_eq!(get_choice_index(&mut options, "2").unwrap(), 1);
    assert_eq!(get_choice_index(&mut options, "+2").unwrap(), 1);
    assert_eq!(get_choice_index(&mut options, "002").unwrap(), 1);
}

#[test]
fn a_number_out_of_range_is_refused() {
    let mut options = pairs(&["name", "color"]);
    assert_eq!(get_choice_index(&mut options, "0").unwrap_err().message, "index out of bounds: 0");
    assert_eq!(get_choice_index(&mut options, "3").unwrap_err().message, "index out of bounds: 3");
    assert_eq!(get_choice_index(&mut options, "007").unwrap_err().message, "index out of bounds: 7");
}

#[test]
fn chooses_by_name_without_case() {
    let mut options = pairs(&["name", "color", "Color"]);
    assert_eq!(get_choice_index(&mut options, "COLOR").unwrap(), 1);
    assert_eq!(get_choice_index(&mut options, "name").unwrap(), 0);
    assert_eq!(get_choice_index(&mut options, "-1").unwrap_err().message, "invalid choice: -1");
    assert_eq!(get_choice_index(&mut options, "nom").unwrap_err().message, "invalid choice: nom");
}

#[test]
fn chooses_a_colour_by_name() {
    let mut colors = Color::variants().to_vec();
    let i = get_choice_index(&mut colors, "Bright-Red").unwrap();
    assert_eq!(colors[i], Color(TermColour::BrightRed));
    assert_eq!(Color(TermColour::Fixed(3)).inputtable_string(), "default");
}

#[test]
fn empty_answers() {
    let keep = |s: &str| -> Result<String, InputError> { Ok(s.to_uppercase()) };
    assert_eq!(choice_made(&keep, "").unwrap_err().message, "choice can't be empty");
    assert_eq!(choice_made(&keep, "ab").unwrap(), "AB");
    assert!(opt_choice_made(&keep, "").unwrap().is_none());
    assert_eq!(opt_choice_made(&keep, "ab").unwrap(), Some("AB".to_string()));
    let mut options = pairs(&["a", "b"]);
    assert_eq!(opt_choice_index(&mut options, "").unwrap(), None);
    assert_eq!(opt_choice_index(&mut options, "b").unwrap(), Some(1));
    assert!(opt_choice_index(&mut options, "c").is_err());
}

#[test]
fn lists_nothing_as_none() {
    let mut options: Vec<ChoiceInfoPair<String>> = Vec::new();
    assert_eq!(sorted_options_as_string(&mut options), "none :(");
}

#[test]
fn lists_sorted_numbered_options() {
    let mut options = pairs(&["name", "color", "due"]);
    let s = sorted_options_as_string(&mut options);
    assert_eq!(s, "1.\tcolor (color info)\n2.\tdue (due info)\n3.\tname (name info)");
    let words: Vec<&str> = options.iter().map(|p| p.0.as_str()).collect();
    assert_eq!(words, vec!["color", "due", "name"]);
}

#[test]
fn sorting_is_stable() {
    let mut options = vec![
        ChoiceInfoPair("b".to_string(), "1".to_string()),
        ChoiceInfoPair("a".to_string(), "2".to_string()),
        ChoiceInfoPair("b".to_string(), "3".to_string()),
        ChoiceInfoPair("a".to_string(), "4".to_string()),
    ];
    let s = sorted_options_as_string(&mut options);
    assert_eq!(s, "1.\ta (2)\n2.\ta (4)\n3.\tb (1)\n4.\tb (3)");
    // a sorted list stays as it is
    let again = sorted_options_as_string(&mut options);
    assert_eq!(again, s);
}

#[test]
fn lists_in_present_order() {
    let options = pairs(&["z", "a"]);
    assert_eq!(options_as_string(&options), "1.\tz (z info)\n2.\ta (a info)");
}

#[test]
fn urgencies_and_progress_sort_in_their_order() {
    let mut u = vec![Urgency::LongTerm, Urgency::High, Urgency::Low, Urgency::Medium];
    todo::sorting::sort_ranked(&mut u);
    assert_eq!(u, vec![Urgency::High, Urgency::Medium, Urgency::Low, Urgency::LongTerm]);
    let mut p = vec![Progress::Abandoned, Progress::InProgress, Progress::Done];
    todo::sorting::sort_ranked(&mut p);
    assert_eq!(p, Progress::all());
}

#[test]
fn groups_sort_by_name() {
    let mut groups = vec![
        Group::from("work".to_string(), Color(TermColour::Red)),
        Group::from("home".to_string(), Color(TermColour::Blue)),
    ];
    todo::sorting::sort_ranked(&mut groups);
    assert_eq!(groups[0].name, "home");
    assert_eq!(groups[0].cmp(&groups[1]), std::cmp::Ordering::Less);
    assert_eq!(groups[1].partial_cmp(&groups[0]), Some(std::cmp::Ordering::Greater));
}

#[test]
fn colours_sort_by_palette_index() {
    let a = Color(TermColour::White);
    let b = Color(TermColour::DarkGray);
    let c = Color(TermColour::RGB(0, 0, 0));
    assert_eq!(a.cmp(&b), std::cmp::Ordering::Less);
    assert_eq!(c.cmp(&Color(TermColour::Default)), std::cmp::Ordering::Greater);
    assert_eq!(Color(TermColour::Fixed(1)).cmp(&Color(TermColour::Red)), std::cmp::Ordering::Equal);
    assert_eq!(Color(TermColour::RGB(1, 2, 3)).cmp(&Color(TermColour::RGB(1, 3, 0))), std::cmp::Ordering::Less);
}

#[test]
fn numbers_read_and_written() {
    assert_eq!(parse_usize("42"), Some(42));
    assert_eq!(parse_usize("+7"), Some(7));
    assert_eq!(parse_usize("+"), None);
    assert_eq!(parse_usize(""), None);
    assert_eq!(parse_usize("-0"), None);
    assert_eq!(parse_usize("1 "), None);
    assert_eq!(parse_usize("99999999999999999999999"), None);
    assert_eq!(parse_usize(&usize::MAX.to_string()), Some(usize::MAX));
    assert_eq!(decimal_string(0), "0");
    assert_eq!(decimal_string(1203), "1203");
    assert_eq!(decimal_string(usize::MAX), usize::MAX.to_string());
}

#[test]
fn strings_compare_as_std_does() {
    for (a, b) in [("a", "b"), ("ab", "a"), ("", ""), ("Z", "a"), ("é", "z"), ("abc", "abd")] {
        assert_eq!(str_le(a, b), a <= b, "{} {}", a, b);
        assert_eq!(str_le(b, a), b <= a, "{} {}", b, a);
    }
}

#[test]
fn every_choice_name_chooses_its_value() {
    let mut colours = Color::variants().to_vec();
    for k in 0..colours.len() {
        let name = colours[k].inputtable_string();
        assert!(!name.is_empty() && name.parse::<usize>().is_err());
        assert_eq!(name, name.to_lowercase());
        assert_eq!(get_choice_index(&mut colours, &name).unwrap(), k);
    }
    let mut urgencies = Urgency::all();
    for k in 0..urgencies.len() {
        let name = urgencies[k].inputtable_string();
        assert_eq!(get_choice_index(&mut urgencies, &name).unwrap(), k);
    }
    let mut progresses = Progress::all();
    for k in 0..progresses.len() {
        let name = progresses[k].inputtable_string();
        assert_eq!(get_choice_index(&mut progresses, &name).unwrap(), k);
    }
}

#[test]
fn names_are_found_whatever_their_case() {
    let mut colours = Color::variants().to_vec();
    assert_eq!(get_choice_index(&mut colours, "Bright-GRAY").unwrap(), 15);
    let mut urgencies = Urgency::all();
    assert_eq!(get_choice_index(&mut urgencies, "LONG-term").unwrap(), 3);
    let mut progresses = Progress::all();
    assert_eq!(get_choice_index(&mut progresses, "In Progress").unwrap(), 0);
}
