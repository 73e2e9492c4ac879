//! Choosing among options: reading a choice, listing options.
use vstd::prelude::*;

use crate::text::{
    chars_le, decimal, decimal_string, law_decimal_reads_back, lemma_chars_le_total, lemma_chars_le_transitive, lowercase,
    parse_usize, parsed_usize, str_le, to_lowercase,
};
use crate::sorting::{ordering_from, ordering_of, sort_ranked, sorted_ranked, Ranked};

use std::cmp::Ordering;
use crate::UserInputtable;

verus! {

/// A refused input, with the message that explains why.
#[derive(Clone, Debug)]
pub struct InputError {
    pub message: String,
}

/// The error for an invalid input, with the message `msg`.
pub fn invalid_input_error(msg: &str) -> (e: InputError)
    ensures
        e.message@ == msg@,
{
    InputError { message: String::from_str(msg) }
}

/// The message for a choice by number that names no option.
pub open spec fn index_out_of_bounds_message(i: nat) -> Seq<char> {
    "index out of bounds: "@ + decimal(i)
}

/// The message for a choice that names no option.
pub open spec fn invalid_choice_message(input: Seq<char>) -> Seq<char> {
    "invalid choice: "@ + input
}

/// `option` is named by `input`, the two compared in lower case.
pub open spec fn names_option<T: UserInputtable>(input: Seq<char>, option: T) -> bool {
    lowercase(input) == lowercase(option.inputtable_view())
}

/// `k` is the first position whose option `input` names.
pub open spec fn is_first_named<T: UserInputtable>(options: Seq<T>, input: Seq<char>, k: int) -> bool {
    &&& 0 <= k < options.len()
    &&& names_option(input, options[k])
    &&& forall|j: int| 0 <= j < k ==> !names_option(input, #[trigger] options[j])
}

/// The first position whose option `input` names, if there is one.
pub open spec fn first_named<T: UserInputtable>(options: Seq<T>, input: Seq<char>) -> Option<int> {
    if exists|k: int| #[trigger] is_first_named(options, input, k) {
        Some(choose|k: int| #[trigger] is_first_named(options, input, k))
    } else {
        None
    }
}

/// There is at most one first position that `input` names.
pub proof fn lemma_first_named_unique<T: UserInputtable>(options: Seq<T>, input: Seq<char>, k: int)
    requires
        is_first_named(options, input, k),
    ensures
        first_named(options, input) == Some(k),
{
    let c = choose|c: int| #[trigger] is_first_named(options, input, c);
    assert(is_first_named(options, input, c));
    if c < k {
        assert(!names_option(input, options[c]));
    } else if k < c {
        assert(!names_option(input, options[k]));
    }
}

/// The position that `input` chooses among `options`, or the message that
/// refuses it: a number from 1 to the number of options counts from the first
/// option; any other number is out of bounds; input that is no number chooses
/// the first option whose inputtable string equals it in lower case.
pub open spec fn choice_result<T: UserInputtable>(options: Seq<T>, input: Seq<char>) -> Result<int, Seq<char>> {
    match parsed_usize(input) {
        Some(i) => if 1 <= i <= options.len() {
            Ok(i - 1)
        } else {
            Err(index_out_of_bounds_message(i))
        },
        None => match first_named(options, input) {
            Some(k) => Ok(k),
            None => Err(invalid_choice_message(input)),
        },
    }
}

/// A chosen position is always one of the options.
pub proof fn law_choice_is_an_option<T: UserInputtable>(options: Seq<T>, input: Seq<char>)
    ensures
        choice_result(options, input) matches Ok(k) ==> 0 <= k < options.len(),
{
    if parsed_usize(input) is None && first_named(options, input) is Some {
        let k = choose|k: int| #[trigger] is_first_named(options, input, k);
        assert(is_first_named(options, input, k));
    }
}

/// The number that a listing shows beside an option (see [`numbered_line`])
/// chooses that option.
pub proof fn law_listed_number_chooses<T: UserInputtable>(options: Seq<T>, i: int)
    requires
        0 <= i < options.len(),
        options.len() <= usize::MAX,
    ensures
        choice_result(options, decimal((i + 1) as nat)) == Ok::<int, Seq<char>>(i),
{
    law_decimal_reads_back((i + 1) as nat);
}

/// The position of the option that `input` chooses, as [`choice_result`] says.
pub fn get_choice_index<T: UserInputtable>(options: &mut [T], input: &str) -> (r: Result<
    usize,
    InputError,
>)
    ensures
        final(options)@ == old(options)@,
        match choice_result(old(options)@, input@) {
            Ok(k) => r == Ok::<usize, InputError>(k as usize),
            Err(m) => r matches Err(e) && e.message@ == m,
        },
        r matches Ok(i) ==> choice_result(old(options)@, input@) == Ok::<int, Seq<char>>(i as int),
{
    proof {
        law_choice_is_an_option(old(options)@, input@);
    }
    match parse_usize(input) {
        Some(i) => {
            if i > 0 && i <= options.len() {
                Ok(i - 1)
            } else {
                let msg = String::from_str("index out of bounds: ").concat(decimal_string(i).as_str());
                Err(invalid_input_error(msg.as_str()))
            }
        },
        None => {
            let n = options.len();
            let mut k: usize = 0;
            while k < n
                invariant
                    n == options@.len(),
                    options@ == old(options)@,
                    parsed_usize(input@) is None,
                    k <= n,
                    forall|j: int| 0 <= j < k ==> !names_option(input@, #[trigger] options@[j]),
                decreases n - k,
            {
                let lowered_input = to_lowercase(input);
                let name = options[k].inputtable_string();
                let lowered_name = to_lowercase(name.as_str());
                if lowered_input == lowered_name {
                    assert(names_option(input@, old(options)@[k as int]));
                    proof {
                        lemma_first_named_unique(old(options)@, input@, k as int);
                    }
                    return Ok(k);
                }
                k = k + 1;
            }
            proof {
                if exists|c: int| #[trigger] is_first_named(old(options)@, input@, c) {
                    let c = choose|c: int| #[trigger] is_first_named(old(options)@, input@, c);
                    assert(!names_option(input@, options@[c]));
                }
            }
            let msg = String::from_str("invalid choice: ").concat(input);
            Err(invalid_input_error(msg.as_str()))
        },
    }
}

/// A value with a text to show it by (the text may hold terminal colour codes).
pub trait Displayed {
    /// The text that shows this value.
    spec fn display_view(&self) -> Seq<char>;

    /// The text that shows this value.
    fn display_string(&self) -> (s: String)
        ensures
            s@ == self.display_view(),
    ;
}

/// The line of the option at position `i`: its number from 1, a dot, a tab and
/// its text.
pub open spec fn numbered_line(i: nat, text: Seq<char>) -> Seq<char> {
    decimal(i + 1) + ".\t"@ + text
}

/// The numbered lines of `texts`, joined by line feeds.
pub open spec fn numbered_lines(texts: Seq<Seq<char>>) -> Seq<char>
    decreases texts.len(),
{
    if texts.len() == 0 {
        Seq::empty()
    } else if texts.len() == 1 {
        numbered_line(0, texts[0])
    } else {
        numbered_lines(texts.drop_last()) + "\n"@ + numbered_line(
            (texts.len() - 1) as nat,
            texts.last(),
        )
    }
}

/// The listing of options shown by `texts`: `none :(` when there is none,
/// else their numbered lines.
pub open spec fn options_listing(texts: Seq<Seq<char>>) -> Seq<char> {
    if texts.len() == 0 {
        "none :("@
    } else {
        numbered_lines(texts)
    }
}

/// The texts that show `options`, in order.
pub open spec fn display_views<T: Displayed>(options: Seq<T>) -> Seq<Seq<char>> {
    options.map_values(|o: T| o.display_view())
}

/// The views of `texts`, in order.
pub open spec fn string_views(texts: Seq<String>) -> Seq<Seq<char>> {
    texts.map_values(|t: String| t@)
}

/// The listing of the options shown by `texts`, in order.
pub fn listing(texts: &Vec<String>) -> (s: String)
    ensures
        s@ == options_listing(string_views(texts@)),
{
    let n = texts.len();
    if n == 0 {
        return String::from_str("none :(");
    }
    let ghost views = string_views(texts@);
    let mut s = String::new();
    let mut i: usize = 0;
    while i < n
        invariant
            n == texts@.len(),
            n > 0,
            views == string_views(texts@),
            i <= n,
            i == 0 ==> s@ == Seq::<char>::empty(),
            i > 0 ==> s@ == numbered_lines(views.take(i as int)),
        decreases n - i,
    {
        if i > 0 {
            s.append("\n");
        }
        let number = decimal_string(i + 1);
        s.append(number.as_str());
        s.append(".\t");
        s.append(texts[i].as_str());
        proof {
            let t = views.take(i + 1);
            assert(t.drop_last() =~= views.take(i as int));
            assert(t.last() == views[i as int]);
            if i == 0 {
                assert(s@ =~= numbered_line(0, t[0]));
            } else {
                assert(s@ =~= numbered_lines(t.drop_last()) + "\n"@ + numbered_line(i as nat, t.last()));
            }
        }
        i = i + 1;
    }
    assert(views.take(n as int) =~= views);
    s
}

/// The listing of `options` in their present order.
pub fn options_as_string<T: Displayed>(options: &[T]) -> (s: String)
    ensures
        s@ == options_listing(display_views(options@)),
{
    let n = options.len();
    let mut texts: Vec<String> = Vec::new();
    let mut i: usize = 0;
    while i < n
        invariant
            n == options@.len(),
            i <= n,
            texts@.len() == i,
            forall|j: int| 0 <= j < i ==> #[trigger] texts@[j]@ == options@[j].display_view(),
        decreases n - i,
    {
        texts.push(options[i].display_string());
        i = i + 1;
    }
    let s = listing(&texts);
    assert(string_views(texts@) =~= display_views(options@));
    s
}

/// Sorts `options` stably into rank order and lists them, numbered from 1.
pub fn sorted_options_as_string<T: Ranked + Displayed>(options: &mut [T]) -> (s: String)
    ensures
        final(options)@ == sorted_ranked(old(options)@),
        s@ == options_listing(display_views(final(options)@)),
{
    sort_ranked(options);
    options_as_string(options)
}

/// The message for an empty answer where one is required.
pub open spec fn empty_choice_message() -> Seq<char> {
    "choice can't be empty"@
}

/// The value that a required answer `input` stands for: an empty answer is
/// refused, any other is handed to `transform`.
pub fn choice_made<T, F: Fn(&str) -> Result<T, InputError>>(transform: &F, input: &str) -> (r: Result<T, InputError>)
    requires
        input@.len() > 0 ==> transform.requires((input,)),
    ensures
        input@.len() == 0 ==> (r matches Err(e) && e.message@ == empty_choice_message()),
        input@.len() > 0 ==> transform.ensures((input,), r),
{
    if input.is_empty() {
        Err(invalid_input_error("choice can't be empty"))
    } else {
        transform(input)
    }
}

/// The value that an optional answer `input` stands for: an empty answer
/// stands for none, any other is handed to `transform`.
pub fn opt_choice_made<T, F: Fn(&str) -> Result<T, InputError>>(transform: &F, input: &str) -> (r: Result<Option<T>, InputError>)
    requires
        input@.len() > 0 ==> transform.requires((input,)),
    ensures
        input@.len() == 0 ==> r matches Ok(None),
        input@.len() > 0 ==> exists|t: Result<T, InputError>| transform.ensures((input,), t) && match t {
            Ok(v) => r == Ok::<Option<T>, InputError>(Some(v)),
            Err(e) => r == Err::<Option<T>, InputError>(e),
        },
{
    if input.is_empty() {
        Ok(None)
    } else {
        match transform(input) {
            Ok(v) => Ok(Some(v)),
            Err(e) => Err(e),
        }
    }
}

/// The position of the option that an optional answer `input` chooses: an
/// empty answer chooses none, any other is read by [`get_choice_index`].
pub fn opt_choice_index<T: UserInputtable>(options: &mut [T], input: &str) -> (r: Result<Option<usize>, InputError>)
    ensures
        final(options)@ == old(options)@,
        input@.len() == 0 ==> r matches Ok(None),
        input@.len() > 0 ==> match choice_result(old(options)@, input@) {
            Ok(k) => r == Ok::<Option<usize>, InputError>(Some(k as usize)),
            Err(m) => r matches Err(e) && e.message@ == m,
        },
        r matches Ok(Some(i)) ==> input@.len() > 0 && choice_result(old(options)@, input@) == Ok::<
            int,
            Seq<char>,
        >(i as int),
{
    if input.is_empty() {
        Ok(None)
    } else {
        match get_choice_index(options, input) {
            Ok(i) => Ok(Some(i)),
            Err(e) => Err(e),
        }
    }
}

/// A choice offered to the user: the word that chooses it and what it is.
#[derive(PartialEq, Eq, Debug)]
pub struct ChoiceInfoPair<I>(pub String, pub I);

impl<I: Displayed> Displayed for ChoiceInfoPair<I> {
    /// `word (info)`.
    open spec fn display_view(&self) -> Seq<char> {
        self.0@ + " ("@ + self.1.display_view() + ")"@
    }

    fn display_string(&self) -> (s: String) {
        let info = self.1.display_string();
        String::from_str(self.0.as_str()).concat(" (").concat(info.as_str()).concat(")")
    }
}

impl<I> UserInputtable for ChoiceInfoPair<I> {
    /// A choice is chosen by its word.
    open spec fn inputtable_view(&self) -> Seq<char> {
        self.0@
    }

    fn inputtable_string(&self) -> (s: String) {
        self.0.clone()
    }
}

impl<I> Ranked for ChoiceInfoPair<I> {
    /// Choices are ordered by their words.
    open spec fn rank_le(self, other: Self) -> bool {
        chars_le(self.0@, other.0@)
    }

    proof fn lemma_rank_total(a: Self, b: Self) {
        lemma_chars_le_total(a.0@, b.0@);
    }

    proof fn lemma_rank_transitive(a: Self, b: Self, c: Self) {
        lemma_chars_le_transitive(a.0@, b.0@, c.0@);
    }

    fn ranks_le(&self, other: &Self) -> (r: bool) {
        str_le(self.0.as_str(), other.0.as_str())
    }
}

impl<I> ChoiceInfoPair<I> {
    /// Compares choices by their words.
    pub fn cmp(&self, other: &Self) -> (r: Ordering)
        ensures
            r == ordering_of(chars_le(self.0@, other.0@), chars_le(other.0@, self.0@)),
    {
        ordering_from(self.ranks_le(other), other.ranks_le(self))
    }

    /// The comparison of [`ChoiceInfoPair::cmp`], which relates every two choices.
    pub fn partial_cmp(&self, other: &Self) -> (r: Option<Ordering>)
        ensures
            r == Some(ordering_of(chars_le(self.0@, other.0@), chars_le(other.0@, self.0@))),
    {
        Some(self.cmp(other))
    }
}

/// A plain text, shown as it is.
impl Displayed for String {
    open spec fn display_view(&self) -> Seq<char> {
        self@
    }

    fn display_string(&self) -> (s: String) {
        self.clone()
    }
}

} // verus!
