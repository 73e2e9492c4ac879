//! A small to-do list manager: groups, to-do items, the command grammar of its
//! prompt and the choosing of options by number or by name.
pub mod text;
pub mod command;
pub mod util;
pub mod parser;
pub mod sorting;
pub mod style;
pub mod instant;
pub mod chrono_util;
pub mod model;
pub mod prompt;
pub mod session;

use vstd::prelude::*;

verus! {

/// A value that the user names by typing a string.
pub trait UserInputtable {
    /// The string that names this value.
    spec fn inputtable_view(&self) -> Seq<char>;

    /// The string that names this value.
    fn inputtable_string(&self) -> (s: String)
        ensures
            s@ == self.inputtable_view(),
    ;
}

} // verus!
