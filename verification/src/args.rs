//! What the user can ask for on the command line.
use vstd::prelude::*;

verus! {

/// The options of the program.
#[derive(Debug, Clone)]
pub struct Args {
    /// Show abbreviations in place of icons.
    pub no_icons: bool,
    /// Where the scan starts; the working directory if not given.
    pub path: Option<String>,
    /// Print the matches and ask on the terminal, without the interactive
    /// interface.
    pub no_ui: bool,
    /// Delete without asking.
    pub delete_instantly: bool,
    /// Enter system paths too, and flag what is found there.
    pub dangerous: bool,
}

/// Mathematical value of an [`Args`].
pub struct ArgsView {
    pub no_icons: bool,
    pub path: Option<Seq<char>>,
    pub no_ui: bool,
    pub delete_instantly: bool,
    pub dangerous: bool,
}

impl View for Args {
    type V = ArgsView;

    open spec fn view(&self) -> ArgsView {
        ArgsView {
            no_icons: self.no_icons,
            path: match self.path {
                Some(p) => Some(p@),
                None => None,
            },
            no_ui: self.no_ui,
            delete_instantly: self.delete_instantly,
            dangerous: self.dangerous,
        }
    }
}

impl Args {
    /// The directory in which the scan starts: the one that was asked for,
    /// else the working directory.
    pub fn root(&self, working_dir: &str) -> (r: String)
        ensures
            r@ == match self@.path {
                Some(p) => p,
                None => working_dir@,
            },
    {
        match &self.path {
            Some(p) => p.clone(),
            None => working_dir.to_owned(),
        }
    }
}

/// What the user answered when asked whether to delete: only a `y`, in
/// either case and with white space around it or not, is a yes.
pub open spec fn is_yes(answer: Seq<char>) -> bool {
    answer == seq!['y'] || answer == seq!['Y']
}

/// Tells whether the trimmed answer of the user is a yes.
pub fn confirms(trimmed_answer: &str) -> (r: bool)
    ensures
        r == is_yes(trimmed_answer@),
{
    let n = trimmed_answer.unicode_len();
    if n == 1 {
        let c = trimmed_answer.get_char(0);
        proof {
            assert(trimmed_answer@ =~= seq![c]);
        }
        c == 'y' || c == 'Y'
    } else {
        false
    }
}

} // verus!
