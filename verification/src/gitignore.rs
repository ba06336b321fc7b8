//! Verdicts of `.gitignore` files on paths.
use vstd::prelude::*;
use ignore::gitignore::Gitignore;
use ignore::gitignore::GitignoreBuilder;
use crate::text::views;

verus! {

/// `ignore::gitignore::GitignoreBuilder`: collects the lines of the
/// `.gitignore` files of one directory. Nothing is known of its inside.
#[verifier::external_type_specification]
#[verifier::external_body]
pub struct ExGitignoreBuilder(GitignoreBuilder);

/// `ignore::gitignore::Gitignore`: the matcher that a builder builds.
/// Nothing is known of its inside.
#[verifier::external_type_specification]
#[verifier::external_body]
pub struct ExGitignore(Gitignore);

/// `ignore::Error`: why a matcher could not be built. Nothing is known of
/// its inside.
#[verifier::external_type_specification]
#[verifier::external_body]
pub struct ExIgnoreError(ignore::Error);

/// What a builder keeps of the directory it is made for: the path as
/// given, or with a leading `./` taken off.
pub uninterp spec fn kept_root(root: Seq<char>) -> Seq<char>;

/// What a builder keeps of a line of a `.gitignore` file: the text of the
/// glob, or nothing for a comment, a blank line and a line that is no valid
/// glob.
pub uninterp spec fn kept_glob(line: Seq<char>) -> Option<Seq<char>>;

/// The directory that a builder holds.
pub uninterp spec fn builder_root(b: GitignoreBuilder) -> Seq<char>;

/// The texts of the globs that a builder holds, in the order in which it
/// took them in.
pub uninterp spec fn builder_globs(b: GitignoreBuilder) -> Seq<Seq<char>>;

/// The directory that a matcher holds.
pub uninterp spec fn matcher_root(g: Gitignore) -> Seq<char>;

/// The texts of the globs that a matcher holds, in their order.
pub uninterp spec fn matcher_globs(g: Gitignore) -> Seq<Seq<char>>;

/// Whether a builder that holds the globs `globs` builds a matcher.
pub uninterp spec fn ignore_builds(globs: Seq<Seq<char>>) -> bool;

/// What a matcher that holds the directory `root` and the globs `globs`
/// says of `path`: `None` if no glob speaks of it, else whether the glob
/// that decides ignores the path (`true`) or whitelists it (`false`). Paths
/// are read as the platform reads them.
pub uninterp spec fn ignore_verdict(
    root: Seq<char>,
    globs: Seq<Seq<char>>,
    path: Seq<char>,
    is_dir: bool,
) -> Option<bool>;

/// A builder for the `.gitignore` rules of the directory `root`.
///
/// Trusted: `GitignoreBuilder::new`. The builder holds what it keeps of the
/// directory's path, and no glob yet.
#[verifier::external_body]
fn builder_new(root: &str) -> (b: GitignoreBuilder)
    ensures
        builder_root(b) == kept_root(root@),
        builder_globs(b) == Seq::<Seq<char>>::empty(),
{
    GitignoreBuilder::new(root)
}

/// Gives the builder one more line of a `.gitignore` file.
///
/// Trusted: `GitignoreBuilder::add_line`. The builder takes in the glob of
/// the line behind those it holds; a comment, a blank line and a line that
/// is no valid glob leave it as it was. The directory stays.
#[verifier::external_body]
fn builder_add_line(b: &mut GitignoreBuilder, line: &str)
    ensures
        builder_root(*final(b)) == builder_root(*old(b)),
        builder_globs(*final(b)) == match kept_glob(line@) {
            Some(glob) => builder_globs(*old(b)).push(glob),
            None => builder_globs(*old(b)),
        },
{
    let _ = b.add_line(None, line);
}

/// Builds the matcher.
///
/// Trusted: `GitignoreBuilder::build`. Whether it succeeds depends on the
/// globs alone; the matcher holds the builder's directory and globs.
#[verifier::external_body]
fn builder_build(b: &GitignoreBuilder) -> (r: Result<Gitignore, ignore::Error>)
    ensures
        r is Ok <==> ignore_builds(builder_globs(*b)),
        r matches Ok(g) ==> matcher_root(g) == builder_root(*b) && matcher_globs(g)
            == builder_globs(*b),
{
    b.build()
}

/// Asks the matcher about one path.
///
/// Trusted: `Gitignore::matched`. The result depends only on the directory
/// and the globs that the matcher holds, on the path and on whether it is a
/// directory.
#[verifier::external_body]
fn matcher_verdict(g: &Gitignore, path: &str, is_dir: bool) -> (v: Option<bool>)
    ensures
        v == ignore_verdict(matcher_root(*g), matcher_globs(*g), path@, is_dir),
{
    match g.matched(path, is_dir) {
        ignore::Match::None => None,
        ignore::Match::Ignore(_) => Some(true),
        ignore::Match::Whitelist(_) => Some(false),
    }
}

/// The globs that a builder holds after it was given the first `n` of
/// `lines`.
pub open spec fn kept_globs(lines: Seq<Seq<char>>, n: int) -> Seq<Seq<char>>
    decreases n,
{
    if n <= 0 || n > lines.len() {
        Seq::empty()
    } else {
        let before = kept_globs(lines, n - 1);
        match kept_glob(lines[n - 1]) {
            Some(glob) => before.push(glob),
            None => before,
        }
    }
}

/// The globs of a `.gitignore` file with the lines `lines`.
pub open spec fn globs_of(lines: Seq<Seq<char>>) -> Seq<Seq<char>> {
    kept_globs(lines, lines.len() as int)
}

/// The rules of one `.gitignore` file.
#[derive(Debug, Clone)]
pub struct IgnoreFile {
    /// The directory that holds the file.
    pub root: String,
    /// The lines of the file.
    pub lines: Vec<String>,
}

/// Mathematical value of an [`IgnoreFile`].
pub struct IgnoreFileView {
    pub root: Seq<char>,
    pub lines: Seq<Seq<char>>,
}

impl View for IgnoreFile {
    type V = IgnoreFileView;

    open spec fn view(&self) -> IgnoreFileView {
        IgnoreFileView { root: self.root@, lines: views(self.lines@) }
    }
}

/// What one `.gitignore` file says of `path`. A file whose globs build no
/// matcher says nothing.
pub open spec fn file_verdict(file: IgnoreFileView, path: Seq<char>, is_dir: bool) -> Option<
    bool,
> {
    if ignore_builds(globs_of(file.lines)) {
        ignore_verdict(kept_root(file.root), globs_of(file.lines), path, is_dir)
    } else {
        None
    }
}

/// What a list of `.gitignore` files says of `path`: the verdict of the last
/// file in the list that says anything.
pub open spec fn files_verdict(files: Seq<IgnoreFileView>, path: Seq<char>, is_dir: bool)
    -> Option<bool>
    decreases files.len(),
{
    if files.len() == 0 {
        None
    } else {
        match file_verdict(files.last(), path, is_dir) {
            Some(v) => Some(v),
            None => files_verdict(files.drop_last(), path, is_dir),
        }
    }
}

/// The matcher of one `.gitignore` file, ready to be asked about paths.
pub struct Matcher {
    /// The compiled rules; none if the globs build no matcher.
    compiled: Option<Gitignore>,
    /// What the matcher was made from.
    source: Ghost<IgnoreFileView>,
}

impl Matcher {
    /// The file that the matcher answers for.
    pub closed spec fn file(&self) -> IgnoreFileView {
        self.source@
    }

    #[verifier::type_invariant]
    spec fn consistent(self) -> bool {
        match self.compiled {
            Some(g) => ignore_builds(globs_of(self.source@.lines)) && matcher_root(g) == kept_root(
                self.source@.root,
            ) && matcher_globs(g) == globs_of(self.source@.lines),
            None => !ignore_builds(globs_of(self.source@.lines)),
        }
    }

    /// Compiles the rules of the file in directory `root` with the given
    /// lines.
    pub fn new(root: &str, lines: &Vec<String>) -> (m: Self)
        ensures
            m.file() == (IgnoreFileView { root: root@, lines: views(lines@) }),
    {
        let mut builder = builder_new(root);
        let mut i: usize = 0;
        while i < lines.len()
            invariant
                i <= lines.len(),
                builder_root(builder) == kept_root(root@),
                builder_globs(builder) == kept_globs(views(lines@), i as int),
            decreases lines.len() - i,
        {
            builder_add_line(&mut builder, lines[i].as_str());
            i += 1;
        }
        let compiled = match builder_build(&builder) {
            Ok(g) => Some(g),
            Err(_) => None,
        };
        Matcher { compiled, source: Ghost(IgnoreFileView { root: root@, lines: views(lines@) }) }
    }

    /// What the file says of `path`.
    pub fn verdict(&self, path: &str, is_dir: bool) -> (v: Option<bool>)
        ensures
            v == file_verdict(self.file(), path@, is_dir),
    {
        proof {
            use_type_invariant(self);
        }
        match &self.compiled {
            Some(g) => matcher_verdict(g, path, is_dir),
            None => None,
        }
    }
}

/// The files that a list of matchers answers for.
pub open spec fn matcher_files(matchers: Seq<Matcher>) -> Seq<IgnoreFileView> {
    Seq::new(matchers.len(), |i: int| matchers[i].file())
}

/// What the files say of `path`: later files in the list are asked first.
pub fn verdict_of(matchers: &Vec<Matcher>, path: &str, is_dir: bool) -> (v: Option<bool>)
    ensures
        v == files_verdict(matcher_files(matchers@), path@, is_dir),
{
    let ghost files = matcher_files(matchers@);
    let mut i: usize = matchers.len();
    assert(files.take(i as int) =~= files);
    while i > 0
        invariant
            i <= matchers.len(),
            files == matcher_files(matchers@),
            files_verdict(files, path@, is_dir) == files_verdict(files.take(i as int), path@, is_dir),
        decreases i,
    {
        i -= 1;
        let v = matchers[i].verdict(path, is_dir);
        proof {
            assert(files.take(i + 1).drop_last() =~= files.take(i as int));
        }
        if v.is_some() {
            return v;
        }
    }
    None
}

} // verus!
