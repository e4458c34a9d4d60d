//! Which objects of a data source a listing returns.

use regex::Regex;
use vstd::prelude::*;
use vstd::string::StringExecFns;

verus! {

/// Whether `pattern` is a regular expression that can be compiled: one that is
/// well formed and does not compile to more than the default size limit.
pub uninterp spec fn regex_valid(pattern: Seq<char>) -> bool;

/// Whether the regular expression `pattern`, which can be compiled, has a match
/// anywhere in `text`.
pub uninterp spec fn regex_matches(pattern: Seq<char>, text: Seq<char>) -> bool;

/// Compiles `pattern` with `regex::Regex::new` and searches `text` with
/// `Regex::is_match`. The result is `None` where the pattern does not compile, and
/// otherwise says whether a match was found; both depend on the two strings alone.
#[verifier::external_body]
fn regex_is_match(pattern: &str, text: &str) -> (matched: Option<bool>)
    ensures
        regex_valid(pattern@) ==> matched == Some(regex_matches(pattern@, text@)),
        !regex_valid(pattern@) ==> matched == None::<bool>,
{
    match Regex::new(pattern) {
        Ok(regex) => Some(regex.is_match(text)),
        Err(_) => None,
    }
}

/// What a listing starts from.
#[derive(Debug, Clone, PartialEq, Eq)]
pub enum Source {
    /// One file, named relative to the listing's path.
    Filename(String),
    /// Every entry of the directory at the listing's path.
    Dir,
}

/// What has to be fetched from the object store.
#[derive(Debug, Clone, PartialEq, Eq)]
pub enum Listing {
    /// The one object at this path.
    Object(String),
    /// The entries of the directory at this path, to be filtered by name.
    Directory(String),
}

impl Listing {
    /// Whether this is the one object at `path`.
    pub open spec fn is_object_at(self, path: Seq<char>) -> bool {
        self matches Listing::Object(object) && object@ == path
    }

    /// Whether this is the directory at `path`.
    pub open spec fn is_directory_at(self, path: Seq<char>) -> bool {
        self matches Listing::Directory(dir) && dir@ == path
    }
}

/// What a [`Lister`] stands for.
pub struct ListerView {
    pub source: Source,
    pub path: Seq<char>,
    pub regex: Option<Seq<char>>,
}

impl ListerView {
    /// Whether a directory entry named `name` is part of the listing: every entry
    /// is where there is no pattern, and else those in whose name the pattern
    /// has a match.
    pub open spec fn accepts(self, name: Seq<char>) -> bool {
        self.regex matches Some(pattern) ==> regex_matches(pattern, name)
    }

    /// The test that keeps the accepted names.
    pub open spec fn accepting(self) -> spec_fn(String) -> bool {
        |name: String| self.accepts(name@)
    }
}

/// The text of `regex`, if there is one.
pub open spec fn pattern_of(regex: Option<String>) -> Option<Seq<char>> {
    match regex {
        Some(pattern) => Some(pattern@),
        None => None,
    }
}

/// A listing of the objects of a data source.
pub struct Lister {
    source: Source,
    path: String,
    regex: Option<String>,
}

impl View for Lister {
    type V = ListerView;

    closed spec fn view(&self) -> ListerView {
        ListerView {
            source: self.source,
            path: self.path@,
            regex: pattern_of(self.regex),
        }
    }
}

impl Lister {
    #[verifier::type_invariant]
    spec fn pattern_compiles(self) -> bool {
        self.regex matches Some(pattern) ==> regex_valid(pattern@)
    }

    /// A listing from `source` at `path` that keeps the directory entries in whose
    /// name `regex` has a match. There is none where `regex` does not compile.
    pub fn new(source: Source, path: String, regex: Option<String>) -> (lister: Option<Lister>)
        ensures
            lister is Some <==> (regex matches Some(pattern) ==> regex_valid(pattern@)),
            lister is Some ==> lister->0@ == (ListerView {
                source,
                path: path@,
                regex: pattern_of(regex),
            }),
    {
        let compiles = match &regex {
            Some(pattern) => regex_is_match(pattern.as_str(), "").is_some(),
            None => true,
        };
        if compiles {
            Some(Lister { source, path, regex })
        } else {
            None
        }
    }

    /// Whether the directory entry named `name` is part of the listing.
    pub fn accepts(&self, name: &str) -> (accepted: bool)
        ensures
            accepted == self@.accepts(name@),
    {
        proof {
            use_type_invariant(self);
        }
        match &self.regex {
            Some(pattern) => match regex_is_match(pattern.as_str(), name) {
                Some(matched) => matched,
                None => false,
            },
            None => true,
        }
    }

    /// What has to be fetched: the object at the path followed by the file name, or
    /// the directory at the path.
    pub fn list(&self) -> (listing: Listing)
        ensures
            self@.source matches Source::Filename(filename) ==> listing.is_object_at(
                self@.path + filename@,
            ),
            self@.source is Dir ==> listing.is_directory_at(self@.path),
    {
        match &self.source {
            Source::Filename(filename) => Listing::Object(
                self.path.clone().concat(filename.as_str()),
            ),
            Source::Dir => Listing::Directory(self.path.clone()),
        }
    }

    /// For each of `names`, whether it is part of the listing.
    pub fn marks(&self, names: &Vec<String>) -> (marks: Vec<bool>)
        ensures
            marks@.len() == names@.len(),
            forall|i: int| 0 <= i < names@.len() ==> marks@[i] == self@.accepts(#[trigger] names@[i]@),
    {
        let mut marks: Vec<bool> = Vec::new();
        let mut i: usize = 0;
        while i < names.len()
            invariant
                0 <= i <= names.len(),
                marks@.len() == i,
                forall|j: int| 0 <= j < i ==> marks@[j] == self@.accepts(#[trigger] names@[j]@),
            decreases names.len() - i,
        {
            marks.push(self.accepts(names[i].as_str()));
            i += 1;
        }
        marks
    }

    /// The names of `names` that are part of the listing, in their order.
    pub fn select(&self, names: Vec<String>) -> (selected: Vec<String>)
        ensures
            selected@ == names@.filter(self@.accepting()),
    {
        let marks = self.marks(&names);
        proof {
            lemma_marked_is_filter(names@, marks@, self@.accepting());
        }
        retain_marked(names, &marks)
    }
}

/// The items of `items` whose mark is set, in their order. An item without a mark
/// is left out.
pub open spec fn marked<T>(items: Seq<T>, marks: Seq<bool>) -> Seq<T>
    decreases items.len(),
{
    if items.len() == 0 {
        items
    } else {
        let front = marked(items.drop_last(), marks);
        if items.len() <= marks.len() && marks[items.len() - 1] {
            front.push(items.last())
        } else {
            front
        }
    }
}

/// Where every item has a mark, and the mark says whether the item passes `test`,
/// the marked items are those that `filter` keeps.
pub proof fn lemma_marked_is_filter<T>(items: Seq<T>, marks: Seq<bool>, test: spec_fn(T) -> bool)
    requires
        items.len() <= marks.len(),
        forall|i: int| 0 <= i < items.len() ==> marks[i] == test(#[trigger] items[i]),
    ensures
        marked(items, marks) == items.filter(test),
    decreases items.len(),
{
    reveal(Seq::filter);
    if items.len() > 0 {
        lemma_marked_is_filter(items.drop_last(), marks, test);
        assert(items.last() == items[items.len() - 1]);
    }
}

/// Keeps the items of `items` whose mark in `marks` is set.
pub fn retain_marked<T>(items: Vec<T>, marks: &Vec<bool>) -> (kept: Vec<T>)
    ensures
        kept@ == marked(items@, marks@),
{
    let ghost all = items@;
    let mut kept: Vec<T> = Vec::new();
    let mut i: usize = 0;
    assert(all.len() == items.len());
    for item in it: items.into_iter()
        invariant
            it.seq() == all,
            all.len() <= usize::MAX,
            i == it.index(),
            kept@ == marked(all.take(it.index() as int), marks@),
    {
        proof {
            let n = it.index() as int;
            assert(all.take(n + 1).drop_last() =~= all.take(n));
        }
        if i < marks.len() && marks[i] {
            kept.push(item);
        }
        i += 1;
    }
    proof {
        assert(all.take(all.len() as int) =~= all);
    }
    kept
}

} // verus!
