//! The working directory of a new server: its name, and its place under the
//! root of the working directories.

use rand::distributions::Alphanumeric;
use rand::Rng;
use vstd::prelude::*;
use vstd::string::StrSliceExecFns;
use vstd::string::StringExecFns;

verus! {

/// The path of `name` inside the directory `dir`.
///
/// A name that starts at the root stands for itself. Otherwise the name
/// follows the directory, with one `/` between them unless the directory is
/// empty or ends in `/` already.
pub open spec fn child_path(dir: Seq<char>, name: Seq<char>) -> Seq<char> {
    if name.len() > 0 && name[0] == '/' {
        name
    } else if dir.len() == 0 || dir.last() == '/' {
        dir + name
    } else {
        dir + seq!['/'] + name
    }
}

/// Builds the path of `name` inside the directory `dir`.
pub fn join_path(dir: &str, name: &str) -> (path: String)
    ensures
        path@ == child_path(dir@, name@),
{
    proof {
        reveal_strlit("/");
    }
    let name_length = name.unicode_len();
    if name_length > 0 && name.get_char(0) == '/' {
        return name.to_owned();
    }
    let dir_length = dir.unicode_len();
    let mut path = dir.to_owned();
    if dir_length > 0 && dir.get_char(dir_length - 1) != '/' {
        path.append("/");
        assert("/"@ =~= seq!['/']);
    }
    path.append(name);
    path
}

/// The number of random characters at the end of a workspace name.
pub const SUFFIX_LENGTH: usize = 7;

/// The letters and digits of ASCII.
pub open spec fn is_alphanumeric(c: char) -> bool {
    ||| '0' <= c <= '9'
    ||| 'a' <= c <= 'z'
    ||| 'A' <= c <= 'Z'
}

/// The digits of ASCII.
pub open spec fn is_digit(c: char) -> bool {
    '0' <= c <= '9'
}

/// The end of a workspace name: seven letters or digits.
pub open spec fn is_suffix(s: Seq<char>) -> bool {
    &&& s.len() == SUFFIX_LENGTH
    &&& forall|i: int| 0 <= i < s.len() ==> is_alphanumeric(#[trigger] s[i])
}

/// The start of a workspace name: year, month and day, then hour, minute and
/// second, two digits each, with `_` after the date and after the time.
pub open spec fn is_stamp(s: Seq<char>) -> bool {
    &&& s.len() == 14
    &&& s[6] == '_'
    &&& s[13] == '_'
    &&& forall|i: int| 0 <= i < 13 && i != 6 ==> is_digit(#[trigger] s[i])
}

/// The pattern of a stamp, in the notation of `strftime`.
pub const STAMP_PATTERN: &'static str = "%y%m%d_%H%M%S_";

/// The second that lies `unix_seconds` after the start of 1970 in UTC,
/// written after `pattern`, where the calendar reaches that far.
pub uninterp spec fn timestamp_text(unix_seconds: i64, pattern: Seq<char>) -> Option<Seq<char>>;

/// Calls `chrono::DateTime::from_timestamp` on the second, then
/// `chrono::DateTime::format` with the pattern.
///
/// Trusted: the result depends on the arguments alone; a second is turned
/// down only where it lies outside the calendar, which holds every second
/// from 1970 to the end of 9999; with the pattern of a stamp, each of the
/// six fields is written with two digits, and the pattern's two `_` stand
/// where it has them.
#[verifier::external_body]
fn format_timestamp(unix_seconds: i64, pattern: &str) -> (stamp: Option<String>)
    requires
        pattern@ == STAMP_PATTERN@,
    ensures
        stamp is Some <==> timestamp_text(unix_seconds, pattern@) is Some,
        stamp matches Some(text) ==> timestamp_text(unix_seconds, pattern@) == Some(text@)
            && is_stamp(text@),
        0 <= unix_seconds < 253_402_300_800 ==> stamp is Some,
{
    match chrono::DateTime::from_timestamp(unix_seconds, 0) {
        Some(time) => Some(time.format(pattern).to_string()),
        None => None,
    }
}

/// Calls `rand::Rng::sample` on `rand::thread_rng()` with the distribution
/// `rand::distributions::Alphanumeric`.
///
/// Trusted: the result is one character, a letter or a digit of ASCII. Which
/// one is left open, so two calls may differ.
#[verifier::external_body]
fn random_alphanumeric() -> (drawn: String)
    ensures
        drawn@.len() == 1,
        is_alphanumeric(drawn@[0]),
{
    char::from(rand::thread_rng().sample(Alphanumeric)).to_string()
}

/// Draws the random end of a workspace name.
pub fn random_suffix() -> (suffix: String)
    ensures
        is_suffix(suffix@),
{
    let mut suffix = String::new();
    let mut drawn: usize = 0;
    while drawn < SUFFIX_LENGTH
        invariant
            drawn <= SUFFIX_LENGTH,
            suffix@.len() == drawn,
            forall|i: int| 0 <= i < suffix@.len() ==> is_alphanumeric(#[trigger] suffix@[i]),
        decreases SUFFIX_LENGTH - drawn,
    {
        let next = random_alphanumeric();
        suffix.append(next.as_str());
        drawn = drawn + 1;
    }
    suffix
}

/// A workspace name: a stamp, then a random suffix.
pub open spec fn is_workspace_name(name: Seq<char>, stamp: Seq<char>) -> bool {
    &&& name.len() == stamp.len() + SUFFIX_LENGTH
    &&& name.subrange(0, stamp.len() as int) == stamp
    &&& is_suffix(name.subrange(stamp.len() as int, name.len() as int))
}

/// The search for a directory name that is not in use yet under the root of
/// the working directories.
///
/// The stamp is taken once, when the search begins. Each name that turns out
/// to be in use is replaced by one with the same stamp and a new suffix.
pub struct UniqueDirectory {
    working_dir: String,
    stamp: String,
    name: String,
}

/// A `UniqueDirectory` over plain text.
pub struct UniqueDirectoryView {
    /// The root of the working directories.
    pub working_dir: Seq<char>,
    /// The stamp that every candidate starts with.
    pub stamp: Seq<char>,
    /// The name that is proposed now.
    pub name: Seq<char>,
}

/// What follows the check of a candidate.
pub enum Naming {
    /// The candidate was free: this is the path of the new directory.
    Settled(String),
    /// The candidate was in use: the next one has to be checked.
    Retry(UniqueDirectory),
}

impl View for UniqueDirectory {
    type V = UniqueDirectoryView;

    closed spec fn view(&self) -> UniqueDirectoryView {
        UniqueDirectoryView {
            working_dir: self.working_dir@,
            stamp: self.stamp@,
            name: self.name@,
        }
    }
}

impl UniqueDirectory {
    /// The path of the candidate.
    pub open spec fn path(&self) -> Seq<char> {
        child_path(self@.working_dir, self@.name)
    }

    /// Begins the search under `working_dir` at the second that lies
    /// `unix_seconds` after the start of 1970 in UTC. There is no search
    /// where the calendar does not reach that second.
    pub fn begin(working_dir: &str, unix_seconds: i64) -> (search: Option<UniqueDirectory>)
        ensures
            search is Some <==> timestamp_text(unix_seconds, STAMP_PATTERN@) is Some,
            0 <= unix_seconds < 253_402_300_800 ==> search is Some,
            search matches Some(first) ==> {
                &&& first@.working_dir == working_dir@
                &&& timestamp_text(unix_seconds, STAMP_PATTERN@) == Some(first@.stamp)
                &&& is_stamp(first@.stamp)
                &&& is_workspace_name(first@.name, first@.stamp)
            },
    {
        match format_timestamp(unix_seconds, STAMP_PATTERN) {
            Some(stamp) => {
                let name = stamped_name(stamp.as_str());
                Some(UniqueDirectory { working_dir: working_dir.to_owned(), stamp, name })
            },
            None => None,
        }
    }

    /// Writes the path of the candidate, for the check whether a directory of
    /// that name exists.
    pub fn candidate(&self) -> (path: String)
        ensures
            path@ == self.path(),
    {
        join_path(self.working_dir.as_str(), self.name.as_str())
    }

    /// Takes the answer to the check of the candidate: `taken` says that a
    /// directory of that name exists.
    pub fn resolve(self, taken: bool) -> (next: Naming)
        ensures
            !taken ==> (next matches Naming::Settled(path) && path@ == self.path()),
            taken ==> (next matches Naming::Retry(search) && {
                &&& search@.working_dir == self@.working_dir
                &&& search@.stamp == self@.stamp
                &&& is_workspace_name(search@.name, search@.stamp)
            }),
    {
        if taken {
            let name = stamped_name(self.stamp.as_str());
            Naming::Retry(
                UniqueDirectory { working_dir: self.working_dir, stamp: self.stamp, name },
            )
        } else {
            Naming::Settled(self.candidate())
        }
    }
}

/// Builds a workspace name from a stamp and a suffix that is drawn for it.
fn stamped_name(stamp: &str) -> (name: String)
    ensures
        is_workspace_name(name@, stamp@),
{
    let suffix = random_suffix();
    let mut name = stamp.to_owned();
    name.append(suffix.as_str());
    assert(name@.subrange(0, stamp@.len() as int) =~= stamp@);
    assert(name@.subrange(stamp@.len() as int, name@.len() as int) =~= suffix@);
    name
}

/// Two workspace names of one stamp are the same name only where their
/// suffixes are the same, and so are their paths under one root: names that
/// fall into the same second are told apart by the suffix alone.
pub proof fn lemma_names_differ_by_suffix(
    working_dir: Seq<char>,
    stamp: Seq<char>,
    first: Seq<char>,
    second: Seq<char>,
)
    requires
        is_stamp(stamp),
        is_workspace_name(first, stamp),
        is_workspace_name(second, stamp),
    ensures
        first == second <==> first.subrange(stamp.len() as int, first.len() as int)
            == second.subrange(stamp.len() as int, second.len() as int),
        child_path(working_dir, first) == child_path(working_dir, second) <==> first == second,
{
    let cut = stamp.len() as int;
    assert(first =~= first.subrange(0, cut) + first.subrange(cut, first.len() as int));
    assert(second =~= second.subrange(0, cut) + second.subrange(cut, second.len() as int));
    assert(first[0] == stamp[0]);
    assert(second[0] == stamp[0]);
    if child_path(working_dir, first) == child_path(working_dir, second) {
        let a = child_path(working_dir, first);
        let b = child_path(working_dir, second);
        let lead = a.len() - first.len();
        assert(first =~= a.subrange(lead, a.len() as int));
        assert(second =~= b.subrange(lead, b.len() as int));
    }
}

} // verus!
