//! Finding a tool by name where the launch primitive does not search by
//! extension.
//!
//! On Windows a process is launched by file name, and a bare name such as
//! `irb` does not find `irb.cmd`. The tool's name is therefore resolved
//! against the search path of the environment that the launch will use:
//! every directory of the path is tried, in order, with each of the
//! extensions `exe`, `cmd` and `bat`, in that order. Whether a candidate
//! exists is for the caller to find out; this module says which files to
//! look for and what to make of the answers.

use crate::environment::env_string;
use crate::environment::lookup;
use crate::environment::Environment;
use crate::environment::EnvironmentView;
use crate::paths::extension;
use crate::paths::join;
use crate::paths::joined_path;
use crate::paths::path_extension;
use crate::search::first_index;
use crate::search::lemma_first_index_is;
use crate::search::lemma_first_index_none;
use crate::text::push_char;
use vstd::prelude::*;
use vstd::string::StringExecFns;

verus! {

/// The directories of the rest of a search path, for a scan that stands
/// inside quotes or not and has read `current` of the directory at hand.
///
/// A `;` outside quotes ends a directory. A `"` opens or closes quotes and
/// belongs to no directory. Every other character belongs to the directory at
/// hand.
pub open spec fn split_from(text: Seq<char>, quoted: bool, current: Seq<char>) -> Seq<Seq<char>>
    decreases text.len(),
{
    if text.len() == 0 {
        seq![current]
    } else if text[0] == '"' {
        split_from(text.drop_first(), !quoted, current)
    } else if text[0] == ';' && !quoted {
        seq![current] + split_from(text.drop_first(), false, Seq::empty())
    } else {
        split_from(text.drop_first(), quoted, current.push(text[0]))
    }
}

/// The directories of a search path, in order.
pub open spec fn search_directories(text: Seq<char>) -> Seq<Seq<char>> {
    split_from(text, false, Seq::empty())
}

/// The search path of the variables to set for a launch: the value of `PATH`,
/// or the empty path without one.
pub open spec fn search_path(env_vars: EnvironmentView) -> Seq<char> {
    match env_string(env_vars, "PATH"@) {
        Some(value) => value,
        None => Seq::empty(),
    }
}

/// The extensions that are tried, by priority.
pub open spec fn extensions() -> Seq<Seq<char>> {
    seq!["exe"@, "cmd"@, "bat"@]
}

/// The file name of a tool with an extension.
pub open spec fn file_name(executable: Seq<char>, ext: Seq<char>) -> Seq<char> {
    executable + seq!['.'] + ext
}

/// The files to look for, in order: for each directory in turn, the tool with
/// each extension in turn.
pub open spec fn candidates_in(dirs: Seq<Seq<char>>, executable: Seq<char>) -> Seq<Seq<char>> {
    Seq::new(
        3 * dirs.len(),
        |k: int| joined_path(dirs[k / 3], file_name(executable, extensions()[k % 3])),
    )
}

/// The files to look for when resolving `executable` for a launch with the
/// variables `env_vars`. A name that has an extension is meant as it stands,
/// and nothing is looked for.
pub open spec fn candidates(executable: Seq<char>, env_vars: EnvironmentView) -> Seq<Seq<char>> {
    if path_extension(executable) is Some {
        Seq::empty()
    } else {
        candidates_in(search_directories(search_path(env_vars)), executable)
    }
}

/// Whether the candidate of index `k` was found. A candidate without an
/// answer counts as not found.
pub open spec fn found(present: Seq<bool>, k: int) -> bool {
    0 <= k < present.len() && present[k]
}

/// For each candidate, whether it was found.
pub open spec fn answers(count: nat, present: Seq<bool>) -> Seq<bool> {
    Seq::new(count, |k: int| found(present, k))
}

/// The predicate "this answer is yes".
pub open spec fn yes() -> spec_fn(bool) -> bool {
    |answer: bool| answer
}

/// The path to launch: the first candidate that was found, or the name as it
/// stands when none was.
pub open spec fn resolved(
    executable: Seq<char>,
    candidates: Seq<Seq<char>>,
    present: Seq<bool>,
) -> Seq<char> {
    match first_index(answers(candidates.len(), present), yes()) {
        Some(k) => candidates[k],
        None => executable,
    }
}

/// The directories of a search path, in order.
pub fn split_search_path(value: &str) -> (dirs: Vec<String>)
    ensures
        dirs.deep_view() == search_directories(value@),
{
    broadcast use vstd::string::group_string_axioms;

    let mut dirs: Vec<String> = Vec::new();
    let mut current = String::new();
    let mut quoted = false;
    proof {
        assert(value@.skip(0) == value@);
        assert(dirs.deep_view() + search_directories(value@) == search_directories(value@));
    }
    for c in it: value.chars()
        invariant
            it.seq() == value@,
            dirs.deep_view() + split_from(value@.skip(it.index()), quoted, current@)
                == search_directories(value@),
    {
        let ghost rest = value@.skip(it.index());
        proof {
            assert(rest.len() > 0);
            assert(rest[0] == c);
            assert(rest.drop_first() == value@.skip(it.index() + 1));
        }
        if c == '"' {
            quoted = !quoted;
        } else if c == ';' && !quoted {
            let ghost before = dirs.deep_view();
            dirs.push(current);
            current = String::new();
            proof {
                let tail = split_from(rest.drop_first(), false, Seq::empty());
                assert(dirs.deep_view() == before + seq![dirs[dirs.len() - 1]@]);
                assert(dirs.deep_view() + tail == before + (seq![dirs[dirs.len() - 1]@] + tail));
            }
        } else {
            push_char(&mut current, c);
        }
    }
    let ghost before = dirs.deep_view();
    proof {
        assert(value@.skip(value@.len() as int).len() == 0);
    }
    dirs.push(current);
    proof {
        assert(dirs.deep_view() == before + seq![dirs[dirs.len() - 1]@]);
    }
    dirs
}

/// The file name of a tool with an extension.
pub fn file_name_with(executable: &str, ext: &str) -> (name: String)
    ensures
        name@ == file_name(executable@, ext@),
{
    let mut name = String::from_str(executable);
    push_char(&mut name, '.');
    name.append(ext);
    name
}

/// The files to look for when resolving `executable` for a launch with the
/// variables `env_vars`, in the order in which they count.
pub fn tool_candidates(executable: &str, env_vars: &Environment) -> (files: Vec<String>)
    ensures
        files.deep_view() == candidates(executable@, env_vars.deep_view()),
{
    let mut files: Vec<String> = Vec::new();
    if extension(executable).is_some() {
        assert(files.deep_view() == Seq::<Seq<char>>::empty());
        return files;
    }
    let path_value = match lookup(env_vars, "PATH") {
        Some(value) => value,
        None => String::new(),
    };
    let dirs = split_search_path(path_value.as_str());
    let exe = file_name_with(executable, "exe");
    let cmd = file_name_with(executable, "cmd");
    let bat = file_name_with(executable, "bat");
    let ghost wanted = candidates_in(dirs.deep_view(), executable@);
    let mut i: usize = 0;
    while i < dirs.len()
        invariant
            i <= dirs.len(),
            exe@ == file_name(executable@, "exe"@),
            cmd@ == file_name(executable@, "cmd"@),
            bat@ == file_name(executable@, "bat"@),
            wanted == candidates_in(dirs.deep_view(), executable@),
            files.len() == 3 * i,
            forall|k: int| 0 <= k < files.len() ==> (#[trigger] files[k])@ == wanted[k],
        decreases dirs.len() - i,
    {
        let dir = dirs[i].as_str();
        assert(dirs.deep_view()[i as int] == dir@);
        files.push(join(dir, exe.as_str()));
        files.push(join(dir, cmd.as_str()));
        files.push(join(dir, bat.as_str()));
        i += 1;
    }
    assert(files.deep_view() =~= wanted);
    files
}

/// The path to launch for a tool, given the files that were looked for and,
/// for each, whether it exists: the first that exists, or the tool's name as
/// it stands when none does.
pub fn resolve_tool_on_windows(executable: &str, candidates: &Vec<String>, present: &Vec<bool>) -> (path:
    String)
    ensures
        path@ == resolved(executable@, candidates.deep_view(), present@),
{
    let ghost all = answers(candidates.len() as nat, present@);
    let mut k: usize = 0;
    while k < candidates.len()
        invariant
            k <= candidates.len(),
            all == answers(candidates.len() as nat, present@),
            candidates.deep_view().len() == candidates.len(),
            forall|j: int| 0 <= j < k ==> !(#[trigger] all[j]),
        decreases candidates.len() - k,
    {
        if k < present.len() && present[k] {
            proof {
                assert(all[k as int]);
                lemma_first_index_is(all, yes(), k as int);
                assert(candidates.deep_view()[k as int] == candidates[k as int]@);
            }
            return candidates[k].clone();
        }
        assert(!all[k as int]);
        k += 1;
    }
    proof {
        lemma_first_index_none(all, yes());
    }
    String::from_str(executable)
}

/// A name that has an extension is launched as it stands, whatever the search
/// path holds and whatever exists.
pub proof fn lemma_name_with_extension_is_kept(
    executable: Seq<char>,
    env_vars: EnvironmentView,
    present: Seq<bool>,
)
    requires
        path_extension(executable) is Some,
    ensures
        resolved(executable, candidates(executable, env_vars), present) == executable,
{
    lemma_first_index_none(answers(0, present), yes());
}

/// Where no candidate exists, the name is launched as it stands.
pub proof fn lemma_nothing_found_keeps_name(
    executable: Seq<char>,
    candidates: Seq<Seq<char>>,
    present: Seq<bool>,
)
    requires
        forall|k: int| 0 <= k < candidates.len() ==> !found(present, k),
    ensures
        resolved(executable, candidates, present) == executable,
{
    lemma_first_index_none(answers(candidates.len(), present), yes());
}

/// The first candidate that exists is launched.
pub proof fn lemma_first_found_is_chosen(
    executable: Seq<char>,
    candidates: Seq<Seq<char>>,
    present: Seq<bool>,
    k: int,
)
    requires
        0 <= k < candidates.len(),
        found(present, k),
        forall|j: int| 0 <= j < k ==> !found(present, j),
    ensures
        resolved(executable, candidates, present) == candidates[k],
{
    lemma_first_index_is(answers(candidates.len(), present), yes(), k);
}

/// A bare name resolves to the full path of its `cmd` file in a directory of
/// the search path when that file exists and no candidate before it does.
pub proof fn lemma_command_file_is_found(
    executable: Seq<char>,
    env_vars: EnvironmentView,
    present: Seq<bool>,
    d: int,
)
    requires
        path_extension(executable) is None,
        0 <= d < search_directories(search_path(env_vars)).len(),
        found(present, 3 * d + 1),
        forall|j: int| 0 <= j < 3 * d + 1 ==> !found(present, j),
    ensures
        resolved(executable, candidates(executable, env_vars), present) == joined_path(
            search_directories(search_path(env_vars))[d],
            file_name(executable, "cmd"@),
        ),
{
    let files = candidates(executable, env_vars);
    lemma_first_found_is_chosen(executable, files, present, 3 * d + 1);
}

/// A search path always has at least one directory, and one more for each
/// `;` outside quotes.
pub proof fn lemma_split_is_never_empty(text: Seq<char>, quoted: bool, current: Seq<char>)
    ensures
        split_from(text, quoted, current).len() >= 1,
    decreases text.len(),
{
    if text.len() > 0 {
        if text[0] == '"' {
            lemma_split_is_never_empty(text.drop_first(), !quoted, current);
        } else if text[0] == ';' && !quoted {
            lemma_split_is_never_empty(text.drop_first(), false, Seq::empty());
        } else {
            lemma_split_is_never_empty(text.drop_first(), quoted, current.push(text[0]));
        }
    }
}

} // verus!
