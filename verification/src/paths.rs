//! Paths, as `camino` and the standard library compute them.
//!
//! Nothing in this file is proved: each item states what the library relies on
//! from code outside it.

use camino::Utf8Path;
use camino::Utf8PathBuf;
use std::path::PathBuf;
use vstd::prelude::*;

verus! {

/// `std::path::PathBuf`, carried as an opaque value.
#[verifier::external_type_specification]
#[verifier::external_body]
pub struct ExPathBuf(PathBuf);

/// `std::io::Error`, carried as an opaque value.
#[verifier::external_type_specification]
#[verifier::external_body]
pub struct ExIoError(std::io::Error);

/// `camino::Utf8PathBuf`, carried as an opaque value.
#[verifier::external_type_specification]
#[verifier::external_body]
pub struct ExUtf8PathBuf(Utf8PathBuf);

/// Whether a path is absolute, as `std::path::Path::is_absolute` tells it with
/// the path grammar of the platform that the library is built for.
pub uninterp spec fn is_absolute_path(path: PathBuf) -> bool;

/// Whether a UTF-8 path is absolute, as `camino::Utf8Path::is_absolute` tells
/// it, which asks the standard library of the same path.
pub uninterp spec fn is_absolute_utf8_path(path: Utf8PathBuf) -> bool;

/// The UTF-8 form of a path, as `camino::Utf8PathBuf::from_path_buf` gives it:
/// `None` for a path that is not valid UTF-8.
pub uninterp spec fn utf8_form(path: PathBuf) -> Option<Utf8PathBuf>;

/// `std::path::absolute`: the path made absolute against the current working
/// directory. The outcome depends on that directory, so the contract only
/// claims what the documentation promises of every call: an empty path is an
/// error, and a path that comes back is absolute.
#[verifier::external_body]
pub(crate) fn absolute(path: &str) -> (r: Result<PathBuf, std::io::Error>)
    ensures
        path@.len() == 0 ==> r is Err,
        r matches Ok(made) ==> is_absolute_path(made),
{
    std::path::absolute(path)
}

/// `camino::Utf8PathBuf::from_path_buf`: the same path as UTF-8 text, or the
/// path handed back when it is not valid UTF-8. The path is taken over as it
/// is, so it is absolute exactly when the path given is.
pub assume_specification[ Utf8PathBuf::from_path_buf ](path: PathBuf) -> (r: Result<
    Utf8PathBuf,
    PathBuf,
>)
    ensures
        match r {
            Ok(utf8) => utf8_form(path) == Some(utf8) && is_absolute_utf8_path(utf8)
                == is_absolute_path(path),
            Err(_) => utf8_form(path) is None,
        },
;

/// The extension of a path, as `camino::Utf8Path::extension` reads it with the
/// path grammar of the platform that the library is built for.
pub uninterp spec fn path_extension(path: Seq<char>) -> Option<Seq<char>>;

/// `camino::Utf8Path::extension`: the part of the file name after its last
/// dot. The documentation gives one case in full: a path without any dot has
/// no extension.
#[verifier::external_body]
pub(crate) fn extension(path: &str) -> (r: Option<String>)
    ensures
        crate::text::text_of(r) == path_extension(path@),
        !path@.contains('.') ==> r is None,
{
    Utf8Path::new(path).extension().map(str::to_string)
}

/// The path that `camino::Utf8Path::join` makes of a directory and a path
/// below it, with the path grammar of the platform that the library is built
/// for.
pub uninterp spec fn joined_path(dir: Seq<char>, file: Seq<char>) -> Seq<char>;

/// `camino::Utf8Path::join`: `file` appended to `dir` as the platform joins
/// paths.
#[verifier::external_body]
pub(crate) fn join(dir: &str, file: &str) -> (r: String)
    ensures
        r@ == joined_path(dir@, file@),
{
    Utf8Path::new(dir).join(file).into_string()
}

} // verus!
