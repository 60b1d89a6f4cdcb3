//! The path resolver: from a path as the configuration writes it, and the
//! directory the process works in, to the path that is used.

use vstd::prelude::*;
use vstd::string::*;
use crate::dialect::{separator, ShellDialect};
use crate::text::{first_is, has_char, last_is};

verus! {

/// The path that `raw`, read as a relative path with `/` between its
/// components, names below `root`: a `.` component leaves the path as it
/// is, a `..` component removes its last component, any other component is
/// appended.
pub uninterp spec fn logical_path(raw: Seq<char>, root: Seq<char>) -> Seq<char>;

/// Calls `RelativePath::to_logical_path` of the `relative-path` crate, with
/// `root` as the base. The result is a function of the two texts: the
/// crate splits `raw` at `/` and applies its components to `root` one by
/// one, with the separator of the platform between them. Both texts are
/// UTF-8, so the path is, and its text is the path itself.
#[verifier::external_body]
fn to_logical_path(raw: &str, root: &str) -> (r: String)
    ensures
        r@ == logical_path(raw@, root@),
{
    relative_path::RelativePath::new(raw).to_logical_path(root).to_string_lossy().into_owned()
}

/// Whether a path is taken as it stands: it begins with `/`, or holds the
/// `:` of a drive letter.
pub open spec fn looks_absolute(raw: Seq<char>) -> bool {
    (raw.len() > 0 && raw[0] == '/') || raw.contains(':')
}

/// The path that is used for `raw` when the process works in `root`.
pub open spec fn resolved(raw: Seq<char>, root: Seq<char>) -> Seq<char> {
    if looks_absolute(raw) {
        raw
    } else {
        logical_path(raw, root)
    }
}

/// The path that is used for an optional `raw`, `default` standing in for
/// an absent one.
pub open spec fn resolved_or(raw: Option<Seq<char>>, default: Seq<char>, root: Seq<char>) -> Seq<
    char,
> {
    match raw {
        Some(raw) => resolved(raw, root),
        None => resolved(default, root),
    }
}

/// The output directory of a configuration that names none.
pub open spec fn default_output() -> Seq<char> {
    "./dist/cider/"@
}

/// The source directory of a configuration that names none.
pub open spec fn default_source() -> Seq<char> {
    "./"@
}

/// Whether `raw` is taken as it stands.
pub fn is_absolute(raw: &str) -> (r: bool)
    ensures
        r == looks_absolute(raw@),
{
    first_is(raw, '/') || has_char(raw, ':')
}

/// Resolves `raw` against `root`.
///
/// A path that looks absolute is returned unchanged. Any other path is
/// joined below `root`, its `.` and `..` components applied.
pub fn resolve(raw: &str, root: &str) -> (r: String)
    ensures
        r@ == resolved(raw@, root@),
{
    if is_absolute(raw) {
        raw.to_owned()
    } else {
        to_logical_path(raw, root)
    }
}

/// Resolves an output or a source directory against `root`, with the
/// default of its kind for an absent one: `./dist/cider/` for an output,
/// `./` for a source.
pub fn get_path_as_string(path: Option<String>, root: &str, is_output: bool) -> (r: String)
    ensures
        r@ == resolved_or(
            match path {
                Some(p) => Some(p@),
                None => None,
            },
            if is_output {
                default_output()
            } else {
                default_source()
            },
            root@,
        ),
{
    match path {
        Some(p) => resolve(p.as_str(), root),
        None => if is_output {
            resolve("./dist/cider/", root)
        } else {
            resolve("./", root)
        },
    }
}

/// The name of a file that is given no name.
pub open spec fn default_filename() -> Seq<char> {
    "default_output.txt"@
}

/// The path of the file `filename` in the directory `path`: the
/// directory, the separator of the host where the directory does not end
/// with it, and the name of the file, or the default name for an empty one.
pub open spec fn curated(path: Seq<char>, filename: Seq<char>, dialect: ShellDialect) -> Seq<char> {
    (if path.last() == separator(dialect) {
        path
    } else {
        path.push(separator(dialect))
    }) + (if filename.len() > 0 {
        filename
    } else {
        default_filename()
    })
}

/// The path of the file `filename` in the directory `path`, which is not
/// empty.
pub fn curate_filepath(path: &str, filename: &str, dialect: ShellDialect) -> (r: String)
    requires
        path@.len() > 0,
    ensures
        r@ == curated(path@, filename@, dialect),
{
    let mut filepath = path.to_owned();
    match dialect {
        ShellDialect::Windows => {
            if !last_is(path, '\\') {
                proof {
                    reveal_strlit("\\");
                }
                filepath.append("\\");
                assert(filepath@ =~= path@.push('\\'));
            }
        },
        ShellDialect::Posix => {
            if !last_is(path, '/') {
                proof {
                    reveal_strlit("/");
                }
                filepath.append("/");
                assert(filepath@ =~= path@.push('/'));
            }
        },
    }
    if !filename.is_empty() {
        filepath.append(filename);
    } else {
        filepath.append("default_output.txt");
    }
    filepath
}

/// A path that looks absolute resolves to itself, whatever the root.
pub proof fn lemma_absolute_is_fixed(raw: Seq<char>, root: Seq<char>)
    requires
        looks_absolute(raw),
    ensures
        resolved(raw, root) == raw,
{
}

} // verus!
