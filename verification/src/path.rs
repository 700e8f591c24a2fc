//! Path resolution: from the running executable's own path to the directory
//! holding the native library files, and to the two library file names.
//!
//! The directory is the executable's directory plus a platform-dependent
//! subpath; the file names are platform-specific. Everything is a pure
//! function of the executable path and the target platform; the caller
//! supplies both.

use crate::xerror::{XError, XResult};
use vstd::prelude::*;
use vstd::string::{StrSliceExecFns, StringExecFns};

verus! {

/// The family of the target operating system, which decides the path
/// separator, the subdirectory holding the native libraries, and the library
/// file names.
#[derive(Clone, Copy, Debug, PartialEq, Eq, Structural)]
pub enum OsFamily {
    Windows,
    Unix,
}

/// True when the character separates path components on the given platform.
pub open spec fn is_sep(os: OsFamily, c: char) -> bool {
    match os {
        OsFamily::Windows => c == '/' || c == '\\',
        OsFamily::Unix => c == '/',
    }
}

/// Index of the last path separator in `path`, or -1 when there is none.
pub open spec fn last_sep_index(os: OsFamily, path: Seq<char>) -> int
    decreases path.len(),
{
    if path.len() == 0 {
        -1
    } else if is_sep(os, path.last()) {
        path.len() - 1
    } else {
        last_sep_index(os, path.drop_last())
    }
}

/// True when the path names a file inside some directory, so the directory
/// part can be split off.
pub open spec fn has_dir(os: OsFamily, path: Seq<char>) -> bool {
    last_sep_index(os, path) >= 0
}

/// The directory part of a path: everything before the last separator.
pub open spec fn dir_of(os: OsFamily, path: Seq<char>) -> Seq<char>
    recommends
        has_dir(os, path),
{
    path.subrange(0, last_sep_index(os, path))
}

/// The path separator written when building paths on the given platform.
pub open spec fn sep_text(os: OsFamily) -> Seq<char> {
    match os {
        OsFamily::Windows => "\\"@,
        OsFamily::Unix => "/"@,
    }
}

/// The subdirectory, below the executable's directory, holding the native
/// library files of the given platform.
pub open spec fn native_subdir(os: OsFamily) -> Seq<char> {
    match os {
        OsFamily::Windows => "iup/windows"@,
        OsFamily::Unix => "iup/linux"@,
    }
}

/// The directory holding the native library files, as resolved from the
/// executable's path: the executable's directory, a separator, then the
/// platform subdirectory.
pub open spec fn native_dir(os: OsFamily, exe: Seq<char>) -> Seq<char>
    recommends
        has_dir(os, exe),
{
    dir_of(os, exe) + sep_text(os) + native_subdir(os)
}

/// File name of the core native library on the given platform.
pub open spec fn iup_dll_name(os: OsFamily) -> Seq<char> {
    match os {
        OsFamily::Windows => "iup.dll"@,
        OsFamily::Unix => "libiup.so"@,
    }
}

/// File name of the auxiliary image-handling native library.
pub open spec fn im_dll_name(os: OsFamily) -> Seq<char> {
    match os {
        OsFamily::Windows => "iupim.dll"@,
        OsFamily::Unix => "libiupim.so"@,
    }
}

/// Everything [`last_sep_index`] promises: it is a valid index or -1, it
/// points at a separator, and no separator follows it.
pub proof fn lemma_last_sep_index(os: OsFamily, path: Seq<char>)
    ensures
        -1 <= last_sep_index(os, path) < path.len(),
        last_sep_index(os, path) >= 0 ==> is_sep(os, path[last_sep_index(os, path)]),
        forall|j: int| last_sep_index(os, path) < j < path.len() ==> !is_sep(os, #[trigger] path[j]),
    decreases path.len(),
{
    if path.len() == 0 {
    } else if is_sep(os, path.last()) {
    } else {
        lemma_last_sep_index(os, path.drop_last());
        assert(forall|j: int|
            0 <= j < path.len() - 1 ==> path.drop_last()[j] == #[trigger] path[j]);
    }
}

/// True when the character separates path components on the given platform.
fn is_sep_char(os: OsFamily, c: char) -> (r: bool)
    ensures
        r == is_sep(os, c),
{
    match os {
        OsFamily::Windows => c == '/' || c == '\\',
        OsFamily::Unix => c == '/',
    }
}

/// Resolves the directory holding the native library files from the running
/// executable's path: the executable's own directory plus the platform
/// subdirectory. Fails exactly when the executable path holds no separator,
/// so its directory cannot be determined.
pub fn exe_path(exe: &str, os: OsFamily) -> (r: XResult<String>)
    ensures
        r is Ok <==> has_dir(os, exe@),
        r matches Ok(d) ==> d@ == native_dir(os, exe@),
        r matches Err(e) ==> e matches XError::IoFailure(_),
{
    proof {
        lemma_last_sep_index(os, exe@);
    }
    let n = exe.unicode_len();
    let mut i: usize = n;
    while i > 0
        invariant
            i <= n,
            n == exe@.len(),
            forall|j: int| i <= j < n ==> !is_sep(os, #[trigger] exe@[j]),
        decreases i,
    {
        if is_sep_char(os, exe.get_char(i - 1)) {
            proof {
                lemma_last_sep_index(os, exe@);
                assert(last_sep_index(os, exe@) == i - 1);
            }
            let parent = exe.substring_char(0, i - 1);
            let out = String::from_str(parent);
            let out = match os {
                OsFamily::Windows => out.concat("\\").concat("iup/windows"),
                OsFamily::Unix => out.concat("/").concat("iup/linux"),
            };
            return Ok(out);
        }
        i -= 1;
    }
    proof {
        lemma_last_sep_index(os, exe@);
    }
    Err(XError::IoFailure(String::from_str("executable path has no directory part")))
}

/// Full path of the core native library file: the resolved native-library
/// directory plus the platform's core library file name. Fails exactly when
/// the executable path holds no separator.
pub fn iup_dll(exe: &str, os: OsFamily) -> (r: XResult<String>)
    ensures
        r is Ok <==> has_dir(os, exe@),
        r matches Ok(p) ==> p@ == native_dir(os, exe@) + sep_text(os) + iup_dll_name(os),
        r matches Err(e) ==> e matches XError::IoFailure(_),
{
    match exe_path(exe, os) {
        Ok(d) => Ok(
            match os {
                OsFamily::Windows => d.concat("\\").concat("iup.dll"),
                OsFamily::Unix => d.concat("/").concat("libiup.so"),
            },
        ),
        Err(e) => Err(e),
    }
}

/// Full path of the auxiliary image-handling native library file. Fails
/// exactly when the executable path holds no separator.
pub fn im_dll(exe: &str, os: OsFamily) -> (r: XResult<String>)
    ensures
        r is Ok <==> has_dir(os, exe@),
        r matches Ok(p) ==> p@ == native_dir(os, exe@) + sep_text(os) + im_dll_name(os),
        r matches Err(e) ==> e matches XError::IoFailure(_),
{
    match exe_path(exe, os) {
        Ok(d) => Ok(
            match os {
                OsFamily::Windows => d.concat("\\").concat("iupim.dll"),
                OsFamily::Unix => d.concat("/").concat("libiupim.so"),
            },
        ),
        Err(e) => Err(e),
    }
}

} // verus!
