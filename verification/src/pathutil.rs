//! Path bookkeeping for the overlay command.
//!
//! Paths travel through this library as plain strings; the caller alone
//! touches the file system and reports back plain facts (such as whether a
//! path exists). Joining and parent computation follow the usual rules: an
//! absolute right-hand side wins a join, and the parent of a path is its
//! prefix before the last separator, empty when there is none.

use vstd::prelude::*;
use vstd::string::StrSliceExecFns;
use vstd::string::StringExecFns;

use crate::error::ManifestError;

verus! {

/// The character sequence behind an optional path argument.
pub open spec fn opt_str(o: Option<&String>) -> Option<Seq<char>> {
    match o {
        Some(s) => Some(s@),
        None => None,
    }
}

/// Fails with `PathNotFound` exactly when the path was reported missing.
/// The caller hands in what the file system said about `path`.
#[allow(unused_variables)]
pub fn check_path_exists(path: &str, exists: bool) -> (r: Result<(), ManifestError>)
    ensures
        r is Ok <==> exists,
        r matches Err(e) ==> e == ManifestError::PathNotFound,
{
    if exists {
        Ok(())
    } else {
        Err(ManifestError::PathNotFound)
    }
}

/// Optional paths that must resolve to a concrete one before use.
pub trait PathBufExt {
    /// Whether a concrete path is present.
    spec fn path_is_known(&self) -> bool;

    /// The concrete path, when one is present.
    spec fn path_view(&self) -> Seq<char>;

    /// The concrete path, or `default` when none is present.
    fn unwrap_or_def(&self, default: String) -> (r: String)
        ensures
            r@ == if self.path_is_known() {
                self.path_view()
            } else {
                default@
            },
    ;

    /// The concrete path; the caller must know one is present.
    fn unwrap_or_err(&self) -> (r: String)
        requires
            self.path_is_known(),
        ensures
            r@ == self.path_view(),
    ;

    /// The concrete path as a plain string; the caller must know one is
    /// present.
    fn to_string(&self) -> (r: String)
        requires
            self.path_is_known(),
        ensures
            r@ == self.path_view(),
    ;
}

impl PathBufExt for Option<String> {
    open spec fn path_is_known(&self) -> bool {
        self is Some
    }

    open spec fn path_view(&self) -> Seq<char> {
        match self {
            Some(s) => s@,
            None => Seq::empty(),
        }
    }

    fn unwrap_or_def(&self, default: String) -> (r: String) {
        match self {
            Some(s) => s.clone(),
            None => default,
        }
    }

    fn unwrap_or_err(&self) -> (r: String) {
        match self {
            Some(s) => s.clone(),
            None => unreached(),
        }
    }

    fn to_string(&self) -> (r: String) {
        match self {
            Some(s) => s.clone(),
            None => unreached(),
        }
    }
}

impl PathBufExt for String {
    open spec fn path_is_known(&self) -> bool {
        true
    }

    open spec fn path_view(&self) -> Seq<char> {
        self@
    }

    fn unwrap_or_def(&self, default: String) -> (r: String) {
        self.clone()
    }

    fn unwrap_or_err(&self) -> (r: String) {
        self.clone()
    }

    fn to_string(&self) -> (r: String) {
        self.clone()
    }
}

/// What joining `name` onto `dir` yields: `name` itself when it is absolute
/// or `dir` is empty, otherwise the two with exactly one separator between.
pub open spec fn join_path_spec(dir: Seq<char>, name: Seq<char>) -> Seq<char> {
    if name.len() > 0 && name[0] == '/' {
        name
    } else if dir.len() == 0 {
        name
    } else if dir.last() == '/' {
        dir + name
    } else {
        dir + seq!['/'] + name
    }
}

/// Joins a file name onto a directory path.
pub fn join_path(dir: &str, name: &str) -> (r: String)
    ensures
        r@ == join_path_spec(dir@, name@),
{
    let nlen = name.unicode_len();
    if nlen > 0 && name.get_char(0) == '/' {
        return name.to_owned();
    }
    let dlen = dir.unicode_len();
    if dlen == 0 {
        return name.to_owned();
    }
    let mut out = dir.to_owned();
    if dir.get_char(dlen - 1) != '/' {
        out.append("/");
        proof {
            reveal_strlit("/");
            assert(out@ =~= dir@ + seq!['/']);
        }
    }
    out.append(name);
    proof {
        assert(out@ =~= join_path_spec(dir@, name@));
    }
    out
}

/// The prefix of `s` before its last separator; empty when `s` holds none.
pub open spec fn parent_of_spec(s: Seq<char>) -> Seq<char>
    decreases s.len(),
{
    if s.len() == 0 {
        Seq::empty()
    } else if s.last() == '/' {
        s.drop_last()
    } else {
        parent_of_spec(s.drop_last())
    }
}

/// The parent directory of a path string.
pub fn parent_of(s: &str) -> (r: String)
    ensures
        r@ == parent_of_spec(s@),
{
    let mut i = s.unicode_len();
    proof {
        assert(s@.take(i as int) =~= s@);
    }
    while i > 0
        invariant
            0 <= i <= s@.len(),
            parent_of_spec(s@) == parent_of_spec(s@.take(i as int)),
        decreases i,
    {
        if s.get_char(i - 1) == '/' {
            let r = s.substring_char(0, i - 1).to_owned();
            proof {
                assert(s@.take(i as int).drop_last() =~= s@.take(i as int - 1));
                assert(r@ =~= s@.take(i as int - 1));
            }
            return r;
        }
        proof {
            assert(s@.take(i as int).drop_last() =~= s@.take(i as int - 1));
        }
        i = i - 1;
    }
    String::new()
}

/// The directory that output artifacts land in: the parent of the manifest
/// path if one was given, else the parent of the flash path if one was
/// given, else a fixed default.
pub open spec fn out_folder_spec(man: Option<Seq<char>>, flash: Option<Seq<char>>) -> Seq<char> {
    match man {
        Some(m) => parent_of_spec(m),
        None => match flash {
            Some(f) => parent_of_spec(f),
            None => "out"@,
        },
    }
}

/// Computes the output directory from the optional manifest and flash
/// arguments.
pub fn get_out_folder_path(man: Option<&String>, flash: Option<&String>) -> (r: String)
    ensures
        r@ == out_folder_spec(opt_str(man), opt_str(flash)),
{
    match man {
        Some(m) => parent_of(m.as_str()),
        None => match flash {
            Some(f) => parent_of(f.as_str()),
            None => "out".to_owned(),
        },
    }
}

/// The path the generated intermediate manifest configuration is written to.
pub fn get_caliptra_cfg_path(man: Option<&String>, flash: Option<&String>) -> (r: String)
    ensures
        r@ == join_path_spec(out_folder_spec(opt_str(man), opt_str(flash)),
            "caliptra-manifest.toml"@),
{
    let dir = get_out_folder_path(man, flash);
    join_path(dir.as_str(), "caliptra-manifest.toml")
}

/// The path the external signer's raw signature pair is written to.
pub fn get_svn_sig_path(man: Option<&String>, flash: Option<&String>) -> (r: String)
    ensures
        r@ == join_path_spec(out_folder_spec(opt_str(man), opt_str(flash)), "svn_sig.bin"@),
{
    let dir = get_out_folder_path(man, flash);
    join_path(dir.as_str(), "svn_sig.bin")
}

/// The manifest output path: as given, or derived from the flash path, or
/// the project default.
pub fn get_manifest_path(man: Option<&String>, flash: Option<&String>, prj: &String) -> (r: String)
    ensures
        r@ == match opt_str(man) {
            Some(m) => m,
            None => match opt_str(flash) {
                Some(f) => join_path_spec(parent_of_spec(f), prj@ + "-auth-manifest.bin"@),
                None => "out/"@ + prj@ + "-auth-manifest.bin"@,
            },
        },
{
    match man {
        Some(m) => m.clone(),
        None => match flash {
            Some(f) => {
                let dir = parent_of(f.as_str());
                let mut name = prj.clone();
                name.append("-auth-manifest.bin");
                join_path(dir.as_str(), name.as_str())
            },
            None => {
                let mut r = "out/".to_owned();
                r.append(prj.as_str());
                r.append("-auth-manifest.bin");
                r
            },
        },
    }
}

/// The flash-image output path: as given, or the project default.
pub fn get_flash_image_path(flash: Option<&String>, prj: &String) -> (r: String)
    ensures
        r@ == match opt_str(flash) {
            Some(f) => f,
            None => "out/"@ + prj@ + "-flash-image.bin"@,
        },
{
    match flash {
        Some(f) => f.clone(),
        None => {
            let mut r = "out/".to_owned();
            r.append(prj.as_str());
            r.append("-flash-image.bin");
            r
        },
    }
}

/// The prebuilt-artifact directory: as given, or the project default.
pub fn get_prebuilt_dir_path(arg: Option<&String>, prj: &String) -> (r: String)
    ensures
        r@ == match opt_str(arg) {
            Some(d) => d,
            None => "prebuilt/"@ + prj@ + "/"@,
        },
{
    match arg {
        Some(d) => d.clone(),
        None => {
            let mut r = "prebuilt/".to_owned();
            r.append(prj.as_str());
            r.append("/");
            r
        },
    }
}

/// The key directory: as given, or the project default.
pub fn get_key_dir_path(arg: Option<&String>, prj: &String) -> (r: String)
    ensures
        r@ == match opt_str(arg) {
            Some(d) => d,
            None => "key/"@ + prj@ + "/"@,
        },
{
    match arg {
        Some(d) => d.clone(),
        None => {
            let mut r = "key/".to_owned();
            r.append(prj.as_str());
            r.append("/");
            r
        },
    }
}

/// The project name from the configuration, or the fixed default when the
/// configuration names none.
pub fn get_project_name(name: Option<&String>) -> (r: String)
    ensures
        r@ == match opt_str(name) {
            Some(n) => n,
            None => "default_project"@,
        },
{
    match name {
        Some(n) => n.clone(),
        None => "default_project".to_owned(),
    }
}

/// Accepts the configuration path when the file system reports it present.
pub fn get_aspeed_cfg_path(config: &String, exists: bool) -> (r: Result<String, ManifestError>)
    ensures
        r is Ok <==> exists,
        r matches Ok(p) ==> p@ == config@,
        r matches Err(e) ==> e == ManifestError::PathNotFound,
{
    match check_path_exists(config.as_str(), exists) {
        Ok(()) => Ok(config.clone()),
        Err(e) => Err(e),
    }
}

/// Picks the tool directory: the release build directory when both tools
/// were found there, else the debug one, else the directory the running
/// executable came from.
pub fn select_tool_dir(release_ok: bool, debug_ok: bool, exe_dir: &String) -> (r: String)
    ensures
        r@ == if release_ok {
            "./target/release"@
        } else if debug_ok {
            "./target/debug"@
        } else {
            exe_dir@
        },
{
    if release_ok {
        "./target/release".to_owned()
    } else if debug_ok {
        "./target/debug".to_owned()
    } else {
        exe_dir.clone()
    }
}

} // verus!
