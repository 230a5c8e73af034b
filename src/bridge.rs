//! The decisions of the tile fetch bridge, stage by stage.
//!
//! The host runs the stages in order: derive the paths from its current
//! directory ([`locate_paths`]), check that the interpreter and script exist
//! ([`plan_invocation`]), run the invocation and hand over how it ended
//! ([`exit_outcome`]), check that the declared image exists ([`check_image`]),
//! then read it and hand over the bytes ([`read_outcome`]). An `Err` at any
//! stage is the final answer to the request; no later stage runs.

use vstd::prelude::*;
use crate::encoding::{png_data_url, png_data_url_of};
use crate::output::{declared_path, declared_output_path};
use crate::paths::{joined, join_path, parent_dir, parent_of};

verus! {

/// A request from the GUI. Latitude and longitude arrive as the decimal text
/// that the host formatted them to; they are handed to the script unchanged.
pub struct TileRequest {
    pub latitude: String,
    pub longitude: String,
    pub zoom: u32,
    pub radius: u32,
    pub provider: String,
}

/// Where the interpreter, the script and the script's working directory are.
pub struct BridgePaths {
    pub interpreter: String,
    pub script: String,
    pub workdir: String,
}

/// A process to run: `program` with `args`, inside `workdir`.
pub struct Invocation {
    pub program: String,
    pub args: Vec<String>,
    pub workdir: String,
}

/// Decimal digit `d` (`0 <= d < 10`).
pub open spec fn decimal_digit(d: int) -> char {
    "0123456789"@[d]
}

/// The decimal text of `n`, without sign or leading zeros.
pub open spec fn decimal_text(n: nat) -> Seq<char>
    decreases n,
{
    if n < 10 {
        seq![decimal_digit(n as int)]
    } else {
        decimal_text(n / 10).push(decimal_digit((n % 10) as int))
    }
}

/// Where the interpreter lives under the project root.
pub open spec fn interpreter_subpath() -> Seq<char> {
    ".venv/bin/python"@
}

/// The script's name in the working directory.
pub open spec fn script_name() -> Seq<char> {
    "imagenRunner.py"@
}

/// The error when no interpreter is at `path`.
pub open spec fn interpreter_missing(path: Seq<char>) -> Seq<char> {
    "Python venv not found at "@ + path
}

/// The error when no script is at `path`.
pub open spec fn script_missing(path: Seq<char>) -> Seq<char> {
    "imagenRunner.py not found at "@ + path
}

/// The error when the process could not be started, for the reason given.
pub open spec fn spawn_failure(detail: Seq<char>) -> Seq<char> {
    "Failed to spawn python: "@ + detail
}

/// The error when the script declared no image path.
pub open spec fn no_output_path() -> Seq<char> {
    "Python did not return an output path"@
}

/// The error when the declared image is not at `path`.
pub open spec fn image_missing(path: Seq<char>) -> Seq<char> {
    "Image file not found at "@ + path
}

/// The error when the image could not be read, for the reason given.
pub open spec fn read_failure(detail: Seq<char>) -> Seq<char> {
    "Failed to read PNG: "@ + detail
}

/// The script's arguments: the script path, then latitude, longitude, zoom,
/// radius and provider as text, in that order.
pub open spec fn invocation_args(paths: BridgePaths, req: TileRequest) -> Seq<Seq<char>> {
    seq![
        paths.script@,
        req.latitude@,
        req.longitude@,
        decimal_text(req.zoom as nat),
        decimal_text(req.radius as nat),
        req.provider@,
    ]
}

/// `prefix` followed by `detail`.
fn message(prefix: &str, detail: &str) -> (r: String)
    ensures
        r@ == prefix@ + detail@,
{
    let mut m = String::from_str(prefix);
    m.append(detail);
    m
}

/// The decimal text of `n`.
pub fn decimal(n: u32) -> (r: String)
    ensures
        r@ == decimal_text(n as nat),
    decreases n,
{
    let digits = "0123456789";
    proof {
        reveal_strlit("0123456789");
    }
    let d = (n % 10) as usize;
    let one = digits.substring_char(d, d + 1);
    assert(one@ =~= seq![decimal_digit(d as int)]);
    if n < 10 {
        String::from_str(one)
    } else {
        let mut s = decimal(n / 10);
        s.append(one);
        s
    }
}

/// The paths the bridge uses, from the GUI directory (the script's working
/// directory) and the project root above it.
pub fn resolve_paths(gui_dir: &str, project_root: &str) -> (r: BridgePaths)
    ensures
        r.interpreter@ == joined(project_root@, interpreter_subpath()),
        r.script@ == joined(gui_dir@, script_name()),
        r.workdir@ == gui_dir@,
{
    proof {
        reveal_strlit(".venv/bin/python");
        reveal_strlit("imagenRunner.py");
    }
    BridgePaths {
        interpreter: join_path(project_root, ".venv/bin/python"),
        script: join_path(gui_dir, "imagenRunner.py"),
        workdir: String::from_str(gui_dir),
    }
}

/// The paths the bridge uses, derived from the process's current directory:
/// its parent is the GUI directory and the parent of that the project root.
pub fn locate_paths(current_dir: &str) -> (r: Result<BridgePaths, String>)
    ensures
        parent_of(current_dir@) is None ==> (r matches Err(e) && e@ == "Cannot find gui dir"@),
        parent_of(current_dir@) is Some && parent_of(parent_of(current_dir@)->0) is None ==> (r matches Err(e)
            && e@ == "Cannot find project root"@),
        parent_of(current_dir@) is Some && parent_of(parent_of(current_dir@)->0) is Some ==> (r matches Ok(
            p,
        ) && p.interpreter@ == joined(parent_of(parent_of(current_dir@)->0)->0, interpreter_subpath())
            && p.script@ == joined(parent_of(current_dir@)->0, script_name()) && p.workdir@
            == parent_of(current_dir@)->0),
{
    match parent_dir(current_dir) {
        None => Err(String::from_str("Cannot find gui dir")),
        Some(gui_dir) => match parent_dir(gui_dir.as_str()) {
            None => Err(String::from_str("Cannot find project root")),
            Some(project_root) => Ok(resolve_paths(gui_dir.as_str(), project_root.as_str())),
        },
    }
}

/// First stage: fails, naming the missing path, when the interpreter or the
/// script is absent (the interpreter is checked first); otherwise the
/// invocation to run. No process is to be started on `Err`.
pub fn plan_invocation(
    paths: &BridgePaths,
    req: &TileRequest,
    interpreter_exists: bool,
    script_exists: bool,
) -> (r: Result<Invocation, String>)
    ensures
        !interpreter_exists ==> (r matches Err(e) && e@ == interpreter_missing(
            paths.interpreter@,
        )),
        interpreter_exists && !script_exists ==> (r matches Err(e) && e@ == script_missing(
            paths.script@,
        )),
        !interpreter_exists ==> (r matches Err(e) && e@.subrange(
            e@.len() - paths.interpreter@.len(),
            e@.len() as int,
        ) == paths.interpreter@),
        interpreter_exists && !script_exists ==> (r matches Err(e) && e@.subrange(
            e@.len() - paths.script@.len(),
            e@.len() as int,
        ) == paths.script@),
        interpreter_exists && script_exists ==> (r matches Ok(inv) && inv.program@
            == paths.interpreter@ && inv.workdir@ == paths.workdir@ && inv.args@.map_values(
            |a: String| a@,
        ) == invocation_args(*paths, *req)),
{
    if !interpreter_exists {
        let e = message("Python venv not found at ", paths.interpreter.as_str());
        proof {
            reveal_strlit("Python venv not found at ");
            assert(e@.subrange(e@.len() - paths.interpreter@.len(), e@.len() as int)
                =~= paths.interpreter@);
        }
        return Err(e);
    }
    if !script_exists {
        let e = message("imagenRunner.py not found at ", paths.script.as_str());
        proof {
            reveal_strlit("imagenRunner.py not found at ");
            assert(e@.subrange(e@.len() - paths.script@.len(), e@.len() as int)
                =~= paths.script@);
        }
        return Err(e);
    }
    let mut args: Vec<String> = Vec::new();
    args.push(paths.script.clone());
    args.push(req.latitude.clone());
    args.push(req.longitude.clone());
    args.push(decimal(req.zoom));
    args.push(decimal(req.radius));
    args.push(req.provider.clone());
    assert(args@.map_values(|a: String| a@) =~= invocation_args(*paths, *req));
    Ok(Invocation {
        program: paths.interpreter.clone(),
        args,
        workdir: paths.workdir.clone(),
    })
}

/// The error for an invocation that could not be started.
pub fn spawn_failure_error(detail: &str) -> (r: String)
    ensures
        r@ == spawn_failure(detail@),
{
    proof {
        reveal_strlit("Failed to spawn python: ");
    }
    message("Failed to spawn python: ", detail)
}

/// Second stage, once the script has exited: on failure its standard error,
/// verbatim; on success the declared image path resolved against `workdir`,
/// or an error when the last line of standard output is missing or blank.
pub fn exit_outcome(workdir: &str, success: bool, stdout: &str, stderr: &str) -> (r: Result<
    String,
    String,
>)
    ensures
        !success ==> (r matches Err(e) && e@ == stderr@),
        success && declared_path(stdout@).len() == 0 ==> (r matches Err(e) && e@
            == no_output_path()),
        success && declared_path(stdout@).len() > 0 ==> (r matches Ok(p) && p@ == joined(
            workdir@,
            declared_path(stdout@),
        )),
{
    if !success {
        return Err(String::from_str(stderr));
    }
    match declared_output_path(stdout) {
        None => {
            proof {
                reveal_strlit("Python did not return an output path");
            }
            Err(String::from_str("Python did not return an output path"))
        },
        Some(rel) => Ok(join_path(workdir, rel.as_str())),
    }
}

/// Third stage: the declared image must exist before it is read.
pub fn check_image(image_path: &str, exists: bool) -> (r: Result<(), String>)
    ensures
        exists <==> r is Ok,
        !exists ==> (r matches Err(e) && e@ == image_missing(image_path@)),
{
    if exists {
        Ok(())
    } else {
        proof {
            reveal_strlit("Image file not found at ");
        }
        Err(message("Image file not found at ", image_path))
    }
}

/// Last stage: the bytes read from the image become a PNG data URL; a failed
/// read becomes an error that carries the reason.
pub fn read_outcome(read: Result<Vec<u8>, String>) -> (r: Result<String, String>)
    requires
        read matches Ok(b) ==> b@.len() <= usize::MAX / 2,
    ensures
        read matches Ok(b) ==> (r matches Ok(u) && u@ == png_data_url(b@)),
        read matches Err(d) ==> (r matches Err(e) && e@ == read_failure(d@)),
{
    match read {
        Ok(bytes) => Ok(png_data_url_of(&bytes)),
        Err(detail) => {
            proof {
                reveal_strlit("Failed to read PNG: ");
            }
            Err(message("Failed to read PNG: ", detail.as_str()))
        },
    }
}

} // verus!
