//! What a winget run amounts to: the decisions taken before a command is
//! started (validation, then the argument list) and the reading of how it
//! ended (exit status and output).
use vstd::prelude::*;
use vstd::string::*;
use vstd::utf8::{decode_utf8, valid_utf8};

use crate::winget::commands::{
    action_flags, arg_texts, install_args, query_flags, search_args, uninstall_args,
    upgrade_all_args, upgrade_id_args,
};
use crate::winget::error::WingetError;
use crate::winget::models::Package;
use crate::winget::parser::listing_matches;
use crate::winget::table::{parse_table, table_listing};
use crate::winget::validate::{input_problem, validate_package_input};

verus! {

/// The text that `String::from_utf8_lossy` makes of `bytes`.
pub uninterp spec fn lossy_text(bytes: Seq<u8>) -> Seq<char>;

/// `String::from_utf8_lossy(bytes).into_owned()`. Claimed: the result is
/// [`lossy_text`] of the bytes, and for valid UTF-8 it is the decoded text
/// (as std documents); what replaces invalid sequences is not stated.
#[verifier::external_body]
pub(crate) fn utf8_lossy(bytes: &[u8]) -> (r: String)
    ensures
        r@ == lossy_text(bytes@),
        valid_utf8(bytes@) ==> r@ == decode_utf8(bytes@),
{
    String::from_utf8_lossy(bytes).into_owned()
}

/// `std::str::from_utf8` followed by `to_string`: the text when `bytes` are
/// valid UTF-8 (as std documents), `None` otherwise.
#[verifier::external_body]
pub(crate) fn utf8_text(bytes: &[u8]) -> (r: Option<String>)
    ensures
        r is Some <==> valid_utf8(bytes@),
        r matches Some(s) ==> s@ == decode_utf8(bytes@),
{
    std::str::from_utf8(bytes).ok().map(str::to_string)
}

/// The text that GBK decoding (encoding_rs, without BOM handling, malformed
/// sequences replaced) makes of `bytes`.
pub uninterp spec fn gbk_text(bytes: Seq<u8>) -> Seq<char>;

/// `encoding_rs::GBK.decode_without_bom_handling(bytes)`, as an owned
/// string. Claimed: the result is [`gbk_text`] of the bytes. Its buffer
/// arithmetic is checked and unwrapped, so the length is bounded.
#[verifier::external_body]
pub(crate) fn gbk_decode(bytes: &[u8]) -> (r: String)
    requires
        bytes@.len() <= usize::MAX / 4,
    ensures
        r@ == gbk_text(bytes@),
{
    encoding_rs::GBK.decode_without_bom_handling(bytes).0.into_owned()
}

/// The text of a query's stdout: UTF-8 where the bytes are valid UTF-8,
/// otherwise GBK (winget prints GBK under a Chinese locale).
pub open spec fn output_text(bytes: Seq<u8>) -> Seq<char> {
    if valid_utf8(bytes) {
        decode_utf8(bytes)
    } else {
        gbk_text(bytes)
    }
}

/// Decodes a query's stdout (see [`output_text`]).
pub fn decode_output(bytes: &[u8]) -> (r: String)
    requires
        bytes@.len() <= usize::MAX / 4,
    ensures
        r@ == output_text(bytes@),
{
    match utf8_text(bytes) {
        Some(s) => s,
        None => gbk_decode(bytes),
    }
}

/// How a finished winget process ended. It succeeded exactly when it
/// exited with code zero (`ExitStatus::success`).
pub struct ProcessOutput {
    /// Its exit code, where it has one (none when a signal ended it).
    pub code: Option<i32>,
    /// All it wrote to stdout.
    pub stdout: Vec<u8>,
    /// All it wrote to stderr.
    pub stderr: Vec<u8>,
}

/// Whether a run with this exit code succeeded: it exited with code zero.
pub open spec fn exited_ok(code: Option<i32>) -> bool {
    code == Some(0i32)
}

/// The exit code reported for a failed run: the code, or -1 without one.
pub open spec fn reported_code(code: Option<i32>) -> i32 {
    match code {
        Some(c) => c,
        None => -1i32,
    }
}

/// The argument list of a search for `query`, refused (before any process
/// is started) where the query fails validation.
pub fn search_plan(query: &str) -> (r: Result<Vec<String>, WingetError>)
    ensures
        r is Ok <==> input_problem(query@) is None,
        r matches Ok(a) ==> arg_texts(a@) == seq!["search"@, "--query"@, query@] + query_flags(),
        r matches Err(e) ==> e matches WingetError::Validation(m) && Some(m@) == input_problem(
            query@,
        ),
{
    validate_package_input(query)?;
    Ok(search_args(query))
}

/// The argument list of an upgrade: of the package `id` (refused where the
/// id fails validation), or of all packages for `None`.
pub fn upgrade_plan(id: Option<&str>) -> (r: Result<Vec<String>, WingetError>)
    ensures
        match id {
            Some(i) => {
                &&& r is Ok <==> input_problem(i@) is None
                &&& r matches Ok(a) ==> arg_texts(a@) == seq!["upgrade"@, "--id"@, i@]
                    + action_flags()
                &&& r matches Err(e) ==> e matches WingetError::Validation(m) && Some(m@)
                    == input_problem(i@)
            },
            None => r matches Ok(a) && arg_texts(a@) == seq!["upgrade"@, "--all"@]
                + action_flags(),
        },
{
    match id {
        Some(i) => {
            validate_package_input(i)?;
            Ok(upgrade_id_args(i))
        },
        None => Ok(upgrade_all_args()),
    }
}

/// The argument list of an install of `id`, refused where the id fails
/// validation.
pub fn install_plan(id: &str) -> (r: Result<Vec<String>, WingetError>)
    ensures
        r is Ok <==> input_problem(id@) is None,
        r matches Ok(a) ==> arg_texts(a@) == seq!["install"@, "--id"@, id@] + action_flags(),
        r matches Err(e) ==> e matches WingetError::Validation(m) && Some(m@) == input_problem(
            id@,
        ),
{
    validate_package_input(id)?;
    Ok(install_args(id))
}

/// The argument list of an uninstall of `id`, refused where the id fails
/// validation.
pub fn uninstall_plan(id: &str) -> (r: Result<Vec<String>, WingetError>)
    ensures
        r is Ok <==> input_problem(id@) is None,
        r matches Ok(a) ==> arg_texts(a@) == seq!["uninstall"@, "--id"@, id@] + action_flags(),
        r matches Err(e) ==> e matches WingetError::Validation(m) && Some(m@) == input_problem(
            id@,
        ),
{
    validate_package_input(id)?;
    Ok(uninstall_args(id))
}

/// The packages that a finished query yields: a failed run gives
/// `CommandFailed` with its (non-zero) code and stderr; otherwise stdout is
/// decoded (see [`output_text`]) and its table read (see
/// [`table_listing`]), where an empty table gives `NotFound`; a list handed
/// back is never empty.
pub fn query_packages(out: &ProcessOutput) -> (r: Result<Vec<Package>, WingetError>)
    requires
        out.stdout@.len() <= usize::MAX / 4,
    ensures
        !exited_ok(out.code) ==> (r matches Err(e) && e matches WingetError::CommandFailed {
            code,
            stderr,
        } && code == reported_code(out.code) && code != 0 && stderr@ == lossy_text(out.stderr@)),
        exited_ok(out.code) ==> match table_listing(output_text(out.stdout@)) {
            Ok(ps) => if ps.len() == 0 {
                r matches Err(e) && e is NotFound
            } else {
                listing_matches(r, Ok(ps))
            },
            Err(m) => listing_matches(r, Err(m)),
        },
        r matches Ok(v) ==> v@.len() > 0,
{
    let ok = match out.code {
        Some(c) => c == 0,
        None => false,
    };
    if !ok {
        let code = match out.code {
            Some(c) => c,
            None => -1,
        };
        return Err(
            WingetError::CommandFailed { code, stderr: utf8_lossy(out.stderr.as_slice()) },
        );
    }
    let text = decode_output(out.stdout.as_slice());
    let pkgs = parse_table(text.as_str())?;
    if pkgs.len() == 0 {
        return Err(WingetError::NotFound);
    }
    Ok(pkgs)
}

/// Lines joined with a newline between each two.
pub open spec fn join_lines(lines: Seq<Seq<char>>) -> Seq<char>
    decreases lines.len(),
{
    if lines.len() == 0 {
        Seq::empty()
    } else if lines.len() == 1 {
        lines[0]
    } else {
        join_lines(lines.drop_last()) + seq!['\n'] + lines.last()
    }
}

/// The lines joined with `"\n"`.
pub fn join_with_newlines(lines: &Vec<String>) -> (r: String)
    ensures
        r@ == join_lines(arg_texts(lines@)),
{
    let n = lines.len();
    let mut r = String::new();
    let mut i: usize = 0;
    proof {
        reveal_strlit("\n");
    }
    while i < n
        invariant
            i <= n == lines@.len(),
            "\n"@ == seq!['\n'],
            r@ == join_lines(arg_texts(lines@.take(i as int))),
        decreases n - i,
    {
        let ghost before = r@;
        assert(arg_texts(lines@.take(i + 1)).drop_last() =~= arg_texts(lines@.take(i as int)));
        if i > 0 {
            r.append("\n");
        } else {
            assert(arg_texts(lines@.take(0)) =~= Seq::<Seq<char>>::empty());
        }
        r.append(lines[i].as_str());
        i = i + 1;
    }
    assert(lines@.take(n as int) =~= lines@);
    r
}

/// How a finished changing command ends: `Ok` when it exited with code
/// zero, otherwise `CommandFailed` with its (non-zero) code and the stderr
/// lines joined by newlines.
pub fn action_outcome(code: Option<i32>, stderr_lines: &Vec<String>) -> (r: Result<(), WingetError>)
    ensures
        exited_ok(code) ==> r is Ok,
        !exited_ok(code) ==> (r matches Err(e) && e matches WingetError::CommandFailed {
            code: c,
            stderr,
        } && c == reported_code(code) && c != 0 && stderr@ == join_lines(arg_texts(stderr_lines@))),
{
    let ok = match code {
        Some(c) => c == 0,
        None => false,
    };
    if ok {
        Ok(())
    } else {
        let c = match code {
            Some(c) => c,
            None => -1,
        };
        Err(WingetError::CommandFailed { code: c, stderr: join_with_newlines(stderr_lines) })
    }
}

} // verus!
