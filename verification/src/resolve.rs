use vstd::prelude::*;
use vstd::string::StringExecFns;

use crate::errors::TaskError;
use crate::models::Task;
use crate::paths::{parent_dir, spec_parent_dir};
use crate::text::str_eq;

verus! {

/// Whether the environment kind is one of the conda family.
pub open spec fn is_conda_family(k: Seq<char>) -> bool {
    k == "conda"@ || k == "mamba"@ || k == "micromamba"@
}

/// Whether the environment kind is supported at all.
pub open spec fn is_supported_env(k: Seq<char>) -> bool {
    k == "shell"@ || is_conda_family(k) || k == "uv"@ || k == "jupyter"@
}

/// The `argv` array of a kernel-spec document, when the text is a
/// JSON object with an `argv` array of strings and string
/// `display_name` and `language` fields; nothing otherwise.
pub uninterp spec fn kernel_spec_argv(text: Seq<char>) -> Option<Seq<Seq<char>>>;

/// Relies on serde_json::from_str and serde_json::Value accessors:
/// deserializing the kernel-spec document is a function of the text
/// alone. Returns the document's `argv` strings when the text parses
/// as an object with an `argv` array of strings and string
/// `display_name` and `language` fields.
#[verifier::external_body]
pub(crate) fn parse_kernel_argv(text: &str) -> (r: Option<Vec<String>>)
    ensures
        r is Some <==> kernel_spec_argv(text@) is Some,
        r matches Some(v) ==> kernel_spec_argv(text@) matches Some(a) && v.deep_view() == a,
{
    let value: serde_json::Value = serde_json::from_str(text).ok()?;
    let argv = value.get("argv")?.as_array()?;
    value.get("display_name")?.as_str()?;
    value.get("language")?.as_str()?;
    let mut out: Vec<String> = Vec::with_capacity(argv.len());
    for item in argv {
        out.push(item.as_str()?.to_owned());
    }
    Some(out)
}

/// The view of an optional string.
pub open spec fn opt_text(o: Option<&String>) -> Option<Seq<char>> {
    match o {
        Some(s) => Some(s@),
        None => None,
    }
}

/// The view of an optional owned string.
pub open spec fn opt_text_owned(o: Option<String>) -> Option<Seq<char>> {
    match o {
        Some(s) => Some(s@),
        None => None,
    }
}

/// What command resolution yields: the program and its argument list,
/// as a function of the task's environment kind, command, environment
/// reference, and (for jupyter) the kernel-spec text.
///
/// The raw command string is always handed to a shell so that pipes
/// and redirection work unmodified; conda-family kinds wrap that
/// shell in the kind's own `run` invocation.
pub open spec fn spec_resolution(
    env_type: Seq<char>,
    command: Seq<char>,
    env_name: Option<Seq<char>>,
    kernel: Option<Seq<char>>,
) -> Result<(Seq<char>, Seq<Seq<char>>), TaskError> {
    if env_type == "shell"@ {
        Ok(("sh"@, seq!["-c"@, command]))
    } else if is_conda_family(env_type) {
        match env_name {
            None => Err(TaskError::MissingEnvironmentName),
            Some(n) => Ok(
                (env_type, seq!["run"@, "-n"@, n, "--no-capture-output"@, "sh"@, "-c"@, command]),
            ),
        }
    } else if env_type == "uv"@ {
        Ok(("uv"@, seq!["run"@, "sh"@, "-c"@, command]))
    } else if env_type == "jupyter"@ {
        match kernel {
            None => Err(TaskError::InvalidKernelSpec),
            Some(text) => match kernel_spec_argv(text) {
                None => Err(TaskError::InvalidKernelSpec),
                Some(argv) => if argv.len() == 0 {
                    Err(TaskError::InvalidKernelSpec)
                } else if spec_parent_dir(argv[0]) is None {
                    Err(TaskError::InvalidKernelSpec)
                } else {
                    Ok(("sh"@, seq!["-c"@, command]))
                },
            },
        }
    } else {
        Err(TaskError::UnsupportedEnvironment)
    }
}

/// Resolution accepts exactly the supported environment kinds: an
/// unsupported kind fails with UnsupportedEnvironment whatever the
/// other inputs, and a supported kind never fails with it.
pub proof fn lemma_supported_kinds_are_resolved(
    env_type: Seq<char>,
    command: Seq<char>,
    env_name: Option<Seq<char>>,
    kernel: Option<Seq<char>>,
)
    ensures
        !is_supported_env(env_type) <==> spec_resolution(env_type, command, env_name, kernel)
            == Err::<(Seq<char>, Seq<Seq<char>>), TaskError>(TaskError::UnsupportedEnvironment),
{
}

/// Resolve a task to the program and argument list to spawn.
///
/// `kernel_source` is the text of the kernel-spec document named by
/// the task's environment reference, or None where there is none or
/// it could not be read; it matters only for jupyter tasks.
pub fn build_command(task: &Task, kernel_source: Option<&String>) -> (r: Result<
    (String, Vec<String>),
    TaskError,
>)
    ensures
        ({
            let sr = spec_resolution(
                task.env_type@,
                task.command@,
                opt_text_owned(task.env_name),
                opt_text(kernel_source),
            );
            match r {
                Ok(pa) => sr matches Ok(sa) && pa.0@ == sa.0 && pa.1.deep_view() == sa.1,
                Err(e) => sr matches Err(se) && se == e,
            }
        }),
{
    let et = task.env_type.as_str();
    if str_eq(et, "shell") {
        let mut args: Vec<String> = Vec::new();
        args.push(String::from_str("-c"));
        args.push(task.command.clone());
        assert(args.deep_view() =~~= seq!["-c"@, task.command@]);
        Ok((String::from_str("sh"), args))
    } else if str_eq(et, "conda") || str_eq(et, "mamba") || str_eq(et, "micromamba") {
        match &task.env_name {
            None => Err(TaskError::MissingEnvironmentName),
            Some(n) => {
                let mut args: Vec<String> = Vec::new();
                args.push(String::from_str("run"));
                args.push(String::from_str("-n"));
                args.push(n.clone());
                args.push(String::from_str("--no-capture-output"));
                args.push(String::from_str("sh"));
                args.push(String::from_str("-c"));
                args.push(task.command.clone());
                assert(args.deep_view() =~~= seq![
                    "run"@,
                    "-n"@,
                    n@,
                    "--no-capture-output"@,
                    "sh"@,
                    "-c"@,
                    task.command@,
                ]);
                Ok((task.env_type.clone(), args))
            },
        }
    } else if str_eq(et, "uv") {
        let mut args: Vec<String> = Vec::new();
        args.push(String::from_str("run"));
        args.push(String::from_str("sh"));
        args.push(String::from_str("-c"));
        args.push(task.command.clone());
        assert(args.deep_view() =~~= seq!["run"@, "sh"@, "-c"@, task.command@]);
        Ok((String::from_str("uv"), args))
    } else if str_eq(et, "jupyter") {
        let source = match kernel_source {
            None => {
                return Err(TaskError::InvalidKernelSpec);
            },
            Some(s) => s,
        };
        let argv = match parse_kernel_argv(source.as_str()) {
            None => {
                return Err(TaskError::InvalidKernelSpec);
            },
            Some(v) => v,
        };
        if argv.len() == 0 {
            return Err(TaskError::InvalidKernelSpec);
        }
        assert(argv.deep_view()[0] == argv@[0]@);
        match parent_dir(argv[0].as_str()) {
            None => Err(TaskError::InvalidKernelSpec),
            Some(_) => {
                let mut args: Vec<String> = Vec::new();
                args.push(String::from_str("-c"));
                args.push(task.command.clone());
                assert(args.deep_view() =~~= seq!["-c"@, task.command@]);
                Ok((String::from_str("sh"), args))
            },
        }
    } else {
        Err(TaskError::UnsupportedEnvironment)
    }
}

/// What the environment overrides are: for a jupyter task whose
/// kernel spec parses, names a program with a directory, and where
/// the search path is known, the single override prepending that
/// directory to the search path; otherwise none. A jupyter kernel
/// spec that is missing or does not parse is an error.
pub open spec fn spec_env_overrides(
    env_type: Seq<char>,
    kernel: Option<Seq<char>>,
    path_var: Option<Seq<char>>,
) -> Result<Seq<(Seq<char>, Seq<char>)>, TaskError> {
    if env_type == "jupyter"@ {
        match kernel {
            None => Err(TaskError::InvalidKernelSpec),
            Some(text) => match kernel_spec_argv(text) {
                None => Err(TaskError::InvalidKernelSpec),
                Some(argv) => if argv.len() == 0 {
                    Ok(Seq::empty())
                } else {
                    match spec_parent_dir(argv[0]) {
                        None => Ok(Seq::empty()),
                        Some(dir) => match path_var {
                            None => Ok(Seq::empty()),
                            Some(p) => Ok(seq![("PATH"@, dir + ":"@ + p)]),
                        },
                    }
                },
            },
        }
    } else {
        Ok(Seq::empty())
    }
}

/// The view of a list of environment overrides.
pub open spec fn pairs_view(v: Seq<(String, String)>) -> Seq<(Seq<char>, Seq<char>)> {
    v.map_values(|p: (String, String)| (p.0@, p.1@))
}

/// Compute the environment overrides for a task.
///
/// `kernel_source` is as for `build_command`; `path_var` is the
/// current value of the search-path variable, obtained by the caller.
/// The directory prefix is computed exactly as resolution computes
/// it, so the two stay in step.
pub fn get_env_vars(task: &Task, kernel_source: Option<&String>, path_var: Option<&String>) -> (r:
    Result<Vec<(String, String)>, TaskError>)
    ensures
        ({
            let sr = spec_env_overrides(
                task.env_type@,
                opt_text(kernel_source),
                opt_text(path_var),
            );
            match r {
                Ok(v) => sr matches Ok(sv) && pairs_view(v@) == sv,
                Err(e) => sr matches Err(se) && se == e,
            }
        }),
{
    let et = task.env_type.as_str();
    if !str_eq(et, "jupyter") {
        let out: Vec<(String, String)> = Vec::new();
        assert(pairs_view(out@) =~~= Seq::<(Seq<char>, Seq<char>)>::empty());
        return Ok(out);
    }
    let source = match kernel_source {
        None => {
            return Err(TaskError::InvalidKernelSpec);
        },
        Some(s) => s,
    };
    let argv = match parse_kernel_argv(source.as_str()) {
        None => {
            return Err(TaskError::InvalidKernelSpec);
        },
        Some(v) => v,
    };
    if argv.len() == 0 {
        let out: Vec<(String, String)> = Vec::new();
        assert(pairs_view(out@) =~~= Seq::<(Seq<char>, Seq<char>)>::empty());
        return Ok(out);
    }
    assert(argv.deep_view()[0] == argv@[0]@);
    let dir = match parent_dir(argv[0].as_str()) {
        None => {
            let out: Vec<(String, String)> = Vec::new();
            assert(pairs_view(out@) =~~= Seq::<(Seq<char>, Seq<char>)>::empty());
            return Ok(out);
        },
        Some(d) => d,
    };
    let path = match path_var {
        None => {
            let out: Vec<(String, String)> = Vec::new();
            assert(pairs_view(out@) =~~= Seq::<(Seq<char>, Seq<char>)>::empty());
            return Ok(out);
        },
        Some(p) => p,
    };
    let ghost dir_view = dir@;
    let mut value = dir;
    value.append(":");
    value.append(path.as_str());
    let mut out: Vec<(String, String)> = Vec::new();
    out.push((String::from_str("PATH"), value));
    assert(pairs_view(out@) =~~= seq![("PATH"@, dir_view + ":"@ + path@)]);
    Ok(out)
}

} // verus!
