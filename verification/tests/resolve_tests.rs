use taskhost::errors::TaskError;
use taskhost::models::Task;
use taskhost::resolve::{build_command, get_env_vars};

fn pending_task(env_type: &str, command: &str, env_name: Option<&str>) -> Task {
    Task::new_pending(
        String::from("task-1"),
        String::from("alice"),
        String::from("job"),
        String::from(command),
        String::from("[]"),
        String::from(env_type),
        env_name.map(String::from),
        Some(String::from("/tmp")),
        1000,
    )
}

const KERNEL_JSON: &str = "{\"argv\": [\"/opt/env/bin/python\", \"-m\", \"ipykernel_launcher\"], \"display_name\": \"Py\", \"language\": \"python\"}";

const KERNEL_JSON_EMPTY_ARGV: &str =
    "{\"argv\": [], \"display_name\": \"Py\", \"language\": \"python\"}";

#[test]
fn shell_resolution() {
    let task = pending_task("shell", "echo hi | wc -c", None);
    let (prog, args) = build_command(&task, None).unwrap();
    assert_eq!(prog, "sh");
    assert_eq!(args, vec!["-c".to_string(), "echo hi | wc -c".to_string()]);
}

#[test]
fn resolution_is_deterministic() {
    let task = pending_task("conda", "python train.py", Some("ml"));
    let first = build_command(&task, None).unwrap();
    let second = build_command(&task, None).unwrap();
    assert_eq!(first.0, second.0);
    assert_eq!(first.1, second.1);
}

#[test]
fn conda_family_without_name_fails() {
    for kind in ["conda", "mamba", "micromamba"] {
        let task = pending_task(kind, "echo hi", None);
        let err = build_command(&task, None).unwrap_err();
        assert_eq!(err, TaskError::MissingEnvironmentName);
    }
}

#[test]
fn conda_resolution_exact() {
    let task = pending_task("conda", "echo hi", Some("X"));
    let (prog, args) = build_command(&task, None).unwrap();
    assert_eq!(prog, "conda");
    assert_eq!(
        args,
        vec![
            "run".to_string(),
            "-n".to_string(),
            "X".to_string(),
            "--no-capture-output".to_string(),
            "sh".to_string(),
            "-c".to_string(),
            "echo hi".to_string(),
        ]
    );
}

#[test]
fn mamba_uses_its_own_binary() {
    let task = pending_task("mamba", "echo hi", Some("X"));
    let (prog, _) = build_command(&task, None).unwrap();
    assert_eq!(prog, "mamba");
}

#[test]
fn uv_resolution_exact() {
    let task = pending_task("uv", "pytest -q", None);
    let (prog, args) = build_command(&task, None).unwrap();
    assert_eq!(prog, "uv");
    assert_eq!(
        args,
        vec![
            "run".to_string(),
            "sh".to_string(),
            "-c".to_string(),
            "pytest -q".to_string(),
        ]
    );
}

#[test]
fn unknown_environment_fails() {
    let task = pending_task("docker", "echo hi", None);
    let err = build_command(&task, None).unwrap_err();
    assert_eq!(err, TaskError::UnsupportedEnvironment);
}

#[test]
fn jupyter_resolution_uses_shell() {
    let task = pending_task("jupyter", "python train.py", Some("/tmp/kernel.json"));
    let source = String::from(KERNEL_JSON);
    let (prog, args) = build_command(&task, Some(&source)).unwrap();
    assert_eq!(prog, "sh");
    assert_eq!(args, vec!["-c".to_string(), "python train.py".to_string()]);
}

#[test]
fn jupyter_path_override_prefix() {
    let task = pending_task("jupyter", "python train.py", Some("/tmp/kernel.json"));
    let source = String::from(KERNEL_JSON);
    let path = String::from("/usr/bin:/bin");
    let envs = get_env_vars(&task, Some(&source), Some(&path)).unwrap();
    assert_eq!(envs.len(), 1);
    assert_eq!(envs[0].0, "PATH");
    assert_eq!(envs[0].1, "/opt/env/bin:/usr/bin:/bin");
    assert!(envs[0].1.starts_with("/opt/env/bin:"));
}

#[test]
fn jupyter_empty_argv_fails() {
    let task = pending_task("jupyter", "python train.py", Some("/tmp/kernel.json"));
    let source = String::from(KERNEL_JSON_EMPTY_ARGV);
    let err = build_command(&task, Some(&source)).unwrap_err();
    assert_eq!(err, TaskError::InvalidKernelSpec);
}

#[test]
fn jupyter_unparsable_spec_fails() {
    let task = pending_task("jupyter", "python train.py", Some("/tmp/kernel.json"));
    let source = String::from("not json at all");
    let err = build_command(&task, Some(&source)).unwrap_err();
    assert_eq!(err, TaskError::InvalidKernelSpec);
    let missing_fields = String::from("{\"argv\": [\"/opt/env/bin/python\"]}");
    let err = build_command(&task, Some(&missing_fields)).unwrap_err();
    assert_eq!(err, TaskError::InvalidKernelSpec);
}

#[test]
fn jupyter_unreadable_spec_fails() {
    let task = pending_task("jupyter", "python train.py", Some("/tmp/kernel.json"));
    let err = build_command(&task, None).unwrap_err();
    assert_eq!(err, TaskError::InvalidKernelSpec);
}

#[test]
fn non_jupyter_has_no_env_overrides() {
    let task = pending_task("shell", "echo hi", None);
    let path = String::from("/usr/bin");
    let envs = get_env_vars(&task, None, Some(&path)).unwrap();
    assert!(envs.is_empty());
}

#[test]
fn jupyter_overrides_empty_when_path_unknown() {
    let task = pending_task("jupyter", "x", Some("/tmp/kernel.json"));
    let source = String::from(KERNEL_JSON);
    let envs = get_env_vars(&task, Some(&source), None).unwrap();
    assert!(envs.is_empty());
}

#[test]
fn error_descriptions() {
    assert_eq!(TaskError::NotFound.describe(), "task not found");
    assert_eq!(TaskError::PersistenceFailure.describe(), "task store failure");
    assert_eq!(TaskError::WriteFailure.describe(), "failed to write to pty");
}
