use taskhost::alerts::{attached_note, email_body, email_subject};
use taskhost::auth::{claims_for, login_permitted, strip_bearer};
use taskhost::metrics::parse_gpu_line;
use taskhost::models::{Task, TaskStatus};
use taskhost::numtext::{i64_to_dec, parse_u32, parse_u64, u64_to_dec};
use taskhost::paths::parent_dir;
use taskhost::text::{split_on, str_eq, str_has_prefix, trim_blanks};

#[test]
fn decimal_rendering_exact() {
    assert_eq!(u64_to_dec(0), "0");
    assert_eq!(u64_to_dec(7), "7");
    assert_eq!(u64_to_dec(10), "10");
    assert_eq!(u64_to_dec(31337), "31337");
    assert_eq!(u64_to_dec(u64::MAX), "18446744073709551615");
    assert_eq!(i64_to_dec(-1), "-1");
    assert_eq!(i64_to_dec(0), "0");
    assert_eq!(i64_to_dec(i64::MIN), "-9223372036854775808");
}

#[test]
fn decimal_parsing_exact() {
    assert_eq!(parse_u64("0"), Some(0));
    assert_eq!(parse_u64("42"), Some(42));
    assert_eq!(parse_u64("18446744073709551615"), Some(u64::MAX));
    assert_eq!(parse_u64("18446744073709551616"), None);
    assert_eq!(parse_u64(""), None);
    assert_eq!(parse_u64("12a"), None);
    assert_eq!(parse_u64("-3"), None);
    assert_eq!(parse_u32("4294967295"), Some(u32::MAX));
    assert_eq!(parse_u32("4294967296"), None);
}

#[test]
fn string_helpers() {
    assert!(str_eq("abc", "abc"));
    assert!(!str_eq("abc", "abd"));
    assert!(!str_eq("abc", "ab"));
    assert!(str_has_prefix("Bearer tok", "Bearer "));
    assert!(!str_has_prefix("Basic tok", "Bearer "));
    assert_eq!(trim_blanks("  NVIDIA A100  "), "NVIDIA A100");
    assert_eq!(trim_blanks("\t42 "), "42");
    assert_eq!(trim_blanks("   "), "");
    assert_eq!(split_on("a,b,,c", ','), vec!["a", "b", "", "c"]);
    assert_eq!(split_on("", ','), vec![""]);
    assert_eq!(split_on("xyz", ','), vec!["xyz"]);
}

#[test]
fn parent_dir_cases() {
    assert_eq!(parent_dir("/opt/env/bin/python"), Some("/opt/env/bin".to_string()));
    assert_eq!(parent_dir("/python"), Some("/".to_string()));
    assert_eq!(parent_dir("python"), Some("".to_string()));
    assert_eq!(parent_dir("/"), None);
    assert_eq!(parent_dir(""), None);
    assert_eq!(parent_dir("/opt/env/"), Some("/opt".to_string()));
}

#[test]
fn gpu_line_parses_exactly() {
    let g = parse_gpu_line("NVIDIA A100, 97, 40312, 40960").unwrap();
    assert_eq!(g.name, "NVIDIA A100");
    assert_eq!(g.util, 97);
    assert_eq!(g.mem_used, 40312);
    assert_eq!(g.mem_total, 40960);
}

#[test]
fn gpu_line_too_few_fields() {
    assert!(parse_gpu_line("NVIDIA A100, 97, 40312").is_none());
    assert!(parse_gpu_line("").is_none());
}

#[test]
fn gpu_line_bad_numbers_count_as_zero() {
    let g = parse_gpu_line("GPU, [N/A], x, 8").unwrap();
    assert_eq!(g.util, 0);
    assert_eq!(g.mem_used, 0);
    assert_eq!(g.mem_total, 8);
}

#[test]
fn login_rules() {
    assert!(!login_permitted("root", 1000));
    assert!(!login_permitted("alice", 0));
    assert!(login_permitted("alice", 1000));
}

#[test]
fn claims_expiry_is_one_day_out() {
    let name = String::from("alice");
    let c = claims_for(&name, 1000, 1_700_000_000);
    assert_eq!(c.sub, "alice");
    assert_eq!(c.uid, 1000);
    assert_eq!(c.exp, 1_700_000_000 + 86400);
}

#[test]
fn bearer_stripping() {
    assert_eq!(strip_bearer("Bearer abc.def"), Some("abc.def".to_string()));
    assert_eq!(strip_bearer("Basic abc"), None);
    assert_eq!(strip_bearer("Bearer "), Some("".to_string()));
    assert_eq!(strip_bearer(""), None);
}

fn finished_task() -> Task {
    let mut t = Task::new_pending(
        String::from("id-7"),
        String::from("alice"),
        String::from("train"),
        String::from("python train.py"),
        String::from("[]"),
        String::from("shell"),
        None,
        None,
        50,
    );
    t.mark_running(Some(77), 100);
    t.finalize_owned(true, 160);
    t
}

#[test]
fn email_subject_exact() {
    let t = finished_task();
    assert_eq!(email_subject(&t), "Task Completed - train");
}

#[test]
fn email_body_exact() {
    let t = finished_task();
    let body = email_body(&t, "tail text");
    assert_eq!(
        body,
        "Task ID: id-7\nStatus: Completed\nCommand: python train.py\nDuration: 60s\nExit Code: Some(0)\n\n--- Last Output ---\ntail text"
    );
}

#[test]
fn email_body_without_timestamps() {
    let t = Task::new_pending(
        String::from("id-8"),
        String::from("alice"),
        String::from("n"),
        String::from("c"),
        String::from("[]"),
        String::from("shell"),
        None,
        None,
        50,
    );
    let body = email_body(&t, "");
    assert!(body.contains("Duration: Unknown"));
    assert!(body.contains("Exit Code: None"));
}

#[test]
fn attached_note_text() {
    assert_eq!(attached_note(), "Task attached via PID. Logs unavailable.");
}

#[test]
fn status_names() {
    assert_eq!(TaskStatus::Pending.name(), "Pending");
    assert_eq!(TaskStatus::Failed.name(), "Failed");
    assert_eq!(TaskStatus::Stopped.name(), "Stopped");
}
