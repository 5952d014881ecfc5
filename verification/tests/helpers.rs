use codeplan::control::{
    action_flag_str, parse_task_control_args, task_control_args, task_request, HttpMethod,
};
use codeplan::dashboard::TaskAction;
use codeplan::model::Error;
use codeplan::numeral::to_decimal;
use codeplan::resource::{cache_path_str, resource_endpoint_str, Resource};
use codeplan::ticker::{poll_timeout_ms, tick_due, TICK_INTERVAL_MS};

fn strings(parts: &[&str]) -> Vec<String> {
    parts.iter().map(|s| s.to_string()).collect()
}

#[test]
fn decimal_rendering_matches_by_hand_values() {
    assert_eq!(to_decimal(0), "0");
    assert_eq!(to_decimal(7), "7");
    assert_eq!(to_decimal(10), "10");
    assert_eq!(to_decimal(42), "42");
    assert_eq!(to_decimal(200), "200");
    assert_eq!(to_decimal(1234567890), "1234567890");
    assert_eq!(to_decimal(usize::MAX), usize::MAX.to_string());
}

#[test]
fn action_flags_spell_the_command_line() {
    assert_eq!(action_flag_str(TaskAction::Complete), "-complete");
    assert_eq!(action_flag_str(TaskAction::Delete), "-delete");
}

#[test]
fn task_control_args_carry_flag_and_identifier() {
    assert_eq!(task_control_args(TaskAction::Complete, 1), strings(&["-complete", "1"]));
    assert_eq!(task_control_args(TaskAction::Delete, 12), strings(&["-delete", "12"]));
}

#[test]
fn command_line_round_trips_through_the_parser() {
    for (action, flag) in [(TaskAction::Complete, "-complete"), (TaskAction::Delete, "-delete")] {
        let mut argv = strings(&["./codeplan-task-control"]);
        argv.extend(task_control_args(action, 3));
        assert_eq!(argv[1], flag);
        let (parsed, ident) = parse_task_control_args(&argv).expect("a built line parses");
        assert_eq!(parsed, action);
        assert_eq!(ident, "3");
    }
}

#[test]
fn parser_takes_the_entry_after_the_first_flag() {
    let argv = strings(&["prog", "noise", "-delete", "9", "tail"]);
    let (action, ident) = parse_task_control_args(&argv).expect("flag and identifier present");
    assert_eq!(action, TaskAction::Delete);
    assert_eq!(ident, "9");
}

#[test]
fn complete_flag_takes_precedence() {
    let argv = strings(&["prog", "-delete", "-complete", "5"]);
    let (action, ident) = parse_task_control_args(&argv).expect("complete flag wins");
    assert_eq!(action, TaskAction::Complete);
    // The scan for -complete finds position 2 and hands out the entry
    // right after it.
    assert_eq!(ident, "5");
}

#[test]
fn short_or_flagless_command_lines_are_rejected() {
    assert!(parse_task_control_args(&strings(&["prog", "-complete"])).is_none());
    assert!(parse_task_control_args(&strings(&["prog", "1", "-delete"])).is_none());
    assert!(parse_task_control_args(&strings(&["prog", "one", "two"])).is_none());
    assert!(parse_task_control_args(&strings(&[])).is_none());
}

#[test]
fn complete_request_posts_to_the_complete_endpoint() {
    let r = task_request(TaskAction::Complete, "3");
    assert_eq!(r.method, HttpMethod::Post);
    assert_eq!(r.url, "http://172.30.152.201:4000/tasks/3/complete");
}

#[test]
fn delete_request_deletes_the_task_endpoint() {
    let r = task_request(TaskAction::Delete, "12");
    assert_eq!(r.method, HttpMethod::Delete);
    assert_eq!(r.url, "http://172.30.152.201:4000/tasks/12");
}

#[test]
fn updater_pairs_each_endpoint_with_its_cache_file() {
    assert_eq!(resource_endpoint_str(Resource::Tasks), "http://172.30.152.201:4000/tasks/");
    assert_eq!(
        resource_endpoint_str(Resource::Comments),
        "http://172.30.152.201:4000/tasks/comments/"
    );
    assert_eq!(resource_endpoint_str(Resource::Projects), "http://172.30.152.201:4000/projects/");
    assert_eq!(cache_path_str(Resource::Tasks), "./cache/task.json");
    assert_eq!(cache_path_str(Resource::Comments), "./cache/comment.json");
    assert_eq!(cache_path_str(Resource::Projects), "./cache/project.json");
}

#[test]
fn producer_polls_only_until_the_deadline() {
    assert_eq!(poll_timeout_ms(TICK_INTERVAL_MS, 0), 200);
    assert_eq!(poll_timeout_ms(TICK_INTERVAL_MS, 50), 150);
    assert_eq!(poll_timeout_ms(TICK_INTERVAL_MS, 200), 0);
    assert_eq!(poll_timeout_ms(TICK_INTERVAL_MS, 500), 0);
}

#[test]
fn tick_fires_no_earlier_than_the_interval() {
    assert!(!tick_due(TICK_INTERVAL_MS, 0));
    assert!(!tick_due(TICK_INTERVAL_MS, 199));
    assert!(tick_due(TICK_INTERVAL_MS, 200));
    assert!(tick_due(TICK_INTERVAL_MS, 1000));
}

#[test]
fn cache_errors_describe_themselves() {
    assert_eq!(Error::ReadDBError.message(), "error reading the DB file");
    assert_eq!(Error::ParseDBError.message(), "error parsing the DB file");
}
