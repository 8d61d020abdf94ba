use skribo::segment::{get_script_run, script_runs};
use skribo::tables::{SCRIPT_COMMON, SCRIPT_DEVANAGARI, SCRIPT_LATIN, SCRIPT_UNKNOWN};

#[test]
fn common_attaches_to_preceding_run() {
    let text = "A5ब";
    assert_eq!(get_script_run(text), (SCRIPT_LATIN, 2));
    assert_eq!(get_script_run(&text[2..]), (SCRIPT_DEVANAGARI, 3));
}

#[test]
fn empty_text_has_unknown_run() {
    assert_eq!(get_script_run(""), (SCRIPT_UNKNOWN, 0));
    assert!(script_runs("").is_empty());
}

#[test]
fn leading_common_takes_first_concrete_script() {
    assert_eq!(get_script_run("5 A b"), (SCRIPT_LATIN, 5));
}

#[test]
fn inherited_alone_counts_as_common() {
    assert_eq!(get_script_run("\u{301}\u{302}"), (SCRIPT_COMMON, 4));
    assert_eq!(get_script_run("12"), (SCRIPT_COMMON, 2));
}

#[test]
fn runs_consume_whole_text() {
    let text = "Hello हिन्दी world";
    let runs = script_runs(text);
    assert_eq!(
        runs,
        vec![(SCRIPT_LATIN, 6), (SCRIPT_DEVANAGARI, 19), (SCRIPT_LATIN, 5)]
    );
    let total: usize = runs.iter().map(|r| r.1).sum();
    assert_eq!(total, text.len());
}

#[test]
fn runs_match_successive_script_runs() {
    let text = "abc абв 中文 123";
    let runs = script_runs(text);
    let mut rest = text;
    let mut k = 0;
    while !rest.is_empty() {
        let (script, len) = get_script_run(rest);
        assert!(len > 0);
        assert_eq!(runs[k], (script, len));
        rest = &rest[len..];
        k += 1;
    }
    assert_eq!(k, runs.len());
}
