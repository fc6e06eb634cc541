use framecap::propagate::{
    basename, candidate_executable, inject_alloc_size, launch_plan, matches_target,
    should_inject, TargetPattern, CREATE_SUSPENDED,
};

#[test]
fn target_name_matching_is_case_insensitive_on_the_file_name() {
    let pat = TargetPattern::compile("^notepad\\.exe$").unwrap();
    // The explicit image name, in any case.
    assert!(should_inject(&pat, Some(&b"NOTEPAD.EXE".to_vec()), None));
    // No image name: the command line's first token, reduced to its
    // file name.
    assert!(should_inject(&pat, None, Some("C:\\x\\y\\notepad.exe --flag")));
    // A different executable does not match an anchored pattern.
    assert!(!should_inject(&pat, Some(&b"notepad2.exe".to_vec()), None));
    // Nothing to name the process: no match.
    assert!(!should_inject(&pat, None, None));
}

#[test]
fn invalid_patterns_disable_matching() {
    assert!(TargetPattern::compile("(unclosed").is_none());
    assert!(TargetPattern::compile("a+").is_some());
    // The one-shot decision treats a broken pattern as feature off.
    assert!(!matches_target("(unclosed", Some(&b"anything".to_vec()), None));
    assert!(matches_target("^game", Some(&b"GAME.exe".to_vec()), None));
}

#[test]
fn candidate_comes_from_image_name_else_command_line() {
    let c = candidate_executable(Some(&b"C:\\apps\\game.exe".to_vec()), Some("ignored"));
    assert_eq!(c, Some(b"game.exe".to_vec()));
    let c = candidate_executable(None, Some("\"C:\\a b\\tool.exe\" --x"));
    assert_eq!(c, Some(b"tool.exe".to_vec()));
    let c = candidate_executable(None, Some(""));
    assert_eq!(c, None);
}

#[test]
fn basename_takes_the_part_after_the_last_separator() {
    assert_eq!(basename(&b"C:\\x\\y\\notepad.exe".to_vec()), b"notepad.exe".to_vec());
    assert_eq!(basename(&b"/usr/bin/app".to_vec()), b"app".to_vec());
    assert_eq!(basename(&b"plain".to_vec()), b"plain".to_vec());
    assert_eq!(basename(&b"dir\\".to_vec()), b"".to_vec());
}

#[test]
fn children_start_suspended_and_resume_only_for_the_caller() {
    let p = launch_plan(0, true);
    assert_eq!(p.flags_to_use, CREATE_SUSPENDED);
    assert!(p.inject);
    assert!(p.resume_after);
    // The caller asked for suspension itself: it stays suspended.
    let p = launch_plan(CREATE_SUSPENDED | 0x10, false);
    assert_eq!(p.flags_to_use, CREATE_SUSPENDED | 0x10);
    assert!(!p.inject);
    assert!(!p.resume_after);
}

#[test]
fn injection_writes_path_and_terminator_in_wide_chars() {
    assert_eq!(inject_alloc_size(5), 12);
    assert_eq!(inject_alloc_size(0), 2);
}
