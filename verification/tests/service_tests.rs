use zaprett::service::{
    bin_version_from_output, complete_strategy, is_blank, merge_contents, nfqws_args,
    nfqws_finished, nfqws_running, plan_lists, queue_setup_changes, queue_teardown_changes,
    request_start, select_strategy, service_status, status_line, text_equals, version_from_match,
    Config, LaunchDecision, LauncherState, ListType, RuleAction, DEFAULT_STRATEGY,
};

fn sample_config() -> Config {
    Config {
        active_lists: vec!["/sdcard/zaprett/lists/a.txt".to_string()],
        active_ipsets: vec!["/sdcard/zaprett/ipsets/b.txt".to_string()],
        active_exclude_lists: vec!["/sdcard/zaprett/lists/c.txt".to_string()],
        active_exclude_ipsets: vec![],
        list_type: "whitelist".to_string(),
        strategy: "/sdcard/zaprett/strategies/s.txt".to_string(),
        app_list: "none".to_string(),
        whitelist: vec![],
        blacklist: vec![],
    }
}

#[test]
fn list_type_names() {
    assert_eq!(ListType::from_name("whitelist"), Some(ListType::Whitelist));
    assert_eq!(ListType::from_name("blacklist"), Some(ListType::Blacklist));
    assert_eq!(ListType::from_name("Whitelist"), None);
    assert_eq!(ListType::from_name(""), None);
}

#[test]
fn text_equality() {
    assert!(text_equals("abc", "abc"));
    assert!(!text_equals("abc", "abd"));
    assert!(!text_equals("ab", "abc"));
}

#[test]
fn whitelist_plan() {
    let plan = plan_lists(sample_config(), ListType::Whitelist);
    assert_eq!(plan.hostlist_sources, vec!["/sdcard/zaprett/lists/a.txt"]);
    assert_eq!(plan.ipset_sources, vec!["/sdcard/zaprett/ipsets/b.txt"]);
    assert_eq!(plan.hostlist_path, "/data/adb/modules/zaprett/tmp/hostlist");
    assert_eq!(plan.ipset_path, "/data/adb/modules/zaprett/tmp/ipset");
    assert_eq!(plan.hostlist_arg, "--hostlist=/data/adb/modules/zaprett/tmp/hostlist");
    assert_eq!(plan.ipset_arg, "--ipset=/data/adb/modules/zaprett/tmp/ipset");
}

#[test]
fn blacklist_plan() {
    let plan = plan_lists(sample_config(), ListType::Blacklist);
    assert_eq!(plan.hostlist_sources, vec!["/sdcard/zaprett/lists/c.txt"]);
    assert!(plan.ipset_sources.is_empty());
    assert_eq!(plan.hostlist_path, "/data/adb/modules/zaprett/tmp/hostlist-exclude");
    assert_eq!(plan.ipset_path, "/data/adb/modules/zaprett/tmp/ipset-exclude");
    assert_eq!(
        plan.hostlist_arg,
        "--hostlist-exclude=/data/adb/modules/zaprett/tmp/hostlist-exclude"
    );
    assert_eq!(plan.ipset_arg, "--ipset-exclude=/data/adb/modules/zaprett/tmp/ipset-exclude");
}

#[test]
fn default_strategy_text() {
    let expected = "
        --filter-tcp=80 --dpi-desync=fake,split2 --dpi-desync-autottl=2 --dpi-desync-fooling=md5sig,badsum $hostlist --new
        --filter-tcp=443 $hostlist --dpi-desync=fake,split2 --dpi-desync-repeats=6 --dpi-desync-fooling=md5sig,badsum --dpi-desync-fake-tls=${zaprettdir}/bin/tls_clienthello_www_google_com.bin --new
        --filter-tcp=80,443 --dpi-desync=fake,disorder2 --dpi-desync-repeats=6 --dpi-desync-autottl=2 --dpi-desync-fooling=md5sig,badsum $hostlist --new
        --filter-udp=50000-50100 --dpi-desync=fake --dpi-desync-any-protocol --dpi-desync-fake-quic=0xC30000000108 --new
        --filter-udp=443 $hostlist --dpi-desync=fake --dpi-desync-repeats=6 --dpi-desync-fake-quic=${zaprettdir}/bin/quic_initial_www_google_com.bin --new
        --filter-udp=443 --dpi-desync=fake --dpi-desync-repeats=6 $hostlist
        ";
    assert_eq!(DEFAULT_STRATEGY, expected);
    assert_eq!(select_strategy(None), expected);
    assert_eq!(select_strategy(Some("--x".to_string())), "--x");
}

#[test]
fn strategy_placeholders_are_filled_for_whitelist() {
    let plan = plan_lists(sample_config(), ListType::Whitelist);
    let s = complete_strategy("--a $hostlist --b $ipset --c=${zaprettdir}/bin/x $zaprettdir", &plan)
        .unwrap();
    assert_eq!(
        s,
        "--a --hostlist=/data/adb/modules/zaprett/tmp/hostlist --b --ipset=/data/adb/modules/zaprett/tmp/ipset --c=/sdcard/zaprett/bin/x /sdcard/zaprett"
    );
}

#[test]
fn strategy_placeholders_are_filled_for_blacklist() {
    let plan = plan_lists(sample_config(), ListType::Blacklist);
    let s = complete_strategy("$hostlist $ipset", &plan).unwrap();
    assert_eq!(
        s,
        "--hostlist-exclude=/data/adb/modules/zaprett/tmp/hostlist-exclude --ipset-exclude=/data/adb/modules/zaprett/tmp/ipset-exclude"
    );
}

#[test]
fn default_strategy_is_completed() {
    let plan = plan_lists(sample_config(), ListType::Whitelist);
    let s = complete_strategy(DEFAULT_STRATEGY, &plan).unwrap();
    assert!(!s.contains('$'));
    assert!(s.contains("--dpi-desync-fake-tls=/sdcard/zaprett/bin/tls_clienthello_www_google_com.bin"));
    assert_eq!(s.matches("--hostlist=/data/adb/modules/zaprett/tmp/hostlist").count(), 5);
}

#[test]
fn merged_contents_are_concatenated() {
    let parts = vec!["a.com\n".to_string(), String::new(), "b.com\nc.com\n".to_string()];
    assert_eq!(merge_contents(&parts), "a.com\nb.com\nc.com\n");
    assert_eq!(merge_contents(&vec![]), "");
}

#[test]
fn blank_texts() {
    assert!(is_blank(""));
    assert!(is_blank(" \t\n\u{3000}"));
    assert!(!is_blank(" x "));
}

#[test]
fn nfqws_args_of_blank_options() {
    assert_eq!(nfqws_args(""), vec!["nfqws", "-v"]);
    assert_eq!(nfqws_args("  \n "), vec!["nfqws", "-v"]);
}

#[test]
fn nfqws_args_of_options() {
    assert_eq!(nfqws_args("--uid=0:0 --qnum=200"), vec!["nfqws", "--uid=0:0", "--qnum=200"]);
    assert_eq!(
        nfqws_args("\n  --filter-tcp=80   --new\n\t--filter-udp=443 "),
        vec!["nfqws", "--filter-tcp=80", "--new", "--filter-udp=443"]
    );
}

#[test]
fn launcher_runs_one_nfqws_at_a_time() {
    let (state, decision) = request_start(LauncherState::Idle, "--qnum=200");
    assert_eq!(state, LauncherState::Running);
    match decision {
        LaunchDecision::Launch(argv) => assert_eq!(argv, vec!["nfqws", "--qnum=200"]),
        LaunchDecision::AlreadyRunning => panic!("first start must launch"),
    }
    let (state, decision) = request_start(state, "--qnum=200");
    assert_eq!(state, LauncherState::Running);
    assert!(matches!(decision, LaunchDecision::AlreadyRunning));
    let state = nfqws_finished(state);
    assert_eq!(state, LauncherState::Idle);
    let (_, decision) = request_start(state, "");
    assert!(matches!(decision, LaunchDecision::Launch(_)));
}

#[test]
fn status_of_processes() {
    let running = vec!["init".to_string(), "nfqws".to_string()];
    let stopped = vec!["init".to_string(), "nfqws2".to_string()];
    assert!(nfqws_running(&running));
    assert!(!nfqws_running(&stopped));
    assert!(!nfqws_running(&vec![]));
    assert_eq!(service_status(&running), "zaprett is working");
    assert_eq!(service_status(&stopped), "zaprett is stopped");
    assert_eq!(status_line(true), "zaprett is working");
    assert_eq!(status_line(false), "zaprett is stopped");
}

#[test]
fn queue_rules_setup_and_teardown() {
    let setup = queue_setup_changes();
    let teardown = queue_teardown_changes();
    let targets = [("mangle", "POSTROUTING"), ("mangle", "PREROUTING"), ("filter", "FORWARD")];
    assert_eq!(setup.len(), 3);
    assert_eq!(teardown.len(), 3);
    for i in 0..3 {
        assert_eq!((setup[i].table, setup[i].chain), targets[i]);
        assert_eq!((teardown[i].table, teardown[i].chain), targets[i]);
        assert_eq!(setup[i].rule, "-j NFQUEUE --queue-num 200 --queue-bypass");
        assert_eq!(teardown[i].rule, setup[i].rule);
        assert_eq!(teardown[i].action, RuleAction::Delete);
    }
    assert_eq!(setup[0].action, RuleAction::Insert(1));
    assert_eq!(setup[1].action, RuleAction::Insert(1));
    assert_eq!(setup[2].action, RuleAction::Append);
}

#[test]
fn bin_version_is_read_from_output() {
    let out = "github version v71.1.1 (zapret)\nsome more text";
    assert_eq!(bin_version_from_output(out), Some("v71.1.1".to_string()));
    assert_eq!(bin_version_from_output("nfqws: unknown option"), None);
    assert_eq!(version_from_match("version v70.5"), Some("v70.5".to_string()));
    assert_eq!(version_from_match("version"), None);
}

#[test]
fn invalid_pattern_is_refused() {
    assert!(zaprett::pattern::Pattern::new("(unclosed").is_err());
    assert!(zaprett::pattern::Pattern::new("version v[0-9.]+").is_ok());
}
