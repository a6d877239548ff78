use guest_emu::monitor::{push_duration_hms, ClientStats, UEMonitor, UserStats};

fn stats(corpus: u64, objectives: u64, executions: u64, user: &[(&str, &str)]) -> ClientStats {
    let mut user_monitor = UserStats::new();
    for (k, v) in user {
        assert_eq!(user_monitor.insert(k.to_string(), v.to_string()), None);
    }
    ClientStats { corpus_size: corpus, objective_size: objectives, executions, user_monitor }
}

#[test]
fn new_monitor_has_no_clients() {
    let monitor = UEMonitor::new(|_line: String| {});
    assert!(monitor.client_stats().is_empty());
    assert_eq!(monitor.corpus_size(), 0);
    assert_eq!(monitor.objective_size(), 0);
    assert_eq!(monitor.total_execs(), 0);
    assert_eq!(
        monitor.display("start", 0, 0, 0),
        "[start #0]: { run time: 0h-0m-0s, clients: 0, corpus: 0, objectives: 0, executions: 0, exec/sec: 0, \n\tper_c [] }"
    );
}

#[test]
fn monitor_keeps_its_printing_function() {
    let mut printed: Vec<String> = Vec::new();
    {
        let mut monitor = UEMonitor::new(|line: String| printed.push(line));
        let line = monitor.display("Testcase", 1, 61, 5);
        (monitor.print_fn())(line);
        (monitor.print_fn())(String::from("second"));
    }
    assert_eq!(
        printed,
        vec![
            String::from(
                "[Testcase #1]: { run time: 0h-1m-1s, clients: 0, corpus: 0, objectives: 0, executions: 0, exec/sec: 5, \n\tper_c [] }"
            ),
            String::from("second"),
        ]
    );
}

#[test]
fn display_sums_the_clients() {
    let mut monitor = UEMonitor::new(());
    monitor.client_stats_mut().push(stats(3, 1, 1000, &[("edges", "12/64")]));
    monitor.client_stats_mut().push(stats(4, 0, 234, &[]));
    monitor.client_stats_mut().push(stats(5, 2, 1, &[("stability", "99%"), ("depth", "7")]));
    assert_eq!(monitor.corpus_size(), 12);
    assert_eq!(monitor.objective_size(), 3);
    assert_eq!(monitor.total_execs(), 1235);
    assert_eq!(
        monitor.display("New Testcase", 2, 3 * 3600 + 25 * 60 + 7, 321),
        "[New Testcase #2]: { run time: 3h-25m-7s, clients: 3, corpus: 12, objectives: 3, executions: 1235, exec/sec: 321, \n\tper_c [edges: 12/64,stability: 99%,depth: 7] }"
    );
}

#[test]
fn display_joins_one_entry_without_comma() {
    let mut monitor = UEMonitor::new(());
    monitor.client_stats_mut().push(stats(0, 0, 0, &[]));
    monitor.client_stats_mut().push(stats(0, 0, 0, &[("k", "v")]));
    assert_eq!(
        monitor.display("", u32::MAX, u64::MAX, u64::MAX),
        "[ #4294967295]: { run time: 5124095576030431h-0m-15s, clients: 2, corpus: 0, objectives: 0, executions: 0, exec/sec: 18446744073709551615, \n\tper_c [k: v] }"
    );
}

#[test]
fn durations_are_hours_minutes_seconds() {
    for (secs, text) in [
        (0u64, "0h-0m-0s"),
        (59, "0h-0m-59s"),
        (60, "0h-1m-0s"),
        (3599, "0h-59m-59s"),
        (3600, "1h-0m-0s"),
        (86400 + 61, "24h-1m-1s"),
    ] {
        let mut s = String::new();
        push_duration_hms(&mut s, secs);
        assert_eq!(s, text);
    }
}

#[test]
fn unseen_clients_are_added_with_zero_counters() {
    let mut monitor = UEMonitor::new(());
    monitor.client_stats_mut_for(2).executions = 50;
    assert_eq!(
        monitor.client_stats(),
        &vec![ClientStats::new(), ClientStats::new(), stats(0, 0, 50, &[])]
    );
    monitor.client_stats_mut_for(0).corpus_size = 9;
    monitor.client_stats_mut_for(2).executions += 1;
    assert_eq!(
        monitor.client_stats(),
        &vec![stats(9, 0, 0, &[]), ClientStats::new(), stats(0, 0, 51, &[])]
    );
    assert_eq!(monitor.corpus_size(), 9);
    assert_eq!(monitor.total_execs(), 51);
}

#[test]
fn user_statistics_hold_each_name_once() {
    let mut user = UserStats::new();
    assert_eq!(user.len(), 0);
    assert_eq!(user.get(&String::from("edges")), None);
    assert_eq!(user.insert(String::from("edges"), String::from("1/64")), None);
    assert_eq!(user.insert(String::from("depth"), String::from("3")), None);
    assert_eq!(user.insert(String::from("stability"), String::from("90%")), None);
    assert_eq!(user.len(), 3);
    assert_eq!(
        user.insert(String::from("edges"), String::from("2/64")),
        Some(String::from("1/64"))
    );
    assert_eq!(user.insert(String::from("depth"), String::from("4")), Some(String::from("3")));
    assert_eq!(
        user.insert(String::from("stability"), String::from("91%")),
        Some(String::from("90%"))
    );
    assert_eq!(user.len(), 3);
    assert_eq!(user.get(&String::from("edges")), Some(&String::from("2/64")));
    assert_eq!(user.get(&String::from("depth")), Some(&String::from("4")));
    assert_eq!(user.get(&String::from("Edges")), None);
    assert_eq!(
        user.entries(),
        &vec![
            (String::from("edges"), String::from("2/64")),
            (String::from("depth"), String::from("4")),
            (String::from("stability"), String::from("91%")),
        ]
    );
}

#[test]
fn display_shows_the_latest_value_of_a_name() {
    let mut monitor = UEMonitor::new(());
    let client = monitor.client_stats_mut_for(0);
    client.user_monitor.insert(String::from("edges"), String::from("1/64"));
    client.user_monitor.insert(String::from("depth"), String::from("3"));
    client.user_monitor.insert(String::from("edges"), String::from("9/64"));
    assert_eq!(
        monitor.display("e", 0, 1, 2),
        "[e #0]: { run time: 0h-0m-1s, clients: 1, corpus: 0, objectives: 0, executions: 0, exec/sec: 2, \n\tper_c [edges: 9/64,depth: 3] }"
    );
}
