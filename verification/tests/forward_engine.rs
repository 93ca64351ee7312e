use netmgr::command::PlannedCommand;
use netmgr::error::{ErrorKind, NetMgrError};
use netmgr::forward::Protocol;
use netmgr::platform::Platform;
use netmgr::reconcile::{
    add_forward, complete_add_forward, complete_add_forward_at, complete_remove_forward,
    complete_remove_forward_after, remove_forward, Removal,
};
use netmgr::runner::PlanRun;
use netmgr::store::{forward_summary, status_label, ForwardStore, PortForward, Timestamp};

fn args(command: &PlannedCommand) -> Vec<&str> {
    command.args.iter().map(|a| a.as_str()).collect()
}

/// Runs `plan` against a scripted host: `script[i]` says how the i-th command
/// that is really run goes. Returns the run and the commands that were run.
fn drive(plan: Vec<PlannedCommand>, dry_run: bool, script: &[(bool, &str)]) -> (PlanRun, Vec<String>) {
    let mut run = PlanRun::new(plan, dry_run);
    let mut calls: Vec<String> = Vec::new();
    loop {
        let line = match run.next_command() {
            Some(c) => netmgr::command::command_line(c),
            None => break,
        };
        let (ok, err) = script.get(calls.len()).copied().unwrap_or((true, ""));
        calls.push(line);
        run.record(ok, err.to_string());
    }
    (run, calls)
}

fn moment() -> Timestamp {
    Timestamp { secs: 1_700_000_000, nanos: 42 }
}

fn store_with_web() -> ForwardStore {
    let mut store = ForwardStore::new();
    let plan = add_forward(&store, Platform::Linux, "web", "8080", "10.0.0.5", "80", "tcp").unwrap();
    let (run, _) = drive(plan, false, &[]);
    complete_add_forward_at(&mut store, "web", "8080", "10.0.0.5", "80", "tcp", run.failure(), moment())
        .unwrap();
    store
}

#[test]
fn create_then_load_contains_active_record() {
    let store = store_with_web();
    assert_eq!(store.len(), 1);
    let f = store.get("web").unwrap();
    assert!(f.active);
    assert_eq!(f.name, "web");
    assert_eq!(f.src_port, "8080");
    assert_eq!(f.dest_ip, "10.0.0.5");
    assert_eq!(f.dest_port, "80");
    assert_eq!(f.protocol, Protocol::Tcp);
    assert_eq!(f.created, moment());
}

#[test]
fn linux_create_plan_is_three_rules_in_order() {
    let store = ForwardStore::new();
    let plan = add_forward(&store, Platform::Linux, "web", "8080", "10.0.0.5", "80", "tcp").unwrap();
    assert_eq!(plan.len(), 4);
    assert_eq!(plan[0].program, "sysctl");
    assert_eq!(args(&plan[0]), vec!["-w", "net.ipv4.ip_forward=1"]);
    assert!(plan[0].best_effort);
    assert_eq!(plan[1].program, "iptables");
    assert_eq!(
        args(&plan[1]),
        vec![
            "-t", "nat", "-A", "PREROUTING", "-p", "tcp", "--dport", "8080", "-j", "DNAT",
            "--to-destination=10.0.0.5:80", "-m", "comment", "--comment=NETMGR:web"
        ]
    );
    assert_eq!(
        args(&plan[2]),
        vec![
            "-A", "FORWARD", "-p", "tcp", "-d", "10.0.0.5", "--dport", "80", "-j", "ACCEPT", "-m",
            "comment", "--comment=NETMGR:web"
        ]
    );
    assert_eq!(
        args(&plan[3]),
        vec![
            "-t", "nat", "-A", "POSTROUTING", "-p", "tcp", "-d", "10.0.0.5", "--dport", "80", "-j",
            "MASQUERADE", "-m", "comment", "--comment=NETMGR:web"
        ]
    );
    assert!(!plan[1].best_effort && !plan[2].best_effort && !plan[3].best_effort);
}

#[test]
fn duplicate_create_is_rejected_without_backend_call() {
    let mut store = store_with_web();
    let second = add_forward(&store, Platform::Linux, "web", "9090", "10.0.0.6", "81", "tcp");
    match second {
        Err(NetMgrError::ConfigError(text)) => {
            assert_eq!(text, "Port forward with name 'web' already exists")
        }
        other => panic!("expected a configuration error, got {:?}", other),
    }
    let r = complete_add_forward_at(&mut store, "web", "9090", "10.0.0.6", "81", "tcp", None, moment());
    assert_eq!(r.unwrap_err().kind(), ErrorKind::ConfigError);
    assert_eq!(store.len(), 1);
    assert_eq!(store.get("web").unwrap().dest_port, "80");
    assert_eq!(store.get("web").unwrap().src_port, "8080");
}

#[test]
fn failure_at_forward_permit_commits_nothing() {
    let mut store = ForwardStore::new();
    let plan = add_forward(&store, Platform::Linux, "web", "8080", "10.0.0.5", "80", "tcp").unwrap();
    // sysctl and the NAT rule go through, the forward-permit rule fails.
    let (run, calls) = drive(plan, false, &[(true, ""), (true, ""), (false, "iptables: denied")]);
    assert_eq!(calls.len(), 3);
    let failure = run.failure().expect("the run failed");
    assert_eq!(failure.step, 2);
    assert_eq!(failure.completed, 2);
    assert_eq!(failure.stderr, "iptables: denied");
    assert!(!run.pending());
    let r = complete_add_forward_at(&mut store, "web", "8080", "10.0.0.5", "80", "tcp", run.failure(), moment());
    match r {
        Err(NetMgrError::CommandFailed(text)) => assert_eq!(text, "iptables: denied"),
        other => panic!("expected a failed command, got {:?}", other),
    }
    assert_eq!(store.len(), 0);
    assert!(!store.contains("web"));
}

#[test]
fn remove_uses_the_stored_attributes() {
    let mut store = store_with_web();
    let plan = remove_forward(&store, Platform::Linux, "web").unwrap();
    assert_eq!(plan.len(), 3);
    assert_eq!(
        args(&plan[0]),
        vec![
            "-t", "nat", "-D", "PREROUTING", "-p", "tcp", "--dport", "8080", "-j", "DNAT",
            "--to-destination=10.0.0.5:80", "-m", "comment", "--comment=NETMGR:web"
        ]
    );
    assert_eq!(
        args(&plan[1]),
        vec![
            "-D", "FORWARD", "-p", "tcp", "-d", "10.0.0.5", "--dport", "80", "-j", "ACCEPT", "-m",
            "comment", "--comment=NETMGR:web"
        ]
    );
    assert_eq!(
        args(&plan[2]),
        vec![
            "-t", "nat", "-D", "POSTROUTING", "-p", "tcp", "-d", "10.0.0.5", "--dport", "80", "-j",
            "MASQUERADE", "-m", "comment", "--comment=NETMGR:web"
        ]
    );
    let windows = remove_forward(&store, Platform::Windows, "web").unwrap();
    assert_eq!(
        args(&windows[0]),
        vec![
            "interface", "portproxy", "delete", "v4tov4", "listenport=8080",
            "listenaddress=0.0.0.0", "protocol=tcp"
        ]
    );
    assert_eq!(
        args(&windows[1]),
        vec!["advfirewall", "firewall", "delete", "rule", "name=NetMgr-Forward-web"]
    );
    let (run, calls) = drive(plan, false, &[]);
    assert_eq!(calls.len(), 3);
    let r = complete_remove_forward(&mut store, Platform::Linux, "web", &run).unwrap();
    assert!(matches!(r, Removal::Complete));
    assert!(!store.contains("web"));
    assert_eq!(store.len(), 0);
}

#[test]
fn remove_of_unknown_name_changes_nothing() {
    let mut store = store_with_web();
    match remove_forward(&store, Platform::Linux, "mail") {
        Err(NetMgrError::ConfigError(text)) => {
            assert_eq!(text, "Port forward with name 'mail' does not exist")
        }
        other => panic!("expected a configuration error, got {:?}", other),
    }
    let r = complete_remove_forward_after(&mut store, "mail", None);
    assert_eq!(r.unwrap_err().kind(), ErrorKind::ConfigError);
    assert_eq!(store.len(), 1);
    assert!(store.contains("web"));
}

#[test]
fn dry_run_create_runs_nothing_and_still_records() {
    let mut store = ForwardStore::new();
    let plan = add_forward(&store, Platform::Linux, "web", "8080", "10.0.0.5", "80", "tcp").unwrap();
    let (run, calls) = drive(plan, true, &[(false, "never asked")]);
    assert!(calls.is_empty());
    assert_eq!(run.executed(), 0);
    assert!(run.failure().is_none());
    complete_add_forward(&mut store, Platform::Linux, "web", "8080", "10.0.0.5", "80", "tcp", &run, moment()).unwrap();
    let f = store.get("web").unwrap();
    assert!(f.active);
    assert_eq!(f.dest_port, "80");
}

#[test]
fn windows_and_macos_create_plans() {
    let store = ForwardStore::new();
    let windows = add_forward(&store, Platform::Windows, "web", "8080", "10.0.0.5", "80", "udp").unwrap();
    assert_eq!(windows.len(), 2);
    assert_eq!(windows[0].program, "netsh");
    assert_eq!(
        args(&windows[0]),
        vec![
            "interface", "portproxy", "add", "v4tov4", "listenport=8080", "listenaddress=0.0.0.0",
            "connectport=80", "connectaddress=10.0.0.5", "protocol=udp"
        ]
    );
    assert_eq!(
        args(&windows[1]),
        vec![
            "advfirewall", "firewall", "add", "rule", "name=NetMgr-Forward-web", "dir=in",
            "action=allow", "protocol=udp", "localport=8080"
        ]
    );
    let macos = add_forward(&store, Platform::MacOs, "web", "8080", "10.0.0.5", "80", "tcp").unwrap();
    assert_eq!(macos.len(), 3);
    assert_eq!(macos[0].program, "sysctl");
    assert_eq!(args(&macos[0]), vec!["-w", "net.inet.ip.forwarding=1"]);
    assert!(macos[0].best_effort);
    assert_eq!(macos[1].program, "sh");
    assert_eq!(
        args(&macos[1]),
        vec![
            "-c",
            "echo 'rdr pass on lo0 proto tcp from any to any port 8080 -> 10.0.0.5 port 80' | pfctl -a com.netmgr/web -f -"
        ]
    );
    assert_eq!(macos[2].program, "pfctl");
    assert_eq!(args(&macos[2]), vec!["-e"]);
    assert!(macos[2].best_effort);
}

#[test]
fn requests_are_refused_before_anything_runs() {
    let mut store = ForwardStore::new();
    match add_forward(&store, Platform::Linux, "web", "8080", "10.0.0.5", "80", "icmp") {
        Err(NetMgrError::ConfigError(text)) => assert_eq!(text, "Unsupported protocol: icmp"),
        other => panic!("expected a configuration error, got {:?}", other),
    }
    match add_forward(&store, Platform::Other, "web", "8080", "10.0.0.5", "80", "tcp") {
        Err(NetMgrError::UnsupportedPlatform(text)) => {
            assert_eq!(text, "Port forwarding not implemented for this platform")
        }
        other => panic!("expected an unsupported platform, got {:?}", other),
    }
    let r = complete_add_forward_at(&mut store, "web", "8080", "10.0.0.5", "80", "TCP", None, moment());
    assert_eq!(r.unwrap_err().kind(), ErrorKind::ConfigError);
    assert_eq!(store.len(), 0);
    assert_eq!(Protocol::parse("udp"), Some(Protocol::Udp));
    assert_eq!(Protocol::parse("Udp"), None);
    assert_eq!(Protocol::Udp.name(), "udp");
}

#[test]
fn best_effort_steps_do_not_stop_a_plan() {
    let mut store = ForwardStore::new();
    let plan = add_forward(&store, Platform::Linux, "web", "8080", "10.0.0.5", "80", "tcp").unwrap();
    // Switching on packet forwarding fails; the three rules go through.
    let (run, calls) = drive(plan, false, &[(false, "sysctl: permission denied")]);
    assert_eq!(calls.len(), 4);
    assert_eq!(calls[0], "sysctl -w net.ipv4.ip_forward=1");
    assert!(run.failure().is_none());
    assert_eq!(run.completed(), 3);
    assert_eq!(run.executed(), 4);
    complete_add_forward_at(&mut store, "web", "8080", "10.0.0.5", "80", "tcp", run.failure(), moment()).unwrap();
    assert!(store.contains("web"));
}

#[test]
fn removal_that_fails_at_once_keeps_the_record() {
    let mut store = store_with_web();
    let plan = remove_forward(&store, Platform::Linux, "web").unwrap();
    let (run, calls) = drive(plan, false, &[(false, "iptables: no such rule")]);
    assert_eq!(calls.len(), 1);
    match complete_remove_forward(&mut store, Platform::Linux, "web", &run) {
        Err(NetMgrError::CommandFailed(text)) => assert_eq!(text, "iptables: no such rule"),
        other => panic!("expected a failed command, got {:?}", other),
    }
    assert!(store.contains("web"));
}

#[test]
fn removal_that_fails_midway_drops_the_record_and_says_so() {
    let mut store = store_with_web();
    let plan = remove_forward(&store, Platform::Windows, "web").unwrap();
    let (run, calls) = drive(plan, false, &[(true, ""), (false, "No rules match")]);
    assert_eq!(calls.len(), 2);
    match complete_remove_forward(&mut store, Platform::Windows, "web", &run) {
        Ok(Removal::Partial { step, stderr }) => {
            assert_eq!(step, 1);
            assert_eq!(stderr, "No rules match");
        }
        other => panic!("expected a partial removal, got {:?}", other),
    }
    assert!(!store.contains("web"));
}

#[test]
fn removal_touches_only_the_named_forward() {
    let mut store = store_with_web();
    let plan = add_forward(&store, Platform::Linux, "web2", "8081", "10.0.0.6", "80", "tcp").unwrap();
    let (run, _) = drive(plan, false, &[]);
    complete_add_forward_at(&mut store, "web2", "8081", "10.0.0.6", "80", "tcp", run.failure(), moment()).unwrap();
    let plan = remove_forward(&store, Platform::Linux, "web").unwrap();
    for command in &plan {
        assert_eq!(command.args.last().unwrap(), "--comment=NETMGR:web");
        assert!(command.args.iter().all(|a| a != "--comment=NETMGR:web2"));
    }
    let macos = remove_forward(&store, Platform::MacOs, "web").unwrap();
    assert_eq!(args(&macos[0]), vec!["-a", "com.netmgr/web", "-F", "all"]);
    assert!(remove_forward(&store, Platform::Other, "web").unwrap().is_empty());
    let (run, _) = drive(plan, false, &[]);
    complete_remove_forward(&mut store, Platform::Linux, "web", &run).unwrap();
    assert_eq!(store.len(), 1);
    assert_eq!(store.get("web2").unwrap().dest_ip, "10.0.0.6");
    assert_eq!(store.position("web2"), Some(0));
    assert_eq!(store.position("web"), None);
}

#[test]
fn a_commit_wants_the_finished_run_of_its_own_plan() {
    let mut store = ForwardStore::new();
    let plan = add_forward(&store, Platform::Linux, "web", "8080", "10.0.0.5", "80", "tcp").unwrap();
    // A run that has commands left commits nothing.
    let fresh = PlanRun::new(plan, false);
    assert!(fresh.pending());
    match complete_add_forward(&mut store, Platform::Linux, "web", "8080", "10.0.0.5", "80", "tcp", &fresh, moment()) {
        Err(NetMgrError::ConfigError(text)) => assert_eq!(text, "Plan has commands left to run"),
        other => panic!("expected a configuration error, got {:?}", other),
    }
    assert_eq!(store.len(), 0);
    // Neither does the run of the plan of another request.
    let other = add_forward(&store, Platform::Linux, "web", "8080", "10.0.0.5", "81", "tcp").unwrap();
    let (run, _) = drive(other, false, &[]);
    match complete_add_forward(&mut store, Platform::Linux, "web", "8080", "10.0.0.5", "80", "tcp", &run, moment()) {
        Err(NetMgrError::ConfigError(text)) => assert_eq!(text, "Plan does not belong to this request"),
        other => panic!("expected a configuration error, got {:?}", other),
    }
    match complete_add_forward(&mut store, Platform::Windows, "web", "8080", "10.0.0.5", "81", "tcp", &run, moment()) {
        Err(NetMgrError::ConfigError(text)) => assert_eq!(text, "Plan does not belong to this request"),
        other => panic!("expected a configuration error, got {:?}", other),
    }
    assert_eq!(store.len(), 0);
    // The finished run of the plan itself commits, dated as told.
    complete_add_forward(&mut store, Platform::Linux, "web", "8080", "10.0.0.5", "81", "tcp", &run, moment()).unwrap();
    let f = store.get("web").unwrap();
    assert_eq!(f.dest_port, "81");
    assert_eq!(f.created, moment());
    assert!(f.active);
    // A second commit of the same run finds the name taken.
    let again = complete_add_forward(&mut store, Platform::Linux, "web", "8080", "10.0.0.5", "81", "tcp", &run, moment());
    assert_eq!(again.unwrap_err().kind(), ErrorKind::ConfigError);
    assert_eq!(store.len(), 1);
    // A failed run is reported with the text of the command, through either door.
    let plan = add_forward(&store, Platform::Linux, "mail", "25", "10.0.0.7", "25", "tcp").unwrap();
    let (failed, _) = drive(plan, false, &[(true, ""), (false, "no chain")]);
    match complete_add_forward(&mut store, Platform::Linux, "mail", "25", "10.0.0.7", "25", "tcp", &failed, moment()) {
        Err(NetMgrError::CommandFailed(text)) => assert_eq!(text, "no chain"),
        other => panic!("expected a failed command, got {:?}", other),
    }
    assert!(!store.contains("mail"));
    assert!(!failed.all_took_effect());
    assert!(run.all_took_effect());
}

#[test]
fn a_removal_wants_the_finished_run_of_its_own_plan() {
    let mut store = store_with_web();
    let plan = remove_forward(&store, Platform::Linux, "web").unwrap();
    let fresh = PlanRun::new(plan, false);
    match complete_remove_forward(&mut store, Platform::Linux, "web", &fresh) {
        Err(NetMgrError::ConfigError(text)) => assert_eq!(text, "Plan has commands left to run"),
        other => panic!("expected a configuration error, got {:?}", other),
    }
    let windows = remove_forward(&store, Platform::Windows, "web").unwrap();
    let (run, _) = drive(windows, false, &[]);
    match complete_remove_forward(&mut store, Platform::Linux, "web", &run) {
        Err(NetMgrError::ConfigError(text)) => assert_eq!(text, "Plan does not belong to this request"),
        other => panic!("expected a configuration error, got {:?}", other),
    }
    assert!(store.contains("web"));
    match complete_remove_forward(&mut store, Platform::Linux, "mail", &run) {
        Err(NetMgrError::ConfigError(text)) => assert_eq!(text, "Port forward with name 'mail' does not exist"),
        other => panic!("expected a configuration error, got {:?}", other),
    }
    assert!(matches!(complete_remove_forward(&mut store, Platform::Windows, "web", &run), Ok(Removal::Complete)));
    assert!(!store.contains("web"));
    // In a dry run nothing is run and the record leaves the store all the same.
    let mut store = store_with_web();
    let plan = remove_forward(&store, Platform::MacOs, "web").unwrap();
    let (dry, calls) = drive(plan, true, &[]);
    assert!(calls.is_empty());
    assert!(matches!(complete_remove_forward(&mut store, Platform::MacOs, "web", &dry), Ok(Removal::Complete)));
    assert_eq!(store.len(), 0);
}

fn forward(name: &str, port: &str) -> PortForward {
    PortForward {
        name: name.to_string(),
        src_port: port.to_string(),
        dest_ip: "10.0.0.5".to_string(),
        dest_port: "80".to_string(),
        protocol: Protocol::Tcp,
        created: moment(),
        active: true,
    }
}

#[test]
fn a_store_is_its_list_of_entries() {
    let store = ForwardStore::from_entries(vec![forward("a", "1"), forward("b", "2")]).unwrap();
    assert_eq!(store.len(), 2);
    assert_eq!(store.entries()[1].name, "b");
    assert!(ForwardStore::from_entries(vec![forward("a", "1"), forward("b", "2"), forward("a", "3")]).is_none());
    assert_eq!(ForwardStore::from_entries(vec![]).unwrap().len(), 0);
    let again = ForwardStore::from_entries(store.entries().clone()).unwrap();
    assert_eq!(again.len(), store.len());
    for (x, y) in again.entries().iter().zip(store.entries().iter()) {
        assert_eq!(x.name, y.name);
        assert_eq!(x.src_port, y.src_port);
        assert_eq!(x.created, y.created);
    }
    let copy = store.clone();
    assert_eq!(copy.entries()[0].src_port, "1");
    let mut changed = store.clone();
    assert!(!changed.insert(forward("a", "9")));
    assert!(changed.insert(forward("c", "9")));
    assert_eq!(changed.remove("a").unwrap().src_port, "1");
    assert!(changed.remove("a").is_none());
    assert_eq!(changed.len(), 2);
    assert_eq!(store.len(), 2);
    assert_eq!(status_label(true), "ACTIVE");
    assert_eq!(status_label(false), "INACTIVE");
    assert_eq!(forward_summary(&forward("a", "8080")), "8080->10.0.0.5:80");
}
