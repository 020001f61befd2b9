use powershell_script::{ExecutionPolicy, PsScriptBuilder};

const POLICIES: [(ExecutionPolicy, &str); 7] = [
    (ExecutionPolicy::AllSigned, "AllSigned"),
    (ExecutionPolicy::Bypass, "Bypass"),
    (ExecutionPolicy::Default, "Default"),
    (ExecutionPolicy::RemoteSigned, "RemoteSigned"),
    (ExecutionPolicy::Restricted, "Restricted"),
    (ExecutionPolicy::Undefined, "Undefined"),
    (ExecutionPolicy::Unrestricted, "Unrestricted"),
];

#[test]
fn default_builder_arguments() {
    let s = PsScriptBuilder::new().build();
    assert_eq!(s.args, vec!["-NoProfile", "-NonInteractive", "-Command", "-"]);
    assert!(s.hidden);
    assert!(!s.print_commands);
}

#[test]
fn default_trait_matches_new() {
    let s = PsScriptBuilder::default().build();
    assert_eq!(s.args, vec!["-NoProfile", "-NonInteractive", "-Command", "-"]);
    assert!(s.hidden);
    assert!(!s.print_commands);
}

#[test]
fn no_profile_false_drops_flag() {
    let s = PsScriptBuilder::new().no_profile(false).build();
    assert_eq!(s.args, vec!["-NonInteractive", "-Command", "-"]);
}

#[test]
fn non_interactive_false_drops_flag() {
    let s = PsScriptBuilder::new().non_interactive(false).build();
    assert_eq!(s.args, vec!["-NoProfile", "-Command", "-"]);
}

#[test]
fn both_flags_off_leaves_payload() {
    let s = PsScriptBuilder::new().no_profile(false).non_interactive(false).build();
    assert_eq!(s.args, vec!["-Command", "-"]);
}

#[test]
fn bypass_policy_arguments() {
    let s = PsScriptBuilder::new().execution_policy(ExecutionPolicy::Bypass).build();
    assert_eq!(
        s.args,
        vec!["-ExecutionPolicy", "Bypass", "-NoProfile", "-NonInteractive", "-Command", "-"]
    );
}

#[test]
fn payload_ends_every_flag_combination() {
    for np in [false, true] {
        for ni in [false, true] {
            let s = PsScriptBuilder::new().no_profile(np).non_interactive(ni).build();
            let n = s.args.len();
            assert!(n >= 2);
            assert_eq!(&s.args[n - 2..], &["-Command", "-"]);
        }
    }
}

#[test]
fn hints_change_only_descriptor_fields() {
    let plain = PsScriptBuilder::new().build();
    let s = PsScriptBuilder::new().print_commands(true).hidden(false).build();
    assert_eq!(s.args, plain.args);
    assert!(!s.hidden);
    assert!(s.print_commands);
}

#[test]
fn each_policy_pair_precedes_flags() {
    for (policy, token) in POLICIES {
        let s = PsScriptBuilder::new().execution_policy(policy).build();
        assert_eq!(
            s.args,
            vec!["-ExecutionPolicy", token, "-NoProfile", "-NonInteractive", "-Command", "-"]
        );
        assert_eq!(policy.as_str(), token);
    }
}

#[test]
fn policy_without_other_flags() {
    let s = PsScriptBuilder::new()
        .no_profile(false)
        .non_interactive(false)
        .execution_policy(ExecutionPolicy::RemoteSigned)
        .build();
    assert_eq!(s.args, vec!["-ExecutionPolicy", "RemoteSigned", "-Command", "-"]);
}

#[test]
fn later_policy_replaces_earlier() {
    let s = PsScriptBuilder::new()
        .execution_policy(ExecutionPolicy::Restricted)
        .execution_policy(ExecutionPolicy::Unrestricted)
        .build();
    assert_eq!(
        s.args,
        vec!["-ExecutionPolicy", "Unrestricted", "-NoProfile", "-NonInteractive", "-Command", "-"]
    );
}

#[test]
fn no_profile_twice_equals_once() {
    let once = PsScriptBuilder::new().no_profile(false).no_profile(true).build();
    let twice = PsScriptBuilder::new().no_profile(false).no_profile(true).no_profile(true).build();
    assert_eq!(once.args, twice.args);
    assert_eq!(once.hidden, twice.hidden);
    assert_eq!(once.print_commands, twice.print_commands);
}

#[test]
fn unset_policy_never_emits_flag() {
    for np in [false, true] {
        for ni in [false, true] {
            let s = PsScriptBuilder::new().no_profile(np).non_interactive(ni).build();
            assert!(!s.args.contains(&"-ExecutionPolicy"));
        }
    }
}
