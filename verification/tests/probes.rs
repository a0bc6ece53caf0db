use antilysis::debugger::{is_debugger_present, DebuggerSignals, INVALID_HANDLE};
use antilysis::files::{file_artifact_probe, vm_file_detected, ArtifactPathList};
use antilysis::mac::{comparaison_known_mac_addr, has_prefix, mac_probe, PrefixSet};
use antilysis::process::{process_probe, process_reading, processes, ProcessSignatures};
use antilysis::sandbox::{host_verdict, sandbox, sandbox_hosts, sandbox_probe, version_verdict};
use antilysis::signatures::SignatureSet;
use antilysis::ProbeResult;
use std::cell::RefCell;

fn strings(names: &[&str]) -> Vec<String> {
    names.iter().map(|n| n.to_string()).collect()
}

fn sandbox_on(version: Option<&str>, host: Option<&str>) -> ProbeResult {
    let version = version.map(|v| v.to_string());
    let host = host.map(|h| h.to_string());
    sandbox_probe(version.as_ref(), host.as_ref(), &sandbox_hosts())
}

#[test]
fn sandbox_host_name_in_any_case() {
    assert_eq!(sandbox_on(Some("10.0.19045"), Some("john-pc")), ProbeResult::Positive);
    assert_eq!(sandbox_on(Some("10.0.19045"), Some("JOHN-PC")), ProbeResult::Positive);
    assert_eq!(sandbox_on(Some("10.0.19045"), Some("John-Pc")), ProbeResult::Positive);
}

#[test]
fn sandbox_version_with_leading_zero() {
    assert_eq!(sandbox_on(Some("0.0.0"), Some("workstation-01")), ProbeResult::Positive);
    assert_eq!(sandbox_on(Some("0.0.0"), None), ProbeResult::Positive);
    assert_eq!(sandbox_on(Some("0"), Some("john-pc")), ProbeResult::Positive);
}

#[test]
fn sandbox_clean_machine() {
    assert_eq!(sandbox_on(Some("10.0.19045"), Some("workstation-01")), ProbeResult::Negative);
    assert_eq!(sandbox_on(Some("10.0.19045"), Some("john-pc2")), ProbeResult::Negative);
    assert_eq!(sandbox_on(Some("10.0.19045"), Some("")), ProbeResult::Negative);
    assert_eq!(sandbox_on(Some("1.0"), Some("john")), ProbeResult::Negative);
}

#[test]
fn sandbox_unreadable_strings() {
    assert_eq!(sandbox_on(None, Some("john-pc")), ProbeResult::Indeterminate);
    assert_eq!(sandbox_on(None, None), ProbeResult::Indeterminate);
    assert_eq!(sandbox_on(Some(""), Some("john-pc")), ProbeResult::Indeterminate);
    assert_eq!(sandbox_on(Some("10.0.19045"), None), ProbeResult::Indeterminate);
}

#[test]
fn sandbox_parts() {
    assert_eq!(version_verdict(None), Some(ProbeResult::Indeterminate));
    assert_eq!(version_verdict(Some(&String::new())), Some(ProbeResult::Indeterminate));
    assert_eq!(version_verdict(Some(&"0.1".to_string())), Some(ProbeResult::Positive));
    assert_eq!(version_verdict(Some(&"10.0".to_string())), None);
    let hosts = sandbox_hosts();
    assert_eq!(host_verdict(None, &hosts), ProbeResult::Indeterminate);
    assert_eq!(host_verdict(Some(&"john-pc".to_string()), &hosts), ProbeResult::Positive);
    assert_eq!(host_verdict(Some(&"JOHN-PC".to_string()), &hosts), ProbeResult::Negative);
}

#[test]
fn sandbox_further_host_name_moves_towards_positive() {
    let mut hosts = sandbox_hosts();
    let version = "10.0".to_string();
    let host = "Sandbox-7".to_string();
    assert_eq!(sandbox_probe(Some(&version), Some(&host), &hosts), ProbeResult::Negative);
    hosts.insert("sandbox-7".to_string());
    assert_eq!(sandbox_probe(Some(&version), Some(&host), &hosts), ProbeResult::Positive);
    let john = "john-pc".to_string();
    assert_eq!(sandbox_probe(Some(&version), Some(&john), &hosts), ProbeResult::Positive);
    assert_eq!(sandbox_probe(None, Some(&host), &hosts), ProbeResult::Indeterminate);
}

#[test]
fn sandbox_on_this_machine_is_the_probe_on_what_sysinfo_reads() {
    let version = sysinfo::System::os_version();
    let host = sysinfo::System::host_name();
    let expected = sandbox_probe(version.as_ref(), host.as_ref(), &sandbox_hosts());
    assert_eq!(sandbox(), expected);
}

#[test]
fn process_list_with_an_analysis_tool() {
    let signatures = ProcessSignatures::standard();
    let names = strings(&["explorer.exe", "Wireshark.exe", "svchost.exe"]);
    assert_eq!(process_probe(Some(&names), &signatures), ProbeResult::Positive);
}

#[test]
fn process_list_with_a_guest_agent_or_a_debugger() {
    let signatures = ProcessSignatures::standard();
    assert_eq!(
        process_probe(Some(&strings(&["init", "VBoxService.exe"])), &signatures),
        ProbeResult::Positive
    );
    assert_eq!(
        process_probe(Some(&strings(&["x64dbg.exe"])), &signatures),
        ProbeResult::Positive
    );
    assert_eq!(
        process_probe(Some(&strings(&["a", "b", "windbgX.exe"])), &signatures),
        ProbeResult::Positive
    );
}

#[test]
fn process_list_without_a_configured_name() {
    let signatures = ProcessSignatures::standard();
    let names = strings(&["explorer.exe", "svchost.exe", "chrome.exe"]);
    assert_eq!(process_probe(Some(&names), &signatures), ProbeResult::Negative);
    assert_eq!(process_probe(Some(&Vec::new()), &signatures), ProbeResult::Negative);
}

#[test]
fn process_names_match_exactly() {
    let signatures = ProcessSignatures::standard();
    assert_eq!(
        process_probe(Some(&strings(&["wireshark.exe", "Wireshark", "Wireshark.exe "])), &signatures),
        ProbeResult::Negative
    );
}

#[test]
fn process_list_unavailable() {
    let signatures = ProcessSignatures::standard();
    assert_eq!(process_probe(None, &signatures), ProbeResult::Indeterminate);
}

#[test]
fn process_probe_repeats_its_answer() {
    let signatures = ProcessSignatures::standard();
    let names = strings(&["a.exe", "gdb.exe"]);
    let first = process_probe(Some(&names), &signatures);
    let second = process_probe(Some(&names.clone()), &ProcessSignatures::standard());
    assert_eq!(first, ProbeResult::Positive);
    assert_eq!(first, second);
}

#[test]
fn process_further_signature_moves_towards_positive() {
    let mut signatures = ProcessSignatures::standard();
    let names = strings(&["explorer.exe", "tracer.exe"]);
    assert_eq!(process_probe(Some(&names), &signatures), ProbeResult::Negative);
    signatures.debuggers.insert("tracer.exe".to_string());
    assert_eq!(process_probe(Some(&names), &signatures), ProbeResult::Positive);
    signatures.analysis_tools.insert("other.exe".to_string());
    assert_eq!(process_probe(Some(&names), &signatures), ProbeResult::Positive);
    assert_eq!(process_probe(None, &signatures), ProbeResult::Indeterminate);
}

#[test]
fn standard_process_signatures() {
    let signatures = ProcessSignatures::standard();
    assert_eq!(signatures.analysis_tools.len(), 17);
    assert_eq!(signatures.guest_agents.len(), 12);
    assert_eq!(signatures.debuggers.len(), 10);
    assert!(signatures.analysis_tools.contains(&"httpdebugger.exe".to_string()));
    assert!(signatures.guest_agents.contains(&"joeboxserver.exe".to_string()));
    assert!(signatures.debuggers.contains(&"WinDbg.exe".to_string()));
    assert!(!signatures.debuggers.contains(&"Wireshark.exe".to_string()));
}

#[test]
fn processes_on_this_machine_are_listed() {
    assert_ne!(processes(), ProbeResult::Indeterminate);
}

#[test]
fn process_reading_of_no_name_is_indeterminate() {
    let signatures = ProcessSignatures::standard();
    assert_eq!(process_reading(|| Vec::new(), &signatures), ProbeResult::Indeterminate);
}

#[test]
fn process_reading_reads_once_and_decides_on_the_names() {
    let signatures = ProcessSignatures::standard();
    let reads = RefCell::new(0u32);
    let r = process_reading(
        || {
            *reads.borrow_mut() += 1;
            strings(&["explorer.exe", "Procmon64.exe"])
        },
        &signatures,
    );
    assert_eq!(r, ProbeResult::Positive);
    assert_eq!(*reads.borrow(), 1);
    assert_eq!(
        process_reading(|| strings(&["explorer.exe"]), &signatures),
        ProbeResult::Negative
    );
}

#[test]
fn signature_set_membership() {
    let mut set = SignatureSet::new();
    assert_eq!(set.len(), 0);
    assert!(!set.contains(&"a".to_string()));
    set.insert("a".to_string());
    set.insert("b".to_string());
    set.insert("a".to_string());
    assert_eq!(set.len(), 3);
    assert!(set.contains(&"a".to_string()));
    assert!(set.contains(&"b".to_string()));
    assert!(!set.contains(&"A".to_string()));
    assert!(!set.contains(&"".to_string()));
    let copy = SignatureSet::from_names(&strings(&["b", "a"]));
    assert!(copy.contains(&"a".to_string()) && copy.contains(&"b".to_string()));
    assert!(!copy.contains(&"c".to_string()));
}

#[test]
fn mac_address_of_a_hypervisor() {
    let adapters = vec![[0xAAu8, 0xBB, 0xCC, 0x01, 0x02, 0x03], [0x08, 0x00, 0x27, 0x9A, 0xBC, 0xDE]];
    assert_eq!(comparaison_known_mac_addr(Some(&adapters)), ProbeResult::Positive);
    for prefix in [[0x00u8, 0x05, 0x69], [0x00, 0x0C, 0x29], [0x00, 0x1C, 0x14], [0x00, 0x50, 0x56]] {
        let adapters = vec![[prefix[0], prefix[1], prefix[2], 0xFF, 0xFF, 0xFF]];
        assert_eq!(comparaison_known_mac_addr(Some(&adapters)), ProbeResult::Positive);
    }
}

#[test]
fn mac_address_of_another_vendor() {
    let adapters = vec![[0xAAu8, 0xBB, 0xCC, 0x01, 0x02, 0x03], [0xAA, 0xBB, 0xCC, 0x08, 0x00, 0x27]];
    assert_eq!(comparaison_known_mac_addr(Some(&adapters)), ProbeResult::Negative);
    assert_eq!(comparaison_known_mac_addr(Some(&Vec::new())), ProbeResult::Negative);
    let near = vec![[0x08u8, 0x00, 0x28, 0, 0, 0], [0x08, 0x01, 0x27, 0, 0, 0], [0x09, 0x00, 0x27, 0, 0, 0]];
    assert_eq!(comparaison_known_mac_addr(Some(&near)), ProbeResult::Negative);
}

#[test]
fn mac_enumeration_failed() {
    assert_eq!(comparaison_known_mac_addr(None), ProbeResult::Indeterminate);
    assert_eq!(mac_probe(None, &PrefixSet::new()), ProbeResult::Indeterminate);
}

#[test]
fn mac_further_prefix_moves_towards_positive() {
    let mut prefixes = PrefixSet::hypervisors();
    let adapters = vec![[0xAAu8, 0xBB, 0xCC, 0x01, 0x02, 0x03]];
    assert_eq!(mac_probe(Some(&adapters), &prefixes), ProbeResult::Negative);
    prefixes.insert([0xAA, 0xBB, 0xCC]);
    assert_eq!(mac_probe(Some(&adapters), &prefixes), ProbeResult::Positive);
    assert_eq!(mac_probe(None, &prefixes), ProbeResult::Indeterminate);
    assert_eq!(prefixes.entries.len(), 6);
}

#[test]
fn mac_prefix_is_the_first_three_octets() {
    assert!(has_prefix(&[1, 2, 3, 4, 5, 6], &[1, 2, 3]));
    assert!(!has_prefix(&[1, 2, 3, 4, 5, 6], &[4, 5, 6]));
    assert!(!has_prefix(&[1, 2, 3, 4, 5, 6], &[1, 2, 4]));
    assert!(PrefixSet::hypervisors().matches(&[0x00, 0x50, 0x56, 0, 0, 0]));
    assert!(!PrefixSet::new().matches(&[0x00, 0x50, 0x56, 0, 0, 0]));
}

#[test]
fn file_probe_stops_at_the_first_existing_path() {
    let list = ArtifactPathList::hypervisor_files();
    assert_eq!(list.paths.len(), 27);
    let asked: RefCell<Vec<String>> = RefCell::new(Vec::new());
    let r = file_artifact_probe(&list, |path: &str| {
        asked.borrow_mut().push(path.to_string());
        path == "C:\\windows\\System32\\Drivers\\vmdum.dll"
    });
    assert_eq!(r, ProbeResult::Positive);
    assert_eq!(
        asked.into_inner(),
        strings(&[
            "C:\\windows\\System32\\Drivers\\Vmmouse.sys",
            "C:\\windows\\System32\\Drivers\\vm3dgl.dll",
            "C:\\windows\\System32\\Drivers\\vmdum.dll"
        ])
    );
}

#[test]
fn file_probe_without_an_existing_path() {
    let list = ArtifactPathList::hypervisor_files();
    let count = RefCell::new(0usize);
    let r = file_artifact_probe(&list, |_path: &str| {
        *count.borrow_mut() += 1;
        false
    });
    assert_eq!(r, ProbeResult::Negative);
    assert_eq!(*count.borrow(), 27);
    assert_eq!(file_artifact_probe(&ArtifactPathList::new(), |_path: &str| true), ProbeResult::Negative);
}

#[test]
fn file_probe_last_path_exists() {
    let list = ArtifactPathList::hypervisor_files();
    let r = file_artifact_probe(&list, |path: &str| path == "C:\\windows\\System32\\VBoxControl.exe");
    assert_eq!(r, ProbeResult::Positive);
}

#[test]
fn file_further_path_moves_towards_positive() {
    let mut list = ArtifactPathList::hypervisor_files();
    let present = |path: &str| path == "/opt/guest/agent";
    assert_eq!(file_artifact_probe(&list, present), ProbeResult::Negative);
    list.push("/opt/guest/agent");
    assert_eq!(list.paths.len(), 28);
    assert_eq!(file_artifact_probe(&list, present), ProbeResult::Positive);
    list.push("/opt/guest/other");
    assert_eq!(file_artifact_probe(&list, present), ProbeResult::Positive);
}

#[test]
fn file_probe_on_this_machine_is_definite() {
    assert_ne!(vm_file_detected(), ProbeResult::Indeterminate);
    assert_eq!(vm_file_detected(), vm_file_detected());
}

#[test]
fn debugger_needs_every_signal() {
    for bits in 0u8..16 {
        let signals = DebuggerSignals {
            local: bits & 1 != 0,
            remote_answered: bits & 2 != 0,
            remote: bits & 4 != 0,
            device: bits & 8 != 0,
        };
        let expected = if bits == 15 { ProbeResult::Positive } else { ProbeResult::Negative };
        assert_eq!(is_debugger_present(signals), expected);
    }
}

fn reading(version: Option<&str>, host: Option<&str>) -> (ProbeResult, u32, u32) {
    let version_reads = RefCell::new(0u32);
    let host_reads = RefCell::new(0u32);
    let r = antilysis::sandbox::sandbox_reading(
        || {
            *version_reads.borrow_mut() += 1;
            version.map(|v| v.to_string())
        },
        || {
            *host_reads.borrow_mut() += 1;
            host.map(|h| h.to_string())
        },
        &sandbox_hosts(),
    );
    let counts = (*version_reads.borrow(), *host_reads.borrow());
    (r, counts.0, counts.1)
}

#[test]
fn sandbox_reads_the_host_name_only_where_the_version_does_not_decide() {
    assert_eq!(reading(Some("0.0.0"), Some("workstation-01")), (ProbeResult::Positive, 1, 0));
    assert_eq!(reading(None, Some("john-pc")), (ProbeResult::Indeterminate, 1, 0));
    assert_eq!(reading(Some(""), Some("john-pc")), (ProbeResult::Indeterminate, 1, 0));
    assert_eq!(reading(Some("10.0.19045"), Some("JOHN-PC")), (ProbeResult::Positive, 1, 1));
    assert_eq!(reading(Some("10.0.19045"), Some("workstation-01")), (ProbeResult::Negative, 1, 1));
    assert_eq!(reading(Some("10.0.19045"), None), (ProbeResult::Indeterminate, 1, 1));
}

#[test]
fn debugger_signals_from_raw_answers() {
    assert_eq!(INVALID_HANDLE, -1);
    assert_eq!(
        DebuggerSignals::from_raw(1, 1, 1, 0x40),
        DebuggerSignals { local: true, remote_answered: true, remote: true, device: true }
    );
    assert_eq!(
        DebuggerSignals::from_raw(0, 0, 0, -1),
        DebuggerSignals { local: false, remote_answered: false, remote: false, device: false }
    );
    assert_eq!(
        DebuggerSignals::from_raw(-1, 7, 0, 0),
        DebuggerSignals { local: true, remote_answered: true, remote: false, device: true }
    );
    assert_eq!(is_debugger_present(DebuggerSignals::from_raw(1, 1, 1, 12)), ProbeResult::Positive);
    assert_eq!(is_debugger_present(DebuggerSignals::from_raw(1, 1, 1, -1)), ProbeResult::Negative);
    assert_eq!(is_debugger_present(DebuggerSignals::from_raw(1, 0, 1, 12)), ProbeResult::Negative);
}

#[test]
fn sandbox_probe_repeats_its_answer() {
    for (version, host) in [(Some("0.1"), None), (Some("10.0"), Some("JOHN-PC")), (None, Some("x"))] {
        assert_eq!(sandbox_on(version, host), sandbox_on(version, host));
    }
}

#[test]
fn file_probe_repeats_its_answer() {
    let list = ArtifactPathList::hypervisor_files();
    let other = ArtifactPathList::hypervisor_files();
    let present = |path: &str| path == "C:\\windows\\System32\\vboxhook.dll";
    let first = file_artifact_probe(&list, present);
    assert_eq!(first, ProbeResult::Positive);
    assert_eq!(first, file_artifact_probe(&other, present));
    assert_eq!(first, file_artifact_probe(&list, present));
}

#[test]
fn mac_probe_repeats_its_answer() {
    let adapters = vec![[0x00u8, 0x1C, 0x14, 0x01, 0x02, 0x03]];
    let first = comparaison_known_mac_addr(Some(&adapters));
    assert_eq!(first, ProbeResult::Positive);
    assert_eq!(first, comparaison_known_mac_addr(Some(&adapters.clone())));
    let mut reordered = PrefixSet::new();
    reordered.insert([0x08, 0x00, 0x27]);
    reordered.insert([0x00, 0x1C, 0x14]);
    reordered.insert([0x00, 0x1C, 0x14]);
    assert_eq!(first, mac_probe(Some(&adapters), &reordered));
}

fn debugger_reading(local: i32, remote: (i32, i32), device: isize) -> (DebuggerSignals, Vec<&'static str>) {
    let asked: RefCell<Vec<&'static str>> = RefCell::new(Vec::new());
    let signals = DebuggerSignals::reading(
        || {
            asked.borrow_mut().push("local");
            local
        },
        || {
            asked.borrow_mut().push("remote");
            remote
        },
        || {
            asked.borrow_mut().push("device");
            device
        },
    );
    (signals, asked.into_inner())
}

#[test]
fn debugger_reading_stops_at_the_first_signal_that_says_no() {
    let none = DebuggerSignals { local: false, remote_answered: false, remote: false, device: false };
    assert_eq!(debugger_reading(0, (1, 1), 12), (none, vec!["local"]));
    assert_eq!(
        debugger_reading(1, (0, 1), 12),
        (
            DebuggerSignals { local: true, remote_answered: false, remote: true, device: false },
            vec!["local", "remote"]
        )
    );
    assert_eq!(
        debugger_reading(1, (1, 0), 12),
        (
            DebuggerSignals { local: true, remote_answered: true, remote: false, device: false },
            vec!["local", "remote"]
        )
    );
}

#[test]
fn debugger_reading_opens_the_device_where_both_queries_agree() {
    let all = DebuggerSignals { local: true, remote_answered: true, remote: true, device: true };
    assert_eq!(debugger_reading(1, (1, 1), 12), (all, vec!["local", "remote", "device"]));
    assert_eq!(is_debugger_present(debugger_reading(1, (1, 1), 12).0), ProbeResult::Positive);
    let (signals, asked) = debugger_reading(1, (1, 1), INVALID_HANDLE);
    assert_eq!(asked, vec!["local", "remote", "device"]);
    assert!(!signals.device);
    assert_eq!(is_debugger_present(signals), ProbeResult::Negative);
}
