//! The probes on this machine, by name.
//!
//! Three probes read what they need themselves. The debugger signals and the
//! adapter addresses come from the operating system through calls that the
//! caller makes; `evaluate` asks for them only when their probe is consulted.

use vstd::prelude::*;
use crate::debugger::{is_debugger_present, DebuggerSignals};
use crate::engine::Probe;
use crate::files::{hypervisor_file_paths, machine_said, vm_file_detected};
use crate::mac::{addresses_of, comparaison_known_mac_addr, hypervisor_prefixes, mac_verdict, HardwareAddress};
use crate::process::{
    analysis_tool_names, debugger_names, guest_agent_names, listing_of, machine_listed,
    process_verdict, processes,
};
use crate::result::ProbeResult;
use crate::sandbox::{machine_reading, read_text, sandbox, sandbox_verdict};

verus! {

/// The octets of an optional list of addresses.
pub open spec fn listed_adapters(adapters: Option<Vec<HardwareAddress>>) -> Option<Seq<Seq<u8>>> {
    match adapters {
        Some(list) => Some(addresses_of(list@)),
        None => None,
    }
}

/// The answer of one probe on this machine.
///
/// `read_debugger` is called only for the debugger probe and `read_adapters`
/// only for the hardware-address probe, each once; the answer is then the
/// probe's answer on what the call gave. The other probes read what they
/// need themselves, and the answer is theirs.
pub fn evaluate<D: Fn() -> DebuggerSignals, A: Fn() -> Option<Vec<HardwareAddress>>>(
    probe: Probe,
    read_debugger: D,
    read_adapters: A,
) -> (r: ProbeResult)
    requires
        read_debugger.requires(()),
        read_adapters.requires(()),
    ensures
        probe == Probe::Process ==> exists|names: Vec<String>| #[trigger]
            machine_listed(names) && r == process_verdict(
                listing_of(names@),
                analysis_tool_names().to_set(),
                guest_agent_names().to_set(),
                debugger_names().to_set(),
            ),
        probe == Probe::Sandbox ==> exists|version: Option<String>, host: Option<String>| #[trigger]
            machine_reading(version, host) && r == sandbox_verdict(
                read_text(version),
                read_text(host),
                Set::<Seq<char>>::empty().insert("john-pc"@),
            ),
        probe == Probe::Debugger ==> exists|signals: DebuggerSignals| #[trigger]
            read_debugger.ensures((), signals) && r == ProbeResult::of_flag(signals.all_agree()),
        probe == Probe::MacAddress ==> exists|adapters: Option<Vec<HardwareAddress>>| #[trigger]
            read_adapters.ensures((), adapters) && r == mac_verdict(
                listed_adapters(adapters),
                hypervisor_prefixes().to_set(),
            ),
        probe == Probe::FileArtifact ==> {
            &&& r != ProbeResult::Indeterminate
            &&& r == ProbeResult::Positive ==> (exists|i: int|
                0 <= i < hypervisor_file_paths().len() && machine_said(
                    #[trigger] hypervisor_file_paths()[i],
                    true,
                ))
            &&& r == ProbeResult::Negative ==> (forall|i: int|
                0 <= i < hypervisor_file_paths().len() ==> machine_said(
                    #[trigger] hypervisor_file_paths()[i],
                    false,
                ))
        },
{
    match probe {
        Probe::Process => processes(),
        Probe::Sandbox => sandbox(),
        Probe::Debugger => is_debugger_present(read_debugger()),
        Probe::MacAddress => {
            let adapters = read_adapters();
            comparaison_known_mac_addr(adapters.as_ref())
        },
        Probe::FileArtifact => vm_file_detected(),
    }
}

} // verus!
