//! The process probe: names of running processes against three sets of
//! signatures.

use vstd::prelude::*;
use crate::result::ProbeResult;
use crate::signatures::{names_of, SignatureSet};
use crate::system::running_process_names;

verus! {

/// The sets that the process probe looks in.
pub struct ProcessSignatures {
    /// Analysis tools: packet capture, process explorers, inspectors.
    pub analysis_tools: SignatureSet,
    /// Guest-integration agents of virtual machines.
    pub guest_agents: SignatureSet,
    /// Standalone debuggers.
    pub debuggers: SignatureSet,
}

/// The names of the analysis tools that the standard configuration knows.
pub open spec fn analysis_tool_names() -> Seq<Seq<char>> {
    seq![
        "Wireshark.exe"@,
        "procexp64.exe"@,
        "procexp.exe"@,
        "Procmon.exe"@,
        "Procmon64.exe"@,
        "pestudio.exe"@,
        "KsDumper.exe"@,
        "prl_cc.exe"@,
        "prl_tools.exe"@,
        "pe-sieve64.exe"@,
        "hollows_hunter32.exe"@,
        "Moneta64.exe"@,
        "fakenet.exe"@,
        "tcpview.exe"@,
        "dumpcap.exe"@,
        "PETools.exe"@,
        "httpdebugger.exe"@,
    ]
}

/// The names of the guest agents that the standard configuration knows.
pub open spec fn guest_agent_names() -> Seq<Seq<char>> {
    seq![
        "VBoxTray.exe"@,
        "VBoxService.exe"@,
        "VMwareUser.exe"@,
        "vmtoolsd.exe"@,
        "VMwareTray.exe"@,
        "vmsrvc.exe"@,
        "VGAuthService.exe"@,
        "qemu-ga.exe"@,
        "vdagent.exe"@,
        "vdservice.exe"@,
        "xenservice.exe"@,
        "joeboxserver.exe"@,
    ]
}

/// The names of the debuggers that the standard configuration knows.
pub open spec fn debugger_names() -> Seq<Seq<char>> {
    seq![
        "WinDbg.exe"@,
        "devenv.exe"@,
        "drwtsn32.exe"@,
        "ollydbg.exe"@,
        "x64dbg.exe"@,
        "gdb.exe"@,
        "dbgview.exe"@,
        "procdump.exe"@,
        "ntsd.exe"@,
        "windbgX.exe"@,
    ]
}

/// The names of an optional list of process names.
pub open spec fn listed_names(names: Option<&Vec<String>>) -> Option<Seq<Seq<char>>> {
    match names {
        Some(list) => Some(names_of(list@)),
        None => None,
    }
}

/// Whether one of the three sets holds `name`.
pub open spec fn is_signature(
    name: Seq<char>,
    tools: Set<Seq<char>>,
    agents: Set<Seq<char>>,
    debuggers: Set<Seq<char>>,
) -> bool {
    tools.contains(name) || agents.contains(name) || debuggers.contains(name)
}

/// The answer of the process probe: `Indeterminate` where the list of
/// processes could not be had, `Positive` where one of the names is in one
/// of the sets, `Negative` where none is.
pub open spec fn process_verdict(
    names: Option<Seq<Seq<char>>>,
    tools: Set<Seq<char>>,
    agents: Set<Seq<char>>,
    debuggers: Set<Seq<char>>,
) -> ProbeResult {
    match names {
        None => ProbeResult::Indeterminate,
        Some(list) => ProbeResult::of_flag(
            exists|i: int|
                0 <= i < list.len() && is_signature(#[trigger] list[i], tools, agents, debuggers),
        ),
    }
}

/// Appends `name` to a list of names.
pub fn push_name(list: &mut Vec<String>, name: &str)
    ensures
        names_of(final(list)@) == names_of(old(list)@).push(name@),
{
    list.push(name.to_owned());
    assert(names_of(list@) =~= names_of(old(list)@).push(name@));
}

impl ProcessSignatures {
    /// The three sets as sets of names.
    pub open spec fn tools(&self) -> Set<Seq<char>> {
        self.analysis_tools@
    }

    pub open spec fn agents(&self) -> Set<Seq<char>> {
        self.guest_agents@
    }

    pub open spec fn debuggers(&self) -> Set<Seq<char>> {
        self.debuggers@
    }

    /// The standard configuration.
    pub fn standard() -> (s: ProcessSignatures)
        ensures
            names_of(s.analysis_tools.entries@) == analysis_tool_names(),
            names_of(s.guest_agents.entries@) == guest_agent_names(),
            names_of(s.debuggers.entries@) == debugger_names(),
            s.tools() == analysis_tool_names().to_set(),
            s.agents() == guest_agent_names().to_set(),
            s.debuggers() == debugger_names().to_set(),
    {
        ProcessSignatures {
            analysis_tools: standard_analysis_tools(),
            guest_agents: standard_guest_agents(),
            debuggers: standard_debuggers(),
        }
    }
}

/// The analysis tools of the standard configuration.
pub fn standard_analysis_tools() -> (s: SignatureSet)
    ensures
        names_of(s.entries@) == analysis_tool_names(),
        s@ == analysis_tool_names().to_set(),
{
    let mut names: Vec<String> = Vec::new();
    assert(names_of(names@) =~= Seq::<Seq<char>>::empty());
    push_name(&mut names, "Wireshark.exe");
    push_name(&mut names, "procexp64.exe");
    push_name(&mut names, "procexp.exe");
    push_name(&mut names, "Procmon.exe");
    push_name(&mut names, "Procmon64.exe");
    push_name(&mut names, "pestudio.exe");
    push_name(&mut names, "KsDumper.exe");
    push_name(&mut names, "prl_cc.exe");
    push_name(&mut names, "prl_tools.exe");
    push_name(&mut names, "pe-sieve64.exe");
    push_name(&mut names, "hollows_hunter32.exe");
    push_name(&mut names, "Moneta64.exe");
    push_name(&mut names, "fakenet.exe");
    push_name(&mut names, "tcpview.exe");
    push_name(&mut names, "dumpcap.exe");
    push_name(&mut names, "PETools.exe");
    push_name(&mut names, "httpdebugger.exe");
    let s = SignatureSet { entries: names };
    proof {
        s.lemma_view_is_names();
    }
    s
}

/// The guest agents of the standard configuration.
pub fn standard_guest_agents() -> (s: SignatureSet)
    ensures
        names_of(s.entries@) == guest_agent_names(),
        s@ == guest_agent_names().to_set(),
{
    let mut names: Vec<String> = Vec::new();
    assert(names_of(names@) =~= Seq::<Seq<char>>::empty());
    push_name(&mut names, "VBoxTray.exe");
    push_name(&mut names, "VBoxService.exe");
    push_name(&mut names, "VMwareUser.exe");
    push_name(&mut names, "vmtoolsd.exe");
    push_name(&mut names, "VMwareTray.exe");
    push_name(&mut names, "vmsrvc.exe");
    push_name(&mut names, "VGAuthService.exe");
    push_name(&mut names, "qemu-ga.exe");
    push_name(&mut names, "vdagent.exe");
    push_name(&mut names, "vdservice.exe");
    push_name(&mut names, "xenservice.exe");
    push_name(&mut names, "joeboxserver.exe");
    let s = SignatureSet { entries: names };
    proof {
        s.lemma_view_is_names();
    }
    s
}

/// The debuggers of the standard configuration.
pub fn standard_debuggers() -> (s: SignatureSet)
    ensures
        names_of(s.entries@) == debugger_names(),
        s@ == debugger_names().to_set(),
{
    let mut names: Vec<String> = Vec::new();
    assert(names_of(names@) =~= Seq::<Seq<char>>::empty());
    push_name(&mut names, "WinDbg.exe");
    push_name(&mut names, "devenv.exe");
    push_name(&mut names, "drwtsn32.exe");
    push_name(&mut names, "ollydbg.exe");
    push_name(&mut names, "x64dbg.exe");
    push_name(&mut names, "gdb.exe");
    push_name(&mut names, "dbgview.exe");
    push_name(&mut names, "procdump.exe");
    push_name(&mut names, "ntsd.exe");
    push_name(&mut names, "windbgX.exe");
    let s = SignatureSet { entries: names };
    proof {
        s.lemma_view_is_names();
    }
    s
}

/// The process probe on a list of process names that was read beforehand;
/// `None` stands for a list that could not be read.
pub fn process_probe(names: Option<&Vec<String>>, signatures: &ProcessSignatures) -> (r:
    ProbeResult)
    ensures
        r == process_verdict(
            listed_names(names),
            signatures.tools(),
            signatures.agents(),
            signatures.debuggers(),
        ),
{
    match names {
        None => ProbeResult::Indeterminate,
        Some(list) => {
            let mut i: usize = 0;
            while i < list.len()
                invariant
                    0 <= i <= list.len(),
                    names == Some(list),
                    forall|k: int|
                        0 <= k < i ==> !is_signature(
                            #[trigger] names_of(list@)[k],
                            signatures.tools(),
                            signatures.agents(),
                            signatures.debuggers(),
                        ),
                decreases list.len() - i,
            {
                let name = &list[i];
                if signatures.analysis_tools.contains(name) || signatures.guest_agents.contains(
                    name,
                ) || signatures.debuggers.contains(name) {
                    proof {
                        let found = names_of(list@);
                        assert(0 <= i < found.len() && is_signature(
                            found[i as int],
                            signatures.tools(),
                            signatures.agents(),
                            signatures.debuggers(),
                        ));
                    }
                    return ProbeResult::Positive;
                }
                i += 1;
            }
            ProbeResult::Negative
        },
    }
}

/// The list that a reading of the running processes stands for: a reading
/// without any name counts as a list that could not be had.
pub open spec fn listing_of(names: Seq<String>) -> Option<Seq<Seq<char>>> {
    if names.len() == 0 {
        None
    } else {
        Some(names_of(names))
    }
}

/// The process probe on names that it reads itself through `read`. The
/// source of the names has no other way to say that it failed than to give
/// no name at all, so an empty reading is `Indeterminate`.
pub fn process_reading<R: Fn() -> Vec<String>>(read: R, signatures: &ProcessSignatures) -> (r:
    ProbeResult)
    requires
        read.requires(()),
    ensures
        exists|names: Vec<String>| #[trigger]
            read.ensures((), names) && r == process_verdict(
                listing_of(names@),
                signatures.tools(),
                signatures.agents(),
                signatures.debuggers(),
            ),
{
    let names = read();
    if names.len() == 0 {
        process_probe(None, signatures)
    } else {
        process_probe(Some(&names), signatures)
    }
}

/// Whether `names` is what the process probe can have read on this machine
/// as the names of the running processes.
pub closed spec fn machine_listed(names: Vec<String>) -> bool {
    call_ensures(running_process_names, (), names)
}

/// The process probe on the processes that run now, with the standard
/// signatures: the answer of the probe on the names that were read, and
/// `Indeterminate` where none was read.
pub fn processes() -> (r: ProbeResult)
    ensures
        exists|names: Vec<String>| #[trigger]
            machine_listed(names) && r == process_verdict(
                listing_of(names@),
                analysis_tool_names().to_set(),
                guest_agent_names().to_set(),
                debugger_names().to_set(),
            ),
{
    let signatures = ProcessSignatures::standard();
    let r = process_reading(running_process_names, &signatures);
    proof {
        let names = choose|names: Vec<String>| #[trigger]
            call_ensures(running_process_names, (), names) && r == process_verdict(
                listing_of(names@),
                signatures.tools(),
                signatures.agents(),
                signatures.debuggers(),
            );
        assert(machine_listed(names));
    }
    r
}

} // verus!
