//! What holds of the probes for all inputs: that an answer depends on what
//! was observed and on nothing else, and that a further signature can move
//! an answer towards `Positive` only.

use vstd::prelude::*;
use crate::files::{file_verdict, ArtifactPathList};
use crate::mac::{adapters_of, mac_verdict, prefix_of, HardwareAddress, PrefixSet};
use crate::process::{is_signature, listed_names, process_verdict, ProcessSignatures};
use crate::result::ProbeResult;
use crate::sandbox::{sandbox_verdict, text_of};
use crate::signatures::SignatureSet;

verus! {

/// The process probe gives one answer for one list of process names: two
/// lists with the same names, against signature sets with the same members,
/// have the same answer, however the sets list their entries.
pub proof fn lemma_process_probe_deterministic(
    first: Option<&Vec<String>>,
    second: Option<&Vec<String>>,
    signatures: &ProcessSignatures,
    others: &ProcessSignatures,
)
    requires
        listed_names(first) == listed_names(second),
        forall|name: Seq<char>| signatures.tools().contains(name) <==> others.tools().contains(name),
        forall|name: Seq<char>|
            signatures.agents().contains(name) <==> others.agents().contains(name),
        forall|name: Seq<char>|
            signatures.debuggers().contains(name) <==> others.debuggers().contains(name),
    ensures
        process_verdict(
            listed_names(first),
            signatures.tools(),
            signatures.agents(),
            signatures.debuggers(),
        ) == process_verdict(
            listed_names(second),
            others.tools(),
            others.agents(),
            others.debuggers(),
        ),
{
    assert(signatures.tools() =~= others.tools());
    assert(signatures.agents() =~= others.agents());
    assert(signatures.debuggers() =~= others.debuggers());
}

/// The sandbox probe gives one answer for one pair of host strings.
pub proof fn lemma_sandbox_probe_deterministic(
    version: Option<&String>,
    host: Option<&String>,
    other_version: Option<&String>,
    other_host: Option<&String>,
    hosts: &SignatureSet,
    other_hosts: &SignatureSet,
)
    requires
        text_of(version) == text_of(other_version),
        text_of(host) == text_of(other_host),
        forall|name: Seq<char>| hosts@.contains(name) <==> other_hosts@.contains(name),
    ensures
        sandbox_verdict(text_of(version), text_of(host), hosts@) == sandbox_verdict(
            text_of(other_version),
            text_of(other_host),
            other_hosts@,
        ),
{
    assert(hosts@ =~= other_hosts@);
}

/// The file probe gives one answer for one map of existing files: two lists
/// with the same paths have the same answer wherever the same files exist.
pub proof fn lemma_file_probe_deterministic(
    list: &ArtifactPathList,
    other: &ArtifactPathList,
    present: Set<Seq<char>>,
    other_present: Set<Seq<char>>,
)
    requires
        list@ == other@,
        forall|path: Seq<char>| present.contains(path) <==> other_present.contains(path),
    ensures
        file_verdict(list@, present) == file_verdict(other@, other_present),
{
    assert(present =~= other_present);
}

/// The hardware-address probe gives one answer for one list of adapter
/// addresses.
pub proof fn lemma_mac_probe_deterministic(
    adapters: Option<&Vec<HardwareAddress>>,
    other: Option<&Vec<HardwareAddress>>,
    prefixes: &PrefixSet,
    other_prefixes: &PrefixSet,
)
    requires
        adapters_of(adapters) == adapters_of(other),
        forall|prefix: Seq<u8>| prefixes@.contains(prefix) <==> other_prefixes@.contains(prefix),
    ensures
        mac_verdict(adapters_of(adapters), prefixes@) == mac_verdict(
            adapters_of(other),
            other_prefixes@,
        ),
{
    assert(prefixes@ =~= other_prefixes@);
}

/// A further entry in any of the three signature sets moves the answer of
/// the process probe towards `Positive` or leaves it, and an entry that is
/// the name of a listed process makes it `Positive`.
pub proof fn lemma_process_probe_monotone(
    names: Option<Seq<Seq<char>>>,
    tools: Set<Seq<char>>,
    agents: Set<Seq<char>>,
    debuggers: Set<Seq<char>>,
    entry: Seq<char>,
)
    ensures
        process_verdict(names, tools, agents, debuggers).at_most(
            process_verdict(names, tools.insert(entry), agents, debuggers),
        ),
        process_verdict(names, tools, agents, debuggers).at_most(
            process_verdict(names, tools, agents.insert(entry), debuggers),
        ),
        process_verdict(names, tools, agents, debuggers).at_most(
            process_verdict(names, tools, agents, debuggers.insert(entry)),
        ),
        names is Some && names->0.contains(entry) ==> {
            &&& process_verdict(names, tools.insert(entry), agents, debuggers)
                == ProbeResult::Positive
            &&& process_verdict(names, tools, agents.insert(entry), debuggers)
                == ProbeResult::Positive
            &&& process_verdict(names, tools, agents, debuggers.insert(entry))
                == ProbeResult::Positive
        },
{
    if let Some(list) = names {
        if process_verdict(names, tools, agents, debuggers) == ProbeResult::Positive {
            let i = choose|i: int|
                0 <= i < list.len() && is_signature(
                    #[trigger] list[i],
                    tools,
                    agents,
                    debuggers,
                );
            assert(is_signature(list[i], tools.insert(entry), agents, debuggers));
            assert(is_signature(list[i], tools, agents.insert(entry), debuggers));
            assert(is_signature(list[i], tools, agents, debuggers.insert(entry)));
        }
        if list.contains(entry) {
            let i = choose|i: int| 0 <= i < list.len() && list[i] == entry;
            assert(is_signature(list[i], tools.insert(entry), agents, debuggers));
            assert(is_signature(list[i], tools, agents.insert(entry), debuggers));
            assert(is_signature(list[i], tools, agents, debuggers.insert(entry)));
        }
    }
}

/// A further host name in the set of sandbox names moves the answer of the
/// sandbox probe towards `Positive` or leaves it.
pub proof fn lemma_sandbox_probe_monotone(
    version: Option<Seq<char>>,
    host: Option<Seq<char>>,
    hosts: Set<Seq<char>>,
    entry: Seq<char>,
)
    ensures
        sandbox_verdict(version, host, hosts).at_most(
            sandbox_verdict(version, host, hosts.insert(entry)),
        ),
{
}

/// A further path in the list moves the answer of the file probe towards
/// `Positive` or leaves it, and a path that exists makes it `Positive`.
pub proof fn lemma_file_probe_monotone(
    paths: Seq<Seq<char>>,
    present: Set<Seq<char>>,
    entry: Seq<char>,
)
    ensures
        file_verdict(paths, present).at_most(file_verdict(paths.push(entry), present)),
        present.contains(entry) ==> file_verdict(paths.push(entry), present)
            == ProbeResult::Positive,
{
    let longer = paths.push(entry);
    if file_verdict(paths, present) == ProbeResult::Positive {
        let i = choose|i: int| 0 <= i < paths.len() && present.contains(#[trigger] paths[i]);
        assert(longer[i] == paths[i]);
    }
    if present.contains(entry) {
        assert(longer[paths.len() as int] == entry);
    }
}

/// A further prefix in the set moves the answer of the hardware-address
/// probe towards `Positive` or leaves it, and the prefix of a listed address
/// makes it `Positive`.
pub proof fn lemma_mac_probe_monotone(
    adapters: Option<Seq<Seq<u8>>>,
    prefixes: Set<Seq<u8>>,
    entry: Seq<u8>,
)
    ensures
        mac_verdict(adapters, prefixes).at_most(mac_verdict(adapters, prefixes.insert(entry))),
        adapters is Some && (exists|i: int|
            0 <= i < adapters->0.len() && prefix_of(#[trigger] adapters->0[i]) == entry)
            ==> mac_verdict(adapters, prefixes.insert(entry)) == ProbeResult::Positive,
{
    if let Some(list) = adapters {
        if mac_verdict(adapters, prefixes) == ProbeResult::Positive {
            let i = choose|i: int|
                0 <= i < list.len() && prefixes.contains(prefix_of(#[trigger] list[i]));
            assert(prefixes.insert(entry).contains(prefix_of(list[i])));
        }
        if exists|i: int|
            0 <= i < list.len() && prefix_of(#[trigger] list[i]) == entry {
            let i = choose|i: int|
                0 <= i < list.len() && prefix_of(#[trigger] list[i]) == entry;
            assert(prefixes.insert(entry).contains(prefix_of(list[i])));
        }
    }
}

} // verus!
