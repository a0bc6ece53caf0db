//! The sandbox-artifact probe: the version string of the operating system
//! and the host name.
//!
//! A version string that starts with the digit `0` is the mark of a
//! sandbox, and so is a host name that, in lower case, is one of the known
//! default names. The version is looked at first; the host name is read only
//! where the version does not decide.

use vstd::prelude::*;
use vstd::string::*;
use crate::result::ProbeResult;
use crate::signatures::{names_of, SignatureSet};
use crate::system::{host_name, lowercase, lowercase_of, os_version};

verus! {

/// The characters of an optional string.
pub open spec fn text_of(text: Option<&String>) -> Option<Seq<char>> {
    match text {
        Some(s) => Some(s@),
        None => None,
    }
}

/// What the version string decides alone: `Some(Indeterminate)` where it is
/// missing or empty, `Some(Positive)` where it starts with `0`, `None` where
/// the host name has to decide.
pub open spec fn version_part(version: Option<Seq<char>>) -> Option<ProbeResult> {
    match version {
        None => Some(ProbeResult::Indeterminate),
        Some(v) => if v.len() == 0 {
            Some(ProbeResult::Indeterminate)
        } else if v[0] == '0' {
            Some(ProbeResult::Positive)
        } else {
            None
        },
    }
}

/// What the host name decides, given in lower case: `Indeterminate` where it
/// is missing, `Positive` where it is one of `hosts`, else `Negative`.
pub open spec fn host_part(lowered: Option<Seq<char>>, hosts: Set<Seq<char>>) -> ProbeResult {
    match lowered {
        None => ProbeResult::Indeterminate,
        Some(name) => ProbeResult::of_flag(hosts.contains(name)),
    }
}

/// The host name in lower case, where there is one.
pub open spec fn lowered_host(host: Option<Seq<char>>) -> Option<Seq<char>> {
    match host {
        Some(name) => Some(lowercase_of(name)),
        None => None,
    }
}

/// The answer of the sandbox probe.
pub open spec fn sandbox_verdict(
    version: Option<Seq<char>>,
    host: Option<Seq<char>>,
    hosts: Set<Seq<char>>,
) -> ProbeResult {
    match version_part(version) {
        Some(answer) => answer,
        None => host_part(lowered_host(host), hosts),
    }
}

/// The default host names of known sandboxes, in lower case.
pub open spec fn sandbox_host_names() -> Seq<Seq<char>> {
    seq!["john-pc"@]
}

/// The set of the default host names of known sandboxes.
pub fn sandbox_hosts() -> (hosts: SignatureSet)
    ensures
        names_of(hosts.entries@) == sandbox_host_names(),
        hosts@ == Set::<Seq<char>>::empty().insert("john-pc"@),
{
    let mut hosts = SignatureSet::new();
    hosts.insert("john-pc".to_owned());
    assert(names_of(hosts.entries@) =~= sandbox_host_names());
    hosts
}

/// What the version string decides alone.
pub fn version_verdict(version: Option<&String>) -> (r: Option<ProbeResult>)
    ensures
        r == version_part(text_of(version)),
{
    match version {
        None => Some(ProbeResult::Indeterminate),
        Some(v) => {
            if v.as_str().is_empty() {
                Some(ProbeResult::Indeterminate)
            } else if v.as_str().get_char(0) == '0' {
                Some(ProbeResult::Positive)
            } else {
                None
            }
        },
    }
}

/// What the host name decides, once it is in lower case.
pub fn host_verdict(lowered: Option<&String>, hosts: &SignatureSet) -> (r: ProbeResult)
    ensures
        r == host_part(text_of(lowered), hosts@),
{
    match lowered {
        None => ProbeResult::Indeterminate,
        Some(name) => ProbeResult::from_flag(hosts.contains(name)),
    }
}

/// The sandbox probe on strings that were read beforehand; `None` stands for
/// a string that could not be read.
pub fn sandbox_probe(version: Option<&String>, host: Option<&String>, hosts: &SignatureSet) -> (r:
    ProbeResult)
    ensures
        r == sandbox_verdict(text_of(version), text_of(host), hosts@),
{
    match version_verdict(version) {
        Some(answer) => answer,
        None => match host {
            None => host_verdict(None, hosts),
            Some(name) => {
                let lowered = lowercase(name.as_str());
                host_verdict(Some(&lowered), hosts)
            },
        },
    }
}

/// The characters of an optional string that was read.
pub open spec fn read_text(text: Option<String>) -> Option<Seq<char>> {
    match text {
        Some(s) => Some(s@),
        None => None,
    }
}

/// Whether `version` and `host` are what `sandbox_reading` can have read:
/// the version from `read_version`, and the host name from `read_host` only
/// where the version does not decide.
pub open spec fn is_reading<V: Fn() -> Option<String>, H: Fn() -> Option<String>>(
    read_version: V,
    read_host: H,
    version: Option<String>,
    host: Option<String>,
) -> bool {
    &&& read_version.ensures((), version)
    &&& version_part(read_text(version)) is None ==> read_host.ensures((), host)
    &&& version_part(read_text(version)) is Some ==> host is None
}

/// The sandbox probe on strings that it reads itself: the version through
/// `read_version`, then, only where the version does not decide, the host
/// name through `read_host`.
pub fn sandbox_reading<V: Fn() -> Option<String>, H: Fn() -> Option<String>>(
    read_version: V,
    read_host: H,
    hosts: &SignatureSet,
) -> (r: ProbeResult)
    requires
        read_version.requires(()),
        read_host.requires(()),
    ensures
        exists|version: Option<String>, host: Option<String>| #[trigger]
            is_reading(read_version, read_host, version, host) && r == sandbox_verdict(
                read_text(version),
                read_text(host),
                hosts@,
            ),
{
    let version = read_version();
    let seen = version.as_ref();
    match version_verdict(seen) {
        Some(answer) => {
            proof {
                assert(text_of(seen) == read_text(version));
                assert(is_reading(read_version, read_host, version, None));
            }
            answer
        },
        None => {
            let host = read_host();
            let named = host.as_ref();
            proof {
                assert(text_of(seen) == read_text(version));
                assert(text_of(named) == read_text(host));
                assert(is_reading(read_version, read_host, version, host));
            }
            sandbox_probe(seen, named, hosts)
        },
    }
}

/// Whether `version` and `host` are what the sandbox probe can have read on
/// this machine: the version string of the operating system and, only where
/// that does not decide, the host name.
pub closed spec fn machine_reading(version: Option<String>, host: Option<String>) -> bool {
    is_reading(os_version, host_name, version, host)
}

/// The sandbox probe on this machine, with the standard host names: the
/// answer of the probe on the version string and the host name that were
/// read. The host name is read only where the version string does not decide.
pub fn sandbox() -> (r: ProbeResult)
    ensures
        exists|version: Option<String>, host: Option<String>| #[trigger]
            machine_reading(version, host) && r == sandbox_verdict(
                read_text(version),
                read_text(host),
                Set::<Seq<char>>::empty().insert("john-pc"@),
            ),
{
    let hosts = sandbox_hosts();
    let r = sandbox_reading(os_version, host_name, &hosts);
    proof {
        let (version, host) = choose|version: Option<String>, host: Option<String>| #[trigger]
            is_reading(os_version, host_name, version, host) && r == sandbox_verdict(
                read_text(version),
                read_text(host),
                hosts@,
            );
        assert(machine_reading(version, host));
    }
    r
}

} // verus!
