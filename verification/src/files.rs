//! The file-artifact probe: files that hypervisor tools leave behind.

use vstd::prelude::*;
use crate::process::push_name;
use crate::result::ProbeResult;
use crate::signatures::names_of;
use crate::system::path_exists;

verus! {

/// Absolute paths whose presence is a sign of a virtual machine. One that
/// exists is enough; the order has no bearing on the answer.
pub struct ArtifactPathList {
    pub paths: Vec<String>,
}

impl View for ArtifactPathList {
    type V = Seq<Seq<char>>;

    /// The paths, each as its characters.
    open spec fn view(&self) -> Seq<Seq<char>> {
        names_of(self.paths@)
    }
}

/// The paths of the standard configuration.
pub open spec fn hypervisor_file_paths() -> Seq<Seq<char>> {
    seq![
        "C:\\windows\\System32\\Drivers\\Vmmouse.sys"@,
        "C:\\windows\\System32\\Drivers\\vm3dgl.dll"@,
        "C:\\windows\\System32\\Drivers\\vmdum.dll"@,
        "C:\\windows\\System32\\Drivers\\vm3dver.dll"@,
        "C:\\windows\\System32\\Drivers\\vmtray.dll"@,
        "C:\\windows\\System32\\Drivers\\VMToolsHook.dll"@,
        "C:\\windows\\System32\\Drivers\\vmmousever.dll"@,
        "C:\\windows\\System32\\Drivers\\vmhgfs.dll"@,
        "C:\\windows\\System32\\Drivers\\vmGuestLib.dll"@,
        "C:\\windows\\System32\\Drivers\\VmGuestLibJava.dll"@,
        "C:\\windows\\System32\\Drivers\\VBoxMouse.sys"@,
        "C:\\windows\\System32\\Drivers\\VBoxGuest.sys"@,
        "C:\\windows\\System32\\Drivers\\VBoxSF.sys"@,
        "C:\\windows\\System32\\Drivers\\VBoxVideo.sys"@,
        "C:\\windows\\System32\\vboxdisp.dll"@,
        "C:\\windows\\System32\\vboxhook.dll"@,
        "C:\\windows\\System32\\vboxmrxnp.dll"@,
        "C:\\windows\\System32\\vboxogl.dll"@,
        "C:\\windows\\System32\\vboxoglarrayspu.dll"@,
        "C:\\windows\\System32\\vboxoglcrutil.dll"@,
        "C:\\windows\\System32\\vboxoglerrorspu.dll"@,
        "C:\\windows\\System32\\vboxoglfeedbackspu.dll"@,
        "C:\\windows\\System32\\vboxoglpackspu.dll"@,
        "C:\\windows\\System32\\vboxoglpassthroughspu.dll"@,
        "C:\\windows\\System32\\vboxservice.exe"@,
        "C:\\windows\\System32\\vboxtray.exe"@,
        "C:\\windows\\System32\\VBoxControl.exe"@,
    ]
}

/// The answer of the file probe where exactly the paths in `present` exist:
/// `Positive` where one path of the list exists, else `Negative`.
pub open spec fn file_verdict(paths: Seq<Seq<char>>, present: Set<Seq<char>>) -> ProbeResult {
    ProbeResult::of_flag(exists|i: int| 0 <= i < paths.len() && present.contains(#[trigger] paths[i]))
}

/// Whether `is_present` answers for every path as a file system does in which
/// exactly the paths in `present` exist.
pub open spec fn answers_for<F: Fn(&str) -> bool>(is_present: F, present: Set<Seq<char>>) -> bool {
    forall|path: &str, answer: bool| #[trigger]
        is_present.ensures((path,), answer) ==> answer == present.contains(path@)
}

impl ArtifactPathList {
    /// The list without paths.
    pub fn new() -> (list: ArtifactPathList)
        ensures
            list@ == Seq::<Seq<char>>::empty(),
    {
        let list = ArtifactPathList { paths: Vec::new() };
        assert(list@ =~= Seq::<Seq<char>>::empty());
        list
    }

    /// Appends a path.
    pub fn push(&mut self, path: &str)
        ensures
            final(self)@ == old(self)@.push(path@),
    {
        push_name(&mut self.paths, path);
    }

    /// The standard configuration: driver and tool files of two hypervisors.
    pub fn hypervisor_files() -> (list: ArtifactPathList)
        ensures
            list@ == hypervisor_file_paths(),
    {
        let mut list = ArtifactPathList::new();
        list.push("C:\\windows\\System32\\Drivers\\Vmmouse.sys");
        list.push("C:\\windows\\System32\\Drivers\\vm3dgl.dll");
        list.push("C:\\windows\\System32\\Drivers\\vmdum.dll");
        list.push("C:\\windows\\System32\\Drivers\\vm3dver.dll");
        list.push("C:\\windows\\System32\\Drivers\\vmtray.dll");
        list.push("C:\\windows\\System32\\Drivers\\VMToolsHook.dll");
        list.push("C:\\windows\\System32\\Drivers\\vmmousever.dll");
        list.push("C:\\windows\\System32\\Drivers\\vmhgfs.dll");
        list.push("C:\\windows\\System32\\Drivers\\vmGuestLib.dll");
        list.push("C:\\windows\\System32\\Drivers\\VmGuestLibJava.dll");
        list.push("C:\\windows\\System32\\Drivers\\VBoxMouse.sys");
        list.push("C:\\windows\\System32\\Drivers\\VBoxGuest.sys");
        list.push("C:\\windows\\System32\\Drivers\\VBoxSF.sys");
        list.push("C:\\windows\\System32\\Drivers\\VBoxVideo.sys");
        list.push("C:\\windows\\System32\\vboxdisp.dll");
        list.push("C:\\windows\\System32\\vboxhook.dll");
        list.push("C:\\windows\\System32\\vboxmrxnp.dll");
        list.push("C:\\windows\\System32\\vboxogl.dll");
        list.push("C:\\windows\\System32\\vboxoglarrayspu.dll");
        list.push("C:\\windows\\System32\\vboxoglcrutil.dll");
        list.push("C:\\windows\\System32\\vboxoglerrorspu.dll");
        list.push("C:\\windows\\System32\\vboxoglfeedbackspu.dll");
        list.push("C:\\windows\\System32\\vboxoglpackspu.dll");
        list.push("C:\\windows\\System32\\vboxoglpassthroughspu.dll");
        list.push("C:\\windows\\System32\\vboxservice.exe");
        list.push("C:\\windows\\System32\\vboxtray.exe");
        list.push("C:\\windows\\System32\\VBoxControl.exe");
        list
    }
}

/// Whether `is_present` can give `answer` for the path with the characters
/// `name`.
pub open spec fn said<F: Fn(&str) -> bool>(is_present: F, name: Seq<char>, answer: bool) -> bool {
    exists|path: &str| path@ == name && #[trigger] is_present.ensures((path,), answer)
}

/// The file probe: asks `is_present` for the paths of `list` from the first
/// on and stops at the first that exists.
///
/// `Positive` means that `is_present` said yes to a path of the list,
/// `Negative` that it said no to every one; the answer is never
/// `Indeterminate`. Where `is_present` answers as a file system with the
/// files `present`, the answer is `file_verdict` of the list and `present`.
pub fn file_artifact_probe<F: Fn(&str) -> bool>(list: &ArtifactPathList, is_present: F) -> (r:
    ProbeResult)
    requires
        forall|path: &str| is_present.requires((path,)),
    ensures
        r != ProbeResult::Indeterminate,
        r == ProbeResult::Positive ==> (exists|i: int|
            0 <= i < list@.len() && said(is_present, #[trigger] list@[i], true)),
        r == ProbeResult::Negative ==> (forall|i: int|
            0 <= i < list@.len() ==> said(is_present, #[trigger] list@[i], false)),
        forall|present: Set<Seq<char>>| #[trigger]
            answers_for(is_present, present) ==> r == file_verdict(list@, present),
{
    let mut i: usize = 0;
    while i < list.paths.len()
        invariant
            0 <= i <= list.paths.len(),
            forall|path: &str| is_present.requires((path,)),
            forall|k: int| 0 <= k < i ==> said(is_present, #[trigger] list@[k], false),
        decreases list.paths.len() - i,
    {
        let path = list.paths[i].as_str();
        let found = is_present(path);
        proof {
            assert(path@ == list@[i as int]);
            assert(said(is_present, list@[i as int], found));
        }
        if found {
            proof {
                assert forall|present: Set<Seq<char>>| #[trigger]
                    answers_for(is_present, present) implies file_verdict(list@, present)
                    == ProbeResult::Positive by {
                    assert(present.contains(list@[i as int]));
                }
            }
            return ProbeResult::Positive;
        }
        i += 1;
    }
    proof {
        assert forall|present: Set<Seq<char>>| #[trigger]
            answers_for(is_present, present) implies file_verdict(list@, present)
            == ProbeResult::Negative by {
            assert forall|k: int| 0 <= k < list@.len() implies !present.contains(
                #[trigger] list@[k],
            ) by {
                assert(said(is_present, list@[k], false));
            }
        }
    }
    ProbeResult::Negative
}

/// Whether this machine's file system can give `answer` for the path with
/// the characters `name`.
pub closed spec fn machine_said(name: Seq<char>, answer: bool) -> bool {
    said(path_exists, name, answer)
}

/// The file probe on this machine's file system, with the standard paths:
/// `Positive` where the file system said yes to one of them, `Negative` where
/// it said no to every one. A path that cannot be looked at counts as
/// absent, so the answer is definite.
pub fn vm_file_detected() -> (r: ProbeResult)
    ensures
        r != ProbeResult::Indeterminate,
        r == ProbeResult::Positive ==> (exists|i: int|
            0 <= i < hypervisor_file_paths().len() && machine_said(
                #[trigger] hypervisor_file_paths()[i],
                true,
            )),
        r == ProbeResult::Negative ==> (forall|i: int|
            0 <= i < hypervisor_file_paths().len() ==> machine_said(
                #[trigger] hypervisor_file_paths()[i],
                false,
            )),
{
    let list = ArtifactPathList::hypervisor_files();
    let r = file_artifact_probe(&list, path_exists);
    proof {
        if r == ProbeResult::Positive {
            let i = choose|i: int|
                0 <= i < list@.len() && said(path_exists, #[trigger] list@[i], true);
            assert(machine_said(hypervisor_file_paths()[i], true));
        }
        if r == ProbeResult::Negative {
            assert forall|i: int| 0 <= i < hypervisor_file_paths().len() implies machine_said(
                #[trigger] hypervisor_file_paths()[i],
                false,
            ) by {
                assert(said(path_exists, list@[i], false));
            }
        }
    }
    r
}

} // verus!
