//! What is read from the machine: the calls into `sysinfo` and the parts of
//! `std` that look at the host. Nothing is proved of these functions; each
//! states what it takes for granted.

use vstd::prelude::*;

verus! {

/// The result of `str::to_lowercase` on a string, as characters.
pub uninterp spec fn lowercase_of(text: Seq<char>) -> Seq<char>;

/// Calls `sysinfo::System::new_all` and reads `sysinfo::Process::name` of
/// every entry of `sysinfo::System::processes`. Nothing is claimed of the
/// names or of their order.
#[verifier::external_body]
pub(crate) fn running_process_names() -> (names: Vec<String>) {
    let system = sysinfo::System::new_all();
    system.processes().values().map(|process| process.name().to_string()).collect()
}

/// Calls `sysinfo::System::os_version`. Nothing is claimed of the result:
/// `None` where the version cannot be read.
#[verifier::external_body]
pub(crate) fn os_version() -> (version: Option<String>) {
    sysinfo::System::os_version()
}

/// Calls `sysinfo::System::host_name`. Nothing is claimed of the result:
/// `None` where the name cannot be read.
#[verifier::external_body]
pub(crate) fn host_name() -> (name: Option<String>) {
    sysinfo::System::host_name()
}

/// Calls `str::to_lowercase`. The result depends on the characters of `text`
/// alone; the contract gives it the name `lowercase_of`.
#[verifier::external_body]
pub(crate) fn lowercase(text: &str) -> (lowered: String)
    ensures
        lowered@ == lowercase_of(text@),
{
    text.to_lowercase()
}

/// Calls `std::path::Path::exists` on `path`. Nothing is claimed of the
/// result; an error while looking counts as absence.
#[verifier::external_body]
pub(crate) fn path_exists(path: &str) -> (present: bool) {
    std::path::Path::new(path).exists()
}

} // verus!
