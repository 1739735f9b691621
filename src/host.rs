//! A short description of the host platform.

use vstd::prelude::*;
use vstd::string::StringExecFns;

use crate::text::contains;

verus! {

/// The three-line description of a host: operating system, CPU
/// architecture and platform family, each after its label.
pub open spec fn system_info_text(os: Seq<char>, arch: Seq<char>, family: Seq<char>) -> Seq<
    char,
> {
    "OS: "@ + os + "\nArchitecture: "@ + arch + "\nFamily: "@ + family
}

/// Every host description carries the labels `OS:`, `Architecture:` and
/// `Family:`, whatever the names it reports.
pub proof fn lemma_system_info_labels(os: Seq<char>, arch: Seq<char>, family: Seq<char>)
    ensures
        contains(system_info_text(os, arch, family), "OS:"@),
        contains(system_info_text(os, arch, family), "Architecture:"@),
        contains(system_info_text(os, arch, family), "Family:"@),
{
    reveal_strlit("OS: ");
    reveal_strlit("OS:");
    reveal_strlit("\nArchitecture: ");
    reveal_strlit("Architecture:");
    reveal_strlit("\nFamily: ");
    reveal_strlit("Family:");
    let text = system_info_text(os, arch, family);
    let arch_at: int = 4 + os.len() as int + 1;
    let family_at: int = 4 + os.len() as int + 15 + arch.len() as int + 1;
    assert(text.subrange(0, 0int + "OS:"@.len()) =~= "OS:"@);
    assert(text.subrange(arch_at, arch_at + 13) =~= "Architecture:"@);
    assert(text.subrange(family_at, family_at + 7) =~= "Family:"@);
}

/// Describes the host from the names Rust gives its operating system, CPU
/// architecture and platform family. It always succeeds.
pub fn get_system_info(os: &str, arch: &str, family: &str) -> (r: Result<String, String>)
    ensures
        r is Ok,
        r matches Ok(text) ==> text@ == system_info_text(os@, arch@, family@),
        r matches Ok(text) ==> contains(text@, "OS:"@) && contains(text@, "Architecture:"@)
            && contains(text@, "Family:"@),
{
    let mut text = String::from_str("OS: ");
    text.append(os);
    text.append("\nArchitecture: ");
    text.append(arch);
    text.append("\nFamily: ");
    text.append(family);
    proof {
        lemma_system_info_labels(os@, arch@, family@);
    }
    Ok(text)
}

} // verus!
