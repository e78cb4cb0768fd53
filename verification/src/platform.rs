//! Operating systems and processor architectures, and the set of them for
//! which the language server is published.

use vstd::prelude::*;

verus! {

/// An operating system the host may run on.
#[derive(Clone, Copy, Debug, PartialEq, Eq, Structural)]
pub enum Os {
    Mac,
    Linux,
    Windows,
}

/// A processor architecture the host may run on.
#[derive(Clone, Copy, Debug, PartialEq, Eq, Structural)]
pub enum Architecture {
    Aarch64,
    X86,
    X8664,
}

/// The architecture's part of a release asset's file name.
pub open spec fn arch_token_text(arch: Architecture) -> Seq<char> {
    match arch {
        Architecture::Aarch64 => "arm64"@,
        Architecture::X86 => "x86"@,
        Architecture::X8664 => "x86_64"@,
    }
}

/// The operating system's part of a release asset's file name.
pub open spec fn platform_token_text(os: Os) -> Seq<char> {
    match os {
        Os::Mac => "apple-macosx"@,
        Os::Linux => "linux"@,
        Os::Windows => "windows"@,
    }
}

/// The text under which the host's interface prints an operating system.
pub open spec fn os_label_text(os: Os) -> Seq<char> {
    match os {
        Os::Mac => "Os::Mac"@,
        Os::Linux => "Os::Linux"@,
        Os::Windows => "Os::Windows"@,
    }
}

/// The text under which the host's interface prints an architecture.
pub open spec fn arch_label_text(arch: Architecture) -> Seq<char> {
    match arch {
        Architecture::Aarch64 => "Architecture::Aarch64"@,
        Architecture::X86 => "Architecture::X86"@,
        Architecture::X8664 => "Architecture::X8664"@,
    }
}

/// Whether the language server is published for this operating system.
pub open spec fn system_supported(os: Os) -> bool {
    os == Os::Mac
}

/// Whether the language server is published for this architecture.
pub open spec fn architecture_supported(arch: Architecture) -> bool {
    arch == Architecture::Aarch64 || arch == Architecture::X8664
}

/// Whether the language server is published for this pair.
pub open spec fn is_supported(os: Os, arch: Architecture) -> bool {
    system_supported(os) && architecture_supported(arch)
}

/// The complaint about an operating system, up to its name.
pub open spec fn system_phrase() -> Seq<char> {
    "Package.swift LSP is currently only supported on macOS, not on "@
}

/// The complaint about an architecture, up to its name.
pub open spec fn architecture_phrase() -> Seq<char> {
    "Package.swift LSP is currently only supported on x86_64 and arm64 architectures, not on "@
}

/// What a launch request is refused with on an unsupported pair: the
/// complaint about the system where the system is not supported, the
/// complaint about the architecture where the architecture is not, and both,
/// the system first, where neither is.
pub open spec fn unsupported_message(os: Os, arch: Architecture) -> Seq<char> {
    if !system_supported(os) && !architecture_supported(arch) {
        system_phrase() + os_label_text(os) + "; "@ + architecture_phrase() + arch_label_text(arch)
    } else if !system_supported(os) {
        system_phrase() + os_label_text(os)
    } else {
        architecture_phrase() + arch_label_text(arch)
    }
}

/// Whether `part` stands somewhere in `text`.
pub open spec fn occurs_in(part: Seq<char>, text: Seq<char>) -> bool {
    exists|at: int|
        0 <= at && at + part.len() <= text.len() && #[trigger] text.subrange(
            at,
            at + part.len(),
        ) == part
}

/// The refusal names all that is unsupported: the system where the system
/// is, the architecture where the architecture is, and both where both are.
pub proof fn lemma_refusal_names_what_is_unsupported(os: Os, arch: Architecture)
    ensures
        !system_supported(os) ==> occurs_in(os_label_text(os), unsupported_message(os, arch)),
        !architecture_supported(arch) ==> occurs_in(
            arch_label_text(arch),
            unsupported_message(os, arch),
        ),
{
    let message = unsupported_message(os, arch);
    let system = os_label_text(os);
    let architecture = arch_label_text(arch);
    if !system_supported(os) {
        let at = system_phrase().len() as int;
        assert(message.subrange(at, at + system.len()) =~= system);
    }
    if !architecture_supported(arch) {
        let at = message.len() - architecture.len();
        assert(message.subrange(at, at + architecture.len()) =~= architecture);
    }
}

pub fn arch_token(arch: Architecture) -> (token: &'static str)
    ensures
        token@ == arch_token_text(arch),
{
    match arch {
        Architecture::Aarch64 => "arm64",
        Architecture::X86 => "x86",
        Architecture::X8664 => "x86_64",
    }
}

pub fn platform_token(os: Os) -> (token: &'static str)
    ensures
        token@ == platform_token_text(os),
{
    match os {
        Os::Mac => "apple-macosx",
        Os::Linux => "linux",
        Os::Windows => "windows",
    }
}

/// `Debug` of `zed_extension_api::Os`. The interface generator writes that
/// impl as a tuple named by the type, `::` and the variant, without fields, so
/// the text is exactly that name.
#[verifier::external_body]
fn os_label(os: Os) -> (label: String)
    ensures
        label@ == os_label_text(os),
{
    let outside = match os {
        Os::Mac => zed_extension_api::Os::Mac,
        Os::Linux => zed_extension_api::Os::Linux,
        Os::Windows => zed_extension_api::Os::Windows,
    };
    format!("{:?}", outside)
}

/// `Debug` of `zed_extension_api::Architecture`, written by the interface
/// generator in the same way: the type's name, `::` and the variant.
#[verifier::external_body]
fn arch_label(arch: Architecture) -> (label: String)
    ensures
        label@ == arch_label_text(arch),
{
    let outside = match arch {
        Architecture::Aarch64 => zed_extension_api::Architecture::Aarch64,
        Architecture::X86 => zed_extension_api::Architecture::X86,
        Architecture::X8664 => zed_extension_api::Architecture::X8664,
    };
    format!("{:?}", outside)
}

/// The platform gate: accepts exactly the supported pairs, and otherwise
/// names the system, the architecture, or both, whichever is not supported.
pub fn check_platform(os: Os, arch: Architecture) -> (verdict: Result<(), String>)
    ensures
        verdict is Ok <==> is_supported(os, arch),
        verdict matches Err(message) ==> message@ == unsupported_message(os, arch),
{
    let system_ok = os == Os::Mac;
    let architecture_ok = arch == Architecture::Aarch64 || arch == Architecture::X8664;
    if system_ok && architecture_ok {
        return Ok(());
    }
    let mut message = String::new();
    if !system_ok {
        message.append("Package.swift LSP is currently only supported on macOS, not on ");
        message.append(os_label(os).as_str());
    }
    if !system_ok && !architecture_ok {
        message.append("; ");
    }
    if !architecture_ok {
        message.append(
            "Package.swift LSP is currently only supported on x86_64 and arm64 architectures, not on ",
        );
        message.append(arch_label(arch).as_str());
    }
    assert(message@ =~= unsupported_message(os, arch));
    Err(message)
}

} // verus!
