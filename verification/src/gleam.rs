//! The Gleam script toolchain: which tools to fetch, from where, and how to unpack them.
use vstd::prelude::*;
use vstd::string::*;
use crate::text::{ends_with, owned};

verus! {

/// The Gleam release the editor installs.
pub const GLEAM_VERSION: &'static str = "1.12.0";

/// The Bun release the editor installs.
pub const BUN_VERSION: &'static str = "1.2.22";

/// The Javy release the editor installs.
pub const JAVY_VERSION: &'static str = "6.0.0";

/// The operating system the editor runs on.
#[derive(Clone, Copy, PartialEq, Eq, Structural, Debug)]
pub enum TargetOs {
    Windows,
    Linux,
    MacOs,
    Other,
}

/// The processor architecture the editor runs on.
#[derive(Clone, Copy, PartialEq, Eq, Structural, Debug)]
pub enum TargetArch {
    Aarch64,
    X86_64,
    Other,
}

/// A tool of the Gleam-to-WASM pipeline.
#[derive(Clone, Copy, PartialEq, Eq, Structural, Debug)]
pub enum Tool {
    Gleam,
    Bun,
    Javy,
}

/// Why no download address exists for a tool.
#[derive(Clone, Copy, PartialEq, Eq, Structural, Debug)]
pub enum DownloadUrlError {
    /// The architecture has no release at all.
    UnsupportedArchitecture,
    /// The architecture has no prebuilt release; the tool must be built from source.
    NoPrebuiltRelease,
    /// The operating system has no release.
    UnsupportedOperatingSystem,
}

/// How a downloaded file is unpacked, judged by the end of its address.
#[derive(Clone, Copy, PartialEq, Eq, Structural, Debug)]
pub enum ArchiveKind {
    Zip,
    TarGz,
    Gz,
    /// Not an archive; nothing is unpacked.
    Plain,
}

/// Why a downloaded tool could not be unpacked.
#[derive(Clone, Copy, PartialEq, Eq, Structural, Debug)]
pub enum ExtractError {
    /// The bytes are not a valid gzip stream.
    InvalidGzip,
}

/// Compiles a gleam project into WASM through a pipeline.
pub struct GleamScriptCompiler {
    project_location: String,
}

/// The architecture part of a Gleam release name.
pub open spec fn gleam_arch(arch: TargetArch) -> Option<Seq<char>> {
    match arch {
        TargetArch::Aarch64 => Some("aarch64"@),
        TargetArch::X86_64 => Some("x86_64"@),
        TargetArch::Other => None,
    }
}

/// The architecture part of a Bun release name.
pub open spec fn bun_arch(arch: TargetArch) -> Option<Seq<char>> {
    match arch {
        TargetArch::Aarch64 => Some("aarch64"@),
        TargetArch::X86_64 => Some("x64"@),
        TargetArch::Other => None,
    }
}

/// Where the Gleam release for a platform is downloaded from.
pub open spec fn gleam_url(os: TargetOs, arch: TargetArch) -> Result<Seq<char>, DownloadUrlError> {
    if os == TargetOs::Other {
        Err(DownloadUrlError::UnsupportedOperatingSystem)
    } else {
        match gleam_arch(arch) {
            None => Err(DownloadUrlError::UnsupportedArchitecture),
            Some(a) => {
                let v = GLEAM_VERSION@;
                let tail = match os {
                    TargetOs::Windows => "-pc-windows-msvc.zip"@,
                    TargetOs::Linux => "-unknown-linux-musl.tar.gz"@,
                    _ => "-apple-darwin.tar.gz"@,
                };
                Ok(
                    "https://github.com/gleam-lang/gleam/releases/download/v"@ + v + "/gleam-v"@
                        + v + "-"@ + a + tail,
                )
            },
        }
    }
}

/// Where the Bun release for a platform is downloaded from.
pub open spec fn bun_url(os: TargetOs, arch: TargetArch) -> Result<Seq<char>, DownloadUrlError> {
    if os == TargetOs::Other {
        Err(DownloadUrlError::UnsupportedOperatingSystem)
    } else {
        match bun_arch(arch) {
            None => Err(DownloadUrlError::UnsupportedArchitecture),
            Some(a) => {
                let os_name = match os {
                    TargetOs::Windows => "windows"@,
                    TargetOs::Linux => "linux"@,
                    _ => "darwin"@,
                };
                Ok(
                    "https://github.com/oven-sh/bun/releases/download/bun-v"@ + BUN_VERSION@
                        + "/bun-"@ + os_name + "-"@ + a + ".zip"@,
                )
            },
        }
    }
}

/// Where the Javy release for a platform is downloaded from.
pub open spec fn javy_url(os: TargetOs, arch: TargetArch) -> Result<Seq<char>, DownloadUrlError> {
    if os == TargetOs::Other {
        Err(DownloadUrlError::UnsupportedOperatingSystem)
    } else {
        let a = match (os, arch) {
            (TargetOs::Windows, TargetArch::Aarch64) => Err(DownloadUrlError::NoPrebuiltRelease),
            (_, TargetArch::Aarch64) => Ok("arm"@),
            (_, TargetArch::X86_64) => Ok("x86_64"@),
            _ => Err(DownloadUrlError::UnsupportedArchitecture),
        };
        match a {
            Err(e) => Err(e),
            Ok(a) => {
                let os_name = match os {
                    TargetOs::Windows => "windows"@,
                    TargetOs::Linux => "linux"@,
                    _ => "macos"@,
                };
                Ok(
                    "https://github.com/bytecodealliance/javy/releases/download/v"@ + JAVY_VERSION@
                        + "/javy-"@ + a + "-"@ + os_name + "-v"@ + JAVY_VERSION@ + ".gz"@,
                )
            },
        }
    }
}

/// How a downloaded file is unpacked.
pub open spec fn archive_kind_spec(url: Seq<char>) -> ArchiveKind {
    if ".zip"@.is_suffix_of(url) {
        ArchiveKind::Zip
    } else if ".tar.gz"@.is_suffix_of(url) {
        ArchiveKind::TarGz
    } else if ".gz"@.is_suffix_of(url) {
        ArchiveKind::Gz
    } else {
        ArchiveKind::Plain
    }
}

/// The executable's file name for a tool on an operating system.
pub open spec fn exe_name_spec(tool_name: Seq<char>, os: TargetOs) -> Seq<char> {
    if os == TargetOs::Windows {
        tool_name + ".exe"@
    } else {
        tool_name
    }
}

/// What `flate2::read::GzDecoder` read to its end gives for `data`, or `None` on a read error.
pub uninterp spec fn gunzip_result(data: Seq<u8>) -> Option<Seq<u8>>;

/// Decompresses a gzip stream with `flate2::read::GzDecoder`, reading it to
/// the end. The contract only names the result: the bytes are whatever the
/// decoder yields for `data`, and `None` stands for the decoder's read error;
/// nothing is stated of the gzip format itself.
#[verifier::external_body]
fn gunzip(data: &[u8]) -> (r: Option<Vec<u8>>)
    ensures
        match r {
            Some(v) => gunzip_result(data@) == Some(v@),
            None => gunzip_result(data@) is None,
        },
{
    let mut out = Vec::new();
    match std::io::Read::read_to_end(&mut flate2::read::GzDecoder::new(data), &mut out) {
        Ok(_) => Some(out),
        Err(_) => None,
    }
}

fn push_str(s: &mut String, t: &str)
    ensures
        final(s)@ == old(s)@ + t@,
{
    s.append(t);
}

impl GleamScriptCompiler {
    /// The project directory, as text.
    pub closed spec fn location(&self) -> Seq<char> {
        self.project_location@
    }

    /// A compiler for the project at `project_location`.
    pub fn new(project_location: &String) -> (r: Self)
        ensures
            r.location() == project_location@,
    {
        GleamScriptCompiler { project_location: project_location.clone() }
    }

    /// The project directory.
    pub fn project_location(&self) -> (r: &String)
        ensures
            r@ == self.location(),
    {
        &self.project_location
    }

    /// Where Gleam is downloaded from on this platform.
    pub fn get_gleam_download_url(os: TargetOs, arch: TargetArch) -> (r: Result<String, DownloadUrlError>)
        ensures
            match (r, gleam_url(os, arch)) {
                (Ok(a), Ok(b)) => a@ == b,
                (Err(a), Err(b)) => a == b,
                _ => false,
            },
    {
        if os == TargetOs::Other {
            return Err(DownloadUrlError::UnsupportedOperatingSystem);
        }
        let a = match arch {
            TargetArch::Aarch64 => "aarch64",
            TargetArch::X86_64 => "x86_64",
            TargetArch::Other => {
                return Err(DownloadUrlError::UnsupportedArchitecture);
            },
        };
        let tail = match os {
            TargetOs::Windows => "-pc-windows-msvc.zip",
            TargetOs::Linux => "-unknown-linux-musl.tar.gz",
            _ => "-apple-darwin.tar.gz",
        };
        let mut s = owned("https://github.com/gleam-lang/gleam/releases/download/v");
        push_str(&mut s, GLEAM_VERSION);
        push_str(&mut s, "/gleam-v");
        push_str(&mut s, GLEAM_VERSION);
        push_str(&mut s, "-");
        push_str(&mut s, a);
        push_str(&mut s, tail);
        Ok(s)
    }

    /// Where Bun is downloaded from on this platform.
    pub fn get_bun_download_url(os: TargetOs, arch: TargetArch) -> (r: Result<String, DownloadUrlError>)
        ensures
            match (r, bun_url(os, arch)) {
                (Ok(a), Ok(b)) => a@ == b,
                (Err(a), Err(b)) => a == b,
                _ => false,
            },
    {
        if os == TargetOs::Other {
            return Err(DownloadUrlError::UnsupportedOperatingSystem);
        }
        let a = match arch {
            TargetArch::Aarch64 => "aarch64",
            TargetArch::X86_64 => "x64",
            TargetArch::Other => {
                return Err(DownloadUrlError::UnsupportedArchitecture);
            },
        };
        let os_name = match os {
            TargetOs::Windows => "windows",
            TargetOs::Linux => "linux",
            _ => "darwin",
        };
        let mut s = owned("https://github.com/oven-sh/bun/releases/download/bun-v");
        push_str(&mut s, BUN_VERSION);
        push_str(&mut s, "/bun-");
        push_str(&mut s, os_name);
        push_str(&mut s, "-");
        push_str(&mut s, a);
        push_str(&mut s, ".zip");
        Ok(s)
    }

    /// Where Javy is downloaded from on this platform.
    pub fn get_javy_download_url(os: TargetOs, arch: TargetArch) -> (r: Result<String, DownloadUrlError>)
        ensures
            match (r, javy_url(os, arch)) {
                (Ok(a), Ok(b)) => a@ == b,
                (Err(a), Err(b)) => a == b,
                _ => false,
            },
    {
        if os == TargetOs::Other {
            return Err(DownloadUrlError::UnsupportedOperatingSystem);
        }
        let a = match (os, arch) {
            (TargetOs::Windows, TargetArch::Aarch64) => {
                return Err(DownloadUrlError::NoPrebuiltRelease);
            },
            (_, TargetArch::Aarch64) => "arm",
            (_, TargetArch::X86_64) => "x86_64",
            _ => {
                return Err(DownloadUrlError::UnsupportedArchitecture);
            },
        };
        let os_name = match os {
            TargetOs::Windows => "windows",
            TargetOs::Linux => "linux",
            _ => "macos",
        };
        let mut s = owned("https://github.com/bytecodealliance/javy/releases/download/v");
        push_str(&mut s, JAVY_VERSION);
        push_str(&mut s, "/javy-");
        push_str(&mut s, a);
        push_str(&mut s, "-");
        push_str(&mut s, os_name);
        push_str(&mut s, "-v");
        push_str(&mut s, JAVY_VERSION);
        push_str(&mut s, ".gz");
        Ok(s)
    }
}

/// The message shown when no download address exists.
pub fn url_error_message(e: DownloadUrlError) -> (r: String)
    ensures
        r@ == match e {
            DownloadUrlError::UnsupportedArchitecture =>
                "This architecture is not supported for building the gleam project"@,
            DownloadUrlError::NoPrebuiltRelease =>
                "This arch is not available for prebuilt download. Please build this from source"@,
            DownloadUrlError::UnsupportedOperatingSystem =>
                "The operating system is not supported for building the Gleam project"@,
        },
{
    match e {
        DownloadUrlError::UnsupportedArchitecture => owned(
            "This architecture is not supported for building the gleam project",
        ),
        DownloadUrlError::NoPrebuiltRelease => owned(
            "This arch is not available for prebuilt download. Please build this from source",
        ),
        DownloadUrlError::UnsupportedOperatingSystem => owned(
            "The operating system is not supported for building the Gleam project",
        ),
    }
}

/// How the file downloaded from `url` is unpacked.
pub fn archive_kind(url: &str) -> (r: ArchiveKind)
    ensures
        r == archive_kind_spec(url@),
{
    if ends_with(url, ".zip") {
        ArchiveKind::Zip
    } else if ends_with(url, ".tar.gz") {
        ArchiveKind::TarGz
    } else if ends_with(url, ".gz") {
        ArchiveKind::Gz
    } else {
        ArchiveKind::Plain
    }
}

/// Where each tool is downloaded from, for every operating system and
/// architecture: the release named is the one built for the requested
/// platform; an unknown operating system or architecture has none, and Javy
/// has no prebuilt release for Windows on ARM.
pub proof fn law_download_urls(arch: TargetArch)
    ensures
        gleam_url(TargetOs::Windows, TargetArch::X86_64) == Ok::<Seq<char>, DownloadUrlError>("https://github.com/gleam-lang/gleam/releases/download/v"@ + GLEAM_VERSION@ + "/gleam-v"@ + GLEAM_VERSION@ + "-"@ + "x86_64"@ + "-pc-windows-msvc.zip"@),
        gleam_url(TargetOs::Windows, TargetArch::Aarch64) == Ok::<Seq<char>, DownloadUrlError>("https://github.com/gleam-lang/gleam/releases/download/v"@ + GLEAM_VERSION@ + "/gleam-v"@ + GLEAM_VERSION@ + "-"@ + "aarch64"@ + "-pc-windows-msvc.zip"@),
        gleam_url(TargetOs::Linux, TargetArch::X86_64) == Ok::<Seq<char>, DownloadUrlError>("https://github.com/gleam-lang/gleam/releases/download/v"@ + GLEAM_VERSION@ + "/gleam-v"@ + GLEAM_VERSION@ + "-"@ + "x86_64"@ + "-unknown-linux-musl.tar.gz"@),
        gleam_url(TargetOs::Linux, TargetArch::Aarch64) == Ok::<Seq<char>, DownloadUrlError>("https://github.com/gleam-lang/gleam/releases/download/v"@ + GLEAM_VERSION@ + "/gleam-v"@ + GLEAM_VERSION@ + "-"@ + "aarch64"@ + "-unknown-linux-musl.tar.gz"@),
        gleam_url(TargetOs::MacOs, TargetArch::X86_64) == Ok::<Seq<char>, DownloadUrlError>("https://github.com/gleam-lang/gleam/releases/download/v"@ + GLEAM_VERSION@ + "/gleam-v"@ + GLEAM_VERSION@ + "-"@ + "x86_64"@ + "-apple-darwin.tar.gz"@),
        gleam_url(TargetOs::MacOs, TargetArch::Aarch64) == Ok::<Seq<char>, DownloadUrlError>("https://github.com/gleam-lang/gleam/releases/download/v"@ + GLEAM_VERSION@ + "/gleam-v"@ + GLEAM_VERSION@ + "-"@ + "aarch64"@ + "-apple-darwin.tar.gz"@),
        bun_url(TargetOs::Windows, TargetArch::X86_64) == Ok::<Seq<char>, DownloadUrlError>("https://github.com/oven-sh/bun/releases/download/bun-v"@ + BUN_VERSION@ + "/bun-"@ + "windows"@ + "-"@ + "x64"@ + ".zip"@),
        bun_url(TargetOs::Windows, TargetArch::Aarch64) == Ok::<Seq<char>, DownloadUrlError>("https://github.com/oven-sh/bun/releases/download/bun-v"@ + BUN_VERSION@ + "/bun-"@ + "windows"@ + "-"@ + "aarch64"@ + ".zip"@),
        bun_url(TargetOs::Linux, TargetArch::X86_64) == Ok::<Seq<char>, DownloadUrlError>("https://github.com/oven-sh/bun/releases/download/bun-v"@ + BUN_VERSION@ + "/bun-"@ + "linux"@ + "-"@ + "x64"@ + ".zip"@),
        bun_url(TargetOs::Linux, TargetArch::Aarch64) == Ok::<Seq<char>, DownloadUrlError>("https://github.com/oven-sh/bun/releases/download/bun-v"@ + BUN_VERSION@ + "/bun-"@ + "linux"@ + "-"@ + "aarch64"@ + ".zip"@),
        bun_url(TargetOs::MacOs, TargetArch::X86_64) == Ok::<Seq<char>, DownloadUrlError>("https://github.com/oven-sh/bun/releases/download/bun-v"@ + BUN_VERSION@ + "/bun-"@ + "darwin"@ + "-"@ + "x64"@ + ".zip"@),
        bun_url(TargetOs::MacOs, TargetArch::Aarch64) == Ok::<Seq<char>, DownloadUrlError>("https://github.com/oven-sh/bun/releases/download/bun-v"@ + BUN_VERSION@ + "/bun-"@ + "darwin"@ + "-"@ + "aarch64"@ + ".zip"@),
        javy_url(TargetOs::Windows, TargetArch::X86_64) == Ok::<Seq<char>, DownloadUrlError>("https://github.com/bytecodealliance/javy/releases/download/v"@ + JAVY_VERSION@ + "/javy-"@ + "x86_64"@ + "-"@ + "windows"@ + "-v"@ + JAVY_VERSION@ + ".gz"@),
        javy_url(TargetOs::Windows, TargetArch::Aarch64) == Err::<Seq<char>, DownloadUrlError>(DownloadUrlError::NoPrebuiltRelease),
        javy_url(TargetOs::Linux, TargetArch::X86_64) == Ok::<Seq<char>, DownloadUrlError>("https://github.com/bytecodealliance/javy/releases/download/v"@ + JAVY_VERSION@ + "/javy-"@ + "x86_64"@ + "-"@ + "linux"@ + "-v"@ + JAVY_VERSION@ + ".gz"@),
        javy_url(TargetOs::Linux, TargetArch::Aarch64) == Ok::<Seq<char>, DownloadUrlError>("https://github.com/bytecodealliance/javy/releases/download/v"@ + JAVY_VERSION@ + "/javy-"@ + "arm"@ + "-"@ + "linux"@ + "-v"@ + JAVY_VERSION@ + ".gz"@),
        javy_url(TargetOs::MacOs, TargetArch::X86_64) == Ok::<Seq<char>, DownloadUrlError>("https://github.com/bytecodealliance/javy/releases/download/v"@ + JAVY_VERSION@ + "/javy-"@ + "x86_64"@ + "-"@ + "macos"@ + "-v"@ + JAVY_VERSION@ + ".gz"@),
        javy_url(TargetOs::MacOs, TargetArch::Aarch64) == Ok::<Seq<char>, DownloadUrlError>("https://github.com/bytecodealliance/javy/releases/download/v"@ + JAVY_VERSION@ + "/javy-"@ + "arm"@ + "-"@ + "macos"@ + "-v"@ + JAVY_VERSION@ + ".gz"@),
        gleam_url(TargetOs::Windows, TargetArch::Other) == Err::<Seq<char>, DownloadUrlError>(DownloadUrlError::UnsupportedArchitecture),
        bun_url(TargetOs::Windows, TargetArch::Other) == Err::<Seq<char>, DownloadUrlError>(DownloadUrlError::UnsupportedArchitecture),
        javy_url(TargetOs::Windows, TargetArch::Other) == Err::<Seq<char>, DownloadUrlError>(DownloadUrlError::UnsupportedArchitecture),
        gleam_url(TargetOs::Linux, TargetArch::Other) == Err::<Seq<char>, DownloadUrlError>(DownloadUrlError::UnsupportedArchitecture),
        bun_url(TargetOs::Linux, TargetArch::Other) == Err::<Seq<char>, DownloadUrlError>(DownloadUrlError::UnsupportedArchitecture),
        javy_url(TargetOs::Linux, TargetArch::Other) == Err::<Seq<char>, DownloadUrlError>(DownloadUrlError::UnsupportedArchitecture),
        gleam_url(TargetOs::MacOs, TargetArch::Other) == Err::<Seq<char>, DownloadUrlError>(DownloadUrlError::UnsupportedArchitecture),
        bun_url(TargetOs::MacOs, TargetArch::Other) == Err::<Seq<char>, DownloadUrlError>(DownloadUrlError::UnsupportedArchitecture),
        javy_url(TargetOs::MacOs, TargetArch::Other) == Err::<Seq<char>, DownloadUrlError>(DownloadUrlError::UnsupportedArchitecture),
        gleam_url(TargetOs::Other, arch) == Err::<Seq<char>, DownloadUrlError>(DownloadUrlError::UnsupportedOperatingSystem),
        bun_url(TargetOs::Other, arch) == Err::<Seq<char>, DownloadUrlError>(DownloadUrlError::UnsupportedOperatingSystem),
        javy_url(TargetOs::Other, arch) == Err::<Seq<char>, DownloadUrlError>(DownloadUrlError::UnsupportedOperatingSystem),
{
}

/// Whether `u` ends with `t`, judged on the end of `s + t` when `t` is at least as long.
proof fn lemma_suffix_of_concat(u: Seq<char>, s: Seq<char>, t: Seq<char>)
    requires
        u.len() <= t.len(),
    ensures
        u.is_suffix_of(s + t) == u.is_suffix_of(t),
{
    let st = s + t;
    assert(st.subrange(st.len() - u.len(), st.len() as int) =~= t.subrange(
        t.len() - u.len(),
        t.len() as int,
    ));
}

/// The archive kind of an address ending with `t` (at least seven characters
/// long) is that of `t` itself.
proof fn lemma_kind_of_concat(s: Seq<char>, t: Seq<char>)
    requires
        t.len() >= 7,
    ensures
        archive_kind_spec(s + t) == archive_kind_spec(t),
{
    reveal_strlit(".zip");
    reveal_strlit(".tar.gz");
    reveal_strlit(".gz");
    lemma_suffix_of_concat(".zip"@, s, t);
    lemma_suffix_of_concat(".tar.gz"@, s, t);
    lemma_suffix_of_concat(".gz"@, s, t);
}

proof fn lemma_windows_tail_kind()
    ensures
        "-pc-windows-msvc.zip"@.len() >= 7,
        archive_kind_spec("-pc-windows-msvc.zip"@) == ArchiveKind::Zip,
{
    reveal_strlit(".zip");
    reveal_strlit("-pc-windows-msvc.zip");
    let t = "-pc-windows-msvc.zip"@;
    assert(t.subrange(t.len() - 4, t.len() as int) =~= ".zip"@);
}

proof fn lemma_linux_tail_kind()
    ensures
        "-unknown-linux-musl.tar.gz"@.len() >= 7,
        archive_kind_spec("-unknown-linux-musl.tar.gz"@) == ArchiveKind::TarGz,
{
    reveal_strlit(".zip");
    reveal_strlit(".tar.gz");
    reveal_strlit("-unknown-linux-musl.tar.gz");
    let t = "-unknown-linux-musl.tar.gz"@;
    assert(t.subrange(t.len() - 4, t.len() as int)[0] != ".zip"@[0]);
    assert(t.subrange(t.len() - 7, t.len() as int) =~= ".tar.gz"@);
}

proof fn lemma_mac_tail_kind()
    ensures
        "-apple-darwin.tar.gz"@.len() >= 7,
        archive_kind_spec("-apple-darwin.tar.gz"@) == ArchiveKind::TarGz,
{
    reveal_strlit(".zip");
    reveal_strlit(".tar.gz");
    reveal_strlit("-apple-darwin.tar.gz");
    let t = "-apple-darwin.tar.gz"@;
    assert(t.subrange(t.len() - 4, t.len() as int)[0] != ".zip"@[0]);
    assert(t.subrange(t.len() - 7, t.len() as int) =~= ".tar.gz"@);
}

proof fn lemma_javy_tail_kind()
    ensures
        (JAVY_VERSION@ + ".gz"@).len() >= 7,
        archive_kind_spec(JAVY_VERSION@ + ".gz"@) == ArchiveKind::Gz,
{
    reveal_strlit(".zip");
    reveal_strlit(".tar.gz");
    reveal_strlit(".gz");
    reveal_strlit("6.0.0");
    let t = JAVY_VERSION@ + ".gz"@;
    assert(t.subrange(t.len() - 4, t.len() as int)[0] != ".zip"@[0]);
    assert(t.subrange(t.len() - 7, t.len() as int)[1] != ".tar.gz"@[1]);
    assert(t.subrange(t.len() - 3, t.len() as int) =~= ".gz"@);
}

proof fn lemma_zip_tail_kind()
    ensures
        archive_kind_spec(".zip"@) == ArchiveKind::Zip,
{
    reveal_strlit(".zip");
    assert(".zip"@.subrange(0, 4) =~= ".zip"@);
}

/// Every download address names an archive that the installer unpacks:
/// Gleam comes as a zip on Windows and a tarball elsewhere, Bun as a zip,
/// and Javy as a gzipped executable.
pub proof fn law_download_archive_kinds(os: TargetOs, arch: TargetArch)
    ensures
        gleam_url(os, arch) matches Ok(u) ==> archive_kind_spec(u) == (if os == TargetOs::Windows {
            ArchiveKind::Zip
        } else {
            ArchiveKind::TarGz
        }),
        bun_url(os, arch) matches Ok(u) ==> archive_kind_spec(u) == ArchiveKind::Zip,
        javy_url(os, arch) matches Ok(u) ==> archive_kind_spec(u) == ArchiveKind::Gz,
{
    if let Ok(u) = gleam_url(os, arch) {
        let a = gleam_arch(arch)->0;
        let v = GLEAM_VERSION@;
        let head = "https://github.com/gleam-lang/gleam/releases/download/v"@ + v + "/gleam-v"@ + v
            + "-"@ + a;
        if os == TargetOs::Windows {
            lemma_windows_tail_kind();
            lemma_kind_of_concat(head, "-pc-windows-msvc.zip"@);
        } else if os == TargetOs::Linux {
            lemma_linux_tail_kind();
            lemma_kind_of_concat(head, "-unknown-linux-musl.tar.gz"@);
        } else {
            lemma_mac_tail_kind();
            lemma_kind_of_concat(head, "-apple-darwin.tar.gz"@);
        }
    }
    if let Ok(u) = bun_url(os, arch) {
        let a = bun_arch(arch)->0;
        let os_name = match os {
            TargetOs::Windows => "windows"@,
            TargetOs::Linux => "linux"@,
            _ => "darwin"@,
        };
        let head = "https://github.com/oven-sh/bun/releases/download/bun-v"@ + BUN_VERSION@
            + "/bun-"@ + os_name + "-"@ + a;
        lemma_zip_tail_kind();
        reveal_strlit(".zip");
        lemma_suffix_of_concat(".zip"@, head, ".zip"@);
        assert(u == head + ".zip"@);
    }
    if let Ok(u) = javy_url(os, arch) {
        let a = if arch == TargetArch::Aarch64 {
            "arm"@
        } else {
            "x86_64"@
        };
        let os_name = match os {
            TargetOs::Windows => "windows"@,
            TargetOs::Linux => "linux"@,
            _ => "macos"@,
        };
        let head = "https://github.com/bytecodealliance/javy/releases/download/v"@ + JAVY_VERSION@
            + "/javy-"@ + a + "-"@ + os_name + "-v"@;
        lemma_javy_tail_kind();
        lemma_kind_of_concat(head, JAVY_VERSION@ + ".gz"@);
        assert(u =~= head + (JAVY_VERSION@ + ".gz"@));
    }
}

/// The executable's file name: `.exe` is added on Windows.
pub fn exe_name(tool_name: &str, os: TargetOs) -> (r: String)
    ensures
        r@ == exe_name_spec(tool_name@, os),
{
    let mut s = owned(tool_name);
    if os == TargetOs::Windows {
        push_str(&mut s, ".exe");
    }
    s
}

/// Unpacks a downloaded `.gz` tool: the executable's file name and its bytes.
pub fn extract_gz_payload(archive: &[u8], tool_name: &str, os: TargetOs) -> (r: Result<
    (String, Vec<u8>),
    ExtractError,
>)
    ensures
        match (r, gunzip_result(archive@)) {
            (Ok((name, bytes)), Some(b)) => name@ == exe_name_spec(tool_name@, os) && bytes@ == b,
            (Err(e), None) => e == ExtractError::InvalidGzip,
            _ => false,
        },
{
    match gunzip(archive) {
        Some(bytes) => Ok((exe_name(tool_name, os), bytes)),
        None => Err(ExtractError::InvalidGzip),
    }
}

impl Tool {
    /// The tool's name as the download and install steps use it.
    pub fn name(&self) -> (r: String)
        ensures
            r@ == match *self {
                Tool::Gleam => "gleam"@,
                Tool::Bun => "bun"@,
                Tool::Javy => "javy"@,
            },
    {
        match self {
            Tool::Gleam => owned("gleam"),
            Tool::Bun => owned("bun"),
            Tool::Javy => owned("javy"),
        }
    }

    /// The tool's name as progress messages show it.
    pub fn display_name(&self) -> (r: String)
        ensures
            r@ == match *self {
                Tool::Gleam => "Gleam"@,
                Tool::Bun => "Bun"@,
                Tool::Javy => "Javy"@,
            },
    {
        match self {
            Tool::Gleam => owned("Gleam"),
            Tool::Bun => owned("Bun"),
            Tool::Javy => owned("Javy"),
        }
    }

    /// The release of the tool that is installed.
    pub fn version(&self) -> (r: &'static str)
        ensures
            r@ == match *self {
                Tool::Gleam => GLEAM_VERSION@,
                Tool::Bun => BUN_VERSION@,
                Tool::Javy => JAVY_VERSION@,
            },
    {
        match self {
            Tool::Gleam => GLEAM_VERSION,
            Tool::Bun => BUN_VERSION,
            Tool::Javy => JAVY_VERSION,
        }
    }

    /// Where the tool's release is downloaded from on a platform.
    pub fn download_url(&self, os: TargetOs, arch: TargetArch) -> (r: Result<String, DownloadUrlError>)
        ensures
            match (
                r,
                match *self {
                    Tool::Gleam => gleam_url(os, arch),
                    Tool::Bun => bun_url(os, arch),
                    Tool::Javy => javy_url(os, arch),
                },
            ) {
                (Ok(a), Ok(b)) => a@ == b,
                (Err(a), Err(b)) => a == b,
                _ => false,
            },
    {
        match self {
            Tool::Gleam => GleamScriptCompiler::get_gleam_download_url(os, arch),
            Tool::Bun => GleamScriptCompiler::get_bun_download_url(os, arch),
            Tool::Javy => GleamScriptCompiler::get_javy_download_url(os, arch),
        }
    }
}

/// One tool's turn in the installation.
#[derive(Clone, Copy, PartialEq, Eq, Structural, Debug)]
pub struct InstallStep {
    pub tool: Tool,
    /// Whether the tool has to be downloaded (it is not on the `PATH`).
    pub download: bool,
    /// How many tools were handled before this one.
    pub handled_before: usize,
    /// How many tools have to be downloaded in all.
    pub total_to_install: usize,
}

/// What making sure of the toolchain comes to.
#[derive(PartialEq, Eq, Structural, Debug)]
pub enum InstallPlan {
    /// Every tool is on the `PATH`; nothing to do.
    AllPresent,
    /// Something is missing and the operating system has no releases.
    UnsupportedOs,
    /// Gleam, Bun and Javy in turn.
    Steps(InstallStep, InstallStep, InstallStep),
}

/// The installation plan for the tools found on the `PATH`.
pub open spec fn install_plan_spec(gleam: bool, bun: bool, javy: bool, os: TargetOs) -> InstallPlan {
    if gleam && bun && javy {
        InstallPlan::AllPresent
    } else if os == TargetOs::Other {
        InstallPlan::UnsupportedOs
    } else {
        let total = (if gleam { 0usize } else { 1usize }) + (if bun { 0usize } else { 1usize })
            + (if javy { 0usize } else { 1usize });
        InstallPlan::Steps(
            InstallStep { tool: Tool::Gleam, download: !gleam, handled_before: 0, total_to_install: total as usize },
            InstallStep { tool: Tool::Bun, download: !bun, handled_before: 1, total_to_install: total as usize },
            InstallStep { tool: Tool::Javy, download: !javy, handled_before: 2, total_to_install: total as usize },
        )
    }
}

/// Decides what `ensure_dependencies` does, given which tools the `PATH` has.
pub fn plan_installation(gleam: bool, bun: bool, javy: bool, os: TargetOs) -> (r: InstallPlan)
    ensures
        r == install_plan_spec(gleam, bun, javy, os),
{
    if gleam && bun && javy {
        return InstallPlan::AllPresent;
    }
    if os == TargetOs::Other {
        return InstallPlan::UnsupportedOs;
    }
    let mut total: usize = 0;
    if !gleam {
        total = total + 1;
    }
    if !bun {
        total = total + 1;
    }
    if !javy {
        total = total + 1;
    }
    InstallPlan::Steps(
        InstallStep { tool: Tool::Gleam, download: !gleam, handled_before: 0, total_to_install: total },
        InstallStep { tool: Tool::Bun, download: !bun, handled_before: 1, total_to_install: total },
        InstallStep { tool: Tool::Javy, download: !javy, handled_before: 2, total_to_install: total },
    )
}

/// Nothing is installed when every tool is on the `PATH`; otherwise, on a
/// supported system, the three tools are handled in the order Gleam, Bun,
/// Javy, exactly the missing ones are downloaded, and every step knows how
/// many downloads there are (at least one).
pub proof fn law_install_plan(gleam: bool, bun: bool, javy: bool, os: TargetOs)
    ensures
        (install_plan_spec(gleam, bun, javy, os) == InstallPlan::AllPresent) == (gleam && bun
            && javy),
        (install_plan_spec(gleam, bun, javy, os) == InstallPlan::UnsupportedOs) == (!(gleam && bun
            && javy) && os == TargetOs::Other),
        install_plan_spec(gleam, bun, javy, os) matches InstallPlan::Steps(a, b, c) ==> {
            &&& a.tool == Tool::Gleam && b.tool == Tool::Bun && c.tool == Tool::Javy
            &&& a.download == !gleam && b.download == !bun && c.download == !javy
            &&& a.handled_before == 0 && b.handled_before == 1 && c.handled_before == 2
            &&& a.total_to_install == b.total_to_install && b.total_to_install
                == c.total_to_install
            &&& a.total_to_install >= 1
            &&& a.total_to_install == (if gleam { 0int } else { 1int }) + (if bun { 0int } else { 1int
            }) + (if javy { 0int } else { 1int })
        },
{
}

/// A Windows executable gets the `.exe` ending; elsewhere the tool's name is
/// the file name.
pub proof fn law_exe_name(tool: Seq<char>, os: TargetOs)
    ensures
        os == TargetOs::Windows ==> exe_name_spec(tool, os).len() == tool.len() + 4
            && exe_name_spec(tool, os).subrange(0, tool.len() as int) == tool,
        os != TargetOs::Windows ==> exe_name_spec(tool, os) == tool,
{
    reveal_strlit(".exe");
    assert(os == TargetOs::Windows ==> exe_name_spec(tool, os).subrange(0, tool.len() as int) =~= tool);
}

/// An address ending with `.zip` is unpacked as a zip, one ending with
/// `.tar.gz` as a tarball, one ending with `.gz` but not `.tar.gz` as a
/// gzipped file; any other is not unpacked.
pub proof fn law_archive_kinds(s: Seq<char>)
    ensures
        archive_kind_spec(s + ".zip"@) == ArchiveKind::Zip,
        archive_kind_spec(s + ".tar.gz"@) == ArchiveKind::TarGz,
        !".tar.gz"@.is_suffix_of(s + ".gz"@) ==> archive_kind_spec(s + ".gz"@) == ArchiveKind::Gz,
        !".zip"@.is_suffix_of(s) && !".gz"@.is_suffix_of(s) ==> archive_kind_spec(s)
            == ArchiveKind::Plain,
{
    reveal_strlit(".zip");
    reveal_strlit(".tar.gz");
    reveal_strlit(".gz");
    lemma_suffix_of_concat(".zip"@, s, ".zip"@);
    assert(".zip"@.subrange(0, 4) =~= ".zip"@);
    lemma_suffix_of_concat(".zip"@, s, ".tar.gz"@);
    lemma_suffix_of_concat(".tar.gz"@, s, ".tar.gz"@);
    assert(".tar.gz"@.subrange(3, 7)[0] != ".zip"@[0]);
    assert(".tar.gz"@.subrange(0, 7) =~= ".tar.gz"@);
    lemma_suffix_of_concat(".gz"@, s, ".gz"@);
    assert(".gz"@.subrange(0, 3) =~= ".gz"@);
    if !".tar.gz"@.is_suffix_of(s + ".gz"@) {
        let t = s + ".gz"@;
        if ".zip"@.is_suffix_of(t) {
            assert(t[t.len() - 1] == 'z');
            assert(".zip"@[3] == 'p');
            assert(t.subrange(t.len() - 4, t.len() as int)[3] == t[t.len() - 1]);
        }
    }
    if ".tar.gz"@.is_suffix_of(s) {
        let t = s;
        assert(t.subrange(t.len() - 3, t.len() as int) =~= t.subrange(t.len() - 7, t.len() as int).subrange(4, 7));
        assert(".tar.gz"@.subrange(4, 7) =~= ".gz"@);
    }
}

} // verus!
