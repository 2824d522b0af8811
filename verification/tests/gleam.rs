use eucalyptus::gleam::{
    archive_kind, exe_name, extract_gz_payload, plan_installation, url_error_message, ArchiveKind,
    DownloadUrlError, ExtractError, GleamScriptCompiler, InstallPlan, TargetArch, TargetOs, Tool,
};
use std::io::Write;

#[test]
fn gleam_urls() {
    assert_eq!(
        GleamScriptCompiler::get_gleam_download_url(TargetOs::Linux, TargetArch::X86_64).unwrap(),
        "https://github.com/gleam-lang/gleam/releases/download/v1.12.0/gleam-v1.12.0-x86_64-unknown-linux-musl.tar.gz"
    );
    assert_eq!(
        GleamScriptCompiler::get_gleam_download_url(TargetOs::Windows, TargetArch::Aarch64).unwrap(),
        "https://github.com/gleam-lang/gleam/releases/download/v1.12.0/gleam-v1.12.0-aarch64-pc-windows-msvc.zip"
    );
    assert_eq!(
        GleamScriptCompiler::get_gleam_download_url(TargetOs::MacOs, TargetArch::Aarch64).unwrap(),
        "https://github.com/gleam-lang/gleam/releases/download/v1.12.0/gleam-v1.12.0-aarch64-apple-darwin.tar.gz"
    );
    assert_eq!(
        GleamScriptCompiler::get_gleam_download_url(TargetOs::Linux, TargetArch::Other),
        Err(DownloadUrlError::UnsupportedArchitecture)
    );
}

#[test]
fn bun_urls() {
    assert_eq!(
        GleamScriptCompiler::get_bun_download_url(TargetOs::Linux, TargetArch::X86_64).unwrap(),
        "https://github.com/oven-sh/bun/releases/download/bun-v1.2.22/bun-linux-x64.zip"
    );
    assert_eq!(
        GleamScriptCompiler::get_bun_download_url(TargetOs::MacOs, TargetArch::Aarch64).unwrap(),
        "https://github.com/oven-sh/bun/releases/download/bun-v1.2.22/bun-darwin-aarch64.zip"
    );
    assert_eq!(
        GleamScriptCompiler::get_bun_download_url(TargetOs::Other, TargetArch::X86_64),
        Err(DownloadUrlError::UnsupportedOperatingSystem)
    );
}

#[test]
fn javy_urls() {
    assert_eq!(
        GleamScriptCompiler::get_javy_download_url(TargetOs::Linux, TargetArch::Aarch64).unwrap(),
        "https://github.com/bytecodealliance/javy/releases/download/v6.0.0/javy-arm-linux-v6.0.0.gz"
    );
    assert_eq!(
        GleamScriptCompiler::get_javy_download_url(TargetOs::Windows, TargetArch::X86_64).unwrap(),
        "https://github.com/bytecodealliance/javy/releases/download/v6.0.0/javy-x86_64-windows-v6.0.0.gz"
    );
    assert_eq!(
        GleamScriptCompiler::get_javy_download_url(TargetOs::Windows, TargetArch::Aarch64),
        Err(DownloadUrlError::NoPrebuiltRelease)
    );
    assert_eq!(
        url_error_message(DownloadUrlError::NoPrebuiltRelease),
        "This arch is not available for prebuilt download. Please build this from source"
    );
}

#[test]
fn archive_kinds() {
    assert_eq!(archive_kind("x.zip"), ArchiveKind::Zip);
    assert_eq!(archive_kind("x.tar.gz"), ArchiveKind::TarGz);
    assert_eq!(archive_kind("x.gz"), ArchiveKind::Gz);
    assert_eq!(archive_kind("x"), ArchiveKind::Plain);
}

#[test]
fn compiler_keeps_location() {
    let c = GleamScriptCompiler::new(&"/tmp/proj".to_string());
    assert_eq!(c.project_location(), "/tmp/proj");
}

#[test]
fn exe_names() {
    assert_eq!(exe_name("javy", TargetOs::Windows), "javy.exe");
    assert_eq!(exe_name("javy", TargetOs::Linux), "javy");
    assert_eq!(Tool::Bun.name(), "bun");
    assert_eq!(Tool::Gleam.version(), "1.12.0");
}

#[test]
fn gz_payload_round_trip() {
    let mut e = flate2::write::GzEncoder::new(Vec::new(), flate2::Compression::default());
    e.write_all(b"binary contents").unwrap();
    let gz = e.finish().unwrap();
    let (name, bytes) = extract_gz_payload(&gz, "javy", TargetOs::Windows).unwrap();
    assert_eq!(name, "javy.exe");
    assert_eq!(bytes, b"binary contents".to_vec());
    assert_ne!(bytes, gz);
    assert_eq!(
        extract_gz_payload(b"not gzip", "javy", TargetOs::Linux).unwrap_err(),
        ExtractError::InvalidGzip
    );
}

#[test]
fn install_plans() {
    assert_eq!(plan_installation(true, true, true, TargetOs::Other), InstallPlan::AllPresent);
    assert_eq!(plan_installation(false, true, true, TargetOs::Other), InstallPlan::UnsupportedOs);
    match plan_installation(false, true, false, TargetOs::Linux) {
        InstallPlan::Steps(g, b, j) => {
            assert!(g.download && !b.download && j.download);
            assert_eq!((g.handled_before, b.handled_before, j.handled_before), (0, 1, 2));
            assert_eq!(g.total_to_install, 2);
            assert_eq!(j.tool, Tool::Javy);
        }
        _ => panic!("expected steps"),
    }
}

#[test]
fn every_download_is_an_unpackable_archive() {
    let oses = [TargetOs::Windows, TargetOs::Linux, TargetOs::MacOs];
    let arches = [TargetArch::X86_64, TargetArch::Aarch64];
    for os in oses {
        for arch in arches {
            if let Ok(u) = GleamScriptCompiler::get_gleam_download_url(os, arch) {
                let want = if os == TargetOs::Windows { ArchiveKind::Zip } else { ArchiveKind::TarGz };
                assert_eq!(archive_kind(&u), want);
            }
            if let Ok(u) = GleamScriptCompiler::get_bun_download_url(os, arch) {
                assert_eq!(archive_kind(&u), ArchiveKind::Zip);
            }
            if let Ok(u) = GleamScriptCompiler::get_javy_download_url(os, arch) {
                assert_eq!(archive_kind(&u), ArchiveKind::Gz);
            }
        }
    }
}
