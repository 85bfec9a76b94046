use sysfetch::fields::{
    get_distro_name, get_kernel, get_shell, get_user_host_name, make_user_host_name, FileProbe,
    HostLookup,
};
use sysfetch::style::Style;

fn st() -> Style {
    Style {
        primary: "<P>".to_string(),
        secondary: "<S>".to_string(),
        bold: "<B>".to_string(),
        reset: "<R>".to_string(),
    }
}

#[test]
fn identity_pair_exact() {
    let r = make_user_host_name(
        Some("user".to_string()),
        HostLookup::Name("box".to_string()),
        &st(),
    );
    let (identity, separator) = r.unwrap();
    assert_eq!(identity, "<P><B>user<R><B><S>@<R><B><P>box<R>");
    assert_eq!(separator, "<S>--------<R>");
}

#[test]
fn separator_underlines_identity() {
    let r = make_user_host_name(
        Some("alice".to_string()),
        HostLookup::Name("machine".to_string()),
        &st(),
    );
    let (_, separator) = r.unwrap();
    let dashes = separator.chars().filter(|c| *c == '-').count();
    assert_eq!(dashes, "alice".len() + 1 + "machine".len());
}

#[test]
fn identity_strips_spaces_and_newlines() {
    let r = make_user_host_name(
        Some("a b\nc".to_string()),
        HostLookup::Name("h".to_string()),
        &st(),
    );
    let (identity, _) = r.unwrap();
    assert_eq!(identity, "<P><B>abc<R><B><S>@<R><B><P>h<R>");
}

#[test]
fn username_absence_is_tolerated() {
    let r = make_user_host_name(None, HostLookup::Name("h".to_string()), &st());
    let (identity, separator) = r.unwrap();
    assert_eq!(identity, "<P><B><R><B><S>@<R><B><P>h<R>");
    assert_eq!(separator, "<S>--<R>");
}

#[test]
fn hostname_failures_keep_their_messages() {
    let r = make_user_host_name(Some("u".to_string()), HostLookup::LookupFailed, &st());
    assert_eq!(r.unwrap_err(), "Failed getting hostname");
    let r = make_user_host_name(Some("u".to_string()), HostLookup::DecodeFailed, &st());
    assert_eq!(r.unwrap_err(), "Failed decoding hostname");
}

#[test]
fn distro_from_lsb_release() {
    let lsb = FileProbe::Content("DISTRIB_ID=Ubuntu\nDISTRIB_DESCRIPTION=\"Ubuntu 22.04\"\n".to_string());
    let r = get_distro_name(lsb, FileProbe::Absent, &st());
    let line = r.unwrap();
    assert!(line.contains("Ubuntu 22.04"));
    assert!(line.contains("os"));
}

#[test]
fn distro_falls_back_to_os_release() {
    let os = FileProbe::Content("NAME=\"Arch Linux\"\nID=arch\n".to_string());
    let r = get_distro_name(FileProbe::Absent, os, &st());
    let line = r.unwrap();
    assert!(line.contains("Arch Linux"));
}

#[test]
fn distro_fails_with_neither_source() {
    let r = get_distro_name(FileProbe::Absent, FileProbe::Absent, &st());
    assert!(r.is_err());
}

#[test]
fn distro_unreadable_lsb_is_an_error() {
    let os = FileProbe::Content("NAME=\"Arch Linux\"\n".to_string());
    let r = get_distro_name(FileProbe::Unreadable, os, &st());
    assert_eq!(r.unwrap_err(), "error");
}

#[test]
fn distro_absent_os_message() {
    let r = get_distro_name(FileProbe::Absent, FileProbe::Absent, &st());
    assert_eq!(r.unwrap_err(), "Error");
}

#[test]
fn distro_no_match_message() {
    let os = FileProbe::Content("ID=arch\n".to_string());
    let r = get_distro_name(FileProbe::Absent, os, &st());
    assert_eq!(r.unwrap_err(), "error");
}

#[test]
fn distro_unquoted_value() {
    let lsb = FileProbe::Content("DISTRIB_DESCRIPTION=Gentoo\n".to_string());
    let r = get_distro_name(lsb, FileProbe::Absent, &st());
    assert!(r.unwrap().contains("Gentoo"));
}

#[test]
fn distro_needs_trailing_newline() {
    let os = FileProbe::Content("NAME=\"Arch\"".to_string());
    let r = get_distro_name(FileProbe::Absent, os, &st());
    assert!(r.is_err());
}

#[test]
fn distro_first_match_wins() {
    let os = FileProbe::Content(
        "PRETTY_NAME=\"Debian GNU/Linux 12\"\nNAME=\"Debian\"\n".to_string(),
    );
    let r = get_distro_name(FileProbe::Absent, os, &st());
    assert!(r.unwrap().contains("Debian GNU/Linux 12"));
}

#[test]
fn shell_basename_extracted() {
    let r = get_shell(Some("/usr/bin/zsh".to_string()), &st());
    let line = r.unwrap();
    assert!(line.ends_with("zsh"));
    assert!(line.contains("shell"));
}

#[test]
fn shell_unset_fails() {
    let r = get_shell(None, &st());
    assert_eq!(r.unwrap_err(), "Error");
}

#[test]
fn shell_trailing_slash_fails() {
    let r = get_shell(Some("/usr/bin/".to_string()), &st());
    assert!(r.is_err());
}

#[test]
fn distro_probe_idempotent() {
    let style = st();
    let content = "NAME=\"Arch Linux\"\n";
    let r1 = get_distro_name(FileProbe::Absent, FileProbe::Content(content.to_string()), &style);
    let r2 = get_distro_name(FileProbe::Absent, FileProbe::Content(content.to_string()), &style);
    assert_eq!(r1.unwrap(), r2.unwrap());
}

#[test]
fn kernel_probe_runs_and_is_idempotent() {
    let style = st();
    let r1 = get_kernel(false, &style);
    let r2 = get_kernel(false, &style);
    let line = r1.unwrap();
    assert!(line.contains("kernel"));
    assert_eq!(line, r2.unwrap());
}

#[test]
fn user_host_probe_runs_and_is_idempotent() {
    let style = st();
    let r1 = get_user_host_name(Some("user".to_string()), &style);
    let r2 = get_user_host_name(Some("user".to_string()), &style);
    let (identity, separator) = r1.unwrap();
    assert!(identity.contains('@'));
    assert!(separator.contains('-'));
    let (identity2, separator2) = r2.unwrap();
    assert_eq!(identity, identity2);
    assert_eq!(separator, separator2);
}
