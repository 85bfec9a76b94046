//! The probes and formatters: each one turns raw host facts into a single
//! styled display line, with its output pinned down exactly by its contract.

use vstd::prelude::*;

use crate::extract::{extract_assignment, extract_basename, spec_basename, spec_extract_assign};
use crate::style::Style;
use crate::text::{
    append_dashes, append_decimal, append_spaces, spec_decimal, spec_repeat, spec_strip,
    strip_whitespace,
};

verus! {

broadcast use vstd::string::group_string_axioms;

/// The label column width every line pads its label to.
pub const LABEL_WIDTH: usize = 7;

/// `key`, right-padded with spaces to the label column width.
pub open spec fn spec_pad_label(key: Seq<char>) -> Seq<char> {
    if key.len() >= LABEL_WIDTH {
        key
    } else {
        key + spec_repeat(' ', (LABEL_WIDTH - key.len()) as nat)
    }
}

/// The fixed visual template of every display line: a coloured bullet glyph,
/// the bold padded label, then the value in the second accent colour.
pub open spec fn spec_format_data(key: Seq<char>, value: Seq<char>, st: Style) -> Seq<char> {
    st.primary@ + "▪"@ + st.bold@ + seq![' '] + spec_pad_label(key) + st.reset@ + seq![' ']
        + st.secondary@ + value
}

/// Renders one `(label, value)` fact as a styled line. Pure: the output is a
/// function of the three arguments alone, and both label and value appear in
/// it verbatim.
pub fn format_data(key: &str, value: &str, style: &Style) -> (r: String)
    ensures
        r@ == spec_format_data(key@, value@, *style),
{
    let mut r = style.primary.clone();
    r.append("▪");
    r.append(style.bold.as_str());
    r.append(" ");
    r.append(key);
    let klen = key.unicode_len();
    if klen < LABEL_WIDTH {
        append_spaces(&mut r, LABEL_WIDTH - klen);
    }
    r.append(style.reset.as_str());
    r.append(" ");
    r.append(style.secondary.as_str());
    r.append(value);
    proof {
        reveal_strlit(" ");
        assert(" "@ =~= seq![' ']);
        assert(r@ =~= spec_format_data(key@, value@, *style));
    }
    r
}

/// What a probe found when it looked for a text source: the source was
/// missing, it was there but could not be read, or its content.
pub enum FileProbe {
    Absent,
    Unreadable,
    Content(String),
}

/// What the host-name lookup produced: a decoded name, a failed system call,
/// or a name that was not valid text.
pub enum HostLookup {
    Name(String),
    LookupFailed,
    DecodeFailed,
}

/// The three fields of the kernel's system identification that the kernel
/// probe reads.
pub struct UnameInfo {
    pub sysname: String,
    pub release: String,
    pub machine: String,
}

/// Memory totals in bytes, as the system reports them.
pub struct MemoryFacts {
    pub total: u64,
    pub free: u64,
}

/// Battery facts already reduced to integers: the charge percentage
/// (truncated toward zero) and the remaining time in seconds.
pub struct BatteryFacts {
    pub percent: u64,
    pub remaining_seconds: u64,
}

/// The user name a probe works with: the empty string when the variable was
/// absent.
pub open spec fn opt_view(u: Option<String>) -> Seq<char> {
    match u {
        Some(s) => s@,
        None => Seq::<char>::empty(),
    }
}

/// The character-level view of a probe result.
pub open spec fn result_view(r: Result<String, String>) -> Result<Seq<char>, Seq<char>> {
    match r {
        Ok(s) => Ok(s@),
        Err(e) => Err(e@),
    }
}

/// The character-level view of the identity probe's result.
pub open spec fn pair_view(r: Result<(String, String), String>) -> Result<
    (Seq<char>, Seq<char>),
    Seq<char>,
> {
    match r {
        Ok(p) => Ok((p.0@, p.1@)),
        Err(e) => Err(e@),
    }
}

/// Relies on nix::unistd::gethostname: the kernel-reported host name, decoded
/// as text. The outcome depends on the machine, so nothing more is claimed
/// of it.
#[verifier::external_body]
fn hostname_lookup() -> (r: HostLookup) {
    match nix::unistd::gethostname() {
        Ok(name) => match name.into_string() {
            Ok(s) => HostLookup::Name(s),
            Err(_) => HostLookup::DecodeFailed,
        },
        Err(_) => HostLookup::LookupFailed,
    }
}

/// Relies on nix::sys::utsname::uname: the system name, release and machine
/// architecture. The outcome depends on the machine, so nothing more is
/// claimed of it.
#[verifier::external_body]
fn uname_lookup() -> (r: Option<UnameInfo>) {
    match nix::sys::utsname::uname() {
        Ok(u) => match (u.sysname().to_str(), u.release().to_str(), u.machine().to_str()) {
            (Some(s), Some(r), Some(m)) => Some(
                UnameInfo { sysname: s.to_owned(), release: r.to_owned(), machine: m.to_owned() },
            ),
            _ => None,
        },
        Err(_) => None,
    }
}

/// The human-readable rendering of a byte count, as the outside byte-size
/// library produces it. A function of the count alone.
pub uninterp spec fn human_bytes_of(n: nat) -> Seq<char>;

/// Relies on systemstat::ByteSize's display implementation (the bytesize
/// crate): a human-readable unit rendering determined by the byte count
/// alone.
#[verifier::external_body]
fn human_bytes(n: u64) -> (r: String)
    ensures
        r@ == human_bytes_of(n as nat),
{
    format!("{}", systemstat::ByteSize::b(n))
}

/// The identity line before whitespace stripping: `user@host` wrapped in
/// accent and bold tokens.
pub open spec fn spec_identity_raw(user: Seq<char>, host: Seq<char>, st: Style) -> Seq<char> {
    st.primary@ + st.bold@ + user + st.reset@ + st.bold@ + st.secondary@ + seq!['@'] + st.reset@
        + st.bold@ + st.primary@ + host + st.reset@
}

/// The identity line: the raw form with every space and newline stripped, so
/// that neither the tokens nor the names carry stray whitespace.
pub open spec fn spec_identity_line(user: Seq<char>, host: Seq<char>, st: Style) -> Seq<char> {
    spec_strip(spec_identity_raw(user, host, st))
}

/// The separator line: one dash per character of `user`, one for the `@`,
/// and one per character of `host`, wrapped in the accent and reset tokens.
pub open spec fn spec_separator(user: Seq<char>, host: Seq<char>, st: Style) -> Seq<char> {
    st.secondary@ + spec_repeat('-', user.len() + 1 + host.len()) + st.reset@
}

/// What the identity probe returns for each host-name lookup outcome.
pub open spec fn spec_user_host(user: Seq<char>, host: HostLookup, st: Style) -> Result<
    (Seq<char>, Seq<char>),
    Seq<char>,
> {
    match host {
        HostLookup::Name(h) => Ok(
            (spec_identity_line(user, h@, st), spec_separator(user, h@, st)),
        ),
        HostLookup::LookupFailed => Err("Failed getting hostname"@),
        HostLookup::DecodeFailed => Err("Failed decoding hostname"@),
    }
}

/// Builds the identity pair from an already-fetched user name and host-name
/// lookup outcome: the styled `user@host` line and the dash separator that
/// underlines it. An absent user name is tolerated as empty; a failed or
/// undecodable host name is an error.
pub fn make_user_host_name(username: Option<String>, host: HostLookup, style: &Style) -> (r:
    Result<(String, String), String>)
    ensures
        pair_view(r) == spec_user_host(opt_view(username), host, *style),
{
    match host {
        HostLookup::LookupFailed => Err("Failed getting hostname".to_owned()),
        HostLookup::DecodeFailed => Err("Failed decoding hostname".to_owned()),
        HostLookup::Name(h) => {
            let user = match username {
                Some(u) => u,
                None => String::new(),
            };
            let mut raw = style.primary.clone();
            raw.append(style.bold.as_str());
            raw.append(user.as_str());
            raw.append(style.reset.as_str());
            raw.append(style.bold.as_str());
            raw.append(style.secondary.as_str());
            raw.append("@");
            raw.append(style.reset.as_str());
            raw.append(style.bold.as_str());
            raw.append(style.primary.as_str());
            raw.append(h.as_str());
            raw.append(style.reset.as_str());
            proof {
                reveal_strlit("@");
                assert("@"@ =~= seq!['@']);
                assert(raw@ =~= spec_identity_raw(opt_view(username), h@, *style));
            }
            let identity = strip_whitespace(raw.as_str());
            let mut sep = style.secondary.clone();
            append_dashes(&mut sep, user.unicode_len());
            append_dashes(&mut sep, 1);
            append_dashes(&mut sep, h.unicode_len());
            sep.append(style.reset.as_str());
            proof {
                assert(sep@ =~= spec_separator(opt_view(username), h@, *style));
            }
            Ok((identity, sep))
        },
    }
}

/// Probes the identity pair: fetches the host name from the kernel and
/// combines it with the given user name. The user name's absence is
/// tolerated; a host name that cannot be fetched or decoded is an error, and
/// each failure keeps its own message.
pub fn get_user_host_name(username: Option<String>, style: &Style) -> (r: Result<
    (String, String),
    String,
>)
    ensures
        r matches Ok(p) ==> exists|h: Seq<char>|
            p.0@ == spec_identity_line(opt_view(username), h, *style) && p.1@
                == #[trigger] spec_separator(opt_view(username), h, *style),
        r matches Err(e) ==> e@ == "Failed getting hostname"@ || e@ == "Failed decoding hostname"@,
{
    let host = hostname_lookup();
    let ghost gh = host;
    let ghost uv = opt_view(username);
    let r = make_user_host_name(username, host, style);
    proof {
        match gh {
            HostLookup::Name(h) => {
                assert(r matches Ok(p) ==> p.0@ == spec_identity_line(uv, h@, *style) && p.1@
                    == spec_separator(uv, h@, *style));
            },
            HostLookup::LookupFailed => {},
            HostLookup::DecodeFailed => {},
        }
    }
    r
}

/// What the distribution probe returns once it has fallen through to the
/// OS-release source.
pub open spec fn spec_distro_os(os: FileProbe, st: Style) -> Result<Seq<char>, Seq<char>> {
    match os {
        FileProbe::Absent => Err("Error"@),
        FileProbe::Unreadable => Err("error"@),
        FileProbe::Content(t) => match spec_extract_assign(t@, "NAME="@) {
            Some(v) => Ok(spec_format_data("os"@, v, st)),
            None => Err("error"@),
        },
    }
}

/// What the distribution probe returns: the LSB-release description when
/// that source is present and matches, else the OS-release name, else an
/// error. A present but unreadable LSB source is an error outright.
pub open spec fn spec_distro(lsb: FileProbe, os: FileProbe, st: Style) -> Result<
    Seq<char>,
    Seq<char>,
> {
    match lsb {
        FileProbe::Unreadable => Err("error"@),
        FileProbe::Content(s) => match spec_extract_assign(s@, "DISTRIB_DESCRIPTION="@) {
            Some(v) => Ok(spec_format_data("os"@, v, st)),
            None => spec_distro_os(os, st),
        },
        FileProbe::Absent => spec_distro_os(os, st),
    }
}

fn distro_from_os(os: FileProbe, style: &Style) -> (r: Result<String, String>)
    ensures
        result_view(r) == spec_distro_os(os, *style),
{
    match os {
        FileProbe::Absent => Err("Error".to_owned()),
        FileProbe::Unreadable => Err("error".to_owned()),
        FileProbe::Content(t) => match extract_assignment(t.as_str(), "NAME=") {
            Some(v) => Ok(format_data("os", v.as_str(), style)),
            None => Err("error".to_owned()),
        },
    }
}

/// Probes the distribution name, with ordered fallback: first the
/// LSB-release source's `DISTRIB_DESCRIPTION` assignment, then the
/// OS-release source's `NAME` assignment; an error when neither yields a
/// value. Quotes around the value are stripped by the pattern itself.
pub fn get_distro_name(lsb: FileProbe, os: FileProbe, style: &Style) -> (r: Result<String, String>)
    ensures
        result_view(r) == spec_distro(lsb, os, *style),
{
    match lsb {
        FileProbe::Unreadable => Err("error".to_owned()),
        FileProbe::Content(s) => match extract_assignment(s.as_str(), "DISTRIB_DESCRIPTION=") {
            Some(v) => Ok(format_data("os", v.as_str(), style)),
            None => distro_from_os(os, style),
        },
        FileProbe::Absent => distro_from_os(os, style),
    }
}

/// The kernel line's value: `sysname/machine` when the verbose flag is set,
/// the bare release otherwise.
pub open spec fn spec_kernel_value(
    show_kern_name: bool,
    sysname: Seq<char>,
    release: Seq<char>,
    machine: Seq<char>,
) -> Seq<char> {
    if show_kern_name {
        sysname + seq!['/'] + machine
    } else {
        release
    }
}

/// Formats the kernel line from already-fetched system identification. The
/// flag selects between the `sysname/machine` form and the release string.
pub fn format_kernel(
    sysname: &str,
    release: &str,
    machine: &str,
    show_kern_name: bool,
    style: &Style,
) -> (r: String)
    ensures
        r@ == spec_format_data(
            "kernel"@,
            spec_kernel_value(show_kern_name, sysname@, release@, machine@),
            *style,
        ),
{
    let value: String = if show_kern_name {
        let mut v = sysname.to_owned();
        v.append("/");
        v.append(machine);
        proof {
            reveal_strlit("/");
            assert("/"@ =~= seq!['/']);
            assert(v@ =~= spec_kernel_value(show_kern_name, sysname@, release@, machine@));
        }
        v
    } else {
        release.to_owned()
    };
    format_data("kernel", value.as_str(), style)
}

/// Probes the kernel line: fetches the system identification and formats it
/// according to the verbosity flag. Fails only when the identification
/// cannot be fetched or decoded.
pub fn get_kernel(show_kern_name: bool, style: &Style) -> (r: Result<String, String>)
    ensures
        r matches Ok(line) ==> exists|sys: Seq<char>, rel: Seq<char>, mach: Seq<char>|
            line@ == #[trigger] spec_format_data(
                "kernel"@,
                spec_kernel_value(show_kern_name, sys, rel, mach),
                *style,
            ),
        r matches Err(e) ==> e@ == "Error"@,
{
    match uname_lookup() {
        Some(u) => {
            let line = format_kernel(
                u.sysname.as_str(),
                u.release.as_str(),
                u.machine.as_str(),
                show_kern_name,
                style,
            );
            proof {
                assert(line@ == spec_format_data(
                    "kernel"@,
                    spec_kernel_value(show_kern_name, u.sysname@, u.release@, u.machine@),
                    *style,
                ));
            }
            Ok(line)
        },
        None => Err("Error".to_owned()),
    }
}

/// What the shell probe returns: the trailing path segment of the `SHELL`
/// value, formatted; an error when the variable is absent or its value has
/// no such segment.
pub open spec fn spec_shell(shell: Option<String>, st: Style) -> Result<Seq<char>, Seq<char>> {
    match shell {
        None => Err("Error"@),
        Some(s) => match spec_basename(s@) {
            Some(n) => Ok(spec_format_data("shell"@, n, st)),
            None => Err("Error"@),
        },
    }
}

/// Probes the shell name from an already-read `SHELL` value: the path's
/// trailing segment, formatted. Absence of the variable, or a value with no
/// trailing segment, is an error.
pub fn get_shell(shell: Option<String>, style: &Style) -> (r: Result<String, String>)
    ensures
        result_view(r) == spec_shell(shell, *style),
{
    match shell {
        None => Err("Error".to_owned()),
        Some(s) => match extract_basename(s.as_str()) {
            Some(n) => Ok(format_data("shell", n.as_str(), style)),
            None => Err("Error".to_owned()),
        },
    }
}

/// The uptime value: whole hours, then the leftover whole minutes; seconds
/// are dropped.
pub open spec fn spec_uptime_value(seconds: nat) -> Seq<char> {
    spec_decimal(seconds / 3600) + "h "@ + spec_decimal((seconds % 3600) / 60) + "m"@
}

/// Formats the uptime line from a duration in seconds: hours and leftover
/// minutes, seconds dropped.
pub fn format_uptime(uptime_seconds: u64, style: &Style) -> (r: String)
    ensures
        r@ == spec_format_data("uptime"@, spec_uptime_value(uptime_seconds as nat), *style),
{
    let hours = uptime_seconds / 3600;
    let minutes = (uptime_seconds % 3600) / 60;
    let mut v = String::new();
    append_decimal(&mut v, hours);
    v.append("h ");
    append_decimal(&mut v, minutes);
    v.append("m");
    proof {
        assert(v@ =~= spec_uptime_value(uptime_seconds as nat));
    }
    format_data("uptime", v.as_str(), style)
}

/// The used amount of memory: total minus free, floored at zero.
pub open spec fn spec_mem_used(total: nat, free: nat) -> nat {
    if free <= total {
        (total - free) as nat
    } else {
        0
    }
}

/// The memory value: used over total, both in the outside library's
/// human-readable rendering.
pub open spec fn spec_memory_value(total: nat, free: nat) -> Seq<char> {
    human_bytes_of(spec_mem_used(total, free)) + " / "@ + human_bytes_of(total)
}

/// Formats the memory line: used (total minus free, never negative) over
/// total, in human-readable units.
pub fn format_memory(mem: MemoryFacts, style: &Style) -> (r: String)
    ensures
        r@ == spec_format_data(
            "memory"@,
            spec_memory_value(mem.total as nat, mem.free as nat),
            *style,
        ),
{
    let used: u64 = if mem.free <= mem.total {
        mem.total - mem.free
    } else {
        0
    };
    let mut v = human_bytes(used);
    v.append(" / ");
    let total = human_bytes(mem.total);
    v.append(total.as_str());
    proof {
        assert(v@ =~= spec_memory_value(mem.total as nat, mem.free as nat));
    }
    format_data("memory", v.as_str(), style)
}

/// The battery value: the charge percentage, then the remaining time as
/// whole hours and a minutes figure. The minutes shown are
/// `remaining_seconds % 60` — the leftover of a minute, not the minute part
/// of the hour remainder.
pub open spec fn spec_battery_value(percent: nat, remaining_seconds: nat) -> Seq<char> {
    spec_decimal(percent) + "%, "@ + spec_decimal(remaining_seconds / 3600) + "h "@ + spec_decimal(
        remaining_seconds % 60,
    ) + "m remaining"@
}

/// Formats the battery line from integer facts: percentage and remaining
/// time.
pub fn format_battery(battery: BatteryFacts, style: &Style) -> (r: String)
    ensures
        r@ == spec_format_data(
            "battery"@,
            spec_battery_value(battery.percent as nat, battery.remaining_seconds as nat),
            *style,
        ),
{
    let hours = battery.remaining_seconds / 3600;
    let minutes = battery.remaining_seconds % 60;
    let mut v = String::new();
    append_decimal(&mut v, battery.percent);
    v.append("%, ");
    append_decimal(&mut v, hours);
    v.append("h ");
    append_decimal(&mut v, minutes);
    v.append("m remaining");
    proof {
        assert(v@ =~= spec_battery_value(
            battery.percent as nat,
            battery.remaining_seconds as nat,
        ));
    }
    format_data("battery", v.as_str(), style)
}

} // verus!
