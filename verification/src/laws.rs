//! The library-wide laws, each proved once and for all inputs: the formatter
//! embeds both of its arguments verbatim, the separator underlines the whole
//! identity, the kernel flag really selects between two distinct lines, and
//! every probe is idempotent.

use vstd::prelude::*;

use crate::fields::{
    pair_view, result_view, spec_distro, spec_format_data, spec_kernel_value, spec_pad_label,
    spec_separator, spec_shell, spec_user_host, FileProbe, HostLookup,
};
use crate::style::Style;
use crate::text::spec_repeat;

verus! {

/// Does `n` occur contiguously inside `h`?
pub open spec fn contains_seq(h: Seq<char>, n: Seq<char>) -> bool {
    exists|i: int|
        0 <= i && i + n.len() <= h.len() && #[trigger] h.subrange(i, i + n.len()) == n
}

/// Every formatted line carries the value verbatim and the label verbatim,
/// whatever the label, value and style tokens are.
pub proof fn lemma_format_data_contains(key: Seq<char>, value: Seq<char>, st: Style)
    ensures
        contains_seq(spec_format_data(key, value, st), value),
        contains_seq(spec_format_data(key, value, st), key),
{
    let line = spec_format_data(key, value, st);
    let vstart = line.len() - value.len();
    assert(line.subrange(vstart as int, vstart + value.len()) =~= value);
    let kstart = (st.primary@ + "▪"@ + st.bold@ + seq![' ']).len();
    assert(line.subrange(kstart as int, (kstart + key.len()) as int) =~= key);
}

/// The separator underlines the identity: past its leading accent token it
/// holds exactly `len(user) + 1 + len(host)` dashes — one per character of
/// the user name, one for the `@`, one per character of the host name.
pub proof fn lemma_separator_underlines(user: Seq<char>, host: Seq<char>, st: Style)
    ensures
        spec_separator(user, host, st).len() == st.secondary@.len() + (user.len() + 1
            + host.len()) + st.reset@.len(),
        spec_separator(user, host, st).subrange(
            st.secondary@.len() as int,
            (st.secondary@.len() + user.len() + 1 + host.len()) as int,
        ) == spec_repeat('-', user.len() + 1 + host.len()),
{
    assert(spec_separator(user, host, st).subrange(
        st.secondary@.len() as int,
        (st.secondary@.len() + user.len() + 1 + host.len()) as int,
    ) =~= spec_repeat('-', user.len() + 1 + host.len()));
}

proof fn lemma_append_cancel(a: Seq<char>, x: Seq<char>, y: Seq<char>)
    requires
        a + x == a + y,
    ensures
        x == y,
{
    assert((a + x).len() == a.len() + x.len());
    assert((a + y).len() == a.len() + y.len());
    assert(x.len() == y.len());
    assert forall|k: int| 0 <= k < x.len() implies x[k] == y[k] by {
        assert((a + x)[a.len() + k] == x[k]);
        assert((a + y)[a.len() + k] == y[k]);
    }
    assert(x =~= y);
}

/// On the same system identification, the two verbosity settings of the
/// kernel probe produce two distinct lines, as long as the release string
/// does not itself spell `sysname/machine`.
pub proof fn lemma_kernel_flag_distinguishes(
    sysname: Seq<char>,
    release: Seq<char>,
    machine: Seq<char>,
    st: Style,
)
    requires
        sysname + seq!['/'] + machine != release,
    ensures
        spec_format_data("kernel"@, spec_kernel_value(true, sysname, release, machine), st)
            != spec_format_data("kernel"@, spec_kernel_value(false, sysname, release, machine), st),
{
    let prefix = st.primary@ + "▪"@ + st.bold@ + seq![' '] + spec_pad_label("kernel"@) + st.reset@
        + seq![' '] + st.secondary@;
    let verbose = spec_kernel_value(true, sysname, release, machine);
    let plain = spec_kernel_value(false, sysname, release, machine);
    if spec_format_data("kernel"@, verbose, st) == spec_format_data("kernel"@, plain, st) {
        assert(prefix + verbose == prefix + plain);
        lemma_append_cancel(prefix, verbose, plain);
        assert(false);
    }
}

/// Idempotence of the distribution probe: its contract equates the result
/// with a function of the probe inputs alone, so two calls on unchanged
/// sources return identical bytes.
pub proof fn lemma_distro_idempotent(
    lsb: FileProbe,
    os: FileProbe,
    st: Style,
    r1: Result<String, String>,
    r2: Result<String, String>,
)
    requires
        result_view(r1) == spec_distro(lsb, os, st),
        result_view(r2) == spec_distro(lsb, os, st),
    ensures
        result_view(r1) == result_view(r2),
{
}

/// Idempotence of the shell probe: same input value, byte-identical output.
pub proof fn lemma_shell_idempotent(
    shell1: Option<String>,
    shell2: Option<String>,
    st: Style,
    r1: Result<String, String>,
    r2: Result<String, String>,
)
    requires
        opt_eq(shell1, shell2),
        result_view(r1) == spec_shell(shell1, st),
        result_view(r2) == spec_shell(shell2, st),
    ensures
        result_view(r1) == result_view(r2),
{
}

/// Are two optionally-present values the same text?
pub open spec fn opt_eq(a: Option<String>, b: Option<String>) -> bool {
    match (a, b) {
        (Some(x), Some(y)) => x@ == y@,
        (None, None) => true,
        _ => false,
    }
}

/// Idempotence of the identity pair: the same user name and host-name
/// lookup outcome always yield the same line and separator.
pub proof fn lemma_identity_idempotent(
    user: Seq<char>,
    host: HostLookup,
    st: Style,
    r1: Result<(String, String), String>,
    r2: Result<(String, String), String>,
)
    requires
        pair_view(r1) == spec_user_host(user, host, st),
        pair_view(r2) == spec_user_host(user, host, st),
    ensures
        pair_view(r1) == pair_view(r2),
{
}

} // verus!
