//! What activation prints for the calling shell: assignments of the daemon's
//! endpoints, the block that removes them, and the hook scripts that run
//! activation on each prompt or directory change.
use vstd::prelude::*;
use crate::text::{contains, contains_spec, same_text};

verus! {

/// The syntax family of the calling shell.
#[derive(PartialEq, Eq, Structural, Clone, Copy, Debug)]
pub enum Dialect {
    /// bash and zsh
    Posix,
    /// fish
    Fish,
}

/// The dialect of a shell named `name`: fish for `fish`, POSIX otherwise.
pub open spec fn dialect_of_spec(name: Seq<char>) -> Dialect {
    if name == "fish"@ {
        Dialect::Fish
    } else {
        Dialect::Posix
    }
}

/// The dialect for a shell name such as `bash` or `fish`.
pub fn dialect_of(name: &str) -> (d: Dialect)
    ensures
        d == dialect_of_spec(name@),
{
    if same_text(name, "fish") {
        Dialect::Fish
    } else {
        Dialect::Posix
    }
}

/// The dialect for a login-shell path such as the value of `SHELL`: fish
/// when the path mentions `fish`, POSIX otherwise.
pub fn dialect_of_shell_path(path: &str) -> (d: Dialect)
    ensures
        d == (if contains_spec(path@, "fish"@) {
            Dialect::Fish
        } else {
            Dialect::Posix
        }),
{
    if contains(path, "fish") {
        Dialect::Fish
    } else {
        Dialect::Posix
    }
}

/// The statement that removes variable `name`.
pub open spec fn unset_line(d: Dialect, name: Seq<char>) -> Seq<char> {
    match d {
        Dialect::Posix => "unset "@ + name + "\n"@,
        Dialect::Fish => "set -e "@ + name + " 2>/dev/null\n"@,
    }
}

/// The statement that exports variable `name` with `value`.
pub open spec fn assign_line(d: Dialect, name: Seq<char>, value: Seq<char>) -> Seq<char> {
    match d {
        Dialect::Posix => "export "@ + name + "="@ + value + "\n"@,
        Dialect::Fish => "set -gx "@ + name + " "@ + value + "\n"@,
    }
}

/// The variables that activation manages, in the order they are printed.
pub open spec fn managed_vars() -> Seq<Seq<char>> {
    seq![
        "PLASMA_HTTP_URL"@,
        "PLASMA_GRPC_URL"@,
        "PLASMA_UNIX_SOCKET"@,
        "PLASMA_CONFIG_HASH"@,
        "PLASMA_DAEMON_PID"@,
        "GRADLE_BUILD_CACHE_URL"@,
        "NX_SELF_HOSTED_REMOTE_CACHE_SERVER"@,
        "XCODE_CACHE_SERVER"@,
        "TURBO_API"@,
        "TURBO_TEAM"@,
        "TURBO_TOKEN"@,
    ]
}

/// The statements that remove each of `names`, in order.
pub open spec fn unset_lines(d: Dialect, names: Seq<Seq<char>>) -> Seq<char>
    decreases names.len(),
{
    if names.len() == 0 {
        Seq::empty()
    } else {
        unset_lines(d, names.drop_last()) + unset_line(d, names.last())
    }
}

/// The block that removes every managed variable.
pub open spec fn unset_block_spec(d: Dialect) -> Seq<char> {
    unset_lines(d, managed_vars())
}

/// The value given to the build tools' team and token variables.
pub open spec fn turbo_placeholder() -> Seq<char> {
    "plasma"@
}

/// The statements that export the endpoints of a daemon, in the order of
/// `managed_vars`.
pub open spec fn export_block_spec(
    d: Dialect,
    http: Seq<char>,
    grpc: Seq<char>,
    socket: Seq<char>,
    hash: Seq<char>,
    pid: Seq<char>,
) -> Seq<char> {
    assign_line(d, "PLASMA_HTTP_URL"@, http) + assign_line(d, "PLASMA_GRPC_URL"@, grpc)
        + assign_line(d, "PLASMA_UNIX_SOCKET"@, socket) + assign_line(
        d,
        "PLASMA_CONFIG_HASH"@,
        hash,
    ) + assign_line(d, "PLASMA_DAEMON_PID"@, pid) + assign_line(
        d,
        "GRADLE_BUILD_CACHE_URL"@,
        http,
    ) + assign_line(d, "NX_SELF_HOSTED_REMOTE_CACHE_SERVER"@, http) + assign_line(
        d,
        "XCODE_CACHE_SERVER"@,
        grpc,
    ) + assign_line(d, "TURBO_API"@, http) + assign_line(d, "TURBO_TEAM"@, turbo_placeholder())
        + assign_line(d, "TURBO_TOKEN"@, turbo_placeholder())
}

fn push_unset(out: &mut String, d: Dialect, name: &str)
    ensures
        final(out)@ == old(out)@ + unset_line(d, name@),
{
    match d {
        Dialect::Posix => {
            out.append("unset ");
            out.append(name);
            out.append("\n");
        },
        Dialect::Fish => {
            out.append("set -e ");
            out.append(name);
            out.append(" 2>/dev/null\n");
        },
    }
}

fn push_assign(out: &mut String, d: Dialect, name: &str, value: &str)
    ensures
        final(out)@ == old(out)@ + assign_line(d, name@, value@),
{
    match d {
        Dialect::Posix => {
            out.append("export ");
            out.append(name);
            out.append("=");
            out.append(value);
            out.append("\n");
        },
        Dialect::Fish => {
            out.append("set -gx ");
            out.append(name);
            out.append(" ");
            out.append(value);
            out.append("\n");
        },
    }
}

/// The names of the managed variables, in order.
pub fn managed_var_names() -> (v: Vec<&'static str>)
    ensures
        v@.len() == managed_vars().len(),
        forall|i: int| 0 <= i < v@.len() ==> (#[trigger] v@[i])@ == managed_vars()[i],
{
    let v = vec![
        "PLASMA_HTTP_URL",
        "PLASMA_GRPC_URL",
        "PLASMA_UNIX_SOCKET",
        "PLASMA_CONFIG_HASH",
        "PLASMA_DAEMON_PID",
        "GRADLE_BUILD_CACHE_URL",
        "NX_SELF_HOSTED_REMOTE_CACHE_SERVER",
        "XCODE_CACHE_SERVER",
        "TURBO_API",
        "TURBO_TEAM",
        "TURBO_TOKEN",
    ];
    v
}

/// The variables that deactivation removes: the tool's own variables and
/// the Gradle, Nx and Xcode ones, in order.
pub open spec fn deactivated_vars() -> Seq<Seq<char>> {
    managed_vars().subrange(0, 8)
}

/// The block that deactivation prints.
pub open spec fn deactivate_block_spec(d: Dialect) -> Seq<char> {
    unset_lines(d, deactivated_vars())
}

/// The block that deactivation prints: it removes the first eight managed
/// variables and leaves the Turborepo ones alone.
pub fn deactivate_block(d: Dialect) -> (r: String)
    ensures
        r@ == deactivate_block_spec(d),
{
    let names = managed_var_names();
    let mut r = String::new();
    let mut i: usize = 0;
    while i < 8
        invariant
            i <= 8,
            names@.len() == managed_vars().len(),
            forall|k: int| 0 <= k < names@.len() ==> (#[trigger] names@[k])@ == managed_vars()[k],
            r@ == unset_lines(d, managed_vars().subrange(0, i as int)),
        decreases 8 - i,
    {
        push_unset(&mut r, d, names[i]);
        assert(managed_vars().subrange(0, i + 1).drop_last() == managed_vars().subrange(
            0,
            i as int,
        ));
        i = i + 1;
    }
    r
}

/// The block that removes every managed variable from the calling shell.
pub fn unset_block(d: Dialect) -> (r: String)
    ensures
        r@ == unset_block_spec(d),
{
    let names = managed_var_names();
    let mut r = String::new();
    let mut i: usize = 0;
    while i < names.len()
        invariant
            i <= names@.len(),
            names@.len() == managed_vars().len(),
            forall|k: int| 0 <= k < names@.len() ==> (#[trigger] names@[k])@ == managed_vars()[k],
            r@ == unset_lines(d, managed_vars().subrange(0, i as int)),
        decreases names@.len() - i,
    {
        push_unset(&mut r, d, names[i]);
        assert(managed_vars().subrange(0, i + 1).drop_last() == managed_vars().subrange(
            0,
            i as int,
        ));
        i = i + 1;
    }
    assert(managed_vars().subrange(0, names@.len() as int) == managed_vars());
    r
}

/// The block that exports a daemon's endpoints to the calling shell.
pub fn export_block(d: Dialect, http: &str, grpc: &str, socket: &str, hash: &str, pid: &str) -> (r:
    String)
    ensures
        r@ == export_block_spec(d, http@, grpc@, socket@, hash@, pid@),
{
    let mut r = String::new();
    push_assign(&mut r, d, "PLASMA_HTTP_URL", http);
    push_assign(&mut r, d, "PLASMA_GRPC_URL", grpc);
    push_assign(&mut r, d, "PLASMA_UNIX_SOCKET", socket);
    push_assign(&mut r, d, "PLASMA_CONFIG_HASH", hash);
    push_assign(&mut r, d, "PLASMA_DAEMON_PID", pid);
    push_assign(&mut r, d, "GRADLE_BUILD_CACHE_URL", http);
    push_assign(&mut r, d, "NX_SELF_HOSTED_REMOTE_CACHE_SERVER", http);
    push_assign(&mut r, d, "XCODE_CACHE_SERVER", grpc);
    push_assign(&mut r, d, "TURBO_API", http);
    push_assign(&mut r, d, "TURBO_TEAM", "plasma");
    push_assign(&mut r, d, "TURBO_TOKEN", "plasma");
    assert(r@ =~= export_block_spec(d, http@, grpc@, socket@, hash@, pid@));
    r
}

/// The integration script for bash.
pub open spec fn bash_hook() -> Seq<char> {
    "_plasma_hook() {\n  eval \"$(plasma activate --status 2>/dev/null)\"\n}\n\n# Run before each prompt\nif [[ -n \"${PROMPT_COMMAND}\" ]]; then\n  PROMPT_COMMAND=\"_plasma_hook;${PROMPT_COMMAND}\"\nelse\n  PROMPT_COMMAND=\"_plasma_hook\"\nfi\n"@
}

/// The integration script for zsh.
pub open spec fn zsh_hook() -> Seq<char> {
    "_plasma_hook() {\n  eval \"$(plasma activate --status 2>/dev/null)\"\n}\n\n# Run before each prompt\nautoload -U add-zsh-hook\nadd-zsh-hook precmd _plasma_hook\n\n# Run now\n_plasma_hook\n"@
}

/// The integration script for fish.
pub open spec fn fish_hook() -> Seq<char> {
    "function _plasma_hook --on-variable PWD\n  plasma activate --status 2>/dev/null | source\nend\n\n# Run now\n_plasma_hook\n"@
}

/// A shell that has no integration script.
#[derive(Debug)]
pub struct UnsupportedShell {
    pub name: String,
}

impl UnsupportedShell {
    /// The diagnostic for the caller.
    pub fn message(&self) -> (r: String)
        ensures
            r@ == "Unsupported shell: "@ + self.name@ + ". Use bash, zsh, or fish"@,
    {
        let mut r = String::from_str("Unsupported shell: ");
        r.append(self.name.as_str());
        r.append(". Use bash, zsh, or fish");
        r
    }
}

/// The integration script for the shell named `shell` (bash, zsh or fish);
/// any other name is refused.
pub fn shell_hook(shell: &str) -> (r: Result<String, UnsupportedShell>)
    ensures
        shell@ == "bash"@ ==> (r matches Ok(s) && s@ == bash_hook()),
        shell@ == "zsh"@ ==> (r matches Ok(s) && s@ == zsh_hook()),
        shell@ == "fish"@ ==> (r matches Ok(s) && s@ == fish_hook()),
        shell@ != "bash"@ && shell@ != "zsh"@ && shell@ != "fish"@ ==> (r matches Err(e)
            && e.name@ == shell@),
{
    proof {
        reveal_strlit("bash");
        reveal_strlit("zsh");
        reveal_strlit("fish");
        assert("bash"@[0] != "zsh"@[0]);
        assert("bash"@[0] != "fish"@[0]);
        assert("zsh"@[0] != "fish"@[0]);
    }
    if same_text(shell, "bash") {
        Ok(String::from_str("_plasma_hook() {\n  eval \"$(plasma activate --status 2>/dev/null)\"\n}\n\n# Run before each prompt\nif [[ -n \"${PROMPT_COMMAND}\" ]]; then\n  PROMPT_COMMAND=\"_plasma_hook;${PROMPT_COMMAND}\"\nelse\n  PROMPT_COMMAND=\"_plasma_hook\"\nfi\n"))
    } else if same_text(shell, "zsh") {
        Ok(String::from_str("_plasma_hook() {\n  eval \"$(plasma activate --status 2>/dev/null)\"\n}\n\n# Run before each prompt\nautoload -U add-zsh-hook\nadd-zsh-hook precmd _plasma_hook\n\n# Run now\n_plasma_hook\n"))
    } else if same_text(shell, "fish") {
        Ok(String::from_str("function _plasma_hook --on-variable PWD\n  plasma activate --status 2>/dev/null | source\nend\n\n# Run now\n_plasma_hook\n"))
    } else {
        Err(UnsupportedShell { name: String::from_str(shell) })
    }
}

} // verus!
