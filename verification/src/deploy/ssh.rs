//! SSH: what a server offers, which port and key files to try, and the
//! commands that move files.

use vstd::prelude::*;
use vstd::string::StringExecFns;
use crate::text::{concat2, join, join_path};

verus! {

/// What an SSH server offers.
#[derive(Debug, Clone)]
pub struct SshCapabilities {
    /// SFTP subsystem available.
    pub supports_sftp: bool,
    /// Remote command execution available.
    pub supports_exec: bool,
    /// Interactive shell available.
    pub supports_shell: bool,
    /// Server software.
    pub server_version: String,
}

impl SshCapabilities {
    /// What a server offers once probed: command execution and a shell
    /// (every SSH server has them), SFTP as the probe found it.
    pub fn probed(supports_sftp: bool) -> (r: SshCapabilities)
        ensures
            r.supports_sftp == supports_sftp,
            r.supports_exec,
            r.supports_shell,
            r.server_version@ == "OpenSSH"@,
    {
        SshCapabilities {
            supports_sftp,
            supports_exec: true,
            supports_shell: true,
            server_version: String::from_str("OpenSSH"),
        }
    }
}

/// The ports tried for SSH, in order: the standard one, then the usual
/// alternatives.
pub open spec fn ssh_ports() -> Seq<u16> {
    seq![22u16, 2222u16, 22000u16, 22022u16]
}

/// The ports tried for SSH (see [`ssh_ports`]).
pub fn ssh_port_candidates() -> (r: Vec<u16>)
    ensures
        r@ == ssh_ports(),
{
    let v: Vec<u16> = vec![22, 2222, 22000, 22022];
    assert(v@ =~= ssh_ports());
    v
}

/// The SSH port to use, given which candidates answered: the first of
/// [`ssh_ports`] that did, 22 when none did.
pub fn select_ssh_port(open: &Vec<bool>) -> (r: u16)
    requires
        open@.len() == 4,
    ensures
        forall|i: int|
            0 <= i < 4 && open@[i] && (forall|j: int| 0 <= j < i ==> !open@[j]) ==> r
                == ssh_ports()[i],
        (forall|i: int| 0 <= i < 4 ==> !open@[i]) ==> r == 22,
{
    let ports = ssh_port_candidates();
    let mut i: usize = 0;
    while i < 4
        invariant
            open@.len() == 4,
            ports@ == ssh_ports(),
            i <= 4,
            forall|j: int| 0 <= j < i ==> !open@[j],
        decreases 4 - i,
    {
        if open[i] {
            assert forall|k: int|
                0 <= k < 4 && open@[k] && (forall|j: int| 0 <= j < k ==> !open@[j]) implies ports@[i as int]
                == ssh_ports()[k] by {
                if k < i {
                    assert(!open@[k]);
                } else if k > i {
                    assert(!open@[i as int]);
                }
            }
            return ports[i];
        }
        i = i + 1;
    }
    22
}

/// The private key files tried for authentication, in order.
pub open spec fn default_key_paths(home: Seq<char>) -> Seq<Seq<char>> {
    seq![
        join_path(home, ".ssh/id_ed25519"@),
        join_path(home, ".ssh/id_rsa"@),
        join_path(home, ".ssh/id_ecdsa"@),
    ]
}

/// The private key files under the home directory `home` that are tried
/// for authentication, in order: ed25519, RSA, ECDSA.
pub fn default_key_files(home: &str) -> (r: Vec<String>)
    ensures
        r@.map_values(|p: String| p@) == default_key_paths(home@),
{
    let mut v: Vec<String> = Vec::new();
    v.push(join(home, ".ssh/id_ed25519"));
    v.push(join(home, ".ssh/id_rsa"));
    v.push(join(home, ".ssh/id_ecdsa"));
    assert(v@.map_values(|p: String| p@) =~= default_key_paths(home@));
    v
}

/// Whether `c` passes through shell escaping unquoted: an ASCII letter or
/// digit, or one of `-_=/,.+`.
pub open spec fn shell_plain_char(c: char) -> bool {
    ('a' <= c && c <= 'z') || ('A' <= c && c <= 'Z') || ('0' <= c && c <= '9') || c == '-' || c
        == '_' || c == '=' || c == '/' || c == ',' || c == '.' || c == '+'
}

/// The inside of a single-quoted word for `s`: each `'` and `!` closed
/// out of the quotes and escaped with a backslash.
pub open spec fn shell_quoted_body(s: Seq<char>) -> Seq<char>
    decreases s.len(),
{
    if s.len() == 0 {
        s
    } else {
        shell_quoted_body(s.drop_last()) + if s.last() == '\'' || s.last() == '!' {
            seq!['\'', '\\', s.last(), '\'']
        } else {
            seq![s.last()]
        }
    }
}

/// `s` made safe as one word of a POSIX shell command: unchanged when it
/// is not empty and all its characters are plain, otherwise single-quoted.
pub open spec fn shell_escaped(s: Seq<char>) -> Seq<char> {
    if s.len() > 0 && forall|i: int| 0 <= i < s.len() ==> shell_plain_char(#[trigger] s[i]) {
        s
    } else {
        seq!['\''] + shell_quoted_body(s) + seq!['\'']
    }
}

/// `shell_escape::unix::escape`: returns its argument unchanged when it is
/// not empty and holds only ASCII letters, digits and `-_=/,.+`; otherwise
/// wraps it in single quotes, writing each `'` and `!` as `'\` + char +
/// `'`. The contract states that rule as [`shell_escaped`].
#[verifier::external_body]
fn shell_escape_word(s: &str) -> (r: String)
    ensures
        r@ == shell_escaped(s@),
{
    shell_escape::unix::escape(std::borrow::Cow::Borrowed(s)).into_owned()
}

/// The remote command that writes its standard input to `remote_path`.
pub fn remote_write_command(remote_path: &str) -> (r: String)
    ensures
        r@ == "cat > "@ + shell_escaped(remote_path@),
{
    let escaped = shell_escape_word(remote_path);
    concat2("cat > ", escaped.as_str())
}

/// Why a file could not be copied.
#[derive(Debug)]
pub enum TransferError {
    /// The server was not probed yet.
    NotProbed,
    /// The server offers no SFTP.
    SftpUnsupported,
    /// The remote write ended with this exit status.
    ExitStatus(u32),
}

impl TransferError {
    /// The message that describes the error.
    pub fn message(&self) -> (r: String)
        ensures
            self is NotProbed ==> r@ == "Capabilities not probed"@,
            self is SftpUnsupported ==> r@ == "SFTP not supported by remote server"@,
            self matches TransferError::ExitStatus(code) ==> r@
                == "File transfer failed with exit code "@ + crate::text::decimal(code as nat),
    {
        match self {
            TransferError::NotProbed => String::from_str("Capabilities not probed"),
            TransferError::SftpUnsupported => String::from_str(
                "SFTP not supported by remote server",
            ),
            TransferError::ExitStatus(code) => {
                let digits = crate::text::decimal_string(*code as u64);
                concat2("File transfer failed with exit code ", digits.as_str())
            },
        }
    }
}

/// Whether a file may be sent: the server must have been probed and offer
/// SFTP.
pub fn transfer_ready(caps: Option<&SshCapabilities>) -> (r: Result<(), TransferError>)
    ensures
        caps is None ==> r matches Err(TransferError::NotProbed),
        caps matches Some(c) ==> (c.supports_sftp <==> r is Ok),
        (caps matches Some(c) && !c.supports_sftp) ==> r matches Err(TransferError::SftpUnsupported),
{
    match caps {
        None => Err(TransferError::NotProbed),
        Some(c) => if c.supports_sftp {
            Ok(())
        } else {
            Err(TransferError::SftpUnsupported)
        },
    }
}

/// Judges the exit status of the remote write: any status but 0 fails.
pub fn check_transfer_status(exit_status: u32) -> (r: Result<(), TransferError>)
    ensures
        r is Ok <==> exit_status == 0,
        exit_status != 0 ==> (r matches Err(TransferError::ExitStatus(c)) && c == exit_status),
{
    if exit_status != 0 {
        Err(TransferError::ExitStatus(exit_status))
    } else {
        Ok(())
    }
}

} // verus!
