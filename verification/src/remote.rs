//! Remote session model: the exact shell commands the orchestrator issues
//! over its secure channel, and the pure decisions taken on what comes
//! back — authentication outcome, per-command exit status, and the health
//! probe's verdict. The channel itself (transport, handshake, command
//! execution) lives in the surrounding shell; everything it decides with
//! is computed and verified here.

use vstd::prelude::*;

verus! {

/// Why a connection attempt failed.
#[derive(PartialEq, Eq, Structural, Clone, Copy, Debug)]
pub enum ConnectError {
    /// The credential file is absent; there is no password fallback.
    CredentialNotFound,
    /// The remote end rejected the credential, or the post-handshake
    /// authentication status was false.
    AuthenticationFailed,
}

/// A remote command finished with a nonzero exit status; the output read
/// before the channel closed is preserved for diagnostics.
#[derive(Debug)]
pub struct CommandError {
    pub exit_code: i32,
    pub output: String,
}

/// Decide the outcome of the authentication step: the credential file
/// must be present and the remote end must accept it.
pub fn auth_outcome(key_found: bool, authenticated: bool) -> (r: Result<(), ConnectError>)
    ensures
        r is Ok <==> (key_found && authenticated),
        !key_found ==> r == Err::<(), ConnectError>(ConnectError::CredentialNotFound),
        key_found && !authenticated ==> r == Err::<(), ConnectError>(
            ConnectError::AuthenticationFailed,
        ),
{
    if !key_found {
        Err(ConnectError::CredentialNotFound)
    } else if !authenticated {
        Err(ConnectError::AuthenticationFailed)
    } else {
        Ok(())
    }
}

/// Decide the outcome of one executed command from its remote exit status
/// and captured stdout: success carries the output through unchanged, a
/// nonzero status carries both the status and the partial output.
pub fn command_outcome(exit_status: i32, output: String) -> (r: Result<String, CommandError>)
    ensures
        match r {
            Ok(s) => exit_status == 0 && s == output,
            Err(e) => exit_status != 0 && e.exit_code == exit_status && e.output == output,
        },
{
    if exit_status == 0 {
        Ok(output)
    } else {
        Err(CommandError { exit_code: exit_status, output })
    }
}

/// The character of one decimal digit.
pub open spec fn digit_char(d: nat) -> char {
    if d == 0 {
        '0'
    } else if d == 1 {
        '1'
    } else if d == 2 {
        '2'
    } else if d == 3 {
        '3'
    } else if d == 4 {
        '4'
    } else if d == 5 {
        '5'
    } else if d == 6 {
        '6'
    } else if d == 7 {
        '7'
    } else if d == 8 {
        '8'
    } else {
        '9'
    }
}

/// The decimal digits of `n`, most significant first, no leading zeros
/// (a single zero for zero).
pub open spec fn dec_digits(n: nat) -> Seq<char>
    decreases n,
{
    if n < 10 {
        seq![digit_char(n)]
    } else {
        dec_digits(n / 10).push(digit_char(n % 10))
    }
}

/// The one-character string of a decimal digit.
fn digit_str(d: u64) -> (s: &'static str)
    requires
        d < 10,
    ensures
        s@ == seq![digit_char(d as nat)],
{
    proof {
        reveal_strlit("0");
        reveal_strlit("1");
        reveal_strlit("2");
        reveal_strlit("3");
        reveal_strlit("4");
        reveal_strlit("5");
        reveal_strlit("6");
        reveal_strlit("7");
        reveal_strlit("8");
        reveal_strlit("9");
    }
    let s = match d {
        0 => "0",
        1 => "1",
        2 => "2",
        3 => "3",
        4 => "4",
        5 => "5",
        6 => "6",
        7 => "7",
        8 => "8",
        _ => "9",
    };
    proof {
        assert(s@ =~= seq![digit_char(d as nat)]);
    }
    s
}

/// Render `n` in decimal.
pub fn u64_to_dec(n: u64) -> (s: String)
    ensures
        s@ == dec_digits(n as nat),
    decreases n,
{
    if n < 10 {
        String::from_str(digit_str(n))
    } else {
        let prefix = u64_to_dec(n / 10);
        let s = prefix.concat(digit_str(n % 10));
        proof {
            assert(s@ =~= dec_digits((n / 10) as nat).push(digit_char((n % 10) as nat)));
        }
        s
    }
}

/// The orchestration status query, scoped to the service's remote working
/// directory, requesting line-delimited JSON.
pub fn compose_ps_command(portal_path: &str) -> (c: String)
    ensures
        c@ == "cd "@ + portal_path@ + " && docker compose ps --format json"@,
{
    let c = String::from_str("cd ").concat(portal_path).concat(
        " && docker compose ps --format json",
    );
    proof {
        assert(c@ =~= "cd "@ + portal_path@ + " && docker compose ps --format json"@);
    }
    c
}

/// The idempotent start command, scoped to the service's remote working
/// directory.
pub fn start_command(portal_path: &str) -> (c: String)
    ensures
        c@ == "cd "@ + portal_path@ + " && docker compose up -d"@,
{
    let c = String::from_str("cd ").concat(portal_path).concat(" && docker compose up -d");
    proof {
        assert(c@ =~= "cd "@ + portal_path@ + " && docker compose up -d"@);
    }
    c
}

/// The idempotent stop command, scoped to the service's remote working
/// directory.
pub fn stop_command(portal_path: &str) -> (c: String)
    ensures
        c@ == "cd "@ + portal_path@ + " && docker compose down"@,
{
    let c = String::from_str("cd ").concat(portal_path).concat(" && docker compose down");
    proof {
        assert(c@ =~= "cd "@ + portal_path@ + " && docker compose down"@);
    }
    c
}

/// The log-tail command, optionally filtered to one service.
pub fn logs_command(portal_path: &str, service: Option<&str>, lines: u64) -> (c: String)
    ensures
        c@ == (match service {
            Some(svc) => "cd "@ + portal_path@ + " && docker compose logs --tail "@ + dec_digits(
                lines as nat,
            ) + " "@ + svc@,
            None => "cd "@ + portal_path@ + " && docker compose logs --tail "@ + dec_digits(
                lines as nat,
            ),
        }),
{
    let base = String::from_str("cd ").concat(portal_path).concat(
        " && docker compose logs --tail ",
    );
    let tail = u64_to_dec(lines);
    let with_tail = base.concat(tail.as_str());
    match service {
        Some(svc) => {
            let c = with_tail.concat(" ").concat(svc);
            proof {
                assert(c@ =~= "cd "@ + portal_path@ + " && docker compose logs --tail "@
                    + dec_digits(lines as nat) + " "@ + svc@);
            }
            c
        },
        None => {
            proof {
                assert(with_tail@ =~= "cd "@ + portal_path@ + " && docker compose logs --tail "@
                    + dec_digits(lines as nat));
            }
            with_tail
        },
    }
}

/// The health probe: an HTTP status check issued remotely against the
/// service's local port; any transport failure prints the sentinel "000".
pub fn health_probe_command(port: u16) -> (c: String)
    ensures
        c@ == "curl -s -o /dev/null -w '%{http_code}' http://localhost:"@ + dec_digits(port as nat)
            + " || echo '000'"@,
{
    let c = String::from_str("curl -s -o /dev/null -w '%{http_code}' http://localhost:").concat(
        u64_to_dec(port as u64).as_str(),
    ).concat(" || echo '000'");
    proof {
        assert(c@ =~= "curl -s -o /dev/null -w '%{http_code}' http://localhost:"@ + dec_digits(
            port as nat,
        ) + " || echo '000'"@);
    }
    c
}

/// The canonical portal URL composed from host and health port.
pub fn portal_url(host: &str, port: u16) -> (c: String)
    ensures
        c@ == "http://"@ + host@ + ":"@ + dec_digits(port as nat),
{
    let c = String::from_str("http://").concat(host).concat(":").concat(
        u64_to_dec(port as u64).as_str(),
    );
    proof {
        assert(c@ =~= "http://"@ + host@ + ":"@ + dec_digits(port as nat));
    }
    c
}

/// What the health probe's output trims to.
pub uninterp spec fn trim_of(s: Seq<char>) -> Seq<char>;

/// Relies on str::trim: removes leading and trailing whitespace; the
/// result depends on the characters of the input alone.
#[verifier::external_body]
fn trim_str(s: &str) -> (r: String)
    ensures
        r@ == trim_of(s@),
{
    s.trim().to_string()
}

/// Verdict of the health probe: ready exactly when the probe's output,
/// trimmed, is the HTTP status "200"; every other outcome — any other
/// status, or the transport-failure sentinel — counts as not yet ready.
pub fn health_ok(probe_output: &str) -> (b: bool)
    ensures
        b == (trim_of(probe_output@) == "200"@),
{
    let trimmed = trim_str(probe_output);
    let expected = String::from_str("200");
    trimmed == expected
}

} // verus!
