//! Installing the root certificate into the host's trust store and
//! checking that it is trusted: which commands to run on each platform,
//! how to read the default keychain's name, and what each outcome means.
//!
//! The caller runs the commands and reports whether each one could be
//! started and whether it exited successfully. Nothing is cached: every
//! check asks the trust store again.
use crate::cert::CaError;
use vstd::prelude::*;
use vstd::string::*;

verus! {

/// The platform the application runs on, as far as the trust store goes.
#[derive(PartialEq, Eq, Structural, Debug, Clone, Copy)]
pub enum Platform {
    MacOs,
    Windows,
    Other,
}

/// A program to run and its arguments.
pub struct CommandLine {
    pub program: String,
    pub args: Vec<String>,
}

/// The texts of a sequence of strings.
pub open spec fn arg_texts(v: Seq<String>) -> Seq<Seq<char>> {
    v.map_values(|s: String| s@)
}

/// `c` runs `program` with `args`.
pub open spec fn runs(c: CommandLine, program: Seq<char>, args: Seq<Seq<char>>) -> bool {
    c.program@ == program && arg_texts(c.args@) == args
}

/// Whether a character has Unicode's `White_Space` property: the controls
/// U+0009 to U+000D, the space, U+0085, U+00A0, U+1680, U+2000 to U+200A,
/// the line and paragraph separators U+2028 and U+2029, U+202F, U+205F and
/// U+3000.
pub open spec fn unicode_white_space(c: char) -> bool {
    let u = c as u32;
    (0x09 <= u <= 0x0D) || u == 0x20 || u == 0x85 || u == 0xA0 || u == 0x1680 || (0x2000 <= u
        <= 0x200A) || u == 0x2028 || u == 0x2029 || u == 0x202F || u == 0x205F || u == 0x3000
}

/// Whether the character is white space, as `char::is_whitespace` decides.
fn is_white_space(c: char) -> (r: bool)
    ensures
        r == unicode_white_space(c),
{
    let u = c as u32;
    (0x09 <= u && u <= 0x0D) || u == 0x20 || u == 0x85 || u == 0xA0 || u == 0x1680 || (0x2000
        <= u && u <= 0x200A) || u == 0x2028 || u == 0x2029 || u == 0x202F || u == 0x205F || u
        == 0x3000
}

/// Index of the first character of `s` at or after `i` that is not white space.
pub open spec fn first_kept(s: Seq<char>, i: int) -> int
    decreases s.len() - i,
{
    if i >= s.len() {
        s.len() as int
    } else if unicode_white_space(s[i]) {
        first_kept(s, i + 1)
    } else {
        i
    }
}

/// One past the last character of `s` before `j` that is not white space.
pub open spec fn last_kept_end(s: Seq<char>, j: int) -> int
    decreases j,
{
    if j <= 0 {
        0
    } else if unicode_white_space(s[j - 1]) {
        last_kept_end(s, j - 1)
    } else {
        j
    }
}

/// `s` without white space at its start and at its end.
pub open spec fn trimmed(s: Seq<char>) -> Seq<char> {
    let a = first_kept(s, 0);
    let b = last_kept_end(s, s.len() as int);
    if a < b {
        s.subrange(a, b)
    } else {
        Seq::empty()
    }
}

/// `s` without its double quotes.
pub open spec fn without_quotes(s: Seq<char>) -> Seq<char>
    decreases s.len(),
{
    if s.len() == 0 {
        Seq::empty()
    } else if s.last() == '"' {
        without_quotes(s.drop_last())
    } else {
        without_quotes(s.drop_last()).push(s.last())
    }
}

/// `s` without leading and trailing white space.
fn trim_text(s: &str) -> (r: String)
    ensures
        r@ == trimmed(s@),
{
    let n = s.unicode_len();
    let mut a: usize = 0;
    while a < n && is_white_space(s.get_char(a))
        invariant
            n == s@.len(),
            a <= n,
            first_kept(s@, 0) == first_kept(s@, a as int),
        decreases n - a,
    {
        a = a + 1;
    }
    let mut b: usize = n;
    while b > 0 && is_white_space(s.get_char(b - 1))
        invariant
            n == s@.len(),
            b <= n,
            last_kept_end(s@, n as int) == last_kept_end(s@, b as int),
        decreases b,
    {
        b = b - 1;
    }
    if a < b {
        String::from_str(s.substring_char(a, b))
    } else {
        String::new()
    }
}

/// `s` with every double quote removed.
fn strip_quotes(s: &str) -> (r: String)
    ensures
        r@ == without_quotes(s@),
{
    let n = s.unicode_len();
    let mut out = String::new();
    let mut i: usize = 0;
    while i < n
        invariant
            n == s@.len(),
            i <= n,
            out@ == without_quotes(s@.take(i as int)),
        decreases n - i,
    {
        assert(s@.take(i + 1).drop_last() =~= s@.take(i as int));
        if s.get_char(i) != '"' {
            let piece = s.substring_char(i, i + 1);
            out.append(piece);
            assert(piece@ =~= seq![s@[i as int]]);
        }
        i = i + 1;
    }
    assert(s@.take(n as int) =~= s@);
    out
}

/// The name of the default keychain, read from what
/// `security default-keychain` printed: white space around it and every
/// double quote removed.
pub fn default_keychain_name(output: &str) -> (r: String)
    ensures
        r@ == without_quotes(trimmed(output@)),
{
    let t = trim_text(output);
    strip_quotes(t.as_str())
}

fn text(s: &str) -> (r: String)
    ensures
        r@ == s@,
{
    String::from_str(s)
}

/// Whether the platform's trust store is addressed through a keychain,
/// whose name is asked for first.
pub fn needs_keychain(platform: Platform) -> (r: bool)
    ensures
        r == (platform == Platform::MacOs),
{
    match platform {
        Platform::MacOs => true,
        _ => false,
    }
}

/// The command that prints the default keychain.
pub fn keychain_command() -> (r: CommandLine)
    ensures
        runs(r, "security"@, seq!["default-keychain"@]),
{
    let r = CommandLine { program: text("security"), args: vec![text("default-keychain")] };
    assert(arg_texts(r.args@) =~= seq!["default-keychain"@]);
    r
}

/// The command that installs the certificate at `cert_path` as trusted:
/// `security add-trusted-cert -k <keychain> <path>` on macOS,
/// `certutil -addstore -user Root <path>` on Windows; elsewhere
/// `UnsupportedPlatform`.
pub fn install_command(platform: Platform, keychain: &str, cert_path: &str) -> (r: Result<
    CommandLine,
    CaError,
>)
    ensures
        platform == Platform::MacOs ==> r is Ok && runs(
            r->Ok_0,
            "security"@,
            seq!["add-trusted-cert"@, "-k"@, keychain@, cert_path@],
        ),
        platform == Platform::Windows ==> r is Ok && runs(
            r->Ok_0,
            "certutil"@,
            seq!["-addstore"@, "-user"@, "Root"@, cert_path@],
        ),
        platform == Platform::Other ==> r == Err::<CommandLine, CaError>(
            CaError::UnsupportedPlatform,
        ),
{
    match platform {
        Platform::MacOs => {
            let args = vec![text("add-trusted-cert"), text("-k"), text(keychain), text(cert_path)];
            let r = CommandLine { program: text("security"), args };
            assert(arg_texts(r.args@) =~= seq!["add-trusted-cert"@, "-k"@, keychain@, cert_path@]);
            Ok(r)
        },
        Platform::Windows => {
            let args = vec![text("-addstore"), text("-user"), text("Root"), text(cert_path)];
            let r = CommandLine { program: text("certutil"), args };
            assert(arg_texts(r.args@) =~= seq!["-addstore"@, "-user"@, "Root"@, cert_path@]);
            Ok(r)
        },
        Platform::Other => Err(CaError::UnsupportedPlatform),
    }
}

/// What an install command's run means: it must start and exit
/// successfully, or the install failed.
pub fn install_outcome(started: bool, succeeded: bool) -> (r: Result<(), CaError>)
    ensures
        r is Ok <==> started && succeeded,
        r is Err ==> r->Err_0 == CaError::InstallFailed,
{
    if started && succeeded {
        Ok(())
    } else {
        Err(CaError::InstallFailed)
    }
}

/// The command that checks whether the certificate at `cert_path` is
/// trusted: `security verify-cert -k <keychain> -c <path>` on macOS. On
/// Windows checking is not implemented (`NotSupported`, which callers take
/// as "not trusted"); elsewhere `UnsupportedPlatform`.
pub fn check_command(platform: Platform, keychain: &str, cert_path: &str) -> (r: Result<
    CommandLine,
    CaError,
>)
    ensures
        platform == Platform::MacOs ==> r is Ok && runs(
            r->Ok_0,
            "security"@,
            seq!["verify-cert"@, "-k"@, keychain@, "-c"@, cert_path@],
        ),
        platform == Platform::Windows ==> r == Err::<CommandLine, CaError>(CaError::NotSupported),
        platform == Platform::Other ==> r == Err::<CommandLine, CaError>(
            CaError::UnsupportedPlatform,
        ),
{
    match platform {
        Platform::MacOs => {
            let args = vec![
                text("verify-cert"),
                text("-k"),
                text(keychain),
                text("-c"),
                text(cert_path),
            ];
            let r = CommandLine { program: text("security"), args };
            assert(arg_texts(r.args@) =~= seq![
                "verify-cert"@,
                "-k"@,
                keychain@,
                "-c"@,
                cert_path@,
            ]);
            Ok(r)
        },
        Platform::Windows => Err(CaError::NotSupported),
        Platform::Other => Err(CaError::UnsupportedPlatform),
    }
}

/// What a check command's run means: trusted exactly when it exits
/// successfully; a command that cannot be started is an error.
pub fn check_outcome(started: bool, succeeded: bool) -> (r: Result<bool, CaError>)
    ensures
        started ==> r == Ok::<bool, CaError>(succeeded),
        !started ==> r == Err::<bool, CaError>(CaError::CheckFailed),
{
    if started {
        Ok(succeeded)
    } else {
        Err(CaError::CheckFailed)
    }
}

/// Whether a new root certificate must be made: when the certificate file
/// or the key file is missing.
pub fn ca_files_missing(cert_exists: bool, key_exists: bool) -> (r: bool)
    ensures
        r == (!cert_exists || !key_exists),
{
    !cert_exists || !key_exists
}

/// Whether a starting proxy intercepts TLS: only when the trust check
/// said that the root certificate is trusted. A check that failed or was
/// not supported counts as "not trusted".
pub fn interception_enabled(installed: Result<bool, CaError>) -> (r: bool)
    ensures
        r == (installed == Ok::<bool, CaError>(true)),
{
    match installed {
        Ok(b) => b,
        Err(_) => false,
    }
}

} // verus!
