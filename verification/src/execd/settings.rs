//! The executor's runtime settings: command-line overrides applied over the
//! configuration file, each required setting present or a clear refusal.

use vstd::prelude::*;

use crate::config::Config;
use crate::crypto::{ed25519_key_ok, public_key_error};
use crate::hex::{decode_trimmed, hex_decoded, hex_ok, to_array32};
use crate::text::{owned, push_str, string_of, trim};

verus! {

/// The command-line overrides.
#[derive(Debug, Clone)]
pub struct CliArgs {
    /// Main configuration file.
    pub config: Option<String>,
    /// Override: exec socket path.
    pub socket: Option<String>,
    /// Override: the only peer UID accepted.
    pub peer_uid: Option<u32>,
    /// Override: a fixed hex session public key (instead of the file).
    pub session_pubkey_hex: Option<String>,
    /// Override: the published session public key file.
    pub session_pub_file: Option<String>,
    /// Override: operator trust set.
    pub operators: Option<String>,
    /// Override: allowlist TOML.
    pub allowlist: Option<String>,
    /// Override: signed bundle directory.
    pub bundle_dir: Option<String>,
    /// Per-action wall-clock timeout, seconds.
    pub timeout_secs: u64,
}

/// Where the trusted session key comes from.
#[derive(Debug, Clone)]
pub enum SessionSource {
    /// Fixed for the process lifetime (tests, manual use).
    Fixed([u8; 32]),
    /// Re-read from this file before every connection (rotation-safe).
    File(String),
}

/// The resolved runtime settings.
#[derive(Debug, Clone)]
pub struct Settings {
    /// Exec socket path.
    pub socket: String,
    /// The only peer UID accepted.
    pub peer_uid: u32,
    /// Operator trust set path.
    pub operators: String,
    /// Allowlist path.
    pub allowlist: String,
    /// Bundle directory.
    pub bundle_dir: String,
    /// Session key source.
    pub session: SessionSource,
    /// Per-action timeout, seconds.
    pub timeout_secs: u64,
}

/// The message for a setting given neither on the command line nor in the
/// configuration.
pub open spec fn missing_message(what: Seq<char>) -> Seq<char> {
    "missing required setting: "@ + what + " (set it in --config or pass the flag)"@
}

/// A setting: the command-line value when given, else the configuration's,
/// else a refusal naming it.
pub fn need<T>(cli: Option<T>, cfg: Option<T>, what: &str) -> (r: Result<T, String>)
    ensures
        cli matches Some(v) ==> r == Ok::<T, String>(v),
        cli is None && cfg is Some ==> r == Ok::<T, String>(cfg->0),
        cli is None && cfg is None ==> (r matches Err(m) && m@ == missing_message(what@)),
{
    match cli {
        Some(v) => Ok(v),
        None => match cfg {
            Some(v) => Ok(v),
            None => {
                let mut v: Vec<char> = Vec::new();
                push_str(&mut v, "missing required setting: ");
                push_str(&mut v, what);
                push_str(&mut v, " (set it in --config or pass the flag)");
                Err(string_of(v.as_slice()))
            },
        },
    }
}

/// The bytes of a hex key text: trimmed, then the UTF-8 bytes.
pub open spec fn key_text(hex: Seq<char>) -> Seq<u8> {
    vstd::utf8::encode_utf8(trim(hex))
}

/// Whether a hex text is a usable 32-byte public key.
pub open spec fn session_key_ok(hex: Seq<char>) -> bool {
    hex_ok(key_text(hex)) && hex_decoded(key_text(hex)).len() == 32 && ed25519_key_ok(
        hex_decoded(key_text(hex)),
    )
}

/// Parses a hex session public key.
///
/// Refused with `odd-length hex`, `invalid hex char`, `session pubkey must
/// be 32 bytes` or `invalid Ed25519 session public key`, in that order.
pub fn key_from_hex(hex: &str) -> (r: Result<[u8; 32], String>)
    ensures
        r is Ok <==> session_key_ok(hex@),
        r matches Ok(k) ==> k@ == hex_decoded(key_text(hex@)),
        r matches Err(m) ==> m@ == (if key_text(hex@).len() % 2 == 1 {
            "odd-length hex"@
        } else if !hex_ok(key_text(hex@)) {
            "invalid hex char"@
        } else if hex_decoded(key_text(hex@)).len() != 32 {
            "session pubkey must be 32 bytes"@
        } else {
            "invalid Ed25519 session public key"@
        }),
{
    let bytes = match decode_trimmed(hex) {
        Ok(b) => b,
        Err(_) => {
            let cs = crate::text::chars_of(hex);
            let t = crate::text::trim_chars(cs.as_slice());
            let ts = string_of(t.as_slice());
            if ts.as_str().as_bytes().len() % 2 == 1 {
                return Err(owned("odd-length hex"));
            }
            return Err(owned("invalid hex char"));
        },
    };
    if bytes.len() != 32 {
        return Err(owned("session pubkey must be 32 bytes"));
    }
    let k = to_array32(bytes.as_slice());
    match public_key_error(&k) {
        None => Ok(k),
        Some(_) => Err(owned("invalid Ed25519 session public key")),
    }
}

/// Every setting is given on the command line or by a configuration, and a
/// fixed session key given on the command line parses.
pub open spec fn resolvable(args: CliArgs, cfg: Option<&Config>) -> bool {
    &&& (args.socket is Some || cfg is Some)
    &&& (args.peer_uid is Some || cfg is Some)
    &&& (args.operators is Some || cfg is Some)
    &&& (args.allowlist is Some || cfg is Some)
    &&& (args.bundle_dir is Some || cfg is Some)
    &&& match args.session_pubkey_hex {
        Some(h) => session_key_ok(h@),
        None => args.session_pub_file is Some || cfg is Some,
    }
}

/// The refusal `resolve` gives: the first setting, in the order socket,
/// peer UID, operator trust set, allowlist, bundle directory, session key,
/// that neither the command line nor a configuration gives, or the flag of
/// a fixed session key that does not parse.
pub open spec fn resolve_error(args: CliArgs, cfg: Option<&Config>) -> Seq<char> {
    if args.socket is None && cfg is None {
        missing_message("sockets.exec"@)
    } else if args.peer_uid is None && cfg is None {
        missing_message("sockets.daemon_uid"@)
    } else if args.operators is None && cfg is None {
        missing_message("daemon.trust_store"@)
    } else if args.allowlist is None && cfg is None {
        missing_message("daemon.allowlist"@)
    } else if args.bundle_dir is None && cfg is None {
        missing_message("daemon.bundle_dir"@)
    } else if args.session_pubkey_hex is Some {
        "--session-pubkey-hex"@
    } else {
        missing_message("daemon.session_pub"@)
    }
}

/// Resolves the settings: each command-line override wins over the
/// configuration. A fixed session key given on the command line must parse;
/// otherwise the key is read from a file.
pub fn resolve(args: CliArgs, cfg: Option<&Config>) -> (r: Result<Settings, String>)
    ensures
        r matches Ok(s) ==> {
            &&& s.timeout_secs == args.timeout_secs
            &&& (args.socket matches Some(p) ==> s.socket == p)
            &&& (args.socket is None ==> (cfg matches Some(c) && s.socket@ == c.sockets.exec_socket@))
            &&& (args.peer_uid matches Some(u) ==> s.peer_uid == u)
            &&& (args.peer_uid is None ==> (cfg matches Some(c) && s.peer_uid == c.sockets.daemon_uid))
            &&& (args.operators matches Some(p) ==> s.operators == p)
            &&& (args.operators is None ==> (cfg matches Some(c) && s.operators@ == c.daemon.trust_store@))
            &&& (args.allowlist matches Some(p) ==> s.allowlist == p)
            &&& (args.allowlist is None ==> (cfg matches Some(c) && s.allowlist@ == c.daemon.allowlist@))
            &&& (args.bundle_dir matches Some(p) ==> s.bundle_dir == p)
            &&& (args.bundle_dir is None ==> (cfg matches Some(c) && s.bundle_dir@ == c.daemon.bundle_dir@))
            &&& (args.session_pubkey_hex matches Some(h) ==> (session_key_ok(h@) && (s.session matches SessionSource::Fixed(k) && k@ == hex_decoded(key_text(h@)))))
            &&& (args.session_pubkey_hex is None && args.session_pub_file is Some ==> s.session == SessionSource::File(args.session_pub_file->0))
            &&& (args.session_pubkey_hex is None && args.session_pub_file is None ==> (cfg matches Some(c) && s.session matches SessionSource::File(f) && f@ == c.daemon.session_pub@))
        },
        r is Ok <==> resolvable(args, cfg),
        r matches Err(m) ==> m@ == resolve_error(args, cfg),
{
    let socket = match need(args.socket, match cfg {
        Some(c) => Some(c.sockets.exec_socket.clone()),
        None => None,
    }, "sockets.exec") {
        Ok(v) => v,
        Err(e) => {
            return Err(e);
        },
    };
    let peer_uid = match need(args.peer_uid, match cfg {
        Some(c) => Some(c.sockets.daemon_uid),
        None => None,
    }, "sockets.daemon_uid") {
        Ok(v) => v,
        Err(e) => {
            return Err(e);
        },
    };
    let operators = match need(args.operators, match cfg {
        Some(c) => Some(c.daemon.trust_store.clone()),
        None => None,
    }, "daemon.trust_store") {
        Ok(v) => v,
        Err(e) => {
            return Err(e);
        },
    };
    let allowlist = match need(args.allowlist, match cfg {
        Some(c) => Some(c.daemon.allowlist.clone()),
        None => None,
    }, "daemon.allowlist") {
        Ok(v) => v,
        Err(e) => {
            return Err(e);
        },
    };
    let bundle_dir = match need(args.bundle_dir, match cfg {
        Some(c) => Some(c.daemon.bundle_dir.clone()),
        None => None,
    }, "daemon.bundle_dir") {
        Ok(v) => v,
        Err(e) => {
            return Err(e);
        },
    };
    let session = match &args.session_pubkey_hex {
        Some(hex) => match key_from_hex(hex.as_str()) {
            Ok(k) => SessionSource::Fixed(k),
            Err(_) => {
                return Err(owned("--session-pubkey-hex"));
            },
        },
        None => match need(args.session_pub_file, match cfg {
            Some(c) => Some(c.daemon.session_pub.clone()),
            None => None,
        }, "daemon.session_pub") {
            Ok(f) => SessionSource::File(f),
            Err(e) => {
                return Err(e);
            },
        },
    };
    Ok(Settings { socket, peer_uid, operators, allowlist, bundle_dir, session, timeout_secs: args.timeout_secs })
}

} // verus!
