//! Application-wide configuration, built from the environment's values with
//! defaults where a variable is unset.

use vstd::prelude::*;
use crate::text::{parse_u16, parse_u16_spec, split_char, split_on, to_string, trim, trim_ws};

verus! {

broadcast use vstd::string::group_string_axioms;

/// Application-wide configuration.
#[derive(Debug)]
pub struct AppConfig {
    /// PostgreSQL connection URL.
    pub database_url: String,
    /// DID of this AppView service, e.g. `did:web:appview.know-me.tools`.
    pub service_did: String,
    /// Public hostname of this service, e.g. `appview.know-me.tools`.
    pub service_hostname: String,
    /// Relay WebSocket URLs to subscribe to.
    pub relay_hosts: Vec<String>,
    /// Port on which Prometheus metrics are exposed (default: 9091).
    pub metrics_port: u16,
    /// LiveKit server URL.
    pub livekit_url: String,
    /// LiveKit API key.
    pub livekit_api_key: String,
    /// LiveKit API secret.
    pub livekit_api_secret: String,
    /// Rust log filter string, e.g. `"info,appview_api=debug"`.
    pub rust_log: String,
}

/// The relay list of a comma-separated value: the non-empty pieces, each
/// trimmed (a piece of spaces is kept, as an empty host).
pub open spec fn relay_hosts_of(pieces: Seq<Seq<char>>) -> Seq<Seq<char>>
    decreases pieces.len(),
{
    if pieces.len() == 0 {
        Seq::empty()
    } else {
        let p = relay_hosts_of(pieces.drop_last());
        if pieces.last().len() == 0 {
            p
        } else {
            p.push(trim_ws(pieces.last()))
        }
    }
}

/// The value of a variable, or its default.
pub open spec fn or_default(v: Option<String>, d: Seq<char>) -> Seq<char> {
    match v {
        Some(s) => s@,
        None => d,
    }
}

fn value_or(v: Option<String>, d: &str) -> (r: String)
    ensures
        r@ == or_default(v, d@),
{
    match v {
        Some(s) => s,
        None => to_string(d),
    }
}

fn relay_list(s: &str) -> (r: Vec<String>)
    ensures
        r@.map_values(|h: String| h@) == relay_hosts_of(split_on(s@, ',')),
{
    let pieces = split_char(s, ',');
    let ghost pv = pieces@.map_values(|p: String| p@);
    let mut out: Vec<String> = Vec::new();
    let mut i: usize = 0;
    proof {
        assert(pv.take(0) =~= Seq::<Seq<char>>::empty());
        assert(out@.map_values(|h: String| h@) =~= Seq::<Seq<char>>::empty());
    }
    while i < pieces.len()
        invariant
            i <= pieces@.len(),
            pv == pieces@.map_values(|p: String| p@),
            out@.map_values(|h: String| h@) == relay_hosts_of(pv.take(i as int)),
        decreases pieces@.len() - i,
    {
        let ghost before = out@.map_values(|h: String| h@);
        proof {
            assert(pv.take(i + 1).drop_last() =~= pv.take(i as int));
            assert(pv.take(i + 1).last() == pieces@[i as int]@);
        }
        if pieces[i].as_str().as_bytes().len() > 0 {
            proof {
                if pieces@[i as int]@.len() == 0 {
                    assert(vstd::utf8::encode_utf8(pieces@[i as int]@) =~= Seq::<u8>::empty());
                }
            }
            out.push(to_string(trim(pieces[i].as_str())));
            assert(out@.map_values(|h: String| h@) =~= before.push(trim_ws(pieces@[i as int]@)));
        } else {
            proof {
                if pieces@[i as int]@.len() > 0 {
                    vstd::utf8::encode_utf8_first_scalar(pieces@[i as int]@);
                }
            }
        }
        i = i + 1;
    }
    proof {
        assert(pv.take(pv.len() as int) =~= pv);
    }
    out
}

/// The relay list the server starts with: the pieces of a comma-separated
/// value, each trimmed, without those that trim to nothing.
pub open spec fn startup_relays_of(pieces: Seq<Seq<char>>) -> Seq<Seq<char>>
    decreases pieces.len(),
{
    if pieces.len() == 0 {
        Seq::empty()
    } else {
        let p = startup_relays_of(pieces.drop_last());
        let t = trim_ws(pieces.last());
        if t.len() == 0 {
            p
        } else {
            p.push(t)
        }
    }
}

/// The relays the server connects to, from the value of `RELAY_HOSTS`
/// (`wss://bsky.network` when unset): each comma-separated piece trimmed,
/// empty ones dropped.
pub fn startup_relay_hosts(raw: Option<String>) -> (r: Vec<String>)
    ensures
        r@.map_values(|h: String| h@) == startup_relays_of(
            split_on(or_default(raw, "wss://bsky.network"@), ','),
        ),
{
    let v = value_or(raw, "wss://bsky.network");
    let pieces = split_char(v.as_str(), ',');
    let ghost pv = pieces@.map_values(|p: String| p@);
    let mut out: Vec<String> = Vec::new();
    let mut i: usize = 0;
    proof {
        assert(pv.take(0) =~= Seq::<Seq<char>>::empty());
        assert(out@.map_values(|h: String| h@) =~= Seq::<Seq<char>>::empty());
    }
    while i < pieces.len()
        invariant
            i <= pieces@.len(),
            pv == pieces@.map_values(|p: String| p@),
            out@.map_values(|h: String| h@) == startup_relays_of(pv.take(i as int)),
        decreases pieces@.len() - i,
    {
        let ghost before = out@.map_values(|h: String| h@);
        proof {
            assert(pv.take(i + 1).drop_last() =~= pv.take(i as int));
            assert(pv.take(i + 1).last() == pieces@[i as int]@);
        }
        let t = trim(pieces[i].as_str());
        if t.as_bytes().len() > 0 {
            proof {
                if t@.len() == 0 {
                    assert(vstd::utf8::encode_utf8(t@) =~= Seq::<u8>::empty());
                }
            }
            out.push(to_string(t));
            assert(out@.map_values(|h: String| h@) =~= before.push(trim_ws(pieces@[i as int]@)));
        } else {
            proof {
                if t@.len() > 0 {
                    vstd::utf8::encode_utf8_first_scalar(t@);
                }
            }
        }
        i = i + 1;
    }
    proof {
        assert(pv.take(pv.len() as int) =~= pv);
    }
    out
}

impl AppConfig {
    /// The configuration from the values of `DATABASE_URL`, `SERVICE_DID`,
    /// `SERVICE_HOSTNAME`, `RELAY_HOSTS`, `METRICS_PORT`, `LIVEKIT_URL`,
    /// `LIVEKIT_API_KEY`, `LIVEKIT_API_SECRET` and `RUST_LOG`.
    pub fn from_vars(
        database_url: Option<String>,
        service_did: Option<String>,
        service_hostname: Option<String>,
        relay_hosts: Option<String>,
        metrics_port: Option<String>,
        livekit_url: Option<String>,
        livekit_api_key: Option<String>,
        livekit_api_secret: Option<String>,
        rust_log: Option<String>,
    ) -> (r: AppConfig)
        ensures
            r.database_url@ == or_default(database_url, "postgres://localhost/appview"@),
            r.service_did@ == or_default(service_did, "did:web:appview.know-me.tools"@),
            r.service_hostname@ == or_default(service_hostname, "appview.know-me.tools"@),
            r.relay_hosts@.map_values(|h: String| h@) == relay_hosts_of(
                split_on(or_default(relay_hosts, "wss://bsky.network"@), ','),
            ),
            r.metrics_port == match metrics_port {
                Some(p) => match parse_u16_spec(p@) {
                    Some(n) => n,
                    None => 9091u16,
                },
                None => 9091u16,
            },
            r.livekit_url@ == or_default(livekit_url, "wss://livekit.know-me.tools"@),
            r.livekit_api_key@ == or_default(livekit_api_key, Seq::empty()),
            r.livekit_api_secret@ == or_default(livekit_api_secret, Seq::empty()),
            r.rust_log@ == or_default(rust_log, "info"@),
    {
        let relay_src = value_or(relay_hosts, "wss://bsky.network");
        let relays = relay_list(relay_src.as_str());
        let port: u16 = match &metrics_port {
            Some(p) => match parse_u16(p.as_str()) {
                Some(n) => n,
                None => 9091,
            },
            None => 9091,
        };
        proof {
            reveal_strlit("");
        }
        AppConfig {
            database_url: value_or(database_url, "postgres://localhost/appview"),
            service_did: value_or(service_did, "did:web:appview.know-me.tools"),
            service_hostname: value_or(service_hostname, "appview.know-me.tools"),
            relay_hosts: relays,
            metrics_port: port,
            livekit_url: value_or(livekit_url, "wss://livekit.know-me.tools"),
            livekit_api_key: value_or(livekit_api_key, ""),
            livekit_api_secret: value_or(livekit_api_secret, ""),
            rust_log: value_or(rust_log, "info"),
        }
    }
}

} // verus!
