//! Configuration values and command-line selection of the configuration
//! file.
//!
//! The relay core receives already-validated values; reading and decoding
//! the JSON configuration file is the front end's job. These types carry
//! the validated fields, and [`parse_config_arg`] picks the configuration
//! file path out of the command line.

use vstd::prelude::*;

verus! {

use vstd::slice::slice_index_get;
use vstd::string::StringExecFns;

/// The client's configuration: where to connect, and whether and where to
/// log traffic.
pub struct ClientConfig {
    /// The server's address, as `host:port`.
    pub server_address: String,
    /// The path of the traffic log file.
    pub logfile: String,
    /// Whether traffic is tee'd to the log file at all.
    pub enable_logging: bool,
}

/// The server's configuration: the engine to spawn and the address to
/// listen on.
pub struct ServerConfig {
    /// The path of the engine executable to spawn per connection.
    pub engine: String,
    /// The address to bind, as `host:port`.
    pub bind_address: String,
}

/// The value following the first `--config` flag that has one, scanning the
/// arguments from position `i` on.
pub open spec fn config_arg_from(args: Seq<Seq<char>>, i: int) -> Option<Seq<char>>
    decreases args.len() - i,
{
    if i < 0 || i >= args.len() {
        None
    } else if args[i] == "--config"@ && i + 1 < args.len() {
        Some(args[i + 1])
    } else {
        config_arg_from(args, i + 1)
    }
}

/// The configuration file path named on the command line, if any.
pub open spec fn config_arg_spec(args: Seq<Seq<char>>) -> Option<Seq<char>> {
    config_arg_from(args, 0)
}

/// Scan the command line for `--config <path>` and return the path that
/// follows the first such flag, or `None` when no flag has a value after
/// it.
pub fn parse_config_arg(args: &[String]) -> (r: Option<String>)
    ensures
        match r {
            Some(v) => config_arg_spec(args.deep_view()) == Some(v@),
            None => config_arg_spec(args.deep_view()) is None,
        },
{
    let ghost dv = args.deep_view();
    let flag = String::from_str("--config");
    let mut i: usize = 0;
    while i < args.len()
        invariant
            0 <= i <= args.len(),
            dv == args.deep_view(),
            dv.len() == args@.len(),
            flag@ == "--config"@,
            config_arg_from(dv, 0) == config_arg_from(dv, i as int),
        decreases args.len() - i,
    {
        proof {
            assert(dv[i as int] == args@[i as int]@);
        }
        let cur = slice_index_get(args, i);
        if cur.eq(&flag) && i + 1 < args.len() {
            proof {
                assert(dv[i as int + 1] == args@[i as int + 1]@);
            }
            let value = slice_index_get(args, i + 1);
            return Some(value.clone());
        }
        i = i + 1;
    }
    None
}

} // verus!
