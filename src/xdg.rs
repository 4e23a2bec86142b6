//! XDG base directories for the tool: state (daemon records), data (OAuth
//! tokens) and cache. The environment variables are read by the caller and
//! handed in; the platform directories come from the `dirs` crate.
use vstd::prelude::*;
use crate::paths::{join, join_spec, opt_string_view, opt_view};

verus! {

/// Relies on dirs::home_dir: the user's home directory, if the platform
/// reports one. Nothing is promised about its value.
#[verifier::external_body]
fn platform_home_dir() -> (r: Option<String>) {
    dirs::home_dir().and_then(|p| p.into_os_string().into_string().ok())
}

/// Relies on dirs::data_dir: the platform's user data directory, if any.
/// Nothing is promised about its value.
#[verifier::external_body]
fn platform_data_dir() -> (r: Option<String>) {
    dirs::data_dir().and_then(|p| p.into_os_string().into_string().ok())
}

/// Relies on dirs::cache_dir: the platform's user cache directory, if any.
/// Nothing is promised about its value.
#[verifier::external_body]
fn platform_cache_dir() -> (r: Option<String>) {
    dirs::cache_dir().and_then(|p| p.into_os_string().into_string().ok())
}

/// The state directory: `$XDG_STATE_HOME/plasma`, else
/// `$HOME/.local/state/plasma`, else `.plasma-state`.
pub open spec fn state_dir_spec(xdg: Option<Seq<char>>, home: Option<Seq<char>>) -> Seq<char> {
    match xdg {
        Some(x) => join_spec(x, "plasma"@),
        None => match home {
            Some(h) => join_spec(join_spec(join_spec(h, ".local"@), "state"@), "plasma"@),
            None => ".plasma-state"@,
        },
    }
}

/// The data directory: `$XDG_DATA_HOME/plasma`, else the platform data
/// directory joined with `plasma`, else `$HOME/.local/share/plasma`, else
/// `.plasma-data`.
pub open spec fn data_dir_spec(
    xdg: Option<Seq<char>>,
    platform: Option<Seq<char>>,
    home: Option<Seq<char>>,
) -> Seq<char> {
    match xdg {
        Some(x) => join_spec(x, "plasma"@),
        None => match platform {
            Some(d) => join_spec(d, "plasma"@),
            None => match home {
                Some(h) => join_spec(join_spec(join_spec(h, ".local"@), "share"@), "plasma"@),
                None => ".plasma-data"@,
            },
        },
    }
}

/// The cache directory: `$XDG_CACHE_HOME/plasma`, else the platform cache
/// directory joined with `plasma`, else `$HOME/.cache/plasma`, else
/// `.plasma-cache`.
pub open spec fn cache_dir_spec(
    xdg: Option<Seq<char>>,
    platform: Option<Seq<char>>,
    home: Option<Seq<char>>,
) -> Seq<char> {
    match xdg {
        Some(x) => join_spec(x, "plasma"@),
        None => match platform {
            Some(c) => join_spec(c, "plasma"@),
            None => match home {
                Some(h) => join_spec(join_spec(h, ".cache"@), "plasma"@),
                None => ".plasma-cache"@,
            },
        },
    }
}

/// The default cache directory: the platform cache directory joined with
/// `plasma`, else `.plasma/cache`.
pub open spec fn default_cache_dir_spec(platform: Option<Seq<char>>) -> Seq<char> {
    match platform {
        Some(c) => join_spec(c, "plasma"@),
        None => ".plasma/cache"@,
    }
}

/// The state directory from the value of `XDG_STATE_HOME` and the home
/// directory.
pub fn state_dir_from(xdg_state_home: Option<&str>, home: Option<&str>) -> (r: String)
    ensures
        r@ == state_dir_spec(opt_view(xdg_state_home), opt_view(home)),
{
    match xdg_state_home {
        Some(x) => join(x, "plasma"),
        None => match home {
            Some(h) => {
                let a = join(h, ".local");
                let b = join(a.as_str(), "state");
                join(b.as_str(), "plasma")
            },
            None => String::from_str(".plasma-state"),
        },
    }
}

/// The state directory (daemon records live below it). `xdg_state_home` is
/// the value of `XDG_STATE_HOME`; without it the home directory is asked for.
pub fn state_dir(xdg_state_home: Option<String>) -> (r: String)
    ensures
        exists|home: Option<Seq<char>>|
            r@ == state_dir_spec(opt_string_view(xdg_state_home), home),
        xdg_state_home is Some ==> r@ == state_dir_spec(opt_string_view(xdg_state_home), None),
{
    match xdg_state_home {
        Some(x) => {
            let r = state_dir_from(Some(x.as_str()), None);
            assert(r@ == state_dir_spec(opt_string_view(xdg_state_home), None));
            r
        },
        None => {
            let home = platform_home_dir();
            let r = match &home {
                Some(h) => state_dir_from(None, Some(h.as_str())),
                None => state_dir_from(None, None),
            };
            assert(r@ == state_dir_spec(None, opt_string_view(home)));
            r
        },
    }
}

/// The data directory from the value of `XDG_DATA_HOME`, the platform data
/// directory and the home directory.
pub fn data_dir_from(xdg_data_home: Option<&str>, platform: Option<&str>, home: Option<&str>) -> (r:
    String)
    ensures
        r@ == data_dir_spec(opt_view(xdg_data_home), opt_view(platform), opt_view(home)),
{
    match xdg_data_home {
        Some(x) => join(x, "plasma"),
        None => match platform {
            Some(d) => join(d, "plasma"),
            None => match home {
                Some(h) => {
                    let a = join(h, ".local");
                    let b = join(a.as_str(), "share");
                    join(b.as_str(), "plasma")
                },
                None => String::from_str(".plasma-data"),
            },
        },
    }
}

/// The data directory (OAuth tokens live below it). `xdg_data_home` is the
/// value of `XDG_DATA_HOME`; without it the platform is asked.
pub fn data_dir(xdg_data_home: Option<String>) -> (r: String)
    ensures
        exists|p: Option<Seq<char>>, h: Option<Seq<char>>|
            r@ == data_dir_spec(opt_string_view(xdg_data_home), p, h),
        xdg_data_home is Some ==> r@ == data_dir_spec(opt_string_view(xdg_data_home), None, None),
{
    match xdg_data_home {
        Some(x) => {
            let r = data_dir_from(Some(x.as_str()), None, None);
            assert(r@ == data_dir_spec(opt_string_view(xdg_data_home), None, None));
            r
        },
        None => {
            let platform = platform_data_dir();
            match &platform {
                Some(d) => {
                    let r = data_dir_from(None, Some(d.as_str()), None);
                    assert(r@ == data_dir_spec(None, opt_string_view(platform), None));
                    r
                },
                None => {
                    let home = platform_home_dir();
                    let r = match &home {
                        Some(h) => data_dir_from(None, None, Some(h.as_str())),
                        None => data_dir_from(None, None, None),
                    };
                    assert(r@ == data_dir_spec(None, None, opt_string_view(home)));
                    r
                },
            }
        },
    }
}

/// The cache directory from the value of `XDG_CACHE_HOME`, the platform
/// cache directory and the home directory.
pub fn cache_dir_from(xdg_cache_home: Option<&str>, platform: Option<&str>, home: Option<&str>) -> (r:
    String)
    ensures
        r@ == cache_dir_spec(opt_view(xdg_cache_home), opt_view(platform), opt_view(home)),
{
    match xdg_cache_home {
        Some(x) => join(x, "plasma"),
        None => match platform {
            Some(c) => join(c, "plasma"),
            None => match home {
                Some(h) => {
                    let a = join(h, ".cache");
                    join(a.as_str(), "plasma")
                },
                None => String::from_str(".plasma-cache"),
            },
        },
    }
}

/// The cache directory. `xdg_cache_home` is the value of `XDG_CACHE_HOME`;
/// without it the platform is asked.
pub fn cache_dir(xdg_cache_home: Option<String>) -> (r: String)
    ensures
        exists|p: Option<Seq<char>>, h: Option<Seq<char>>|
            r@ == cache_dir_spec(opt_string_view(xdg_cache_home), p, h),
        xdg_cache_home is Some ==> r@ == cache_dir_spec(opt_string_view(xdg_cache_home), None, None),
{
    match xdg_cache_home {
        Some(x) => {
            let r = cache_dir_from(Some(x.as_str()), None, None);
            assert(r@ == cache_dir_spec(opt_string_view(xdg_cache_home), None, None));
            r
        },
        None => {
            let platform = platform_cache_dir();
            match &platform {
                Some(c) => {
                    let r = cache_dir_from(None, Some(c.as_str()), None);
                    assert(r@ == cache_dir_spec(None, opt_string_view(platform), None));
                    r
                },
                None => {
                    let home = platform_home_dir();
                    let r = match &home {
                        Some(h) => cache_dir_from(None, None, Some(h.as_str())),
                        None => cache_dir_from(None, None, None),
                    };
                    assert(r@ == cache_dir_spec(None, None, opt_string_view(home)));
                    r
                },
            }
        },
    }
}

/// The default cache directory from the platform cache directory.
pub fn default_cache_dir_from(platform: Option<&str>) -> (r: String)
    ensures
        r@ == default_cache_dir_spec(opt_view(platform)),
{
    match platform {
        Some(c) => join(c, "plasma"),
        None => String::from_str(".plasma/cache"),
    }
}

/// The default cache directory, from the platform cache directory.
pub fn default_cache_dir() -> (r: String)
    ensures
        exists|p: Option<Seq<char>>| r@ == default_cache_dir_spec(p),
{
    let platform = platform_cache_dir();
    let r = match &platform {
        Some(c) => default_cache_dir_from(Some(c.as_str())),
        None => default_cache_dir_from(None),
    };
    assert(r@ == default_cache_dir_spec(opt_string_view(platform)));
    r
}

/// The directory of daemon records: the state directory joined with
/// `daemons`.
pub fn daemon_state_dir(xdg_state_home: Option<String>) -> (r: String)
    ensures
        exists|home: Option<Seq<char>>|
            r@ == join_spec(state_dir_spec(opt_string_view(xdg_state_home), home), "daemons"@),
        xdg_state_home is Some ==> r@ == join_spec(
            state_dir_spec(opt_string_view(xdg_state_home), None),
            "daemons"@,
        ),
{
    let s = state_dir(xdg_state_home);
    join(s.as_str(), "daemons")
}

/// The directory of file-based OAuth tokens: the data directory joined with
/// `oauth-tokens`.
pub fn oauth_tokens_dir(xdg_data_home: Option<String>) -> (r: String)
    ensures
        exists|p: Option<Seq<char>>, h: Option<Seq<char>>|
            r@ == join_spec(data_dir_spec(opt_string_view(xdg_data_home), p, h), "oauth-tokens"@),
        xdg_data_home is Some ==> r@ == join_spec(
            data_dir_spec(opt_string_view(xdg_data_home), None, None),
            "oauth-tokens"@,
        ),
{
    let d = data_dir(xdg_data_home);
    join(d.as_str(), "oauth-tokens")
}

} // verus!
