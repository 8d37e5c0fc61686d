//! Where the daemon's socket, database and configuration live, resolved
//! from the environment the program was started in.

use vstd::prelude::*;
use vstd::string::*;
use crate::text::{decimal, push_decimal};

verus! {

/// `base` extended by the relative component `comp`, with a '/' between
/// them unless `base` is empty or already ends in one.
pub open spec fn path_join(base: Seq<char>, comp: Seq<char>) -> Seq<char> {
    if base.len() == 0 || base.last() == '/' {
        base + comp
    } else {
        base + seq!['/'] + comp
    }
}

/// Appends the relative component `comp` to the path in `out`.
pub fn push_path_component(out: &mut String, comp: &str)
    ensures
        final(out)@ == path_join(old(out)@, comp@),
{
    let chars = crate::text::chars_of(out.as_str());
    if chars.len() == 0 || chars[chars.len() - 1] == '/' {
        out.append(comp);
    } else {
        proof { reveal_strlit("/"); }
        out.append("/");
        out.append(comp);
    }
    assert(out@ =~= path_join(old(out)@, comp@));
}

/// The socket path: `USAGE_METER_SOCKET` when set, else
/// `usage-meter.sock` in `XDG_RUNTIME_DIR` when set, else a per-user
/// file in /tmp.
pub open spec fn socket_path_spec(socket_env: Option<Seq<char>>, runtime_dir: Option<Seq<char>>, uid: u32) -> Seq<char> {
    match socket_env {
        Some(p) => p,
        None => match runtime_dir {
            Some(d) => path_join(d, "usage-meter.sock"@),
            None => "/tmp/usage-meter-"@ + decimal(uid as nat) + ".sock"@,
        },
    }
}

/// The database path: `usage-meter/usage.db` under `XDG_DATA_HOME` when
/// set, else under `~/.local/share`, else under /tmp.
pub open spec fn db_path_spec(data_home: Option<Seq<char>>, home: Option<Seq<char>>) -> Seq<char> {
    match data_home {
        Some(d) => path_join(path_join(d, "usage-meter"@), "usage.db"@),
        None => match home {
            Some(h) => path_join(
                path_join(path_join(path_join(h, ".local"@), "share"@), "usage-meter"@),
                "usage.db"@,
            ),
            None => "/tmp/usage-meter/usage.db"@,
        },
    }
}

/// The configuration path: `~/.config/usage-meter/config.toml`, or under
/// /tmp when there is no home directory.
pub open spec fn config_path_spec(home: Option<Seq<char>>) -> Seq<char> {
    match home {
        Some(h) => path_join(path_join(path_join(h, ".config"@), "usage-meter"@), "config.toml"@),
        None => "/tmp/usage-meter/config.toml"@,
    }
}

/// The view of an optional string slice.
pub open spec fn opt_view(o: Option<&str>) -> Option<Seq<char>> {
    match o {
        Some(s) => Some(s@),
        None => None,
    }
}

/// Resolves the socket path from the values of `USAGE_METER_SOCKET` and
/// `XDG_RUNTIME_DIR` and the user id.
pub fn socket_path_from(socket_env: Option<&str>, runtime_dir: Option<&str>, uid: u32) -> (r: String)
    ensures
        r@ == socket_path_spec(opt_view(socket_env), opt_view(runtime_dir), uid),
{
    match socket_env {
        Some(p) => String::from_str(p),
        None => match runtime_dir {
            Some(d) => {
                let mut out = String::from_str(d);
                push_path_component(&mut out, "usage-meter.sock");
                out
            },
            None => {
                let mut out = String::from_str("/tmp/usage-meter-");
                push_decimal(&mut out, uid as u64);
                out.append(".sock");
                assert(out@ =~= socket_path_spec(opt_view(socket_env), opt_view(runtime_dir), uid));
                out
            },
        },
    }
}

/// Resolves the database path from the values of `XDG_DATA_HOME` and
/// `HOME`.
pub fn db_path_from(data_home: Option<&str>, home: Option<&str>) -> (r: String)
    ensures
        r@ == db_path_spec(opt_view(data_home), opt_view(home)),
{
    match data_home {
        Some(d) => {
            let mut out = String::from_str(d);
            push_path_component(&mut out, "usage-meter");
            push_path_component(&mut out, "usage.db");
            out
        },
        None => match home {
            Some(h) => {
                let mut out = String::from_str(h);
                push_path_component(&mut out, ".local");
                push_path_component(&mut out, "share");
                push_path_component(&mut out, "usage-meter");
                push_path_component(&mut out, "usage.db");
                out
            },
            None => String::from_str("/tmp/usage-meter/usage.db"),
        },
    }
}

/// Resolves the configuration path from the value of `HOME`.
pub fn config_path_from(home: Option<&str>) -> (r: String)
    ensures
        r@ == config_path_spec(opt_view(home)),
{
    match home {
        Some(h) => {
            let mut out = String::from_str(h);
            push_path_component(&mut out, ".config");
            push_path_component(&mut out, "usage-meter");
            push_path_component(&mut out, "config.toml");
            out
        },
        None => String::from_str("/tmp/usage-meter/config.toml"),
    }
}

/// Whether `s` ends with `t`.
pub open spec fn ends_with(s: Seq<char>, t: Seq<char>) -> bool {
    t.len() <= s.len() && s.subrange(s.len() - t.len(), s.len() as int) == t
}

/// A joined path ends with the component joined last.
pub proof fn lemma_join_ends_with(base: Seq<char>, comp: Seq<char>)
    ensures
        ends_with(path_join(base, comp), comp),
{
    let j = path_join(base, comp);
    assert(j.subrange(j.len() - comp.len(), j.len() as int) =~= comp);
}

/// The database always lives in a file named `usage.db`, and the
/// configuration in one named `config.toml`, wherever the environment
/// points.
pub proof fn law_data_file_names(dir: Option<Seq<char>>, home: Option<Seq<char>>)
    ensures
        ends_with(db_path_spec(dir, home), "usage.db"@),
        ends_with(config_path_spec(home), "config.toml"@),
{
    match home {
        Some(h) => {
            lemma_join_ends_with(
                path_join(path_join(h, ".config"@), "usage-meter"@),
                "config.toml"@,
            );
        },
        None => {
            let b = "/tmp/usage-meter/config.toml"@;
            reveal_strlit("/tmp/usage-meter/config.toml");
            reveal_strlit("config.toml");
            assert(b.subrange(b.len() - 11, b.len() as int) =~= "config.toml"@);
        },
    }
    match dir {
        Some(d) => {
            lemma_join_ends_with(path_join(d, "usage-meter"@), "usage.db"@);
        },
        None => match home {
            Some(h) => {
                lemma_join_ends_with(
                    path_join(path_join(path_join(h, ".local"@), "share"@), "usage-meter"@),
                    "usage.db"@,
                );
            },
            None => {
                let a = "/tmp/usage-meter/usage.db"@;
                reveal_strlit("/tmp/usage-meter/usage.db");
                reveal_strlit("usage.db");
                assert(a.subrange(a.len() - 8, a.len() as int) =~= "usage.db"@);
            },
        },
    }
}

/// An explicitly configured socket path is used exactly as given.
pub proof fn law_socket_override(p: Seq<char>, runtime_dir: Option<Seq<char>>, uid: u32)
    ensures
        socket_path_spec(Some(p), runtime_dir, uid) == p,
{
}

} // verus!
