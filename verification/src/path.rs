//! Where the control socket lives: `$SCROLLWM_CONTROL_SOCK`, else
//! `<data dir>/ScrollWM/control.sock`, with paths held as the bytes the
//! operating system uses for them. The control socket is a Unix-domain
//! socket, so paths are joined as on Unix, with `/`.
use vstd::prelude::*;

use crate::text::chars_of;

verus! {

broadcast use vstd::string::group_string_axioms;

/// Environment override for the control socket path (matches ScrollWM's
/// `SCROLLWM_CONTROL_SOCK`, used by its sandbox mode and by tests).
pub const SOCKET_ENV: &'static str = "SCROLLWM_CONTROL_SOCK";

/// The bytes of an ASCII text.
pub open spec fn ascii_bytes(s: Seq<char>) -> Seq<u8> {
    Seq::new(s.len(), |i: int| s[i] as u8)
}

/// The byte of the path separator `/`.
pub open spec fn separator() -> u8 {
    47u8
}

/// `rel` appended to the path `base` as `Path::join` does on Unix for a
/// relative `rel`: a `/` goes between them unless `base` is empty or already
/// ends with one. Paths are the bytes the operating system uses for them.
pub open spec fn join_path(base: Seq<u8>, rel: Seq<u8>) -> Seq<u8> {
    if base.len() == 0 || base.last() == separator() {
        base + rel
    } else {
        base + seq![separator()] + rel
    }
}

/// The view of an optional path.
pub open spec fn opt_bytes(o: Option<Vec<u8>>) -> Option<Seq<u8>> {
    match o {
        Some(p) => Some(p@),
        None => None,
    }
}

/// The socket path ScrollWM uses: a non-empty override wins; otherwise
/// `ScrollWM/control.sock` under the data directory, which falls back to
/// `Library/Application Support` under the home directory, or under `.` when
/// there is no home directory either. Directories are joined as on Unix.
pub open spec fn resolved_socket_path(
    env_override: Option<Seq<u8>>,
    data_dir: Option<Seq<u8>>,
    home_dir: Option<Seq<u8>>,
) -> Seq<u8> {
    if env_override is Some && env_override->0.len() > 0 {
        env_override->0
    } else {
        let base = match data_dir {
            Some(d) => d,
            None => join_path(
                match home_dir {
                    Some(h) => h,
                    None => ascii_bytes("."@),
                },
                ascii_bytes("Library/Application Support"@),
            ),
        };
        join_path(join_path(base, ascii_bytes("ScrollWM"@)), ascii_bytes("control.sock"@))
    }
}

/// `s` ends with `suffix`.
pub open spec fn ends_with(s: Seq<u8>, suffix: Seq<u8>) -> bool {
    suffix.len() <= s.len() && s.subrange(s.len() - suffix.len(), s.len() as int) == suffix
}

/// Calls `dirs::data_dir` and takes the bytes of the path it gives (on Unix,
/// exactly the bytes of the path). The directory depends on the platform and
/// the environment, so nothing is stated of it.
#[verifier::external_body]
fn data_dir() -> Option<Vec<u8>> {
    match dirs::data_dir() {
        Some(p) => Some(p.into_os_string().into_encoded_bytes()),
        None => None,
    }
}

/// Calls `dirs::home_dir` and takes the bytes of the path it gives (on Unix,
/// exactly the bytes of the path). The directory depends on the platform and
/// the environment, so nothing is stated of it.
#[verifier::external_body]
fn home_dir() -> Option<Vec<u8>> {
    match dirs::home_dir() {
        Some(p) => Some(p.into_os_string().into_encoded_bytes()),
        None => None,
    }
}

/// The bytes of the ASCII text `s`.
fn ascii(s: &str) -> (b: Vec<u8>)
    ensures
        b@ == ascii_bytes(s@),
{
    let cs = chars_of(s);
    let mut b: Vec<u8> = Vec::new();
    for k in 0..cs.len()
        invariant
            b@ == ascii_bytes(cs@.subrange(0, k as int)),
    {
        b.push(cs[k] as u8);
        assert(b@ =~= ascii_bytes(cs@.subrange(0, k + 1)));
    }
    assert(cs@.subrange(0, cs@.len() as int) =~= cs@);
    b
}

/// `rel` appended to the path `base` (see [`join_path`]).
pub fn join(base: &[u8], rel: &[u8]) -> (r: Vec<u8>)
    ensures
        r@ == join_path(base@, rel@),
{
    let mut v: Vec<u8> = Vec::new();
    for k in 0..base.len()
        invariant
            v@ == base@.subrange(0, k as int),
    {
        v.push(base[k]);
        assert(v@ =~= base@.subrange(0, k + 1));
    }
    assert(base@.subrange(0, base@.len() as int) =~= base@);
    let n = base.len();
    if !(n == 0 || base[n - 1] == 47u8) {
        v.push(47u8);
    }
    let ghost start = v@;
    for k in 0..rel.len()
        invariant
            v@ == start + rel@.subrange(0, k as int),
    {
        v.push(rel[k]);
        assert(v@ =~= start + rel@.subrange(0, k + 1));
    }
    assert(rel@.subrange(0, rel@.len() as int) =~= rel@);
    v
}

/// The socket path for the given override, data directory and home directory
/// (see [`resolved_socket_path`]).
pub fn resolve_socket_path(
    env_override: Option<Vec<u8>>,
    data_dir: Option<Vec<u8>>,
    home_dir: Option<Vec<u8>>,
) -> (r: Vec<u8>)
    ensures
        r@ == resolved_socket_path(opt_bytes(env_override), opt_bytes(data_dir), opt_bytes(home_dir)),
{
    if let Some(p) = env_override {
        if p.len() > 0 {
            return p;
        }
    }
    let base = match data_dir {
        Some(d) => d,
        None => {
            let home = match home_dir {
                Some(h) => h,
                None => ascii("."),
            };
            join(home.as_slice(), ascii("Library/Application Support").as_slice())
        },
    };
    let dir = join(base.as_slice(), ascii("ScrollWM").as_slice());
    join(dir.as_slice(), ascii("control.sock").as_slice())
}

/// The socket path ScrollWM uses, given the value of [`SOCKET_ENV`] (when
/// set): the override when it is non-empty, else a path under the
/// platform's data directory ending in `ScrollWM/control.sock`.
pub fn control_socket_path_for(env_override: Option<Vec<u8>>) -> (r: Vec<u8>)
    ensures
        env_override is Some && env_override->0@.len() > 0 ==> r@ == env_override->0@,
        !(env_override is Some && env_override->0@.len() > 0) ==> exists|
            data: Option<Seq<u8>>,
            home: Option<Seq<u8>>,
        | r@ == resolved_socket_path(opt_bytes(env_override), data, home),
{
    if let Some(p) = &env_override {
        if p.len() > 0 {
            return resolve_socket_path(env_override, None, None);
        }
    }
    let data = data_dir();
    if data.is_some() {
        resolve_socket_path(env_override, data, None)
    } else {
        let home = home_dir();
        resolve_socket_path(env_override, data, home)
    }
}

/// Law: without a (non-empty) override, the socket path always ends in
/// `ScrollWM/control.sock`, whatever the directories are.
pub proof fn lemma_default_path_suffix(
    env_override: Option<Seq<u8>>,
    data_dir: Option<Seq<u8>>,
    home_dir: Option<Seq<u8>>,
)
    requires
        !(env_override is Some && env_override->0.len() > 0),
    ensures
        ends_with(
            resolved_socket_path(env_override, data_dir, home_dir),
            ascii_bytes("ScrollWM/control.sock"@),
        ),
{
    reveal_strlit("ScrollWM");
    reveal_strlit("control.sock");
    reveal_strlit("ScrollWM/control.sock");
    let base = match data_dir {
        Some(d) => d,
        None => join_path(
            match home_dir {
                Some(h) => h,
                None => ascii_bytes("."@),
            },
            ascii_bytes("Library/Application Support"@),
        ),
    };
    let name = ascii_bytes("ScrollWM"@);
    let dir = join_path(base, name);
    assert(dir.last() == name.last());
    assert(name.last() != separator());
    let file = ascii_bytes("control.sock"@);
    let r = join_path(dir, file);
    assert(r == dir + seq![separator()] + file);
    let suffix = ascii_bytes("ScrollWM/control.sock"@);
    assert(suffix =~= name + seq![separator()] + file);
    assert(r.subrange(r.len() - suffix.len(), r.len() as int) =~= suffix);
}

/// Law: a non-empty override is the socket path, whatever the directories are.
pub proof fn lemma_override_wins(
    env_override: Seq<u8>,
    data_dir: Option<Seq<u8>>,
    home_dir: Option<Seq<u8>>,
)
    requires
        env_override.len() > 0,
    ensures
        resolved_socket_path(Some(env_override), data_dir, home_dir) == env_override,
{
}

/// `dir` followed by a `/` unless it is empty or already ends with one.
pub open spec fn as_directory(dir: Seq<u8>) -> Seq<u8> {
    if dir.len() == 0 || dir.last() == 47u8 {
        dir
    } else {
        dir.push(47u8)
    }
}

/// Law: a present data directory is the base of the socket path: without a
/// (non-empty) override the path is exactly that directory followed by
/// `ScrollWM/control.sock`, whatever the home directory is.
pub proof fn lemma_data_dir_is_base(
    env_override: Option<Seq<u8>>,
    data_dir: Seq<u8>,
    home_dir: Option<Seq<u8>>,
)
    requires
        !(env_override is Some && env_override->0.len() > 0),
    ensures
        resolved_socket_path(env_override, Some(data_dir), home_dir) == as_directory(data_dir)
            + ascii_bytes("ScrollWM/control.sock"@),
{
    reveal_strlit("ScrollWM");
    reveal_strlit("control.sock");
    reveal_strlit("ScrollWM/control.sock");
    let name = ascii_bytes("ScrollWM"@);
    let file = ascii_bytes("control.sock"@);
    let dir = join_path(data_dir, name);
    assert(dir =~= as_directory(data_dir) + name);
    assert(dir.last() == name.last());
    assert(ascii_bytes("ScrollWM/control.sock"@) =~= name + seq![separator()] + file);
    assert(join_path(dir, file) =~= as_directory(data_dir) + ascii_bytes(
        "ScrollWM/control.sock"@,
    ));
}

/// Law: without a data directory the socket path is the home directory (or
/// `.` without one) followed by
/// `Library/Application Support/ScrollWM/control.sock`.
pub proof fn lemma_home_dir_fallback(env_override: Option<Seq<u8>>, home_dir: Option<Seq<u8>>)
    requires
        !(env_override is Some && env_override->0.len() > 0),
    ensures
        resolved_socket_path(env_override, None, home_dir) == as_directory(
            match home_dir {
                Some(h) => h,
                None => ascii_bytes("."@),
            },
        ) + ascii_bytes("Library/Application Support/ScrollWM/control.sock"@),
{
    reveal_strlit("ScrollWM");
    reveal_strlit("control.sock");
    reveal_strlit("Library/Application Support");
    reveal_strlit("Library/Application Support/ScrollWM/control.sock");
    let home = match home_dir {
        Some(h) => h,
        None => ascii_bytes("."@),
    };
    let app = ascii_bytes("Library/Application Support"@);
    let name = ascii_bytes("ScrollWM"@);
    let file = ascii_bytes("control.sock"@);
    let base = join_path(home, app);
    assert(base =~= as_directory(home) + app);
    assert(base.last() == app.last());
    let dir = join_path(base, name);
    assert(dir =~= base + seq![separator()] + name);
    assert(dir.last() == name.last());
    assert(ascii_bytes("Library/Application Support/ScrollWM/control.sock"@) =~= app + seq![
        separator(),
    ] + name + seq![separator()] + file);
    assert(join_path(dir, file) =~= as_directory(home) + ascii_bytes(
        "Library/Application Support/ScrollWM/control.sock"@,
    ));
}

} // verus!
