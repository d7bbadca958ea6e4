//! The decisions of the local store: the database URL made from a path, the
//! default server address, and the order given to the next stored message.
use vstd::prelude::*;
use crate::text::{chars_of, has_prefix, push_str, string_from_range};

verus! {

/// `s` with every leading copy of `p` taken off (`str::trim_start_matches`).
pub open spec fn strip_leading(s: Seq<char>, p: Seq<char>) -> Seq<char>
    decreases s.len(),
{
    if p.len() > 0 && has_prefix(s, p) {
        strip_leading(s.skip(p.len() as int), p)
    } else {
        s
    }
}

/// The SQLite URL of a database path: the path without any leading
/// `sqlite://`, between `sqlite://` and `?mode=rwc`.
pub open spec fn sqlite_url_of(path: Seq<char>) -> Seq<char> {
    "sqlite://"@ + strip_leading(path, "sqlite://"@) + "?mode=rwc"@
}

/// The address used when none is stored.
pub open spec fn default_server_address() -> Seq<char> {
    "ws://127.0.0.1:3000/ws"@
}

fn has_prefix_at(v: &Vec<char>, i: usize, p: &Vec<char>) -> (r: bool)
    requires
        i <= v.len(),
    ensures
        r == has_prefix(v@.skip(i as int), p@),
{
    if p.len() > v.len() - i {
        return false;
    }
    let mut k: usize = 0;
    while k < p.len()
        invariant
            i + p.len() <= v.len(),
            k <= p.len(),
            forall|j: int| 0 <= j < k ==> v@[i + j] == p@[j],
        decreases p.len() - k,
    {
        if v[i + k] != p[k] {
            assert(v@.skip(i as int).take(p@.len() as int)[k as int] != p@[k as int]);
            return false;
        }
        k = k + 1;
    }
    assert(v@.skip(i as int).take(p@.len() as int) =~= p@);
    true
}

/// The URL under which the database at `db_path` is opened (created when
/// missing).
pub fn sqlite_url(db_path: &str) -> (url: String)
    ensures
        url@ == sqlite_url_of(db_path@),
{
    proof {
        reveal_strlit("sqlite://");
        reveal_strlit("?mode=rwc");
    }
    let v = chars_of(db_path);
    let p = chars_of("sqlite://");
    let mut i: usize = 0;
    assert(db_path@.skip(0) =~= db_path@);
    while i <= v.len() && has_prefix_at(&v, i, &p)
        invariant
            v@ == db_path@,
            p@ == "sqlite://"@,
            p@.len() == 9,
            i <= v.len(),
            strip_leading(db_path@, p@) == strip_leading(db_path@.skip(i as int), p@),
        decreases v.len() - i,
    {
        proof {
            assert(db_path@.skip(i as int).skip(p@.len() as int) =~= db_path@.skip(i + p@.len()));
        }
        i = i + p.len();
    }
    assert(strip_leading(db_path@.skip(i as int), p@) == db_path@.skip(i as int));
    let rest = string_from_range(&v, i, v.len());
    assert(rest@ =~= db_path@.skip(i as int));
    let mut url = String::new();
    push_str(&mut url, "sqlite://");
    push_str(&mut url, rest.as_str());
    push_str(&mut url, "?mode=rwc");
    assert(Seq::<char>::empty() + "sqlite://"@ =~= "sqlite://"@);
    url
}

/// The stored server address, or the default one.
pub fn address_or_default(saved: Option<String>) -> (addr: String)
    ensures
        match saved {
            Some(a) => addr == a,
            None => addr@ == default_server_address(),
        },
{
    match saved {
        Some(a) => a,
        None => {
            proof { reveal_strlit("ws://127.0.0.1:3000/ws"); }
            "ws://127.0.0.1:3000/ws".to_owned()
        },
    }
}

/// The order of the next stored message: one past the largest order stored,
/// or 1 when none is.
pub fn next_local_order(max: Option<i64>) -> (n: i64)
    requires
        match max {
            Some(m) => m < i64::MAX,
            None => true,
        },
    ensures
        n == match max {
            Some(m) => m + 1,
            None => 1,
        },
{
    match max {
        Some(m) => m + 1,
        None => 1,
    }
}

}
