//! Joining a personal (home) network and listing the networks in range.

use vstd::prelude::*;
use vstd::string::*;

use crate::text::str_eq;
use crate::wifi::AuthMethod;

verus! {

/// Seconds allowed for the station to connect.
pub const CONNECT_TIMEOUT_SECS: u32 = 20;

/// The network names of a scan, each kept once, in the order first seen,
/// empty (hidden) names left out.
pub open spec fn distinct_ssids(ssids: Seq<Seq<char>>) -> Seq<Seq<char>>
    decreases ssids.len(),
{
    if ssids.len() == 0 {
        seq![]
    } else {
        let kept = distinct_ssids(ssids.drop_last());
        let x = ssids.last();
        if kept.contains(x) || x.len() == 0 {
            kept
        } else {
            kept.push(x)
        }
    }
}

/// The listing of a scan holds each network name once, no empty name,
/// and exactly the non-empty names the scan reported.
pub proof fn distinct_ssids_properties(ssids: Seq<Seq<char>>)
    ensures
        forall|i: int, j: int|
            0 <= i < j < distinct_ssids(ssids).len() ==> distinct_ssids(ssids)[i]
                != distinct_ssids(ssids)[j],
        forall|i: int|
            0 <= i < distinct_ssids(ssids).len() ==> #[trigger] distinct_ssids(ssids)[i].len() > 0,
        forall|x: Seq<char>|
            #[trigger] distinct_ssids(ssids).contains(x) <==> (ssids.contains(x) && x.len() > 0),
    decreases ssids.len(),
{
    if ssids.len() > 0 {
        let prev = ssids.drop_last();
        distinct_ssids_properties(prev);
        let kept = distinct_ssids(prev);
        let x = ssids.last();
        assert(ssids =~= prev.push(x));
        assert forall|y: Seq<char>| #[trigger] ssids.contains(y) <==> (prev.contains(y) || y == x) by {
            if ssids.contains(y) {
                let k = choose|k: int| 0 <= k < ssids.len() && ssids[k] == y;
                if k < ssids.len() - 1 {
                    assert(prev[k] == y);
                }
            }
            if prev.contains(y) {
                let k = choose|k: int| 0 <= k < prev.len() && prev[k] == y;
                assert(ssids[k] == y);
            }
            if y == x {
                assert(ssids[ssids.len() - 1] == y);
            }
        }
        if !(kept.contains(x) || x.len() == 0) {
            let r = kept.push(x);
            assert forall|y: Seq<char>| #[trigger] r.contains(y) <==> (kept.contains(y) || y == x) by {
                if r.contains(y) {
                    let k = choose|k: int| 0 <= k < r.len() && r[k] == y;
                    if k < kept.len() {
                        assert(kept[k] == y);
                    }
                }
                if kept.contains(y) {
                    let k = choose|k: int| 0 <= k < kept.len() && kept[k] == y;
                    assert(r[k] == y);
                }
                if y == x {
                    assert(r[kept.len() as int] == y);
                }
            }
            assert forall|i: int, j: int| 0 <= i < j < r.len() implies r[i] != r[j] by {
                if j == kept.len() {
                    assert(kept.contains(kept[i]));
                }
            }
        }
    }
}

/// A scan whose names are all distinct and non-empty is listed unchanged,
/// in its own order.
pub proof fn distinct_scan_listed_as_is(ssids: Seq<Seq<char>>)
    requires
        forall|i: int, j: int| 0 <= i < j < ssids.len() ==> ssids[i] != ssids[j],
        forall|i: int| 0 <= i < ssids.len() ==> #[trigger] ssids[i].len() > 0,
    ensures
        distinct_ssids(ssids) == ssids,
    decreases ssids.len(),
{
    if ssids.len() > 0 {
        let p = ssids.drop_last();
        assert forall|i: int, j: int| 0 <= i < j < p.len() implies p[i] != p[j] by {
            assert(p[i] == ssids[i] && p[j] == ssids[j]);
        }
        assert forall|i: int| 0 <= i < p.len() implies #[trigger] p[i].len() > 0 by {
            assert(p[i] == ssids[i]);
        }
        distinct_scan_listed_as_is(p);
        let x = ssids.last();
        if p.contains(x) {
            let k = choose|k: int| 0 <= k < p.len() && p[k] == x;
            assert(ssids[k] == ssids[ssids.len() - 1]);
        }
        assert(ssids.len() > 0 ==> ssids[ssids.len() - 1].len() > 0);
        assert(p.push(x) =~= ssids);
    }
}

/// The networks a scan lists: none when the scan failed.
pub open spec fn scan_listing(scan: Option<Seq<Seq<char>>>) -> Seq<Seq<char>> {
    match scan {
        Some(ssids) => distinct_ssids(ssids),
        None => seq![],
    }
}

/// Whether `v` holds the string `s`.
pub fn contains_str(v: &Vec<String>, s: &str) -> (r: bool)
    ensures
        r == v.deep_view().contains(s@),
{
    let n = v.len();
    let mut i: usize = 0;
    while i < n
        invariant
            n == v@.len(),
            i <= n,
            forall|k: int| 0 <= k < i ==> v@[k]@ != s@,
        decreases n - i,
    {
        if str_eq(v[i].as_str(), s) {
            assert(v.deep_view()[i as int] == s@);
            return true;
        }
        i = i + 1;
    }
    assert forall|k: int| 0 <= k < v.deep_view().len() implies v.deep_view()[k] != s@ by {
        assert(v.deep_view()[k] == v@[k]@);
    }
    false
}

/// Lists the networks of a scan: the SSIDs the scan reported (`None` when
/// it failed), each once, in the order first seen, hidden ones left out.
pub fn scan_wifi(scan: Option<Vec<String>>) -> (r: Vec<String>)
    ensures
        r.deep_view() == scan_listing(scan.deep_view()),
{
    match scan {
        None => Vec::new(),
        Some(aps) => {
            let ghost a = aps.deep_view();
            let mut redes: Vec<String> = Vec::new();
            let n = aps.len();
            let mut i: usize = 0;
            assert(a.take(0) =~= Seq::<Seq<char>>::empty());
            while i < n
                invariant
                    n == aps@.len(),
                    a == aps.deep_view(),
                    a.len() == n,
                    i <= n,
                    redes.deep_view() == distinct_ssids(a.take(i as int)),
                decreases n - i,
            {
                let s = &aps[i];
                assert(a.take(i + 1).drop_last() =~= a.take(i as int));
                assert(a.take(i + 1).last() == s@);
                if !contains_str(&redes, s.as_str()) && !s.as_str().is_empty() {
                    let ghost before = redes.deep_view();
                    redes.push(s.clone());
                    assert(redes.deep_view() =~= before.push(s@));
                }
                i = i + 1;
            }
            assert(a.take(n as int) =~= a);
            redes
        },
    }
}

/// The authentication a personal network uses: none without a password,
/// WPA/WPA2 personal with one.
pub open spec fn personal_auth(password: Seq<char>) -> AuthMethod {
    if password.len() == 0 {
        AuthMethod::Open
    } else {
        AuthMethod::WpaWpa2Personal
    }
}

/// A network is joined without authentication exactly when it has no
/// password.
pub proof fn open_exactly_without_password(password: Seq<char>)
    ensures
        (personal_auth(password) == AuthMethod::Open) <==> password.len() == 0,
        password.len() > 0 ==> personal_auth(password) == AuthMethod::WpaWpa2Personal,
{
}

/// Chooses the authentication for a personal network (see `personal_auth`).
pub fn personal_auth_method(password: &str) -> (r: AuthMethod)
    ensures
        r == personal_auth(password@),
{
    if password.is_empty() {
        AuthMethod::Open
    } else {
        AuthMethod::WpaWpa2Personal
    }
}

/// The error text when the station did not connect in time.
pub open spec fn timeout_text(ssid: Seq<char>) -> Seq<char> {
    "❌ No se pudo conectar a "@ + ssid + " tras 20 segundos."@
}

/// Builds the error text when the station did not connect in time.
pub fn timeout_message(ssid: &str) -> (r: String)
    ensures
        r@ == timeout_text(ssid@),
{
    crate::text::join3("❌ No se pudo conectar a ", ssid, " tras 20 segundos.")
}

} // verus!
