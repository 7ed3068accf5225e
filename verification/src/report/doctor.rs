//! Whether the permissions and sources are in place for a complete
//! answer: one check per line, each saying what a missing piece hides
//! and where to grant it.

use vstd::prelude::*;

use crate::binding::Binding;
use crate::capture::PermissionStatus;
use crate::error::{spec_scan_error_text, spec_scan_warning_text, ScanError, ScanWarning};
use crate::hotkey_index::{refs_view, HotkeyIndex};
use crate::sources::SourceScan;
use crate::text::{string_of, chars_of, chars_eq, decimal, decimal_chars, owned, pad_right, push_chars, push_padded, push_str};

verus! {

/// One line of the report.
#[derive(Debug, Clone)]
pub struct Check {
    pub check: String,
    pub status: String,
    pub detail: String,
}

pub open spec fn check_is(c: Check, name: Seq<char>, status: Seq<char>, detail: Seq<char>) -> bool {
    c.check@ == name && c.status@ == status && c.detail@ == detail
}

fn check_of(name: &str, status: &str, detail: String) -> (c: Check)
    ensures
        check_is(c, name@, status@, detail@),
{
    Check { check: owned(name), status: owned(status), detail }
}

/// The Accessibility permission: without it every app's menu shortcuts
/// are invisible.
pub fn accessibility_check(granted: bool) -> (c: Check)
    ensures
        granted ==> check_is(c, "Accessibility"@, "granted"@, "menu shortcuts of running apps can be read"@),
        !granted ==> check_is(
            c,
            "Accessibility"@,
            "missing"@,
            "without it every app's menu shortcuts are invisible: System Settings → Privacy & Security → Accessibility, add your terminal"@,
        ),
{
    if granted {
        check_of("Accessibility", "granted", owned("menu shortcuts of running apps can be read"))
    } else {
        check_of(
            "Accessibility",
            "missing",
            owned(
                "without it every app's menu shortcuts are invisible: System Settings → Privacy & Security → Accessibility, add your terminal",
            ),
        )
    }
}

/// The Input Monitoring permission, which only interactive `who` needs.
pub fn input_monitoring_check(status: PermissionStatus) -> (c: Check)
    ensures
        status == PermissionStatus::Granted ==> check_is(c, "Input Monitoring"@, "granted"@, "`who` can capture a pressed key"@),
        status == PermissionStatus::Denied ==> check_is(
            c,
            "Input Monitoring"@,
            "denied"@,
            "interactive `who` cannot capture keys: System Settings → Privacy & Security → Input Monitoring, add your terminal"@,
        ),
        status == PermissionStatus::Undetermined ==> check_is(
            c,
            "Input Monitoring"@,
            "not asked yet"@,
            "only needed for interactive `who`; macOS asks the first time"@,
        ),
{
    match status {
        PermissionStatus::Granted => check_of("Input Monitoring", "granted", owned("`who` can capture a pressed key")),
        PermissionStatus::Denied => check_of(
            "Input Monitoring",
            "denied",
            owned(
                "interactive `who` cannot capture keys: System Settings → Privacy & Security → Input Monitoring, add your terminal",
            ),
        ),
        PermissionStatus::Undetermined => check_of(
            "Input Monitoring",
            "not asked yet",
            owned("only needed for interactive `who`; macOS asks the first time"),
        ),
    }
}

/// The system shortcut table as a live scan saw it: `ok` with no
/// warning, `partial` with one, `failed` on an error.
pub open spec fn spec_system_shortcuts(live: Result<SourceScan, ScanError>) -> (Seq<char>, Seq<char>) {
    match live {
        Ok(scan) => (
            if scan.warnings@.len() == 0 {
                "ok"@
            } else {
                "partial"@
            },
            decimal(scan.bindings@.len()) + " entries from the live table"@ + (if scan.warnings@.len() == 0 {
                Seq::empty()
            } else {
                "; "@ + spec_scan_warning_text(scan.warnings@[0])
            }),
        ),
        Err(e) => ("failed"@, spec_scan_error_text(e)),
    }
}

pub fn system_shortcuts_check(live: &Result<SourceScan, ScanError>) -> (c: Check)
    ensures
        check_is(c, "System shortcuts"@, spec_system_shortcuts(*live).0, spec_system_shortcuts(*live).1),
{
    match live {
        Ok(scan) => {
            let n = decimal_chars(scan.bindings.len() as u64);
            let mut detail = string_of(n.as_slice());
            push_str(&mut detail, " entries from the live table");
            if scan.warnings.len() > 0 {
                push_str(&mut detail, "; ");
                let w = scan.warnings[0].to_string();
                push_str(&mut detail, w.as_str());
                assert(detail@ =~= decimal(scan.bindings@.len()) + " entries from the live table"@ + ("; "@ + w@));
                check_of("System shortcuts", "partial", detail)
            } else {
                assert(detail@ =~= detail@ + Seq::<char>::empty());
                check_of("System shortcuts", "ok", detail)
            }
        },
        Err(e) => check_of("System shortcuts", "failed", e.to_string()),
    }
}

/// The preferences plist: `ok` when it exists, `missing` when it does
/// not, `unknown` when the preferences directory could not be located.
pub fn preferences_check(path: &Option<String>, exists: bool) -> (c: Check)
    ensures
        match path {
            Some(p) => check_is(c, "Preferences"@, if exists { "ok"@ } else { "missing"@ }, p@),
            None => check_is(c, "Preferences"@, "unknown"@, "could not locate ~/Library/Preferences"@),
        },
{
    match path {
        Some(p) => {
            if exists {
                check_of("Preferences", "ok", owned(p.as_str()))
            } else {
                check_of("Preferences", "missing", owned(p.as_str()))
            }
        },
        None => check_of("Preferences", "unknown", owned("could not locate ~/Library/Preferences")),
    }
}

/// How many warnings say an app did not answer.
pub open spec fn unresponsive_count(ws: Seq<ScanWarning>) -> nat
    decreases ws.len(),
{
    if ws.len() == 0 {
        0
    } else {
        unresponsive_count(ws.drop_last()) + (if ws.last() is Unresponsive {
            1nat
        } else {
            0nat
        })
    }
}

/// `r` lists the bundle ids of `bs`, each once.
pub open spec fn distinct_ids(r: Seq<Seq<char>>, bs: Seq<Binding>) -> bool {
    &&& forall|i: int, j: int| 0 <= i < j < r.len() ==> #[trigger] r[i] != #[trigger] r[j]
    &&& forall|i: int| 0 <= i < r.len() ==> has_bundle(bs, #[trigger] r[i])
    &&& forall|k: int|
        0 <= k < bs.len() && (#[trigger] bs[k]).source.spec_bundle_id() is Some ==> listed_id(
            r,
            bs[k].source.spec_bundle_id()->0,
        )
}

pub open spec fn has_bundle(bs: Seq<Binding>, x: Seq<char>) -> bool {
    exists|k: int| 0 <= k < bs.len() && (#[trigger] bs[k]).source.spec_bundle_id() == Some(x)
}

pub open spec fn listed_id(r: Seq<Seq<char>>, x: Seq<char>) -> bool {
    exists|i: int| 0 <= i < r.len() && #[trigger] r[i] == x
}

/// The distinct bundle ids of `bs`, in order of first appearance.
pub fn distinct_bundle_ids(bs: &Vec<&Binding>) -> (r: Vec<Vec<char>>)
    ensures
        distinct_ids(r@.map_values(|v: Vec<char>| v@), refs_view(bs@)),
{
    let ghost all = refs_view(bs@);
    let mut r: Vec<Vec<char>> = Vec::new();
    let mut k: usize = 0;
    while k < bs.len()
        invariant
            k <= bs@.len(),
            all == refs_view(bs@),
            distinct_ids(r@.map_values(|v: Vec<char>| v@), all.take(k as int)),
        decreases bs@.len() - k,
    {
        let ghost rv = r@.map_values(|v: Vec<char>| v@);
        let ghost pre = all.take(k as int);
        let ghost cur = all.take(k + 1);
        proof {
            assert(cur.drop_last() =~= pre);
            assert(cur[k as int] == all[k as int]);
            assert forall|m: int| 0 <= m < pre.len() implies #[trigger] cur[m] == pre[m] by {}
        }
        match bs[k].source.bundle_id() {
            None => {
                proof {
                    assert forall|i: int| 0 <= i < rv.len() implies has_bundle(cur, #[trigger] rv[i]) by {
                        let m = choose|m: int| 0 <= m < pre.len() && (#[trigger] pre[m]).source.spec_bundle_id() == Some(rv[i]);
                        assert(cur[m] == pre[m]);
                    }
                }
            },
            Some(id) => {
                let v = chars_of(id);
                let mut j: usize = 0;
                let mut seen = false;
                while j < r.len()
                    invariant
                        j <= r@.len(),
                        rv == r@.map_values(|v: Vec<char>| v@),
                        seen == exists|q: int| 0 <= q < j && rv[q] == v@,
                    decreases r@.len() - j,
                {
                    assert(rv[j as int] == r@[j as int]@);
                    if chars_eq(r[j].as_slice(), v.as_slice()) {
                        seen = true;
                    }
                    j = j + 1;
                }
                if !seen {
                    r.push(v);
                }
                let ghost nv = r@.map_values(|v: Vec<char>| v@);
                proof {
                    if !seen {
                        assert(nv =~= rv.push(v@));
                    } else {
                        assert(nv =~= rv);
                    }
                    assert forall|i: int| 0 <= i < nv.len() implies has_bundle(cur, #[trigger] nv[i]) by {
                        if i < rv.len() {
                            assert(nv[i] == rv[i]);
                            let m = choose|m: int| 0 <= m < pre.len() && (#[trigger] pre[m]).source.spec_bundle_id() == Some(rv[i]);
                            assert(cur[m] == pre[m]);
                        } else {
                            assert(cur[k as int].source.spec_bundle_id() == Some(nv[i]));
                        }
                    }
                    assert forall|m: int|
                        0 <= m < cur.len() && (#[trigger] cur[m]).source.spec_bundle_id() is Some implies listed_id(
                        nv,
                        cur[m].source.spec_bundle_id()->0,
                    ) by {
                        if m < k {
                            assert(cur[m] == pre[m]);
                            let i = choose|i: int| 0 <= i < rv.len() && #[trigger] rv[i] == pre[m].source.spec_bundle_id()->0;
                            assert(nv[i] == rv[i]);
                        } else if !seen {
                            assert(nv[rv.len() as int] == v@);
                        } else {
                            let q = choose|q: int| 0 <= q < r@.len() && rv[q] == v@;
                            assert(nv[q] == rv[q]);
                        }
                    }
                }
            },
        }
        k = k + 1;
    }
    assert(all.take(bs@.len() as int) =~= all);
    r
}

/// The running apps as the index saw them: how many apps have
/// shortcuts, how many bindings there are, and how many apps did not
/// answer in time, which makes the check `partial`.
pub fn running_apps_check(index: &HotkeyIndex) -> (c: Check)
    ensures
        exists|ids: Seq<Seq<char>>|
            distinct_ids(ids, index.spec_bindings().filter(|b: Binding| b.enabled)) && check_is(
                c,
                "Running apps"@,
                if unresponsive_count(index.spec_warnings()) == 0 {
                    "ok"@
                } else {
                    "partial"@
                },
                decimal(ids.len()) + " apps with shortcuts, "@ + decimal(index.spec_bindings().len()) + " bindings, "@
                    + decimal(unresponsive_count(index.spec_warnings())) + " unresponsive"@,
            ),
{
    let ws = index.warnings();
    let mut unresponsive: usize = 0;
    let mut i: usize = 0;
    while i < ws.len()
        invariant
            i <= ws@.len(),
            ws@ == index.spec_warnings(),
            unresponsive as nat == unresponsive_count(ws@.take(i as int)),
            unresponsive <= i,
        decreases ws@.len() - i,
    {
        assert(ws@.take(i + 1).drop_last() =~= ws@.take(i as int));
        match &ws[i] {
            ScanWarning::Unresponsive { .. } => {
                unresponsive = unresponsive + 1;
            },
            _ => {},
        }
        i = i + 1;
    }
    assert(ws@.take(ws@.len() as int) =~= ws@);
    let on = index.enabled();
    let ids = distinct_bundle_ids(&on);
    let a = decimal_chars(ids.len() as u64);
    let mut detail = string_of(a.as_slice());
    push_str(&mut detail, " apps with shortcuts, ");
    let b = decimal_chars(index.len() as u64);
    push_chars(&mut detail, b.as_slice());
    push_str(&mut detail, " bindings, ");
    let u = decimal_chars(unresponsive as u64);
    push_chars(&mut detail, u.as_slice());
    push_str(&mut detail, " unresponsive");
    let c = if unresponsive == 0 {
        check_of("Running apps", "ok", detail)
    } else {
        check_of("Running apps", "partial", detail)
    };
    let ghost idsv = ids@.map_values(|v: Vec<char>| v@);
    assert(idsv.len() == ids@.len());
    assert(distinct_ids(idsv, index.spec_bindings().filter(|b: Binding| b.enabled)));
    assert(c.detail@ =~= decimal(idsv.len()) + " apps with shortcuts, "@ + decimal(index.spec_bindings().len())
        + " bindings, "@ + decimal(unresponsive_count(index.spec_warnings())) + " unresponsive"@);
    c
}

/// A check as a line: the name padded to 18 columns and the status to
/// 14, then the detail.
pub open spec fn spec_check_line(c: Check) -> Seq<char> {
    pad_right(c.check@, 18) + " "@ + pad_right(c.status@, 14) + " "@ + c.detail@
}

pub fn check_line(c: &Check) -> (s: String)
    ensures
        s@ == spec_check_line(*c),
{
    let mut s = String::new();
    let name = chars_of(c.check.as_str());
    push_padded(&mut s, name.as_slice(), 18);
    push_str(&mut s, " ");
    let status = chars_of(c.status.as_str());
    push_padded(&mut s, status.as_slice(), 14);
    push_str(&mut s, " ");
    push_str(&mut s, c.detail.as_str());
    s
}

} // verus!
