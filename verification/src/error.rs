//! What can go wrong while scanning a source.

use vstd::prelude::*;

use crate::text::{debug_quoted, debug_text, owned, push_str};

verus! {

/// Errors a source can produce while scanning hotkey configurations.
#[derive(Debug, Clone, PartialEq, Eq)]
pub enum ScanError {
    /// A file could not be read; `message` is what the operating system
    /// said.
    Io { path: String, message: String },
    /// The file parsed at the syntax level but its structure didn't match
    /// what the parser expects (missing key, wrong type, etc.).
    Schema { path: String, message: String },
}

/// A non-fatal problem during a scan: the source still produced results,
/// but they are known to be incomplete.
#[derive(Debug, Clone, PartialEq, Eq)]
pub enum ScanWarning {
    /// A configuration file was skipped because it could not be read or
    /// parsed. Everything else from the same source is still reported.
    Skipped { path: String, message: String },
    /// A running app did not answer Accessibility queries within the
    /// timeout, even on retry, so its menu shortcuts are missing or
    /// incomplete.
    Unresponsive { app: String },
    /// An `--app` pattern matched no running app; `similar` lists running
    /// apps whose names come close.
    NoMatchingApp { pattern: String, similar: Vec<String> },
}

/// The message of a scan error.
pub open spec fn spec_scan_error_text(e: ScanError) -> Seq<char> {
    match e {
        ScanError::Io { path, .. } => "io error reading "@ + path@,
        ScanError::Schema { path, message } => "unexpected schema in "@ + path@ + ": "@ + message@,
    }
}

/// `items` joined with `", "`.
pub open spec fn join_comma(items: Seq<Seq<char>>) -> Seq<char>
    decreases items.len(),
{
    if items.len() == 0 {
        Seq::<char>::empty()
    } else if items.len() == 1 {
        items[0]
    } else {
        join_comma(items.drop_last()) + ", "@ + items.last()
    }
}

pub open spec fn string_views(v: Seq<String>) -> Seq<Seq<char>> {
    v.map_values(|s: String| s@)
}

/// The message of a scan warning.
pub open spec fn spec_scan_warning_text(w: ScanWarning) -> Seq<char> {
    match w {
        ScanWarning::Skipped { path, message } => "skipped "@ + path@ + ": "@ + message@,
        ScanWarning::Unresponsive { app } => app@
            + " did not answer Accessibility queries in time; its menu shortcuts are missing"@,
        ScanWarning::NoMatchingApp { pattern, similar } => "no running app matches "@
            + debug_quoted(pattern@) + "; only running apps can be scanned"@ + (if similar.len()
            == 0 {
            Seq::<char>::empty()
        } else {
            " (similar: "@ + join_comma(string_views(similar@)) + ")"@
        }),
    }
}

/// Appends `items` joined with `", "`.
pub fn push_joined(out: &mut String, items: &Vec<String>)
    ensures
        final(out)@ == old(out)@ + join_comma(string_views(items@)),
{
    let ghost start = out@;
    let mut i: usize = 0;
    while i < items.len()
        invariant
            i <= items@.len(),
            out@ == start + join_comma(string_views(items@.take(i as int))),
        decreases items@.len() - i,
    {
        let ghost before = string_views(items@.take(i as int));
        assert(string_views(items@.take(i + 1)) =~= before.push(items@[i as int]@));
        assert(string_views(items@.take(i + 1)).drop_last() =~= before);
        if i > 0 {
            push_str(out, ", ");
        }
        push_str(out, items[i].as_str());
        i = i + 1;
    }
    assert(items@.take(items@.len() as int) =~= items@);
}

impl ScanError {
    /// `io error reading {path}` or `unexpected schema in {path}: {message}`.
    pub fn to_string(&self) -> (s: String)
        ensures
            s@ == spec_scan_error_text(*self),
    {
        match self {
            ScanError::Io { path, .. } => {
                let mut s = owned("io error reading ");
                push_str(&mut s, path.as_str());
                s
            },
            ScanError::Schema { path, message } => {
                let mut s = owned("unexpected schema in ");
                push_str(&mut s, path.as_str());
                push_str(&mut s, ": ");
                push_str(&mut s, message.as_str());
                s
            },
        }
    }
}

impl ScanWarning {
    /// The warning as a person reads it.
    pub fn to_string(&self) -> (s: String)
        ensures
            s@ == spec_scan_warning_text(*self),
    {
        match self {
            ScanWarning::Skipped { path, message } => {
                let mut s = owned("skipped ");
                push_str(&mut s, path.as_str());
                push_str(&mut s, ": ");
                push_str(&mut s, message.as_str());
                s
            },
            ScanWarning::Unresponsive { app } => {
                let mut s = owned(app.as_str());
                push_str(
                    &mut s,
                    " did not answer Accessibility queries in time; its menu shortcuts are missing",
                );
                s
            },
            ScanWarning::NoMatchingApp { pattern, similar } => {
                let mut s = owned("no running app matches ");
                let q = debug_text(pattern.as_str());
                push_str(&mut s, q.as_str());
                push_str(&mut s, "; only running apps can be scanned");
                if similar.len() > 0 {
                    push_str(&mut s, " (similar: ");
                    push_joined(&mut s, similar);
                    push_str(&mut s, ")");
                } else {
                    assert(s@ =~= s@ + Seq::<char>::empty());
                }
                s
            },
        }
    }
}

} // verus!
