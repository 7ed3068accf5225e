//! Per-app `NSUserKeyEquivalents` overrides.
//!
//! Each app's `~/Library/Preferences/<bundle_id>.plist` may contain an
//! `NSUserKeyEquivalents` dictionary that the user populates via
//! System Settings → Keyboard → Keyboard Shortcuts → App Shortcuts.
//! Keys are menu item titles (`"New"`, `"Save All"`); values are NSText
//! keystroke shorthand: `@` = Command, `~` = Option, `$` = Shift,
//! `^` = Control, followed by the literal key character. So `@~n`
//! denotes ⌘⌥N.

use vstd::prelude::*;

use crate::binding::{Binding, BindingSource};
use crate::combo::{spec_key_from_char, Key, KeyCombo, Modifiers};
use crate::error::{ScanError, ScanWarning};
use crate::sources::symbolichotkeys::overrides::{error_path, problem_of, PlistProblem};
use crate::sources::symbolichotkeys::problem_text;
use crate::sources::plist::{dict_get, dict_lookup, spec_as_dictionary, PlistRead, PlistValue};
use crate::sources::SourceScan;
use crate::text::{chars_of, owned, push_str, string_of};

verus! {

/// The modifier an NSText shorthand symbol stands for.
pub open spec fn spec_shorthand_modifier(c: char) -> Option<Modifiers> {
    let none = Modifiers::none();
    match c {
        '@' => Some(Modifiers { cmd: true, ..none }),
        '~' => Some(Modifiers { opt: true, ..none }),
        '$' => Some(Modifiers { shift: true, ..none }),
        '^' => Some(Modifiers { ctrl: true, ..none }),
        _ => None,
    }
}

fn shorthand_modifier(c: char) -> (r: Option<Modifiers>)
    ensures
        r == spec_shorthand_modifier(c),
{
    let none = Modifiers::empty();
    match c {
        '@' => Some(Modifiers { cmd: true, ..none }),
        '~' => Some(Modifiers { opt: true, ..none }),
        '$' => Some(Modifiers { shift: true, ..none }),
        '^' => Some(Modifiers { ctrl: true, ..none }),
        _ => None,
    }
}

/// The combo of a keystroke shorthand, given the modifiers already read:
/// its last character is the key, and every character before it must be
/// a modifier symbol. An empty text, or one with anything else before
/// the key, is no combo.
pub open spec fn spec_shorthand(s: Seq<char>, held: Modifiers) -> Option<KeyCombo>
    decreases s.len(),
{
    if s.len() == 0 {
        None
    } else if s.len() == 1 {
        Some(KeyCombo { modifiers: held, key: spec_key_from_char(s[0]) })
    } else {
        match spec_shorthand_modifier(s[0]) {
            Some(m) => spec_shorthand(s.drop_first(), held.spec_union(m)),
            None => None,
        }
    }
}

/// Decode an NSText keystroke shorthand such as `@~n` (⌘⌥N).
pub fn parse_shorthand(s: &str) -> (r: Option<KeyCombo>)
    ensures
        r == spec_shorthand(s@, Modifiers::none()),
{
    let cs = chars_of(s);
    if cs.len() == 0 {
        return None;
    }
    let mut held = Modifiers::empty();
    let mut i: usize = 0;
    assert(cs@.skip(0) =~= cs@);
    while i + 1 < cs.len()
        invariant
            i < cs@.len(),
            cs@ == s@,
            spec_shorthand(s@, Modifiers::none()) == spec_shorthand(cs@.skip(i as int), held),
        decreases cs@.len() - i,
    {
        assert(cs@.skip(i as int).drop_first() =~= cs@.skip(i + 1));
        match shorthand_modifier(cs[i]) {
            Some(m) => {
                held = held.union(m);
            },
            None => {
                return None;
            },
        }
        i = i + 1;
    }
    Some(KeyCombo { modifiers: held, key: Key::from_char(cs[i]) })
}

/// An override as the contracts describe it: the menu title and its combo.
pub struct MenuOverride {
    pub title: Seq<char>,
    pub combo: KeyCombo,
}

/// The overrides of an `NSUserKeyEquivalents` dictionary, in file order:
/// one per entry whose value is a string that decodes to a combo.
pub open spec fn spec_overrides_of(entries: Seq<(String, PlistValue)>) -> Seq<MenuOverride>
    decreases entries.len(),
{
    if entries.len() == 0 {
        Seq::empty()
    } else {
        let prev = spec_overrides_of(entries.drop_last());
        match entries.last().1 {
            PlistValue::String(v) => match spec_shorthand(v@, Modifiers::none()) {
                Some(c) => prev.push(MenuOverride { title: entries.last().0@, combo: c }),
                None => prev,
            },
            _ => prev,
        }
    }
}

/// `b` is the enabled binding of app `bundle` for override `o`.
pub open spec fn override_binding(b: Binding, bundle: Seq<char>, o: MenuOverride) -> bool {
    &&& b.combo == o.combo
    &&& b.source matches BindingSource::AppMenuOverride { bundle_id, menu_item }
    &&& b.source->AppMenuOverride_bundle_id@ == bundle
    &&& b.source->AppMenuOverride_menu_item@ == o.title
    &&& b.label@ == o.title
    &&& b.enabled
}

pub open spec fn override_bindings(bs: Seq<Binding>, bundle: Seq<char>, os: Seq<MenuOverride>) -> bool {
    &&& bs.len() == os.len()
    &&& forall|i: int| 0 <= i < bs.len() ==> override_binding(#[trigger] bs[i], bundle, os[i])
}

/// The file name of a path: what follows its last `/`.
pub open spec fn file_name(path: Seq<char>) -> Seq<char>
    decreases path.len(),
{
    if path.len() == 0 {
        path
    } else if path.last() == '/' {
        Seq::empty()
    } else {
        file_name(path.drop_last()).push(path.last())
    }
}

/// The bundle id a preferences file is named after: its file name
/// without the `.plist` extension.
pub open spec fn spec_bundle_id_of(path: Seq<char>) -> Seq<char> {
    let name = file_name(path);
    if name.len() >= 6 && name.skip(name.len() - 6) == ".plist"@ {
        name.take(name.len() - 6)
    } else {
        name
    }
}

/// Whether a directory entry is a preferences file: its name ends in
/// `.plist`.
pub open spec fn spec_is_plist_name(name: Seq<char>) -> bool {
    name.len() >= 6 && name.skip(name.len() - 6) == ".plist"@
}

fn ends_with_plist(name: &Vec<char>) -> (b: bool)
    ensures
        b == spec_is_plist_name(name@),
{
    let ext = chars_of(".plist");
    proof {
        reveal_strlit(".plist");
    }
    if name.len() < 6 {
        return false;
    }
    let start = name.len() - 6;
    let mut i: usize = 0;
    while i < 6
        invariant
            i <= 6,
            start + 6 == name.len(),
            ext@ == ".plist"@,
            ext@.len() == 6,
            forall|k: int| 0 <= k < i ==> name@[start + k] == ext@[k],
        decreases 6 - i,
    {
        if name[start + i] != ext[i] {
            assert(name@.skip(start as int)[i as int] != ".plist"@[i as int]);
            return false;
        }
        i = i + 1;
    }
    assert(name@.skip(start as int) =~= ".plist"@);
    true
}

/// Whether a directory entry named `name` is a preferences file.
pub fn is_plist_name(name: &str) -> (b: bool)
    ensures
        b == spec_is_plist_name(name@),
{
    let cs = chars_of(name);
    ends_with_plist(&cs)
}

/// The bundle id a preferences file at `path` is named after.
pub fn bundle_id_of(path: &str) -> (id: String)
    ensures
        id@ == spec_bundle_id_of(path@),
{
    let cs = chars_of(path);
    let mut start: usize = cs.len();
    assert(cs@.take(start as int) =~= cs@);
    assert(cs@.skip(start as int) =~= Seq::<char>::empty());
    while start > 0 && cs[start - 1] != '/'
        invariant
            start <= cs@.len(),
            cs@ == path@,
            file_name(path@) == file_name(cs@.take(start as int)) + cs@.skip(start as int),
        decreases start,
    {
        assert(cs@.take(start as int).drop_last() =~= cs@.take(start - 1));
        assert(cs@.skip(start - 1) =~= seq![cs@[start - 1]] + cs@.skip(start as int));
        assert(file_name(cs@.take(start as int)) =~= file_name(cs@.take(start - 1)).push(cs@[start - 1]));
        start = start - 1;
    }
    if start > 0 {
        assert(cs@.take(start as int).last() == '/');
    }
    let ghost name = cs@.skip(start as int);
    assert(file_name(path@) =~= name);
    let mut v: Vec<char> = Vec::new();
    let mut i: usize = start;
    while i < cs.len()
        invariant
            start <= i <= cs@.len(),
            v@ == cs@.subrange(start as int, i as int),
        decreases cs@.len() - i,
    {
        v.push(cs[i]);
        i = i + 1;
        assert(v@ =~= cs@.subrange(start as int, i as int));
    }
    assert(v@ =~= name);
    if ends_with_plist(&v) {
        let mut w: Vec<char> = Vec::new();
        let mut k: usize = 0;
        while k < v.len() - 6
            invariant
                v@.len() >= 6,
                k <= v@.len() - 6,
                w@ == v@.take(k as int),
            decreases v@.len() - 6 - k,
        {
            w.push(v[k]);
            k = k + 1;
            assert(w@ =~= v@.take(k as int));
        }
        string_of(w.as_slice())
    } else {
        string_of(v.as_slice())
    }
}

/// What `parse` makes of a preferences file: its overrides, or why it
/// yields none: it could not be read, or it is not a property list with
/// a dictionary at its root. A file without an `NSUserKeyEquivalents`
/// dictionary has no overrides.
pub open spec fn spec_parse(read: PlistRead) -> Result<Seq<MenuOverride>, PlistProblem> {
    match read {
        PlistRead::Unreadable(m) => Err(PlistProblem::Io(m@)),
        PlistRead::Malformed(m) => Err(PlistProblem::Schema("plist parse: "@ + m@)),
        PlistRead::Parsed(root) => match spec_as_dictionary(root) {
            None => Err(PlistProblem::Schema("root is not a dictionary"@)),
            Some(r) => match dict_lookup(r, "NSUserKeyEquivalents"@) {
                Some(PlistValue::Dictionary(entries)) => Ok(spec_overrides_of(entries@)),
                _ => Ok(Seq::empty()),
            },
        },
    }
}

/// Parse one `<bundle_id>.plist` for its `NSUserKeyEquivalents`
/// dictionary. A file without the dictionary has no overrides, which is
/// the common case and not an error; entries whose value is not a
/// shorthand string are skipped. The bundle id is the file's name.
pub fn parse(path: &str, read: &PlistRead) -> (r: Result<Vec<Binding>, ScanError>)
    ensures
        match (r, spec_parse(*read)) {
            (Ok(bs), Ok(os)) => override_bindings(bs@, spec_bundle_id_of(path@), os),
            (Err(e), Err(p)) => problem_of(e) == p && error_path(e) == path@,
            _ => false,
        },
{
    let root = match read {
        PlistRead::Unreadable(m) => {
            return Err(ScanError::Io { path: owned(path), message: owned(m.as_str()) });
        },
        PlistRead::Malformed(m) => {
            let mut message = owned("plist parse: ");
            push_str(&mut message, m.as_str());
            return Err(ScanError::Schema { path: owned(path), message });
        },
        PlistRead::Parsed(root) => root,
    };
    let r = match root {
        PlistValue::Dictionary(r) => r,
        _ => {
            return Err(ScanError::Schema { path: owned(path), message: owned("root is not a dictionary") });
        },
    };
    let entries = match dict_get(r, "NSUserKeyEquivalents") {
        Some(PlistValue::Dictionary(entries)) => entries,
        _ => {
            return Ok(Vec::new());
        },
    };
    let bundle = bundle_id_of(path);
    let mut bs: Vec<Binding> = Vec::new();
    let mut i: usize = 0;
    while i < entries.len()
        invariant
            i <= entries@.len(),
            bundle@ == spec_bundle_id_of(path@),
            override_bindings(bs@, bundle@, spec_overrides_of(entries@.take(i as int))),
        decreases entries@.len() - i,
    {
        assert(entries@.take(i + 1).drop_last() =~= entries@.take(i as int));
        assert(entries@.take(i + 1).last() == entries@[i as int]);
        if let PlistValue::String(v) = &entries[i].1 {
            if let Some(combo) = parse_shorthand(v.as_str()) {
                let title = owned(entries[i].0.as_str());
                let b = Binding {
                    combo,
                    source: BindingSource::AppMenuOverride {
                        bundle_id: owned(bundle.as_str()),
                        menu_item: owned(title.as_str()),
                    },
                    label: title,
                    enabled: true,
                };
                bs.push(b);
            }
        }
        i = i + 1;
    }
    assert(entries@.take(entries@.len() as int) =~= entries@);
    Ok(bs)
}


/// `(bundle id, override)` for every override of every file that parses,
/// in file order.
pub open spec fn files_overrides(files: Seq<(String, PlistRead)>) -> Seq<(Seq<char>, MenuOverride)>
    decreases files.len(),
{
    if files.len() == 0 {
        Seq::empty()
    } else {
        let prev = files_overrides(files.drop_last());
        let (path, read) = files.last();
        match spec_parse(read) {
            Ok(os) => prev + os.map_values(|o: MenuOverride| (spec_bundle_id_of(path@), o)),
            Err(_) => prev,
        }
    }
}

/// `(path, message)` for every file that does not parse, in file order.
pub open spec fn files_problems(files: Seq<(String, PlistRead)>) -> Seq<(Seq<char>, Seq<char>)>
    decreases files.len(),
{
    if files.len() == 0 {
        Seq::empty()
    } else {
        let prev = files_problems(files.drop_last());
        let (path, read) = files.last();
        match spec_parse(read) {
            Ok(_) => prev,
            Err(p) => prev.push((path@, problem_text(path@, p))),
        }
    }
}

/// `r` is what scanning the directory gives: the overrides of every file
/// that parses, and a warning for each file that does not, so one bad
/// file never hides the rest; a directory that cannot be listed is an
/// error.
pub open spec fn scan_result(dir: Seq<char>, listing: Result<Vec<(String, PlistRead)>, String>, r: Result<SourceScan, ScanError>) -> bool {
    match listing {
        Err(m) => r matches Err(ScanError::Io { path, message }) && path@ == dir && message@ == m@,
        Ok(files) => r matches Ok(scan) && {
            let pairs = files_overrides(files@);
            let problems = files_problems(files@);
            &&& scan.bindings@.len() == pairs.len()
            &&& forall|i: int| 0 <= i < pairs.len() ==> override_binding(#[trigger] scan.bindings@[i], pairs[i].0, pairs[i].1)
            &&& scan.warnings@.len() == problems.len()
            &&& forall|i: int| 0 <= i < problems.len() ==> (#[trigger] scan.warnings@[i] matches ScanWarning::Skipped { path, message } && path@ == problems[i].0 && message@ == problems[i].1)
        },
    }
}

/// Aggregate the menu-item overrides of every preferences file under
/// `prefs_dir`, given what listing and reading it gave: for each
/// `.plist` file (see [`is_plist_name`]) its path and content.
pub fn scan(prefs_dir: &str, listing: Result<Vec<(String, PlistRead)>, String>) -> (r: Result<SourceScan, ScanError>)
    ensures
        scan_result(prefs_dir@, listing, r),
{
    let files = match listing {
        Err(m) => {
            return Err(ScanError::Io { path: owned(prefs_dir), message: m });
        },
        Ok(files) => files,
    };
    let ghost fs = files@;
    let mut bindings: Vec<Binding> = Vec::new();
    let mut warnings: Vec<ScanWarning> = Vec::new();
    let mut i: usize = 0;
    while i < files.len()
        invariant
            i <= files@.len(),
            fs == files@,
            bindings@.len() == files_overrides(fs.take(i as int)).len(),
            forall|q: int| 0 <= q < bindings@.len() ==> override_binding(#[trigger] bindings@[q], files_overrides(fs.take(i as int))[q].0, files_overrides(fs.take(i as int))[q].1),
            warnings@.len() == files_problems(fs.take(i as int)).len(),
            forall|q: int| 0 <= q < warnings@.len() ==> (#[trigger] warnings@[q] matches ScanWarning::Skipped { path, message } && path@ == files_problems(fs.take(i as int))[q].0 && message@ == files_problems(fs.take(i as int))[q].1),
        decreases files@.len() - i,
    {
        assert(fs.take(i + 1).drop_last() =~= fs.take(i as int));
        assert(fs.take(i + 1).last() == fs[i as int]);
        let path = files[i].0.as_str();
        match parse(path, &files[i].1) {
            Ok(mut found) => {
                let ghost before = bindings@;
                let ghost os = spec_parse(files@[i as int].1)->Ok_0;
                let ghost added = os.map_values(|o: MenuOverride| (spec_bundle_id_of(path@), o));
                bindings.append(&mut found);
                assert forall|q: int| 0 <= q < bindings@.len() implies override_binding(#[trigger] bindings@[q], files_overrides(fs.take(i + 1))[q].0, files_overrides(fs.take(i + 1))[q].1) by {
                    if q >= before.len() {
                        assert(added[q - before.len()] == (spec_bundle_id_of(path@), os[q - before.len()]));
                    }
                }
            },
            Err(e) => {
                let message = e.to_string();
                warnings.push(ScanWarning::Skipped { path: owned(path), message });
            },
        }
        i = i + 1;
    }
    assert(fs.take(fs.len() as int) =~= fs);
    Ok(SourceScan { bindings, warnings })
}

/// Reads the `NSUserKeyEquivalents` of every preferences file in one
/// directory.
#[derive(Debug, Clone)]
pub struct AppMenuOverrides {
    prefs_dir: String,
}

impl AppMenuOverrides {
    pub closed spec fn spec_prefs_dir(&self) -> Seq<char> {
        self.prefs_dir@
    }

    /// Read the preferences files under `prefs_dir`.
    pub fn new(prefs_dir: String) -> (s: AppMenuOverrides)
        ensures
            s.spec_prefs_dir() == prefs_dir@,
    {
        AppMenuOverrides { prefs_dir }
    }

    /// The directory the preferences files are read from.
    pub fn prefs_dir(&self) -> (p: &str)
        ensures
            p@ == self.spec_prefs_dir(),
    {
        self.prefs_dir.as_str()
    }

    /// The stable source name.
    pub fn name(&self) -> (s: &'static str)
        ensures
            s@ == "nsuserkeyequivalents"@,
    {
        "nsuserkeyequivalents"
    }

    /// Scan given what listing and reading the directory gave.
    pub fn scan_with(&self, listing: Result<Vec<(String, PlistRead)>, String>) -> (r: Result<SourceScan, ScanError>)
        ensures
            scan_result(self.spec_prefs_dir(), listing, r),
    {
        scan(self.prefs_dir.as_str(), listing)
    }
}

} // verus!
