//! Which installed apps accept a pairing credential, and where a credential
//! is placed inside an app's sandbox.
use vstd::prelude::*;

use crate::error::IloaderError;

verus! {

/// An app that accepts a pairing credential, as found on a device.
#[derive(Debug)]
pub struct PairingAppInfo {
    pub name: String,
    pub bundle_id: String,
    pub path: String,
}

/// An entry of the built-in catalog: an app's display name and where, under
/// its sandbox's documents folder, it reads a pairing credential.
#[derive(Debug)]
pub struct CatalogEntry {
    pub name: String,
    pub path: String,
}

/// A user-installed app as the installed-application registry reports it:
/// its bundle id and its display name, `None` when the name could not be read.
#[derive(Debug)]
pub struct InstalledApp {
    pub bundle_id: String,
    pub display_name: Option<String>,
}

pub struct PairingAppView {
    pub name: Seq<char>,
    pub bundle_id: Seq<char>,
    pub path: Seq<char>,
}

pub struct InstalledAppView {
    pub bundle_id: Seq<char>,
    pub display_name: Option<Seq<char>>,
}

impl View for PairingAppInfo {
    type V = PairingAppView;

    open spec fn view(&self) -> PairingAppView {
        PairingAppView { name: self.name@, bundle_id: self.bundle_id@, path: self.path@ }
    }
}

impl View for CatalogEntry {
    type V = (Seq<char>, Seq<char>);

    open spec fn view(&self) -> (Seq<char>, Seq<char>) {
        (self.name@, self.path@)
    }
}

impl View for InstalledApp {
    type V = InstalledAppView;

    open spec fn view(&self) -> InstalledAppView {
        InstalledAppView {
            bundle_id: self.bundle_id@,
            display_name: match self.display_name {
                Some(n) => Some(n@),
                None => None,
            },
        }
    }
}

pub open spec fn installed_view(apps: Seq<InstalledApp>) -> Seq<InstalledAppView> {
    apps.map_values(|a: InstalledApp| a@)
}

pub open spec fn apps_view(apps: Seq<PairingAppInfo>) -> Seq<PairingAppView> {
    apps.map_values(|a: PairingAppInfo| a@)
}

pub open spec fn entries_view(entries: Seq<CatalogEntry>) -> Seq<(Seq<char>, Seq<char>)> {
    entries.map_values(|e: CatalogEntry| e@)
}

/// The display name of the app that pairing workflows set up by default.
pub open spec fn primary_app_name() -> Seq<char> {
    "SideStore"@
}

/// The built-in catalog, in presentation order.
pub open spec fn catalog() -> Seq<(Seq<char>, Seq<char>)> {
    seq![
        (primary_app_name(), "ALTPairingFile.mobiledevicepairing"@),
        ("Feather"@, "pairingFile.plist"@),
        ("StikDebug"@, "pairingFile.plist"@),
        ("Protokolle"@, "pairingFile.plist"@),
        ("Antrag"@, "pairingFile.plist"@),
    ]
}

/// The built-in catalog of apps known to accept a pairing credential.
pub fn catalog_entries() -> (r: Vec<CatalogEntry>)
    ensures
        entries_view(r@) == catalog(),
{
    let r = vec![
        CatalogEntry {
            name: String::from_str("SideStore"),
            path: String::from_str("ALTPairingFile.mobiledevicepairing"),
        },
        CatalogEntry {
            name: String::from_str("Feather"),
            path: String::from_str("pairingFile.plist"),
        },
        CatalogEntry {
            name: String::from_str("StikDebug"),
            path: String::from_str("pairingFile.plist"),
        },
        CatalogEntry {
            name: String::from_str("Protokolle"),
            path: String::from_str("pairingFile.plist"),
        },
        CatalogEntry { name: String::from_str("Antrag"), path: String::from_str("pairingFile.plist") },
    ];
    assert(entries_view(r@) =~= catalog());
    r
}

/// Every installed app's display name could be read.
pub open spec fn all_named(installed: Seq<InstalledAppView>) -> bool {
    forall|i: int| 0 <= i < installed.len() ==> (#[trigger] installed[i]).display_name is Some
}

/// The bundle id of the last installed app shown under `name`: where two
/// installed apps share a display name, the one seen last wins.
pub open spec fn last_bundle_named(installed: Seq<InstalledAppView>, name: Seq<char>) -> Option<
    Seq<char>,
>
    decreases installed.len(),
{
    if installed.len() == 0 {
        None
    } else if installed.last().display_name == Some(name) {
        Some(installed.last().bundle_id)
    } else {
        last_bundle_named(installed.drop_last(), name)
    }
}

/// The catalog entries found among the installed apps, in catalog order.
pub open spec fn pairable_apps(
    installed: Seq<InstalledAppView>,
    entries: Seq<(Seq<char>, Seq<char>)>,
) -> Seq<PairingAppView>
    decreases entries.len(),
{
    if entries.len() == 0 {
        Seq::empty()
    } else {
        let rest = pairable_apps(installed, entries.drop_last());
        let (name, path) = entries.last();
        match last_bundle_named(installed, name) {
            Some(b) => rest.push(PairingAppView { name, bundle_id: b, path }),
            None => rest,
        }
    }
}

fn last_bundle_in(installed: &Vec<InstalledApp>, name: &String) -> (r: Option<String>)
    ensures
        match r {
            Some(b) => last_bundle_named(installed_view(installed@), name@) == Some(b@),
            None => last_bundle_named(installed_view(installed@), name@) is None,
        },
{
    let ghost all = installed_view(installed@);
    let mut k: usize = installed.len();
    assert(all.subrange(0, k as int) =~= all);
    while k > 0
        invariant
            k <= installed@.len(),
            all == installed_view(installed@),
            last_bundle_named(all, name@) == last_bundle_named(all.subrange(0, k as int), name@),
        decreases k,
    {
        let ghost pre = all.subrange(0, k as int);
        assert(pre.drop_last() =~= all.subrange(0, k - 1));
        k = k - 1;
        let hit = match &installed[k].display_name {
            Some(n) => *n == *name,
            None => false,
        };
        if hit {
            return Some(installed[k].bundle_id.clone());
        }
    }
    assert(all.subrange(0, 0).len() == 0);
    None
}

/// Intersects the installed apps with the catalog. Fails when a display name
/// could not be read; otherwise lists, in catalog order, each catalog app that
/// is installed, with the bundle id of the last installed app of that name.
pub fn installed_pairing_apps(installed: &Vec<InstalledApp>) -> (r: Result<
    Vec<PairingAppInfo>,
    IloaderError,
>)
    ensures
        !all_named(installed_view(installed@)) ==> r == Err::<Vec<PairingAppInfo>, IloaderError>(
            IloaderError::MalformedAppMetadata,
        ),
        all_named(installed_view(installed@)) ==> r is Ok && apps_view(r->Ok_0@) == pairable_apps(
            installed_view(installed@),
            catalog(),
        ),
{
    let ghost inst = installed_view(installed@);
    let mut i: usize = 0;
    while i < installed.len()
        invariant
            i <= installed@.len(),
            inst == installed_view(installed@),
            forall|j: int| 0 <= j < i ==> (#[trigger] inst[j]).display_name is Some,
        decreases installed@.len() - i,
    {
        if installed[i].display_name.is_none() {
            assert(inst[i as int].display_name is None);
            return Err(IloaderError::MalformedAppMetadata);
        }
        i = i + 1;
    }
    let entries = catalog_entries();
    let mut out: Vec<PairingAppInfo> = Vec::new();
    let mut j: usize = 0;
    while j < entries.len()
        invariant
            j <= entries@.len(),
            inst == installed_view(installed@),
            entries_view(entries@) == catalog(),
            apps_view(out@) == pairable_apps(inst, catalog().subrange(0, j as int)),
        decreases entries@.len() - j,
    {
        let ghost cat = catalog();
        assert(cat.subrange(0, j + 1).drop_last() =~= cat.subrange(0, j as int));
        assert(cat.subrange(0, j + 1).last() == entries@[j as int]@);
        let found = last_bundle_in(installed, &entries[j].name);
        match found {
            Some(b) => {
                let ghost before = out@;
                out.push(
                    PairingAppInfo {
                        name: entries[j].name.clone(),
                        bundle_id: b,
                        path: entries[j].path.clone(),
                    },
                );
                assert(apps_view(out@) =~= apps_view(before).push(out@.last()@));
            },
            None => {},
        }
        j = j + 1;
    }
    assert(catalog().subrange(0, entries@.len() as int) =~= catalog());
    Ok(out)
}

proof fn lemma_pairable_names_within(
    installed: Seq<InstalledAppView>,
    entries: Seq<(Seq<char>, Seq<char>)>,
)
    ensures
        forall|i: int|
            0 <= i < pairable_apps(installed, entries).len() ==> exists|k: int|
                0 <= k < entries.len() && (#[trigger] pairable_apps(installed, entries)[i]).name
                    == entries[k].0,
    decreases entries.len(),
{
    if entries.len() > 0 {
        let init = entries.drop_last();
        lemma_pairable_names_within(installed, init);
        let res = pairable_apps(installed, entries);
        let rest = pairable_apps(installed, init);
        assert forall|i: int| 0 <= i < res.len() implies exists|k: int|
            0 <= k < entries.len() && (#[trigger] res[i]).name == entries[k].0 by {
            if i < rest.len() {
                let k = choose|k: int| 0 <= k < init.len() && rest[i].name == init[k].0;
                assert(entries[k] == init[k]);
            } else {
                assert(res[i].name == entries[entries.len() - 1].0);
            }
        }
    }
}

proof fn lemma_pairable_names_distinct(
    installed: Seq<InstalledAppView>,
    entries: Seq<(Seq<char>, Seq<char>)>,
)
    requires
        forall|a: int, b: int| 0 <= a < b < entries.len() ==> entries[a].0 != entries[b].0,
    ensures
        forall|i: int, j: int|
            0 <= i < j < pairable_apps(installed, entries).len() ==> (#[trigger] pairable_apps(
                installed,
                entries,
            )[i]).name != (#[trigger] pairable_apps(installed, entries)[j]).name,
    decreases entries.len(),
{
    if entries.len() > 0 {
        let init = entries.drop_last();
        assert forall|a: int, b: int| 0 <= a < b < init.len() implies init[a].0 != init[b].0 by {
            assert(init[a] == entries[a] && init[b] == entries[b]);
        }
        lemma_pairable_names_distinct(installed, init);
        lemma_pairable_names_within(installed, init);
        let res = pairable_apps(installed, entries);
        let rest = pairable_apps(installed, init);
        assert forall|i: int, j: int| 0 <= i < j < res.len() implies (#[trigger] res[i]).name
            != (#[trigger] res[j]).name by {
            if j >= rest.len() {
                let k = choose|k: int| 0 <= k < init.len() && rest[i].name == init[k].0;
                assert(init[k] == entries[k]);
                assert(res[j].name == entries[entries.len() - 1].0);
            } else {
                assert(res[i] == rest[i] && res[j] == rest[j]);
            }
        }
    }
}

/// No two apps listed for a device share a catalog display name, whatever the
/// installed-application registry reports.
pub proof fn lemma_listed_names_distinct(installed: Seq<InstalledAppView>)
    ensures
        forall|i: int, j: int|
            0 <= i < j < pairable_apps(installed, catalog()).len() ==> (#[trigger] pairable_apps(
                installed,
                catalog(),
            )[i]).name != (#[trigger] pairable_apps(installed, catalog())[j]).name,
{
    let c = catalog();
    reveal_strlit("SideStore");
    reveal_strlit("Feather");
    reveal_strlit("StikDebug");
    reveal_strlit("Protokolle");
    reveal_strlit("Antrag");
    assert(c[0].0[1] != c[2].0[1]);
    assert forall|a: int, b: int| 0 <= a < b < c.len() implies c[a].0 != c[b].0 by {
        if a == 0 && b == 2 {
            assert(c[a].0[1] != c[b].0[1]);
        } else {
            assert(c[a].0.len() != c[b].0.len());
        }
    }
    lemma_pairable_names_distinct(installed, c);
}

/// Scans the installed apps in order for the primary app. A display name that
/// cannot be read before the primary app is found is an error.
pub open spec fn primary_scan(installed: Seq<InstalledAppView>) -> Result<Option<Seq<char>>, ()>
    decreases installed.len(),
{
    if installed.len() == 0 {
        Ok(None)
    } else {
        match installed[0].display_name {
            None => Err(()),
            Some(n) => if n == primary_app_name() {
                Ok(Some(installed[0].bundle_id))
            } else {
                primary_scan(installed.drop_first())
            },
        }
    }
}

/// Finds the first installed app shown under the primary app's name, with
/// the path at which that app reads its pairing credential.
pub fn get_sidestore_info(installed: &Vec<InstalledApp>) -> (r: Result<
    Option<PairingAppInfo>,
    IloaderError,
>)
    ensures
        primary_scan(installed_view(installed@)) is Err ==> r == Err::<
            Option<PairingAppInfo>,
            IloaderError,
        >(IloaderError::MalformedAppMetadata),
        primary_scan(installed_view(installed@)) == Ok::<Option<Seq<char>>, ()>(None) ==> r
            matches Ok(None),
        forall|b: Seq<char>|
            primary_scan(installed_view(installed@)) == Ok::<Option<Seq<char>>, ()>(Some(b)) ==> (
            r matches Ok(Some(info)) && info@ == (PairingAppView {
                name: primary_app_name(),
                bundle_id: b,
                path: catalog()[0].1,
            })),
{
    let ghost all = installed_view(installed@);
    let primary = String::from_str("SideStore");
    let mut i: usize = 0;
    assert(all.subrange(0, all.len() as int) =~= all);
    while i < installed.len()
        invariant
            i <= installed@.len(),
            all == installed_view(installed@),
            primary@ == primary_app_name(),
            primary_scan(all) == primary_scan(all.subrange(i as int, all.len() as int)),
        decreases installed@.len() - i,
    {
        let ghost rest = all.subrange(i as int, all.len() as int);
        assert(rest.drop_first() =~= all.subrange(i + 1, all.len() as int));
        match &installed[i].display_name {
            None => {
                return Err(IloaderError::MalformedAppMetadata);
            },
            Some(n) => {
                if *n == primary {
                    return Ok(
                        Some(
                            PairingAppInfo {
                                name: primary,
                                bundle_id: installed[i].bundle_id.clone(),
                                path: String::from_str("ALTPairingFile.mobiledevicepairing"),
                            },
                        ),
                    );
                }
            },
        }
        i = i + 1;
    }
    assert(all.subrange(i as int, all.len() as int).len() == 0);
    Ok(None)
}

/// The path, inside a sandbox, of the file at `rel` under the documents folder.
pub open spec fn documents_path(rel: Seq<char>) -> Seq<char> {
    "/Documents/"@ + rel
}

/// Where a credential destined for `rel` is written inside the target app's
/// sandbox: always under its documents folder.
pub fn device_path(rel: &str) -> (r: String)
    ensures
        r@ == documents_path(rel@),
{
    String::from_str("/Documents/").concat(rel)
}

/// The position of the last `/` in `s`, or -1 when there is none.
pub open spec fn last_slash(s: Seq<char>) -> int
    decreases s.len(),
{
    if s.len() == 0 {
        -1
    } else if s.last() == '/' {
        s.len() - 1
    } else {
        last_slash(s.drop_last())
    }
}

/// The folder that holds the credential placed at `rel`; it must exist before
/// the file is written.
pub open spec fn placement_dir(rel: Seq<char>) -> Seq<char> {
    if last_slash(rel) < 0 {
        "/Documents"@
    } else {
        documents_path(rel.subrange(0, last_slash(rel)))
    }
}

/// The folder, inside the target app's sandbox, that must exist before a
/// credential is written at `rel`.
pub fn placement_folder(rel: &str) -> (r: String)
    ensures
        r@ == placement_dir(rel@),
{
    let n = rel.unicode_len();
    let mut k: usize = n;
    assert(rel@.subrange(0, n as int) =~= rel@);
    while k > 0
        invariant
            k <= n,
            n == rel@.len(),
            last_slash(rel@) == last_slash(rel@.subrange(0, k as int)),
        decreases k,
    {
        assert(rel@.subrange(0, k as int).drop_last() =~= rel@.subrange(0, k - 1));
        if rel.get_char(k - 1) == '/' {
            return device_path(rel.substring_char(0, k - 1));
        }
        k = k - 1;
    }
    String::from_str("/Documents")
}

/// A sandbox, as path to file contents, after a credential serialised as
/// `contents` was placed at `rel`: the file is created or overwritten.
pub open spec fn after_placement(
    files: Map<Seq<char>, Seq<u8>>,
    rel: Seq<char>,
    contents: Seq<u8>,
) -> Map<Seq<char>, Seq<u8>> {
    files.insert(documents_path(rel), contents)
}

/// Placing the same credential at the same path a second time leaves the
/// sandbox exactly as the first placement left it, with the credential in the
/// file.
pub proof fn lemma_placement_idempotent(
    files: Map<Seq<char>, Seq<u8>>,
    rel: Seq<char>,
    contents: Seq<u8>,
)
    ensures
        after_placement(after_placement(files, rel, contents), rel, contents) == after_placement(
            files,
            rel,
            contents,
        ),
        after_placement(files, rel, contents)[documents_path(rel)] == contents,
{
    assert(after_placement(after_placement(files, rel, contents), rel, contents) =~= after_placement(
        files,
        rel,
        contents,
    ));
}

/// The outcome of the destination picker of a credential export: the chosen
/// path, or `Cancelled` when the user closed the picker, in which case nothing
/// is written.
pub fn export_destination(picked: Option<String>) -> (r: Result<String, IloaderError>)
    ensures
        picked is None ==> r == Err::<String, IloaderError>(IloaderError::Cancelled),
        picked is Some ==> r == Ok::<String, IloaderError>(picked->0),
{
    match picked {
        Some(p) => Ok(p),
        None => Err(IloaderError::Cancelled),
    }
}

} // verus!
