//! Font resolution: one catalog per process, with deterministic fallback.
//!
//! The host's font set cannot be assumed, so the catalog assigns each of the
//! five generic family classes a concrete family name by a fixed policy:
//! the preferred family when the host has it, otherwise the first discovered
//! face with a usable name, otherwise a built-in generic name. A discovered
//! face carries no generic-class information, so the fallback goes straight
//! to the first usable face. Resolution never fails and every assignment is
//! non-empty, whatever the host has installed.

use vstd::prelude::*;
use resvg::usvg::fontdb;

verus! {

#[verifier::external_type_specification]
#[verifier::external_body]
pub struct ExFontDatabase(fontdb::Database);

/// The primary family name of each face the database holds, in the
/// database's own order.
pub uninterp spec fn families_of(db: fontdb::Database) -> Seq<Seq<char>>;

/// The raw data of each face the database holds, in the database's own
/// order. Together with the five aliases this is all the state of the
/// database that text layout reads.
pub uninterp spec fn font_data_of(db: fontdb::Database) -> Seq<Seq<u8>>;

/// The family alias recorded for the generic `serif` class.
pub uninterp spec fn serif_alias_of(db: fontdb::Database) -> Seq<char>;

/// The family alias recorded for the generic `sans-serif` class.
pub uninterp spec fn sans_serif_alias_of(db: fontdb::Database) -> Seq<char>;

/// The family alias recorded for the generic `cursive` class.
pub uninterp spec fn cursive_alias_of(db: fontdb::Database) -> Seq<char>;

/// The family alias recorded for the generic `fantasy` class.
pub uninterp spec fn fantasy_alias_of(db: fontdb::Database) -> Seq<char>;

/// The family alias recorded for the generic `monospace` class.
pub uninterp spec fn monospace_alias_of(db: fontdb::Database) -> Seq<char>;

/// Relies on `fontdb::Database::new`: creates a database with no faces.
/// Its initial aliases are not stated: one of them is platform-dependent,
/// and the catalog overwrites all five before any use.
#[verifier::external_body]
pub(crate) fn new_font_database() -> (db: fontdb::Database)
    ensures
        families_of(db) == Seq::<Seq<char>>::empty(),
        font_data_of(db) == Seq::<Seq<u8>>::empty(),
{
    fontdb::Database::new()
}

/// Relies on `fontdb::Database::load_system_fonts`: scans the host's font
/// directories, adding faces only. What it finds depends on the machine,
/// so nothing is claimed of the faces afterwards; the aliases are left as
/// they were.
#[verifier::external_body]
pub(crate) fn load_system_fonts(db: &mut fontdb::Database)
    ensures
        serif_alias_of(*final(db)) == serif_alias_of(*old(db)),
        sans_serif_alias_of(*final(db)) == sans_serif_alias_of(*old(db)),
        cursive_alias_of(*final(db)) == cursive_alias_of(*old(db)),
        fantasy_alias_of(*final(db)) == fantasy_alias_of(*old(db)),
        monospace_alias_of(*final(db)) == monospace_alias_of(*old(db)),
{
    db.load_system_fonts();
}

/// Relies on `fontdb::Database::faces`: lists the stored faces; each is
/// mapped to its first family name, or to an empty string for a face
/// without one.
#[verifier::external_body]
pub(crate) fn family_names(db: &fontdb::Database) -> (r: Vec<String>)
    ensures
        r.deep_view() == families_of(*db),
{
    db.faces().map(|f| f.families.first().map_or(String::new(), |p| p.0.clone())).collect()
}

/// Relies on `fontdb::Database::set_serif_family`: records exactly the
/// given alias for the serif class and touches nothing else.
#[verifier::external_body]
pub(crate) fn set_serif_family(db: &mut fontdb::Database, name: &String)
    ensures
        families_of(*final(db)) == families_of(*old(db)),
        font_data_of(*final(db)) == font_data_of(*old(db)),
        serif_alias_of(*final(db)) == name@,
        sans_serif_alias_of(*final(db)) == sans_serif_alias_of(*old(db)),
        cursive_alias_of(*final(db)) == cursive_alias_of(*old(db)),
        fantasy_alias_of(*final(db)) == fantasy_alias_of(*old(db)),
        monospace_alias_of(*final(db)) == monospace_alias_of(*old(db)),
{
    db.set_serif_family(name.clone());
}

/// Relies on `fontdb::Database::set_sans_serif_family`: records exactly
/// the given alias for the sans-serif class and touches nothing else.
#[verifier::external_body]
pub(crate) fn set_sans_serif_family(db: &mut fontdb::Database, name: &String)
    ensures
        families_of(*final(db)) == families_of(*old(db)),
        font_data_of(*final(db)) == font_data_of(*old(db)),
        serif_alias_of(*final(db)) == serif_alias_of(*old(db)),
        sans_serif_alias_of(*final(db)) == name@,
        cursive_alias_of(*final(db)) == cursive_alias_of(*old(db)),
        fantasy_alias_of(*final(db)) == fantasy_alias_of(*old(db)),
        monospace_alias_of(*final(db)) == monospace_alias_of(*old(db)),
{
    db.set_sans_serif_family(name.clone());
}

/// Relies on `fontdb::Database::set_cursive_family`: records exactly the
/// given alias for the cursive class and touches nothing else.
#[verifier::external_body]
pub(crate) fn set_cursive_family(db: &mut fontdb::Database, name: &String)
    ensures
        families_of(*final(db)) == families_of(*old(db)),
        font_data_of(*final(db)) == font_data_of(*old(db)),
        serif_alias_of(*final(db)) == serif_alias_of(*old(db)),
        sans_serif_alias_of(*final(db)) == sans_serif_alias_of(*old(db)),
        cursive_alias_of(*final(db)) == name@,
        fantasy_alias_of(*final(db)) == fantasy_alias_of(*old(db)),
        monospace_alias_of(*final(db)) == monospace_alias_of(*old(db)),
{
    db.set_cursive_family(name.clone());
}

/// Relies on `fontdb::Database::set_fantasy_family`: records exactly the
/// given alias for the fantasy class and touches nothing else.
#[verifier::external_body]
pub(crate) fn set_fantasy_family(db: &mut fontdb::Database, name: &String)
    ensures
        families_of(*final(db)) == families_of(*old(db)),
        font_data_of(*final(db)) == font_data_of(*old(db)),
        serif_alias_of(*final(db)) == serif_alias_of(*old(db)),
        sans_serif_alias_of(*final(db)) == sans_serif_alias_of(*old(db)),
        cursive_alias_of(*final(db)) == cursive_alias_of(*old(db)),
        fantasy_alias_of(*final(db)) == name@,
        monospace_alias_of(*final(db)) == monospace_alias_of(*old(db)),
{
    db.set_fantasy_family(name.clone());
}

/// Relies on `fontdb::Database::set_monospace_family`: records exactly the
/// given alias for the monospace class and touches nothing else.
#[verifier::external_body]
pub(crate) fn set_monospace_family(db: &mut fontdb::Database, name: &String)
    ensures
        families_of(*final(db)) == families_of(*old(db)),
        font_data_of(*final(db)) == font_data_of(*old(db)),
        serif_alias_of(*final(db)) == serif_alias_of(*old(db)),
        sans_serif_alias_of(*final(db)) == sans_serif_alias_of(*old(db)),
        cursive_alias_of(*final(db)) == cursive_alias_of(*old(db)),
        fantasy_alias_of(*final(db)) == fantasy_alias_of(*old(db)),
        monospace_alias_of(*final(db)) == name@,
{
    db.set_monospace_family(name.clone());
}

/// The first discovered family with a usable (non-empty) name, or the
/// built-in name when none qualifies.
pub open spec fn first_usable(discovered: Seq<Seq<char>>, builtin: Seq<char>) -> Seq<char>
    decreases discovered.len(),
{
    if discovered.len() == 0 {
        builtin
    } else if discovered[0].len() > 0 {
        discovered[0]
    } else {
        first_usable(discovered.drop_first(), builtin)
    }
}

/// The assignment policy for one generic class: the preferred family when
/// discovered, otherwise the first usable discovered face, otherwise the
/// built-in name.
pub open spec fn assignment(
    preferred: Seq<char>,
    discovered: Seq<Seq<char>>,
    builtin: Seq<char>,
) -> Seq<char> {
    if exists|i: int| 0 <= i < discovered.len() && discovered[i] == preferred {
        preferred
    } else {
        first_usable(discovered, builtin)
    }
}

proof fn lemma_first_usable_skip(discovered: Seq<Seq<char>>, builtin: Seq<char>, i: nat)
    requires
        i <= discovered.len(),
        forall|j: int| 0 <= j < i ==> discovered[j].len() == 0,
    ensures
        first_usable(discovered, builtin) == first_usable(discovered.skip(i as int), builtin),
    decreases i,
{
    if i > 0 {
        assert(discovered[0].len() == 0);
        assert(discovered.drop_first() =~= discovered.skip(1));
        assert(forall|j: int|
            0 <= j < i - 1 ==> #[trigger] discovered.skip(1)[j].len() == 0) by {
            assert(forall|j: int|
                0 <= j < i - 1 ==> #[trigger] discovered.skip(1)[j] == discovered[j + 1]);
        }
        lemma_first_usable_skip(discovered.skip(1), builtin, (i - 1) as nat);
        assert(discovered.skip(1).skip(i - 1) =~= discovered.skip(i as int));
        assert(first_usable(discovered, builtin) == first_usable(discovered.skip(1), builtin));
    } else {
        assert(discovered.skip(0) =~= discovered);
    }
}

/// Character-for-character string comparison.
pub fn str_eq(a: &str, b: &str) -> (r: bool)
    ensures
        r == (a@ == b@),
{
    let la = a.unicode_len();
    let lb = b.unicode_len();
    if la != lb {
        return false;
    }
    let mut i: usize = 0;
    while i < la
        invariant
            la == a@.len(),
            la == b@.len(),
            i <= la,
            forall|j: int| 0 <= j < i ==> a@[j] == b@[j],
        decreases la - i,
    {
        if a.get_char(i) != b.get_char(i) {
            return false;
        }
        i = i + 1;
    }
    proof {
        assert(a@ =~= b@);
    }
    true
}

/// Picks the concrete family for one generic class, by the fixed policy.
pub fn assign_family(preferred: &str, discovered: &Vec<String>, builtin: &str) -> (r: String)
    requires
        preferred@.len() > 0,
        builtin@.len() > 0,
    ensures
        r@ == assignment(preferred@, discovered.deep_view(), builtin@),
        r@.len() > 0,
{
    let n = discovered.len();
    let mut i: usize = 0;
    while i < n
        invariant
            n == discovered.len(),
            i <= n,
            preferred@.len() > 0,
            forall|j: int| 0 <= j < i ==> discovered.deep_view()[j] != preferred@,
        decreases n - i,
    {
        if str_eq(discovered[i].as_str(), preferred) {
            proof {
                assert(discovered.deep_view()[i as int] == discovered@[i as int]@);
            }
            return String::from_str(preferred);
        }
        i = i + 1;
    }
    let mut k: usize = 0;
    while k < n
        invariant
            n == discovered.len(),
            k <= n,
            forall|j: int| 0 <= j < n ==> discovered.deep_view()[j] != preferred@,
            forall|j: int| 0 <= j < k ==> discovered.deep_view()[j].len() == 0,
        decreases n - k,
    {
        if discovered[k].as_str().unicode_len() > 0 {
            proof {
                lemma_first_usable_skip(discovered.deep_view(), builtin@, k as nat);
            }
            return discovered[k].clone();
        }
        k = k + 1;
    }
    proof {
        lemma_first_usable_skip(discovered.deep_view(), builtin@, n as nat);
    }
    String::from_str(builtin)
}

/// The resolved catalog: one concrete family per generic class, plus the
/// database the faces were discovered in and their family names.
pub struct FontCatalog {
    pub db: fontdb::Database,
    pub serif: String,
    pub sans_serif: String,
    pub cursive: String,
    pub fantasy: String,
    pub monospace: String,
    pub faces: Vec<String>,
}

/// Every class assignment follows the policy for the catalog's own face
/// list, none of the five is empty, and the catalog's database has each
/// assignment recorded as the alias of its generic class.
pub open spec fn catalog_wf(c: &FontCatalog) -> bool {
    &&& c.serif@ == assignment("Times New Roman"@, c.faces.deep_view(), "serif"@)
    &&& c.sans_serif@ == assignment("Arial"@, c.faces.deep_view(), "sans-serif"@)
    &&& c.cursive@ == assignment("Comic Sans MS"@, c.faces.deep_view(), "cursive"@)
    &&& c.fantasy@ == assignment("Impact"@, c.faces.deep_view(), "fantasy"@)
    &&& c.monospace@ == assignment("Courier New"@, c.faces.deep_view(), "monospace"@)
    &&& c.serif@.len() > 0
    &&& c.sans_serif@.len() > 0
    &&& c.cursive@.len() > 0
    &&& c.fantasy@.len() > 0
    &&& c.monospace@.len() > 0
    &&& serif_alias_of(c.db) == c.serif@
    &&& sans_serif_alias_of(c.db) == c.sans_serif@
    &&& cursive_alias_of(c.db) == c.cursive@
    &&& fantasy_alias_of(c.db) == c.fantasy@
    &&& monospace_alias_of(c.db) == c.monospace@
}

/// Builds the catalog for a given database and its discovered family names,
/// and records the five assignments in the database as well.
pub fn catalog_with_faces(db: fontdb::Database, faces: Vec<String>) -> (c: FontCatalog)
    ensures
        catalog_wf(&c),
        c.faces == faces,
{
    proof {
        reveal_strlit("Times New Roman");
        reveal_strlit("Arial");
        reveal_strlit("Comic Sans MS");
        reveal_strlit("Impact");
        reveal_strlit("Courier New");
        reveal_strlit("serif");
        reveal_strlit("sans-serif");
        reveal_strlit("cursive");
        reveal_strlit("fantasy");
        reveal_strlit("monospace");
    }
    let serif = assign_family("Times New Roman", &faces, "serif");
    let sans_serif = assign_family("Arial", &faces, "sans-serif");
    let cursive = assign_family("Comic Sans MS", &faces, "cursive");
    let fantasy = assign_family("Impact", &faces, "fantasy");
    let monospace = assign_family("Courier New", &faces, "monospace");
    let mut db = db;
    set_serif_family(&mut db, &serif);
    set_sans_serif_family(&mut db, &sans_serif);
    set_cursive_family(&mut db, &cursive);
    set_fantasy_family(&mut db, &fantasy);
    set_monospace_family(&mut db, &monospace);
    FontCatalog { db, serif, sans_serif, cursive, fantasy, monospace, faces }
}

/// Scans the host's fonts once and resolves the catalog. Never fails: with
/// zero discoverable fonts every class still gets its built-in name.
pub fn resolve() -> (c: FontCatalog)
    ensures
        catalog_wf(&c),
{
    let mut db = new_font_database();
    load_system_fonts(&mut db);
    let faces = family_names(&db);
    catalog_with_faces(db, faces)
}

} // verus!
