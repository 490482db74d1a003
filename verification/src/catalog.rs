//! The closed catalog of vessel categories: fourteen variants, each with a
//! canonical display label and the name of its illustrative image asset.

use vstd::prelude::*;

verus! {

/// One of the fourteen vessel categories distinguished by their navigation
/// light configuration.
#[derive(Debug, Copy, Clone, PartialEq, Eq, Hash, Structural)]
pub enum Boat {
    SegelfahrzeugUnter7m,
    SegelfahrzeugBis20m,
    SegelfahrzeugUeber20m,
    MaschinenfahrzeugBis50m,
    MaschinenfahrzeugUeber50m,
    Lostenfahrzeug,
    NichtTrawlendeFischer,
    TrawlendeFischer,
    Manoevrierbehindert,
    Manoevrierunfaehig,
    Tiefgangbehindert,
    Ankerlieger,
    Grundsitzer,
    Schleppverband,
}

/// The catalog in its fixed declaration order.
pub open spec fn catalog() -> Seq<Boat> {
    seq![
        Boat::SegelfahrzeugUnter7m,
        Boat::SegelfahrzeugBis20m,
        Boat::SegelfahrzeugUeber20m,
        Boat::MaschinenfahrzeugBis50m,
        Boat::MaschinenfahrzeugUeber50m,
        Boat::Lostenfahrzeug,
        Boat::NichtTrawlendeFischer,
        Boat::TrawlendeFischer,
        Boat::Manoevrierbehindert,
        Boat::Manoevrierunfaehig,
        Boat::Tiefgangbehindert,
        Boat::Ankerlieger,
        Boat::Grundsitzer,
        Boat::Schleppverband,
    ]
}

/// The position of a vessel category in the catalog order.
pub open spec fn catalog_index(b: Boat) -> int {
    match b {
        Boat::SegelfahrzeugUnter7m => 0,
        Boat::SegelfahrzeugBis20m => 1,
        Boat::SegelfahrzeugUeber20m => 2,
        Boat::MaschinenfahrzeugBis50m => 3,
        Boat::MaschinenfahrzeugUeber50m => 4,
        Boat::Lostenfahrzeug => 5,
        Boat::NichtTrawlendeFischer => 6,
        Boat::TrawlendeFischer => 7,
        Boat::Manoevrierbehindert => 8,
        Boat::Manoevrierunfaehig => 9,
        Boat::Tiefgangbehindert => 10,
        Boat::Ankerlieger => 11,
        Boat::Grundsitzer => 12,
        Boat::Schleppverband => 13,
    }
}

/// Every vessel category stands in the catalog, at its catalog index.
pub proof fn lemma_catalog_index(b: Boat)
    ensures
        0 <= catalog_index(b) < catalog().len(),
        catalog()[catalog_index(b)] == b,
{
}

/// All fourteen vessel categories, in the fixed catalog order.
pub fn all_boats() -> (v: Vec<Boat>)
    ensures
        v@ == catalog(),
{
    let mut v: Vec<Boat> = Vec::new();
    v.push(Boat::SegelfahrzeugUnter7m);
    v.push(Boat::SegelfahrzeugBis20m);
    v.push(Boat::SegelfahrzeugUeber20m);
    v.push(Boat::MaschinenfahrzeugBis50m);
    v.push(Boat::MaschinenfahrzeugUeber50m);
    v.push(Boat::Lostenfahrzeug);
    v.push(Boat::NichtTrawlendeFischer);
    v.push(Boat::TrawlendeFischer);
    v.push(Boat::Manoevrierbehindert);
    v.push(Boat::Manoevrierunfaehig);
    v.push(Boat::Tiefgangbehindert);
    v.push(Boat::Ankerlieger);
    v.push(Boat::Grundsitzer);
    v.push(Boat::Schleppverband);
    proof {
        assert(v@ =~= catalog());
    }
    v
}

/// The canonical human-readable label of each vessel category.
pub open spec fn display_name_spec(b: Boat) -> Seq<char> {
    match b {
        Boat::SegelfahrzeugUnter7m => "Segelfahrzeug unter 7m"@,
        Boat::SegelfahrzeugBis20m => "Segelfahrzeug bis 20m"@,
        Boat::SegelfahrzeugUeber20m => "Segelfahrzeug über 20m"@,
        Boat::MaschinenfahrzeugBis50m => "Maschinenfahrzeug bis 50m"@,
        Boat::MaschinenfahrzeugUeber50m => "Maschinenfahrzeug über 50m"@,
        Boat::Lostenfahrzeug => "Lostenfahrzeug"@,
        Boat::NichtTrawlendeFischer => "Nicht trawlende Fischer"@,
        Boat::TrawlendeFischer => "Trawlende Fischer"@,
        Boat::Manoevrierbehindert => "Manövrierbehindert"@,
        Boat::Manoevrierunfaehig => "Manövrierunfähig"@,
        Boat::Tiefgangbehindert => "Tiefgangbehindert"@,
        Boat::Ankerlieger => "Ankerlieger"@,
        Boat::Grundsitzer => "Grundsitzer"@,
        Boat::Schleppverband => "Schleppverband"@,
    }
}

/// The canonical human-readable label of a vessel category.
pub fn display_name(b: Boat) -> (r: &'static str)
    ensures
        r@ == display_name_spec(b),
{
    match b {
        Boat::SegelfahrzeugUnter7m => "Segelfahrzeug unter 7m",
        Boat::SegelfahrzeugBis20m => "Segelfahrzeug bis 20m",
        Boat::SegelfahrzeugUeber20m => "Segelfahrzeug über 20m",
        Boat::MaschinenfahrzeugBis50m => "Maschinenfahrzeug bis 50m",
        Boat::MaschinenfahrzeugUeber50m => "Maschinenfahrzeug über 50m",
        Boat::Lostenfahrzeug => "Lostenfahrzeug",
        Boat::NichtTrawlendeFischer => "Nicht trawlende Fischer",
        Boat::TrawlendeFischer => "Trawlende Fischer",
        Boat::Manoevrierbehindert => "Manövrierbehindert",
        Boat::Manoevrierunfaehig => "Manövrierunfähig",
        Boat::Tiefgangbehindert => "Tiefgangbehindert",
        Boat::Ankerlieger => "Ankerlieger",
        Boat::Grundsitzer => "Grundsitzer",
        Boat::Schleppverband => "Schleppverband",
    }
}

/// The file name of the image asset that illustrates each vessel category.
pub open spec fn asset_name_spec(b: Boat) -> Seq<char> {
    match b {
        Boat::SegelfahrzeugUnter7m => "segelfahrzeug-unter-7m.png"@,
        Boat::SegelfahrzeugBis20m => "segelfahrzeuge-bis-20m.png"@,
        Boat::SegelfahrzeugUeber20m => "segelfahrzeuge-ueber-20m.png"@,
        Boat::MaschinenfahrzeugBis50m => "maschinenfahrzeuge-bis-50m.png"@,
        Boat::MaschinenfahrzeugUeber50m => "maschinenfahrzeuge-ueber-50m.png"@,
        Boat::Lostenfahrzeug => "lotsenfahrzeuge.png"@,
        Boat::NichtTrawlendeFischer => "nichttrawlende-fischer-kein-schleppnetz.png"@,
        Boat::TrawlendeFischer => "trawlende-fischer-schleppnetz.png"@,
        Boat::Manoevrierbehindert => "manoevrierbehindertes-fahrzeug.png"@,
        Boat::Manoevrierunfaehig => "manoevrierunfaehiges-fahrzeug.png"@,
        Boat::Tiefgangbehindert => "tiefgangbehindertes-fahrzeug.png"@,
        Boat::Ankerlieger => "ankerlieger.png"@,
        Boat::Grundsitzer => "grundsitzer.png"@,
        Boat::Schleppverband => "schleppverband.png"@,
    }
}

/// The file name of the image asset that illustrates a vessel category.
/// Every category has exactly one asset; the lookup is total.
pub fn asset_name(b: Boat) -> (r: &'static str)
    ensures
        r@ == asset_name_spec(b),
{
    match b {
        Boat::SegelfahrzeugUnter7m => "segelfahrzeug-unter-7m.png",
        Boat::SegelfahrzeugBis20m => "segelfahrzeuge-bis-20m.png",
        Boat::SegelfahrzeugUeber20m => "segelfahrzeuge-ueber-20m.png",
        Boat::MaschinenfahrzeugBis50m => "maschinenfahrzeuge-bis-50m.png",
        Boat::MaschinenfahrzeugUeber50m => "maschinenfahrzeuge-ueber-50m.png",
        Boat::Lostenfahrzeug => "lotsenfahrzeuge.png",
        Boat::NichtTrawlendeFischer => "nichttrawlende-fischer-kein-schleppnetz.png",
        Boat::TrawlendeFischer => "trawlende-fischer-schleppnetz.png",
        Boat::Manoevrierbehindert => "manoevrierbehindertes-fahrzeug.png",
        Boat::Manoevrierunfaehig => "manoevrierunfaehiges-fahrzeug.png",
        Boat::Tiefgangbehindert => "tiefgangbehindertes-fahrzeug.png",
        Boat::Ankerlieger => "ankerlieger.png",
        Boat::Grundsitzer => "grundsitzer.png",
        Boat::Schleppverband => "schleppverband.png",
    }
}

} // verus!
