//! The UI asset catalogue and its single readiness/error gate.
use vstd::prelude::*;
use crate::model::UnitArchetype;

verus! {

/// Number of images in the catalogue.
pub const IMAGE_COUNT: usize = 12;
/// Number of font faces in the catalogue.
pub const FONT_COUNT: usize = 7;
/// Images first, then fonts.
pub const CATALOG_LEN: usize = 19;

pub const KEY_ART_PATH: &'static str = "ui/key_art.png";
pub const BRIEFING_ART_PATH: &'static str = "ui/briefing.png";
pub const VANGUARD_ART_PATH: &'static str = "ui/vanguard.png";
pub const GUNNER_ART_PATH: &'static str = "ui/gunner.png";
pub const INTERCEPTOR_ART_PATH: &'static str = "ui/interceptor.png";
pub const VANGUARD_MAP_PATH: &'static str = "ui/map/vanguard.png";
pub const GUNNER_MAP_PATH: &'static str = "ui/map/gunner.png";
pub const INTERCEPTOR_MAP_PATH: &'static str = "ui/map/interceptor.png";
pub const ENEMY_MAP_PATH: &'static str = "ui/map/enemy.png";

/// Which tactical-map sprite a unit uses.
#[derive(Clone, Copy, Debug, PartialEq, Eq, Structural)]
pub enum MapSprite {
    Vanguard,
    Gunner,
    Interceptor,
    Enemy,
}

pub open spec fn spec_map_sprite(a: UnitArchetype) -> MapSprite {
    match a {
        UnitArchetype::Vanguard => MapSprite::Vanguard,
        UnitArchetype::Gunner => MapSprite::Gunner,
        UnitArchetype::Interceptor => MapSprite::Interceptor,
        _ => MapSprite::Enemy,
    }
}

/// Map sprite of an archetype: the three pilots have their own art, every
/// enemy archetype shares one.
pub fn map_sprite(archetype: UnitArchetype) -> (s: MapSprite)
    ensures
        s == spec_map_sprite(archetype),
{
    match archetype {
        UnitArchetype::Vanguard => MapSprite::Vanguard,
        UnitArchetype::Gunner => MapSprite::Gunner,
        UnitArchetype::Interceptor => MapSprite::Interceptor,
        UnitArchetype::Rifleman | UnitArchetype::Striker | UnitArchetype::Artillery
        | UnitArchetype::Flanker | UnitArchetype::Bulwark | UnitArchetype::Controller
        | UnitArchetype::Dreadnought | UnitArchetype::Regent => MapSprite::Enemy,
    }
}

/// Catalogue index of a map sprite's image.
pub fn map_sprite_catalog_index(s: MapSprite) -> (i: usize)
    ensures
        i == match s {
            MapSprite::Vanguard => 5int,
            MapSprite::Gunner => 6,
            MapSprite::Interceptor => 7,
            MapSprite::Enemy => 8,
        },
{
    match s {
        MapSprite::Vanguard => 5,
        MapSprite::Gunner => 6,
        MapSprite::Interceptor => 7,
        MapSprite::Enemy => 8,
    }
}

/// What the asset server reports for one catalogue entry (images first,
/// then fonts): its path, whether its load, dependency load or recursive
/// dependency load failed, and whether it is loaded with all dependencies.
#[derive(Clone, Copy, Debug, PartialEq, Eq)]
pub struct AssetProbe {
    pub path: &'static str,
    pub failed: bool,
    pub loaded: bool,
}

#[derive(Clone, Copy, Debug, PartialEq, Eq)]
pub enum AssetLoadStatus {
    Loading,
    Ready,
    Failed(&'static str),
}

pub open spec fn all_loaded(probes: Seq<AssetProbe>) -> bool {
    forall|i: int| 0 <= i < probes.len() ==> probes[i].loaded
}

/// Path of the first catalogue entry whose load failed; with the images
/// listed before the fonts, any failed image is reported before a font.
pub fn failed_path(probes: &Vec<AssetProbe>) -> (p: Option<&'static str>)
    ensures
        match p {
            Some(path) => exists|i: int|
                0 <= i < probes@.len() && probes@[i].failed && (forall|j: int|
                    0 <= j < i ==> !probes@[j].failed) && path == probes@[i].path,
            None => forall|i: int| 0 <= i < probes@.len() ==> !probes@[i].failed,
        },
{
    let mut i: usize = 0;
    while i < probes.len()
        invariant
            i <= probes@.len(),
            forall|j: int| 0 <= j < i ==> !probes@[j].failed,
        decreases probes@.len() - i,
    {
        if probes[i].failed {
            return Some(probes[i].path);
        }
        i = i + 1;
    }
    None
}

/// Whether every catalogue entry is loaded with its dependencies.
pub fn is_ready(probes: &Vec<AssetProbe>) -> (b: bool)
    ensures
        b == all_loaded(probes@),
{
    let mut i: usize = 0;
    while i < probes.len()
        invariant
            i <= probes@.len(),
            forall|j: int| 0 <= j < i ==> probes@[j].loaded,
        decreases probes@.len() - i,
    {
        if !probes[i].loaded {
            return false;
        }
        i = i + 1;
    }
    true
}

/// Whether the mission may accept input: only once every asset is ready.
pub fn mission_assets_ready(status: &AssetLoadStatus) -> (b: bool)
    ensures
        b == (*status is Ready),
{
    match status {
        AssetLoadStatus::Ready => true,
        _ => false,
    }
}

/// One poll of the catalogue. Only `Loading` moves: to `Failed` with the
/// first failed path, else to `Ready` once everything is loaded. Without a
/// catalogue nothing changes.
pub fn monitor_mission_assets(status: &mut AssetLoadStatus, probes: Option<&Vec<AssetProbe>>)
    ensures
        !(*old(status) is Loading) ==> *final(status) == *old(status),
        probes.is_none() ==> *final(status) == *old(status),
        (*old(status) is Loading && probes.is_some()) ==> {
            let p = probes.unwrap()@;
            if exists|i: int| 0 <= i < p.len() && p[i].failed {
                exists|i: int|
                    0 <= i < p.len() && p[i].failed && (forall|j: int|
                        0 <= j < i ==> !p[j].failed) && (match *final(status) {
                        AssetLoadStatus::Failed(path) => path == p[i].path,
                        _ => false,
                    })
            } else if all_loaded(p) {
                *final(status) is Ready
            } else {
                *final(status) is Loading
            }
        },
{
    match status {
        AssetLoadStatus::Loading => {},
        _ => {
            return ;
        },
    }
    let probes = match probes {
        Some(p) => p,
        None => {
            return ;
        },
    };
    match failed_path(probes) {
        Some(path) => {
            *status = AssetLoadStatus::Failed(path);
        },
        None => {
            if is_ready(probes) {
                *status = AssetLoadStatus::Ready;
            }
        },
    }
}

/// The battle panel's asset line: what it says and in which tone, or
/// `None` once everything is ready (the panel hides).
#[derive(Clone, Debug, PartialEq, Eq)]
pub enum AssetStatusLine {
    Loading(String),
    Failed(String),
}

pub fn asset_status_text(status: &AssetLoadStatus) -> (l: Option<AssetStatusLine>)
    ensures
        match *status {
            AssetLoadStatus::Loading => match l {
                Some(AssetStatusLine::Loading(t)) => t@ == "Loading battle UI assets..."@,
                _ => false,
            },
            AssetLoadStatus::Ready => l.is_none(),
            AssetLoadStatus::Failed(path) => match l {
                Some(AssetStatusLine::Failed(t)) => t@ == "ASSET LOAD FAILED\n"@ + path@,
                _ => false,
            },
        },
{
    match status {
        AssetLoadStatus::Loading => {
            let mut t = String::new();
            t.append("Loading battle UI assets...");
            Some(AssetStatusLine::Loading(t))
        },
        AssetLoadStatus::Ready => None,
        AssetLoadStatus::Failed(path) => {
            let mut t = String::new();
            t.append("ASSET LOAD FAILED\n");
            t.append(path);
            Some(AssetStatusLine::Failed(t))
        },
    }
}

} // verus!
