//! The world maps.
use vstd::prelude::*;

verus! {

#[derive(Debug, Clone, Copy, PartialEq, Eq, Structural)]
pub enum CurrentMap {
    Map1,
    Map2,
    Map3,
}

impl Default for CurrentMap {
    fn default() -> (m: Self)
        ensures
            m == CurrentMap::Map1,
    {
        CurrentMap::Map1
    }
}

pub open spec fn map_asset_path(m: CurrentMap) -> Seq<char> {
    match m {
        CurrentMap::Map1 => "map/map1.png"@,
        CurrentMap::Map2 => "map/map2.png"@,
        CurrentMap::Map3 => "map/map3.png"@,
    }
}

pub open spec fn map_name(m: CurrentMap) -> Seq<char> {
    match m {
        CurrentMap::Map1 => "翠熔流彩溪"@,
        CurrentMap::Map2 => "晶光浅湾"@,
        CurrentMap::Map3 => "暗雷深渊"@,
    }
}

impl CurrentMap {
    /// The background image of the map.
    pub fn asset_path(self) -> (p: &'static str)
        ensures
            p@ == map_asset_path(self),
    {
        match self {
            Self::Map1 => "map/map1.png",
            Self::Map2 => "map/map2.png",
            Self::Map3 => "map/map3.png",
        }
    }

    /// The name shown for the map.
    pub fn name(self) -> (n: &'static str)
        ensures
            n@ == map_name(self),
    {
        match self {
            Self::Map1 => "翠熔流彩溪",
            Self::Map2 => "晶光浅湾",
            Self::Map3 => "暗雷深渊",
        }
    }
}

} // verus!
