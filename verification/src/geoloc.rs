//! Roads, directions and modifiers, by which a location is described.

use crate::card::CardView;
use crate::text::str_opt;
use vstd::prelude::*;

verus! {

/// Road definitions
#[derive(Debug)]
#[allow(dead_code)]
pub struct Road {
    pub name: String,
    pub abbrev: String,
    pub r_class: u16,
    pub direction: u16,
}

/// Roadway directions
#[derive(Debug)]
#[allow(dead_code)]
pub struct Direction {
    pub id: u16,
    pub direction: String,
    pub dir: String,
}

/// Roadway modifiers
#[derive(Debug)]
#[allow(dead_code)]
pub struct RoadModifier {
    pub id: u16,
    pub modifier: String,
    pub md: String,
}

/// Location resource
pub trait Loc {
    /// The name of the location of the resource, if it has one.
    spec fn geoloc_view(&self) -> Option<Seq<char>>;

    /// Get geo location name
    fn geoloc(&self) -> (r: Option<&str>)
        ensures
            str_opt(r) == self.geoloc_view(),
    ;
}

/// What is fetched for the location of a resource.
#[derive(Clone, Debug, PartialEq, Eq)]
pub enum Asset {
    /// The location of that name.
    GeoLoc(String),
    /// The roadway directions.
    Directions,
    /// The roads.
    Roads,
    /// The roadway modifiers.
    RoadModifiers,
}

/// What an asset says.
pub enum AssetView {
    GeoLoc(Seq<char>),
    Directions,
    Roads,
    RoadModifiers,
}

impl View for Asset {
    type V = AssetView;

    open spec fn view(&self) -> AssetView {
        match *self {
            Asset::GeoLoc(nm) => AssetView::GeoLoc(nm@),
            Asset::Directions => AssetView::Directions,
            Asset::Roads => AssetView::Roads,
            Asset::RoadModifiers => AssetView::RoadModifiers,
        }
    }
}

/// What a list of assets says.
pub open spec fn asset_views(list: Seq<Asset>) -> Seq<AssetView> {
    list.map_values(|a: Asset| a@)
}

/// The assets that a view of a card needs for the location of its
/// resource: the location itself for the control view; for the location
/// view also the directions, roads and modifiers, in this order; nothing
/// for any other view, and nothing for a resource without location.
pub open spec fn assets_of(geoloc: Option<Seq<char>>, view: CardView) -> Seq<AssetView> {
    match (view, geoloc) {
        (CardView::Control, Some(nm)) => seq![AssetView::GeoLoc(nm)],
        (CardView::Location, Some(nm)) => seq![
            AssetView::GeoLoc(nm),
            AssetView::Directions,
            AssetView::Roads,
            AssetView::RoadModifiers,
        ],
        _ => Seq::empty(),
    }
}

/// Lists the assets to fetch for a location and a view.
pub fn assets_for(geoloc: Option<&str>, view: CardView) -> (r: Vec<Asset>)
    ensures
        asset_views(r@) == assets_of(str_opt(geoloc), view),
{
    let mut assets: Vec<Asset> = Vec::new();
    match (view, geoloc) {
        (CardView::Control, Some(nm)) => {
            assets.push(Asset::GeoLoc(nm.to_owned()));
        },
        (CardView::Location, Some(nm)) => {
            assets.push(Asset::GeoLoc(nm.to_owned()));
            assets.push(Asset::Directions);
            assets.push(Asset::Roads);
            assets.push(Asset::RoadModifiers);
        },
        _ => (),
    }
    proof {
        assert(asset_views(assets@) =~= assets_of(str_opt(geoloc), view));
    }
    assets
}

/// Lists the assets to fetch for the location of a resource and a view.
pub fn assets_for_resource<L: Loc>(pri: &L, view: CardView) -> (r: Vec<Asset>)
    ensures
        asset_views(r@) == assets_of(pri.geoloc_view(), view),
{
    assets_for(pri.geoloc(), view)
}

} // verus!
