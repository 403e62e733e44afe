//! The model of an external tile-catalog page: time-stamped features,
//! each carrying per-band assets with a file locator and projected
//! geometry metadata.

use vstd::prelude::*;

use crate::fmtnum::MICRO_SCALE;
use crate::primitives::Coordinate2D;

verus! {

/// One file reference of a catalog feature: its locator, projected pixel
/// dimensions as `(rows, columns)`, and the six- or nine-element affine
/// transform of its projected grid, in micro-units.
#[derive(Debug, PartialEq, Eq)]
pub struct StacAsset {
    pub href: String,
    pub proj_shape: Option<(u64, u64)>,
    pub proj_transform: Option<Vec<i64>>,
}

/// One time-stamped catalog entry: its acquisition instant in epoch
/// milliseconds, the reference-system partition it belongs to, and its
/// assets keyed by band name.
#[derive(Debug, PartialEq, Eq)]
pub struct StacFeature {
    pub datetime: i64,
    pub proj_epsg: Option<u32>,
    pub assets: Vec<(String, StacAsset)>,
}

/// The pagination footer of a catalog page: how many features matched in
/// all, and the page size the catalog applied.
#[derive(Debug, Clone, Copy, PartialEq, Eq, Structural)]
pub struct StacCollectionContext {
    pub matched: u64,
    pub limit: u64,
}

/// An affine grid-to-world transform: world origin of the grid's
/// upper-left corner and the signed pixel sizes, in micro-units.
#[derive(Debug, Clone, Copy, PartialEq, Eq, Structural)]
pub struct GeoTransform {
    pub origin_coordinate: Coordinate2D,
    pub x_pixel_size: i64,
    pub y_pixel_size: i64,
}

/// The grid-to-world transform an asset's projected-transform metadata
/// describes: accepted with six elements, or with nine whose last row is
/// the affine identity `0 0 1`.
pub open spec fn spec_gdal_geotransform(asset: StacAsset) -> Option<GeoTransform> {
    match asset.proj_transform {
        None => None,
        Some(t) => {
            if t@.len() == 6 || (t@.len() == 9 && t@[6] == 0 && t@[7] == 0 && t@[8] == MICRO_SCALE) {
                Some(
                    GeoTransform {
                        origin_coordinate: Coordinate2D { x: t@[2], y: t@[5] },
                        x_pixel_size: t@[0],
                        y_pixel_size: t@[4],
                    },
                )
            } else {
                None
            }
        },
    }
}

impl StacAsset {
    /// Reads the asset's grid-to-world transform, if its metadata is
    /// well-formed.
    pub fn gdal_geotransform(&self) -> (r: Option<GeoTransform>)
        ensures
            r == spec_gdal_geotransform(*self),
    {
        match &self.proj_transform {
            None => None,
            Some(t) => {
                if t.len() == 6 || (t.len() == 9 && t[6] == 0 && t[7] == 0 && t[8] == 1_000_000) {
                    Some(
                        GeoTransform {
                            origin_coordinate: Coordinate2D { x: t[2], y: t[5] },
                            x_pixel_size: t[0],
                            y_pixel_size: t[4],
                        },
                    )
                } else {
                    None
                }
            },
        }
    }
}

/// Whether acquisition instants never decrease along the sequence.
pub open spec fn sorted_by_time(s: Seq<StacFeature>) -> bool {
    forall|i: int, j: int| 0 <= i < j < s.len() ==> s[i].datetime <= s[j].datetime
}

/// `x` placed into `s` after every feature whose instant is not later:
/// the stable insertion step.
pub open spec fn spec_insert_by_time(x: StacFeature, s: Seq<StacFeature>) -> Seq<StacFeature>
    decreases s.len(),
{
    if s.len() == 0 {
        seq![x]
    } else if x.datetime < s[0].datetime {
        seq![x] + s
    } else {
        seq![s[0]] + spec_insert_by_time(x, s.skip(1))
    }
}

/// `s` stably sorted by acquisition instant, ascending: features with
/// equal instants keep their original order.
pub open spec fn spec_sort_by_time(s: Seq<StacFeature>) -> Seq<StacFeature>
    decreases s.len(),
{
    if s.len() == 0 {
        Seq::empty()
    } else {
        spec_insert_by_time(s.last(), spec_sort_by_time(s.drop_last()))
    }
}

/// The features of `s` that belong to the `epsg` partition, in order.
pub open spec fn spec_filter_zone(s: Seq<StacFeature>, epsg: u32) -> Seq<StacFeature>
    decreases s.len(),
{
    if s.len() == 0 {
        Seq::empty()
    } else {
        spec_filter_zone(s.drop_last(), epsg) + (if s.last().proj_epsg == Some(epsg) {
            seq![s.last()]
        } else {
            Seq::empty()
        })
    }
}

/// Stable insertion splits the sequence at the first strictly later
/// feature.
proof fn lemma_insert_at(x: StacFeature, s: Seq<StacFeature>, j: int)
    requires
        0 <= j <= s.len(),
        forall|i: int| 0 <= i < j ==> s[i].datetime <= x.datetime,
        j < s.len() ==> x.datetime < s[j].datetime,
    ensures
        spec_insert_by_time(x, s) =~= s.take(j) + seq![x] + s.skip(j),
    decreases j,
{
    if j == 0 {
        assert(s.take(0) =~= Seq::<StacFeature>::empty());
    } else {
        assert(s[0].datetime <= x.datetime);
        lemma_insert_at(x, s.skip(1), j - 1);
        assert(s.skip(1).take(j - 1) =~= s.take(j).skip(1));
        assert(s.skip(1).skip(j - 1) =~= s.skip(j));
    }
}

/// Insertion grows the sequence by exactly one feature.
proof fn lemma_insert_len(x: StacFeature, s: Seq<StacFeature>)
    ensures
        spec_insert_by_time(x, s).len() == s.len() + 1,
    decreases s.len(),
{
    if s.len() == 0 {
    } else if x.datetime < s[0].datetime {
    } else {
        lemma_insert_len(x, s.skip(1));
    }
}

/// Inserting into a sorted sequence keeps it sorted.
proof fn lemma_insert_sorted(x: StacFeature, s: Seq<StacFeature>)
    requires
        sorted_by_time(s),
    ensures
        sorted_by_time(spec_insert_by_time(x, s)),
        spec_insert_by_time(x, s).len() == s.len() + 1,
    decreases s.len(),
{
    lemma_insert_len(x, s);
    if s.len() == 0 {
    } else if x.datetime < s[0].datetime {
    } else {
        assert(sorted_by_time(s.skip(1))) by {
            assert(forall|i: int, j: int|
                0 <= i < j < s.skip(1).len() ==> #[trigger] s.skip(1)[i].datetime
                    <= #[trigger] s.skip(1)[j].datetime);
        }
        lemma_insert_sorted(x, s.skip(1));
        let r = seq![s[0]] + spec_insert_by_time(x, s.skip(1));
        assert forall|i: int, j: int| 0 <= i < j < r.len() implies r[i].datetime
            <= r[j].datetime by {
            if i == 0 {
                lemma_insert_members(x, s.skip(1), j - 1);
            }
        }
    }
}

/// Every element of an insertion result is the inserted feature or an
/// element of the original sequence.
proof fn lemma_insert_members(x: StacFeature, s: Seq<StacFeature>, k: int)
    requires
        0 <= k < spec_insert_by_time(x, s).len(),
    ensures
        spec_insert_by_time(x, s).len() == s.len() + 1,
        spec_insert_by_time(x, s)[k] == x || exists|m: int|
            0 <= m < s.len() && spec_insert_by_time(x, s)[k] == s[m],
    decreases s.len(),
{
    lemma_insert_len(x, s);
    if s.len() == 0 {
    } else if x.datetime < s[0].datetime {
        if k > 0 {
            assert(spec_insert_by_time(x, s)[k] == s[k - 1]);
        }
    } else {
        if k > 0 {
            lemma_insert_len(x, s.skip(1));
            lemma_insert_members(x, s.skip(1), k - 1);
            if spec_insert_by_time(x, s.skip(1))[k - 1] != x {
                let m = choose|m: int|
                    0 <= m < s.skip(1).len() && spec_insert_by_time(x, s.skip(1))[k - 1] == s.skip(
                        1,
                    )[m];
                assert(spec_insert_by_time(x, s)[k] == s[m + 1]);
            }
        }
    }
}

/// The stable sort yields a sorted sequence of the same length.
pub proof fn lemma_sort_sorted(s: Seq<StacFeature>)
    ensures
        sorted_by_time(spec_sort_by_time(s)),
        spec_sort_by_time(s).len() == s.len(),
    decreases s.len(),
{
    if s.len() > 0 {
        lemma_sort_sorted(s.drop_last());
        lemma_insert_sorted(s.last(), spec_sort_by_time(s.drop_last()));
    }
}

/// Sorts catalog features stably by acquisition instant, ascending.
#[verifier::loop_isolation(false)]
pub fn sort_features_by_time(features: Vec<StacFeature>) -> (r: Vec<StacFeature>)
    ensures
        r@ == spec_sort_by_time(features@),
{
    let mut input = features;
    let ghost f0 = input@;
    let mut sorted: Vec<StacFeature> = Vec::new();
    let ghost mut done: int = 0;
    while input.len() > 0
        invariant
            0 <= done <= f0.len(),
            done + input@.len() == f0.len(),
            input@ =~= f0.skip(done),
            sorted@ == spec_sort_by_time(f0.take(done)),
        decreases input@.len(),
    {
        let x = input.remove(0);
        proof {
            assert(x == f0[done]);
            assert(input@ =~= f0.skip(done + 1));
        }
        let mut j: usize = 0;
        while j < sorted.len() && sorted[j].datetime <= x.datetime
            invariant
                0 <= j <= sorted@.len(),
                forall|p: int| 0 <= p < j ==> sorted@[p].datetime <= x.datetime,
            decreases sorted@.len() - j,
        {
            j = j + 1;
        }
        proof {
            lemma_insert_at(x, sorted@, j as int);
        }
        sorted.insert(j, x);
        proof {
            assert(sorted@ =~= spec_insert_by_time(x, spec_sort_by_time(f0.take(done))));
            assert(f0.take(done + 1).drop_last() =~= f0.take(done));
            assert(f0.take(done + 1).last() == f0[done]);
            done = done + 1;
        }
    }
    proof {
        assert(f0.take(done) =~= f0);
    }
    sorted
}

/// The asset registered under `name`, scanning front to back.
pub open spec fn spec_lookup_asset(assets: Seq<(String, StacAsset)>, name: Seq<char>) -> Option<
    StacAsset,
>
    decreases assets.len(),
{
    if assets.len() == 0 {
        None
    } else if assets[0].0@ == name {
        Some(assets[0].1)
    } else {
        spec_lookup_asset(assets.skip(1), name)
    }
}

/// Finds the position of the asset registered under `name`.
pub fn find_asset(assets: &Vec<(String, StacAsset)>, name: &String) -> (r: Option<usize>)
    ensures
        r matches Some(j) ==> 0 <= j < assets@.len() && spec_lookup_asset(assets@, name@) == Some(
            assets@[j as int].1,
        ),
        r is None ==> spec_lookup_asset(assets@, name@) is None,
{
    proof {
        assert(assets@.skip(0) =~= assets@);
    }
    let mut i: usize = 0;
    while i < assets.len()
        invariant
            i <= assets@.len(),
            spec_lookup_asset(assets@.skip(i as int), name@) == spec_lookup_asset(assets@, name@),
        decreases assets@.len() - i,
    {
        let pair = &assets[i];
        proof {
            assert(assets@.skip(i as int)[0] == assets@[i as int]);
        }
        if pair.0 == *name {
            return Some(i);
        }
        proof {
            assert(assets@.skip(i as int).skip(1) =~= assets@.skip(i as int + 1));
        }
        i = i + 1;
    }
    proof {
        assert(assets@.skip(i as int) =~= Seq::<(String, StacAsset)>::empty());
    }
    None
}

} // verus!
