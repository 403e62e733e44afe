//! Temporal resolution of an external tile catalog: a provider of
//! band/zone datasets whose queries resolve, through the paginated
//! catalog, into an ordered sequence of concrete load instructions.

use vstd::prelude::*;

use vstd::string::StringExecFns;

use crate::colorizer::{Breakpoint, Colorizer, RgbaColor};
use crate::datetime::{CALENDAR_MAX_MILLIS, CALENDAR_MIN_MILLIS, format_rfc3339_millis,
    rfc3339_utc};
use crate::descriptors::{Measurement, RasterDataType, RasterResultDescriptor, SpatialReference,
    SpatialReferenceAuthority};
use crate::error::Error;
use crate::fmtnum::{fixed_micro_chars, format_fixed_micro};
use crate::primitives::{BoundingBox2D, RasterQueryRectangle};
use crate::stac::{GeoTransform, spec_filter_zone, spec_gdal_geotransform, spec_lookup_asset,
    spec_sort_by_time, sort_features_by_time, StacAsset, StacFeature, find_asset};
use crate::time::{spec_time_intersects, TimeInterval};

verus! {

/// One spectral band of the catalog's imagery: its name, no-data
/// sentinel in micro-units, and pixel type.
#[derive(Debug, PartialEq, Eq)]
pub struct Band {
    pub name: String,
    pub no_data_value: Option<i64>,
    pub data_type: RasterDataType,
}

impl Band {
    pub fn new(name: String, no_data_value: Option<i64>, data_type: RasterDataType) -> (r: Self)
        ensures
            r == (Band { name, no_data_value, data_type }),
    {
        Band { name, no_data_value, data_type }
    }
}

impl Clone for Band {
    fn clone(&self) -> (r: Self)
        ensures
            r == *self,
    {
        Band {
            name: self.name.clone(),
            no_data_value: self.no_data_value,
            data_type: self.data_type,
        }
    }
}

/// One reference-system partition of the catalog: its name and EPSG code.
#[derive(Debug, PartialEq, Eq)]
pub struct Zone {
    pub name: String,
    pub epsg: u32,
}

impl Zone {
    pub fn new(name: String, epsg: u32) -> (r: Self)
        ensures
            r == (Zone { name, epsg }),
    {
        Zone { name, epsg }
    }
}

impl Clone for Zone {
    fn clone(&self) -> (r: Self)
        ensures
            r == *self,
    {
        Zone { name: self.name.clone(), epsg: self.epsg }
    }
}

/// What to do when a referenced tile file is absent.
#[derive(Debug, Clone, Copy, PartialEq, Eq, Structural)]
pub enum FileNotFoundHandling {
    /// Treat the tile as all no-data.
    NoData,
    /// Fail the query.
    Error,
}

/// Everything the tile loader needs for one asset: the file locator, the
/// band channel, the grid-to-world transform, the pixel dimensions, the
/// missing-file policy and the band's no-data sentinel.
#[derive(Debug, PartialEq, Eq)]
pub struct GdalDatasetParameters {
    pub file_path: String,
    pub rasterband_channel: u32,
    pub geo_transform: GeoTransform,
    pub width: u64,
    pub height: u64,
    pub file_not_found_handling: FileNotFoundHandling,
    pub no_data_value: Option<i64>,
}

/// One load instruction: an asset's parameters with the validity
/// interval over which its pixels answer the query.
#[derive(Debug, PartialEq, Eq)]
pub struct GdalLoadingInfoPart {
    pub time: TimeInterval,
    pub params: GdalDatasetParameters,
}

/// The mathematical content of a load instruction: the same fields with
/// the file locator as a character sequence.
pub struct GdalLoadingInfoPartView {
    pub time: TimeInterval,
    pub file_path: Seq<char>,
    pub rasterband_channel: u32,
    pub geo_transform: GeoTransform,
    pub width: u64,
    pub height: u64,
    pub file_not_found_handling: FileNotFoundHandling,
    pub no_data_value: Option<i64>,
}

impl View for GdalLoadingInfoPart {
    type V = GdalLoadingInfoPartView;

    open spec fn view(&self) -> GdalLoadingInfoPartView {
        GdalLoadingInfoPartView {
            time: self.time,
            file_path: self.params.file_path@,
            rasterband_channel: self.params.rasterband_channel,
            geo_transform: self.params.geo_transform,
            width: self.params.width,
            height: self.params.height,
            file_not_found_handling: self.params.file_not_found_handling,
            no_data_value: self.params.no_data_value,
        }
    }
}

/// The metadata of one dataset of the provider: enough to query the
/// catalog and to describe the result.
#[derive(Debug, PartialEq, Eq)]
pub struct SentinelS2L2aCogsMetaData {
    pub api_url: String,
    pub zone: Zone,
    pub band: Band,
}

/// The load instruction an asset yields for a validity interval: it
/// requires usable pixel dimensions and a readable grid transform, and
/// treats a missing file as no-data.
pub open spec fn spec_loading_info_part(
    time: TimeInterval,
    asset: StacAsset,
    no_data_value: Option<i64>,
) -> Result<GdalLoadingInfoPartView, Error> {
    match asset.proj_shape {
        None => Err(Error::StacInvalidBbox),
        Some((shape_y, shape_x)) => match spec_gdal_geotransform(asset) {
            None => Err(Error::StacInvalidGeoTransform),
            Some(geo_transform) => Ok(
                GdalLoadingInfoPartView {
                    time,
                    file_path: "/vsicurl/"@ + asset.href@,
                    rasterband_channel: 1,
                    geo_transform,
                    width: shape_x,
                    height: shape_y,
                    file_not_found_handling: FileNotFoundHandling::NoData,
                    no_data_value,
                },
            ),
        },
    }
}

/// The load instructions that the sorted features from `i` onward
/// contribute: feature `i` is valid until feature `i + 1` starts, the
/// final feature for one second, and an instruction appears exactly when
/// its validity intersects the query's interval.
pub open spec fn spec_loading_info_parts(
    s: Seq<StacFeature>,
    i: nat,
    query_time: TimeInterval,
    band: Band,
) -> Result<Seq<GdalLoadingInfoPartView>, Error>
    decreases s.len() - i,
{
    if i >= s.len() {
        Ok(Seq::empty())
    } else {
        let start = s[i as int].datetime;
        if i + 1 < s.len() || start + 1000 <= i64::MAX {
            let end = if i + 1 < s.len() {
                s[i as int + 1].datetime
            } else {
                (start + 1000) as i64
            };
            if start > end {
                Err(Error::InvalidTimeInterval { start, end })
            } else {
                let time = TimeInterval { start, end };
                if spec_time_intersects(time, query_time) {
                    match spec_lookup_asset(s[i as int].assets@, band.name@) {
                        None => Err(Error::StacNoSuchBand { band_name: band.name }),
                        Some(asset) => match spec_loading_info_part(
                            time,
                            asset,
                            band.no_data_value,
                        ) {
                            Err(e) => Err(e),
                            Ok(p) => match spec_loading_info_parts(s, i + 1, query_time, band) {
                                Err(e) => Err(e),
                                Ok(rest) => Ok(seq![p] + rest),
                            },
                        },
                    }
                } else {
                    spec_loading_info_parts(s, i + 1, query_time, band)
                }
            }
        } else {
            Err(Error::NoDateTimeValid { time_instance: start })
        }
    }
}

/// The views of a sequence of load instructions.
pub open spec fn parts_views(parts: Seq<GdalLoadingInfoPart>) -> Seq<GdalLoadingInfoPartView> {
    parts.map_values(|p: GdalLoadingInfoPart| p@)
}

impl SentinelS2L2aCogsMetaData {
    /// The descriptor of this dataset's results: the band's pixel type
    /// and sentinel in the zone's reference system, unitless.
    pub fn result_descriptor(&self) -> (r: RasterResultDescriptor)
        ensures
            r.data_type == self.band.data_type,
            r.spatial_reference == Some(
                SpatialReference { authority: SpatialReferenceAuthority::Epsg, code: self.zone.epsg },
            ),
            r.measurement == Measurement::Unitless,
            r.no_data_value == self.band.no_data_value,
    {
        RasterResultDescriptor {
            data_type: self.band.data_type,
            spatial_reference: Some(
                SpatialReference { authority: SpatialReferenceAuthority::Epsg, code: self.zone.epsg },
            ),
            measurement: Measurement::Unitless,
            no_data_value: self.band.no_data_value,
        }
    }

    /// The catalog request's time range: the query's interval with the
    /// start shifted one minute back, so that clock skew cannot exclude
    /// the most recent asset.
    pub fn time_range_request(time: &TimeInterval) -> (r: Result<(i64, i64), Error>)
        ensures
            r is Ok <==> time.start - 60000 >= i64::MIN,
            r matches Ok(range) ==> range == (((time.start - 60000) as i64), time.end),
            r matches Err(e) ==> e == (Error::NoDateTimeValid { time_instance: time.start }),
    {
        if time.start >= i64::MIN + 60000 {
            Ok((time.start - 60000, time.end))
        } else {
            Err(Error::NoDateTimeValid { time_instance: time.start })
        }
    }

    /// Builds the catalog query parameters: the fixed collection, the
    /// query's bounds reprojected by the caller into the catalog's
    /// geographic frame, the back-shifted time range, and the page size.
    /// Succeeds whenever both the shifted start and the end lie within
    /// the calendar's range; fails only when one of them has no calendar
    /// rendering.
    pub fn request_params(&self, query: &RasterQueryRectangle, bbox_geographic: &BoundingBox2D)
        -> (r: Result<Vec<(String, String)>, Error>)
        ensures
            CALENDAR_MIN_MILLIS <= query.time_interval.start - 60000 <= CALENDAR_MAX_MILLIS
                && CALENDAR_MIN_MILLIS <= query.time_interval.end <= CALENDAR_MAX_MILLIS ==> r
                is Ok,
            r matches Ok(params) ==> {
                &&& params@.len() == 4
                &&& params@[0].0@ == "collections[]"@ && params@[0].1@
                    == "sentinel-s2-l2a-cogs"@
                &&& params@[1].0@ == "bbox"@ && params@[1].1@ == bbox_param_chars(*bbox_geographic)
                &&& params@[2].0@ == "datetime"@ && params@[2].1@ == rfc3339_utc(
                    (query.time_interval.start - 60000) as i64,
                ) + "/"@ + rfc3339_utc(query.time_interval.end)
                &&& params@[3].0@ == "limit"@ && params@[3].1@ == "500"@
            },
            r matches Ok(params) ==> query.time_interval.start - 60000 >= i64::MIN,
            r matches Err(e) ==> e matches Error::NoDateTimeValid { .. },
    {
        let range = match Self::time_range_request(&query.time_interval) {
            Ok(range) => range,
            Err(e) => {
                return Err(e);
            },
        };
        let t_start = match format_rfc3339_millis(range.0) {
            Some(s) => s,
            None => {
                return Err(Error::NoDateTimeValid { time_instance: range.0 });
            },
        };
        let t_end = match format_rfc3339_millis(range.1) {
            Some(s) => s,
            None => {
                return Err(Error::NoDateTimeValid { time_instance: range.1 });
            },
        };
        let mut datetime = t_start;
        proof {
            reveal_strlit("/");
            assert("/"@ =~= seq!['/']);
        }
        datetime.append("/");
        datetime.append(t_end.as_str());
        let mut bbox = "[".to_owned();
        bbox.append(format_fixed_micro(bbox_geographic.lower_left.x).as_str());
        bbox.append(",");
        bbox.append(format_fixed_micro(bbox_geographic.lower_left.y).as_str());
        bbox.append(",");
        bbox.append(format_fixed_micro(bbox_geographic.upper_right.x).as_str());
        bbox.append(",");
        bbox.append(format_fixed_micro(bbox_geographic.upper_right.y).as_str());
        bbox.append("]");
        let mut params: Vec<(String, String)> = Vec::new();
        params.push(("collections[]".to_owned(), "sentinel-s2-l2a-cogs".to_owned()));
        params.push(("bbox".to_owned(), bbox));
        params.push(("datetime".to_owned(), datetime));
        params.push(("limit".to_owned(), "500".to_owned()));
        proof {
            assert(params@[2].1@ =~= rfc3339_utc((query.time_interval.start - 60000) as i64) + "/"@
                + rfc3339_utc(query.time_interval.end));
            assert(params@[1].1@ =~= bbox_param_chars(*bbox_geographic));
        }
        Ok(params)
    }

    /// Derives the load instruction of one asset for one validity
    /// interval.
    pub fn create_loading_info_part(&self, time: TimeInterval, asset: &StacAsset) -> (r: Result<
        GdalLoadingInfoPart,
        Error,
    >)
        ensures
            r is Ok <==> spec_loading_info_part(time, *asset, self.band.no_data_value) is Ok,
            r matches Ok(p) ==> spec_loading_info_part(time, *asset, self.band.no_data_value)
                == Ok::<GdalLoadingInfoPartView, Error>(p@),
            r matches Err(e) ==> spec_loading_info_part(time, *asset, self.band.no_data_value)
                == Err::<GdalLoadingInfoPartView, Error>(e),
    {
        let (shape_y, shape_x) = match asset.proj_shape {
            Some(shape) => shape,
            None => {
                return Err(Error::StacInvalidBbox);
            },
        };
        let geo_transform = match asset.gdal_geotransform() {
            Some(gt) => gt,
            None => {
                return Err(Error::StacInvalidGeoTransform);
            },
        };
        proof {
            reveal_strlit("/vsicurl/");
        }
        let mut file_path = "/vsicurl/".to_owned();
        file_path.append(asset.href.as_str());
        Ok(
            GdalLoadingInfoPart {
                time,
                params: GdalDatasetParameters {
                    file_path,
                    rasterband_channel: 1,
                    geo_transform,
                    width: shape_x,
                    height: shape_y,
                    file_not_found_handling: FileNotFoundHandling::NoData,
                    no_data_value: self.band.no_data_value,
                },
            },
        )
    }

    /// Resolves the catalog features the caller fetched into load
    /// instructions: only features of this dataset's zone take part,
    /// sorted by acquisition instant; each is valid until the next one
    /// starts, the last for one second; an instruction is emitted exactly
    /// when its validity intersects the query's interval, in ascending
    /// time order.
    #[verifier::loop_isolation(false)]
    pub fn create_loading_info(&self, query: &RasterQueryRectangle, features: Vec<StacFeature>)
        -> (r: Result<Vec<GdalLoadingInfoPart>, Error>)
        requires
            query.time_interval.wf(),
        ensures
            r is Ok <==> spec_loading_info_parts(
                spec_sort_by_time(spec_filter_zone(features@, self.zone.epsg)),
                0,
                query.time_interval,
                self.band,
            ) is Ok,
            r matches Ok(parts) ==> Ok::<Seq<GdalLoadingInfoPartView>, Error>(parts_views(parts@))
                == spec_loading_info_parts(
                spec_sort_by_time(spec_filter_zone(features@, self.zone.epsg)),
                0,
                query.time_interval,
                self.band,
            ),
            r matches Err(e) ==> Err::<Seq<GdalLoadingInfoPartView>, Error>(e)
                == spec_loading_info_parts(
                spec_sort_by_time(spec_filter_zone(features@, self.zone.epsg)),
                0,
                query.time_interval,
                self.band,
            ),
    {
        let ghost f0 = features@;
        let mut rest = features;
        let mut in_zone: Vec<StacFeature> = Vec::new();
        let ghost mut done: int = 0;
        while rest.len() > 0
            invariant
                0 <= done <= f0.len(),
                done + rest@.len() == f0.len(),
                rest@ =~= f0.skip(done),
                in_zone@ == spec_filter_zone(f0.take(done), self.zone.epsg),
            decreases rest@.len(),
        {
            let x = rest.remove(0);
            proof {
                assert(x == f0[done]);
                assert(rest@ =~= f0.skip(done + 1));
                assert(f0.take(done + 1).drop_last() =~= f0.take(done));
                assert(f0.take(done + 1).last() == f0[done]);
            }
            let keep = match x.proj_epsg {
                Some(e) => e == self.zone.epsg,
                None => false,
            };
            if keep {
                in_zone.push(x);
            }
            proof {
                assert(in_zone@ =~= spec_filter_zone(f0.take(done + 1), self.zone.epsg));
                done = done + 1;
            }
        }
        proof {
            assert(f0.take(done) =~= f0);
        }
        let sorted = sort_features_by_time(in_zone);
        let ghost ss = sorted@;
        let n = sorted.len();
        let mut parts: Vec<GdalLoadingInfoPart> = Vec::new();
        let mut i: usize = 0;
        while i < n
            invariant
                0 <= i <= n,
                spec_loading_info_parts(ss, 0, query.time_interval, self.band) == match
                    spec_loading_info_parts(ss, i as nat, query.time_interval, self.band) {
                    Ok(rest_views) => Ok::<Seq<GdalLoadingInfoPartView>, Error>(
                        parts_views(parts@) + rest_views,
                    ),
                    Err(e) => Err::<Seq<GdalLoadingInfoPartView>, Error>(e),
                },
            decreases n - i,
        {
            proof {
                reveal_with_fuel(spec_loading_info_parts, 2);
            }
            let start = sorted[i].datetime;
            let end: i64 = if i + 1 < n {
                sorted[i + 1].datetime
            } else {
                if start <= i64::MAX - 1000 {
                    start + 1000
                } else {
                    return Err(Error::NoDateTimeValid { time_instance: start });
                }
            };
            let time = match TimeInterval::new(start, end) {
                Ok(t) => t,
                Err(e) => {
                    return Err(e);
                },
            };
            let ghost spec_here = spec_loading_info_parts(
                ss,
                i as nat,
                query.time_interval,
                self.band,
            );
            let ghost spec_next = spec_loading_info_parts(
                ss,
                (i + 1) as nat,
                query.time_interval,
                self.band,
            );
            if time.intersects(&query.time_interval) {
                let j = match find_asset(&sorted[i].assets, &self.band.name) {
                    Some(j) => j,
                    None => {
                        return Err(Error::StacNoSuchBand { band_name: self.band.name.clone() });
                    },
                };
                let part = match self.create_loading_info_part(time, &sorted[i].assets[j].1) {
                    Ok(p) => p,
                    Err(e) => {
                        return Err(e);
                    },
                };
                proof {
                    assert(spec_here == match spec_next {
                        Err(e) => Err::<Seq<GdalLoadingInfoPartView>, Error>(e),
                        Ok(rest) => Ok::<Seq<GdalLoadingInfoPartView>, Error>(seq![part@] + rest),
                    });
                }
                let ghost pv_old = parts_views(parts@);
                parts.push(part);
                proof {
                    assert(parts_views(parts@) =~= pv_old.push(part@));
                    if spec_next is Ok {
                        let rest = spec_next.unwrap();
                        assert(pv_old + (seq![part@] + rest) =~= parts_views(parts@) + rest);
                    }
                }
            } else {
                proof {
                    assert(spec_here == spec_next);
                }
            }
            i = i + 1;
        }
        proof {
            assert(parts_views(parts@) + Seq::<GdalLoadingInfoPartView>::empty() =~= parts_views(
                parts@,
            ));
        }
        Ok(parts)
    }
}

/// The validity window of the sorted feature `m`: from its instant
/// until the next feature's instant, or one second for the last.
pub open spec fn spec_validity_window(s: Seq<StacFeature>, m: int) -> TimeInterval {
    TimeInterval {
        start: s[m].datetime,
        end: if m + 1 < s.len() {
            s[m + 1].datetime
        } else {
            ((s[m].datetime + 1000) as i64)
        },
    }
}

/// Time-ordered catalog features yield consecutive validity windows —
/// each feature is valid from its instant until the next feature's
/// instant, the final one for a single second — and an instruction is
/// emitted exactly when its window intersects the query's interval. The
/// emitted instructions come in ascending time order.
pub proof fn lemma_loading_parts_are_ordered_validity_windows(
    s: Seq<StacFeature>,
    i: nat,
    query_time: TimeInterval,
    band: Band,
    parts: Seq<GdalLoadingInfoPartView>,
)
    requires
        crate::stac::sorted_by_time(s),
        spec_loading_info_parts(s, i, query_time, band) == Ok::<
            Seq<GdalLoadingInfoPartView>,
            Error,
        >(parts),
    ensures
        forall|k: int|
            0 <= k < parts.len() ==> spec_time_intersects(#[trigger] parts[k].time, query_time),
        forall|k: int|
            0 <= k < parts.len() ==> exists|m: int|
                #![trigger s[m].datetime]
                i <= m < s.len() && (#[trigger] parts[k].time).start == s[m].datetime
                    && parts[k].time.end == if m + 1 < s.len() {
                    s[m + 1].datetime
                } else {
                    ((s[m].datetime + 1000) as i64)
                },
        forall|k1: int, k2: int|
            0 <= k1 < k2 < parts.len() ==> (#[trigger] parts[k1].time).start
                <= (#[trigger] parts[k2].time).start,
        forall|m: int|
            i <= m < s.len() && spec_time_intersects(spec_validity_window(s, m), query_time)
                ==> exists|k: int| 0 <= k < parts.len() && (#[trigger] parts[k]).time
                == spec_validity_window(s, m),
    decreases s.len() - i,
{
    reveal_with_fuel(spec_loading_info_parts, 2);
    if i >= s.len() {
    } else {
        let start = s[i as int].datetime;
        if i + 1 < s.len() || start + 1000 <= i64::MAX {
            let end = if i + 1 < s.len() {
                s[i as int + 1].datetime
            } else {
                ((start + 1000) as i64)
            };
            if start > end {
            } else {
                let time = TimeInterval { start, end };
                let rest = spec_loading_info_parts(s, i + 1, query_time, band);
                if spec_time_intersects(time, query_time) {
                    let asset = spec_lookup_asset(s[i as int].assets@, band.name@).unwrap();
                    let p = spec_loading_info_part(time, asset, band.no_data_value).unwrap();
                    let rest_parts = rest.unwrap();
                    assert(parts == seq![p] + rest_parts);
                    assert(p.time == time);
                    lemma_loading_parts_are_ordered_validity_windows(
                        s,
                        i + 1,
                        query_time,
                        band,
                        rest_parts,
                    );
                    assert forall|k: int| 0 <= k < parts.len() implies exists|m: int|
                        #![trigger s[m].datetime]
                        i <= m < s.len() && (#[trigger] parts[k].time).start == s[m].datetime
                            && parts[k].time.end == if m + 1 < s.len() {
                            s[m + 1].datetime
                        } else {
                            ((s[m].datetime + 1000) as i64)
                        } by {
                        if k == 0 {
                            assert(parts[0] == p);
                            assert(i <= i < s.len() && p.time.start == s[i as int].datetime
                                && p.time.end == if i + 1 < s.len() {
                                s[i as int + 1].datetime
                            } else {
                                ((s[i as int].datetime + 1000) as i64)
                            });
                        } else {
                            assert(parts[k] == rest_parts[k - 1]);
                            let m = choose|m: int|
                                #![trigger s[m].datetime]
                                i + 1 <= m < s.len() && rest_parts[k - 1].time.start
                                    == s[m].datetime && rest_parts[k - 1].time.end == if m + 1
                                    < s.len() {
                                    s[m + 1].datetime
                                } else {
                                    ((s[m].datetime + 1000) as i64)
                                };
                            assert(i <= m < s.len() && parts[k].time.start == s[m].datetime);
                        }
                    }
                    assert forall|k1: int, k2: int| 0 <= k1 < k2 < parts.len() implies (
                    #[trigger] parts[k1].time).start <= (#[trigger] parts[k2].time).start by {
                        if k1 == 0 {
                            let m = choose|m: int|
                                #![trigger s[m].datetime]
                                i + 1 <= m < s.len() && rest_parts[k2 - 1].time.start
                                    == s[m].datetime && rest_parts[k2 - 1].time.end == if m + 1
                                    < s.len() {
                                    s[m + 1].datetime
                                } else {
                                    ((s[m].datetime + 1000) as i64)
                                };
                            assert(s[i as int].datetime <= s[m].datetime);
                        } else {
                            assert(parts[k1] == rest_parts[k1 - 1]);
                            assert(parts[k2] == rest_parts[k2 - 1]);
                        }
                    }
                    assert forall|m: int|
                        i <= m < s.len() && spec_time_intersects(
                            spec_validity_window(s, m),
                            query_time,
                        ) implies exists|k: int|
                        0 <= k < parts.len() && (#[trigger] parts[k]).time
                            == spec_validity_window(s, m) by {
                        if m == i {
                            assert(parts[0].time == spec_validity_window(s, i as int));
                        } else {
                            let k = choose|k: int|
                                0 <= k < rest_parts.len() && (#[trigger] rest_parts[k]).time
                                    == spec_validity_window(s, m);
                            assert(parts[k + 1].time == spec_validity_window(s, m));
                        }
                    }
                } else {
                    lemma_loading_parts_are_ordered_validity_windows(
                        s,
                        i + 1,
                        query_time,
                        band,
                        parts,
                    );
                    assert(!spec_time_intersects(spec_validity_window(s, i as int), query_time));
                    assert forall|k: int| 0 <= k < parts.len() implies exists|m: int|
                        #![trigger s[m].datetime]
                        i <= m < s.len() && (#[trigger] parts[k].time).start == s[m].datetime
                            && parts[k].time.end == if m + 1 < s.len() {
                            s[m + 1].datetime
                        } else {
                            ((s[m].datetime + 1000) as i64)
                        } by {
                        let m = choose|m: int|
                            #![trigger s[m].datetime]
                            i + 1 <= m < s.len() && parts[k].time.start == s[m].datetime
                                && parts[k].time.end == if m + 1 < s.len() {
                                s[m + 1].datetime
                            } else {
                                ((s[m].datetime + 1000) as i64)
                            };
                        assert(i <= m < s.len() && parts[k].time.start == s[m].datetime);
                    }
                }
            }
        }
    }
}

/// The guarantees of catalog resolution as a whole: whatever features
/// the catalog returned, the emitted load instructions carry the
/// consecutive validity windows of the zone's time-sorted features, only
/// windows intersecting the query appear — and all of them do — and they
/// come in ascending time order.
pub proof fn lemma_create_loading_info_is_time_ordered(
    features: Seq<StacFeature>,
    epsg: u32,
    query_time: TimeInterval,
    band: Band,
    parts: Seq<GdalLoadingInfoPartView>,
)
    requires
        spec_loading_info_parts(
            spec_sort_by_time(spec_filter_zone(features, epsg)),
            0,
            query_time,
            band,
        ) == Ok::<Seq<GdalLoadingInfoPartView>, Error>(parts),
    ensures
        forall|k: int|
            0 <= k < parts.len() ==> spec_time_intersects(#[trigger] parts[k].time, query_time),
        forall|k1: int, k2: int|
            0 <= k1 < k2 < parts.len() ==> (#[trigger] parts[k1].time).start
                <= (#[trigger] parts[k2].time).start,
        forall|m: int|
            0 <= m < spec_sort_by_time(spec_filter_zone(features, epsg)).len()
                && spec_time_intersects(
                #[trigger] spec_validity_window(spec_sort_by_time(spec_filter_zone(features, epsg)), m),
                query_time,
            ) ==> exists|k: int|
                0 <= k < parts.len() && (#[trigger] parts[k]).time == spec_validity_window(
                    spec_sort_by_time(spec_filter_zone(features, epsg)),
                    m,
                ),
{
    let sorted = spec_sort_by_time(spec_filter_zone(features, epsg));
    crate::stac::lemma_sort_sorted(spec_filter_zone(features, epsg));
    lemma_loading_parts_are_ordered_validity_windows(sorted, 0, query_time, band, parts);
}

/// The bracketed bbox query parameter: the box's corner coordinates as
/// decimal degrees, lower-left first.
pub open spec fn bbox_param_chars(b: BoundingBox2D) -> Seq<char> {
    "["@ + fixed_micro_chars(b.lower_left.x as int) + ","@ + fixed_micro_chars(
        b.lower_left.y as int,
    ) + ","@ + fixed_micro_chars(b.upper_right.x as int) + ","@ + fixed_micro_chars(
        b.upper_right.y as int,
    ) + "]"@
}

/// How many catalog pages cover `matched` features at `limit` per page:
/// the ceiling of their quotient, saturated at the page counter's range;
/// a zero limit with matches means endlessly many, and none at all
/// without matches.
pub fn stac_pages_needed(matched: u64, limit: u64) -> (r: u32)
    ensures
        limit > 0 && matched % limit == 0 ==> r == if matched / limit <= u32::MAX {
            (matched / limit) as u32
        } else {
            u32::MAX
        },
        limit > 0 && matched % limit != 0 ==> r == if matched / limit + 1 <= u32::MAX {
            (matched / limit + 1) as u32
        } else {
            u32::MAX
        },
        limit == 0 ==> r == if matched == 0 {
            0u32
        } else {
            u32::MAX
        },
{
    if limit == 0 {
        if matched == 0 {
            0
        } else {
            u32::MAX
        }
    } else {
        let q = matched / limit;
        let pages: u64 = if matched % limit == 0 {
            q
        } else {
            proof {
                assert(q + 1 <= u64::MAX) by (nonlinear_arith)
                    requires
                        q == matched / limit,
                        limit >= 1,
                        matched % limit != 0,
                        matched <= u64::MAX,
                ;
            }
            q + 1
        };
        if pages <= u32::MAX as u64 {
            pages as u32
        } else {
            u32::MAX
        }
    }
}

/// The identity of one dataset of an external provider.
#[derive(Debug, PartialEq, Eq)]
pub struct DatasetId {
    pub provider_id: String,
    pub dataset_id: String,
}

impl Clone for DatasetId {
    fn clone(&self) -> (r: Self)
        ensures
            r == *self,
    {
        DatasetId { provider_id: self.provider_id.clone(), dataset_id: self.dataset_id.clone() }
    }
}

/// The recorded origin of a dataset.
#[derive(Debug, PartialEq, Eq)]
pub struct Provenance {
    pub citation: String,
    pub license: String,
    pub uri: String,
}

/// A dataset's provenance, if any is recorded.
#[derive(Debug, PartialEq, Eq)]
pub struct ProvenanceOutput {
    pub dataset: DatasetId,
    pub provenance: Option<Provenance>,
}

/// How a raster dataset is presented by default.
#[derive(Debug, PartialEq, Eq)]
pub struct RasterSymbology {
    /// Opacity in micro-units: one million is fully opaque.
    pub opacity: i64,
    pub colorizer: Colorizer,
}

/// The default presentation of a dataset.
#[derive(Debug, PartialEq, Eq)]
pub enum Symbology {
    Raster(RasterSymbology),
}

/// One entry of a dataset listing: identity, naming, the operator that
/// loads it, its result descriptor and its default presentation.
#[derive(Debug, PartialEq, Eq)]
pub struct DatasetListing {
    pub id: DatasetId,
    pub name: String,
    pub description: String,
    pub tags: Vec<String>,
    pub source_operator: String,
    pub result_descriptor: RasterResultDescriptor,
    pub symbology: Option<Symbology>,
}

/// One dataset of the provider: its band, zone and listing.
#[derive(Debug, PartialEq, Eq)]
pub struct SentinelDataset {
    pub band: Band,
    pub zone: Zone,
    pub listing: DatasetListing,
}

/// The provider's static metadata: its bands and zones.
#[derive(Debug, PartialEq, Eq)]
pub struct SentinelMetaData {
    pub bands: Vec<Band>,
    pub zones: Vec<Zone>,
}

/// Whether `bands` is the provider's fixed band set: the five imagery
/// bands as 16-bit and the scene classification as 8-bit, all with a
/// zero no-data sentinel.
pub open spec fn sentinel_bands_ok(bands: Seq<Band>) -> bool {
    &&& bands.len() == 6
    &&& bands[0].name@ == "B01"@ && bands[1].name@ == "B02"@ && bands[2].name@ == "B03"@
    &&& bands[3].name@ == "B04"@ && bands[4].name@ == "B08"@ && bands[5].name@ == "SCL"@
    &&& forall|i: int| 0 <= i < 6 ==> (#[trigger] bands[i]).no_data_value == Some(0i64)
    &&& forall|i: int|
        0 <= i < 6 ==> (#[trigger] bands[i]).data_type == if i == 5 {
            RasterDataType::U8
        } else {
            RasterDataType::U16
        }
}

/// Whether `zones` is the provider's fixed zone set.
pub open spec fn sentinel_zones_ok(zones: Seq<Zone>) -> bool {
    &&& zones.len() == 2
    &&& zones[0].name@ == "UTM32N"@ && zones[0].epsg == 32632u32
    &&& zones[1].name@ == "UTM36S"@ && zones[1].epsg == 32736u32
}

/// Whether one catalog entry describes the dataset of `zone` and `band`
/// under the provider `provider_id`: identity `zone:band`, loaded by the
/// source operator, described by the band's type and sentinel in the
/// zone's reference system, presented as a white-to-black gradient.
pub open spec fn dataset_entry_ok(
    entry: (DatasetId, SentinelDataset),
    provider_id: Seq<char>,
    zone: Zone,
    band: Band,
) -> bool {
    &&& entry.0.provider_id@ == provider_id
    &&& entry.0.dataset_id@ == zone.name@ + ":"@ + band.name@
    &&& entry.1.band == band
    &&& entry.1.zone == zone
    &&& entry.1.listing.id.provider_id@ == provider_id
    &&& entry.1.listing.id.dataset_id@ == zone.name@ + ":"@ + band.name@
    &&& entry.1.listing.name@ == "Sentinel S2 L2A COGS "@ + zone.name@ + ":"@ + band.name@
    &&& entry.1.listing.description@ == Seq::<char>::empty()
    &&& entry.1.listing.tags@.len() == 0
    &&& entry.1.listing.source_operator@ == "GdalSource"@
    &&& entry.1.listing.result_descriptor == (RasterResultDescriptor {
        data_type: band.data_type,
        spatial_reference: Some(
            SpatialReference { authority: SpatialReferenceAuthority::Epsg, code: zone.epsg },
        ),
        measurement: Measurement::Unitless,
        no_data_value: band.no_data_value,
    })
    &&& entry.1.listing.symbology matches Some(Symbology::Raster(rs)) && rs.opacity == 1000000i64
        && (rs.colorizer matches Colorizer::LinearGradient {
        breakpoints,
        no_data_color,
        default_color,
    } && breakpoints@.len() == 2 && breakpoints@[0] == (Breakpoint {
        value: 0i64,
        color: RgbaColor { r: 255u8, g: 255u8, b: 255u8, a: 255u8 },
    }) && breakpoints@[1] == (Breakpoint {
        value: 10_000_000_000i64,
        color: RgbaColor { r: 0u8, g: 0u8, b: 0u8, a: 255u8 },
    }) && no_data_color == (RgbaColor { r: 0u8, g: 0u8, b: 0u8, a: 0u8 }) && default_color == (
    RgbaColor { r: 0u8, g: 0u8, b: 0u8, a: 0u8 }))
}


/// Two listings that agree in every observable part.
pub open spec fn same_listing(a: DatasetListing, b: DatasetListing) -> bool {
    &&& a.id.provider_id@ == b.id.provider_id@ && a.id.dataset_id@ == b.id.dataset_id@
    &&& a.name@ == b.name@ && a.description@ == b.description@
    &&& a.tags@.len() == b.tags@.len()
    &&& forall|i: int| 0 <= i < a.tags@.len() ==> (#[trigger] a.tags@[i])@ == b.tags@[i]@
    &&& a.source_operator@ == b.source_operator@
    &&& a.result_descriptor == b.result_descriptor
    &&& same_symbology(a.symbology, b.symbology)
}

/// Two symbologies that agree in every observable part.
pub open spec fn same_symbology(a: Option<Symbology>, b: Option<Symbology>) -> bool {
    match (a, b) {
        (None, None) => true,
        (Some(Symbology::Raster(ra)), Some(Symbology::Raster(rb))) => ra.opacity == rb.opacity
            && same_colorizer(ra.colorizer, rb.colorizer),
        _ => false,
    }
}

/// Two colorizers that agree in every observable part.
pub open spec fn same_colorizer(a: Colorizer, b: Colorizer) -> bool {
    match (a, b) {
        (
            Colorizer::LinearGradient { breakpoints: ba, no_data_color: na, default_color: da },
            Colorizer::LinearGradient { breakpoints: bb, no_data_color: nb, default_color: db },
        ) => ba@ == bb@ && na == nb && da == db,
        (
            Colorizer::Palette { colors: ca, no_data_color: na, default_color: da },
            Colorizer::Palette { colors: cb, no_data_color: nb, default_color: db },
        ) => ca@ == cb@ && na == nb && da == db,
        (Colorizer::Rgba, Colorizer::Rgba) => true,
        _ => false,
    }
}

/// Copies a vector of copyable values.
fn copy_vec<T: Copy>(v: &Vec<T>) -> (r: Vec<T>)
    ensures
        r@ == v@,
{
    let mut r: Vec<T> = Vec::new();
    let mut i: usize = 0;
    while i < v.len()
        invariant
            0 <= i <= v@.len(),
            r@ =~= v@.take(i as int),
        decreases v@.len() - i,
    {
        r.push(v[i]);
        i = i + 1;
    }
    proof {
        assert(v@.take(v@.len() as int) =~= v@);
    }
    r
}

impl Colorizer {
    /// Duplicates the colorizer, observably unchanged.
    fn duplicate(&self) -> (r: Colorizer)
        ensures
            same_colorizer(r, *self),
    {
        match self {
            Colorizer::LinearGradient { breakpoints, no_data_color, default_color } => (
            Colorizer::LinearGradient {
                breakpoints: copy_vec(breakpoints),
                no_data_color: *no_data_color,
                default_color: *default_color,
            }),
            Colorizer::Palette { colors, no_data_color, default_color } => (Colorizer::Palette {
                colors: copy_vec(colors),
                no_data_color: *no_data_color,
                default_color: *default_color,
            }),
            Colorizer::Rgba => Colorizer::Rgba,
        }
    }
}

impl Clone for DatasetListing {
    /// Duplicates the listing, observably unchanged.
    fn clone(&self) -> (r: Self)
        ensures
            same_listing(r, *self),
    {
        let mut tags: Vec<String> = Vec::new();
        let mut i: usize = 0;
        while i < self.tags.len()
            invariant
                0 <= i <= self.tags@.len(),
                tags@.len() == i,
                forall|j: int| 0 <= j < i ==> (#[trigger] tags@[j])@ == self.tags@[j]@,
            decreases self.tags@.len() - i,
        {
            tags.push(self.tags[i].clone());
            i = i + 1;
        }
        DatasetListing {
            id: self.id.clone(),
            name: self.name.clone(),
            description: self.description.clone(),
            tags,
            source_operator: self.source_operator.clone(),
            result_descriptor: self.result_descriptor.clone(),
            symbology: match &self.symbology {
                None => None,
                Some(Symbology::Raster(rs)) => Some(
                    Symbology::Raster(
                        RasterSymbology {
                            opacity: rs.opacity,
                            colorizer: rs.colorizer.duplicate(),
                        },
                    ),
                ),
            },
        }
    }
}

/// A provider of per-band, per-zone datasets resolved through the
/// external catalog at `api_url`.
#[derive(Debug, PartialEq, Eq)]
pub struct SentinelS2L2aCogsDataProvider {
    pub api_url: String,
    pub datasets: Vec<(DatasetId, SentinelDataset)>,
}

impl SentinelS2L2aCogsDataProvider {
    /// The provider's fixed band and zone metadata.
    pub fn load_metadata() -> (r: SentinelMetaData)
        ensures
            sentinel_bands_ok(r.bands@),
            sentinel_zones_ok(r.zones@),
    {
        let mut bands: Vec<Band> = Vec::new();
        bands.push(Band::new("B01".to_owned(), Some(0), RasterDataType::U16));
        bands.push(Band::new("B02".to_owned(), Some(0), RasterDataType::U16));
        bands.push(Band::new("B03".to_owned(), Some(0), RasterDataType::U16));
        bands.push(Band::new("B04".to_owned(), Some(0), RasterDataType::U16));
        bands.push(Band::new("B08".to_owned(), Some(0), RasterDataType::U16));
        bands.push(Band::new("SCL".to_owned(), Some(0), RasterDataType::U8));
        let mut zones: Vec<Zone> = Vec::new();
        zones.push(Zone::new("UTM32N".to_owned(), 32632));
        zones.push(Zone::new("UTM36S".to_owned(), 32736));
        SentinelMetaData { bands, zones }
    }

    /// One dataset of the provider, for `zone` and `band`.
    fn create_dataset(provider_id: &String, zone: &Zone, band: &Band) -> (r: (
        DatasetId,
        SentinelDataset,
    ))
        ensures
            dataset_entry_ok(r, provider_id@, *zone, *band),
    {
        let mut dataset_key = zone.name.clone();
        proof {
            reveal_strlit(":");
            assert(":"@ =~= seq![':']);
        }
        dataset_key.append(":");
        dataset_key.append(band.name.as_str());
        let dataset_id = DatasetId {
            provider_id: provider_id.clone(),
            dataset_id: dataset_key.clone(),
        };
        let mut name = "Sentinel S2 L2A COGS ".to_owned();
        name.append(dataset_key.as_str());
        proof {
            assert(name@ =~= "Sentinel S2 L2A COGS "@ + zone.name@ + ":"@ + band.name@);
            assert(dataset_id.dataset_id@ =~= zone.name@ + ":"@ + band.name@);
        }
        let mut breakpoints: Vec<Breakpoint> = Vec::new();
        breakpoints.push(Breakpoint { value: 0, color: RgbaColor::white() });
        breakpoints.push(Breakpoint { value: 10_000_000_000, color: RgbaColor::black() });
        let colorizer = Colorizer::LinearGradient {
            breakpoints,
            no_data_color: RgbaColor::transparent(),
            default_color: RgbaColor::transparent(),
        };
        let listing = DatasetListing {
            id: dataset_id.clone(),
            name,
            description: String::new(),
            tags: Vec::new(),
            source_operator: "GdalSource".to_owned(),
            result_descriptor: RasterResultDescriptor {
                data_type: band.data_type,
                spatial_reference: Some(
                    SpatialReference {
                        authority: SpatialReferenceAuthority::Epsg,
                        code: zone.epsg,
                    },
                ),
                measurement: Measurement::Unitless,
                no_data_value: band.no_data_value,
            },
            symbology: Some(Symbology::Raster(RasterSymbology { opacity: 1_000_000, colorizer })),
        };
        let dataset = SentinelDataset { band: band.clone(), zone: zone.clone(), listing };
        (dataset_id, dataset)
    }

    /// One dataset for every zone and band pair, zones outermost, in the
    /// metadata's order.
    #[verifier::loop_isolation(false)]
    pub fn create_datasets(provider_id: &String, meta_data: &SentinelMetaData) -> (r: Vec<
        (DatasetId, SentinelDataset),
    >)
        ensures
            r@.len() == meta_data.zones@.len() * meta_data.bands@.len(),
            forall|z: int, b: int|
                0 <= z < meta_data.zones@.len() && 0 <= b < meta_data.bands@.len()
                    ==> dataset_entry_ok(
                    #[trigger] r@[z * meta_data.bands@.len() + b],
                    provider_id@,
                    meta_data.zones@[z],
                    meta_data.bands@[b],
                ),
    {
        let nb = meta_data.bands.len();
        let nz = meta_data.zones.len();
        let mut r: Vec<(DatasetId, SentinelDataset)> = Vec::new();
        let mut z: usize = 0;
        while z < nz
            invariant
                0 <= z <= nz,
                r@.len() == z * nb,
                forall|zz: int, bb: int|
                    0 <= zz < z && 0 <= bb < nb ==> dataset_entry_ok(
                        #[trigger] r@[zz * nb + bb],
                        provider_id@,
                        meta_data.zones@[zz],
                        meta_data.bands@[bb],
                    ),
            decreases nz - z,
        {
            proof {
                assert((z + 1) * nb == z * nb + nb) by (nonlinear_arith);
                assert(z * nb + nb <= nz * nb) by (nonlinear_arith)
                    requires
                        z + 1 <= nz,
                        nb >= 0,
                ;
            }
            let mut b: usize = 0;
            while b < nb
                invariant
                    0 <= b <= nb,
                    0 <= z < nz,
                    z * nb + nb <= nz * nb,
                    r@.len() == z * nb + b,
                    forall|zz: int, bb: int|
                        0 <= zz < z && 0 <= bb < nb ==> dataset_entry_ok(
                            #[trigger] r@[zz * nb + bb],
                            provider_id@,
                            meta_data.zones@[zz],
                            meta_data.bands@[bb],
                        ),
                    forall|bb: int|
                        0 <= bb < b ==> dataset_entry_ok(
                            #[trigger] r@[z * nb + bb],
                            provider_id@,
                            meta_data.zones@[z as int],
                            meta_data.bands@[bb],
                        ),
                decreases nb - b,
            {
                let entry = Self::create_dataset(
                    provider_id,
                    &meta_data.zones[z],
                    &meta_data.bands[b],
                );
                let ghost r_prev = r@;
                r.push(entry);
                proof {
                    assert(r@[z * nb + b] == entry);
                    assert forall|zz: int, bb: int|
                        0 <= zz < z && 0 <= bb < nb implies dataset_entry_ok(
                        #[trigger] r@[zz * nb + bb],
                        provider_id@,
                        meta_data.zones@[zz],
                        meta_data.bands@[bb],
                    ) by {
                        assert(0 <= zz * nb + bb < z * nb) by (nonlinear_arith)
                            requires
                                0 <= zz < z,
                                0 <= bb < nb,
                        ;
                        assert(r@[zz * nb + bb] == r_prev[zz * nb + bb]);
                    }
                }
                b = b + 1;
            }
            z = z + 1;
        }
        r
    }

    /// Builds the provider: its fixed metadata expanded into one dataset
    /// per zone and band.
    pub fn new(provider_id: &String, api_url: String) -> (r: Self)
        ensures
            r.api_url == api_url,
            r.datasets@.len() == 12,
            exists|meta: SentinelMetaData|
                sentinel_bands_ok(meta.bands@) && sentinel_zones_ok(meta.zones@) && forall|
                    z: int,
                    b: int,
                |
                    0 <= z < 2 && 0 <= b < 6 ==> dataset_entry_ok(
                        #[trigger] r.datasets@[z * 6 + b],
                        provider_id@,
                        meta.zones@[z],
                        meta.bands@[b],
                    ),
    {
        let meta_data = Self::load_metadata();
        let datasets = Self::create_datasets(provider_id, &meta_data);
        let r = SentinelS2L2aCogsDataProvider { api_url, datasets };
        proof {
            assert(sentinel_bands_ok(meta_data.bands@) && sentinel_zones_ok(meta_data.zones@)
                && forall|z: int, b: int|
                0 <= z < 2 && 0 <= b < 6 ==> dataset_entry_ok(
                    #[trigger] r.datasets@[z * 6 + b],
                    provider_id@,
                    meta_data.zones@[z],
                    meta_data.bands@[b],
                ));
        }
        r
    }

    /// The dataset registered under `dataset`, scanning front to back.
    pub open spec fn spec_lookup_dataset(
        entries: Seq<(DatasetId, SentinelDataset)>,
        provider_id: Seq<char>,
        dataset_id: Seq<char>,
    ) -> Option<(Zone, Band)>
        decreases entries.len(),
    {
        if entries.len() == 0 {
            None
        } else if entries[0].0.provider_id@ == provider_id && entries[0].0.dataset_id@
            == dataset_id {
            Some((entries[0].1.zone, entries[0].1.band))
        } else {
            Self::spec_lookup_dataset(entries.skip(1), provider_id, dataset_id)
        }
    }

    /// Resolves a dataset identity to the metadata that can answer
    /// queries for it; fails exactly when the identity is not registered.
    pub fn meta_data(&self, dataset: &DatasetId) -> (r: Result<SentinelS2L2aCogsMetaData, Error>)
        ensures
            r is Ok <==> Self::spec_lookup_dataset(
                self.datasets@,
                dataset.provider_id@,
                dataset.dataset_id@,
            ) is Some,
            r matches Ok(m) ==> Self::spec_lookup_dataset(
                self.datasets@,
                dataset.provider_id@,
                dataset.dataset_id@,
            ) == Some((m.zone, m.band)) && m.api_url == self.api_url,
            r matches Err(e) ==> e == Error::UnknownDatasetId,
    {
        proof {
            assert(self.datasets@.skip(0) =~= self.datasets@);
        }
        let mut i: usize = 0;
        while i < self.datasets.len()
            invariant
                0 <= i <= self.datasets@.len(),
                Self::spec_lookup_dataset(
                    self.datasets@.skip(i as int),
                    dataset.provider_id@,
                    dataset.dataset_id@,
                ) == Self::spec_lookup_dataset(
                    self.datasets@,
                    dataset.provider_id@,
                    dataset.dataset_id@,
                ),
            decreases self.datasets@.len() - i,
        {
            let entry = &self.datasets[i];
            proof {
                assert(self.datasets@.skip(i as int)[0] == self.datasets@[i as int]);
            }
            if entry.0.provider_id == dataset.provider_id && entry.0.dataset_id
                == dataset.dataset_id {
                return Ok(
                    SentinelS2L2aCogsMetaData {
                        api_url: self.api_url.clone(),
                        zone: entry.1.zone.clone(),
                        band: entry.1.band.clone(),
                    },
                );
            }
            proof {
                assert(self.datasets@.skip(i as int).skip(1) =~= self.datasets@.skip(i as int + 1));
            }
            i = i + 1;
        }
        proof {
            assert(self.datasets@.skip(i as int) =~= Seq::<(DatasetId, SentinelDataset)>::empty());
        }
        Err(Error::UnknownDatasetId)
    }

    /// A dataset has no recorded provenance here.
    pub fn provenance(&self, dataset: &DatasetId) -> (r: ProvenanceOutput)
        ensures
            r.dataset == *dataset,
            r.provenance is None,
    {
        ProvenanceOutput { dataset: dataset.clone(), provenance: None }
    }

    /// The listings of every dataset, in ascending order of name: the
    /// datasets are created zone-major with zones and bands already in
    /// ascending name order, and every listing name shares one prefix,
    /// so the stored order is the name order.
    pub fn list(&self) -> (r: Vec<DatasetListing>)
        ensures
            r@.len() == self.datasets@.len(),
            forall|k: int|
                0 <= k < r@.len() ==> same_listing(
                    #[trigger] r@[k],
                    self.datasets@[k].1.listing,
                ),
    {
        let mut r: Vec<DatasetListing> = Vec::new();
        let mut i: usize = 0;
        while i < self.datasets.len()
            invariant
                0 <= i <= self.datasets@.len(),
                r@.len() == i,
                forall|k: int|
                    0 <= k < i ==> same_listing(#[trigger] r@[k], self.datasets@[k].1.listing),
            decreases self.datasets@.len() - i,
        {
            r.push(self.datasets[i].1.listing.clone());
            i = i + 1;
        }
        r
    }
}

} // verus!
