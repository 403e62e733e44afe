//! Coverage requests: their validation, the axis-order rules of the
//! geographic reference, and the query rectangle they resolve to.

use vstd::prelude::*;

use vstd::string::StringExecFns;

use crate::descriptors::{RasterResultDescriptor, SpatialReference, SpatialReferenceAuthority};
use crate::error::Error;
use crate::primitives::{Coordinate2D, RasterQueryRectangle, SpatialPartition2D, SpatialResolution};
use crate::time::TimeInterval;

verus! {

/// The identity of a registered workflow.
#[derive(Debug, PartialEq, Eq)]
pub struct WorkflowId {
    pub id: String,
}

impl Clone for WorkflowId {
    fn clone(&self) -> (r: Self)
        ensures
            r == *self,
    {
        WorkflowId { id: self.id.clone() }
    }
}

/// The coverage endpoint URL of a workflow under a configured external
/// address; fails exactly when no address is configured.
pub fn wcs_url(external_address: Option<&String>, workflow: &WorkflowId) -> (r: Result<
    String,
    Error,
>)
    ensures
        r is Ok <==> external_address is Some,
        r matches Ok(url) ==> url@ == external_address.unwrap()@ + "/wcs/"@ + workflow.id@,
        r matches Err(e) ==> e == Error::ExternalAddressNotConfigured,
{
    match external_address {
        None => Err(Error::ExternalAddressNotConfigured),
        Some(base) => {
            let mut url = base.clone();
            url.append("/wcs/");
            url.append(workflow.id.as_str());
            Ok(url)
        },
    }
}

/// A coverage request's bounding box: four corner ordinates in the order
/// the protocol sends them, and the reference system they carry, if any.
#[derive(Debug, Clone, Copy, PartialEq, Eq)]
pub struct WcsBoundingbox {
    pub values: [i64; 4],
    pub spatial_reference: Option<SpatialReference>,
}

/// A coverage request, already read from the wire into plain values: all
/// ordinates in micro-units of their reference system.
#[derive(Debug, PartialEq, Eq)]
pub struct GetCoverage {
    pub version: String,
    pub identifier: String,
    pub boundingbox: WcsBoundingbox,
    pub gridbasecrs: SpatialReference,
    pub gridorigin: Option<[i64; 2]>,
    pub gridoffsets: Option<[i64; 2]>,
    pub time: Option<TimeInterval>,
    pub spatial_resolution: Option<SpatialResolution>,
}

/// The geographic reference orders ordinates latitude first; every other
/// reference sends the horizontal ordinate first.
pub open spec fn spec_axis_swapped(sref: SpatialReference) -> bool {
    sref == (SpatialReference { authority: SpatialReferenceAuthority::Epsg, code: 4326u32 })
}

/// The partition a request's bounding box denotes, honoring the
/// reference system's axis order.
pub open spec fn spec_wcs_partition(values: Seq<i64>, sref: SpatialReference)
    -> SpatialPartition2D {
    let (x1, y1, x2, y2) = if spec_axis_swapped(sref) {
        (values[1], values[0], values[3], values[2])
    } else {
        (values[0], values[1], values[2], values[3])
    };
    let min_x = if x1 <= x2 {
        x1
    } else {
        x2
    };
    let max_x = if x1 <= x2 {
        x2
    } else {
        x1
    };
    let min_y = if y1 <= y2 {
        y1
    } else {
        y2
    };
    let max_y = if y1 <= y2 {
        y2
    } else {
        y1
    };
    SpatialPartition2D {
        upper_left: Coordinate2D { x: min_x, y: max_y },
        lower_right: Coordinate2D { x: max_x, y: min_y },
    }
}

/// The coordinate a grid-origin pair denotes, honoring the reference
/// system's axis order.
pub open spec fn spec_grid_origin_coordinate(origin: Seq<i64>, sref: SpatialReference)
    -> Coordinate2D {
    if spec_axis_swapped(sref) {
        Coordinate2D { x: origin[1], y: origin[0] }
    } else {
        Coordinate2D { x: origin[0], y: origin[1] }
    }
}

impl GetCoverage {
    /// The partition this request's bounding box denotes.
    pub fn spatial_partition(&self) -> (r: SpatialPartition2D)
        ensures
            r == spec_wcs_partition(self.boundingbox.values@, self.gridbasecrs),
            r.wf(),
    {
        let v = &self.boundingbox.values;
        let swapped = self.gridbasecrs.authority == SpatialReferenceAuthority::Epsg
            && self.gridbasecrs.code == 4326;
        let (x1, y1, x2, y2) = if swapped {
            (v[1], v[0], v[3], v[2])
        } else {
            (v[0], v[1], v[2], v[3])
        };
        let min_x = if x1 <= x2 {
            x1
        } else {
            x2
        };
        let max_x = if x1 <= x2 {
            x2
        } else {
            x1
        };
        let min_y = if y1 <= y2 {
            y1
        } else {
            y2
        };
        let max_y = if y1 <= y2 {
            y2
        } else {
            y1
        };
        SpatialPartition2D {
            upper_left: Coordinate2D { x: min_x, y: max_y },
            lower_right: Coordinate2D { x: max_x, y: min_y },
        }
    }
}

/// What a validated coverage request resolves to: the query rectangle,
/// the reference system to answer in, whether the workflow's result must
/// first be wrapped in a reprojection stage, and the sentinel to encode.
#[derive(Debug, PartialEq, Eq, Clone, Copy, Structural)]
pub struct CoveragePlan {
    pub query: RasterQueryRectangle,
    pub request_spatial_reference: SpatialReference,
    pub needs_reprojection: bool,
    pub no_data_value: Option<i64>,
}

/// Whether a request's protocol version is supported.
pub open spec fn spec_wcs_version_ok(version: Seq<char>) -> bool {
    version == "1.1.1"@ || version == "1.1.0"@
}

/// Validates a coverage request against the workflow's descriptor and
/// resolves it into an executable plan. The checks, in order: the
/// protocol version is supported; an explicit grid origin equals the
/// bounding box's upper-left corner; a reference system carried by the
/// bounding box equals the declared grid base system; the workflow's
/// descriptor names a reference system. A reprojection stage is required
/// exactly when the workflow's system differs from the request's. The
/// resolution defaults to a 256-by-256-cell cover of the bounds, the
/// time interval to the instant `now_millis`.
pub fn process_coverage_request(
    request: &GetCoverage,
    workflow_descriptor: &RasterResultDescriptor,
    now_millis: i64,
) -> (r: Result<CoveragePlan, Error>)
    requires
        forall|i: int|
            0 <= i < 4 ==> -0x2000_0000_0000_0000 <= #[trigger] request.boundingbox.values@[i]
                <= 0x2000_0000_0000_0000,
    ensures
        !spec_wcs_version_ok(request.version@) ==> r == Err::<CoveragePlan, Error>(
            Error::WcsVersionNotSupported,
        ),
        ({
            let partition = spec_wcs_partition(request.boundingbox.values@, request.gridbasecrs);
            let origin_bad = request.gridorigin matches Some(origin)
                && spec_grid_origin_coordinate(origin@, request.gridbasecrs) != partition.upper_left;
            let bbox_crs_bad = request.boundingbox.spatial_reference matches Some(sref) && sref
                != request.gridbasecrs;
            &&& (spec_wcs_version_ok(request.version@) && origin_bad ==> r == Err::<
                CoveragePlan,
                Error,
            >(Error::WcsGridOriginMustEqualBoundingboxUpperLeft))
            &&& (spec_wcs_version_ok(request.version@) && !origin_bad && bbox_crs_bad ==> r
                == Err::<CoveragePlan, Error>(Error::WcsBoundingboxCrsMustEqualGridBaseCrs))
            &&& (spec_wcs_version_ok(request.version@) && !origin_bad && !bbox_crs_bad
                && workflow_descriptor.spatial_reference is None ==> r == Err::<
                CoveragePlan,
                Error,
            >(Error::InvalidSpatialReference))
            &&& (spec_wcs_version_ok(request.version@) && !origin_bad && !bbox_crs_bad
                && workflow_descriptor.spatial_reference is Some ==> r is Ok)
            &&& (r matches Ok(plan) ==> {
                &&& plan.query.spatial_bounds == partition
                &&& plan.request_spatial_reference == request.gridbasecrs
                &&& plan.needs_reprojection == (workflow_descriptor.spatial_reference != Some(
                    request.gridbasecrs,
                ))
                &&& plan.no_data_value == workflow_descriptor.no_data_value
                &&& plan.query.time_interval == match request.time {
                    Some(t) => t,
                    None => TimeInterval { start: now_millis, end: now_millis },
                }
                &&& plan.query.spatial_resolution == match request.spatial_resolution {
                    Some(res) => res,
                    None => SpatialResolution {
                        x: ((partition.lower_right.x - partition.upper_left.x) / 256) as i64,
                        y: ((partition.upper_left.y - partition.lower_right.y) / 256) as i64,
                    },
                }
            })
        }),
{
    let v111 = "1.1.1".to_owned();
    let v110 = "1.1.0".to_owned();
    if !(request.version == v111 || request.version == v110) {
        return Err(Error::WcsVersionNotSupported);
    }
    let partition = request.spatial_partition();
    if let Some(origin) = request.gridorigin {
        let origin_coordinate = if request.gridbasecrs.authority == SpatialReferenceAuthority::Epsg
            && request.gridbasecrs.code == 4326 {
            Coordinate2D { x: origin[1], y: origin[0] }
        } else {
            Coordinate2D { x: origin[0], y: origin[1] }
        };
        if origin_coordinate != partition.upper_left() {
            return Err(Error::WcsGridOriginMustEqualBoundingboxUpperLeft);
        }
    }
    if let Some(bbox_spatial_reference) = request.boundingbox.spatial_reference {
        if !(request.gridbasecrs == bbox_spatial_reference) {
            return Err(Error::WcsBoundingboxCrsMustEqualGridBaseCrs);
        }
    }
    let workflow_spatial_ref = match workflow_descriptor.spatial_reference {
        Some(sref) => sref,
        None => {
            return Err(Error::InvalidSpatialReference);
        },
    };
    let needs_reprojection = !(workflow_spatial_ref == request.gridbasecrs);
    let spatial_resolution = match request.spatial_resolution {
        Some(res) => res,
        None => SpatialResolution { x: partition.size_x() / 256, y: partition.size_y() / 256 },
    };
    let time_interval = match request.time {
        Some(t) => t,
        None => TimeInterval::new_instant(now_millis),
    };
    Ok(
        CoveragePlan {
            query: RasterQueryRectangle {
                spatial_bounds: partition,
                time_interval,
                spatial_resolution,
            },
            request_spatial_reference: request.gridbasecrs,
            needs_reprojection,
            no_data_value: workflow_descriptor.no_data_value,
        },
    )
}

/// Orders a bounding box's corner ordinates for a coverage description:
/// the geographic reference reports latitude first, every other
/// reference the horizontal ordinate first.
pub fn describe_bbox_ordinates(sref: &SpatialReference, lower_left: Coordinate2D, upper_right: Coordinate2D)
    -> (r: (i64, i64, i64, i64))
    ensures
        spec_axis_swapped(*sref) ==> r == (lower_left.y, lower_left.x, upper_right.y, upper_right.x),
        !spec_axis_swapped(*sref) ==> r == (lower_left.x, lower_left.y, upper_right.x, upper_right.y),
{
    if sref.authority == SpatialReferenceAuthority::Epsg && sref.code == 4326 {
        (lower_left.y, lower_left.x, upper_right.y, upper_right.x)
    } else {
        (lower_left.x, lower_left.y, upper_right.x, upper_right.y)
    }
}

} // verus!
