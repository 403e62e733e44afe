use geocore::descriptors::{Measurement, RasterDataType, RasterResultDescriptor, SpatialReference,
    SpatialReferenceAuthority};
use geocore::error::Error;
use geocore::primitives::Coordinate2D;
use geocore::time::TimeInterval;
use geocore::wcs::{describe_bbox_ordinates, GetCoverage, process_coverage_request, WcsBoundingbox,
    wcs_url, WorkflowId};

const MICRO: i64 = 1_000_000;

fn epsg_4326() -> SpatialReference {
    SpatialReference::new(SpatialReferenceAuthority::Epsg, 4326)
}

fn utm32n() -> SpatialReference {
    SpatialReference::new(SpatialReferenceAuthority::Epsg, 32632)
}

fn descriptor(spatial_reference: Option<SpatialReference>) -> RasterResultDescriptor {
    RasterResultDescriptor {
        data_type: RasterDataType::U8,
        spatial_reference,
        measurement: Measurement::Unitless,
        no_data_value: Some(0),
    }
}

/// The request of the protocol example: latitude range 20..80, longitude
/// range -10..50, geographic axis order, grid origin at the upper left.
fn example_request() -> GetCoverage {
    GetCoverage {
        version: "1.1.1".to_owned(),
        identifier: "93d6785e-5eea-4e0e-8074-e7f78733d988".to_owned(),
        boundingbox: WcsBoundingbox {
            values: [20 * MICRO, -10 * MICRO, 80 * MICRO, 50 * MICRO],
            spatial_reference: Some(epsg_4326()),
        },
        gridbasecrs: epsg_4326(),
        gridorigin: Some([80 * MICRO, -10 * MICRO]),
        gridoffsets: Some([100_000, 100_000]),
        time: Some(TimeInterval::new_instant(1_388_534_400_000)),
        spatial_resolution: None,
    }
}

#[test]
fn wcs_url_joins_base_and_workflow() {
    let base = "http://localhost:3030".to_owned();
    let workflow = WorkflowId {
        id: "93d6785e-5eea-4e0e-8074-e7f78733d988".to_owned(),
    };
    assert_eq!(
        wcs_url(Some(&base), &workflow).unwrap(),
        "http://localhost:3030/wcs/93d6785e-5eea-4e0e-8074-e7f78733d988"
    );
    assert_eq!(
        wcs_url(None, &workflow).unwrap_err(),
        Error::ExternalAddressNotConfigured
    );
}

#[test]
fn coverage_request_resolves_to_a_plan() {
    let plan = process_coverage_request(&example_request(), &descriptor(Some(epsg_4326())), 0)
        .unwrap();
    // geographic axis order: x spans -10..50, y spans 20..80
    assert_eq!(plan.query.spatial_bounds.upper_left, Coordinate2D::new(-10 * MICRO, 80 * MICRO));
    assert_eq!(plan.query.spatial_bounds.lower_right, Coordinate2D::new(50 * MICRO, 20 * MICRO));
    assert!(!plan.needs_reprojection);
    assert_eq!(plan.request_spatial_reference, epsg_4326());
    assert_eq!(plan.no_data_value, Some(0));
    assert_eq!(plan.query.time_interval, TimeInterval::new_instant(1_388_534_400_000));
    // default resolution: a 256-cell cover of each axis
    assert_eq!(plan.query.spatial_resolution.x, 60 * MICRO / 256);
    assert_eq!(plan.query.spatial_resolution.y, 60 * MICRO / 256);
}

#[test]
fn coverage_request_rejects_unsupported_versions() {
    let mut request = example_request();
    request.version = "2.0.0".to_owned();
    assert_eq!(
        process_coverage_request(&request, &descriptor(Some(epsg_4326())), 0).unwrap_err(),
        Error::WcsVersionNotSupported
    );
    let mut request = example_request();
    request.version = "1.1.0".to_owned();
    assert!(process_coverage_request(&request, &descriptor(Some(epsg_4326())), 0).is_ok());
}

#[test]
fn coverage_request_grid_origin_must_match_the_upper_left() {
    let mut request = example_request();
    request.gridorigin = Some([79 * MICRO, -10 * MICRO]);
    assert_eq!(
        process_coverage_request(&request, &descriptor(Some(epsg_4326())), 0).unwrap_err(),
        Error::WcsGridOriginMustEqualBoundingboxUpperLeft
    );
}

#[test]
fn coverage_request_bounding_box_reference_must_match() {
    let mut request = example_request();
    request.boundingbox.spatial_reference = Some(utm32n());
    assert_eq!(
        process_coverage_request(&request, &descriptor(Some(epsg_4326())), 0).unwrap_err(),
        Error::WcsBoundingboxCrsMustEqualGridBaseCrs
    );
}

#[test]
fn coverage_request_needs_a_workflow_reference_system() {
    assert_eq!(
        process_coverage_request(&example_request(), &descriptor(None), 0).unwrap_err(),
        Error::InvalidSpatialReference
    );
}

#[test]
fn coverage_request_inserts_reprojection_when_systems_differ() {
    let plan = process_coverage_request(&example_request(), &descriptor(Some(utm32n())), 0)
        .unwrap();
    assert!(plan.needs_reprojection);
    assert_eq!(plan.request_spatial_reference, epsg_4326());
}

#[test]
fn coverage_request_defaults_the_time_to_now() {
    let mut request = example_request();
    request.time = None;
    let now = 1_700_000_000_000;
    let plan = process_coverage_request(&request, &descriptor(Some(epsg_4326())), now).unwrap();
    assert_eq!(plan.query.time_interval, TimeInterval::new_instant(now));
}

#[test]
fn describe_ordinates_follow_the_axis_order() {
    let ll = Coordinate2D::new(-180 * MICRO, -90 * MICRO);
    let ur = Coordinate2D::new(180 * MICRO, 90 * MICRO);
    assert_eq!(
        describe_bbox_ordinates(&epsg_4326(), ll, ur),
        (-90 * MICRO, -180 * MICRO, 90 * MICRO, 180 * MICRO)
    );
    assert_eq!(
        describe_bbox_ordinates(&utm32n(), ll, ur),
        (-180 * MICRO, -90 * MICRO, 180 * MICRO, 90 * MICRO)
    );
}

#[test]
fn time_intervals_intersect_by_shared_milliseconds() {
    let a = TimeInterval::new(0, 10).unwrap();
    let b = TimeInterval::new(9, 20).unwrap();
    let c = TimeInterval::new(10, 20).unwrap();
    let instant = TimeInterval::new_instant(10);
    assert!(a.intersects(&b));
    assert!(!a.intersects(&c));
    assert!(instant.intersects(&c));
    assert!(!instant.intersects(&a));
    assert!(instant.intersects(&instant.clone()));
    assert!(TimeInterval::new(30, 20).is_err());
}
