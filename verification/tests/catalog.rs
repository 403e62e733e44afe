use geocore::descriptors::{Measurement, RasterDataType, SpatialReference, SpatialReferenceAuthority};
use geocore::error::Error;
use geocore::primitives::{BoundingBox2D, Coordinate2D, RasterQueryRectangle, SpatialPartition2D,
    SpatialResolution};
use geocore::sentinel::{Band, DatasetId, FileNotFoundHandling, SentinelS2L2aCogsDataProvider,
    SentinelS2L2aCogsMetaData, Zone, stac_pages_needed};
use geocore::stac::{StacAsset, StacFeature};
use geocore::time::TimeInterval;

const MICRO: i64 = 1_000_000;

fn b01_meta() -> SentinelS2L2aCogsMetaData {
    SentinelS2L2aCogsMetaData {
        api_url: "https://earth-search.aws.element84.com/v0/search".to_owned(),
        zone: Zone::new("UTM32N".to_owned(), 32632),
        band: Band::new("B01".to_owned(), Some(0), RasterDataType::U16),
    }
}

fn b01_asset() -> StacAsset {
    StacAsset {
        href: "https://sentinel-cogs.s3.us-west-2.amazonaws.com/sentinel-s2-l2a-cogs/32/R/PU/2021/1/S2B_32RPU_20210102_0_L2A/B01.tif".to_owned(),
        proj_shape: Some((1830, 1830)),
        proj_transform: Some(vec![
            60 * MICRO,
            0,
            600_000 * MICRO,
            0,
            -60 * MICRO,
            3_400_020 * MICRO,
        ]),
    }
}

fn feature(datetime: i64, epsg: Option<u32>, assets: Vec<(String, StacAsset)>) -> StacFeature {
    StacFeature {
        datetime,
        proj_epsg: epsg,
        assets,
    }
}

fn instant_query(time: i64) -> RasterQueryRectangle {
    RasterQueryRectangle {
        spatial_bounds: SpatialPartition2D::new_unchecked(
            Coordinate2D::new(166_021_440_000, 9_329_005_180_000),
            Coordinate2D::new(534_994_660_000, 0),
        ),
        time_interval: TimeInterval::new_instant(time),
        spatial_resolution: SpatialResolution::one(),
    }
}

#[test]
fn loading_info() {
    let meta = b01_meta();
    let instant = 1_609_581_746_000;
    let features = vec![feature(
        instant,
        Some(32632),
        vec![("B01".to_owned(), b01_asset())],
    )];

    let parts = meta
        .create_loading_info(&instant_query(instant), features)
        .unwrap();

    assert_eq!(parts.len(), 1);
    let part = &parts[0];
    assert_eq!(part.time, TimeInterval::new_unchecked(1_609_581_746_000, 1_609_581_747_000));
    assert_eq!(
        part.params.file_path,
        "/vsicurl/https://sentinel-cogs.s3.us-west-2.amazonaws.com/sentinel-s2-l2a-cogs/32/R/PU/2021/1/S2B_32RPU_20210102_0_L2A/B01.tif"
    );
    assert_eq!(part.params.rasterband_channel, 1);
    assert_eq!(
        part.params.geo_transform.origin_coordinate,
        Coordinate2D::new(600_000 * MICRO, 3_400_020 * MICRO)
    );
    assert_eq!(part.params.geo_transform.x_pixel_size, 60 * MICRO);
    assert_eq!(part.params.geo_transform.y_pixel_size, -60 * MICRO);
    assert_eq!(part.params.width, 1830);
    assert_eq!(part.params.height, 1830);
    assert_eq!(part.params.file_not_found_handling, FileNotFoundHandling::NoData);
    assert_eq!(part.params.no_data_value, Some(0));
}

#[test]
fn three_records_yield_consecutive_validity_windows() {
    let meta = b01_meta();
    let t1 = 1_000_000;
    let t2 = 2_000_000;
    let t3 = 3_000_000;
    // delivered out of order; one foreign-zone record is ignored
    let features = vec![
        feature(t3, Some(32632), vec![("B01".to_owned(), b01_asset())]),
        feature(t1, Some(32632), vec![("B01".to_owned(), b01_asset())]),
        feature(t2, Some(32636), vec![("B01".to_owned(), b01_asset())]),
        feature(t2, Some(32632), vec![("B01".to_owned(), b01_asset())]),
    ];
    let query = RasterQueryRectangle {
        time_interval: TimeInterval::new(t1, t3 + 500).unwrap(),
        ..instant_query(t1)
    };

    let parts = meta.create_loading_info(&query, features).unwrap();

    assert_eq!(parts.len(), 3);
    assert_eq!(parts[0].time, TimeInterval::new_unchecked(t1, t2));
    assert_eq!(parts[1].time, TimeInterval::new_unchecked(t2, t3));
    assert_eq!(parts[2].time, TimeInterval::new_unchecked(t3, t3 + 1000));
}

#[test]
fn only_intersecting_windows_are_emitted() {
    let meta = b01_meta();
    let t1 = 1_000_000;
    let t2 = 2_000_000;
    let t3 = 3_000_000;
    let features = vec![
        feature(t1, Some(32632), vec![("B01".to_owned(), b01_asset())]),
        feature(t2, Some(32632), vec![("B01".to_owned(), b01_asset())]),
        feature(t3, Some(32632), vec![("B01".to_owned(), b01_asset())]),
    ];
    let query = RasterQueryRectangle {
        time_interval: TimeInterval::new_instant(t2),
        ..instant_query(t2)
    };

    let parts = meta.create_loading_info(&query, features).unwrap();

    assert_eq!(parts.len(), 1);
    assert_eq!(parts[0].time, TimeInterval::new_unchecked(t2, t3));
}

#[test]
fn missing_band_is_reported_by_name() {
    let meta = b01_meta();
    let instant = 1_609_581_746_000;
    let features = vec![feature(
        instant,
        Some(32632),
        vec![("B02".to_owned(), b01_asset())],
    )];
    assert_eq!(
        meta.create_loading_info(&instant_query(instant), features)
            .unwrap_err(),
        Error::StacNoSuchBand {
            band_name: "B01".to_owned()
        }
    );
}

#[test]
fn malformed_catalog_geometry_is_rejected() {
    let meta = b01_meta();
    let instant = 1_609_581_746_000;

    let mut no_shape = b01_asset();
    no_shape.proj_shape = None;
    let features = vec![feature(instant, Some(32632), vec![("B01".to_owned(), no_shape)])];
    assert_eq!(
        meta.create_loading_info(&instant_query(instant), features)
            .unwrap_err(),
        Error::StacInvalidBbox
    );

    let mut bad_transform = b01_asset();
    bad_transform.proj_transform = Some(vec![1, 2, 3]);
    let features = vec![feature(
        instant,
        Some(32632),
        vec![("B01".to_owned(), bad_transform)],
    )];
    assert_eq!(
        meta.create_loading_info(&instant_query(instant), features)
            .unwrap_err(),
        Error::StacInvalidGeoTransform
    );
}

#[test]
fn request_params_shift_the_start_one_minute_back() {
    let meta = b01_meta();
    let query = instant_query(1_609_581_746_000);
    let bbox = BoundingBox2D {
        lower_left: Coordinate2D::new(166_021_440_000, 0),
        upper_right: Coordinate2D::new(534_994_660_000, 9_329_005_180_000),
    };

    let params = meta.request_params(&query, &bbox).unwrap();

    assert_eq!(params.len(), 4);
    assert_eq!(params[0], ("collections[]".to_owned(), "sentinel-s2-l2a-cogs".to_owned()));
    assert_eq!(params[1], ("bbox".to_owned(), "[166021.44,0,534994.66,9329005.18]".to_owned()));
    assert_eq!(
        params[2],
        (
            "datetime".to_owned(),
            "2021-01-02T10:01:26+00:00/2021-01-02T10:02:26+00:00".to_owned()
        )
    );
    assert_eq!(params[3], ("limit".to_owned(), "500".to_owned()));
}

#[test]
fn request_params_succeed_across_the_calendar_range() {
    let meta = b01_meta();
    let bbox = BoundingBox2D {
        lower_left: Coordinate2D::new(0, 0),
        upper_right: Coordinate2D::new(MICRO, MICRO),
    };
    // the earliest and latest instants the contract promises to render
    let query = RasterQueryRectangle {
        time_interval: TimeInterval::new(
            -8_000_000_000_000_000 + 60_000,
            8_000_000_000_000_000,
        )
        .unwrap(),
        ..instant_query(0)
    };
    assert!(meta.request_params(&query, &bbox).is_ok());
}

#[test]
fn time_range_request_rejects_an_unshiftable_start() {
    let time = TimeInterval::new_unchecked(i64::MIN, 0);
    assert_eq!(
        SentinelS2L2aCogsMetaData::time_range_request(&time).unwrap_err(),
        Error::NoDateTimeValid {
            time_instance: i64::MIN
        }
    );
    let time = TimeInterval::new_unchecked(60_000, 70_000);
    assert_eq!(
        SentinelS2L2aCogsMetaData::time_range_request(&time).unwrap(),
        (0, 70_000)
    );
}

#[test]
fn page_count_is_the_ceiling_of_the_quotient() {
    assert_eq!(stac_pages_needed(0, 500), 0);
    assert_eq!(stac_pages_needed(1, 500), 1);
    assert_eq!(stac_pages_needed(500, 500), 1);
    assert_eq!(stac_pages_needed(501, 500), 2);
    assert_eq!(stac_pages_needed(1500, 500), 3);
    assert_eq!(stac_pages_needed(0, 0), 0);
    assert_eq!(stac_pages_needed(7, 0), u32::MAX);
}

#[test]
fn provider_exposes_one_dataset_per_zone_and_band() {
    let provider_id = "5779494c-f3a2-48b3-8a2d-5fbba8c5b6c5".to_owned();
    let provider = SentinelS2L2aCogsDataProvider::new(
        &provider_id,
        "https://earth-search.aws.element84.com/v0/search".to_owned(),
    );

    assert_eq!(provider.datasets.len(), 12);

    let meta = provider
        .meta_data(&DatasetId {
            provider_id: provider_id.clone(),
            dataset_id: "UTM32N:B01".to_owned(),
        })
        .unwrap();
    assert_eq!(meta.zone.name, "UTM32N");
    assert_eq!(meta.zone.epsg, 32632);
    assert_eq!(meta.band.name, "B01");
    assert_eq!(meta.band.data_type, RasterDataType::U16);
    assert_eq!(meta.band.no_data_value, Some(0));

    let descriptor = meta.result_descriptor();
    assert_eq!(descriptor.data_type, RasterDataType::U16);
    assert_eq!(
        descriptor.spatial_reference,
        Some(SpatialReference::new(SpatialReferenceAuthority::Epsg, 32632))
    );
    assert_eq!(descriptor.measurement, Measurement::Unitless);
    assert_eq!(descriptor.no_data_value, Some(0));

    assert_eq!(
        provider
            .meta_data(&DatasetId {
                provider_id,
                dataset_id: "UTM99X:B01".to_owned(),
            })
            .unwrap_err(),
        Error::UnknownDatasetId
    );
}

#[test]
fn provider_listings_are_named_and_ordered() {
    let provider_id = "5779494c-f3a2-48b3-8a2d-5fbba8c5b6c5".to_owned();
    let provider = SentinelS2L2aCogsDataProvider::new(
        &provider_id,
        "https://example.invalid/search".to_owned(),
    );
    let listings = provider.list();
    assert_eq!(listings.len(), 12);
    assert_eq!(listings[0].name, "Sentinel S2 L2A COGS UTM32N:B01");
    assert_eq!(listings[11].name, "Sentinel S2 L2A COGS UTM36S:SCL");
    assert_eq!(listings[0].source_operator, "GdalSource");
    let mut names: Vec<String> = listings.iter().map(|l| l.name.clone()).collect();
    let sorted = {
        names.sort();
        names
    };
    for (listing, name) in listings.iter().zip(sorted.iter()) {
        assert_eq!(&listing.name, name);
    }

    let provenance = provider.provenance(&DatasetId {
        provider_id,
        dataset_id: "UTM32N:B01".to_owned(),
    });
    assert!(provenance.provenance.is_none());
}
