use geocore::descriptors::{
    FeatureDataType, Measurement, RasterDataType, RasterResultDescriptor, SpatialReference,
    VectorDataType, VectorResultDescriptor,
};
use geocore::engine::{
    ExecutionContext, Operator, RasterOperator, RasterVectorJoinParams, VectorOperator,
};
use geocore::error::{Error, GeometryRequirement, OperatorSpecIssue};
use geocore::processor::{RasterProcessor, TypedRasterQueryProcessor};

fn point_descriptor() -> VectorResultDescriptor {
    VectorResultDescriptor {
        data_type: VectorDataType::MultiPoint,
        spatial_reference: Some(SpatialReference::epsg_4326()),
        columns: vec![("population".to_owned(), FeatureDataType::Number)],
    }
}

fn data_descriptor() -> VectorResultDescriptor {
    VectorResultDescriptor {
        data_type: VectorDataType::Data,
        spatial_reference: None,
        columns: vec![],
    }
}

fn raster_descriptor() -> RasterResultDescriptor {
    RasterResultDescriptor {
        data_type: RasterDataType::U16,
        spatial_reference: Some(SpatialReference::epsg_4326()),
        measurement: Measurement::Unitless,
        no_data_value: Some(0),
    }
}

fn mock_raster() -> RasterOperator {
    RasterOperator::MockRasterSource {
        result_descriptor: raster_descriptor(),
    }
}

fn mock_vector() -> VectorOperator {
    VectorOperator::MockVectorSource {
        result_descriptor: point_descriptor(),
    }
}

fn join(
    names: Vec<String>,
    raster_sources: Vec<RasterOperator>,
    vector_sources: Vec<VectorOperator>,
) -> Operator<RasterVectorJoinParams> {
    Operator {
        params: RasterVectorJoinParams { names },
        raster_sources,
        vector_sources,
    }
}

fn context() -> ExecutionContext {
    ExecutionContext {
        raster_descriptors: vec![("ndvi".to_owned(), raster_descriptor())],
    }
}

#[test]
fn join_requires_exactly_one_vector_source() {
    let op = join(vec!["a".to_owned()], vec![mock_raster()], vec![]);
    match op.initialize(&context()) {
        Err(Error::InvalidNumberOfVectorInputs {
            expected_min,
            expected_max,
            found,
        }) => {
            assert_eq!(expected_min, 1);
            assert_eq!(expected_max, 2);
            assert_eq!(found, 0);
        }
        other => panic!("expected a vector-arity error, got {:?}", other),
    }

    let op = join(
        vec!["a".to_owned()],
        vec![mock_raster()],
        vec![mock_vector(), mock_vector()],
    );
    assert!(matches!(
        op.initialize(&context()),
        Err(Error::InvalidNumberOfVectorInputs { found: 2, .. })
    ));
}

#[test]
fn join_requires_one_to_eight_raster_sources() {
    let op = join(vec![], vec![], vec![mock_vector()]);
    match op.initialize(&context()) {
        Err(Error::InvalidNumberOfRasterInputs {
            expected_min,
            expected_max,
            found,
        }) => {
            assert_eq!(expected_min, 1);
            assert_eq!(expected_max, 8);
            assert_eq!(found, 0);
        }
        other => panic!("expected a raster-arity error, got {:?}", other),
    }

    let mut rasters = Vec::new();
    let mut names = Vec::new();
    for i in 0..9 {
        rasters.push(mock_raster());
        names.push(format!("c{}", i));
    }
    let op = join(names, rasters, vec![mock_vector()]);
    assert!(matches!(
        op.initialize(&context()),
        Err(Error::InvalidNumberOfRasterInputs { found: 9, .. })
    ));
}

#[test]
fn join_requires_one_name_per_raster_source() {
    let op = join(
        vec!["only-one".to_owned()],
        vec![mock_raster(), mock_raster()],
        vec![mock_vector()],
    );
    assert_eq!(
        op.initialize(&context()).unwrap_err(),
        Error::InvalidOperatorSpec {
            reason: OperatorSpecIssue::RasterSourcesMustMatchNames
        }
    );
}

#[test]
fn join_rejects_attribute_only_vector_sources() {
    let op = join(
        vec!["a".to_owned()],
        vec![mock_raster()],
        vec![VectorOperator::MockVectorSource {
            result_descriptor: data_descriptor(),
        }],
    );
    assert_eq!(
        op.initialize(&context()).unwrap_err(),
        Error::InvalidType {
            expected: GeometryRequirement::AnyGeometry,
            found: VectorDataType::Data
        }
    );
}

#[test]
fn join_initialization_exposes_the_vector_descriptor() {
    let op = join(
        vec!["a".to_owned(), "b".to_owned()],
        vec![
            mock_raster(),
            RasterOperator::GdalSource {
                dataset: "ndvi".to_owned(),
            },
        ],
        vec![mock_vector()],
    );
    let init = op.initialize(&context()).unwrap();
    assert_eq!(init.result_descriptor, point_descriptor());
    assert_eq!(init.raster_sources.len(), 2);
    assert_eq!(init.raster_sources[1].result_descriptor, raster_descriptor());
    assert_eq!(init.vector_sources.len(), 1);
}

#[test]
fn join_fails_on_unknown_dataset() {
    let op = join(
        vec!["a".to_owned()],
        vec![RasterOperator::GdalSource {
            dataset: "missing".to_owned(),
        }],
        vec![mock_vector()],
    );
    assert_eq!(op.initialize(&context()).unwrap_err(), Error::UnknownDatasetId);
}

#[test]
fn reinitializing_the_same_graph_yields_identical_descriptors() {
    let build = || {
        join(
            vec!["a".to_owned()],
            vec![RasterOperator::GdalSource {
                dataset: "ndvi".to_owned(),
            }],
            vec![mock_vector()],
        )
    };
    let ctx = context();
    let first = build().initialize(&ctx).unwrap();
    let second = build().initialize(&ctx).unwrap();
    assert_eq!(first.result_descriptor, second.result_descriptor);
    assert_eq!(first, second);
}

#[test]
fn query_processor_is_a_placeholder() {
    let op = join(
        vec!["a".to_owned()],
        vec![mock_raster()],
        vec![mock_vector()],
    );
    let init = op.initialize(&context()).unwrap();
    assert!(matches!(init.query_processor(), Err(Error::NotYetImplemented)));
}

#[test]
fn processor_dispatch_matches_the_descriptor_type() {
    let descriptor = raster_descriptor();
    let processor = TypedRasterQueryProcessor::from_descriptor(descriptor.clone());
    assert_eq!(processor.data_type(), RasterDataType::U16);
    let inner: RasterProcessor = processor.get_u16().unwrap();
    assert_eq!(inner.result_descriptor, descriptor);

    let mut i8_descriptor = raster_descriptor();
    i8_descriptor.data_type = RasterDataType::I8;
    let processor = TypedRasterQueryProcessor::from_descriptor(i8_descriptor);
    assert!(matches!(
        processor.geotiff_encodable(),
        Err(Error::RasterDataTypeNotSupportByGdal)
    ));
    assert!(processor.get_u16().is_none());
}
