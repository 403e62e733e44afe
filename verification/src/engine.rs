//! The typed operator graph and its validating, eager initialization.
//!
//! An operator owns its child sources exclusively and is consumed by
//! value during initialization. Initialization is the single point of
//! structural and type validation: a successfully initialized operator
//! is guaranteed executable, and its result descriptor is fixed.

use vstd::prelude::*;

use crate::descriptors::{
    RasterResultDescriptor, same_vector_descriptor, VectorDataType, VectorResultDescriptor,
};
use crate::error::{Error, GeometryRequirement, OperatorSpecIssue};

verus! {

/// An operator node: parameters plus exclusively-owned raster and vector
/// child sources.
#[derive(Debug, PartialEq, Eq)]
pub struct Operator<P> {
    pub params: P,
    pub raster_sources: Vec<RasterOperator>,
    pub vector_sources: Vec<VectorOperator>,
}

/// The parameter spec for `RasterVectorJoin`: each name is the output
/// column for the corresponding raster input.
#[derive(Debug, Clone, PartialEq, Eq)]
pub struct RasterVectorJoinParams {
    pub names: Vec<String>,
}

/// An operator that attaches raster values to vector data.
pub type RasterVectorJoin = Operator<RasterVectorJoinParams>;

/// The largest number of raster inputs a join accepts.
pub const MAX_NUMBER_OF_RASTER_INPUTS: usize = 8;

/// A raster source node of the graph.
#[derive(Debug, PartialEq, Eq)]
pub enum RasterOperator {
    /// A source loaded through the execution context's metadata registry.
    GdalSource { dataset: String },
    /// A source whose descriptor is given inline.
    MockRasterSource { result_descriptor: RasterResultDescriptor },
}

/// A vector source node of the graph.
#[derive(Debug, PartialEq, Eq)]
pub enum VectorOperator {
    /// A source whose descriptor is given inline.
    MockVectorSource { result_descriptor: VectorResultDescriptor },
    /// A raster-vector join, itself owning child sources.
    RasterVectorJoin(RasterVectorJoin),
}

/// The execution context: resolves a dataset identifier to the metadata
/// of its raster source. Passed explicitly; there is no ambient state.
#[derive(Debug, Clone, PartialEq, Eq)]
pub struct ExecutionContext {
    pub raster_descriptors: Vec<(String, RasterResultDescriptor)>,
}

/// A raster source validated and ready to execute.
#[derive(Debug, Clone, PartialEq, Eq)]
pub struct InitializedRasterOperator {
    pub result_descriptor: RasterResultDescriptor,
}

/// A vector source validated and ready to execute.
#[derive(Debug, Clone, PartialEq, Eq)]
pub struct InitializedVectorOperator {
    pub result_descriptor: VectorResultDescriptor,
}

/// A validated operator with its children, parameters and fixed result
/// descriptor.
#[derive(Debug, Clone, PartialEq, Eq)]
pub struct InitializedOperatorImpl<P, R> {
    pub params: P,
    pub result_descriptor: R,
    pub raster_sources: Vec<InitializedRasterOperator>,
    pub vector_sources: Vec<InitializedVectorOperator>,
}

pub type InitializedRasterVectorJoin = InitializedOperatorImpl<
    RasterVectorJoinParams,
    VectorResultDescriptor,
>;

/// The metadata registered for `dataset`, scanning front to back.
pub open spec fn spec_lookup_raster(
    descs: Seq<(String, RasterResultDescriptor)>,
    dataset: Seq<char>,
) -> Option<RasterResultDescriptor>
    decreases descs.len(),
{
    if descs.len() == 0 {
        None
    } else if descs[0].0@ == dataset {
        Some(descs[0].1)
    } else {
        spec_lookup_raster(descs.skip(1), dataset)
    }
}

/// What initializing one raster source yields: the registered descriptor
/// for a context-resolved source, or the inline one.
pub open spec fn spec_initialize_raster(op: RasterOperator, ctx: ExecutionContext) -> Result<
    InitializedRasterOperator,
    Error,
> {
    match op {
        RasterOperator::GdalSource { dataset } => match spec_lookup_raster(
            ctx.raster_descriptors@,
            dataset@,
        ) {
            Some(d) => Ok(InitializedRasterOperator { result_descriptor: d }),
            None => Err(Error::UnknownDatasetId),
        },
        RasterOperator::MockRasterSource { result_descriptor } => Ok(
            InitializedRasterOperator { result_descriptor },
        ),
    }
}

/// What initializing a list of raster sources yields: all of them eagerly,
/// failing on the first child that fails.
pub open spec fn spec_initialize_rasters(ops: Seq<RasterOperator>, ctx: ExecutionContext) -> Result<
    Seq<InitializedRasterOperator>,
    Error,
>
    decreases ops.len(),
{
    if ops.len() == 0 {
        Ok(Seq::empty())
    } else {
        match spec_initialize_rasters(ops.drop_last(), ctx) {
            Err(e) => Err(e),
            Ok(done) => match spec_initialize_raster(ops.last(), ctx) {
                Err(e) => Err(e),
                Ok(i) => Ok(done.push(i)),
            },
        }
    }
}

/// Whether a join's structural validation passes: exactly one vector
/// source, one to eight raster sources, one name per raster source.
pub open spec fn spec_join_structure_ok(op: RasterVectorJoin) -> bool {
    &&& op.vector_sources@.len() == 1
    &&& 1 <= op.raster_sources@.len() <= MAX_NUMBER_OF_RASTER_INPUTS
    &&& op.params.names@.len() == op.raster_sources@.len()
}

/// The result descriptor a vector source exposes once initialized.
pub open spec fn spec_initialize_vector(op: VectorOperator, ctx: ExecutionContext) -> Result<
    InitializedVectorOperator,
    Error,
>
    decreases op,
{
    match op {
        VectorOperator::MockVectorSource { result_descriptor } => Ok(
            InitializedVectorOperator { result_descriptor },
        ),
        VectorOperator::RasterVectorJoin(join) => {
            if !spec_join_structure_ok(join) {
                Err(spec_join_structure_error(join))
            } else {
                match spec_initialize_vector(join.vector_sources@[0], ctx) {
                    Err(e) => Err(e),
                    Ok(v) => {
                        if v.result_descriptor.data_type == VectorDataType::Data {
                            Err(
                                Error::InvalidType {
                                    expected: GeometryRequirement::AnyGeometry,
                                    found: VectorDataType::Data,
                                },
                            )
                        } else {
                            match spec_initialize_rasters(join.raster_sources@, ctx) {
                                Err(e) => Err(e),
                                Ok(_) => Ok(
                                    InitializedVectorOperator {
                                        result_descriptor: v.result_descriptor,
                                    },
                                ),
                            }
                        }
                    },
                }
            }
        },
    }
}

/// Which structural error a join reports, in validation order.
pub open spec fn spec_join_structure_error(op: RasterVectorJoin) -> Error {
    if op.vector_sources@.len() != 1 {
        Error::InvalidNumberOfVectorInputs {
            expected_min: 1,
            expected_max: 2,
            found: op.vector_sources@.len() as usize,
        }
    } else if !(1 <= op.raster_sources@.len() <= MAX_NUMBER_OF_RASTER_INPUTS) {
        Error::InvalidNumberOfRasterInputs {
            expected_min: 1,
            expected_max: MAX_NUMBER_OF_RASTER_INPUTS,
            found: op.raster_sources@.len() as usize,
        }
    } else {
        Error::InvalidOperatorSpec { reason: OperatorSpecIssue::RasterSourcesMustMatchNames }
    }
}

impl ExecutionContext {
    /// The descriptor registered for `dataset`, scanning front to back.
    pub fn meta_data(&self, dataset: &String) -> (r: Option<RasterResultDescriptor>)
        ensures
            r == spec_lookup_raster(self.raster_descriptors@, dataset@),
    {
        let descs = &self.raster_descriptors;
        proof {
            assert(descs@.skip(0) =~= descs@);
        }
        let mut i: usize = 0;
        while i < descs.len()
            invariant
                i <= descs@.len(),
                descs@ == self.raster_descriptors@,
                spec_lookup_raster(descs@.skip(i as int), dataset@) == spec_lookup_raster(
                    descs@,
                    dataset@,
                ),
            decreases descs@.len() - i,
        {
            let pair = &descs[i];
            proof {
                assert(descs@.skip(i as int)[0] == descs@[i as int]);
            }
            if pair.0 == *dataset {
                proof {
                    assert(*pair == descs@[i as int]);
                    assert(descs@.skip(i as int)[0] == descs@[i as int]);
                    assert(spec_lookup_raster(descs@.skip(i as int), dataset@) == Some(
                        descs@[i as int].1,
                    ));
                    assert(spec_lookup_raster(descs@, dataset@) == Some(descs@[i as int].1));
                }
                let found = pair.1.clone();
                proof {
                    assert(found == descs@[i as int].1);
                    assert(descs@ == self.raster_descriptors@);
                }
                return Some(found);
            }
            proof {
                assert(descs@.skip(i as int).skip(1) =~= descs@.skip(i as int + 1));
            }
            i = i + 1;
        }
        proof {
            assert(descs@.skip(i as int) =~= Seq::<(String, RasterResultDescriptor)>::empty());
        }
        None
    }
}

impl RasterOperator {
    /// Resolves this raster source against the context; fails exactly when
    /// a context-resolved dataset is not registered.
    pub fn initialize(self, context: &ExecutionContext) -> (r: Result<
        InitializedRasterOperator,
        Error,
    >)
        ensures
            r == spec_initialize_raster(self, *context),
    {
        match self {
            RasterOperator::MockRasterSource { result_descriptor } => Ok(
                InitializedRasterOperator { result_descriptor },
            ),
            RasterOperator::GdalSource { dataset } => match context.meta_data(&dataset) {
                Some(d) => Ok(InitializedRasterOperator { result_descriptor: d }),
                None => Err(Error::UnknownDatasetId),
            },
        }
    }
}

impl VectorOperator {
    /// Validates this source and every child, eagerly and recursively.
    pub fn initialize(self, context: &ExecutionContext) -> (r: Result<
        InitializedVectorOperator,
        Error,
    >)
        ensures
            r == spec_initialize_vector(self, *context),
        decreases self,
    {
        match self {
            VectorOperator::MockVectorSource { result_descriptor } => Ok(
                InitializedVectorOperator { result_descriptor },
            ),
            VectorOperator::RasterVectorJoin(join) => match join.initialize(context) {
                Ok(init) => Ok(
                    InitializedVectorOperator { result_descriptor: init.result_descriptor },
                ),
                Err(e) => Err(e),
            },
        }
    }
}

/// Once a child source fails, the whole list fails with that child's
/// error, whatever follows it.
proof fn lemma_rasters_fail_from_prefix(
    ops: Seq<RasterOperator>,
    ctx: ExecutionContext,
    k: int,
    e: Error,
)
    requires
        0 <= k < ops.len(),
        spec_initialize_rasters(ops.take(k), ctx) is Ok,
        spec_initialize_raster(ops[k], ctx) == Err::<InitializedRasterOperator, Error>(e),
    ensures
        spec_initialize_rasters(ops, ctx) == Err::<Seq<InitializedRasterOperator>, Error>(e),
    decreases ops.len(),
{
    if ops.len() == k + 1 {
        assert(ops.drop_last() =~= ops.take(k));
        assert(ops.last() == ops[k]);
    } else {
        assert(ops.drop_last().take(k) =~= ops.take(k));
        assert(ops.drop_last()[k] == ops[k]);
        lemma_rasters_fail_from_prefix(ops.drop_last(), ctx, k, e);
    }
}

impl RasterVectorJoin {
    /// Validates the join and initializes every child, eagerly: exactly
    /// one vector source, one to eight raster sources, one output column
    /// name per raster source, and a vector source that carries geometry.
    /// A successfully initialized join exposes the vector source's result
    /// descriptor.
    #[verifier::loop_isolation(false)]
    pub fn initialize(self, context: &ExecutionContext) -> (r: Result<
        InitializedRasterVectorJoin,
        Error,
    >)
        ensures
            r is Ok <==> spec_initialize_vector(
                VectorOperator::RasterVectorJoin(self),
                *context,
            ) is Ok,
            r matches Err(e) ==> spec_initialize_vector(VectorOperator::RasterVectorJoin(self), *context)
                == Err::<InitializedVectorOperator, Error>(e),
            r matches Ok(init) ==> {
                &&& init.params == self.params
                &&& spec_initialize_vector(VectorOperator::RasterVectorJoin(self), *context)
                    == Ok::<InitializedVectorOperator, Error>(
                    InitializedVectorOperator { result_descriptor: init.result_descriptor },
                )
                &&& spec_initialize_vector(self.vector_sources@[0], *context) == Ok::<
                    InitializedVectorOperator,
                    Error,
                >(InitializedVectorOperator { result_descriptor: init.result_descriptor })
                &&& init.vector_sources@.len() == 1
                &&& same_vector_descriptor(
                    init.vector_sources@[0].result_descriptor,
                    init.result_descriptor,
                )
                &&& Ok::<Seq<InitializedRasterOperator>, Error>(init.raster_sources@)
                    == spec_initialize_rasters(self.raster_sources@, *context)
            },
        decreases self,
    {
        if self.vector_sources.len() != 1 {
            return Err(
                Error::InvalidNumberOfVectorInputs {
                    expected_min: 1,
                    expected_max: 2,
                    found: self.vector_sources.len(),
                },
            );
        }
        let n_rasters = self.raster_sources.len();
        if n_rasters < 1 || n_rasters > MAX_NUMBER_OF_RASTER_INPUTS {
            return Err(
                Error::InvalidNumberOfRasterInputs {
                    expected_min: 1,
                    expected_max: MAX_NUMBER_OF_RASTER_INPUTS,
                    found: n_rasters,
                },
            );
        }
        if self.params.names.len() != n_rasters {
            return Err(
                Error::InvalidOperatorSpec {
                    reason: OperatorSpecIssue::RasterSourcesMustMatchNames,
                },
            );
        }
        let Operator { params, raster_sources, mut vector_sources } = self;
        let vector_source = vector_sources.remove(0);
        let vs_init = match vector_source.initialize(context) {
            Ok(v) => v,
            Err(e) => {
                return Err(e);
            },
        };
        if vs_init.result_descriptor.data_type == VectorDataType::Data {
            return Err(
                Error::InvalidType {
                    expected: GeometryRequirement::AnyGeometry,
                    found: VectorDataType::Data,
                },
            );
        }
        let mut rs = raster_sources;
        let ghost rs0 = rs@;
        let mut initialized: Vec<InitializedRasterOperator> = Vec::new();
        while rs.len() > 0
            invariant
                rs0.len() == initialized@.len() + rs@.len(),
                rs@ =~= rs0.skip(initialized@.len() as int),
                spec_initialize_rasters(rs0.take(initialized@.len() as int), *context) == Ok::<
                    Seq<InitializedRasterOperator>,
                    Error,
                >(initialized@),
            decreases rs@.len(),
        {
            let ghost k = initialized@.len() as int;
            let op = rs.remove(0);
            proof {
                assert(op == rs0[k]);
                assert(rs@ =~= rs0.skip(k + 1));
            }
            match op.initialize(context) {
                Ok(i) => {
                    initialized.push(i);
                    proof {
                        let t = rs0.take(k + 1);
                        assert(t.drop_last() =~= rs0.take(k));
                        assert(t.last() == rs0[k]);
                    }
                },
                Err(e) => {
                    proof {
                        lemma_rasters_fail_from_prefix(rs0, *context, k, e);
                    }
                    return Err(e);
                },
            }
        }
        proof {
            assert(rs0.take(initialized@.len() as int) =~= rs0);
        }
        let stored_descriptor = vs_init.result_descriptor.clone();
        let mut init_vectors: Vec<InitializedVectorOperator> = Vec::new();
        init_vectors.push(InitializedVectorOperator { result_descriptor: stored_descriptor });
        Ok(
            InitializedOperatorImpl {
                params,
                result_descriptor: vs_init.result_descriptor,
                raster_sources: initialized,
                vector_sources: init_vectors,
            },
        )
    }
}

impl InitializedRasterVectorJoin {
    /// The join's execution body is a development-time placeholder: the
    /// initialized join does not yet produce a query processor.
    pub fn query_processor(&self) -> (r: Result<
        crate::processor::TypedVectorQueryProcessor,
        Error,
    >)
        ensures
            r == Err::<crate::processor::TypedVectorQueryProcessor, Error>(
                Error::NotYetImplemented,
            ),
    {
        Err(Error::NotYetImplemented)
    }
}

/// Initialization is a function of the operator graph and the context
/// alone: re-initializing an equal graph against an equal context yields
/// the identical outcome, result descriptor included.
pub proof fn lemma_reinitialization_is_identical(
    op1: VectorOperator,
    op2: VectorOperator,
    ctx1: ExecutionContext,
    ctx2: ExecutionContext,
)
    requires
        op1 == op2,
        ctx1 == ctx2,
    ensures
        spec_initialize_vector(op1, ctx1) == spec_initialize_vector(op2, ctx2),
{
}

} // verus!
