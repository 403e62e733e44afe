//! The typed query processor: a closed sum type with one variant per
//! supported pixel type. Dispatch happens once, when an initialized
//! operator's descriptor is examined; downstream code matches the sum
//! type and never inspects pixel types again.

use vstd::prelude::*;

use crate::descriptors::{RasterDataType, RasterResultDescriptor, VectorResultDescriptor};
use crate::error::Error;

verus! {

/// A processor uniform in one pixel type: it carries the descriptor it
/// will honor.
#[derive(Debug, PartialEq, Eq)]
pub struct RasterProcessor {
    pub result_descriptor: RasterResultDescriptor,
}

/// One variant per supported pixel type; the variant is chosen once,
/// from the result descriptor, at initialization.
#[derive(Debug, PartialEq, Eq)]
pub enum TypedRasterQueryProcessor {
    U8(RasterProcessor),
    U16(RasterProcessor),
    U32(RasterProcessor),
    U64(RasterProcessor),
    I8(RasterProcessor),
    I16(RasterProcessor),
    I32(RasterProcessor),
    I64(RasterProcessor),
    F32(RasterProcessor),
    F64(RasterProcessor),
}

/// The pixel type a typed processor is uniform in.
pub open spec fn spec_processor_data_type(p: TypedRasterQueryProcessor) -> RasterDataType {
    match p {
        TypedRasterQueryProcessor::U8(_) => RasterDataType::U8,
        TypedRasterQueryProcessor::U16(_) => RasterDataType::U16,
        TypedRasterQueryProcessor::U32(_) => RasterDataType::U32,
        TypedRasterQueryProcessor::U64(_) => RasterDataType::U64,
        TypedRasterQueryProcessor::I8(_) => RasterDataType::I8,
        TypedRasterQueryProcessor::I16(_) => RasterDataType::I16,
        TypedRasterQueryProcessor::I32(_) => RasterDataType::I32,
        TypedRasterQueryProcessor::I64(_) => RasterDataType::I64,
        TypedRasterQueryProcessor::F32(_) => RasterDataType::F32,
        TypedRasterQueryProcessor::F64(_) => RasterDataType::F64,
    }
}

/// The descriptor a typed processor carries.
pub open spec fn spec_processor_descriptor(p: TypedRasterQueryProcessor) -> RasterResultDescriptor {
    match p {
        TypedRasterQueryProcessor::U8(r) => r.result_descriptor,
        TypedRasterQueryProcessor::U16(r) => r.result_descriptor,
        TypedRasterQueryProcessor::U32(r) => r.result_descriptor,
        TypedRasterQueryProcessor::U64(r) => r.result_descriptor,
        TypedRasterQueryProcessor::I8(r) => r.result_descriptor,
        TypedRasterQueryProcessor::I16(r) => r.result_descriptor,
        TypedRasterQueryProcessor::I32(r) => r.result_descriptor,
        TypedRasterQueryProcessor::I64(r) => r.result_descriptor,
        TypedRasterQueryProcessor::F32(r) => r.result_descriptor,
        TypedRasterQueryProcessor::F64(r) => r.result_descriptor,
    }
}

impl TypedRasterQueryProcessor {
    /// Dispatches a descriptor into the variant of its pixel type: the
    /// single point where pixel types are examined.
    pub fn from_descriptor(result_descriptor: RasterResultDescriptor) -> (r: Self)
        ensures
            spec_processor_data_type(r) == result_descriptor.data_type,
            spec_processor_descriptor(r) == result_descriptor,
    {
        match result_descriptor.data_type {
            RasterDataType::U8 => TypedRasterQueryProcessor::U8(
                RasterProcessor { result_descriptor },
            ),
            RasterDataType::U16 => TypedRasterQueryProcessor::U16(
                RasterProcessor { result_descriptor },
            ),
            RasterDataType::U32 => TypedRasterQueryProcessor::U32(
                RasterProcessor { result_descriptor },
            ),
            RasterDataType::U64 => TypedRasterQueryProcessor::U64(
                RasterProcessor { result_descriptor },
            ),
            RasterDataType::I8 => TypedRasterQueryProcessor::I8(
                RasterProcessor { result_descriptor },
            ),
            RasterDataType::I16 => TypedRasterQueryProcessor::I16(
                RasterProcessor { result_descriptor },
            ),
            RasterDataType::I32 => TypedRasterQueryProcessor::I32(
                RasterProcessor { result_descriptor },
            ),
            RasterDataType::I64 => TypedRasterQueryProcessor::I64(
                RasterProcessor { result_descriptor },
            ),
            RasterDataType::F32 => TypedRasterQueryProcessor::F32(
                RasterProcessor { result_descriptor },
            ),
            RasterDataType::F64 => TypedRasterQueryProcessor::F64(
                RasterProcessor { result_descriptor },
            ),
        }
    }

    /// The pixel type the processor is uniform in.
    pub fn data_type(&self) -> (r: RasterDataType)
        ensures
            r == spec_processor_data_type(*self),
    {
        match self {
            TypedRasterQueryProcessor::U8(_) => RasterDataType::U8,
            TypedRasterQueryProcessor::U16(_) => RasterDataType::U16,
            TypedRasterQueryProcessor::U32(_) => RasterDataType::U32,
            TypedRasterQueryProcessor::U64(_) => RasterDataType::U64,
            TypedRasterQueryProcessor::I8(_) => RasterDataType::I8,
            TypedRasterQueryProcessor::I16(_) => RasterDataType::I16,
            TypedRasterQueryProcessor::I32(_) => RasterDataType::I32,
            TypedRasterQueryProcessor::I64(_) => RasterDataType::I64,
            TypedRasterQueryProcessor::F32(_) => RasterDataType::F32,
            TypedRasterQueryProcessor::F64(_) => RasterDataType::F64,
        }
    }

    /// The processor, if it is uniform in 16-bit unsigned pixels.
    pub fn get_u16(self) -> (r: Option<RasterProcessor>)
        ensures
            r is Some <==> spec_processor_data_type(self) == RasterDataType::U16,
            r matches Some(p) ==> p.result_descriptor == spec_processor_descriptor(self),
    {
        match self {
            TypedRasterQueryProcessor::U16(p) => Some(p),
            _ => None,
        }
    }

    /// Whether the coverage encoder can write this processor's pixel
    /// type; it refuses 8-bit signed and 64-bit integer pixels.
    pub fn geotiff_encodable(&self) -> (r: Result<(), Error>)
        ensures
            r is Ok <==> spec_geotiff_encodable(spec_processor_data_type(*self)),
            r matches Err(e) ==> e == Error::RasterDataTypeNotSupportByGdal,
    {
        match self {
            TypedRasterQueryProcessor::I8(_) => Err(Error::RasterDataTypeNotSupportByGdal),
            TypedRasterQueryProcessor::U64(_) => Err(Error::RasterDataTypeNotSupportByGdal),
            TypedRasterQueryProcessor::I64(_) => Err(Error::RasterDataTypeNotSupportByGdal),
            _ => Ok(()),
        }
    }
}

/// Which pixel types the coverage encoder accepts.
pub open spec fn spec_geotiff_encodable(t: RasterDataType) -> bool {
    match t {
        RasterDataType::I8 => false,
        RasterDataType::U64 => false,
        RasterDataType::I64 => false,
        _ => true,
    }
}

/// A vector processor uniform in one geometry kind: it carries the
/// descriptor it will honor.
#[derive(Debug, PartialEq, Eq)]
pub struct VectorProcessor {
    pub result_descriptor: VectorResultDescriptor,
}

/// One variant per geometry kind a vector result can carry.
#[derive(Debug, PartialEq, Eq)]
pub enum TypedVectorQueryProcessor {
    Data(VectorProcessor),
    MultiPoint(VectorProcessor),
    MultiLineString(VectorProcessor),
    MultiPolygon(VectorProcessor),
}

} // verus!
