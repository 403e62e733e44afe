//! Result descriptors: the statically-known contract of an operator's
//! output — pixel or geometry type, spatial reference, units and schema.

use vstd::prelude::*;

verus! {

/// The fixed, finite set of supported raster pixel types.
#[derive(Debug, Clone, Copy, PartialEq, Eq, Structural)]
pub enum RasterDataType {
    U8,
    U16,
    U32,
    U64,
    I8,
    I16,
    I32,
    I64,
    F32,
    F64,
}

/// The geometry kind a vector result carries; `Data` is attribute-only,
/// without geometry.
#[derive(Debug, Clone, Copy, PartialEq, Eq, Structural)]
pub enum VectorDataType {
    Data,
    MultiPoint,
    MultiLineString,
    MultiPolygon,
}

/// The type of one attribute column of a vector result.
#[derive(Debug, Clone, Copy, PartialEq, Eq, Structural)]
pub enum FeatureDataType {
    Categorical,
    Decimal,
    Number,
    Text,
}

/// The registry that issued a spatial reference code.
#[derive(Debug, Clone, Copy, PartialEq, Eq, Structural)]
pub enum SpatialReferenceAuthority {
    Epsg,
    SrOrg,
    Iau2000,
    Esri,
}

/// A coordinate reference system: an authority and its numeric code.
#[derive(Debug, Clone, Copy, PartialEq, Eq, Structural)]
pub struct SpatialReference {
    pub authority: SpatialReferenceAuthority,
    pub code: u32,
}

impl SpatialReference {
    pub fn new(authority: SpatialReferenceAuthority, code: u32) -> (r: Self)
        ensures
            r == (SpatialReference { authority, code }),
    {
        SpatialReference { authority, code }
    }

    /// The ubiquitous geographic WGS 84 reference.
    pub fn epsg_4326() -> (r: Self)
        ensures
            r == (SpatialReference { authority: SpatialReferenceAuthority::Epsg, code: 4326u32 }),
    {
        SpatialReference { authority: SpatialReferenceAuthority::Epsg, code: 4326 }
    }
}

/// The unit a measurement is expressed in; `Unitless` where none applies.
#[derive(Debug, PartialEq, Eq)]
pub enum Measurement {
    Unitless,
    Continuous { measurement: String, unit: Option<String> },
}

impl Clone for Measurement {
    fn clone(&self) -> (r: Self)
        ensures
            r == *self,
    {
        match self {
            Measurement::Unitless => Measurement::Unitless,
            Measurement::Continuous { measurement, unit } => Measurement::Continuous {
                measurement: measurement.clone(),
                unit: match unit {
                    Some(u) => Some(u.clone()),
                    None => None,
                },
            },
        }
    }
}

/// The contract of a raster operator's output. The no-data sentinel is
/// carried in fixed-point micro-units, one millionth of a pixel unit.
#[derive(Debug, PartialEq, Eq)]
pub struct RasterResultDescriptor {
    pub data_type: RasterDataType,
    pub spatial_reference: Option<SpatialReference>,
    pub measurement: Measurement,
    pub no_data_value: Option<i64>,
}

impl Clone for RasterResultDescriptor {
    fn clone(&self) -> (r: Self)
        ensures
            r == *self,
    {
        RasterResultDescriptor {
            data_type: self.data_type,
            spatial_reference: self.spatial_reference,
            measurement: self.measurement.clone(),
            no_data_value: self.no_data_value,
        }
    }
}

/// The contract of a vector operator's output: geometry kind, spatial
/// reference and the ordered attribute columns.
#[derive(Debug, PartialEq, Eq)]
pub struct VectorResultDescriptor {
    pub data_type: VectorDataType,
    pub spatial_reference: Option<SpatialReference>,
    pub columns: Vec<(String, FeatureDataType)>,
}

impl VectorResultDescriptor {
    /// Column names are unique.
    pub open spec fn wf(self) -> bool {
        forall|i: int, j: int|
            0 <= i < j < self.columns@.len() ==> self.columns@[i].0@ != self.columns@[j].0@
    }
}

/// Two vector descriptors that agree in every observable part: geometry
/// kind, spatial reference, and the columns with their names and types.
pub open spec fn same_vector_descriptor(a: VectorResultDescriptor, b: VectorResultDescriptor) -> bool {
    &&& a.data_type == b.data_type
    &&& a.spatial_reference == b.spatial_reference
    &&& a.columns@ == b.columns@
}

impl Clone for VectorResultDescriptor {
    fn clone(&self) -> (r: Self)
        ensures
            same_vector_descriptor(r, *self),
    {
        let mut columns: Vec<(String, FeatureDataType)> = Vec::new();
        let mut i: usize = 0;
        while i < self.columns.len()
            invariant
                i <= self.columns@.len(),
                columns@.len() == i,
                forall|j: int| 0 <= j < i ==> columns@[j] == self.columns@[j],
            decreases self.columns@.len() - i,
        {
            let pair = &self.columns[i];
            columns.push((pair.0.clone(), pair.1));
            i = i + 1;
        }
        proof {
            assert(columns@ =~= self.columns@);
        }
        VectorResultDescriptor {
            data_type: self.data_type,
            spatial_reference: self.spatial_reference,
            columns,
        }
    }
}

} // verus!
