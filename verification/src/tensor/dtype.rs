use vstd::prelude::*;
use vstd::string::*;

verus! {

/// The element type of a tensor.
#[derive(Debug, Clone, Copy, PartialEq, Eq, Structural)]
pub enum DType {
    Float32,
    Int16,
    Int32,
}

/// The size in bytes of one element of `d`.
pub open spec fn spec_byte_size(d: DType) -> nat {
    match d {
        DType::Float32 => 4,
        DType::Int32 => 4,
        DType::Int16 => 2,
    }
}

/// The suffix that names `d` in GPU pipeline names.
pub open spec fn pipeline_suffix(d: DType) -> Seq<char> {
    match d {
        DType::Float32 => seq!['f', '3', '2'],
        DType::Int32 => seq!['i', '3', '2'],
        DType::Int16 => seq!['i', '1', '6'],
    }
}

/// The name of the variant `d`, as `{:?}` prints it.
pub open spec fn dtype_name(d: DType) -> Seq<char> {
    match d {
        DType::Float32 => seq!['F', 'l', 'o', 'a', 't', '3', '2'],
        DType::Int32 => seq!['I', 'n', 't', '3', '2'],
        DType::Int16 => seq!['I', 'n', 't', '1', '6'],
    }
}

impl DType {
    /// Returns the size of a single element in bytes.
    pub fn byte_size(&self) -> (n: usize)
        ensures
            n == spec_byte_size(*self),
    {
        match self {
            DType::Float32 => 4,
            DType::Int32 => 4,
            DType::Int16 => 2,
        }
    }

    fn suffix(&self) -> (s: &'static str)
        ensures
            s@ == pipeline_suffix(*self),
    {
        proof {
            reveal_strlit("f32");
            reveal_strlit("i32");
            reveal_strlit("i16");
        }
        match self {
            DType::Float32 => "f32",
            DType::Int32 => "i32",
            DType::Int16 => "i16",
        }
    }

    /// Returns a GPU pipeline name for the given operation prefix: the prefix, `_`, and the type's suffix.
    pub fn pipeline_name(&self, prefix: &str) -> (name: String)
        ensures
            name@ == prefix@ + seq!['_'] + pipeline_suffix(*self),
    {
        proof {
            reveal_strlit("_");
        }
        let mut name = String::from_str(prefix);
        name.append("_");
        name.append(self.suffix());
        name
    }

    /// The name of the variant, as `{:?}` prints it.
    pub fn name(&self) -> (s: &'static str)
        ensures
            s@ == dtype_name(*self),
    {
        proof {
            reveal_strlit("Float32");
            reveal_strlit("Int32");
            reveal_strlit("Int16");
        }
        match self {
            DType::Float32 => "Float32",
            DType::Int32 => "Int32",
            DType::Int16 => "Int16",
        }
    }
}

/// A primitive element type that a tensor can hold.
pub trait TensorDType: Copy {
    /// The tensor element type that corresponds to this primitive type.
    fn dtype() -> DType;
}

impl TensorDType for i32 {
    fn dtype() -> (d: DType)
        ensures
            d == DType::Int32,
    {
        DType::Int32
    }
}

impl TensorDType for i16 {
    fn dtype() -> (d: DType)
        ensures
            d == DType::Int16,
    {
        DType::Int16
    }
}

/// The elements of a tensor, as plain values of its element type.
/// `Float32` elements are held as their IEEE-754 bit patterns.
#[derive(Debug)]
pub enum TensorData {
    Float32(Vec<u32>),
    Int32(Vec<i32>),
    Int16(Vec<i16>),
}

impl TensorData {
    /// The element type of the data.
    pub open spec fn spec_dtype(&self) -> DType {
        match self {
            TensorData::Float32(_) => DType::Float32,
            TensorData::Int32(_) => DType::Int32,
            TensorData::Int16(_) => DType::Int16,
        }
    }

    /// The elements, each as an integer (a bit pattern for `Float32`).
    pub open spec fn values(&self) -> Seq<int> {
        match self {
            TensorData::Float32(v) => v@.map_values(|x: u32| x as int),
            TensorData::Int32(v) => v@.map_values(|x: i32| x as int),
            TensorData::Int16(v) => v@.map_values(|x: i16| x as int),
        }
    }

    /// The element type of the data.
    pub fn dtype(&self) -> (d: DType)
        ensures
            d == self.spec_dtype(),
    {
        match self {
            TensorData::Float32(_) => DType::Float32,
            TensorData::Int32(_) => DType::Int32,
            TensorData::Int16(_) => DType::Int16,
        }
    }

    /// The number of elements.
    pub fn len(&self) -> (n: usize)
        ensures
            n == self.values().len(),
    {
        match self {
            TensorData::Float32(v) => v.len(),
            TensorData::Int32(v) => v.len(),
            TensorData::Int16(v) => v.len(),
        }
    }

    /// A copy of the data.
    pub fn duplicate(&self) -> (r: TensorData)
        ensures
            r.spec_dtype() == self.spec_dtype(),
            r.values() == self.values(),
    {
        match self {
            TensorData::Float32(v) => {
                let w = v.clone();
                assert(w@ =~= v@);
                TensorData::Float32(w)
            },
            TensorData::Int32(v) => {
                let w = v.clone();
                assert(w@ =~= v@);
                TensorData::Int32(w)
            },
            TensorData::Int16(v) => {
                let w = v.clone();
                assert(w@ =~= v@);
                TensorData::Int16(w)
            },
        }
    }
}

} // verus!
