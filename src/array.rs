use vstd::prelude::*;
use vstd::string::*;
use crate::numeric::{float_text, i32_of, is_float_text, parse_i32};

verus! {

/// The scalar kinds a column can hold.
#[derive(Debug, Clone, Copy, PartialEq, Eq, Structural)]
pub enum DataTypeKind {
    Int,
    Double,
    String,
}

/// A column's type: its scalar kind and whether it admits nulls.
#[derive(Debug, Clone, Copy, PartialEq, Eq, Structural)]
pub struct DataType {
    pub kind: DataTypeKind,
    pub nullable: bool,
}

impl DataTypeKind {
    pub fn nullable(self) -> (r: DataType)
        ensures
            r == (DataType { kind: self, nullable: true }),
    {
        DataType { kind: self, nullable: true }
    }

    pub fn not_null(self) -> (r: DataType)
        ensures
            r == (DataType { kind: self, nullable: false }),
    {
        DataType { kind: self, nullable: false }
    }
}

impl DataType {
    pub fn is_nullable(&self) -> (r: bool)
        ensures
            r == self.nullable,
    {
        self.nullable
    }
}

/// One value of a column, as the contracts speak of it. Floating-point values
/// are kept in the decimal notation they were written in.
pub ghost enum Scalar {
    Int32(i32),
    Float64(Seq<char>),
    Utf8(Seq<char>),
}

/// Whether `s` is text that a column of `kind` takes; the empty text stands for null.
pub open spec fn converts(kind: DataTypeKind, s: Seq<char>) -> bool {
    s.len() == 0 || match kind {
        DataTypeKind::Int => i32_of(s) is Some,
        DataTypeKind::Double => float_text(s),
        DataTypeKind::String => true,
    }
}

/// The cell that the text `s` becomes in a column of `kind`.
pub open spec fn cell_of(kind: DataTypeKind, s: Seq<char>) -> Option<Scalar> {
    if s.len() == 0 {
        None
    } else {
        match kind {
            DataTypeKind::Int => Some(Scalar::Int32(i32_of(s)->0)),
            DataTypeKind::Double => Some(Scalar::Float64(s)),
            DataTypeKind::String => Some(Scalar::Utf8(s)),
        }
    }
}

pub open spec fn int_cells(v: Seq<Option<i32>>) -> Seq<Option<Scalar>> {
    v.map_values(|x: Option<i32>| match x {
        Some(i) => Some(Scalar::Int32(i)),
        None => None,
    })
}

pub open spec fn float_cells(v: Seq<Option<String>>) -> Seq<Option<Scalar>> {
    v.map_values(|x: Option<String>| match x {
        Some(t) => Some(Scalar::Float64(t@)),
        None => None,
    })
}

pub open spec fn text_cells(v: Seq<Option<String>>) -> Seq<Option<Scalar>> {
    v.map_values(|x: Option<String>| match x {
        Some(t) => Some(Scalar::Utf8(t@)),
        None => None,
    })
}

/// A frozen, nullable column. `Float64` holds each value in its validated
/// decimal notation.
#[derive(Debug, PartialEq)]
pub enum ArrayImpl {
    Int32(Vec<Option<i32>>),
    Float64(Vec<Option<String>>),
    UTF8(Vec<Option<String>>),
}

impl ArrayImpl {
    pub open spec fn kind(&self) -> DataTypeKind {
        match self {
            ArrayImpl::Int32(_) => DataTypeKind::Int,
            ArrayImpl::Float64(_) => DataTypeKind::Double,
            ArrayImpl::UTF8(_) => DataTypeKind::String,
        }
    }

    pub open spec fn cells(&self) -> Seq<Option<Scalar>> {
        match self {
            ArrayImpl::Int32(v) => int_cells(v@),
            ArrayImpl::Float64(v) => float_cells(v@),
            ArrayImpl::UTF8(v) => text_cells(v@),
        }
    }

    pub fn len(&self) -> (r: usize)
        ensures
            r == self.cells().len(),
    {
        match self {
            ArrayImpl::Int32(v) => v.len(),
            ArrayImpl::Float64(v) => v.len(),
            ArrayImpl::UTF8(v) => v.len(),
        }
    }
}

/// The error of a text that a column cannot take.
#[derive(Debug, PartialEq)]
pub struct ConvertError {
    pub text: String,
    pub kind: DataTypeKind,
}

/// A column under construction; `finish` freezes it into an `ArrayImpl`.
#[derive(Debug)]
pub enum ArrayBuilderImpl {
    Int32(Vec<Option<i32>>),
    Float64(Vec<Option<String>>),
    UTF8(Vec<Option<String>>),
}

impl ArrayBuilderImpl {
    pub open spec fn kind(&self) -> DataTypeKind {
        match self {
            ArrayBuilderImpl::Int32(_) => DataTypeKind::Int,
            ArrayBuilderImpl::Float64(_) => DataTypeKind::Double,
            ArrayBuilderImpl::UTF8(_) => DataTypeKind::String,
        }
    }

    pub open spec fn cells(&self) -> Seq<Option<Scalar>> {
        match self {
            ArrayBuilderImpl::Int32(v) => int_cells(v@),
            ArrayBuilderImpl::Float64(v) => float_cells(v@),
            ArrayBuilderImpl::UTF8(v) => text_cells(v@),
        }
    }

    /// An empty builder for a column of type `ty`.
    pub fn new(ty: &DataType) -> (r: ArrayBuilderImpl)
        ensures
            r.kind() == ty.kind,
            r.cells() == Seq::<Option<Scalar>>::empty(),
    {
        let r = match ty.kind {
            DataTypeKind::Int => ArrayBuilderImpl::Int32(Vec::new()),
            DataTypeKind::Double => ArrayBuilderImpl::Float64(Vec::new()),
            DataTypeKind::String => ArrayBuilderImpl::UTF8(Vec::new()),
        };
        assert(r.cells() =~= Seq::<Option<Scalar>>::empty());
        r
    }

    /// Parses `s` and appends it; the empty text appends a null. On a text the
    /// column cannot take, nothing changes and the error names the text and kind.
    pub fn push_str(&mut self, s: &str) -> (r: Result<(), ConvertError>)
        ensures
            final(self).kind() == old(self).kind(),
            r is Ok <==> converts(old(self).kind(), s@),
            r is Ok ==> final(self).cells() == old(self).cells().push(cell_of(old(self).kind(), s@)),
            r is Err ==> final(self).cells() == old(self).cells(),
            r matches Err(e) ==> e.text@ == s@ && e.kind == old(self).kind(),
    {
        let empty = s.unicode_len() == 0;
        match self {
            ArrayBuilderImpl::Int32(v) => {
                if empty {
                    v.push(None);
                } else {
                    match parse_i32(s) {
                        Some(i) => v.push(Some(i)),
                        None => {
                            return Err(ConvertError { text: s.to_string(), kind: DataTypeKind::Int });
                        },
                    }
                }
                assert(int_cells(v@) =~= int_cells(old(self)->Int32_0@).push(cell_of(DataTypeKind::Int, s@)));
            },
            ArrayBuilderImpl::Float64(v) => {
                if empty {
                    v.push(None);
                } else if is_float_text(s) {
                    v.push(Some(s.to_string()));
                } else {
                    return Err(ConvertError { text: s.to_string(), kind: DataTypeKind::Double });
                }
                assert(float_cells(v@) =~= float_cells(old(self)->Float64_0@).push(cell_of(DataTypeKind::Double, s@)));
            },
            ArrayBuilderImpl::UTF8(v) => {
                if empty {
                    v.push(None);
                } else {
                    v.push(Some(s.to_string()));
                }
                assert(text_cells(v@) =~= text_cells(old(self)->UTF8_0@).push(cell_of(DataTypeKind::String, s@)));
            },
        }
        Ok(())
    }

    /// Freezes the builder: the array holds exactly the pushed cells, in order.
    pub fn finish(self) -> (r: ArrayImpl)
        ensures
            r.kind() == self.kind(),
            r.cells() == self.cells(),
    {
        match self {
            ArrayBuilderImpl::Int32(v) => ArrayImpl::Int32(v),
            ArrayBuilderImpl::Float64(v) => ArrayImpl::Float64(v),
            ArrayBuilderImpl::UTF8(v) => ArrayImpl::UTF8(v),
        }
    }
}

} // verus!
