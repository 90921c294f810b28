//! A minimal layer over a stateful graphics device: buffer objects, vertex
//! layouts and vertex-array bindings, with the device context modelled
//! explicitly so that handle lifetimes and attribute-pointer arithmetic are
//! machine-checked.

use vstd::prelude::*;

pub mod buffer;
pub mod device;
pub mod index_buffer;
pub mod vertex_array;
pub mod vertex_buffer;

verus! {

use crate::device::GlError;

/// Scalar type of one component of a vertex attribute.
///
/// The byte widths are fixed device-side sizes, independent of the host:
/// `FLOAT` and `UINT` are four bytes wide, `BYTE` is one byte wide.
#[derive(Clone, Copy, Debug, PartialEq, Eq, Structural)]
pub enum GLType {
    UINT,
    FLOAT,
    BYTE,
}

/// Byte width of one scalar of type `t`: `FLOAT` and `UINT` take four
/// bytes, `BYTE` takes one.
pub open spec fn scalar_size(t: GLType) -> u32 {
    match t {
        GLType::FLOAT => 4,
        GLType::BYTE => 1,
        GLType::UINT => 4,
    }
}

/// Fixed normalization policy: `BYTE` attributes are normalized to the
/// unit range by the device, the four-byte types are passed through.
pub open spec fn normalised_for(t: GLType) -> bool {
    t is BYTE
}

impl GLType {
    /// Byte width of one scalar of this type.
    pub fn size(&self) -> (r: u32)
        ensures
            r == scalar_size(*self),
    {
        match self {
            GLType::FLOAT => 4,
            GLType::BYTE => 1,
            GLType::UINT => 4,
        }
    }

    /// Whether the device normalizes attributes of this type.
    pub fn normalised(&self) -> (r: bool)
        ensures
            r == normalised_for(*self),
    {
        matches!(self, GLType::BYTE)
    }

    /// The raw device code for this scalar type.
    pub fn code(&self) -> (r: u32)
        ensures
            r == type_code(*self),
    {
        match self {
            GLType::FLOAT => 0x1406,
            GLType::BYTE => 0x1400,
            GLType::UINT => 0x1404,
        }
    }

    /// Turn a raw device code back into a scalar type. A code outside
    /// the supported table is a hard error, never a silent zero-size
    /// attribute.
    pub fn from_code(code: u32) -> (r: Result<GLType, GlError>)
        ensures
            r == type_from_code(code),
    {
        if code == 0x1406 {
            Ok(GLType::FLOAT)
        } else if code == 0x1400 {
            Ok(GLType::BYTE)
        } else if code == 0x1404 {
            Ok(GLType::UINT)
        } else {
            Err(GlError::UnsupportedAttributeType)
        }
    }
}

/// The raw device code of each scalar type: the float, byte and
/// four-byte-integer codes of the device's attribute-type table.
pub open spec fn type_code(t: GLType) -> u32 {
    match t {
        GLType::FLOAT => 0x1406,
        GLType::BYTE => 0x1400,
        GLType::UINT => 0x1404,
    }
}

/// The scalar type a raw device code names, or the unsupported-type
/// error for a code outside the table.
pub open spec fn type_from_code(code: u32) -> Result<GLType, GlError> {
    if code == 0x1406 {
        Ok(GLType::FLOAT)
    } else if code == 0x1400 {
        Ok(GLType::BYTE)
    } else if code == 0x1404 {
        Ok(GLType::UINT)
    } else {
        Err(GlError::UnsupportedAttributeType)
    }
}

/// Every scalar type survives the trip through its raw device code.
pub proof fn lemma_code_round_trip(t: GLType)
    ensures
        type_from_code(type_code(t)) == Ok::<GLType, GlError>(t),
{
}

} // verus!
