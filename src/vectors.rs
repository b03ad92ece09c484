use vstd::prelude::*;

use crate::strides::{is_projection_i32, is_projection_u32, LayoutError, Strides};

verus! {

/// glam's `UVec4`: four public `u32` fields `x`, `y`, `z`, `w`.
#[verifier::external_type_specification]
pub struct ExUVec4(glam::UVec4);

/// glam's `UVec3`: three public `u32` fields `x`, `y`, `z`.
#[verifier::external_type_specification]
pub struct ExUVec3(glam::UVec3);

/// glam's `IVec3`: three public `i32` fields `x`, `y`, `z`.
#[verifier::external_type_specification]
pub struct ExIVec3(glam::IVec3);

/// Relies on glam's `IVec3::new`: it stores its three arguments as `x`, `y`, `z`.
pub assume_specification[ glam::IVec3::new ](x: i32, y: i32, z: i32) -> (r: glam::IVec3)
    ensures
        r.x == x,
        r.y == y,
        r.z == z,
;

/// Relies on glam's `From<[u32; 4]> for UVec4`: the components in array order.
#[verifier::external_body]
fn uvec4_from_array(a: [u32; 4]) -> (r: glam::UVec4)
    ensures
        r.x == a[0],
        r.y == a[1],
        r.z == a[2],
        r.w == a[3],
{
    glam::UVec4::from(a)
}

/// Relies on glam's `From<[u32; 3]> for UVec3`: the components in array order.
#[verifier::external_body]
fn uvec3_from_array(a: [u32; 3]) -> (r: glam::UVec3)
    ensures
        r.x == a[0],
        r.y == a[1],
        r.z == a[2],
{
    glam::UVec3::from(a)
}

pub open spec fn array4_view(r: Result<[u32; 4], LayoutError>) -> Result<Seq<u32>, LayoutError> {
    match r {
        Ok(a) => Ok(a@),
        Err(e) => Err(e),
    }
}

pub open spec fn array3_view(r: Result<[u32; 3], LayoutError>) -> Result<Seq<u32>, LayoutError> {
    match r {
        Ok(a) => Ok(a@),
        Err(e) => Err(e),
    }
}

pub open spec fn uvec4_view(r: Result<glam::UVec4, LayoutError>) -> Result<Seq<u32>, LayoutError> {
    match r {
        Ok(v) => Ok(seq![v.x, v.y, v.z, v.w]),
        Err(e) => Err(e),
    }
}

pub open spec fn uvec3_view(r: Result<glam::UVec3, LayoutError>) -> Result<Seq<u32>, LayoutError> {
    match r {
        Ok(v) => Ok(seq![v.x, v.y, v.z]),
        Err(e) => Err(e),
    }
}

pub open spec fn ivec3_view(r: Result<glam::IVec3, LayoutError>) -> Result<Seq<i32>, LayoutError> {
    match r {
        Ok(v) => Ok(seq![v.x, v.y, v.z]),
        Err(e) => Err(e),
    }
}

impl Strides {
    /// The strides as four unsigned components, zero-padded.
    pub fn to_u32x4(&self) -> (r: Result<[u32; 4], LayoutError>)
        ensures
            is_projection_u32(self@, 4, array4_view(r)),
    {
        let p = self.project_to_fixed_width(4);
        match p {
            Ok(v) => {
                let a = [v[0], v[1], v[2], v[3]];
                assert(a@ =~= v@);
                Ok(a)
            },
            Err(e) => Err(e),
        }
    }

    /// The strides as three unsigned components, zero-padded.
    pub fn to_u32x3(&self) -> (r: Result<[u32; 3], LayoutError>)
        ensures
            is_projection_u32(self@, 3, array3_view(r)),
    {
        let p = self.project_to_fixed_width(3);
        match p {
            Ok(v) => {
                let a = [v[0], v[1], v[2]];
                assert(a@ =~= v@);
                Ok(a)
            },
            Err(e) => Err(e),
        }
    }

    /// The strides as a four-component unsigned GPU vector, zero-padded.
    pub fn to_uvec4(&self) -> (r: Result<glam::UVec4, LayoutError>)
        ensures
            is_projection_u32(self@, 4, uvec4_view(r)),
    {
        let p = self.to_u32x4();
        match p {
            Ok(a) => {
                let v = uvec4_from_array(a);
                assert(seq![v.x, v.y, v.z, v.w] =~= a@);
                Ok(v)
            },
            Err(e) => Err(e),
        }
    }

    /// The strides as a three-component unsigned GPU vector, zero-padded.
    pub fn to_uvec3(&self) -> (r: Result<glam::UVec3, LayoutError>)
        ensures
            is_projection_u32(self@, 3, uvec3_view(r)),
    {
        let p = self.to_u32x3();
        match p {
            Ok(a) => {
                let v = uvec3_from_array(a);
                assert(seq![v.x, v.y, v.z] =~= a@);
                Ok(v)
            },
            Err(e) => Err(e),
        }
    }

    /// The strides as a three-component signed GPU vector, zero-padded.
    pub fn to_ivec3(&self) -> (r: Result<glam::IVec3, LayoutError>)
        ensures
            is_projection_i32(self@, 3, ivec3_view(r)),
    {
        let p = self.project_signed(3);
        match p {
            Ok(a) => {
                let v = glam::IVec3::new(a[0], a[1], a[2]);
                assert(seq![v.x, v.y, v.z] =~= a@);
                Ok(v)
            },
            Err(e) => Err(e),
        }
    }
}

} // verus!
