//! The GPU object handles of glow that the library carries. Verus sees them
//! as opaque values: the library only stores, compares and hands them back.
use vstd::prelude::*;

verus! {

#[verifier::external_type_specification]
#[verifier::external_body]
pub struct ExNativeBuffer(glow::NativeBuffer);

#[verifier::external_type_specification]
#[verifier::external_body]
pub struct ExNativeVertexArray(glow::NativeVertexArray);

#[verifier::external_type_specification]
#[verifier::external_body]
pub struct ExNativeProgram(glow::NativeProgram);

#[verifier::external_type_specification]
#[verifier::external_body]
pub struct ExNativeUniformLocation(glow::NativeUniformLocation);

} // verus!
