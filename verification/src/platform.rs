//! The numbers of the Windows API that the capture logic compares with or passes on.

use vstd::prelude::*;

verus! {

/// `HRESULT` 0x887A0027: no new frame arrived in time.
pub const WAIT_TIMEOUT: i32 = -2005270489;

/// `HRESULT` 0x887A0026: the duplication interface became invalid.
pub const ACCESS_LOST: i32 = -2005270490;

/// `HRESULT` 0x800401F1: COM was initialized before.
pub const ALREADY_INITIALIZED: i32 = -2147221007;

/// `HRESULT` 0x80010106: COM was initialized before, with another threading model.
pub const CHANGED_MODE: i32 = -2147417850;

/// Pixel format with eight bits each of blue, green, red and alpha.
pub const FORMAT_BGRA8: u32 = 87;

/// Usage of a texture that the graphics processor reads and writes.
pub const USAGE_DEFAULT: u32 = 0;

/// Flag of a texture that shaders may read.
pub const BIND_SHADER_RESOURCE: u32 = 8;

/// Reads `windows::Win32::Graphics::Dxgi::DXGI_ERROR_WAIT_TIMEOUT`.
/// Claims that it is `WAIT_TIMEOUT`.
#[verifier::external_body]
pub(crate) fn wait_timeout_code() -> (code: i32)
    ensures
        code == WAIT_TIMEOUT,
{
    windows::Win32::Graphics::Dxgi::DXGI_ERROR_WAIT_TIMEOUT.0
}

/// Reads `windows::Win32::Graphics::Dxgi::DXGI_ERROR_ACCESS_LOST`.
/// Claims that it is `ACCESS_LOST`.
#[verifier::external_body]
pub(crate) fn access_lost_code() -> (code: i32)
    ensures
        code == ACCESS_LOST,
{
    windows::Win32::Graphics::Dxgi::DXGI_ERROR_ACCESS_LOST.0
}

/// Reads `windows::Win32::Foundation::CO_E_ALREADYINITIALIZED`.
/// Claims that it is `ALREADY_INITIALIZED`.
#[verifier::external_body]
pub(crate) fn already_initialized_code() -> (code: i32)
    ensures
        code == ALREADY_INITIALIZED,
{
    windows::Win32::Foundation::CO_E_ALREADYINITIALIZED.0
}

/// Reads `windows::Win32::Foundation::RPC_E_CHANGED_MODE`.
/// Claims that it is `CHANGED_MODE`.
#[verifier::external_body]
pub(crate) fn changed_mode_code() -> (code: i32)
    ensures
        code == CHANGED_MODE,
{
    windows::Win32::Foundation::RPC_E_CHANGED_MODE.0
}

/// Reads `windows::Win32::Graphics::Dxgi::Common::DXGI_FORMAT_B8G8R8A8_UNORM`.
/// Claims that it is `FORMAT_BGRA8`.
#[verifier::external_body]
pub(crate) fn bgra8_format() -> (format: u32)
    ensures
        format == FORMAT_BGRA8,
{
    windows::Win32::Graphics::Dxgi::Common::DXGI_FORMAT_B8G8R8A8_UNORM.0
}

/// Reads `windows::Win32::Graphics::Direct3D11::D3D11_USAGE_DEFAULT`, a signed number there.
/// Claims that it is `USAGE_DEFAULT`.
#[verifier::external_body]
pub(crate) fn default_usage() -> (usage: u32)
    ensures
        usage == USAGE_DEFAULT,
{
    windows::Win32::Graphics::Direct3D11::D3D11_USAGE_DEFAULT.0 as u32
}

/// Reads `windows::Win32::Graphics::Direct3D11::D3D11_BIND_SHADER_RESOURCE`, a signed number
/// there. Claims that it is `BIND_SHADER_RESOURCE`.
#[verifier::external_body]
pub(crate) fn shader_resource_flag() -> (flag: u32)
    ensures
        flag == BIND_SHADER_RESOURCE,
{
    windows::Win32::Graphics::Direct3D11::D3D11_BIND_SHADER_RESOURCE.0 as u32
}

} // verus!
