use ash::vk;
use vknew::type_converter::{
    AstcBlock, AstcChannel, CompositeAlpha, CompositeAlphaMode, GpuTextureFormat, TextureFormat, TextureUsage, COMPOSITE_ALPHA_INHERIT, COMPOSITE_ALPHA_OPAQUE, COMPOSITE_ALPHA_POST_MULTIPLIED, COMPOSITE_ALPHA_PRE_MULTIPLIED, IMAGE_USAGE_COLOR_ATTACHMENT, IMAGE_USAGE_SAMPLED, IMAGE_USAGE_STORAGE, IMAGE_USAGE_TRANSFER_DST, IMAGE_USAGE_TRANSFER_SRC, TEXTURE_USAGE_COPY_DST, TEXTURE_USAGE_COPY_SRC, TEXTURE_USAGE_RENDER_ATTACHMENT, TEXTURE_USAGE_STORAGE_ATOMIC, TEXTURE_USAGE_STORAGE_BINDING, TEXTURE_USAGE_TEXTURE_BINDING, FORMAT_B8G8R8A8_SRGB, FORMAT_B8G8R8A8_UNORM, FORMAT_BC1_RGBA_SRGB_BLOCK, FORMAT_BC1_RGBA_UNORM_BLOCK, FORMAT_BC2_SRGB_BLOCK, FORMAT_BC2_UNORM_BLOCK, FORMAT_BC3_SRGB_BLOCK, FORMAT_BC3_UNORM_BLOCK, FORMAT_BC4_SNORM_BLOCK, FORMAT_BC4_UNORM_BLOCK, FORMAT_BC5_SNORM_BLOCK, FORMAT_BC6H_SFLOAT_BLOCK, FORMAT_BC6H_UFLOAT_BLOCK, FORMAT_BC7_SRGB_BLOCK, FORMAT_BC7_UNORM_BLOCK, FORMAT_D16_UNORM, FORMAT_D24_UNORM_S8_UINT, FORMAT_D32_SFLOAT, FORMAT_D32_SFLOAT_S8_UINT, FORMAT_EAC_R11G11_SNORM_BLOCK, FORMAT_EAC_R11G11_UNORM_BLOCK, FORMAT_EAC_R11_SNORM_BLOCK, FORMAT_EAC_R11_UNORM_BLOCK, FORMAT_ETC2_R8G8B8A1_SRGB_BLOCK, FORMAT_ETC2_R8G8B8A1_UNORM_BLOCK, FORMAT_ETC2_R8G8B8A8_SRGB_BLOCK, FORMAT_ETC2_R8G8B8A8_UNORM_BLOCK, FORMAT_ETC2_R8G8B8_SRGB_BLOCK, FORMAT_ETC2_R8G8B8_UNORM_BLOCK, FORMAT_R16G16B16A16_SFLOAT, FORMAT_R16G16B16A16_SINT, FORMAT_R16G16B16A16_SNORM, FORMAT_R16G16B16A16_UINT, FORMAT_R16G16B16A16_UNORM, FORMAT_R16G16_SINT, FORMAT_R16G16_SNORM, FORMAT_R16G16_UINT, FORMAT_R16G16_UNORM, FORMAT_R16_SFLOAT, FORMAT_R16_SINT, FORMAT_R16_SNORM, FORMAT_R16_UINT, FORMAT_R16_UNORM, FORMAT_R32G32B32A32_SFLOAT, FORMAT_R32G32B32A32_SINT, FORMAT_R32G32B32A32_UINT, FORMAT_R32G32_SFLOAT, FORMAT_R32G32_SINT, FORMAT_R32G32_UINT, FORMAT_R32_SFLOAT, FORMAT_R32_SINT, FORMAT_R32_UINT, FORMAT_R64_UINT, FORMAT_R8G8B8A8_SINT, FORMAT_R8G8B8A8_SNORM, FORMAT_R8G8B8A8_SRGB, FORMAT_R8G8B8A8_UINT, FORMAT_R8G8B8A8_UNORM, FORMAT_R8G8_SINT, FORMAT_R8G8_SNORM, FORMAT_R8G8_UINT, FORMAT_R8G8_UNORM, FORMAT_R8_SINT, FORMAT_R8_SNORM, FORMAT_R8_UINT, FORMAT_R8_UNORM, FORMAT_S8_UINT, FORMAT_UNDEFINED,
};

#[test]
fn format_codes_match_vulkan() {
    assert_eq!(FORMAT_R8_UNORM, vk::Format::R8_UNORM.as_raw());
    assert_eq!(FORMAT_R8_SNORM, vk::Format::R8_SNORM.as_raw());
    assert_eq!(FORMAT_R8_UINT, vk::Format::R8_UINT.as_raw());
    assert_eq!(FORMAT_R8_SINT, vk::Format::R8_SINT.as_raw());
    assert_eq!(FORMAT_R8G8_UNORM, vk::Format::R8G8_UNORM.as_raw());
    assert_eq!(FORMAT_R8G8_SNORM, vk::Format::R8G8_SNORM.as_raw());
    assert_eq!(FORMAT_R8G8_UINT, vk::Format::R8G8_UINT.as_raw());
    assert_eq!(FORMAT_R8G8_SINT, vk::Format::R8G8_SINT.as_raw());
    assert_eq!(FORMAT_R8G8B8A8_UNORM, vk::Format::R8G8B8A8_UNORM.as_raw());
    assert_eq!(FORMAT_R8G8B8A8_SNORM, vk::Format::R8G8B8A8_SNORM.as_raw());
    assert_eq!(FORMAT_R8G8B8A8_UINT, vk::Format::R8G8B8A8_UINT.as_raw());
    assert_eq!(FORMAT_R8G8B8A8_SINT, vk::Format::R8G8B8A8_SINT.as_raw());
    assert_eq!(FORMAT_R8G8B8A8_SRGB, vk::Format::R8G8B8A8_SRGB.as_raw());
    assert_eq!(FORMAT_B8G8R8A8_UNORM, vk::Format::B8G8R8A8_UNORM.as_raw());
    assert_eq!(FORMAT_B8G8R8A8_SRGB, vk::Format::B8G8R8A8_SRGB.as_raw());
    assert_eq!(FORMAT_R16_UNORM, vk::Format::R16_UNORM.as_raw());
    assert_eq!(FORMAT_R16_SNORM, vk::Format::R16_SNORM.as_raw());
    assert_eq!(FORMAT_R16_UINT, vk::Format::R16_UINT.as_raw());
    assert_eq!(FORMAT_R16_SINT, vk::Format::R16_SINT.as_raw());
    assert_eq!(FORMAT_R16_SFLOAT, vk::Format::R16_SFLOAT.as_raw());
    assert_eq!(FORMAT_R16G16_UNORM, vk::Format::R16G16_UNORM.as_raw());
    assert_eq!(FORMAT_R16G16_SNORM, vk::Format::R16G16_SNORM.as_raw());
    assert_eq!(FORMAT_R16G16_UINT, vk::Format::R16G16_UINT.as_raw());
    assert_eq!(FORMAT_R16G16_SINT, vk::Format::R16G16_SINT.as_raw());
    assert_eq!(FORMAT_R16G16B16A16_UNORM, vk::Format::R16G16B16A16_UNORM.as_raw());
    assert_eq!(FORMAT_R16G16B16A16_SNORM, vk::Format::R16G16B16A16_SNORM.as_raw());
    assert_eq!(FORMAT_R16G16B16A16_UINT, vk::Format::R16G16B16A16_UINT.as_raw());
    assert_eq!(FORMAT_R16G16B16A16_SINT, vk::Format::R16G16B16A16_SINT.as_raw());
    assert_eq!(FORMAT_R16G16B16A16_SFLOAT, vk::Format::R16G16B16A16_SFLOAT.as_raw());
    assert_eq!(FORMAT_R32_UINT, vk::Format::R32_UINT.as_raw());
    assert_eq!(FORMAT_R32_SINT, vk::Format::R32_SINT.as_raw());
    assert_eq!(FORMAT_R32_SFLOAT, vk::Format::R32_SFLOAT.as_raw());
    assert_eq!(FORMAT_R32G32_UINT, vk::Format::R32G32_UINT.as_raw());
    assert_eq!(FORMAT_R32G32_SINT, vk::Format::R32G32_SINT.as_raw());
    assert_eq!(FORMAT_R32G32_SFLOAT, vk::Format::R32G32_SFLOAT.as_raw());
    assert_eq!(FORMAT_R32G32B32A32_UINT, vk::Format::R32G32B32A32_UINT.as_raw());
    assert_eq!(FORMAT_R32G32B32A32_SINT, vk::Format::R32G32B32A32_SINT.as_raw());
    assert_eq!(FORMAT_R32G32B32A32_SFLOAT, vk::Format::R32G32B32A32_SFLOAT.as_raw());
    assert_eq!(FORMAT_R64_UINT, vk::Format::R64_UINT.as_raw());
    assert_eq!(FORMAT_D16_UNORM, vk::Format::D16_UNORM.as_raw());
    assert_eq!(FORMAT_D32_SFLOAT, vk::Format::D32_SFLOAT.as_raw());
    assert_eq!(FORMAT_S8_UINT, vk::Format::S8_UINT.as_raw());
    assert_eq!(FORMAT_D24_UNORM_S8_UINT, vk::Format::D24_UNORM_S8_UINT.as_raw());
    assert_eq!(FORMAT_D32_SFLOAT_S8_UINT, vk::Format::D32_SFLOAT_S8_UINT.as_raw());
    assert_eq!(FORMAT_BC1_RGBA_UNORM_BLOCK, vk::Format::BC1_RGBA_UNORM_BLOCK.as_raw());
    assert_eq!(FORMAT_BC1_RGBA_SRGB_BLOCK, vk::Format::BC1_RGBA_SRGB_BLOCK.as_raw());
    assert_eq!(FORMAT_BC2_UNORM_BLOCK, vk::Format::BC2_UNORM_BLOCK.as_raw());
    assert_eq!(FORMAT_BC2_SRGB_BLOCK, vk::Format::BC2_SRGB_BLOCK.as_raw());
    assert_eq!(FORMAT_BC3_UNORM_BLOCK, vk::Format::BC3_UNORM_BLOCK.as_raw());
    assert_eq!(FORMAT_BC3_SRGB_BLOCK, vk::Format::BC3_SRGB_BLOCK.as_raw());
    assert_eq!(FORMAT_BC4_UNORM_BLOCK, vk::Format::BC4_UNORM_BLOCK.as_raw());
    assert_eq!(FORMAT_BC4_SNORM_BLOCK, vk::Format::BC4_SNORM_BLOCK.as_raw());
    assert_eq!(FORMAT_BC5_SNORM_BLOCK, vk::Format::BC5_SNORM_BLOCK.as_raw());
    assert_eq!(FORMAT_BC6H_UFLOAT_BLOCK, vk::Format::BC6H_UFLOAT_BLOCK.as_raw());
    assert_eq!(FORMAT_BC6H_SFLOAT_BLOCK, vk::Format::BC6H_SFLOAT_BLOCK.as_raw());
    assert_eq!(FORMAT_BC7_UNORM_BLOCK, vk::Format::BC7_UNORM_BLOCK.as_raw());
    assert_eq!(FORMAT_BC7_SRGB_BLOCK, vk::Format::BC7_SRGB_BLOCK.as_raw());
    assert_eq!(FORMAT_ETC2_R8G8B8_UNORM_BLOCK, vk::Format::ETC2_R8G8B8_UNORM_BLOCK.as_raw());
    assert_eq!(FORMAT_ETC2_R8G8B8_SRGB_BLOCK, vk::Format::ETC2_R8G8B8_SRGB_BLOCK.as_raw());
    assert_eq!(FORMAT_ETC2_R8G8B8A1_UNORM_BLOCK, vk::Format::ETC2_R8G8B8A1_UNORM_BLOCK.as_raw());
    assert_eq!(FORMAT_ETC2_R8G8B8A1_SRGB_BLOCK, vk::Format::ETC2_R8G8B8A1_SRGB_BLOCK.as_raw());
    assert_eq!(FORMAT_ETC2_R8G8B8A8_UNORM_BLOCK, vk::Format::ETC2_R8G8B8A8_UNORM_BLOCK.as_raw());
    assert_eq!(FORMAT_ETC2_R8G8B8A8_SRGB_BLOCK, vk::Format::ETC2_R8G8B8A8_SRGB_BLOCK.as_raw());
    assert_eq!(FORMAT_EAC_R11_UNORM_BLOCK, vk::Format::EAC_R11_UNORM_BLOCK.as_raw());
    assert_eq!(FORMAT_EAC_R11_SNORM_BLOCK, vk::Format::EAC_R11_SNORM_BLOCK.as_raw());
    assert_eq!(FORMAT_EAC_R11G11_UNORM_BLOCK, vk::Format::EAC_R11G11_UNORM_BLOCK.as_raw());
    assert_eq!(FORMAT_EAC_R11G11_SNORM_BLOCK, vk::Format::EAC_R11G11_SNORM_BLOCK.as_raw());
    assert_eq!(FORMAT_UNDEFINED, vk::Format::UNDEFINED.as_raw());
}

#[test]
fn flag_values_match_vulkan_and_webgpu() {
    assert_eq!(COMPOSITE_ALPHA_OPAQUE, vk::CompositeAlphaFlagsKHR::OPAQUE.as_raw());
    assert_eq!(COMPOSITE_ALPHA_PRE_MULTIPLIED, vk::CompositeAlphaFlagsKHR::PRE_MULTIPLIED.as_raw());
    assert_eq!(COMPOSITE_ALPHA_POST_MULTIPLIED, vk::CompositeAlphaFlagsKHR::POST_MULTIPLIED.as_raw());
    assert_eq!(COMPOSITE_ALPHA_INHERIT, vk::CompositeAlphaFlagsKHR::INHERIT.as_raw());
    assert_eq!(IMAGE_USAGE_TRANSFER_SRC, vk::ImageUsageFlags::TRANSFER_SRC.as_raw());
    assert_eq!(IMAGE_USAGE_TRANSFER_DST, vk::ImageUsageFlags::TRANSFER_DST.as_raw());
    assert_eq!(IMAGE_USAGE_SAMPLED, vk::ImageUsageFlags::SAMPLED.as_raw());
    assert_eq!(IMAGE_USAGE_STORAGE, vk::ImageUsageFlags::STORAGE.as_raw());
    assert_eq!(IMAGE_USAGE_COLOR_ATTACHMENT, vk::ImageUsageFlags::COLOR_ATTACHMENT.as_raw());
    assert_eq!(TEXTURE_USAGE_COPY_SRC, wgpu::TextureUsages::COPY_SRC.bits());
    assert_eq!(TEXTURE_USAGE_COPY_DST, wgpu::TextureUsages::COPY_DST.bits());
    assert_eq!(TEXTURE_USAGE_TEXTURE_BINDING, wgpu::TextureUsages::TEXTURE_BINDING.bits());
    assert_eq!(TEXTURE_USAGE_STORAGE_BINDING, wgpu::TextureUsages::STORAGE_BINDING.bits());
    assert_eq!(TEXTURE_USAGE_RENDER_ATTACHMENT, wgpu::TextureUsages::RENDER_ATTACHMENT.bits());
    assert_eq!(TEXTURE_USAGE_STORAGE_ATOMIC, wgpu::TextureUsages::STORAGE_ATOMIC.bits());
}

#[test]
fn texture_format_to_vk() {
    assert_eq!(TextureFormat::to_vk(GpuTextureFormat::R8Unorm), vk::Format::R8_UNORM.as_raw());
    assert_eq!(TextureFormat::to_vk(GpuTextureFormat::Bgra8UnormSrgb), vk::Format::B8G8R8A8_SRGB.as_raw());
    assert_eq!(TextureFormat::to_vk(GpuTextureFormat::Depth32Float), vk::Format::D32_SFLOAT.as_raw());
    assert_eq!(TextureFormat::to_vk(GpuTextureFormat::EacRg11Snorm), vk::Format::EAC_R11G11_SNORM_BLOCK.as_raw());
    // These two rows map to the signed-normalized formats.
    assert_eq!(TextureFormat::to_vk(GpuTextureFormat::Rg16Float), vk::Format::R16G16_SNORM.as_raw());
    assert_eq!(TextureFormat::to_vk(GpuTextureFormat::Bc5RgUnorm), vk::Format::BC5_SNORM_BLOCK.as_raw());
}

#[test]
fn texture_format_support() {
    assert!(TextureFormat::is_supported(GpuTextureFormat::Rgba8Unorm));
    assert!(!TextureFormat::is_supported(GpuTextureFormat::Rgb9e5Ufloat));
    assert!(!TextureFormat::is_supported(GpuTextureFormat::Depth24Plus));
    assert!(!TextureFormat::is_supported(GpuTextureFormat::NV12));
    assert!(!TextureFormat::is_supported(GpuTextureFormat::Astc {
        block: AstcBlock::B4x4,
        channel: AstcChannel::Unorm,
    }));
}

#[test]
fn texture_format_from_vk() {
    assert_eq!(TextureFormat::from_vk(vk::Format::B8G8R8A8_UNORM.as_raw()), GpuTextureFormat::Bgra8Unorm);
    assert_eq!(TextureFormat::from_vk(vk::Format::B8G8R8A8_SRGB.as_raw()), GpuTextureFormat::Bgra8UnormSrgb);
    assert_eq!(TextureFormat::from_vk(vk::Format::R8_UNORM.as_raw()), GpuTextureFormat::Bgra8Unorm);
}

#[test]
fn swapchain_formats_round_trip() {
    for format in [GpuTextureFormat::Bgra8Unorm, GpuTextureFormat::Bgra8UnormSrgb] {
        assert_eq!(TextureFormat::from_vk(TextureFormat::to_vk(format)), format);
    }
    assert_eq!(
        TextureFormat::from_vk(TextureFormat::to_vk(GpuTextureFormat::Rgba8UnormSrgb)),
        GpuTextureFormat::Bgra8Unorm
    );
}

#[test]
fn composite_alpha_flags() {
    assert_eq!(CompositeAlpha::to_vk(&vec![]), 0);
    assert_eq!(CompositeAlpha::to_vk(&vec![CompositeAlphaMode::Auto]), 0);
    assert_eq!(CompositeAlpha::to_vk(&vec![CompositeAlphaMode::Opaque]), 1);
    assert_eq!(
        CompositeAlpha::to_vk(&vec![
            CompositeAlphaMode::Inherit,
            CompositeAlphaMode::Opaque,
            CompositeAlphaMode::PreMultiplied,
            CompositeAlphaMode::Opaque,
        ]),
        0b1011
    );
    assert_eq!(
        CompositeAlpha::to_vk(&vec![
            CompositeAlphaMode::Auto,
            CompositeAlphaMode::Opaque,
            CompositeAlphaMode::PreMultiplied,
            CompositeAlphaMode::PostMultiplied,
            CompositeAlphaMode::Inherit,
        ]),
        0b1111
    );
}

#[test]
fn texture_usage_flags() {
    assert_eq!(TextureUsage::to_vk(0), 0);
    let all = wgpu::TextureUsages::all().bits();
    assert_eq!(TextureUsage::to_vk(all), 0x1f);
    let usage = (wgpu::TextureUsages::COPY_SRC | wgpu::TextureUsages::RENDER_ATTACHMENT).bits();
    let expected = vk::ImageUsageFlags::TRANSFER_SRC | vk::ImageUsageFlags::COLOR_ATTACHMENT;
    assert_eq!(TextureUsage::to_vk(usage), expected.as_raw());
    assert_eq!(TextureUsage::to_vk(wgpu::TextureUsages::STORAGE_ATOMIC.bits()), 0);
    assert_eq!(TextureUsage::to_vk(0xffff_ffff), 0x1f);
}
