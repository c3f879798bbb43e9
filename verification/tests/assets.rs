use creek::backends::io_vulkanwinit::assets::{instance_api_version, load_shaders, quad_indices, ShaderError, TextureImage};
use creek::backends::io_vulkanwinit::swapchain::Extent2D;

const TINY_PNG: [u8; 71] = [
    0x89, 0x50, 0x4e, 0x47, 0x0d, 0x0a, 0x1a, 0x0a, 0x00, 0x00, 0x00, 0x0d, 0x49, 0x48, 0x44, 0x52, 0x00, 0x00,
    0x00, 0x02, 0x00, 0x00, 0x00, 0x01, 0x08, 0x06, 0x00, 0x00, 0x00, 0xf4, 0x22, 0x7f, 0x8a, 0x00, 0x00, 0x00,
    0x0e, 0x49, 0x44, 0x41, 0x54, 0x78, 0x9c, 0x63, 0xf8, 0xcf, 0xc0, 0x00, 0x42, 0x0d, 0x00, 0x0f, 0x7a, 0x03,
    0x7e, 0x77, 0xe9, 0x7f, 0x97, 0x00, 0x00, 0x00, 0x00, 0x49, 0x45, 0x4e, 0x44, 0xae, 0x42, 0x60, 0x82,
];

#[test]
fn little_endian_spirv_is_read_as_words() {
    let vert = [0x03u8, 0x02, 0x23, 0x07, 0x01, 0x02, 0x03, 0x04];
    let frag = [0x03u8, 0x02, 0x23, 0x07];
    let code = load_shaders(&vert, &frag).ok().unwrap();
    assert_eq!(code.vertex, vec![0x0723_0203, 0x0403_0201]);
    assert_eq!(code.fragment, vec![0x0723_0203]);
}

#[test]
fn big_endian_spirv_is_turned_around() {
    let vert = [0x07u8, 0x23, 0x02, 0x03, 0x01, 0x02, 0x03, 0x04];
    let code = load_shaders(&vert, &vert).ok().unwrap();
    assert_eq!(code.vertex, vec![0x0723_0203, 0x0102_0304]);
}

#[test]
fn bad_vertex_shader_is_reported_first() {
    let good = [0x03u8, 0x02, 0x23, 0x07];
    assert_eq!(load_shaders(&[0x03, 0x02, 0x23], &good).err(), Some(ShaderError::Vertex));
    assert_eq!(load_shaders(&[], &[]).err(), Some(ShaderError::Vertex));
    assert_eq!(load_shaders(&[0, 0, 0, 0], &[0, 0, 0]).err(), Some(ShaderError::Vertex));
    assert_eq!(load_shaders(&good, &[0x07, 0x23, 0x02, 0x04]).err(), Some(ShaderError::Fragment));
    assert_eq!(ShaderError::Vertex.message(), "Failed to read vertex shader spv file");
    assert_eq!(ShaderError::Fragment.message(), "Failed to read fragment shader spv file");
}

#[test]
fn png_texture_decodes_to_rgba() {
    let t = TextureImage::decode(&TINY_PNG).unwrap();
    assert_eq!(t.extent(), Extent2D { width: 2, height: 1 });
    assert_eq!(t.staging_size(), 8);
    assert_eq!(t.pixels_bytes(), &[255, 0, 0, 255, 0, 0, 255, 128]);
}

#[test]
fn garbage_is_no_texture() {
    assert!(TextureImage::decode(&[1, 2, 3, 4, 5]).is_none());
    assert!(TextureImage::decode(&TINY_PNG[..40]).is_none());
}

#[test]
fn instance_version_is_1_0_0() {
    assert_eq!(instance_api_version(), 1 << 22);
    assert_eq!(instance_api_version(), ash::vk::API_VERSION_1_0);
}

#[test]
fn quad_is_two_triangles() {
    assert_eq!(quad_indices(), [0, 1, 2, 2, 3, 0]);
}

#[test]
fn texture_needs_four_bytes_per_pixel() {
    let t = TextureImage::from_rgba8(2, 1, vec![1, 2, 3, 4, 5, 6, 7, 8]).unwrap();
    assert_eq!(t.extent(), Extent2D { width: 2, height: 1 });
    assert_eq!(t.staging_size(), 8);
    assert_eq!(t.pixels_bytes(), &[1, 2, 3, 4, 5, 6, 7, 8]);
    assert!(TextureImage::from_rgba8(2, 1, vec![0; 7]).is_none());
    assert!(TextureImage::from_rgba8(0, 5, vec![]).is_some());
    assert!(TextureImage::from_rgba8(u32::MAX, u32::MAX, vec![0; 16]).is_none());
}
