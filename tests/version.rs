use vk_bindings::types::VkVersion;
use vk_bindings::version::ApiVersion;

#[test]
fn api_version_reads_back_fields() {
    let v = ApiVersion::new(1, 2, 3);
    assert_eq!(v.0, 4202499);
    assert_eq!(v.major(), 1);
    assert_eq!(v.minor(), 2);
    assert_eq!(v.patch(), 3);
}

#[test]
fn api_version_field_boundaries() {
    let top = ApiVersion::new(1023, 1023, 4095);
    assert_eq!(top.0, 0xFFFF_FFFF);
    assert_eq!((top.major(), top.minor(), top.patch()), (1023, 1023, 4095));
    let zero = ApiVersion::new(0, 0, 0);
    assert_eq!(zero.0, 0);
    assert_eq!((zero.major(), zero.minor(), zero.patch()), (0, 0, 0));
    let mixed = ApiVersion::new(0, 1023, 0);
    assert_eq!((mixed.major(), mixed.minor(), mixed.patch()), (0, 1023, 0));
}

#[test]
fn api_version_masks_wide_minor_and_patch() {
    let v = ApiVersion::new(2, 0x400 | 5, 0x1000 | 7);
    assert_eq!((v.major(), v.minor(), v.patch()), (2, 5, 7));
}

#[test]
fn api_version_converts_to_and_from_u32() {
    let v = ApiVersion::from(0x0040_3000u32);
    assert_eq!((v.major(), v.minor(), v.patch()), (1, 3, 0));
    let raw: u32 = ApiVersion::new(1, 4, 9).into();
    assert_eq!(raw, 0x0040_4009);
    assert_eq!(ApiVersion::default().0, 0);
}

#[test]
fn api_version_text() {
    assert_eq!(ApiVersion::new(1, 2, 3).to_string(), "1.2.3");
    assert_eq!(ApiVersion::new(1023, 0, 4095).to_string(), "1023.0.4095");
}

#[test]
fn core_versions_pack_minor() {
    assert_eq!(VkVersion::V1_0.value(), 0x0040_0000);
    assert_eq!(VkVersion::V1_1.value(), 0x0040_1000);
    assert_eq!(VkVersion::V1_2.value(), 0x0040_2000);
    assert_eq!(VkVersion::V1_3.value(), 0x0040_3000);
    assert_eq!(VkVersion::V1_4.value(), 0x0040_4000);
    let v = VkVersion::V1_2.api_version();
    assert_eq!((v.major(), v.minor(), v.patch()), (1, 2, 0));
}
