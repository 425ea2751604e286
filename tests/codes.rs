use videocore::display::{Dither, InputFormat, Interface, VCOSInputFormat, _3dFormat};
use videocore::dispmanx::{
    FlagsAlpha, FlagsClamp, FlagsKeymask, Status, Transform, DISPMANX_ID_AUX_LCD,
    DISPMANX_ID_FORCE_LCD, DISPMANX_ID_FORCE_OTHER, DISPMANX_ID_FORCE_TV, DISPMANX_ID_HDMI,
    DISPMANX_ID_MAIN_LCD, DISPMANX_ID_SDTV, DISPMANX_NO_HANDLE, DISPMANX_PROTECTION_HDCP,
    DISPMANX_PROTECTION_MAX, DISPMANX_PROTECTION_NONE,
};
use videocore::image::{ImageBayerFormat, ImageBayerOrder, ImageTransform, ImageType};

#[test]
fn display_ids_and_protection_levels() {
    assert_eq!(DISPMANX_ID_MAIN_LCD, 0);
    assert_eq!(DISPMANX_ID_AUX_LCD, 1);
    assert_eq!(DISPMANX_ID_HDMI, 2);
    assert_eq!(DISPMANX_ID_SDTV, 3);
    assert_eq!(DISPMANX_ID_FORCE_LCD, 4);
    assert_eq!(DISPMANX_ID_FORCE_TV, 5);
    assert_eq!(DISPMANX_ID_FORCE_OTHER, 6);
    assert_eq!(DISPMANX_PROTECTION_NONE, 0);
    assert_eq!(DISPMANX_PROTECTION_HDCP, 11);
    assert_eq!(DISPMANX_PROTECTION_MAX, 0x0f);
    assert_eq!(DISPMANX_NO_HANDLE, 0);
}

#[test]
fn image_type_codes() {
    assert_eq!(ImageType::MIN.code(), 0);
    assert_eq!(ImageType::RGB565.code(), 1);
    assert_eq!(ImageType::_1BPP.code(), 2);
    assert_eq!(ImageType::YUV420.code(), 3);
    assert_eq!(ImageType::RGB888.code(), 5);
    assert_eq!(ImageType::_4BPP.code(), 7);
    assert_eq!(ImageType::RGBA32.code(), 15);
    assert_eq!(ImageType::TF_RGBA32.code(), 20);
    assert_eq!(ImageType::BGR888.code(), 31);
    assert_eq!(ImageType::OPENGL.code(), 40);
    assert_eq!(ImageType::ARGB8888.code(), 43);
    assert_eq!(ImageType::XRGB8888.code(), 44);
    assert_eq!(ImageType::YUV420SP.code(), 52);
    assert_eq!(ImageType::TF_V8.code(), 55);
    assert_eq!(ImageType::MAX.code(), 56);
    assert_eq!(ImageType::FORCE_ENUM_16BIT.code(), 0xffff);
}

#[test]
fn image_type_from_code() {
    assert_eq!(ImageType::from_code(5), Some(ImageType::RGB888));
    assert_eq!(ImageType::from_code(0xffff), Some(ImageType::FORCE_ENUM_16BIT));
    assert_eq!(ImageType::from_code(57), None);
    assert_eq!(ImageType::from_code(0x1_0000), None);
}

#[test]
fn bayer_codes() {
    assert_eq!(ImageBayerFormat::RAW6.code(), 0);
    assert_eq!(ImageBayerFormat::RAW14_8.code(), 9);
    assert_eq!(ImageBayerFormat::RAW10L.code(), 11);
    assert_eq!(ImageBayerFormat::RAW16_BIG_ENDIAN.code(), 14);
    assert_eq!(ImageBayerFormat::RAW4.code(), 15);
    assert_eq!(ImageBayerFormat::from_code(10), None);
    assert_eq!(ImageBayerFormat::from_code(12), Some(ImageBayerFormat::RAW12L));
    assert_eq!(ImageBayerOrder::RGGB.code(), 0);
    assert_eq!(ImageBayerOrder::GBRG.code(), 1);
    assert_eq!(ImageBayerOrder::BGGR.code(), 2);
    assert_eq!(ImageBayerOrder::GRBG.code(), 3);
}

#[test]
fn image_transform_codes() {
    assert_eq!(ImageTransform::ROT0.code(), 0);
    assert_eq!(ImageTransform::MIRROR_ROT0.code(), 1);
    assert_eq!(ImageTransform::MIRROR_ROT180.code(), 2);
    assert_eq!(ImageTransform::ROT180.code(), 3);
    assert_eq!(ImageTransform::MIRROR_ROT90.code(), 4);
    assert_eq!(ImageTransform::ROT270.code(), 5);
    assert_eq!(ImageTransform::ROT90.code(), 6);
    assert_eq!(ImageTransform::MIRROR_ROT270.code(), 7);
    assert_eq!(ImageTransform::from_code(8), None);
}

#[test]
fn composition_flag_codes() {
    assert_eq!(FlagsAlpha::FROM_SOURCE.code(), 0);
    assert_eq!(FlagsAlpha::FIXED_EXCEED_0X07.code(), 3);
    assert_eq!(FlagsAlpha::PREMULT.code(), 1 << 16);
    assert_eq!(FlagsAlpha::MIX.code(), 1 << 17);
    assert_eq!(FlagsClamp::NONE.code(), 0);
    assert_eq!(FlagsClamp::REPLACE.code(), 3);
    assert_eq!(FlagsKeymask::OVERRIDE.code(), 1);
    assert_eq!(FlagsKeymask::SMOOTH.code(), 1 << 1);
    assert_eq!(FlagsKeymask::CR_INV.code(), 1 << 2);
    assert_eq!(FlagsKeymask::CB_INV.code(), 1 << 3);
    assert_eq!(FlagsKeymask::YY_INV.code(), 1 << 4);
    assert_eq!(Status::SUCCESS.code(), 0);
    assert_eq!(Status::INVALID.code(), -1);
    assert_eq!(Status::from_code(-1), Some(Status::INVALID));
    assert_eq!(Status::from_code(1), None);
}

#[test]
fn transform_codes() {
    assert_eq!(Transform::NO_ROTATE.code(), 0);
    assert_eq!(Transform::ROTATE_90.code(), 1);
    assert_eq!(Transform::ROTATE_180.code(), 2);
    assert_eq!(Transform::ROTATE_270.code(), 3);
    assert_eq!(Transform::FLIP_HRIZ.code(), 1 << 16);
    assert_eq!(Transform::FLIP_VERT.code(), 1 << 17);
    assert_eq!(Transform::SNAPSHOT_NO_YUV.code(), 1 << 24);
    assert_eq!(Transform::SNAPSHOT_NO_RGB.code(), 1 << 25);
    assert_eq!(Transform::SNAPSHOT_FILL.code(), 1 << 26);
    assert_eq!(Transform::SNAPSHOT_SWAP_RED_BLUE.code(), 1 << 27);
    assert_eq!(Transform::SNAPSHOT_PACK.code(), 1 << 28);
    assert_eq!(Transform::from_code(1 << 28), Some(Transform::SNAPSHOT_PACK));
}

#[test]
fn display_type_codes() {
    assert_eq!(_3dFormat::UNSUPPORTED.code(), 0);
    assert_eq!(_3dFormat::TB_HALF.code(), 4);
    assert_eq!(_3dFormat::MAX.code(), 5);
    assert_eq!(Dither::NONE.code(), 0);
    assert_eq!(Dither::RGB666.code(), 1);
    assert_eq!(Dither::RGB565.code(), 2);
    assert_eq!(Dither::RGB555.code(), 3);
    assert_eq!(Dither::MAX.code(), 4);
    assert_eq!(Interface::MIN.code(), 0);
    assert_eq!(Interface::SMI.code(), 1);
    assert_eq!(Interface::LVDS.code(), 4);
    assert_eq!(Interface::MAX.code(), 5);
    assert_eq!(VCOSInputFormat::INVALID.code(), 0);
    assert_eq!(VCOSInputFormat::RGB888.code(), 1);
    assert_eq!(InputFormat::RGB565.code(), 2);
    assert_eq!(VCOSInputFormat::from_code(3), None);
}
