// The numeric flag catalogs must stay bit-exact with the native headers.

use cvbind::imgcodecs::imread_scale_divisor;
use cvbind::highgui::{
    window_flag_from_value, window_flag_value, window_property_from_value, window_property_value,
    WindowFlags, WindowPropertyFlags,
};

#[test]
fn window_flag_constants_match_native_values() {
    assert_eq!(cvbind::highgui::WINDOW_NORMAL, 0);
    assert_eq!(cvbind::highgui::WINDOW_AUTOSIZE, 1);
    assert_eq!(cvbind::highgui::WINDOW_OPENGL, 0x1000);
    assert_eq!(cvbind::highgui::WINDOW_FREERATIO, 0x100);
    assert_eq!(cvbind::highgui::WINDOW_KEEPRATIO, 0);
    assert_eq!(cvbind::highgui::WINDOW_FULLSCREEN, 1);
    assert_eq!(cvbind::highgui::WINDOW_GUI_EXPANDED, 0);
    assert_eq!(cvbind::highgui::WINDOW_GUI_NORMAL, 0x10);
}

#[test]
fn window_property_constants_match_native_values() {
    assert_eq!(cvbind::highgui::WND_PROP_FULLSCREEN, 0);
    assert_eq!(cvbind::highgui::WND_PROP_AUTOSIZE, 1);
    assert_eq!(cvbind::highgui::WND_PROP_ASPECT_RATIO, 2);
    assert_eq!(cvbind::highgui::WND_PROP_OPENGL, 3);
    assert_eq!(cvbind::highgui::WND_PROP_VISIBLE, 4);
}

#[test]
fn mouse_event_constants_match_native_values() {
    assert_eq!(cvbind::highgui::EVENT_MOUSEMOVE, 0);
    assert_eq!(cvbind::highgui::EVENT_LBUTTONDOWN, 1);
    assert_eq!(cvbind::highgui::EVENT_RBUTTONDOWN, 2);
    assert_eq!(cvbind::highgui::EVENT_MBUTTONDOWN, 3);
    assert_eq!(cvbind::highgui::EVENT_LBUTTONUP, 4);
    assert_eq!(cvbind::highgui::EVENT_RBUTTONUP, 5);
    assert_eq!(cvbind::highgui::EVENT_MBUTTONUP, 6);
    assert_eq!(cvbind::highgui::EVENT_LBUTTONDBLCLK, 7);
    assert_eq!(cvbind::highgui::EVENT_RBUTTONDBLCLK, 8);
    assert_eq!(cvbind::highgui::EVENT_MBUTTONDBLCLK, 9);
    assert_eq!(cvbind::highgui::EVENT_MOUSEWHEEL, 10);
    assert_eq!(cvbind::highgui::EVENT_MOUSEHWHEEL, 11);
    assert_eq!(cvbind::highgui::EVENT_FLAG_LBUTTON, 1);
    assert_eq!(cvbind::highgui::EVENT_FLAG_RBUTTON, 2);
    assert_eq!(cvbind::highgui::EVENT_FLAG_MBUTTON, 4);
    assert_eq!(cvbind::highgui::EVENT_FLAG_CTRLKEY, 8);
    assert_eq!(cvbind::highgui::EVENT_FLAG_SHIFTKEY, 16);
    assert_eq!(cvbind::highgui::EVENT_FLAG_ALTKEY, 32);
}

#[test]
fn qt_constants_match_native_values() {
    assert_eq!(cvbind::highgui::QT_PUSH_BUTTON, 0);
    assert_eq!(cvbind::highgui::QT_CHECKBOX, 1);
    assert_eq!(cvbind::highgui::QT_RADIOBOX, 2);
    assert_eq!(cvbind::highgui::QT_NEW_BUTTONBAR, 1024);
    assert_eq!(cvbind::highgui::QT_FONT_LIGHT, 25);
    assert_eq!(cvbind::highgui::QT_FONT_NORMAL, 50);
    assert_eq!(cvbind::highgui::QT_FONT_DEMIBOLD, 63);
    assert_eq!(cvbind::highgui::QT_FONT_BOLD, 75);
    assert_eq!(cvbind::highgui::QT_FONT_BLACK, 87);
    assert_eq!(cvbind::highgui::QT_STYLE_NORMAL, 0);
    assert_eq!(cvbind::highgui::QT_STYLE_ITALIC, 1);
    assert_eq!(cvbind::highgui::QT_STYLE_OBLIQUE, 2);
}

#[test]
fn imread_constants_match_native_values() {
    assert_eq!(cvbind::imgcodecs::IMREAD_UNCHANGED, -1);
    assert_eq!(cvbind::imgcodecs::IMREAD_GRAYSCALE, 0);
    assert_eq!(cvbind::imgcodecs::IMREAD_COLOR, 1);
    assert_eq!(cvbind::imgcodecs::IMREAD_ANYDEPTH, 2);
    assert_eq!(cvbind::imgcodecs::IMREAD_ANYCOLOR, 4);
    assert_eq!(cvbind::imgcodecs::IMREAD_LOAD_GDAL, 8);
    assert_eq!(cvbind::imgcodecs::IMREAD_REDUCED_GRAYSCALE_2, 16);
    assert_eq!(cvbind::imgcodecs::IMREAD_REDUCED_COLOR_2, 17);
    assert_eq!(cvbind::imgcodecs::IMREAD_REDUCED_GRAYSCALE_4, 32);
    assert_eq!(cvbind::imgcodecs::IMREAD_REDUCED_COLOR_4, 33);
    assert_eq!(cvbind::imgcodecs::IMREAD_REDUCED_GRAYSCALE_8, 64);
    assert_eq!(cvbind::imgcodecs::IMREAD_REDUCED_COLOR_8, 65);
    assert_eq!(cvbind::imgcodecs::IMREAD_IGNORE_ORIENTATION, 128);
}

#[test]
fn imwrite_constants_match_native_values() {
    assert_eq!(cvbind::imgcodecs::IMWRITE_JPEG_QUALITY, 1);
    assert_eq!(cvbind::imgcodecs::IMWRITE_JPEG_PROGRESSIVE, 2);
    assert_eq!(cvbind::imgcodecs::IMWRITE_JPEG_OPTIMIZE, 3);
    assert_eq!(cvbind::imgcodecs::IMWRITE_JPEG_RST_INTERVAL, 4);
    assert_eq!(cvbind::imgcodecs::IMWRITE_JPEG_LUMA_QUALITY, 5);
    assert_eq!(cvbind::imgcodecs::IMWRITE_JPEG_CHROMA_QUALITY, 6);
    assert_eq!(cvbind::imgcodecs::IMWRITE_PNG_COMPRESSION, 16);
    assert_eq!(cvbind::imgcodecs::IMWRITE_PNG_STRATEGY, 17);
    assert_eq!(cvbind::imgcodecs::IMWRITE_PNG_BILEVEL, 18);
    assert_eq!(cvbind::imgcodecs::IMWRITE_PNG_STRATEGY_DEFAULT, 0);
    assert_eq!(cvbind::imgcodecs::IMWRITE_PNG_STRATEGY_FILTERED, 1);
    assert_eq!(cvbind::imgcodecs::IMWRITE_PNG_STRATEGY_HUFFMAN_ONLY, 2);
    assert_eq!(cvbind::imgcodecs::IMWRITE_PNG_STRATEGY_RLE, 3);
    assert_eq!(cvbind::imgcodecs::IMWRITE_PNG_STRATEGY_FIXED, 4);
    assert_eq!(cvbind::imgcodecs::IMWRITE_PXM_BINARY, 32);
    assert_eq!(cvbind::imgcodecs::IMWRITE_WEBP_QUALITY, 64);
    assert_eq!(cvbind::imgcodecs::IMWRITE_PAM_TUPLETYPE, 128);
    assert_eq!(cvbind::imgcodecs::IMWRITE_PAM_FORMAT_NULL, 0);
    assert_eq!(cvbind::imgcodecs::IMWRITE_PAM_FORMAT_BLACKANDWHITE, 1);
    assert_eq!(cvbind::imgcodecs::IMWRITE_PAM_FORMAT_GRAYSCALE, 2);
    assert_eq!(cvbind::imgcodecs::IMWRITE_PAM_FORMAT_GRAYSCALE_ALPHA, 3);
    assert_eq!(cvbind::imgcodecs::IMWRITE_PAM_FORMAT_RGB, 4);
    assert_eq!(cvbind::imgcodecs::IMWRITE_PAM_FORMAT_RGB_ALPHA, 5);
    assert_eq!(cvbind::imgcodecs::IMWRITE_EXR_TYPE, 0x30);
    assert_eq!(cvbind::imgcodecs::IMWRITE_EXR_TYPE_HALF, 1);
    assert_eq!(cvbind::imgcodecs::IMWRITE_EXR_TYPE_FLOAT, 2);
    assert_eq!(cvbind::imgcodecs::IMWRITE_TIFF_RESUNIT, 256);
    assert_eq!(cvbind::imgcodecs::IMWRITE_TIFF_XDPI, 257);
    assert_eq!(cvbind::imgcodecs::IMWRITE_TIFF_YDPI, 258);
    assert_eq!(cvbind::imgcodecs::IMWRITE_TIFF_COMPRESSION, 259);
    assert_eq!(cvbind::imgcodecs::IMWRITE_JPEG2000_COMPRESSION_X1000, 272);
}

#[test]
fn xfeatures2d_constants_match_native_values() {
    assert_eq!(cvbind::xfeatures2d::DAISY_NRM_NONE, 100);
    assert_eq!(cvbind::xfeatures2d::DAISY_NRM_PARTIAL, 101);
    assert_eq!(cvbind::xfeatures2d::DAISY_NRM_FULL, 102);
    assert_eq!(cvbind::xfeatures2d::DAISY_NRM_SIFT, 103);
    assert_eq!(cvbind::xfeatures2d::FREAK_NB_ORIENPAIRS, 45);
    assert_eq!(cvbind::xfeatures2d::FREAK_NB_PAIRS, 512);
    assert_eq!(cvbind::xfeatures2d::FREAK_NB_SCALES, 64);
    assert_eq!(cvbind::xfeatures2d::PCTSignatures_L0_25, 0);
    assert_eq!(cvbind::xfeatures2d::PCTSignatures_L0_5, 1);
    assert_eq!(cvbind::xfeatures2d::PCTSignatures_L1, 2);
    assert_eq!(cvbind::xfeatures2d::PCTSignatures_L2, 3);
    assert_eq!(cvbind::xfeatures2d::PCTSignatures_L2SQUARED, 4);
    assert_eq!(cvbind::xfeatures2d::PCTSignatures_L5, 5);
    assert_eq!(cvbind::xfeatures2d::PCTSignatures_L_INFINITY, 6);
    assert_eq!(cvbind::xfeatures2d::PCTSignatures_UNIFORM, 0);
    assert_eq!(cvbind::xfeatures2d::PCTSignatures_REGULAR, 1);
    assert_eq!(cvbind::xfeatures2d::PCTSignatures_NORMAL, 2);
    assert_eq!(cvbind::xfeatures2d::PCTSignatures_MINUS, 0);
    assert_eq!(cvbind::xfeatures2d::PCTSignatures_GAUSSIAN, 1);
    assert_eq!(cvbind::xfeatures2d::PCTSignatures_HEURISTIC, 2);
}

#[test]
fn window_flags_round_trip_through_their_values() {
    let flags = [
        WindowFlags::WINDOW_NORMAL,
        WindowFlags::WINDOW_AUTOSIZE,
        WindowFlags::WINDOW_OPENGL,
        WindowFlags::WINDOW_FREERATIO,
        WindowFlags::WINDOW_GUI_NORMAL,
    ];
    for f in flags {
        assert_eq!(window_flag_from_value(window_flag_value(f)), Some(f));
    }
    assert_eq!(window_flag_from_value(77), None);
}

#[test]
fn window_properties_round_trip_through_their_values() {
    let props = [
        WindowPropertyFlags::WND_PROP_FULLSCREEN,
        WindowPropertyFlags::WND_PROP_AUTOSIZE,
        WindowPropertyFlags::WND_PROP_ASPECT_RATIO,
        WindowPropertyFlags::WND_PROP_OPENGL,
        WindowPropertyFlags::WND_PROP_VISIBLE,
    ];
    for p in props {
        assert_eq!(window_property_from_value(window_property_value(p)), Some(p));
    }
    assert_eq!(window_property_from_value(-1), None);
    assert_eq!(window_property_from_value(5), None);
}

#[test]
fn imread_scale_divisors() {
    assert_eq!(imread_scale_divisor(cvbind::imgcodecs::IMREAD_REDUCED_GRAYSCALE_2), 2);
    assert_eq!(imread_scale_divisor(cvbind::imgcodecs::IMREAD_REDUCED_COLOR_2), 2);
    assert_eq!(imread_scale_divisor(cvbind::imgcodecs::IMREAD_REDUCED_GRAYSCALE_4), 4);
    assert_eq!(imread_scale_divisor(cvbind::imgcodecs::IMREAD_REDUCED_COLOR_4), 4);
    assert_eq!(imread_scale_divisor(cvbind::imgcodecs::IMREAD_REDUCED_GRAYSCALE_8), 8);
    assert_eq!(imread_scale_divisor(cvbind::imgcodecs::IMREAD_REDUCED_COLOR_8), 8);
    assert_eq!(imread_scale_divisor(cvbind::imgcodecs::IMREAD_COLOR), 1);
    assert_eq!(imread_scale_divisor(cvbind::imgcodecs::IMREAD_UNCHANGED), 1);
}

#[test]
fn mouse_wheel_delta_reads_upper_sixteen_bits() {
    assert_eq!(cvbind::highgui::get_mouse_wheel_delta(120 << 16).unwrap(), 120);
    assert_eq!(cvbind::highgui::get_mouse_wheel_delta((-120 << 16) | 8).unwrap(), -120);
    assert_eq!(cvbind::highgui::get_mouse_wheel_delta(0).unwrap(), 0);
}
