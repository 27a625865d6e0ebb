use rotating_cube::surface::FormatInfo;
use rotating_cube::surface::PresentMode;
use rotating_cube::surface::SurfaceConfig;
use rotating_cube::surface::choose_format;

#[test]
fn first_srgb_format_is_preferred() {
    let formats = vec![
        FormatInfo { id: 10, srgb: false },
        FormatInfo { id: 11, srgb: true },
        FormatInfo { id: 12, srgb: true },
    ];
    assert_eq!(choose_format(&formats), FormatInfo { id: 11, srgb: true });
}

#[test]
fn without_srgb_the_first_format_is_taken() {
    let formats = vec![FormatInfo { id: 5, srgb: false }, FormatInfo { id: 6, srgb: false }];
    assert_eq!(choose_format(&formats), FormatInfo { id: 5, srgb: false });
}

#[test]
fn single_format_is_taken() {
    let formats = vec![FormatInfo { id: 3, srgb: false }];
    assert_eq!(choose_format(&formats), FormatInfo { id: 3, srgb: false });
}

#[test]
fn startup_config_uses_fifo_and_window_size() {
    let formats = vec![FormatInfo { id: 1, srgb: true }];
    let config = SurfaceConfig::new(800, 600, &formats);
    assert_eq!(config.width, 800);
    assert_eq!(config.height, 600);
    assert_eq!(config.format, FormatInfo { id: 1, srgb: true });
    assert_eq!(config.present_mode, PresentMode::Fifo);
}

#[test]
fn resize_there_and_back_keeps_format() {
    let formats = vec![FormatInfo { id: 1, srgb: true }, FormatInfo { id: 2, srgb: false }];
    let mut config = SurfaceConfig::new(800, 600, &formats);
    let format = config.format;
    config.resize(1024, 768);
    assert_eq!(config.width, 1024);
    assert_eq!(config.height, 768);
    assert_eq!(config.format, format);
    assert_eq!(config.present_mode, PresentMode::Fifo);
    config.resize(800, 600);
    assert_eq!(config.width, 800);
    assert_eq!(config.height, 600);
    assert_eq!(config.format, format);
}
