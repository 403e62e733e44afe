use geocore::colorizer::{Breakpoint, Colorizer, RgbaColor};
use geocore::dense_grid::Grid;
use geocore::error::Error;
use geocore::fmtnum::format_fixed_micro;
use geocore::grid::GridShape2D;
use geocore::image_ops::{image_pixel_to_raster_pixel, ToPng};

const MICRO: i64 = 1_000_000;

fn black_to_white() -> Colorizer {
    Colorizer::linear_gradient(
        vec![
            Breakpoint {
                value: 0,
                color: RgbaColor::new(0, 0, 0, 255),
            },
            Breakpoint {
                value: 255 * MICRO,
                color: RgbaColor::new(255, 255, 255, 255),
            },
        ],
        RgbaColor::transparent(),
        RgbaColor::pink(),
    )
    .unwrap()
}

#[test]
fn linear_gradient() {
    let shape = GridShape2D::from([2, 2]);
    // cells: (0,0)=255, (0,1)=100, second row zero
    let raster = Grid::new(shape, vec![255u8, 100, 0, 0], None).unwrap();

    let image_bytes = raster.to_png(100, 100, &black_to_white()).unwrap();

    let decoded = image::load_from_memory(&image_bytes).unwrap().to_rgba8();
    assert_eq!(decoded.width(), 100);
    assert_eq!(decoded.height(), 100);
    // upper-left quadrant samples cell (0,0) = 255 -> white
    assert_eq!(decoded.get_pixel(10, 10), &image::Rgba([255, 255, 255, 255]));
    // upper-right quadrant samples cell (0,1) = 100 -> gray 100
    assert_eq!(decoded.get_pixel(90, 10), &image::Rgba([100, 100, 100, 255]));
    // lower half samples zero cells -> black
    assert_eq!(decoded.get_pixel(10, 90), &image::Rgba([0, 0, 0, 255]));
    assert_eq!(decoded.get_pixel(90, 90), &image::Rgba([0, 0, 0, 255]));
}

#[test]
fn palette() {
    let shape = GridShape2D::from([2, 2]);
    // cells: (0,0)=2, (0,1)=1, second row zero
    let raster = Grid::new(shape, vec![2u8, 1, 0, 0], None).unwrap();

    let colorizer = Colorizer::Palette {
        colors: vec![
            (0, RgbaColor::new(0, 0, 0, 255)),
            (1 * MICRO, RgbaColor::new(255, 0, 0, 255)),
            (2 * MICRO, RgbaColor::new(255, 255, 255, 255)),
        ],
        no_data_color: RgbaColor::transparent(),
        default_color: RgbaColor::transparent(),
    };

    let image_bytes = raster.to_png(100, 100, &colorizer).unwrap();

    let decoded = image::load_from_memory(&image_bytes).unwrap().to_rgba8();
    assert_eq!(decoded.get_pixel(10, 10), &image::Rgba([255, 255, 255, 255]));
    assert_eq!(decoded.get_pixel(90, 10), &image::Rgba([255, 0, 0, 255]));
    assert_eq!(decoded.get_pixel(10, 90), &image::Rgba([0, 0, 0, 255]));
}

#[test]
fn rgba() {
    let shape = GridShape2D::from([2, 2]);
    // cells hold packed RGBA: (0,0) red, (0,1) green, second row black
    let raster = Grid::new(
        shape,
        vec![0xFF00_00FF_u32, 0x00FF_00FF, 0x0000_00FF, 0x0000_00FF],
        None,
    )
    .unwrap();

    let image_bytes = raster.to_png(100, 100, &Colorizer::Rgba).unwrap();

    let decoded = image::load_from_memory(&image_bytes).unwrap().to_rgba8();
    assert_eq!(decoded.get_pixel(10, 10), &image::Rgba([255, 0, 0, 255]));
    assert_eq!(decoded.get_pixel(90, 10), &image::Rgba([0, 255, 0, 255]));
    assert_eq!(decoded.get_pixel(10, 90), &image::Rgba([0, 0, 0, 255]));
    assert_eq!(decoded.get_pixel(90, 90), &image::Rgba([0, 0, 0, 255]));
}

#[test]
fn gradient_validation_rejects_bad_breakpoints() {
    let one_stop = vec![Breakpoint {
        value: 0,
        color: RgbaColor::black(),
    }];
    assert!(matches!(
        Colorizer::linear_gradient(one_stop, RgbaColor::transparent(), RgbaColor::pink()),
        Err(Error::Colorizer { .. })
    ));

    let descending = vec![
        Breakpoint {
            value: 10,
            color: RgbaColor::black(),
        },
        Breakpoint {
            value: 5,
            color: RgbaColor::white(),
        },
    ];
    assert!(matches!(
        Colorizer::linear_gradient(descending, RgbaColor::transparent(), RgbaColor::pink()),
        Err(Error::Colorizer { .. })
    ));
}

#[test]
fn gradient_interpolates_and_defaults_out_of_range() {
    let colorizer = black_to_white();
    assert_eq!(colorizer.no_data_color(), RgbaColor::transparent());
    assert_eq!(colorizer.color_at(0), RgbaColor::new(0, 0, 0, 255));
    assert_eq!(colorizer.color_at(255 * MICRO), RgbaColor::new(255, 255, 255, 255));
    assert_eq!(colorizer.color_at(100 * MICRO), RgbaColor::new(100, 100, 100, 255));
    // out of range on either side falls back to the default color
    assert_eq!(colorizer.color_at(-MICRO), RgbaColor::pink());
    assert_eq!(colorizer.color_at(256 * MICRO), RgbaColor::pink());
}

#[test]
fn palette_looks_values_up_exactly() {
    let colorizer = Colorizer::Palette {
        colors: vec![
            (0, RgbaColor::new(0, 0, 0, 255)),
            (1 * MICRO, RgbaColor::new(255, 0, 0, 255)),
            (2 * MICRO, RgbaColor::new(255, 255, 255, 255)),
        ],
        no_data_color: RgbaColor::transparent(),
        default_color: RgbaColor::pink(),
    };
    assert_eq!(colorizer.color_at(1 * MICRO), RgbaColor::new(255, 0, 0, 255));
    assert_eq!(colorizer.color_at(3 * MICRO), RgbaColor::pink());
}

#[test]
fn rgba_colorizer_unpacks_channels() {
    let colorizer = Colorizer::Rgba;
    let packed: i64 = 0xFF00_00FF;
    assert_eq!(
        colorizer.color_at(packed * MICRO),
        RgbaColor::new(255, 0, 0, 255)
    );
    let packed: i64 = 0x00FF_00FF;
    assert_eq!(
        colorizer.color_at(packed * MICRO),
        RgbaColor::new(0, 255, 0, 255)
    );
}

#[test]
fn half_pixel_center_rounding_picks_the_nearest_cell() {
    // a 2-cell axis rendered at 100 pixels: the first 50 pixels sample
    // cell 0, the rest cell 1
    assert_eq!(image_pixel_to_raster_pixel(0, 2, 100), 0);
    assert_eq!(image_pixel_to_raster_pixel(49, 2, 100), 0);
    assert_eq!(image_pixel_to_raster_pixel(50, 2, 100), 1);
    assert_eq!(image_pixel_to_raster_pixel(99, 2, 100), 1);
    // identity when sizes match
    assert_eq!(image_pixel_to_raster_pixel(3, 7, 7), 3);
}

#[test]
fn fixed_point_values_render_without_trailing_zeros() {
    assert_eq!(format_fixed_micro(166_021_440_000), "166021.44");
    assert_eq!(format_fixed_micro(0), "0");
    assert_eq!(format_fixed_micro(-1_500_000), "-1.5");
    assert_eq!(format_fixed_micro(9_329_005_180_000), "9329005.18");
    assert_eq!(format_fixed_micro(123), "0.000123");
    assert_eq!(format_fixed_micro(-60 * 1_000_000), "-60");
}
