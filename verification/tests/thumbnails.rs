use capture_core::codec::{ChromaSubsampling, THUMB_JPEG_QUALITY};
use capture_core::pixels::thumbnail_job;
use capture_core::thumbnail::{
    bitmap_request, monitor_thumbnail_plan, thumb_size, thumbnail_text, window_thumbnail_plan,
    BlitSource, ThumbnailPlan, WindowRect, THUMB_MAX_H, THUMB_MAX_W,
};

#[test]
fn thumb_size_of_a_full_hd_screen() {
    assert_eq!(thumb_size(1920, 1080), (320, 180));
}

#[test]
fn thumb_size_never_upscales() {
    assert_eq!(thumb_size(100, 50), (100, 50));
    assert_eq!(thumb_size(320, 180), (320, 180));
    assert_eq!(thumb_size(1, 1), (1, 1));
    assert_eq!(thumb_size(10, 180), (10, 180));
}

#[test]
fn thumb_size_of_no_area_is_one_by_one() {
    assert_eq!(thumb_size(0, 0), (1, 1));
    assert_eq!(thumb_size(0, 5), (1, 1));
    assert_eq!(thumb_size(1920, 0), (1, 1));
}

#[test]
fn thumb_size_limited_by_width() {
    assert_eq!(thumb_size(1000, 100), (320, 32));
    assert_eq!(thumb_size(321, 180), (320, 179));
    assert_eq!(thumb_size(3840, 1080), (320, 90));
}

#[test]
fn thumb_size_limited_by_height() {
    assert_eq!(thumb_size(640, 480), (240, 180));
    assert_eq!(thumb_size(100, 1000), (18, 180));
    assert_eq!(thumb_size(1080, 1920), (101, 180));
}

#[test]
fn thumb_size_keeps_a_thin_source_visible() {
    assert_eq!(thumb_size(100_000, 1), (320, 1));
    assert_eq!(thumb_size(1, 100_000), (1, 180));
}

#[test]
fn thumb_size_rounds_halves_up() {
    // 320 * 3 / 640 = 1.5
    assert_eq!(thumb_size(640, 3), (320, 2));
}

#[test]
fn thumb_size_stays_within_the_cap_for_extreme_sources() {
    for (w, h) in [(u32::MAX, u32::MAX), (u32::MAX, 1), (1, u32::MAX), (u32::MAX, 181)] {
        let (tw, th) = thumb_size(w, h);
        assert!(1 <= tw && tw <= THUMB_MAX_W);
        assert!(1 <= th && th <= THUMB_MAX_H);
    }
}

#[test]
fn minimized_window_gets_no_thumbnail() {
    let rect = WindowRect { left: 0, top: 0, right: 800, bottom: 600 };
    assert_eq!(
        window_thumbnail_plan(true, Some(rect)),
        ThumbnailPlan::Skip { width: 0, height: 0 }
    );
}

#[test]
fn window_without_rectangle_gets_no_thumbnail() {
    assert_eq!(window_thumbnail_plan(false, None), ThumbnailPlan::Skip { width: 0, height: 0 });
}

#[test]
fn tiny_window_is_skipped_with_its_size() {
    let rect = WindowRect { left: 100, top: 100, right: 109, bottom: 400 };
    assert_eq!(
        window_thumbnail_plan(false, Some(rect)),
        ThumbnailPlan::Skip { width: 9, height: 300 }
    );
    let flat = WindowRect { left: 0, top: 50, right: 500, bottom: 50 };
    assert_eq!(
        window_thumbnail_plan(false, Some(flat)),
        ThumbnailPlan::Skip { width: 500, height: 1 }
    );
}

#[test]
fn window_thumbnail_is_copied_from_its_rectangle() {
    let rect = WindowRect { left: -200, top: 50, right: 1720, bottom: 1130 };
    assert_eq!(
        window_thumbnail_plan(false, Some(rect)),
        ThumbnailPlan::Blit {
            source: BlitSource { left: -200, top: 50, width: 1920, height: 1080 },
            thumb_width: 320,
            thumb_height: 180,
        }
    );
}

#[test]
fn window_of_exactly_ten_pixels_gets_a_thumbnail() {
    let rect = WindowRect { left: 0, top: 0, right: 10, bottom: 10 };
    assert_eq!(
        window_thumbnail_plan(false, Some(rect)),
        ThumbnailPlan::Blit {
            source: BlitSource { left: 0, top: 0, width: 10, height: 10 },
            thumb_width: 10,
            thumb_height: 10,
        }
    );
}

#[test]
fn window_rectangle_spanning_the_whole_coordinate_range() {
    let rect = WindowRect { left: i32::MIN, top: i32::MIN, right: i32::MAX, bottom: i32::MAX };
    assert_eq!(
        window_thumbnail_plan(false, Some(rect)),
        ThumbnailPlan::Blit {
            source: BlitSource {
                left: i32::MIN,
                top: i32::MIN,
                width: u32::MAX,
                height: u32::MAX
            },
            thumb_width: 180,
            thumb_height: 180,
        }
    );
    let inverted = WindowRect { left: i32::MAX, top: 0, right: i32::MIN, bottom: 100 };
    assert_eq!(
        window_thumbnail_plan(false, Some(inverted)),
        ThumbnailPlan::Skip { width: 1, height: 100 }
    );
}

#[test]
fn monitor_thumbnail_plans() {
    assert_eq!(
        monitor_thumbnail_plan(2560, 1440),
        ThumbnailPlan::Blit {
            source: BlitSource { left: 0, top: 0, width: 2560, height: 1440 },
            thumb_width: 320,
            thumb_height: 180,
        }
    );
    assert_eq!(monitor_thumbnail_plan(0, 1440), ThumbnailPlan::Skip { width: 0, height: 1440 });
    assert_eq!(monitor_thumbnail_plan(2560, 0), ThumbnailPlan::Skip { width: 2560, height: 0 });
}

#[test]
fn bitmap_request_is_top_down_32_bit() {
    let request = bitmap_request(320, 180).unwrap();
    assert_eq!(request.width, 320);
    assert_eq!(request.height, -180);
    assert_eq!(request.planes, 1);
    assert_eq!(request.bit_count, 32);
    assert_eq!(request.buffer_len, 320 * 180 * 4);
}

#[test]
fn bitmap_request_refuses_what_does_not_fit() {
    assert!(bitmap_request(u32::MAX, 1).is_none());
    assert!(bitmap_request(1, 0x8000_0000).is_none());
    let empty = bitmap_request(0, 0).unwrap();
    assert_eq!(empty.buffer_len, 0);
    assert_eq!(empty.height, 0);
}

#[test]
fn thumbnail_text_is_base64_of_the_jpeg() {
    assert_eq!(thumbnail_text(Some(b"foobar".as_slice())), "Zm9vYmFy");
    assert_eq!(thumbnail_text(Some([0xffu8, 0xd8, 0xff].as_slice())), "/9j/");
}

#[test]
fn failed_thumbnail_is_empty_text() {
    assert_eq!(thumbnail_text(None), "");
    assert_eq!(thumbnail_text(Some([].as_slice())), "");
}

#[test]
fn thumbnail_job_swaps_red_and_blue() {
    // two pixels in one row: (b, g, r, a)
    let bgra = [1u8, 2, 3, 255, 10, 20, 30, 255];
    let job = thumbnail_job(&bgra, 2, 1).unwrap();
    assert_eq!(job.pixels, vec![3, 2, 1, 30, 20, 10]);
    assert_eq!(job.width, 2);
    assert_eq!(job.height, 1);
    assert_eq!(job.pitch, 6);
    assert_eq!(job.quality, THUMB_JPEG_QUALITY);
    assert_eq!(job.quality, 70);
    assert_eq!(job.subsampling, ChromaSubsampling::Sub2x2);
}

#[test]
fn thumbnail_job_needs_every_pixel() {
    let bgra = [0u8; 15];
    assert!(thumbnail_job(&bgra, 2, 2).is_none());
    assert!(thumbnail_job(&bgra, 0, 2).is_none());
    assert!(thumbnail_job(&bgra, 2, 0).is_none());
    let enough = [0u8; 16];
    assert_eq!(thumbnail_job(&enough, 2, 2).unwrap().pixels.len(), 12);
}
