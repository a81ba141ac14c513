use re_viewer::rgba::padded_bytes_per_row;
use re_viewer::rgba::read_texture_to_image;
use re_viewer::rgba::swap_red_and_blue;
use re_viewer::rgba::RgbaFrame;
use re_viewer::rgba::TextureFormat;
use re_viewer::rgba::TextureTooShort;

#[test]
fn rows_are_padded_to_the_alignment() {
    assert_eq!(padded_bytes_per_row(1), 256);
    assert_eq!(padded_bytes_per_row(64), 256);
    assert_eq!(padded_bytes_per_row(65), 512);
    assert_eq!(padded_bytes_per_row(0), 0);
    assert_eq!(
        padded_bytes_per_row(1) as u32,
        wgpu::COPY_BYTES_PER_ROW_ALIGNMENT
    );
}

fn mapped(rows: usize) -> Vec<u8> {
    let mut data = vec![0u8; 256 * rows];
    for row in 0..rows {
        for i in 0..8 {
            data[256 * row + i] = (10 * row + i) as u8;
        }
    }
    data
}

#[test]
fn padding_is_dropped() {
    let frame = read_texture_to_image(2, 2, TextureFormat::Other, &mapped(2)).unwrap();
    assert_eq!((frame.width, frame.height), (2, 2));
    assert_eq!(
        frame.data,
        vec![0, 1, 2, 3, 4, 5, 6, 7, 10, 11, 12, 13, 14, 15, 16, 17]
    );
}

#[test]
fn red_and_blue_are_swapped_for_bgra() {
    for format in [TextureFormat::Bgra8Unorm, TextureFormat::Bgra8UnormSrgb] {
        let frame = read_texture_to_image(2, 2, format, &mapped(2)).unwrap();
        assert_eq!(
            frame.data,
            vec![2, 1, 0, 3, 6, 5, 4, 7, 12, 11, 10, 13, 16, 15, 14, 17]
        );
    }
}

#[test]
fn rows_behind_the_picture_stay() {
    let frame = read_texture_to_image(2, 1, TextureFormat::Bgra8Unorm, &mapped(2)).unwrap();
    assert_eq!(
        frame.data,
        vec![2, 1, 0, 3, 6, 5, 4, 7, 10, 11, 12, 13, 14, 15, 16, 17]
    );
}

#[test]
fn missing_rows_are_an_error() {
    assert_eq!(
        read_texture_to_image(2, 3, TextureFormat::Other, &mapped(2)),
        Err(TextureTooShort)
    );
    let mut short = mapped(2);
    short.pop();
    assert_eq!(
        read_texture_to_image(2, 2, TextureFormat::Other, &short),
        Err(TextureTooShort)
    );
    assert_eq!(
        TextureTooShort.message(),
        "Failed to convert offscreen texture to RGBA image"
    );
}

#[test]
fn a_second_swap_undoes_the_first() {
    let mut frame = RgbaFrame {
        width: 1,
        height: 2,
        data: vec![1, 2, 3, 4, 5, 6, 7, 8, 9],
    };
    swap_red_and_blue(&mut frame);
    assert_eq!(frame.data, vec![3, 2, 1, 4, 7, 6, 5, 8, 9]);
    swap_red_and_blue(&mut frame);
    assert_eq!(frame.data, vec![1, 2, 3, 4, 5, 6, 7, 8, 9]);
}
