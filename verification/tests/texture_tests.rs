use realms::data::Color;
use realms::texture::Texture;

#[test]
fn get_reads_row_major() {
    let texture = Texture {
        width: 3,
        height: 2,
        pixels: vec![
            Color::rgb(1, 0, 0),
            Color::rgb(2, 0, 0),
            Color::rgb(3, 0, 0),
            Color::rgb(4, 0, 0),
            Color::rgb(5, 0, 0),
            Color::rgb(6, 0, 0),
        ],
    };
    assert_eq!(*texture.get(0, 0), Color::rgb(1, 0, 0));
    assert_eq!(*texture.get(2, 0), Color::rgb(3, 0, 0));
    assert_eq!(*texture.get(0, 1), Color::rgb(4, 0, 0));
    assert_eq!(*texture.get(2, 1), Color::rgb(6, 0, 0));
}

#[test]
fn load_pixels_downscales_uniform_image() {
    // a 4x4 image of one color stays that color at any size
    let src: Vec<(u8, u8, u8, u8)> = vec![(10, 20, 30, 40); 16];
    let texture = Texture::load_pixels(4, &src, 2, 2).expect("source is well-formed");
    assert_eq!(texture.width, 2);
    assert_eq!(texture.height, 2);
    assert_eq!(texture.pixels.len(), 4);
    for y in 0..2 {
        for x in 0..2 {
            assert_eq!(*texture.get(x, y), Color::rgba(10, 20, 30, 40));
        }
    }
}

#[test]
fn load_pixels_keeps_pixels_at_same_size() {
    let src: Vec<(u8, u8, u8, u8)> = vec![
        (1, 2, 3, 4),
        (5, 6, 7, 8),
        (9, 10, 11, 12),
        (13, 14, 15, 16),
    ];
    let texture = Texture::load_pixels(2, &src, 2, 2).expect("source is well-formed");
    assert_eq!(texture.width, 2);
    assert_eq!(texture.height, 2);
    assert_eq!(*texture.get(0, 0), Color::rgba(1, 2, 3, 4));
    assert_eq!(*texture.get(1, 0), Color::rgba(5, 6, 7, 8));
    assert_eq!(*texture.get(0, 1), Color::rgba(9, 10, 11, 12));
    assert_eq!(*texture.get(1, 1), Color::rgba(13, 14, 15, 16));
}

#[test]
fn load_pixels_rejects_ragged_rows() {
    // 4 pixels cannot form full rows of width 3
    let src: Vec<(u8, u8, u8, u8)> = vec![(0, 0, 0, 0); 4];
    assert!(Texture::load_pixels(3, &src, 2, 2).is_none());
}

#[test]
fn load_pixels_rejects_empty_source() {
    let src: Vec<(u8, u8, u8, u8)> = Vec::new();
    assert!(Texture::load_pixels(1, &src, 1, 1).is_none());
    assert!(Texture::load_pixels(0, &src, 1, 1).is_none());
}
