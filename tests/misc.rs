use radiant::color::RGB;
use radiant::misc::{pcg_hash, LogLevel};
use radiant::rendering::image_index;
use radiant::scene::SceneType;

#[test]
fn pcg_hash_known_values() {
    assert_eq!(pcg_hash(0), 129708002);
    assert_eq!(pcg_hash(1), 2831084092);
    assert_eq!(pcg_hash(42), 1223963391);
    assert_eq!(pcg_hash(u32::MAX), 3861530882);
}

#[test]
fn pcg_hash_is_not_identity() {
    for i in 0u32..64 {
        assert_ne!(pcg_hash(i), i);
    }
}

#[test]
fn log_labels() {
    assert_eq!(LogLevel::Fatal.label(), "\x1b[1;41m[FATAL]\x1b[0m");
    assert_eq!(LogLevel::Error.label(), "\x1b[1;31m[ERROR]\x1b[0m");
    assert_eq!(LogLevel::Warning.label(), "\x1b[1;33m[WARNING]\x1b[0m");
    assert_eq!(LogLevel::Info.label(), "\x1b[1;32m[INFO]\x1b[0m");
    assert_eq!(LogLevel::Debug.label(), "\x1b[1;34m[DEBUG]\x1b[0m");
}

#[test]
fn scene_names() {
    assert_eq!(SceneType::from("basic"), Some(SceneType::Basic));
    assert_eq!(SceneType::from("complex"), Some(SceneType::Complex));
    assert_eq!(SceneType::from("Basic"), None);
    assert_eq!(SceneType::from(""), None);
    assert_eq!(SceneType::from("complex "), None);
}

#[test]
fn channels_are_distinct() {
    assert_ne!(RGB::Red, RGB::Green);
    assert_ne!(RGB::Green, RGB::Blue);
}

#[test]
fn image_rows_are_flipped() {
    // Top image row comes from the last scanline of the buffer.
    assert_eq!(image_index(0, 0, 400, 225), 224 * 400);
    assert_eq!(image_index(399, 224, 400, 225), 399);
    assert_eq!(image_index(5, 1, 10, 3), 15);
}

#[test]
fn image_index_covers_buffer_once() {
    let (w, h) = (7usize, 5usize);
    let mut seen = vec![0u32; w * h];
    for y in 0..h {
        for x in 0..w {
            seen[image_index(x, y, w, h)] += 1;
        }
    }
    assert!(seen.iter().all(|&c| c == 1));
}
