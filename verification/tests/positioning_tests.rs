use std::collections::HashMap;

use furina::positioning::{Pos, Rect, Size};

#[test]
fn test_pos_new() {
    let pos = Pos::new(10, 20);
    assert_eq!(pos.x, 10);
    assert_eq!(pos.y, 20);
}

#[test]
fn test_pos_default() {
    let pos: Pos<i32> = Pos::default();
    assert_eq!(pos.x, 0);
    assert_eq!(pos.y, 0);
}

#[test]
fn test_pos_add() {
    let pos1 = Pos::new(10, 20);
    let pos2 = Pos::new(5, 15);
    let result = pos1 + pos2;
    assert_eq!(result.x, 15);
    assert_eq!(result.y, 35);
}

#[test]
fn test_pos_add_size() {
    let pos = Pos::new(10, 20);
    let size = Size::new(100, 50);
    let result = pos + size;
    assert_eq!(result.x, 110);
    assert_eq!(result.y, 70);
}

#[test]
fn test_pos_sub() {
    let pos1 = Pos::new(10, 20);
    let pos2 = Pos::new(5, 15);
    let result = pos1 - pos2;
    assert_eq!(result.x, 5);
    assert_eq!(result.y, 5);
}

#[test]
fn test_pos_display() {
    let pos = Pos::new(10, 20);
    assert_eq!(pos.to_text(), "(10, 20)");
}

#[test]
fn test_pos_clone_and_equality() {
    let pos1 = Pos::new(10, 20);
    let pos2 = pos1;
    assert_eq!(pos1, pos2);
}

#[test]
fn test_pos_with_negative_values() {
    let pos = Pos::new(-10, -20);
    let pos2 = Pos::new(5, 10);
    let result = pos + pos2;
    assert_eq!(result.x, -5);
    assert_eq!(result.y, -10);
}

#[test]
fn pos_display_writes_negative_coordinates() {
    assert_eq!(Pos::new(-7, 0).to_text(), "(-7, 0)");
    assert_eq!(Pos::new(i32::MIN, i32::MAX).to_text(), "(-2147483648, 2147483647)");
}

#[test]
fn test_rect_new() {
    let rect = Rect::new(10, 20, 100, 50);
    assert_eq!(rect.left, 10);
    assert_eq!(rect.top, 20);
    assert_eq!(rect.width, 100);
    assert_eq!(rect.height, 50);
}

#[test]
fn test_rect_default() {
    let rect: Rect<i32> = Rect::default();
    assert_eq!(rect.left, 0);
    assert_eq!(rect.top, 0);
    assert_eq!(rect.width, 0);
    assert_eq!(rect.height, 0);
}

#[test]
fn test_rect_origin() {
    let rect = Rect::new(10, 20, 100, 50);
    let origin = rect.origin();
    assert_eq!(origin.x, 10);
    assert_eq!(origin.y, 20);
}

#[test]
fn test_rect_size() {
    let rect = Rect::new(10, 20, 100, 50);
    let size = rect.size();
    assert_eq!(size.width, 100);
    assert_eq!(size.height, 50);
}

#[test]
fn test_rect_translate() {
    let rect = Rect::new(10, 20, 100, 50);
    let pos = Pos::new(5, 15);
    let translated = rect.translate(pos);

    assert_eq!(translated.left, 15);
    assert_eq!(translated.top, 35);
    assert_eq!(translated.width, 100);
    assert_eq!(translated.height, 50);
}

#[test]
fn test_rect_display() {
    let rect = Rect::new(10, 20, 100, 50);
    let display_str = rect.to_text();
    assert_eq!(display_str, "Rect (10, 20) -> Size(50, 100)");
}

#[test]
fn test_rect_clone_and_equality() {
    let rect1 = Rect::new(10, 20, 100, 50);
    let rect2 = rect1;
    assert_eq!(rect1, rect2);
}

#[test]
fn test_rect_convert_u32_to_usize() {
    let rect = Rect::new(10_u32, 20_u32, 100_u32, 50_u32);
    let converted = rect.to_rect_usize();

    assert_eq!(converted.left, 10_usize);
    assert_eq!(converted.top, 20_usize);
    assert_eq!(converted.width, 100_usize);
    assert_eq!(converted.height, 50_usize);
}

#[test]
fn test_rect_convert_usize_to_i32() {
    let rect = Rect::new(10_usize, 20_usize, 100_usize, 50_usize);
    let converted = rect.to_rect_i32();

    assert_eq!(converted.left, 10_i32);
    assert_eq!(converted.top, 20_i32);
    assert_eq!(converted.width, 100_i32);
    assert_eq!(converted.height, 50_i32);
}

#[test]
fn rect_conversions_wrap_as_casts_do() {
    let rect = Rect::new(-1_i32, -2_i32, 3_i32, i32::MIN);
    let converted = rect.to_rect_usize();
    assert_eq!(converted.left, -1_i32 as usize);
    assert_eq!(converted.top, -2_i32 as usize);
    assert_eq!(converted.width, 3);
    assert_eq!(converted.height, i32::MIN as usize);

    let wide = Rect::new(usize::MAX, 0x8000_0000_usize, 0x1_0000_0005_usize, 7_usize);
    let narrowed = wide.to_rect_i32();
    assert_eq!(narrowed.left, usize::MAX as i32);
    assert_eq!(narrowed.top, 0x8000_0000_usize as i32);
    assert_eq!(narrowed.width, 5);
    assert_eq!(narrowed.height, 7);
}

#[test]
fn test_rect_with_negative_coordinates() {
    let rect = Rect::new(-10, -20, 100, 50);
    let pos = Pos::new(5, 10);
    let translated = rect.translate(pos);

    assert_eq!(translated.left, -5);
    assert_eq!(translated.top, -10);
}

#[test]
fn test_rect_zero_size() {
    let rect = Rect::new(10, 20, 0, 0);
    let size = rect.size();
    assert_eq!(size.width, 0);
    assert_eq!(size.height, 0);
}

#[test]
fn test_size_new() {
    let size = Size::new(100, 50);
    assert_eq!(size.width, 100);
    assert_eq!(size.height, 50);
}

#[test]
fn test_size_default() {
    let size: Size<i32> = Size::default();
    assert_eq!(size.width, 0);
    assert_eq!(size.height, 0);
}

#[test]
fn test_size_display() {
    let size = Size::new(100, 50);
    assert_eq!(size.to_text(), "Size(50, 100)");
}

#[test]
fn test_size_clone_and_equality() {
    let size1 = Size::new(100, 50);
    let size2 = size1;
    assert_eq!(size1, size2);
}

#[test]
fn test_size_hash_i32() {
    let size1 = Size::new(100_i32, 50_i32);
    let size2 = Size::new(100_i32, 50_i32);
    let size3 = Size::new(200_i32, 50_i32);

    let mut map = HashMap::new();
    map.insert(size1, "first");

    assert!(map.contains_key(&size2));
    assert!(!map.contains_key(&size3));
}

#[test]
fn test_size_hash_usize() {
    let size1 = Size::new(100_usize, 50_usize);
    let size2 = Size::new(100_usize, 50_usize);

    let mut map = HashMap::new();
    map.insert(size1, "test");
    assert!(map.contains_key(&size2));
}

#[test]
fn test_size_hash_u32() {
    let size1 = Size::new(100_u32, 50_u32);
    let size2 = Size::new(100_u32, 50_u32);

    let mut map = HashMap::new();
    map.insert(size1, "test");
    assert!(map.contains_key(&size2));
}

#[test]
fn test_size_large_values() {
    let size = Size::new(u32::MAX, u32::MAX);
    assert_eq!(size.width, u32::MAX);
    assert_eq!(size.height, u32::MAX);
}

#[test]
fn test_serialization_integration() {
    let first_pos = Pos::new(42, 84);
    let first_size = Size::new(1920, 1080);
    let first_rect = Rect::new(100, 200, 800, 600);

    assert_eq!(first_pos.x, 42);
    assert_eq!(first_size.width, 1920);
    assert_eq!(first_rect.width, 800);

    let cloned_pos = first_pos;
    assert_eq!(first_pos, cloned_pos);
}

#[test]
fn test_memory_efficiency() {
    let positions: Vec<Pos<i32>> = (0..1000).map(|i| Pos::new(i, i)).collect();

    let sizes: Vec<Size<usize>> = (0..1000).map(|i| Size::new(i, i * 2)).collect();

    assert_eq!(positions.len(), 1000);
    assert_eq!(sizes.len(), 1000);
    assert_eq!(positions[500], Pos::new(500, 500));
    assert_eq!(sizes[500], Size::new(500, 1000));
}
