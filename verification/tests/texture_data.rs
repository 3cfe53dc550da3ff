use render_common::SampleType;
use render_common::TextureFormat;
use render_common::TextureFormatClass;
use render_common::UpdateRegion;

#[test]
fn update_region_returns_what_it_was_made_with() {
    let region = UpdateRegion::new(1, 2, 30, 40);
    assert_eq!(region.left(), 1);
    assert_eq!(region.top(), 2);
    assert_eq!(region.width(), 30);
    assert_eq!(region.height(), 40);
}

#[test]
fn update_region_keeps_extreme_values() {
    let region = UpdateRegion::new(0, usize::MAX, usize::MAX, 0);
    assert_eq!(region.left(), 0);
    assert_eq!(region.top(), usize::MAX);
    assert_eq!(region.width(), usize::MAX);
    assert_eq!(region.height(), 0);
}

#[test]
fn update_region_is_copied_by_value() {
    let region = UpdateRegion::new(5, 6, 7, 8);
    let copy = region;
    let clone = region.clone();
    assert_eq!(copy.left(), region.left());
    assert_eq!(copy.top(), region.top());
    assert_eq!(clone.width(), 7);
    assert_eq!(clone.height(), 8);
}

#[test]
fn integer_texels_map_to_their_single_channel_class() {
    assert!(<u8 as TextureFormat>::CLASS == TextureFormatClass::Unsigned8_1);
    assert!(<u16 as TextureFormat>::CLASS == TextureFormatClass::Unsigned16_1);
    assert!(<u32 as TextureFormat>::CLASS == TextureFormatClass::Unsigned32_1);
    assert!(<i8 as TextureFormat>::CLASS == TextureFormatClass::Signed8_1);
    assert!(<i16 as TextureFormat>::CLASS == TextureFormatClass::Signed16_1);
    assert!(<i32 as TextureFormat>::CLASS == TextureFormatClass::Signed32_1);
}

#[test]
fn format_classes_are_pairwise_distinct() {
    let classes = [
        TextureFormatClass::Unsigned8_1,
        TextureFormatClass::Unsigned8_4,
        TextureFormatClass::Unsigned16_1,
        TextureFormatClass::Unsigned32_1,
        TextureFormatClass::Signed8_1,
        TextureFormatClass::Signed16_1,
        TextureFormatClass::Signed32_1,
        TextureFormatClass::Float32_1,
        TextureFormatClass::Float32_4,
    ];
    for (i, a) in classes.iter().enumerate() {
        for (j, b) in classes.iter().enumerate() {
            assert_eq!(a == b, i == j);
        }
    }
}

#[test]
fn sample_types_are_two_distinct_variants() {
    assert!(matches!(SampleType::Point, SampleType::Point));
    assert!(matches!(SampleType::Linear, SampleType::Linear));
    assert!(!matches!(SampleType::Point, SampleType::Linear));
}
