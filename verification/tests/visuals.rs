use pointer_overlay::error::OverlayError;
use pointer_overlay::visual::{find_deep, find_usable, find_visual32, DepthInfo, VisualClass, VisualInfo};

fn visual(visual_id: u32, class: VisualClass, bits_per_rgb_value: u8) -> VisualInfo {
    VisualInfo { visual_id, class, bits_per_rgb_value }
}

#[test]
fn finds_the_true_colour_visual_of_depth_32() {
    let depths = vec![
        DepthInfo { depth: 24, visuals: vec![visual(1, VisualClass::TrueColor, 8)] },
        DepthInfo {
            depth: 32,
            visuals: vec![
                visual(2, VisualClass::DirectColor, 8),
                visual(3, VisualClass::TrueColor, 10),
                visual(4, VisualClass::TrueColor, 8),
                visual(5, VisualClass::TrueColor, 8),
            ],
        },
    ];
    assert_eq!(find_visual32(&depths), Ok(visual(4, VisualClass::TrueColor, 8)));
    assert_eq!(find_deep(&depths), Some(1));
    assert_eq!(find_usable(&depths[1].visuals), Some(2));
}

#[test]
fn missing_depth_is_an_error() {
    let depths = vec![
        DepthInfo { depth: 24, visuals: vec![visual(1, VisualClass::TrueColor, 8)] },
        DepthInfo { depth: 1, visuals: vec![] },
    ];
    assert_eq!(find_visual32(&depths), Err(OverlayError::DepthNotSupported));
    assert_eq!(find_visual32(&[]), Err(OverlayError::DepthNotSupported));
    assert_eq!(find_deep(&depths), None);
}

#[test]
fn depth_without_usable_visual_is_an_error() {
    let depths = vec![DepthInfo {
        depth: 32,
        visuals: vec![
            visual(2, VisualClass::DirectColor, 8),
            visual(3, VisualClass::TrueColor, 10),
            visual(4, VisualClass::PseudoColor, 8),
        ],
    }];
    assert_eq!(find_visual32(&depths), Err(OverlayError::NoUsableVisual));
    let empty = vec![DepthInfo { depth: 32, visuals: vec![] }];
    assert_eq!(find_visual32(&empty), Err(OverlayError::NoUsableVisual));
    assert_eq!(find_usable(&depths[0].visuals), None);
}

#[test]
fn only_the_first_depth_of_32_bits_is_searched() {
    let depths = vec![
        DepthInfo { depth: 32, visuals: vec![visual(2, VisualClass::StaticGray, 8)] },
        DepthInfo { depth: 32, visuals: vec![visual(9, VisualClass::TrueColor, 8)] },
    ];
    assert_eq!(find_visual32(&depths), Err(OverlayError::NoUsableVisual));
}

#[test]
fn usable_means_true_colour_with_eight_bits() {
    assert!(visual(1, VisualClass::TrueColor, 8).usable());
    assert!(!visual(1, VisualClass::TrueColor, 6).usable());
    assert!(!visual(1, VisualClass::DirectColor, 8).usable());
    assert!(!visual(1, VisualClass::GrayScale, 8).usable());
    assert!(!visual(1, VisualClass::StaticColor, 8).usable());
    assert!(!visual(1, VisualClass::StaticGray, 8).usable());
    assert!(!visual(1, VisualClass::PseudoColor, 8).usable());
    assert!(!visual(1, VisualClass::Other, 8).usable());
}

#[test]
fn each_error_has_its_message() {
    assert_eq!(OverlayError::PointerOutsideOutputs.message(), "pointer is not on any output");
    assert_eq!(OverlayError::DepthNotSupported.message(), "32 bit depth not supported");
    assert_eq!(OverlayError::NoUsableVisual.message(), "no usable 32 bit visual found");
    assert_eq!(OverlayError::PushConstantsUnsupported.message(), "adapter lacks push constants");
}
