use pointer_overlay::error::OverlayError;
use pointer_overlay::geometry::{select_active_output, OutputGeometry, PointerPosition};

fn output(id: u32, x: i16, y: i16, width: u16, height: u16) -> OutputGeometry {
    OutputGeometry { id, x, y, width, height }
}

fn at(x: i16, y: i16) -> PointerPosition {
    PointerPosition { x, y }
}

#[test]
fn selects_the_output_under_the_pointer() {
    let outputs = vec![output(1, 0, 0, 1920, 1080), output(2, 1920, 0, 2560, 1440)];
    assert_eq!(select_active_output(&outputs, at(500, 300)), Ok(outputs[0]));
    assert_eq!(select_active_output(&outputs, at(2000, 1200)), Ok(outputs[1]));
}

#[test]
fn rectangles_are_half_open() {
    let o = output(1, 10, 20, 100, 50);
    assert!(o.contains(at(10, 20)));
    assert!(o.contains(at(109, 69)));
    assert!(!o.contains(at(110, 20)));
    assert!(!o.contains(at(10, 70)));
    assert!(!o.contains(at(9, 20)));
    assert!(!o.contains(at(10, 19)));
    let outputs = vec![output(1, 0, 0, 1920, 1080), output(2, 1920, 0, 1920, 1080)];
    assert_eq!(select_active_output(&outputs, at(1919, 0)), Ok(outputs[0]));
    assert_eq!(select_active_output(&outputs, at(1920, 0)), Ok(outputs[1]));
    assert_eq!(
        select_active_output(&outputs, at(3840, 0)),
        Err(OverlayError::PointerOutsideOutputs)
    );
    assert_eq!(
        select_active_output(&outputs, at(0, 1080)),
        Err(OverlayError::PointerOutsideOutputs)
    );
}

#[test]
fn overlapping_outputs_resolve_to_the_first() {
    let outputs = vec![
        output(7, 100, 100, 50, 50),
        output(8, 0, 0, 1920, 1080),
        output(9, 0, 0, 1920, 1080),
    ];
    assert_eq!(select_active_output(&outputs, at(120, 120)), Ok(outputs[0]));
    assert_eq!(select_active_output(&outputs, at(500, 300)), Ok(outputs[1]));
}

#[test]
fn no_output_under_the_pointer_is_an_error() {
    let outputs = vec![output(1, 0, 0, 1920, 1080)];
    assert_eq!(
        select_active_output(&outputs, at(-1, 5)),
        Err(OverlayError::PointerOutsideOutputs)
    );
    assert_eq!(
        select_active_output(&[], at(0, 0)),
        Err(OverlayError::PointerOutsideOutputs)
    );
}

#[test]
fn empty_rectangle_contains_nothing() {
    let outputs = vec![output(1, 0, 0, 0, 0), output(2, 0, 0, 10, 10)];
    assert_eq!(select_active_output(&outputs, at(0, 0)), Ok(outputs[1]));
}

#[test]
fn rectangle_edges_beyond_16_bits_do_not_wrap() {
    let o = output(1, 30000, 30000, 60000, 60000);
    assert!(o.contains(at(32767, 32767)));
    assert!(!o.contains(at(29999, 32767)));
    let far = output(2, -32768, -32768, 65535, 65535);
    assert!(far.contains(at(-32768, -32768)));
    assert!(far.contains(at(32766, 32766)));
    assert!(!far.contains(at(32767, 0)));
}

#[test]
fn window_is_a_tenth_of_the_output_width_on_both_sides() {
    assert_eq!(output(1, 0, 0, 1920, 1080).window_size(), (192, 192));
    assert_eq!(output(1, 0, 0, 2560, 1440).window_size(), (256, 256));
    assert_eq!(output(1, 0, 0, 1366, 768).window_size(), (136, 136));
    assert_eq!(output(1, 0, 0, 9, 768).window_size(), (0, 0));
    assert_eq!(output(1, 0, 0, 65535, 1).window_size(), (6553, 6553));
}
