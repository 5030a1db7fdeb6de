use procedural_scene::camera::{camera_action, CameraAction};
use procedural_scene::environment::{uv_debug_texture, TEXEL_BYTES, TEXTURE_SIZE};

const PALETTE: [u8; 32] = [
    255, 102, 159, 255, 255, 159, 102, 255, 236, 255, 102, 255, 121, 255, 102, 255, 102, 255, 198,
    255, 102, 198, 255, 255, 121, 102, 255, 255, 236, 102, 255, 255,
];

#[test]
fn texture_is_the_palette_turned_row_by_row() {
    let mut palette = PALETTE;
    let mut texture_data = [0u8; 8 * 8 * 4];
    for y in 0..8 {
        let offset = 8 * y * 4;
        texture_data[offset..(offset + 8 * 4)].copy_from_slice(&palette);
        palette.rotate_right(4);
    }
    assert_eq!(uv_debug_texture(), texture_data.to_vec());
}

#[test]
fn texture_size_and_first_rows() {
    assert_eq!(TEXTURE_SIZE, 8);
    assert_eq!(TEXEL_BYTES, 4);
    let data = uv_debug_texture();
    assert_eq!(data.len(), 256);
    assert_eq!(&data[0..32], &PALETTE[..]);
    assert_eq!(&data[32..36], &PALETTE[28..32]);
    assert_eq!(&data[36..64], &PALETTE[0..28]);
    // the last row is the first turned left by one texel
    assert_eq!(&data[224..252], &PALETTE[4..32]);
    assert_eq!(&data[252..256], &PALETTE[0..4]);
}

#[test]
fn texture_is_opaque_and_striped() {
    let data = uv_debug_texture();
    for y in 0..8 {
        for x in 0..8 {
            let here = 4 * (8 * y + x);
            assert_eq!(data[here + 3], 255);
            if y > 0 {
                let above = 4 * (8 * (y - 1) + (x + 7) % 8);
                assert_eq!(data[here..here + 4], data[above..above + 4]);
            }
        }
    }
}

#[test]
fn camera_orbits_while_a_drag_button_is_held() {
    assert_eq!(camera_action(true, false), CameraAction::Orbit);
    assert_eq!(camera_action(false, true), CameraAction::Orbit);
    assert_eq!(camera_action(true, true), CameraAction::Orbit);
}

#[test]
fn camera_holds_when_no_drag_button_is_held() {
    assert_eq!(camera_action(false, false), CameraAction::Hold);
}
