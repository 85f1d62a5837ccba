use kameloso::qr::{qr_overlay_options, QrCodeParams, QrMatrix, QR_CODE_OVERLAY_ID};

const WHITE: [u8; 4] = [0xff, 0xff, 0xff, 0];
const BLACK: [u8; 4] = [0, 0, 0, 0];

fn pixels_of(bytes: &[u8]) -> Vec<[u8; 4]> {
    assert_eq!(bytes.len() % 4, 0);
    bytes.chunks(4).map(|c| [c[0], c[1], c[2], c[3]]).collect()
}

#[test]
fn one_dark_module_magnified_once() {
    // A single dark module with its quiet border: a 3x3 white square with a
    // black centre.
    let m = QrMatrix::new(1, vec![true]).unwrap();
    let bytes = m.bgra_pixels(1);
    let px = pixels_of(&bytes);
    assert_eq!(px.len(), 9);
    let expected = [
        WHITE, WHITE, WHITE, //
        WHITE, BLACK, WHITE, //
        WHITE, WHITE, WHITE,
    ];
    assert_eq!(px, expected);
}

#[test]
fn magnification_scales_rows_and_columns() {
    let m = QrMatrix::new(1, vec![true]).unwrap();
    let bytes = m.bgra_pixels(2);
    let px = pixels_of(&bytes);
    // Side is (1 + 2) * 2 = 6 pixels.
    assert_eq!(px.len(), 36);
    for row in 0..6 {
        for col in 0..6 {
            let expect_black = (2..4).contains(&row) && (2..4).contains(&col);
            assert_eq!(
                px[row * 6 + col],
                if expect_black { BLACK } else { WHITE },
                "row {row} col {col}"
            );
        }
    }
}

#[test]
fn two_by_two_matrix_lays_out_row_major() {
    let m = QrMatrix::new(2, vec![true, false, false, true]).unwrap();
    let bytes = m.bgra_pixels(1);
    let px = pixels_of(&bytes);
    assert_eq!(px.len(), 16);
    let expected = [
        WHITE, WHITE, WHITE, WHITE, //
        WHITE, BLACK, WHITE, WHITE, //
        WHITE, WHITE, BLACK, WHITE, //
        WHITE, WHITE, WHITE, WHITE,
    ];
    assert_eq!(px, expected);
}

#[test]
fn matrix_must_be_square() {
    assert!(QrMatrix::new(2, vec![true, false, false]).is_none());
    assert!(QrMatrix::new(0, vec![true]).is_none());
    assert!(QrMatrix::new(0, Vec::new()).is_some());
}

#[test]
fn overlay_options_place_the_code_with_its_border() {
    let params = QrCodeParams {
        path: "/run/qr-code.bgra".to_owned(),
        width: 27,
        magnification: 4,
        active: true,
    };
    let opts = qr_overlay_options(&params);
    assert_eq!(opts.id, QR_CODE_OVERLAY_ID);
    assert_eq!(opts.x, 20);
    assert_eq!(opts.y, 20);
    assert_eq!(opts.file, "/run/qr-code.bgra");
    assert_eq!(opts.offset, 0);
    assert_eq!(opts.w, (27 + 2) * 4);
    assert_eq!(opts.h, (27 + 2) * 4);
}
