//! Tests of the null bitmap and the unsigned big-integer column view:
//! building from optional values, slicing, and the wire round trip.

use taos_core::big_int_unsigned_view::UBigIntView;
use taos_core::value::{Ty, Value};

#[test]
fn test_slice() {
    let data = [Some(0u64), Some(1), Some(u64::MIN), Some(u64::MAX)];
    let view = UBigIntView::from_iter(&data.to_vec());
    let slice = view.slice(1..3);
    assert!(slice.is_some());

    let data = [None, Some(u64::MIN), Some(u64::MAX), None];
    let view = UBigIntView::from_iter(&data.to_vec());
    let range = 1..4;
    let slice = view.slice(range.clone()).unwrap();
    let mut it = slice.iter();
    for i in range {
        let v = it.next().unwrap();
        assert_eq!(v, data[i]);
    }
}

#[test]
fn from_iter_reports_every_row() {
    let data = vec![Some(5u64), None, Some(7), None, None, Some(0), Some(u64::MAX), None, Some(9)];
    let view = UBigIntView::from_iter(&data);
    assert_eq!(view.len(), data.len());
    for (i, d) in data.iter().enumerate() {
        assert_eq!(view.is_null(i), d.is_none());
        assert_eq!(view.get(i), *d);
    }
    assert_eq!(view.get(data.len()), None);
    assert!(!view.is_null(data.len()));
    assert_eq!(view.to_vec(), data);
    assert_eq!(view.to_nulls_vec(), vec![false, true, false, true, true, false, false, true, false]);
}

#[test]
fn wire_encoding_is_bit_exact() {
    // Two rows: one absent, one holding 0x0102030405060708. The bitmap packs
    // least-significant bit first, so row 0 absent gives the byte 0x01; the
    // value bytes are little-endian, with a zero placeholder for the absent
    // row.
    let view = UBigIntView::from_iter(&vec![None, Some(0x0102030405060708u64)]);
    let mut out: Vec<u8> = Vec::new();
    let n = view.write_raw_into(&mut out);
    assert_eq!(n, out.len());
    assert_eq!(
        out,
        vec![
            0x01, // bitmap: bit 0 set (row 0 null), bit 1 clear
            0, 0, 0, 0, 0, 0, 0, 0, // placeholder for the null row
            0x08, 0x07, 0x06, 0x05, 0x04, 0x03, 0x02, 0x01, // 0x0102030405060708 LE
        ]
    );
}

#[test]
fn wire_round_trip_reproduces_rows() {
    let data = vec![Some(1u64), None, Some(3), None, Some(5), Some(6), None, Some(8), Some(9)];
    let view = UBigIntView::from_iter(&data);
    let mut out: Vec<u8> = Vec::new();
    view.write_raw_into(&mut out);
    let back = UBigIntView::from_raw_bytes(&out, data.len()).unwrap();
    assert_eq!(back.len(), view.len());
    assert_eq!(back.to_vec(), data);
}

#[test]
fn ingest_rejects_wrong_shapes() {
    // Too short for two rows.
    assert!(UBigIntView::from_raw_bytes(&[0u8; 8], 2).is_none());
    // Right length but a set padding bit in the bitmap.
    let mut bytes = vec![0u8; 1 + 16];
    bytes[0] = 0b0000_0100; // bit 2 is padding for a 2-row column
    assert!(UBigIntView::from_raw_bytes(&bytes, 2).is_none());
    // Same length with clear padding parses.
    bytes[0] = 0b0000_0010;
    let v = UBigIntView::from_raw_bytes(&bytes, 2).unwrap();
    assert_eq!(v.to_vec(), vec![Some(0), None]);
}

#[test]
fn slice_matches_skip_take() {
    let data = vec![Some(10u64), None, Some(30), None, Some(50), Some(60), None];
    let view = UBigIntView::from_iter(&data);
    for start in 0..data.len() + 2 {
        for end in 0..data.len() + 2 {
            let slice = view.slice(start..end);
            let expected: Vec<Option<u64>> =
                data.iter().skip(start).take(end.saturating_sub(start)).cloned().collect();
            match slice {
                None => assert!(start >= data.len() || expected.is_empty()),
                Some(s) => {
                    assert_eq!(s.to_vec(), expected);
                    let (lo, hi) = s.iter().size_hint();
                    assert_eq!(lo, expected.len());
                    assert_eq!(hi, Some(expected.len()));
                }
            }
        }
    }
}

#[test]
fn concatenation_keeps_order() {
    let a = UBigIntView::from_iter(&vec![Some(1u64), None, Some(3)]);
    let b = UBigIntView::from_iter(&vec![None, Some(5u64)]);
    let c = a.concat(&b);
    assert_eq!(c.to_vec(), vec![Some(1), None, Some(3), None, Some(5)]);
}

#[test]
fn iterator_is_sized_and_restartable() {
    let view = UBigIntView::from_iter(&vec![Some(4u64), None, Some(6)]);
    let mut it = view.iter();
    assert_eq!(it.len(), 3);
    assert_eq!(it.next(), Some(Some(4)));
    assert_eq!(it.len(), 2);
    assert_eq!(it.next(), Some(None));
    assert_eq!(it.next(), Some(Some(6)));
    assert_eq!(it.next(), None);
    assert_eq!(it.size_hint(), (0, Some(0)));
    // A fresh call restarts at row zero.
    let mut again = view.iter();
    assert_eq!(again.next(), Some(Some(4)));
}

#[test]
fn null_iter_and_type() {
    let view = UBigIntView::from_iter(&vec![None, Some(2u64)]);
    assert_eq!(view.ty(), Ty::UBigInt);
    let mut nulls = view.is_null_iter();
    assert_eq!(nulls.next(), Some(true));
    assert_eq!(nulls.next(), Some(false));
    assert_eq!(nulls.next(), None);
}

#[test]
fn building_from_generic_values() {
    let values = vec![
        Value::UBigInt(7),
        Value::Null(Ty::UBigInt),
        Value::Int(-1),
        Value::Bool(true),
        Value::VarChar(String::from("text")),
    ];
    let view = UBigIntView::from_borrowed_value_iter(&values);
    assert_eq!(
        view.to_vec(),
        vec![Some(7), None, Some(u64::MAX), Some(1), None]
    );
}
