//! Tests of blocks, row iteration, and the row-to-record bridge.

use taos_core::big_int_unsigned_view::UBigIntView;
use taos_core::block::{Block, BlockCol};
use taos_core::error::DeError;
use taos_core::value::{Ty, Value};

fn sample_block() -> Block {
    let fields = vec![String::from("a"), String::from("b")];
    let cols = vec![
        BlockCol { ty: Ty::Int, cells: vec![Value::Int(42)] },
        BlockCol { ty: Ty::Int, cells: vec![Value::Null(Ty::Int)] },
    ];
    Block::from_parts(fields, cols).unwrap()
}

#[test]
fn construction_checks_shape() {
    assert_eq!(sample_block().nrows(), 1);
    assert_eq!(sample_block().ncols(), 2);
    // One name for two columns is refused.
    assert!(Block::from_parts(
        vec![String::from("a")],
        vec![
            BlockCol { ty: Ty::Int, cells: vec![Value::Int(1)] },
            BlockCol { ty: Ty::Int, cells: vec![Value::Int(2)] },
        ],
    )
    .is_none());
    // Columns disagreeing on the row count are refused.
    assert!(Block::from_parts(
        Vec::new(),
        vec![
            BlockCol { ty: Ty::Int, cells: vec![Value::Int(1), Value::Int(2)] },
            BlockCol { ty: Ty::Int, cells: vec![Value::Int(3)] },
        ],
    )
    .is_none());
    // A cell of the wrong type is refused.
    assert!(Block::from_parts(
        Vec::new(),
        vec![BlockCol { ty: Ty::Int, cells: vec![Value::Bool(true)] }],
    )
    .is_none());
    // An empty block is fine.
    assert_eq!(Block::from_parts(Vec::new(), Vec::new()).unwrap().nrows(), 0);
}

#[test]
fn deserialization_bridge_scenario() {
    // Schema ["a", "b"], one row [42 (int), null]. Pulling `a` as an integer
    // and `b` as an optional integer yields 42 and absence; pulling `b` as a
    // non-optional integer is a nullness error naming the column.
    let block = sample_block();
    let mut rows = block.rows();
    let mut row = rows.next().unwrap();
    assert_eq!(row.next_i32(), Ok(42));
    assert_eq!(row.next_opt_i32(), Ok(None));
    assert_eq!(row.next_i32(), Err(DeError::Exhausted));

    let mut row = block.rows().next().unwrap();
    assert_eq!(row.next_i32(), Ok(42));
    assert_eq!(row.next_i32(), Err(DeError::Nullness { col: 1 }));
}

#[test]
fn bridge_reports_type_mismatches() {
    let block = sample_block();
    let mut row = block.rows().next().unwrap();
    assert_eq!(
        row.next_u64(),
        Err(DeError::TypeMismatch { col: 0, expected: Ty::UBigInt, found: Ty::Int })
    );
    let mut row = block.rows().next().unwrap();
    assert_eq!(
        row.next_string(),
        Err(DeError::TypeMismatch { col: 0, expected: Ty::VarChar, found: Ty::Int })
    );
}

#[test]
fn bridge_handles_u64_and_text() {
    let cols = vec![
        BlockCol { ty: Ty::UBigInt, cells: vec![Value::UBigInt(9)] },
        BlockCol { ty: Ty::UBigInt, cells: vec![Value::Null(Ty::UBigInt)] },
        BlockCol { ty: Ty::VarChar, cells: vec![Value::VarChar(String::from("hi"))] },
    ];
    let block = Block::from_parts(Vec::new(), cols).unwrap();
    let mut row = block.rows().next().unwrap();
    assert_eq!(row.next_opt_u64(), Ok(Some(9)));
    assert_eq!(row.next_u64(), Err(DeError::Nullness { col: 1 }));
    assert_eq!(row.next_string(), Ok(String::from("hi")));
}

#[test]
fn row_iteration_in_block_order() {
    let cols = vec![
        BlockCol { ty: Ty::Int, cells: vec![Value::Int(1), Value::Int(3)] },
        BlockCol { ty: Ty::Int, cells: vec![Value::Int(2), Value::Int(4)] },
    ];
    let fields = vec![String::from("x"), String::from("y")];
    let block = Block::from_parts(fields, cols).unwrap();

    let mut rows = block.rows();
    let mut seen: Vec<(String, Value)> = Vec::new();
    while let Some(mut row) = rows.next() {
        while let Some((name, value)) = row.next() {
            seen.push((name.clone(), value));
        }
    }
    assert_eq!(
        seen,
        vec![
            (String::from("x"), Value::Int(1)),
            (String::from("y"), Value::Int(2)),
            (String::from("x"), Value::Int(3)),
            (String::from("y"), Value::Int(4)),
        ]
    );
}

#[test]
fn value_views_of_a_row() {
    let cols = vec![
        BlockCol { ty: Ty::Int, cells: vec![Value::Int(5)] },
        BlockCol { ty: Ty::Bool, cells: vec![Value::Bool(true)] },
    ];
    let block = Block::from_parts(vec![String::from("n"), String::from("f")], cols).unwrap();

    let row = block.rows().next().unwrap();
    assert_eq!(row.size_hint(), (2, Some(2)));
    assert_eq!(row.peek_name(), Some(&String::from("n")));
    assert_eq!(row.into_values(), vec![Value::Int(5), Value::Bool(true)]);

    let row = block.rows().next().unwrap();
    let mut values = row.into_value_iter();
    assert_eq!(values.next(), Some(Value::Int(5)));
    assert_eq!(values.next(), Some(Value::Bool(true)));
    assert_eq!(values.next(), None);

    let rows = block.rows();
    let mut vi = rows.values();
    assert_eq!(vi.next(), Some(Value::Int(5)));

    let mut named = block.rows().named_values();
    let (name, value) = named.next().unwrap();
    assert_eq!(name.as_str(), "n");
    assert_eq!(value, Value::Int(5));

    assert_eq!(block.get_ref_unchecked(0, 1), Value::Bool(true));
}

#[test]
fn owning_iteration_and_walk() {
    let cols = vec![BlockCol { ty: Ty::Int, cells: vec![Value::Int(8), Value::Int(9)] }];
    let block = Block::from_parts(vec![String::from("v")], cols).unwrap();
    let mut rows = block.into_rows();
    let mut first = rows.next().unwrap();
    assert_eq!(first.walk_next(), Some(Value::Int(8)));
    assert_eq!(first.walk_next(), None);
    let mut second = rows.next().unwrap();
    assert_eq!(second.walk_next(), Some(Value::Int(9)));
    assert!(rows.next().is_none());
}

#[test]
fn block_from_wire_payload() {
    let a = UBigIntView::from_iter(&vec![Some(1u64), None, Some(3)]);
    let b = UBigIntView::from_iter(&vec![None, Some(5u64), Some(6)]);
    let mut payload: Vec<u8> = Vec::new();
    a.write_raw_into(&mut payload);
    b.write_raw_into(&mut payload);
    let fields = vec![String::from("a"), String::from("b")];
    let block = Block::from_wire_payload(fields, 2, 3, &payload).unwrap();
    assert_eq!(block.nrows(), 3);
    assert_eq!(block.ncols(), 2);
    assert_eq!(block.get_ref_unchecked(0, 0), Value::UBigInt(1));
    assert_eq!(block.get_ref_unchecked(1, 0), Value::Null(Ty::UBigInt));
    assert_eq!(block.get_ref_unchecked(0, 1), Value::Null(Ty::UBigInt));
    assert_eq!(block.get_ref_unchecked(2, 1), Value::UBigInt(6));
    // A truncated payload and a name count that does not fit are refused.
    assert!(Block::from_wire_payload(Vec::new(), 2, 3, &payload[1..]).is_none());
    assert!(Block::from_wire_payload(vec![String::from("only")], 2, 3, &payload).is_none());
}

#[test]
fn column_from_view_keeps_rows() {
    let view = UBigIntView::from_iter(&vec![Some(3u64), None]);
    let col = BlockCol::from_ubigint_view(&view);
    assert_eq!(col.ty, Ty::UBigInt);
    assert_eq!(col.cells, vec![Value::UBigInt(3), Value::Null(Ty::UBigInt)]);
}
