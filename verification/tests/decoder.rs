use trace_decoder::Decoder;
use trace_decoder::Event;
use trace_decoder::ExecutionError;
use trace_decoder::Felt;
use trace_decoder::Join;
use trace_decoder::OpBatch;
use trace_decoder::Operation;
use trace_decoder::Process;
use trace_decoder::Span;
use trace_decoder::Split;
use trace_decoder::Word;
use trace_decoder::BlockStack;
use trace_decoder::decoder::get_num_op_groups_in_span;
use trace_decoder::decoder::remove_opcode_from_group;

fn felt(v: u128) -> Felt {
    Felt::new(v)
}

fn word(a: u128, b: u128, c: u128, d: u128) -> Word {
    Word::from_elements(felt(a), felt(b), felt(c), felt(d))
}

fn cell(m: &Vec<Vec<Felt>>, col: usize, row: usize) -> u128 {
    m[col][row].as_int()
}

fn zero_batch() -> OpBatch {
    OpBatch::new(vec![felt(0); 8], 1)
}

/// The control-flow bits of row `row`, as the code they spell in
/// little-endian order.
fn cf_code_of(m: &Vec<Vec<Felt>>, row: usize) -> u128 {
    cell(m, 5, row) + 2 * cell(m, 6, row) + 4 * cell(m, 7, row)
}

#[test]
fn join_end_round_trip() {
    let left = word(1, 2, 3, 4);
    let right = word(5, 6, 7, 8);
    let hash = word(9, 10, 11, 12);
    let block = Join::new(hash, left, right);

    let mut decoder = Decoder::new();
    decoder.start_join(&block, felt(40));
    decoder.end_join(&block);
    let m = decoder.into_trace(16, 0);

    assert_eq!(23, m.len());
    for col in m.iter() {
        assert_eq!(16, col.len());
    }

    // JOIN row: parent address zero at the root, children in the hash cells
    assert_eq!(0, cell(&m, 0, 0));
    assert_eq!(1, cf_code_of(&m, 0));
    assert_eq!(0, cell(&m, 15, 0));
    assert_eq!([1, 2, 3, 4], [cell(&m, 1, 0), cell(&m, 2, 0), cell(&m, 3, 0), cell(&m, 4, 0)]);
    assert_eq!([5, 6, 7, 8], [cell(&m, 17, 0), cell(&m, 18, 0), cell(&m, 19, 0), cell(&m, 20, 0)]);

    // END row: the block's address and its own hash, zeros beside it
    assert_eq!(1, cell(&m, 0, 1));
    assert_eq!(6, cf_code_of(&m, 1));
    assert_eq!(40, cell(&m, 15, 1));
    assert_eq!([9, 10, 11, 12], [cell(&m, 1, 1), cell(&m, 2, 1), cell(&m, 3, 1), cell(&m, 4, 1)]);
    assert_eq!([0, 0, 0, 0], [cell(&m, 17, 1), cell(&m, 18, 1), cell(&m, 19, 1), cell(&m, 20, 1)]);

    // the rest is idle padding: VOID control-flow bits, zeros elsewhere
    for row in 2..16 {
        assert_eq!(7, cf_code_of(&m, row));
        assert_eq!(0, cell(&m, 0, row));
        assert_eq!(0, cell(&m, 15, row));
    }
}

#[test]
fn split_rows() {
    let on_true = word(1, 1, 1, 1);
    let on_false = word(2, 2, 2, 2);
    let hash = word(3, 3, 3, 3);
    let block = Split::new(hash, on_true, on_false);

    let mut decoder = Decoder::new();
    decoder.start_split(&block, felt(24), felt(1));
    decoder.end_split(&block);
    let m = decoder.into_trace(16, 0);

    assert_eq!(2, cf_code_of(&m, 0));
    assert_eq!([1, 1, 1, 1], [cell(&m, 1, 0), cell(&m, 2, 0), cell(&m, 3, 0), cell(&m, 4, 0)]);
    assert_eq!([2, 2, 2, 2], [cell(&m, 17, 0), cell(&m, 18, 0), cell(&m, 19, 0), cell(&m, 20, 0)]);
    assert_eq!(6, cf_code_of(&m, 1));
    assert_eq!(24, cell(&m, 15, 1));
}

#[test]
fn span_with_respan() {
    let hash = word(7, 7, 7, 7);
    let span = Span::new(hash, vec![zero_batch(), zero_batch()]);

    let mut decoder = Decoder::new();
    decoder.start_span(&span, felt(40));
    for _ in 0..9 {
        decoder.execute_user_op(Operation::Noop);
    }
    decoder.respan(&zero_batch());
    for _ in 0..9 {
        decoder.execute_user_op(Operation::Noop);
    }
    decoder.end_span(&span);
    let m = decoder.into_trace(32, 0);

    // SPAN row: parent zero, total op-group count of both batches
    assert_eq!(4, cf_code_of(&m, 0));
    assert_eq!(0, cell(&m, 15, 0));
    assert_eq!(2, cell(&m, 21, 0));

    // user-op rows of the first batch carry the span's start address; the
    // group counter is per batch: the single group of the batch is the one
    // in progress, so no further groups are left
    for row in 1..10 {
        assert_eq!(0, cf_code_of(&m, row));
        assert_eq!(40, cell(&m, 15, row));
        assert_eq!(0, cell(&m, 16, row));
        assert_eq!(0, cell(&m, 21, row));
    }

    // RESPAN row
    assert_eq!(5, cf_code_of(&m, 10));

    // user-op rows of the second batch carry the address advanced by one
    // hasher cycle
    for row in 11..20 {
        assert_eq!(0, cf_code_of(&m, row));
        assert_eq!(48, cell(&m, 15, row));
        assert_eq!(0, cell(&m, 21, row));
    }

    // END row holds the span's hash
    assert_eq!(6, cf_code_of(&m, 20));
    assert_eq!([7, 7, 7, 7], [cell(&m, 1, 20), cell(&m, 2, 20), cell(&m, 3, 20), cell(&m, 4, 20)]);

    // the remainder is idle
    for row in 21..32 {
        assert_eq!(7, cf_code_of(&m, row));
    }
}

#[test]
fn opcode_arithmetic() {
    // group packing opcodes 1, 2, 3 in little-endian base 2^7
    let g: u128 = 1 + 128 * 2 + 128 * 128 * 3;
    assert_eq!(49409, g);

    let after1 = remove_opcode_from_group(felt(g), Operation::Drop);
    assert_eq!(2 + 128 * 3, after1.as_int());
    let after2 = remove_opcode_from_group(after1, Operation::Swap);
    assert_eq!(3, after2.as_int());
    let after3 = remove_opcode_from_group(after2, Operation::Dup);
    assert_eq!(0, after3.as_int());
}

#[test]
fn opcode_arithmetic_rows() {
    let mut groups = vec![felt(0); 8];
    groups[0] = felt(49409);
    let batch = OpBatch::new(groups, 1);
    let span = Span::new(word(1, 2, 3, 4), vec![batch]);

    let mut decoder = Decoder::new();
    decoder.start_span(&span, felt(8));
    decoder.execute_user_op(Operation::Drop);
    decoder.execute_user_op(Operation::Swap);
    decoder.execute_user_op(Operation::Dup);
    let m = decoder.into_trace(16, 0);

    // the group-ops-left column records each intermediate value
    assert_eq!(386, cell(&m, 22, 1));
    assert_eq!(3, cell(&m, 22, 2));
    assert_eq!(0, cell(&m, 22, 3));

    // the opcode bits of each user-op row spell out the opcode
    let op_code_of = |row: usize| {
        cell(&m, 8, row) + 2 * cell(&m, 9, row) + 4 * cell(&m, 10, row) + 8 * cell(&m, 11, row)
            + 16 * cell(&m, 12, row) + 32 * cell(&m, 13, row) + 64 * cell(&m, 14, row)
    };
    assert_eq!(1, op_code_of(1));
    assert_eq!(2, op_code_of(2));
    assert_eq!(3, op_code_of(3));
}

#[test]
fn respan_reinitializes_group_counter() {
    let span = Span::new(word(7, 7, 7, 7), vec![zero_batch(), zero_batch()]);
    let mut decoder = Decoder::new();
    decoder.start_span(&span, felt(40));
    for _ in 0..9 {
        decoder.execute_user_op(Operation::Noop);
    }
    // a respan replaces the context with the new batch's own group count
    let three_groups = OpBatch::new(vec![felt(0); 8], 3);
    decoder.respan(&three_groups);
    decoder.execute_user_op(Operation::Noop);
    decoder.end_span(&span);
    let m = decoder.into_trace(16, 0);
    assert_eq!(2, cell(&m, 21, 11));
}

#[test]
fn block_stack_parent_chain() {
    let mut stack = BlockStack::new();
    assert_eq!(0, stack.push(felt(10)).as_int());
    assert_eq!(10, stack.push(felt(20)).as_int());
    assert_eq!(20, stack.peek().addr().as_int());
    assert_eq!(10, stack.peek().parent_addr().as_int());
    let top = stack.pop();
    assert_eq!(20, top.addr().as_int());
    assert_eq!(10, top.parent_addr().as_int());
    let bottom = stack.pop();
    assert_eq!(10, bottom.addr().as_int());
    assert_eq!(0, bottom.parent_addr().as_int());
}

#[test]
fn num_op_groups_rounds_to_powers_of_two() {
    let b3 = OpBatch::new(vec![felt(0); 8], 3);
    let b5 = OpBatch::new(vec![felt(0); 8], 5);
    let span = Span::new(word(0, 0, 0, 0), vec![b3, b5]);
    assert_eq!(12, get_num_op_groups_in_span(&span).as_int());
}

#[test]
fn trace_padding_and_rand_rows() {
    let block = Join::new(word(1, 1, 1, 1), word(2, 2, 2, 2), word(3, 3, 3, 3));
    let mut decoder = Decoder::new();
    decoder.start_join(&block, felt(16));
    let m = decoder.into_trace(16, 2);

    for col in m.iter() {
        assert_eq!(16, col.len());
    }
    // rows between the appended part and the randomness rows are idle
    for row in 1..14 {
        assert_eq!(7, cf_code_of(&m, row));
        for col in [0, 15, 16, 21, 22] {
            assert_eq!(0, cell(&m, col, row));
        }
    }
    // the randomness rows differ from the idle row only in the hash cells
    for row in 14..16 {
        assert_eq!(7, cf_code_of(&m, row));
        for col in [0, 8, 9, 10, 11, 12, 13, 14, 15, 16, 21, 22] {
            assert_eq!(0, cell(&m, col, row));
        }
    }
}

#[test]
fn loop_entry_points_leave_state_unchanged() {
    let block = trace_decoder::Loop::new(word(1, 1, 1, 1), word(2, 2, 2, 2));
    let mut decoder = Decoder::new();
    let anchor = Join::new(word(0, 0, 0, 0), word(0, 0, 0, 0), word(0, 0, 0, 0));
    decoder.start_join(&anchor, felt(8));
    decoder.start_loop(&block, felt(1));
    decoder.repeat(&block);
    decoder.end_loop(&block);
    decoder.end_join(&anchor);
    let m = decoder.into_trace(16, 0);
    // only the JOIN and END rows were emitted
    assert_eq!(1, cf_code_of(&m, 0));
    assert_eq!(6, cf_code_of(&m, 1));
    assert_eq!(7, cf_code_of(&m, 2));
}

#[test]
fn process_join_blocks() {
    let block = Join::new(word(9, 9, 9, 9), word(1, 1, 1, 1), word(2, 2, 2, 2));
    let mut process = Process::new(vec![]);
    process.start_join_block(&block).unwrap();
    process.end_join_block(&block).unwrap();
    assert_eq!(9, process.hasher.row.as_int());
    assert_eq!(2, process.stack.clk.as_int());
    let m = process.decoder.into_trace(16, 0);
    // the hasher allocated address 1, recorded on the END row
    assert_eq!(1, cell(&m, 15, 1));
}

#[test]
fn process_split_consumes_condition() {
    let block = Split::new(word(9, 9, 9, 9), word(1, 1, 1, 1), word(2, 2, 2, 2));
    let mut process = Process::new(vec![felt(5)]);
    process.start_split_block(&block).unwrap();
    assert_eq!(0, process.stack.items.len());
    process.end_split_block(&block).unwrap();
}

#[test]
fn process_split_underflows_on_empty_stack() {
    let block = Split::new(word(9, 9, 9, 9), word(1, 1, 1, 1), word(2, 2, 2, 2));
    let mut process = Process::new(vec![]);
    assert_eq!(Err(ExecutionError::StackUnderflow), process.start_split_block(&block));
    // nothing happened: no row, no address, no tick
    assert_eq!(0, process.stack.clk.as_int());
    assert_eq!(1, process.hasher.row.as_int());
}

#[test]
fn process_span_block() {
    let span = Span::new(word(4, 4, 4, 4), vec![zero_batch()]);
    let mut process = Process::new(vec![]);
    process.start_span_block(&span).unwrap();
    for _ in 0..9 {
        process.decoder.execute_user_op(Operation::Noop);
    }
    process.end_span_block(&span).unwrap();
    assert_eq!(9, process.hasher.row.as_int());
    let m = process.decoder.into_trace(16, 0);
    assert_eq!(4, cf_code_of(&m, 0));
    assert_eq!(1, cell(&m, 21, 0));
    assert_eq!(6, cf_code_of(&m, 10));
}

#[test]
fn events_emit_one_row_each() {
    let join_a = Join::new(word(9, 9, 9, 9), word(1, 1, 1, 1), word(2, 2, 2, 2));
    let join_b = Join::new(word(9, 9, 9, 9), word(1, 1, 1, 1), word(2, 2, 2, 2));
    let span_a = Span::new(word(4, 4, 4, 4), vec![zero_batch()]);
    let span_b = Span::new(word(4, 4, 4, 4), vec![zero_batch()]);
    let events = vec![
        Event::StartJoin(join_a, felt(8)),
        Event::StartSpan(span_a, felt(16)),
        Event::ExecuteUserOp(Operation::Noop),
        Event::ConsumeImmValue,
        Event::StartOpGroup(felt(0)),
        Event::EndSpan(span_b),
        Event::EndJoin(join_b),
    ];
    let mut decoder = Decoder::new();
    decoder.apply_events(&events);
    let m = decoder.into_trace(16, 0);
    // five of the seven events emit a row; the two context-only ones do not
    assert_eq!(1, cf_code_of(&m, 0));
    assert_eq!(4, cf_code_of(&m, 1));
    assert_eq!(0, cf_code_of(&m, 2));
    assert_eq!(6, cf_code_of(&m, 3));
    assert_eq!(6, cf_code_of(&m, 4));
    assert_eq!(7, cf_code_of(&m, 5));
}
