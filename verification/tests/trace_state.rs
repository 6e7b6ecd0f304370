use trace_decoder::Felt;
use trace_decoder::TraceState;

fn to_elements(values: &[u128]) -> Vec<Felt> {
    values.iter().map(|&v| Felt::new(v)).collect()
}

#[test]
fn from_vec() {
    // empty context and loop stacks
    let state = TraceState::from_u128_slice(
        0,
        0,
        2,
        &[101, 1, 2, 3, 4, 5, 6, 7, 8, 9, 10, 11, 12, 13, 14, 15, 16],
    );

    assert_eq!(Felt::new(101), state.op_counter());
    assert_eq!(to_elements(&[1, 2, 3, 4]), *state.sponge());
    assert_eq!(to_elements(&[5, 6, 7]), *state.cf_op_bits());
    assert_eq!(to_elements(&[8, 9, 10, 11, 12]), *state.ld_op_bits());
    assert_eq!(to_elements(&[13, 14]), *state.hd_op_bits());
    assert_eq!(to_elements(&[0]), *state.ctx_stack());
    assert_eq!(to_elements(&[0]), *state.loop_stack());
    assert_eq!(to_elements(&[15, 16, 0, 0, 0, 0, 0, 0]), *state.user_stack());
    assert_eq!(17, state.width());
    assert_eq!(2, state.stack_depth());
    assert_eq!(
        to_elements(&[101, 1, 2, 3, 4, 5, 6, 7, 8, 9, 10, 11, 12, 13, 14, 15, 16]),
        state.to_vec()
    );

    // 1 item on context stack, empty loop stack
    let state = TraceState::from_u128_slice(
        1,
        0,
        2,
        &[
            101, 1, 2, 3, 4, 5, 6, 7, 8, 9, 10, 11, 12, 13, 14, 15, 16, 17,
        ],
    );

    assert_eq!(Felt::new(101), state.op_counter());
    assert_eq!(to_elements(&[1, 2, 3, 4]), *state.sponge());
    assert_eq!(to_elements(&[5, 6, 7]), *state.cf_op_bits());
    assert_eq!(to_elements(&[8, 9, 10, 11, 12]), *state.ld_op_bits());
    assert_eq!(to_elements(&[13, 14]), *state.hd_op_bits());
    assert_eq!(to_elements(&[15]), *state.ctx_stack());
    assert_eq!(to_elements(&[0]), *state.loop_stack());
    assert_eq!(to_elements(&[16, 17, 0, 0, 0, 0, 0, 0]), *state.user_stack());
    assert_eq!(18, state.width());
    assert_eq!(2, state.stack_depth());
    assert_eq!(
        to_elements(&[101, 1, 2, 3, 4, 5, 6, 7, 8, 9, 10, 11, 12, 13, 14, 15, 16, 17]),
        state.to_vec()
    );

    // non-empty loop stack
    let state = TraceState::from_u128_slice(
        2,
        1,
        9,
        &[
            101, 1, 2, 3, 4, 5, 6, 7, 8, 9, 10, 11, 12, 13, 14, 15, 16, 17, 18, 19, 20, 21, 22,
            23, 24, 25, 26,
        ],
    );

    assert_eq!(Felt::new(101), state.op_counter());
    assert_eq!(to_elements(&[1, 2, 3, 4]), *state.sponge());
    assert_eq!(to_elements(&[5, 6, 7]), *state.cf_op_bits());
    assert_eq!(to_elements(&[8, 9, 10, 11, 12]), *state.ld_op_bits());
    assert_eq!(to_elements(&[13, 14]), *state.hd_op_bits());
    assert_eq!(to_elements(&[15, 16]), *state.ctx_stack());
    assert_eq!(to_elements(&[17]), *state.loop_stack());
    assert_eq!(
        to_elements(&[18, 19, 20, 21, 22, 23, 24, 25, 26]),
        *state.user_stack()
    );
    assert_eq!(27, state.width());
    assert_eq!(9, state.stack_depth());
    assert_eq!(
        to_elements(&[
            101, 1, 2, 3, 4, 5, 6, 7, 8, 9, 10, 11, 12, 13, 14, 15, 16, 17, 18, 19, 20, 21, 22,
            23, 24, 25, 26,
        ]),
        state.to_vec()
    );
}

#[test]
fn update() {
    let row_data = to_elements(&[
        101, 1, 2, 3, 4, 5, 6, 7, 8, 9, 10, 11, 12, 13, 14, 15, 16, 17, 18, 19, 20,
    ]);

    // first row
    let mut state = TraceState::new(2, 1, 3);
    state.update(&vec![Felt::new(0); row_data.len()]);

    assert_eq!(0, state.op_counter().as_int());
    assert_eq!(to_elements(&[0, 0, 0, 0]), *state.sponge());
    assert_eq!(to_elements(&[0, 0, 0]), *state.cf_op_bits());
    assert_eq!(to_elements(&[0, 0, 0, 0, 0]), *state.ld_op_bits());
    assert_eq!(to_elements(&[0, 0]), *state.hd_op_bits());
    assert_eq!(to_elements(&[0, 0]), *state.ctx_stack());
    assert_eq!(to_elements(&[0]), *state.loop_stack());
    assert_eq!(to_elements(&[0, 0, 0, 0, 0, 0, 0, 0]), *state.user_stack());
    assert_eq!(21, state.width());
    assert_eq!(3, state.stack_depth());

    // second row
    state.update(&row_data);

    assert_eq!(101, state.op_counter().as_int());
    assert_eq!(to_elements(&[1, 2, 3, 4]), *state.sponge());
    assert_eq!(to_elements(&[5, 6, 7]), *state.cf_op_bits());
    assert_eq!(to_elements(&[8, 9, 10, 11, 12]), *state.ld_op_bits());
    assert_eq!(to_elements(&[13, 14]), *state.hd_op_bits());
    assert_eq!(to_elements(&[15, 16]), *state.ctx_stack());
    assert_eq!(to_elements(&[17]), *state.loop_stack());
    assert_eq!(
        to_elements(&[18, 19, 20, 0, 0, 0, 0, 0]),
        *state.user_stack()
    );
    assert_eq!(21, state.width());
    assert_eq!(3, state.stack_depth());
}

#[test]
fn op_code() {
    let state = TraceState::from_u128_slice(
        1,
        0,
        2,
        &[101, 1, 2, 3, 4, 1, 1, 1, 0, 0, 0, 0, 0, 0, 0, 15, 16, 17],
    );
    assert_eq!(Felt::new(0), state.op_code());

    let state = TraceState::from_u128_slice(
        1,
        0,
        2,
        &[101, 1, 2, 3, 4, 1, 1, 1, 1, 1, 1, 1, 1, 1, 1, 15, 16, 17],
    );
    assert_eq!(Felt::new(127), state.op_code());

    let state = TraceState::from_u128_slice(
        1,
        0,
        2,
        &[101, 1, 2, 3, 4, 1, 1, 1, 1, 1, 1, 1, 1, 1, 0, 15, 16, 17],
    );
    assert_eq!(Felt::new(63), state.op_code());

    let state = TraceState::from_u128_slice(
        1,
        0,
        2,
        &[101, 1, 2, 3, 4, 1, 1, 1, 1, 0, 0, 0, 0, 1, 1, 15, 16, 17],
    );
    assert_eq!(Felt::new(97), state.op_code());
}

#[test]
fn void_op_flag() {
    // the VOID encoding: all three control-flow bits are one
    let state = TraceState::from_u128_slice(
        0,
        0,
        2,
        &[101, 1, 2, 3, 4, 1, 1, 1, 0, 0, 0, 0, 0, 0, 0, 15, 16],
    );
    assert_eq!(Felt::new(1), state.get_void_op_flag());

    let state = TraceState::from_u128_slice(
        0,
        0,
        2,
        &[101, 1, 2, 3, 4, 1, 0, 1, 0, 0, 0, 0, 0, 0, 0, 15, 16],
    );
    assert_eq!(Felt::new(0), state.get_void_op_flag());

    let state = TraceState::from_u128_slice(
        0,
        0,
        2,
        &[101, 1, 2, 3, 4, 0, 0, 0, 0, 0, 0, 0, 0, 0, 0, 15, 16],
    );
    assert_eq!(Felt::new(0), state.get_void_op_flag());
}

#[test]
fn program_hash_and_width() {
    let state = TraceState::from_u128_slice(
        2,
        1,
        9,
        &[
            101, 1, 2, 3, 4, 5, 6, 7, 8, 9, 10, 11, 12, 13, 14, 15, 16, 17, 18, 19, 20, 21, 22,
            23, 24, 25, 26,
        ],
    );
    assert_eq!(to_elements(&[1, 2]), state.program_hash());
    assert_eq!(18, TraceState::compute_decoder_width(2, 1));
    assert_eq!(15, TraceState::compute_decoder_width(0, 0));
}

#[test]
fn set_op_bits() {
    let mut state = TraceState::new(0, 0, 2);
    state.set_op_bits(to_elements(&[1, 1, 1, 0, 1, 0, 1, 0, 1, 1]));
    assert_eq!(to_elements(&[1, 1, 1]), *state.cf_op_bits());
    assert_eq!(to_elements(&[0, 1, 0, 1, 0]), *state.ld_op_bits());
    assert_eq!(to_elements(&[1, 1]), *state.hd_op_bits());
}
